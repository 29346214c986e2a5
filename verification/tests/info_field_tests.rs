use plc_service::protocol::info_field::{InfoField, InfoFieldDown, InfoFieldType, InfoFieldUp, INFO_FIELD_SIZE};

fn sample_down() -> InfoFieldDown {
    InfoFieldDown {
        route_flag: 1,
        node_flag: 1,
        comm_model_mark: 1,
        conflict_check: 1,
        relay_level: 1,
        channel_flag: 10,
        ecc: 2,
        answer_bytes: 3,
        speed: 1284,
        speed_unit_flag: 1,
        seq_num: 6,
    }
}

fn sample_up() -> InfoFieldUp {
    InfoFieldUp {
        route_flag: 1,
        comm_model_mark: 1,
        relay_level: 8,
        channel_flag: 10,
        line_mark: 3,
        meter_feature: 2,
        cmd_signal_quality: 5,
        res_signal_quality: 4,
        event_mark: 0x67,
        seq_num: 6,
    }
}

#[test]
fn test_info_field_down_from_bytes() {
    let bytes = [0x1F, 0x2A, 0x03, 0x04, 0x85, 0x06];
    let info_field = InfoField::from_bytes(InfoFieldType::Down, &bytes).unwrap();
    if let InfoField::Down(down) = info_field {
        assert_eq!(down.route_flag, 1);
        assert_eq!(down.node_flag, 1);
        assert_eq!(down.comm_model_mark, 1);
        assert_eq!(down.conflict_check, 1);
        assert_eq!(down.relay_level, 1);
        assert_eq!(down.channel_flag, 10);
        assert_eq!(down.ecc, 2);
        assert_eq!(down.answer_bytes, 3);
        assert_eq!(down.speed, 1284);
        assert_eq!(down.speed_unit_flag, 1);
        assert_eq!(down.seq_num, 6);
    } else {
        panic!("Expected InfoField::Down");
    }
}

#[test]
fn test_info_field_up_from_bytes() {
    let bytes = [0x85, 0x0A, 0x23, 0x45, 0x67, 0x06];
    let info_field = InfoField::from_bytes(InfoFieldType::Up, &bytes).unwrap();
    if let InfoField::Up(up) = info_field {
        assert_eq!(up.route_flag, 1);
        assert_eq!(up.comm_model_mark, 1);
        assert_eq!(up.relay_level, 8);
        assert_eq!(up.channel_flag, 10);
        assert_eq!(up.line_mark, 3);
        assert_eq!(up.meter_feature, 2);
        assert_eq!(up.cmd_signal_quality, 5);
        assert_eq!(up.res_signal_quality, 4);
        assert_eq!(up.event_mark, 0x67);
        assert_eq!(up.seq_num, 6);
    } else {
        panic!("Expected InfoField::Up");
    }
}

#[test]
fn test_info_field_down_to_bytes() {
    let info_field = InfoField::Down(sample_down());
    let bytes: [u8; INFO_FIELD_SIZE] = info_field.into();
    assert_eq!(bytes, [0x1F, 0x2A, 0x03, 0x04, 0x85, 0x06]);
}

#[test]
fn test_info_field_up_to_bytes() {
    let info_field = InfoField::Up(sample_up());
    let bytes: [u8; INFO_FIELD_SIZE] = info_field.into();
    assert_eq!(bytes, [0x85, 0x0A, 0x23, 0x45, 0x67, 0x06]);
}

#[test]
fn test_new_info_field() {
    let down = InfoField::new(InfoFieldType::Down, 5, 0, 1);
    if let InfoField::Down(down) = down {
        assert_eq!(down.seq_num, 5);
        assert_eq!(down.comm_model_mark, 1);
    } else {
        panic!("Expected InfoField::Down");
    }

    let up = InfoField::new(InfoFieldType::Up, 6, 0, 0);
    if let InfoField::Up(up) = up {
        assert_eq!(up.seq_num, 6);
        assert_eq!(up.comm_model_mark, 0);
    } else {
        panic!("Expected InfoField::Up");
    }
}

#[test]
fn test_get_type() {
    let down = InfoField::new(InfoFieldType::Down, 5, 0, 1);
    assert_eq!(down.get_type(), InfoFieldType::Down);

    let up = InfoField::new(InfoFieldType::Up, 6, 0, 0);
    assert_eq!(up.get_type(), InfoFieldType::Up);
}

#[test]
fn test_info_field_into_iter() {
    let info_field = InfoField::Down(sample_down());
    let bytes: Vec<u8> = info_field.to_bytes();
    assert_eq!(bytes, vec![0x1F, 0x2A, 0x03, 0x04, 0x85, 0x06]);
}

#[test]
fn test_display_info_field_down() {
    let info_field = InfoField::Down(sample_down());
    let display_string = info_field.to_string();
    assert!(display_string.contains("route_flag: 1"));
    assert!(display_string.contains("seq_num: 6"));
    assert!(display_string.contains("speed: 1284"));
}

#[test]
fn test_display_info_field_up() {
    let info_field = InfoField::Up(sample_up());
    let display_string = info_field.to_string();
    assert!(display_string.contains("route_flag: 1"));
    assert!(display_string.contains("seq_num: 6"));
    assert!(display_string.contains("event_mark: 103"));
}
