use plc_service::mqtt_topic::{MqttTopic, MqttTopicInfoType, MqttTopicOperator};
use plc_service::protocol::app_data::{Address, Afn, AppData, DataFlag};
use plc_service::protocol::frame::{CtrlField, Frame, FrameSeq};
use plc_service::protocol::info_field::{InfoField, InfoFieldDown, InfoFieldType, InfoFieldUp, INFO_FIELD_SIZE};
use plc_service::protocol::user_data::{dec_to_hex, hex_to_dec, AddressField};
use plc_service::APP_NAME;

#[test]
fn frame_with_address_field_reads_back() {
    let mut seq = FrameSeq::new();
    let af = AddressField::new(
        Address::new([1, 2, 3, 4, 5, 6]),
        Some(vec![Address::new([7, 8, 9, 10, 11, 12])]),
        Address::new([13, 14, 15, 16, 17, 18]),
    );
    let app_data = AppData::new(Afn::RouteDataForward, 1, Some(vec![2, 0, 1, 0x68]));
    let frame = Frame::new_request(&mut seq, Some(af.clone()), app_data.clone());
    let back = Frame::from_bytes(frame.to_bytes().as_slice()).unwrap();
    assert_eq!(back.header, frame.header);
    assert_eq!(back.ctrl_field, frame.ctrl_field);
    assert_eq!(back.user_data.info_field, frame.user_data.info_field);
    assert_eq!(back.user_data.address_field, Some(af));
    assert_eq!(back.user_data.app_data, app_data);
    assert_eq!(back.checksum, frame.checksum);
    assert_eq!(back.tail, frame.tail);
}

#[test]
fn frame_without_data_units_reads_back() {
    let frame = Frame::new_response(9, None, AppData::new(Afn::RouteGet, 4, None));
    let back = Frame::from_bytes(frame.to_bytes().as_slice()).unwrap();
    assert_eq!(back.user_data.app_data, frame.user_data.app_data);
    assert_eq!(back.get_seq(), 9);
}

#[test]
fn empty_data_units_read_back_as_absent() {
    let frame = Frame::new_response(0, None, AppData::new(Afn::Answer, 1, Some(vec![])));
    let back = Frame::from_bytes(frame.to_bytes().as_slice()).unwrap();
    assert_eq!(back.user_data.app_data.data_units(), &None);
}

#[test]
fn sequence_numbers_wrap_after_255() {
    let mut seq = FrameSeq::new();
    let mut last = 0u8;
    for i in 0..257u32 {
        last = seq.take();
        if i == 255 {
            assert_eq!(last, 255);
        }
    }
    assert_eq!(last, 0);
}

#[test]
fn control_byte_reads_back() {
    for is_response in [false, true] {
        let c = CtrlField::new(is_response);
        let b: u8 = c.into();
        assert_eq!(CtrlField::try_from(b).unwrap(), c);
    }
}

#[test]
fn info_fields_read_back() {
    let down = InfoFieldDown {
        route_flag: 1,
        node_flag: 0,
        comm_model_mark: 1,
        conflict_check: 0,
        relay_level: 15,
        channel_flag: 3,
        ecc: 15,
        answer_bytes: 200,
        speed: 0x7fff,
        speed_unit_flag: 1,
        seq_num: 77,
    };
    let bytes: [u8; INFO_FIELD_SIZE] = InfoField::Down(down).into();
    assert_eq!(InfoField::from_bytes(InfoFieldType::Down, &bytes).unwrap(), InfoField::Down(down));
    let up = InfoFieldUp {
        route_flag: 0,
        comm_model_mark: 1,
        relay_level: 2,
        channel_flag: 9,
        line_mark: 15,
        meter_feature: 1,
        cmd_signal_quality: 14,
        res_signal_quality: 13,
        event_mark: 1,
        seq_num: 3,
    };
    let bytes: [u8; INFO_FIELD_SIZE] = InfoField::Up(up).into();
    assert_eq!(InfoField::from_bytes(InfoFieldType::Up, &bytes).unwrap(), InfoField::Up(up));
}

#[test]
fn bcd_reads_back() {
    for v in 0..100u8 {
        assert_eq!(hex_to_dec(dec_to_hex(v)), v);
    }
    assert_eq!(dec_to_hex(59), 0x59);
}

#[test]
fn function_numbers_read_back() {
    for n in 1..=255u8 {
        assert_eq!(DataFlag::from_fn_num(n).as_fn_num(), n);
    }
}

#[test]
fn function_codes_read_back() {
    for afn in [Afn::Answer, Afn::Init, Afn::RouteGet, Afn::FileTransfer, Afn::Test] {
        assert_eq!(Afn::try_from(afn.code()).unwrap(), afn);
    }
    assert!(Afn::try_from(0x7e).is_err());
}

#[test]
fn topic_text_reads_back() {
    let t = MqttTopic {
        app: "meter".to_string(),
        operator: MqttTopicOperator::Action,
        info_type: MqttTopicInfoType::Event,
        info_target: APP_NAME.to_string(),
        info_object: "x1".to_string(),
    };
    let text = t.to_string();
    assert_eq!(text, format!("meter/action/event/{APP_NAME}/x1"));
    assert_eq!(MqttTopic::try_from(text.as_str()).unwrap(), t);
}

#[test]
fn request_topic_answers_on_response_topic() {
    assert_eq!(
        MqttTopic::transfer(&format!("meter/get/request/{APP_NAME}/node")),
        format!("{APP_NAME}/get/response/meter/node")
    );
}

#[test]
fn hex_text_decodes_to_the_bytes_encoded() {
    let bytes = [0x00u8, 0x0f, 0xa5, 0xff, 0x68];
    let text = plc_service::text::hex_encode(&bytes);
    assert_eq!(text, "000fa5ff68");
    assert_eq!(plc_service::text::hex_decode_checked(&text), Ok(bytes.to_vec()));
}

#[test]
fn the_relay_level_is_the_number_of_relays() {
    let relays = vec![Address::new([1, 1, 1, 1, 1, 1]), Address::new([2, 2, 2, 2, 2, 2])];
    let af = AddressField::new(Address::new([9, 9, 9, 9, 9, 9]), Some(relays), Address::new([3, 3, 3, 3, 3, 3]));
    let ud = plc_service::protocol::user_data::UserData::new(5, Some(af), AppData::new(Afn::RouteDataForward, 1, Some(vec![1])));
    match ud.info_field {
        InfoField::Down(d) => assert_eq!(d.relay_level, 2),
        _ => panic!("a downlink field"),
    }
}

#[test]
fn user_data_with_two_relays_reads_back() {
    let relays = vec![Address::new([1, 1, 1, 1, 1, 1]), Address::new([2, 2, 2, 2, 2, 2])];
    let af = AddressField::new(Address::new([9, 9, 9, 9, 9, 9]), Some(relays), Address::new([3, 3, 3, 3, 3, 3]));
    let app_data = AppData::new(Afn::RouteDataForward, 1, Some(vec![1, 2]));
    let ud = plc_service::protocol::user_data::UserData::new(7, Some(af.clone()), app_data.clone());
    let bytes = ud.to_bytes();
    assert_eq!(bytes.len(), 6 + 6 * 4 + 3 + 2);
    assert_eq!(ud.length(), bytes.len());
    let back = plc_service::protocol::user_data::UserData::from_bytes(InfoFieldType::Down, &bytes).unwrap();
    assert_eq!(back.info_field, ud.info_field);
    assert_eq!(back.get_seq(), 7);
    assert_eq!(back.address_field, Some(af));
    assert_eq!(back.app_data, app_data);
}

#[test]
fn app_data_reads_back_from_its_bytes() {
    let a = AppData::new(Afn::QueryData, 10, Some(vec![0x12, 0x34]));
    let bytes = a.to_bytes();
    assert_eq!(bytes, vec![0x03, 0x02, 0x01, 0x12, 0x34]);
    assert_eq!(AppData::from_bytes(&bytes), Ok(a));
    assert!(AppData::from_bytes(&[0x07, 1, 0]).is_err());
}

#[test]
fn frame_bytes_follow_the_layout() {
    let frame = Frame::new(false, 3, None, AppData::new(Afn::QueryData, 1, Some(vec![0xaa])));
    let b = frame.to_bytes();
    let n = b.len();
    assert_eq!(n, 6 + 6 + 3 + 1);
    assert_eq!(b[0], 0x68);
    assert_eq!(u16::from_le_bytes([b[1], b[2]]) as usize, n);
    assert_eq!(b[3], 0x43);
    let sum = b[3..n - 2].iter().fold(0u8, |s, x| s.wrapping_add(*x));
    assert_eq!(b[n - 2], sum);
    assert_eq!(b[n - 1], 0x16);
    assert_eq!(Frame::new(true, 3, None, AppData::new(Afn::QueryData, 1, None)).to_bytes()[3], 0x03);
}

#[test]
fn function_number_counts_trailing_zeros() {
    let d = DataFlag { type_: 2, mark: 4 };
    assert_eq!(d.as_fn_num(), 19);
    assert_eq!(d.as_fn_num() as u32, 2 * 8 + d.mark.trailing_zeros() + 1);
}

#[test]
fn downlink_information_bytes_read_back() {
    let b = [0xf5u8, 0x3c, 0x07, 0x34, 0x92, 0x11];
    let info = InfoField::from_bytes(InfoFieldType::Down, &b).unwrap();
    assert_eq!(info.to_bytes(), b.to_vec());
}

#[test]
fn transferring_a_topic_of_this_application_twice_keeps_it() {
    let t = format!("{APP_NAME}/notify/event/{APP_NAME}/x1");
    let once = MqttTopic::transfer(&t);
    assert_eq!(once, t);
    assert_eq!(MqttTopic::transfer(&once), t);
    let r = format!("{APP_NAME}/get/request/{APP_NAME}/node");
    assert_eq!(MqttTopic::transfer(&MqttTopic::transfer(&r)), format!("{APP_NAME}/get/response/{APP_NAME}/node"));
}

#[test]
fn a_relay_less_address_field_adds_twelve_bytes() {
    let app_data = AppData::new(Afn::Answer, 1, Some(vec![1, 2, 3]));
    let without = plc_service::protocol::user_data::UserData::new(1, None, app_data.clone());
    let af = AddressField::new(Address::new([1; 6]), None, Address::new([2; 6]));
    let with = plc_service::protocol::user_data::UserData::new(1, Some(af), app_data);
    assert_eq!(without.length(), 6 + 3 + 3);
    assert_eq!(with.length(), without.length() + 12);
}

#[test]
fn successive_requests_carry_successive_numbers() {
    let mut seq = FrameSeq::new();
    let a = AppData::new(Afn::QueryData, 1, None);
    let f1 = Frame::new_request(&mut seq, None, a.clone());
    let f2 = Frame::new_request(&mut seq, None, a.clone());
    assert_eq!(f2.get_seq(), f1.get_seq().wrapping_add(1));
    assert_eq!(f1.to_bytes()[3], 0x43);
    assert!(!f1.is_master_response() && !f1.is_slave_report());
    assert_eq!(f2.into_app_data(), a);
}

#[test]
fn an_uplink_information_field_reads_back() {
    let up = InfoFieldUp {
        route_flag: 1,
        comm_model_mark: 1,
        relay_level: 3,
        channel_flag: 2,
        line_mark: 5,
        meter_feature: 6,
        cmd_signal_quality: 7,
        res_signal_quality: 8,
        event_mark: 9,
        seq_num: 10,
    };
    let x = InfoField::Up(up);
    assert_eq!(InfoField::from_bytes(InfoFieldType::Up, &x.to_bytes()), Ok(x));
    assert!(InfoField::from_bytes(InfoFieldType::Up, &[0u8; 5]).is_err());
}

#[test]
fn a_frame_with_empty_data_units_reads_back_to_the_same_bytes() {
    let mut seq = FrameSeq::new();
    let f = Frame::new_request(&mut seq, None, AppData::new(Afn::QueryData, 3, Some(vec![])));
    let bytes = f.to_bytes();
    let g = Frame::from_bytes(bytes.as_slice()).unwrap();
    assert_eq!(g.to_bytes(), bytes);
    assert_eq!(g.get_seq(), f.get_seq());
    assert_eq!(g.user_data.app_data.fn_num(), 3);
    assert_eq!(g.is_master_response(), f.is_master_response());
}
