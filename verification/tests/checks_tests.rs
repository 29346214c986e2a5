use plc_service::mqtt_message::MqttMessage;
use plc_service::protocol::app_data::route_get::{ChipInfoResponse, ChipInformation};
use plc_service::protocol::app_data::{printable_date, Address, Afn, AppData, Date};
use plc_service::protocol::frame::{Frame, FrameSeq};
use plc_service::request_info::FrameKey;
use plc_service::serial_port::StreamReader;
use plc_service::service::concurrent_meter::SamplePayload;
use plc_service::service::debug_method::DebugMethod;
use plc_service::service::hplc_info::MqttChipInfo;
use plc_service::service::module_info::{master_id_readable, module_info_readable};
use plc_service::service::node_config::NodeInfo;
use plc_service::service::node_manage::{all_sendable, AcqFilesOperation};
use plc_service::text::{code_valid, is_ascii, is_hex};
use plc_service::uart_handler::routable;
use plc_service::APP_NAME;

#[test]
fn chip_pages_are_numbered_from_their_start() {
    let chip = |a: u8, t: u8| ChipInformation {
        address: Address::new([a, 0, 0, 0, 0, 0]),
        device_type: t,
        id_info: [a; 24],
        software_version: "0102".to_string(),
    };
    let page = ChipInfoResponse { total_node_number: 3, start_seq: 65535, node_number: 2, chip_infos: vec![chip(1, 2), chip(0xab, 3)] };
    let r = MqttChipInfo::from_page(&page);
    assert_eq!(r.len(), 2);
    assert_eq!(r[0].node_sn, 65535);
    assert_eq!(r[1].node_sn, 0);
    assert_eq!(r[0].node_addr, "010000000000");
    assert_eq!(r[1].dev_type, 3);
    assert_eq!(r[1].chip_id, "ab".repeat(24));
    assert_eq!(r[1].chip_soft_ver, "0102");
}

#[test]
fn texts_are_checked_as_the_callers_need() {
    assert!(is_hex("00aaFF"));
    assert!(!is_hex("0a1"));
    assert!(!is_hex("0g"));
    assert!(is_ascii("abc"));
    assert!(!is_ascii("añ"));
    assert!(Address::is_address_text("0123456789ab"));
    assert!(!Address::is_address_text("0123456789a"));
    assert!(code_valid(b'A', b'B'));
    assert!(!code_valid(0x80, 0xff));
    assert!(printable_date(&Date { year: 2024, month: 12, day: 31 }));
    assert!(!printable_date(&Date { year: 2024, month: 165, day: 1 }));
}

#[test]
fn meters_and_readings_are_checked_before_they_are_sent() {
    let good = vec![NodeInfo::new("000000000001".to_string(), "2".to_string())];
    let bad_type = vec![NodeInfo::new("000000000001".to_string(), "x".to_string())];
    let bad_addr = vec![NodeInfo::new("01".to_string(), "2".to_string())];
    assert!(all_sendable(AcqFilesOperation::Add, &good));
    assert!(!all_sendable(AcqFilesOperation::Add, &bad_type));
    assert!(all_sendable(AcqFilesOperation::Del, &bad_type));
    assert!(!all_sendable(AcqFilesOperation::Del, &bad_addr));
    let p = SamplePayload { task_id: "1".into(), acq_addr: "000000000001".into(), pro_type: "2".into(), data: "68aa".into() };
    assert!(p.sendable());
    let q = SamplePayload { data: "68a".into(), ..p.clone() };
    assert!(!q.sendable());
}

#[test]
fn messages_without_token_cannot_be_answered() {
    let topic = format!("app/get/request/{APP_NAME}/moduleInfo");
    assert!(MqttMessage::new(&topic, r#"{"token":"1"}"#).answerable());
    assert!(!MqttMessage::new(&topic, r#"{"prio":1}"#).answerable());
    assert!(!MqttMessage::new("bad", r#"{"token":"1"}"#).answerable());
}

#[test]
fn frames_and_routes_are_checked_before_use() {
    let mut seq = FrameSeq::new();
    let frame = Frame::new_request(&mut seq, None, AppData::new(Afn::QueryData, 1, None));
    let text = plc_service::text::hex_encode(&frame.to_bytes());
    assert!(DebugMethod::frame_decodable(&text));
    assert!(DebugMethod::frame_decodable("zz"));
    let mut reader = StreamReader::new();
    reader.put(&frame.to_bytes());
    assert!(reader.parsable());
    assert!(module_info_readable(&frame));
    assert!(master_id_readable(&frame));
    assert!(routable(FrameKey(0x03, 10), true, false));
    assert!(!routable(FrameKey(0x03, 4), true, false));
    assert!(!routable(FrameKey(0xff, 1), false, false));
    assert!(routable(FrameKey(0xff, 0), false, false));
    assert!(!routable(FrameKey(0x99, 0), false, false));
}
