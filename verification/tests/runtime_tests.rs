use plc_service::config::{
    set_meter_config, ConcurrentConfig, ConcurrentLimit, MeterConfig, MeterReadingConfig,
    MeterReadingLimit,
};
use plc_service::error::{Error, MqttResponseError};
use plc_service::mqtt_handler::{MessageSequence, PriorityMessage, PriorityQueue};
use plc_service::mqtt_message::MqttMessage;
use plc_service::protocol::app_data::answer::{DenyErrorCode, DenyResponse};
use plc_service::protocol::app_data::query_data::{
    CommModuleInfoResponse, GetHplcFreqResponse, MasterIdInfoResponse,
};
use plc_service::protocol::app_data::{Address, Afn, AppData, Date, ModuleIdFormat};
use plc_service::protocol::frame::{Frame, FrameSeq};
use plc_service::request_info::{FrameKey, ReqInfo, UartMessage};
use plc_service::serial_port::StreamReader;
use plc_service::schema_check::schema_check;
use plc_service::service::module_info::{
    HplcFrequencyResponse, ModeIdInfoResponse, ModuleInfo, MqttModeInfoResponse,
};
use plc_service::service::monitor_node::{MonitorNode, MonitorNodeResult};
use plc_service::service::parse_response::{confirm_result, uart_response_handler};
use plc_service::service::route_data_request::RouteDataRequest;
use plc_service::APP_NAME;

fn request(priority: u64, token: &str) -> MqttMessage {
    MqttMessage::new(
        &format!("meter/get/request/{APP_NAME}/masterNode"),
        &format!(r#"{{"token":"{token}","prio":{priority}}}"#),
    )
}

fn json(text: &str) -> serde_json::Value {
    serde_json::from_str(text).unwrap()
}

#[test]
fn priorities_come_from_the_payload() {
    assert_eq!(request(7, "a").get_priority(), 7);
    assert_eq!(MqttMessage::new("t", r#"{"token":"a"}"#).get_priority(), 0);
    assert_eq!(MqttMessage::new("t", "not json").try_get_priority(), None);
    assert_eq!(request(3, "a").try_get_priority(), Some(3));
}

#[test]
fn lower_priority_numbers_are_served_first() {
    let mut seq = MessageSequence::new();
    let mut queue = PriorityQueue::new();
    queue.push(PriorityMessage::new(request(5, "a"), &mut seq));
    queue.push(PriorityMessage::new(request(1, "b"), &mut seq));
    queue.push(PriorityMessage::new(request(5, "c"), &mut seq));
    queue.push(PriorityMessage::new(request(1, "d"), &mut seq));
    let order: Vec<String> = std::iter::from_fn(|| queue.pop())
        .map(|m| m.message.try_get_token().unwrap())
        .collect();
    assert_eq!(order, vec!["b", "d", "a", "c"]);
    assert!(queue.pop().is_none());
}

#[test]
fn arrival_numbers_count_up() {
    let mut seq = MessageSequence::new();
    assert_eq!(seq.take(), 0);
    assert_eq!(seq.take(), 1);
    let p = PriorityMessage::try_new(request(2, "x"), &mut seq).unwrap();
    assert_eq!((p.priority, p.sequence), (2, 2));
    assert!(PriorityMessage::try_new(MqttMessage::new("t", "{"), &mut seq).is_none());
    assert_eq!(seq.take(), 3);
}

fn meter_config() -> MeterConfig {
    MeterConfig {
        init_timeout: 10,
        uart_timeout: 20,
        concurrent: ConcurrentConfig { concurrency_limit: 4, timeout: 30 },
        meter_reading: MeterReadingConfig { cache_queue_size: 100, concurrent_addr: 8, queue_aging_time: 60 },
        resume_interval: 5,
    }
}

#[test]
fn command_line_options_override_settings() {
    let mut config = meter_config();
    let concurrent = ConcurrentLimit { concurrency: Some(9), requests_per_second: None, timeout: None };
    let reading = MeterReadingLimit { queue_size: None, max_addr_num: Some(3), aging_time: Some(90) };
    set_meter_config(&mut config, Some(11), None, &concurrent, &reading, None);
    assert_eq!(config.init_timeout, 11);
    assert_eq!(config.uart_timeout, 20);
    assert_eq!(config.concurrent.concurrency_limit, 9);
    assert_eq!(config.concurrent.timeout, 30);
    assert_eq!(config.meter_reading.cache_queue_size, 100);
    assert_eq!(config.meter_reading.concurrent_addr, 3);
    assert_eq!(config.meter_reading.queue_aging_time, 90);
    assert_eq!(config.resume_interval, 5);
}

#[test]
fn no_options_keep_the_settings() {
    let mut config = meter_config();
    let concurrent = ConcurrentLimit { concurrency: None, requests_per_second: None, timeout: None };
    let reading = MeterReadingLimit { queue_size: None, max_addr_num: None, aging_time: None };
    set_meter_config(&mut config, None, None, &concurrent, &reading, None);
    assert_eq!(config, meter_config());
}

#[test]
fn frames_are_taken_out_of_the_byte_stream() {
    let mut seq = FrameSeq::new();
    let frame = Frame::new_request(&mut seq, None, AppData::new(Afn::QueryData, 1, None));
    let bytes = frame.to_bytes();
    let mut reader = StreamReader::new();
    assert!(reader.is_empty());
    reader.put(&bytes[..4]);
    assert_eq!(reader.parse_frame(), Ok(None));
    reader.put(&bytes[4..]);
    reader.put(&[0x68]);
    let got = reader.parse_frame().unwrap().unwrap();
    assert_eq!(got.to_bytes(), bytes);
    assert_eq!(reader.buffer, vec![0x68]);
}

#[test]
fn a_bad_frame_stays_in_the_stream() {
    let mut seq = FrameSeq::new();
    let mut bytes = Frame::new_request(&mut seq, None, AppData::new(Afn::QueryData, 1, None)).to_bytes();
    let n = bytes.len();
    bytes[n - 2] ^= 0xff;
    let mut reader = StreamReader::new();
    reader.put(&bytes);
    assert!(matches!(reader.parse_frame(), Err(Error::Frame(_))));
    assert_eq!(reader.buffer, bytes);
}

#[test]
fn module_version_texts() {
    let info = CommModuleInfoResponse {
        factory_code: "TC".to_string(),
        chip_code: "01".to_string(),
        version_date: Date { year: 2023, month: 5, day: 9 },
        version: "0102".to_string(),
    };
    let m = MqttModeInfoResponse::from_comm_module_info(info);
    assert_eq!(m.factory_code, "TC");
    assert_eq!(m.module_vendor_code, "01");
    assert_eq!(m.soft_date, "20230509");
    assert_eq!(m.soft_verion, "0102");
    assert_eq!(HplcFrequencyResponse::from_freq(GetHplcFreqResponse { frequency: 2 }).hplc_freq, 2);
}

#[test]
fn module_identifier_texts() {
    let ascii = MasterIdInfoResponse {
        factory_code: "TC".to_string(),
        module_id_length: 3,
        module_id_format: ModuleIdFormat::Ascii,
        module_id: vec![b'A', b'B', b'C'],
    };
    let r = ModeIdInfoResponse::from_master_id(ascii);
    assert_eq!((r.mode_id_format, r.mode_id_len, r.mode_id_info.as_str()), (3, 3, "ABC"));
    let bin = MasterIdInfoResponse {
        factory_code: "TC".to_string(),
        module_id_length: 2,
        module_id_format: ModuleIdFormat::Bin,
        module_id: vec![0x0a, 0xb1],
    };
    let r = ModeIdInfoResponse::from_master_id(bin);
    assert_eq!((r.mode_id_format, r.mode_id_info.as_str()), (2, "0ab1"));
    assert_eq!(ModuleInfo::auto_reading_meter(None), 0);
}

fn mqtt_request() -> MqttMessage {
    MqttMessage::new(
        &format!("meter/set/request/{APP_NAME}/masterNode"),
        r#"{"token":"77","timestamp":"t"}"#,
    )
}

fn pending(frame: &Frame) -> ReqInfo<(), ()> {
    ReqInfo::new(frame, Some(mqtt_request().to_mqtt_req_info()), None)
}

#[test]
fn confirmations_are_answered_ok() {
    let mut seq = FrameSeq::new();
    let sent = Frame::new_request(&mut seq, None, AppData::new(Afn::RouteSet, 1, None));
    let answer = Frame::new_response(0, None, AppData::new(Afn::Answer, 1, Some(vec![0xff, 0xff, 0xff, 0xff, 0, 0])));
    let m = uart_response_handler(UartMessage::new(pending(&sent), answer)).unwrap();
    assert_eq!(m.topic, format!("{APP_NAME}/set/response/meter/masterNode"));
    let payload = json(&m.payload);
    assert_eq!(payload["token"], "77");
    assert_eq!(payload["status"], "OK");
    assert_eq!(payload["reason"], "OK");
}

#[test]
fn denials_are_answered_with_failure() {
    let mut seq = FrameSeq::new();
    let sent = Frame::new_request(&mut seq, None, AppData::new(Afn::RouteSet, 1, None));
    let deny = Frame::new_response(0, None, AppData::from(DenyResponse { error_code: DenyErrorCode::MasterBusy }));
    let m = uart_response_handler(UartMessage::new(pending(&sent), deny.clone())).unwrap();
    let payload = json(&m.payload);
    assert_eq!(payload["status"], "FAILURE");
    assert_eq!(payload["reason"], Error::Denied(DenyErrorCode::MasterBusy).to_string());
    assert_eq!(
        confirm_result(UartMessage::new(pending(&sent), deny)),
        Err(Error::Denied(DenyErrorCode::MasterBusy))
    );
    let other = Frame::new_response(0, None, AppData::new(Afn::QueryData, 1, None));
    assert!(uart_response_handler(UartMessage::new(pending(&sent), other)).is_err());
}

#[test]
fn monitored_node_answers() {
    let mut seq = FrameSeq::new();
    let master = Address::new([1, 0, 0, 0, 0, 0]);
    let msg: UartMessage<(), ()> =
        MonitorNode::monitor_node_request(master, &mqtt_request(), "000000000102", 2, "68aa16", true, &mut seq);
    let af = msg.frame.user_data.address_field.clone().unwrap();
    assert_eq!(af.src_address, master);
    assert_eq!(af.dst_address, Address::new([0, 0, 0, 0, 1, 2]));
    assert_eq!(msg.frame.user_data.app_data.afn(), Afn::RouteDataForward);
    let mut monitor = MonitorNode::new();
    assert_eq!(monitor.response, None);
    monitor.uart_notify_monitor_node_dalay(12);
    assert_eq!(monitor.response, Some(Ok(MonitorNodeResult::Delay(12))));
    let answer = Frame::new_response(0, None, AppData::new(Afn::RouteDataForward, 1, Some(vec![0, 0, 2, 2, 0xbe, 0xef])));
    assert_eq!(monitor.uart_get_monitor_node_data(UartMessage::new(ReqInfo::<(), ()>::new(&msg.frame, None, None), answer)), Ok(()));
    assert_eq!(monitor.response, Some(Ok(MonitorNodeResult::Data("beef".to_string()))));
    monitor.uart_monitor_node_timeout();
    assert_eq!(monitor.response, Some(Err(Error::Response(MqttResponseError::Timeout))));
}

#[test]
fn route_delay_requests_are_answered() {
    let mut seq = FrameSeq::new();
    let monitor = Frame::new_request(&mut seq, None, AppData::new(Afn::RouteDataForward, 1, None));
    let init = ReqInfo::<(), ()>::new(&monitor, None, None);
    assert_eq!(init.frame_key, FrameKey(Afn::RouteDataForward.code(), 1));
    let asked = Frame::new_response(9, None, AppData::new(Afn::RouteDataRead, 3, Some(vec![1, 2, 3, 4, 5, 6, 0x34, 0x12, 1, 0x68])));
    let (delay, reply) =
        RouteDataRequest::uart_route_delay_response(UartMessage::new(ReqInfo::new(&asked, None, None), asked.clone()), init).unwrap();
    assert_eq!(delay, 0x1234);
    assert_eq!(reply.frame.get_seq(), 9);
    assert_eq!(reply.frame.user_data.app_data.data_units(), &Some(vec![0]));
    let clock = RouteDataRequest::uart_clock_data_response(UartMessage::<(), ()>::new(ReqInfo::new(&asked, None, None), asked.clone()));
    assert_eq!(clock.frame.get_seq(), 9);
    assert_eq!(clock.frame.user_data.app_data.fn_num(), 2);
}

fn compiled_schema(text: &str) -> jsonschema::JSONSchema {
    let value: serde_json::Value = serde_json::from_str(text).unwrap();
    jsonschema::JSONSchema::compile(&value).unwrap()
}

#[test]
fn payloads_are_checked_against_the_topic_schema() {
    let schema = compiled_schema(r#"{"type":"object","required":["token"],"properties":{"token":{"type":"string"}}}"#);
    assert_eq!(schema_check(&schema, "{not json"), Err("parse payload failed".to_string()));
    assert_eq!(schema_check(&schema, r#"{"token":"1"}"#), Ok(()));
    let refused = schema_check(&schema, r#"{"token":1}"#);
    assert!(refused.is_err());
    assert_ne!(refused, Err("parse payload failed".to_string()));
    assert!(schema_check(&schema, r#"{}"#).is_err());
}

#[test]
fn a_request_that_fails_its_schema_is_answered_at_once() {
    let schema = compiled_schema(r#"{"type":"object","required":["prio"]}"#);
    let mut seq = MessageSequence::new();
    let bad = MqttMessage::new(&format!("meter/get/request/{APP_NAME}/masterNode"), r#"{"token":"5"}"#);
    match plc_service::mqtt_handler::receive(Some(&schema), bad, &mut seq) {
        plc_service::mqtt_handler::Admission::Refused(answer) => {
            assert_eq!(answer.topic(), format!("{APP_NAME}/get/response/meter/masterNode"));
            let v: serde_json::Value = serde_json::from_str(answer.payload()).unwrap();
            assert_eq!(v["token"], "5");
            assert_eq!(v["status"], "FAILURE");
            assert!(v["reason"].as_str().unwrap().starts_with("invalid json request: "));
        }
        other => panic!("not refused: {:?}", other),
    }
    match plc_service::mqtt_handler::receive(Some(&schema), request(3, "6"), &mut seq) {
        plc_service::mqtt_handler::Admission::Queued(p) => {
            assert_eq!(p.priority, 3);
            assert_eq!(p.sequence, 0);
        }
        other => panic!("not queued: {:?}", other),
    }
    match plc_service::mqtt_handler::receive(None, request(1, "7"), &mut seq) {
        plc_service::mqtt_handler::Admission::Queued(p) => assert_eq!(p.sequence, 1),
        other => panic!("not queued: {:?}", other),
    }
}

#[test]
fn schema_texts_are_compiled_under_draft_seven() {
    let schema = plc_service::schema_check::parse_schema(r#"{"type":"object","required":["token"]}"#).unwrap();
    assert_eq!(schema_check(&schema, r#"{"token":"1"}"#), Ok(()));
    assert!(schema_check(&schema, r#"{}"#).is_err());
    assert!(plc_service::schema_check::parse_schema("{not json").is_err());
    assert!(plc_service::schema_check::parse_schema(r#"{"type":5}"#).is_err());
}
