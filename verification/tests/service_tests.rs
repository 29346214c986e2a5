use plc_service::error::{Error, MqttResponseError};
use plc_service::mqtt_message::MqttMessage;
use plc_service::protocol::app_data::active_report::WorkStatusType;
use plc_service::protocol::app_data::answer::{ConfirmResponse, DenyErrorCode, DenyResponse};
use plc_service::protocol::app_data::file_transfer::{FileFlag, FileTransferResponse};
use plc_service::protocol::app_data::route_data_read::DateTime;
use plc_service::protocol::app_data::route_get::{
    NetTopologyResponse, RunningStatus, RunningStatusResponse, WorkStatus,
};
use plc_service::protocol::app_data::{Address, Afn, AppData};
use plc_service::protocol::frame::{Frame, FrameSeq};
use plc_service::request_info::{timeout_handler, FrameKey, MqttReqInfo, ReqInfo, UartMessage};
use plc_service::service::data_transfer::DataTransfer;
use plc_service::service::file_upgrade::{
    check_segment_answer, file_flag_from_request, segment_count, segment_data_size,
    upgrade_outcome, upgrade_segment, wait_time, wait_total_count, FileUpgradeState,
    MqttFileUpgradeResponse, UpgradeResult, UpgradeStatus,
};
use plc_service::service::hplc_info::{HplcInfo, MqttNetTopologyInfoResponse};
use plc_service::service::identify_area::{
    active_node_register_request, IdentifyArea, IdentifyAreaState, SearchAction,
};
use plc_service::service::master_address::MasterAddress;
use plc_service::service::node_config::{parse_u8, NodeInfo};
use plc_service::service::parse_response::{mqtt_response_message, UartResponse};
use plc_service::APP_NAME;

fn request_message() -> MqttMessage {
    MqttMessage::new(
        &format!("meter/get/request/{APP_NAME}/masterNode"),
        r#"{"token":"42","timestamp":"t"}"#,
    )
}

fn json(text: &str) -> serde_json::Value {
    serde_json::from_str(text).unwrap()
}

#[test]
fn master_address_from_serial_number() {
    let mut m = MasterAddress::new();
    m.update_address("SN12ab34");
    assert_eq!(m.get_master_address(), Address::new([0, 0, 0, 0, 0x12, 0x34]));
    m.update_address("A1B2C3D4E5F6G7H8I9J0K1L2M3");
    assert_eq!(m.get_master_address(), Address::new([0x12, 0x34, 0x56, 0x78, 0x90, 0x12]));
    m.update_address("");
    assert_eq!(m.get_master_address(), Address::new([0; 6]));
}

#[test]
fn master_address_query_is_sent_for_the_request() {
    let m = MasterAddress::new();
    let mut seq = FrameSeq::new();
    let msg: UartMessage<(), ()> = m.mqtt_get_address(&request_message(), &mut seq);
    assert_eq!(msg.frame.afn(), Afn::QueryData);
    assert_eq!(msg.frame.fn_num(), 4);
    let info = msg.req_info.mqtt_req_info.unwrap();
    assert_eq!(info.topic, format!("{APP_NAME}/get/response/meter/masterNode"));
    assert_eq!(info.token, "42");
    assert_eq!(msg.req_info.frame_key, FrameKey(Afn::QueryData.code(), 4));
}

#[test]
fn master_address_is_kept_once_confirmed() {
    let mut m = MasterAddress::new();
    let mut seq = FrameSeq::new();
    let request: UartMessage<Address, ()> = MasterAddress::mqtt_set_address(&request_message(), "123456789012", &mut seq);
    assert_eq!(request.frame.user_data.app_data.data_units(), &Some(vec![0x12, 0x90, 0x78, 0x56, 0x34, 0x12]));
    let answer = Frame::new_response(0, None, AppData::from(ConfirmResponse { channel_status: 0, wait_time: 0 }));
    let reply = m.uart_set_address(UartMessage::new(request.req_info, answer)).unwrap();
    assert_eq!(m.get_master_address(), Address::new([0x12, 0x34, 0x56, 0x78, 0x90, 0x12]));
    let payload = json(&reply.payload);
    assert_eq!(payload["status"], "OK");
    assert_eq!(payload["token"], "42");
}

#[test]
fn denied_master_address_is_answered_with_the_reason() {
    let mut m = MasterAddress::new();
    let mut seq = FrameSeq::new();
    let request: UartMessage<Address, ()> = MasterAddress::mqtt_set_address(&request_message(), "123456789012", &mut seq);
    let answer = Frame::new_response(0, None, AppData::from(DenyResponse { error_code: DenyErrorCode::MasterBusy }));
    let reply = m.uart_set_address(UartMessage::new(request.req_info, answer)).unwrap();
    assert_eq!(m.get_master_address(), Address::new([0; 6]));
    let payload = json(&reply.payload);
    assert_eq!(payload["status"], "FAILURE");
    assert_eq!(payload["reason"], "CCO Busy");
}

#[test]
fn answers_split_into_denials_and_data() {
    let deny = Frame::new_response(0, None, AppData::from(DenyResponse { error_code: DenyErrorCode::TimeOut }));
    assert!(matches!(UartResponse::from_frame(deny), Ok(UartResponse::Deny(DenyResponse { error_code: DenyErrorCode::TimeOut }))));
    let bad_deny = Frame::new_response(0, None, AppData::new(Afn::Answer, 2, Some(vec![0x77])));
    assert_eq!(UartResponse::from_frame(bad_deny).unwrap_err(), Error::UnknownValue(plc_service::error::ValueKind::DenyErrorCode, 0x77));
    let normal = Frame::new_response(0, None, AppData::new(Afn::RouteGet, 9, Some(vec![1, 2])));
    assert!(matches!(UartResponse::from_frame(normal), Ok(UartResponse::Normal(_))));
}

#[test]
fn failures_are_answered_with_their_text() {
    let info: MqttReqInfo<()> = MqttReqInfo::new(&format!("a/set/request/{APP_NAME}/b"), "7".to_string(), None);
    let m = mqtt_response_message(Err(Error::Response(MqttResponseError::Timeout)), info);
    assert_eq!(m.topic, format!("{APP_NAME}/set/response/a/b"));
    let payload = json(&m.payload);
    assert_eq!(payload["status"], "FAILURE");
    assert_eq!(payload["reason"], "request timeout");
    assert_eq!(payload["token"], "7");
}

#[test]
fn timed_out_requests_are_answered() {
    let info: MqttReqInfo<()> = MqttReqInfo::new(&format!("a/get/request/{APP_NAME}/b"), "9".to_string(), None);
    let m = timeout_handler(info);
    let payload = json(&m.payload);
    assert_eq!(payload["status"], "FAILURE");
    assert_eq!(payload["reason"], "request timeout");
    assert!(payload["timestamp"].as_str().unwrap().len() > 10);
}

#[test]
fn tokens_come_from_the_payload() {
    assert_eq!(request_message().try_get_token(), Some("42".to_string()));
    assert_eq!(MqttMessage::new("t", "not json").try_get_token(), None);
    assert_eq!(MqttMessage::new("t", r#"{"token":5}"#).try_get_token(), None);
    let info: Option<MqttReqInfo<()>> = MqttMessage::new("bad topic", r#"{"token":"1"}"#).try_to_mqtt_req_info();
    assert!(info.is_none());
}

#[test]
fn error_texts() {
    assert_eq!(Error::Frame(plc_service::protocol::frame::FrameError::Checksum { checksum: 0xab, expected: 0x0c }).to_string(), "checksum ab error, expected 0c");
    assert_eq!(Error::AppData(plc_service::protocol::app_data::AppDataError::DataLength(12)).to_string(), "invalid data unit length 12");
    assert_eq!(Error::Denied(DenyErrorCode::SlaveOutNet).to_string(), "Slave Out Net");
    assert_eq!(Error::UnknownValue(plc_service::error::ValueKind::Afn, 200).to_string(), "No discriminant in enum `Afn` matches the value `200`");
}

#[test]
fn data_transfer_frames_and_answers() {
    let mut seq = FrameSeq::new();
    let mut dt = DataTransfer::new();
    assert!(!dt.metering);
    let msg: UartMessage<(), ()> = dt.mqtt_data_transfer(
        Address::new([1, 2, 3, 4, 5, 6]),
        &request_message(),
        "000000000001",
        2,
        7,
        "68a1",
        &mut seq,
    );
    assert!(dt.metering);
    assert_eq!(msg.timeout, Some(7));
    assert_eq!(msg.frame.user_data.app_data.data_units(), &Some(vec![2, 2, 0x68, 0xa1]));
    let af = msg.frame.user_data.address_field.clone().unwrap();
    assert_eq!(af.dst_address, Address::new([0, 0, 0, 0, 0, 1]));
    let answer = Frame::new_response(0, None, AppData::new(Afn::DataForward, 1, Some(vec![2, 2, 0xbe, 0xef])));
    let r = dt.uart_data_transfer_response(UartMessage::<(), ()>::new(ReqInfo::new(&msg.frame, None, None), answer));
    assert_eq!(r.unwrap().unwrap(), "beef");
    assert_eq!(dt.uart_data_transfer_timeout(), Err(Error::Response(MqttResponseError::Timeout)));
    let info = msg.req_info.mqtt_req_info.as_ref().unwrap();
    let reply = dt.data_transfer_reply(Ok("beef".to_string()), plc_service::request_info::MqttReqInfo::<()> { topic: info.topic.clone(), token: info.token.clone(), extra_data: None });
    assert!(!dt.metering);
    let v: serde_json::Value = serde_json::from_str(&reply.payload).unwrap();
    assert_eq!(v["data"], "beef");
    assert_eq!(v["status"], "OK");
    assert_eq!(reply.topic, info.topic);
    let failed = dt.data_transfer_reply(dt.uart_data_transfer_timeout(), plc_service::request_info::MqttReqInfo::<()> { topic: info.topic.clone(), token: info.token.clone(), extra_data: None });
    let v: serde_json::Value = serde_json::from_str(&failed.payload).unwrap();
    assert_eq!(v["reason"], "request timeout");
}

#[test]
fn upgrade_file_is_cut_into_segments() {
    let size = segment_data_size(30);
    assert_eq!(size, 4);
    let content = [1u8, 2, 3, 4, 5, 6, 7, 8, 9, 10];
    assert_eq!(segment_count(content.len(), size), 3);
    let first = upgrade_segment(FileFlag::Module, &content, size, 0);
    assert_eq!(first.file_data, vec![1, 2, 3, 4]);
    assert_eq!(first.file_attr, 0);
    assert_eq!(first.segment_num, 3);
    let last = upgrade_segment(FileFlag::Module, &content, size, 2);
    assert_eq!(last.file_data, vec![9, 10]);
    assert_eq!(last.file_attr, 1);
    assert_eq!(last.segment_len, 2);
    assert_eq!(file_flag_from_request(1), FileFlag::MasterAndSlave);
}

#[test]
fn segment_acknowledgements() {
    assert_eq!(check_segment_answer(Ok(3), 3), Ok(()));
    assert_eq!(check_segment_answer(Ok(4), 3), Err(UpgradeResult::TransferFailed));
    assert_eq!(check_segment_answer(Ok(0xffff), 3), Err(UpgradeResult::FileError));
    assert_eq!(check_segment_answer(Err(Error::Response(MqttResponseError::Timeout)), 3), Err(UpgradeResult::TransferFailed));
    let ack = plc_service::service::file_upgrade::uart_file_transfer(Ok(FileTransferResponse { segment_flag: 7 }));
    assert_eq!(ack, Ok(7));
}

#[test]
fn upgrade_wait_is_sliced() {
    let total = wait_total_count(70);
    assert_eq!(total, 3);
    assert_eq!(wait_time(0, total, 70), 30);
    assert_eq!(wait_time(2, total, 70), 10);
    assert_eq!(upgrade_outcome(3, 3), UpgradeResult::OtherError);
    assert_eq!(upgrade_outcome(1, 3), UpgradeResult::Success);
}

fn running_status(work_flag: u8, meter_status: u8) -> RunningStatusResponse {
    RunningStatusResponse {
        running_status: RunningStatus { error_code: 0, report_event_flag: 0, work_flag, route_finish_flag: 0 },
        total_node_number: 0,
        meter_node_number: 0,
        relay_meter_node_number: 0,
        work_status: WorkStatus { meter_status, area_identify_status: 0, report_event_flag: 0, register_permit: 0, work_status: 0 },
        comm_speed: 0,
        relay_level: [0; 3],
        work_step: [0; 3],
    }
}

#[test]
fn upgrade_state_moves() {
    let mut s = FileUpgradeState::new();
    assert_eq!(s.status, UpgradeStatus::Idle);
    let r = MqttFileUpgradeResponse::from_state(&s);
    assert_eq!(r.start_time, "1970-01-01 00:00:00");
    s.start_upgrade();
    assert!(s.upgrading);
    assert_eq!(s.uart_file_transfer_finish(Ok(running_status(0, 2))), Ok(0));
    assert_eq!(s.status, UpgradeStatus::Idle);
    assert_eq!(s.uart_file_transfer_finish(Ok(running_status(0, 0))), Ok(0));
    assert_eq!(s.status, UpgradeStatus::Finished);
    s.finish_upgrade(UpgradeResult::FileError);
    assert!(!s.upgrading);
    let r = MqttFileUpgradeResponse::from_state(&s);
    assert_eq!(r.upgrade_status, 2);
    assert_eq!(r.upgrade_result, 1);
}

#[test]
fn meter_search_runs_once() {
    let mut info = IdentifyArea::new();
    assert!(info.begin_search());
    assert!(!info.begin_search());
    info.notify(Ok(()));
    assert_eq!(info.take_register_result(), Ok(()));
    assert!(info.searching());
    assert_eq!(info.search_step(true), SearchAction::QueryRunningStatus);
    info.uart_search_meter_running_status(Ok(running_status(1, 0)));
    assert_eq!(info.state, IdentifyAreaState::Running);
    assert_eq!(info.search_step(false), SearchAction::Wait);
    info.uart_slave_work_status_report(WorkStatusType::Search);
    assert_eq!(info.search_over(), IdentifyAreaState::Finished);
    assert_eq!(info.state, IdentifyAreaState::Idle);
}

#[test]
fn failed_registration_ends_the_search() {
    let mut info = IdentifyArea::new();
    assert!(info.begin_search());
    info.uart_active_slave_node_register_timeout();
    assert!(info.take_register_result().is_err());
    assert_eq!(info.state, IdentifyAreaState::Idle);
    info.uart_stop_slave_node_register();
    assert_eq!(info.state, IdentifyAreaState::Canceled);
}

#[test]
fn search_duration_in_hours_is_counted_in_minutes() {
    let t = DateTime { year: 2024, month: 5, day: 6, hour: 7, minute: 8, second: 9 };
    assert_eq!(active_node_register_request(t, "hour", 2, 1, 3).duration, 120);
    assert_eq!(active_node_register_request(t, "minute", 2, 1, 3).duration, 2);
}

#[test]
fn topology_pages_are_gathered() {
    let mut r = MqttNetTopologyInfoResponse::new();
    assert_eq!(r.next_request().start_seq, 1);
    let page = NetTopologyResponse { total_node_number: 1, start_index: 1, node_number: 0, net_topology_infos: vec![] };
    assert!(r.extend(page));
    assert_eq!(HplcInfo::uart_net_topology_response_timeout(), Err(Error::Response(MqttResponseError::Timeout)));
}

#[test]
fn configured_nodes() {
    let n = NodeInfo::new("000000000102".to_string(), "30".to_string());
    let u = n.to_uart_node_info();
    assert_eq!(u.src_addr, Address::new([0, 0, 0, 0, 1, 2]));
    assert_eq!(u.protocol_type, 30);
    assert_eq!(parse_u8("+255"), Some(255));
    assert_eq!(parse_u8("256"), None);
    assert_eq!(parse_u8("1a"), None);
    assert_eq!(parse_u8(""), None);
    assert_eq!(n.acq_addr(), "000000000102");
}
