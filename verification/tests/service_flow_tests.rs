use plc_service::config::MeterReadingConfig;
use plc_service::error::{ConcurrentMeterError, Error, HexError, PlcDeviceError, PlcInitError};
use plc_service::mqtt_message::MqttMessage;
use plc_service::protocol::app_data::answer::{DenyErrorCode, DenyResponse};
use plc_service::protocol::app_data::route_data_read::DateTime;
use plc_service::protocol::app_data::route_get::{RunningStatus, RunningStatusResponse, WorkStatus};
use plc_service::protocol::app_data::{Address, Afn, AppData};
use plc_service::protocol::frame::{Frame, FrameSeq};
use plc_service::request_info::{FrameKey, ReqInfo, UartMessage};
use plc_service::service::broadcast::Broadcast;
use plc_service::service::concurrent_meter::{ConcurrentMeter, QueuedReading, SamplePayload};
use plc_service::service::debug_method::DebugMethod;
use plc_service::service::device_info::{DeviceInfo, DeviceInfoStep};
use plc_service::service::event_report::EventReport;
use plc_service::service::meter_state::MeterState;
use plc_service::service::parse_response::UartResponse;
use plc_service::service::plc_device::{check_status, model_plugin_notify, next_state, pin_status, running_check, DeviceState, PinStatus};
use plc_service::service::plc_init::{InitAction, InitEvent, InitStep, PlcInit};
use plc_service::service::route_ctrl::{MeterState as Metering, MeteringOp, RouteAction, RouteCtrl};
use plc_service::text::hex_decode_checked;
use plc_service::uart_handler::{timeout_goes_to_reading, uart_route, UartRoute};
use plc_service::APP_NAME;

fn json(text: &str) -> serde_json::Value {
    serde_json::from_str(text).unwrap()
}

fn reading(addr: &str, task: &str) -> QueuedReading {
    QueuedReading {
        message: MqttMessage::new(&format!("app1/get/request/{APP_NAME}/concurrent"), &format!(r#"{{"token":"{task}"}}"#)),
        payload: SamplePayload {
            task_id: task.to_string(),
            acq_addr: addr.to_string(),
            pro_type: "2".to_string(),
            data: "68aa".to_string(),
        },
    }
}

fn config() -> MeterReadingConfig {
    MeterReadingConfig { cache_queue_size: 2, concurrent_addr: 2, queue_aging_time: 1 }
}

#[test]
fn one_reading_per_meter_at_a_time() {
    let mut c = ConcurrentMeter::new(config());
    let mut seq = FrameSeq::new();
    let master = Address::new([9, 9, 9, 9, 9, 9]);
    let first = c.handle_meter_reading::<()>(reading("000000000001", "t1"), master, false, 0, &mut seq).unwrap();
    let m = first.expect("sent now");
    let info = m.req_info.mqtt_req_info.as_ref().unwrap();
    assert_eq!(info.topic, format!("{APP_NAME}/notify/spont/app1/reportConcurrent"));
    assert_eq!(info.token, "t1");
    assert_eq!(m.frame.user_data.app_data.data_units(), &Some(vec![2, 0, 2, 0, 0x68, 0xaa]));
    assert_eq!(m.frame.user_data.address_field.clone().unwrap().dst_address, Address::new([0, 0, 0, 0, 0, 1]));
    // The same meter waits; the queue holds two.
    assert!(c.handle_meter_reading::<()>(reading("000000000001", "t2"), master, false, 0, &mut seq).unwrap().is_none());
    assert!(c.handle_meter_reading::<()>(reading("000000000001", "t3"), master, false, 0, &mut seq).unwrap().is_none());
    assert_eq!(
        c.handle_meter_reading::<()>(reading("000000000001", "t4"), master, false, 0, &mut seq).err(),
        Some(Error::ConcurrentMeter(ConcurrentMeterError::QueueLimit(2)))
    );
    // A second meter is read at once, a third one is refused.
    assert!(c.handle_meter_reading::<()>(reading("000000000002", "u1"), master, false, 0, &mut seq).unwrap().is_some());
    assert_eq!(c.concurrent_addr_num(), 2);
    assert_eq!(
        c.handle_meter_reading::<()>(reading("000000000003", "v1"), master, false, 0, &mut seq).err(),
        Some(Error::ConcurrentMeter(ConcurrentMeterError::AddrLimit(2)))
    );
    // The first meter's reading ends: its next waiting reading goes.
    let next = c.handle_next_request::<()>("000000000001", master, &mut seq).unwrap();
    assert_eq!(next.req_info.mqtt_req_info.unwrap().token, "t2");
}

#[test]
fn readings_wait_while_the_module_meters() {
    let mut c = ConcurrentMeter::new(config());
    let mut seq = FrameSeq::new();
    let master = Address::new([1, 0, 0, 0, 0, 0]);
    assert!(c.handle_meter_reading::<()>(reading("000000000001", "a"), master, true, 0, &mut seq).unwrap().is_none());
    assert!(c.handle_meter_reading::<()>(reading("000000000002", "b"), master, true, 0, &mut seq).unwrap().is_none());
    let sent = c.handle_cache_request::<()>(master, &mut seq);
    assert_eq!(sent.len(), 2);
    assert_eq!(sent[1].req_info.seq_num, sent[0].req_info.seq_num.wrapping_add(1));
    assert!(c.handle_cache_request::<()>(master, &mut seq).is_empty());
}

#[test]
fn idle_meters_are_forgotten_after_the_aging_time() {
    let mut c = ConcurrentMeter::new(config());
    let mut seq = FrameSeq::new();
    let master = Address::new([1, 0, 0, 0, 0, 0]);
    c.handle_meter_reading::<()>(reading("000000000001", "a"), master, false, 0, &mut seq).unwrap();
    c.handle_next_request::<()>("000000000001", master, &mut seq);
    c.age(59_999);
    assert_eq!(c.sample_cache.len(), 1);
    c.age(60_000);
    assert_eq!(c.sample_cache.len(), 0);
}

#[test]
fn reading_answers_carry_the_meter_reply() {
    let mut c = ConcurrentMeter::new(config());
    let mut seq = FrameSeq::new();
    let master = Address::new([1, 0, 0, 0, 0, 0]);
    let m = c.handle_meter_reading::<()>(reading("000000000001", "a"), master, false, 0, &mut seq).unwrap().unwrap();
    let reply = Frame::new_response(0, None, AppData::new(Afn::CocurrentReadMeter, 1, Some(vec![2, 2, 0, 0xbe, 0xef])));
    let (answer, next) = c.uart_meter_reading::<()>(UartMessage::new(m.req_info, reply), master, &mut seq).unwrap();
    assert!(next.is_none());
    let p = json(&answer.payload);
    assert_eq!(p["status"], "OK");
    assert_eq!(p["data"], "beef");
    assert_eq!(p["taskID"], "a");
    assert_eq!(p["acqAddr"], "000000000001");
    // An empty reply is a failure.
    let m = c.handle_meter_reading::<()>(reading("000000000001", "b"), master, false, 0, &mut seq).unwrap().unwrap();
    let empty = Frame::new_response(0, None, AppData::new(Afn::CocurrentReadMeter, 1, Some(vec![2, 0, 0])));
    let (answer, _) = c.uart_meter_reading::<()>(UartMessage::new(m.req_info, empty), master, &mut seq).unwrap();
    let p = json(&answer.payload);
    assert_eq!(p["status"], "FAILURE");
    assert_eq!(p["reason"], "Meter reading failed. Cco response data empty");
}

#[test]
fn unanswered_readings_fail_with_their_members() {
    let mut c = ConcurrentMeter::new(config());
    let mut seq = FrameSeq::new();
    let master = Address::new([1, 0, 0, 0, 0, 0]);
    let m = c.handle_meter_reading::<()>(reading("000000000001", "a"), master, false, 0, &mut seq).unwrap().unwrap();
    let (answer, next) = c.uart_meter_reading_timeout::<()>(m.req_info.mqtt_req_info.unwrap(), master, &mut seq);
    assert!(next.is_none());
    let p = json(&answer.payload);
    assert_eq!(p["status"], "FAILURE");
    assert_eq!(p["reason"], "request timeout");
    assert_eq!(p["data"], "68aa");
}

#[test]
fn concurrent_requests_are_answered() {
    let mut c = ConcurrentMeter::new(config());
    let mut seq = FrameSeq::new();
    let master = Address::new([1, 0, 0, 0, 0, 0]);
    let r = reading("000000000001", "a");
    let (answer, request) = c.mqtt_concurrent_meter_reading::<()>(r.message, r.payload, master, false, 0, &mut seq);
    assert!(request.is_some());
    assert_eq!(answer.topic, format!("{APP_NAME}/get/response/app1/concurrent"));
    assert_eq!(json(&answer.payload)["status"], "OK");
}

fn request(object: &str) -> MqttMessage {
    MqttMessage::new(&format!("app1/set/request/{APP_NAME}/{object}"), r#"{"token":"7"}"#)
}

#[test]
fn metering_is_paused_once_and_resumed() {
    let mut rc = RouteCtrl::new(30);
    let mut seq = FrameSeq::new();
    match rc.auto_pause_metering::<(), ()>(&mut seq) {
        RouteAction::Send(m) => assert_eq!(m.frame.user_data.app_data.fn_num(), 2),
        _ => panic!("expected the pause request"),
    }
    assert_eq!(rc.auto_pause_result(Ok(())), Ok(()));
    assert_eq!(rc.state, Metering::Pause);
    assert!(rc.resume_timer);
    assert!(matches!(rc.auto_pause_metering::<(), ()>(&mut seq), RouteAction::RestartTimer));
    assert!(rc.uart_response_update_resume_timer());
    let resume = rc.auto_resume_metering::<(), ()>(&mut seq).unwrap();
    assert_eq!(resume.frame.user_data.app_data.fn_num(), 3);
    rc.auto_resume_result(Ok(())).unwrap();
    assert!(rc.auto_resume_metering::<(), ()>(&mut seq).is_none());
}

#[test]
fn metering_requests_over_mqtt() {
    let mut rc = RouteCtrl::new(30);
    let mut seq = FrameSeq::new();
    let msg = request("resumeMetering");
    assert!(rc.mqtt_operating_metering::<(), ()>(MeteringOp::Resume, &msg, &mut seq).is_none());
    let msg = request("pauseMetering");
    let m = rc.mqtt_operating_metering::<(), ()>(MeteringOp::Pause, &msg, &mut seq).unwrap();
    assert_eq!(m.req_info.mqtt_req_info.unwrap().token, "7");
    let answer = rc.mqtt_operating_result(MeteringOp::Pause, Ok(()), &msg);
    assert_eq!(rc.state, Metering::Pause);
    assert!(!rc.resume_timer);
    assert_eq!(json(&answer.payload)["status"], "OK");
    let answer = rc.mqtt_operating_result(MeteringOp::Restart, Err(Error::Denied(DenyErrorCode::MasterBusy)), &request("restartMetering"));
    assert_eq!(rc.state, Metering::Pause);
    assert_eq!(json(&answer.payload)["status"], "FAILURE");
    rc.mqtt_operating_result(MeteringOp::Restart, Ok(()), &request("restartMetering"));
    assert_eq!(rc.state, Metering::Resume);
}

#[test]
fn start_up_checks_the_master_address() {
    let master = Address::new([1, 2, 3, 4, 5, 6]);
    let mut init = PlcInit::new(master);
    assert_eq!(init.on_event(InitEvent::Address(Address::new([0; 6]))), InitAction::SetAddress(master));
    assert_eq!(init.on_event(InitEvent::Result(Ok(()))), InitAction::ClearAcqFiles);
    assert_eq!(init.on_event(InitEvent::Address(master)), InitAction::Wait);
    assert_eq!(init.on_event(InitEvent::Result(Ok(()))), InitAction::LoadConfig);
    assert!(!init.initailized());
    assert_eq!(init.on_event(InitEvent::Result(Ok(()))), InitAction::Finished(Ok(())));
    assert!(init.initailized());
}

#[test]
fn start_up_asks_three_times_for_the_address() {
    let master = Address::new([1, 2, 3, 4, 5, 6]);
    let mut init = PlcInit::new(master);
    assert_eq!(init.on_event(InitEvent::WaitTimedOut), InitAction::GetModuleInfo);
    assert_eq!(init.on_event(InitEvent::Result(Ok(()))), InitAction::GetModuleInfo);
    assert_eq!(init.on_event(InitEvent::Result(Ok(()))), InitAction::GetModuleInfo);
    assert_eq!(
        init.on_event(InitEvent::Result(Ok(()))),
        InitAction::Finished(Err(Error::PlcInit(PlcInitError::InvalidEvent)))
    );
    assert_eq!(init.step, InitStep::Failed);
    let mut init = PlcInit::new(master);
    init.on_event(InitEvent::WaitTimedOut);
    assert_eq!(init.on_event(InitEvent::Address(master)), InitAction::ClearAcqFiles);
}

fn now() -> DateTime {
    DateTime { year: 2024, month: 3, day: 5, hour: 7, minute: 8, second: 9 }
}

#[test]
fn metering_state_is_reported() {
    let mut s = MeterState::new(now());
    s.init_data();
    s.reset_module();
    let status = RunningStatusResponse {
        running_status: RunningStatus { error_code: 0, report_event_flag: 0, work_flag: 0, route_finish_flag: 0 },
        total_node_number: 0,
        meter_node_number: 0,
        relay_meter_node_number: 0,
        work_status: WorkStatus { meter_status: 1, area_identify_status: 1, report_event_flag: 0, register_permit: 0, work_status: 0 },
        comm_speed: 0,
        relay_level: [0; 3],
        work_step: [0; 3],
    };
    let r = s.metering_state_response(&status, 16);
    assert_eq!(r.last_receive_time, "2024-03-05 07:08:09");
    assert_eq!((r.ctrl_stat, r.search_stat, r.auto_reading), (0, 1, 16));
    assert_eq!((r.init_data_count, r.init_param_count, r.reset_module_count), (1, 1, 1));
    assert_eq!(r.identify_area_stat, 1);
    let mut seq = FrameSeq::new();
    let sent = MeterState::mqtt_get_metering_state::<(), ()>(&request("meteringState"), &mut seq);
    let units = vec![0, 0, 0, 0, 0, 0, 0, 0x48, 0, 0, 0, 0, 0, 0, 0, 0];
    let answer = Frame::new_response(0, None, AppData::new(Afn::RouteGet, 4, Some(units)));
    match s.uart_metering_state_response(UartMessage::new(sent.req_info, answer), 0).unwrap() {
        UartResponse::Normal(r) => assert_eq!((r.ctrl_stat, r.search_stat, r.identify_area_stat), (0, 1, 1)),
        _ => panic!("expected a report"),
    }
}

#[test]
fn broadcasts_carry_the_message() {
    let mut seq = FrameSeq::new();
    let msg = request("BroadcastDelay");
    let m = Broadcast::mqtt_get_broadcast_delay::<(), ()>(2, "68aa16", &msg, &mut seq);
    assert_eq!(m.frame.user_data.app_data.data_units(), &Some(vec![2, 3, 0x68, 0xaa, 0x16]));
    assert_eq!(m.frame.user_data.app_data.afn(), Afn::QueryData);
    let answer = Frame::new_response(0, None, AppData::new(Afn::QueryData, 9, Some(vec![0x10, 0, 2, 1, 0x68])));
    let r = Broadcast::uart_broadcast_delay_response(UartMessage::<(), ()>::new(m.req_info, answer)).unwrap();
    assert_eq!(r, UartResponse::Normal(16));
    let cmd = Broadcast::mqtt_broadcast_cmd::<(), ()>(2, "68", &msg, &mut seq);
    assert_eq!(cmd.frame.user_data.app_data.afn(), Afn::CtrlCmd);
}

#[test]
fn debug_frames_go_out_as_given() {
    let msg = request("sendFrame");
    let m = DebugMethod::mqtt_debug_frame_request::<()>("680f00430000000000000102004616", &msg).unwrap();
    assert_eq!(m.req_info.frame_key, FrameKey(Afn::Test.code(), 0));
    assert_eq!(m.frame.checksum.checksum, 0x46);
    assert_eq!(
        DebugMethod::mqtt_debug_frame_request::<()>("680", &msg).err(),
        Some(Error::Hex(HexError::OddLength))
    );
    assert_eq!(
        DebugMethod::mqtt_debug_frame_request::<()>("68zz", &msg).err(),
        Some(Error::Hex(HexError::InvalidHexCharacter('z', 2)))
    );
    let answer = DebugMethod::uart_debug_frame_response(m);
    let p = json(&answer.payload);
    assert_eq!(p["frame"], "680f00430000000000000102004616");
    assert_eq!(p["token"], "7");
}

#[test]
fn hex_text_errors_match_the_hex_crate() {
    for s in ["", "0a", "0A1", "zz", "0g", "abcdef", "a b "] {
        let ours = hex_decode_checked(s).map_err(|e| Error::Hex(e).to_string());
        let theirs = hex::decode(s).map_err(|e| e.to_string());
        assert_eq!(ours, theirs, "{s}");
    }
}

#[test]
fn meter_events_are_confirmed_and_reported() {
    let mut seq = FrameSeq::new();
    let report = Frame::new_request(&mut seq, None, AppData::new(Afn::Report, 5, Some(vec![1, 2, 2, 0xab, 0xcd])));
    let (confirm, event) = EventReport::uart_slave_node_event_report(UartMessage::<(), ()>::new(ReqInfo::new(&report, None, None), report.clone()));
    assert_eq!(confirm.frame.get_seq(), report.get_seq());
    let event = event.unwrap();
    assert_eq!((event.device_type, event.protocol_type, event.data.as_str()), (1, 2, "abcd"));
    assert_eq!(EventReport::event_topic(), format!("{APP_NAME}/notify/spont/*/event"));
    let bad = Frame::new_request(&mut seq, None, AppData::new(Afn::Report, 5, Some(vec![1])));
    let (_, event) = EventReport::uart_slave_node_event_report(UartMessage::<(), ()>::new(ReqInfo::new(&bad, None, None), bad.clone()));
    assert!(event.is_err());
}

#[test]
fn device_information_is_asked_until_known() {
    let mut d = DeviceInfo::new();
    assert_eq!(d.after_wait(0), DeviceInfoStep::Ask);
    assert_eq!(d.after_wait(60), DeviceInfoStep::Failed(Error::DeviceInfo));
    d.mqtt_device_info_response("ESN1".to_string());
    assert_eq!(d.after_wait(60), DeviceInfoStep::Done);
    assert_eq!(d.esn(), "ESN1");
    assert_eq!(DeviceInfo::device_info_topic(), format!("{APP_NAME}/get/request/osmanage/deviceInfo"));
    assert_eq!(Error::DeviceInfo.to_string(), "get device info failed");
}

#[test]
fn module_life_cycle() {
    assert_eq!(next_state(DeviceState::Init, true), DeviceState::CheckMid);
    assert_eq!(next_state(DeviceState::CheckMid, false), DeviceState::Destroy);
    assert_eq!(next_state(DeviceState::Running, true), DeviceState::Running);
    assert_eq!(next_state(DeviceState::Destroy, true), DeviceState::Init);
    assert_eq!(pin_status(0), Ok(PinStatus::Low));
    assert_eq!(pin_status(7), Err(Error::PinStatus(7)));
    assert_eq!(Error::PinStatus(-3).to_string(), "No discriminant in enum `PinStatus` matches the value `-3`");
    assert!(check_status(PinStatus::Low, Some(PinStatus::Low), PinStatus::Low));
    assert!(!check_status(PinStatus::Low, Some(PinStatus::High), PinStatus::Low));
    assert_eq!(running_check(3, false, 0), Err(Error::PlcDevice(PlcDeviceError::Off)));
    assert_eq!(running_check(20, true, 5), Err(Error::PlcDevice(PlcDeviceError::Timeouts)));
    assert_eq!(running_check(21, true, 5), Ok(()));
    let m = model_plugin_notify(true, 4);
    assert_eq!(m.topic, format!("{APP_NAME}/notify/spont/*/modePlugin"));
    let p = json(&m.payload);
    assert_eq!((p["token"].as_str(), p["reason"].as_str()), (Some("4"), Some("module plugin")));
}

#[test]
fn module_messages_are_routed() {
    let key = |a: Afn, f: u8| FrameKey(a.code(), f);
    assert_eq!(uart_route(key(Afn::QueryData, 10), true, true), Ok(UartRoute::SlaveModuleInfoReport));
    assert_eq!(uart_route(key(Afn::Init, 2), true, false), Ok(UartRoute::InitClearFiles));
    assert_eq!(uart_route(key(Afn::RouteGet, 112), false, false), Ok(UartRoute::ChipInfo));
    assert_eq!(uart_route(key(Afn::CocurrentReadMeter, 1), false, false), Ok(UartRoute::ReadMeter));
    let e = uart_route(key(Afn::RouteGet, 4), false, false).unwrap_err();
    assert_eq!(e.to_string(), "unsupported afn: 0x10, fn: 4");
    let e = uart_route(key(Afn::Report, 1), false, false).unwrap_err();
    assert_eq!(e.to_string(), format!("unsupported afn: {:#02x}", Afn::Report.code()));
    assert!(timeout_goes_to_reading(key(Afn::CocurrentReadMeter, 1)));
    assert!(!timeout_goes_to_reading(key(Afn::RouteGet, 1)));
}

#[test]
fn denial_of_broadcast_delay() {
    let mut seq = FrameSeq::new();
    let m = Broadcast::mqtt_get_broadcast_delay::<(), ()>(2, "68", &request("BroadcastDelay"), &mut seq);
    let deny = Frame::new_response(0, None, AppData::from(DenyResponse { error_code: DenyErrorCode::TimeOut }));
    let r = Broadcast::uart_broadcast_delay_response(UartMessage::<(), ()>::new(m.req_info, deny)).unwrap();
    assert!(matches!(r, UartResponse::Deny(DenyResponse { error_code: DenyErrorCode::TimeOut })));
}
