use plc_service::config::MeterReadingConfig;
use plc_service::error::{ConcurrentMeterError, Error};
use plc_service::mqtt_handler::{take_in, Admission, MessageSequence};
use plc_service::mqtt_message::MqttMessage;
use plc_service::protocol::app_data::active_report::{ReportNodeInfoAndDeviceType, ReportNodeInfoDetail};
use plc_service::protocol::app_data::route_get::{NetTopologyInfo, NetTopologyResponse};
use plc_service::protocol::app_data::{Address, Afn, AppData};
use plc_service::protocol::frame::{Comm, CtrlField, Dir, Frame, FrameSeq, Prm};
use plc_service::request_info::MqttReqInfo;
use plc_service::service::concurrent_meter::{ConcurrentMeter, QueuedReading, SamplePayload};
use plc_service::service::hplc_info::{topology_step, MqttNetTopologyInfoResponse};
use plc_service::service::identify_area::{mqtt_enable_search, search_report, search_running_reply};
use plc_service::uart_agent::{frame_owner, next_serial, timeouts_after, waits_for_answer, FrameOwner};
use plc_service::APP_NAME;

fn json(text: &str) -> serde_json::Value {
    serde_json::from_str(text).unwrap()
}

#[test]
fn frames_go_to_their_owner() {
    let mut seq = FrameSeq::new();
    let f = Frame::new_request(&mut seq, None, AppData::new(Afn::QueryData, 1, None));
    assert_eq!(f.get_seq(), 0);
    assert_eq!(frame_owner(&f, &vec![3, 0], Some(0)), FrameOwner::Reading);
    assert_eq!(frame_owner(&f, &vec![3], Some(0)), FrameOwner::Pending);
    assert_eq!(frame_owner(&f, &vec![3], Some(1)), FrameOwner::Stray);
    assert_eq!(frame_owner(&f, &vec![], None), FrameOwner::Stray);
    let mut report = f.clone();
    report.ctrl_field = CtrlField { dir: Dir::Up, prm: Prm::Master, comm: Comm::Hplc };
    assert_eq!(frame_owner(&report, &vec![0], Some(0)), FrameOwner::SlaveReport);
    assert!(waits_for_answer(&f));
    assert!(!waits_for_answer(&Frame::new_response(1, None, AppData::new(Afn::Answer, 1, None))));
}

#[test]
fn timeouts_in_a_row_are_counted() {
    assert_eq!(timeouts_after(0, false), 1);
    assert_eq!(timeouts_after(4, false), 5);
    assert_eq!(timeouts_after(255, false), 0);
    assert_eq!(timeouts_after(9, true), 0);
}

#[test]
fn serial_requests_go_out_first_in_first_out() {
    let mut q = vec![1, 2, 3];
    assert_eq!(next_serial(true, &mut q), None);
    assert_eq!(q, vec![1, 2, 3]);
    assert_eq!(next_serial(false, &mut q), Some(1));
    assert_eq!(next_serial(false, &mut q), Some(2));
    assert_eq!(q, vec![3]);
    assert_eq!(next_serial(false, &mut q), Some(3));
    assert_eq!(next_serial(false, &mut q), None);
}

fn node(last: u8, level: u8) -> NetTopologyInfo {
    NetTopologyInfo { address: Address::new([0, 0, 0, 0, 0, last]), node_flag: 1, proxy_node_flag: 2, node_level: level, node_role: 4 }
}

fn info() -> MqttReqInfo<()> {
    MqttReqInfo::new(&format!("app/get/request/{APP_NAME}/netTopology"), "77".to_string(), None)
}

#[test]
fn topology_pages_are_gathered_into_one_answer() {
    let mut g = MqttNetTopologyInfoResponse::new();
    let page1 = NetTopologyResponse { total_node_number: 3, start_index: 1, node_number: 2, net_topology_infos: vec![node(1, 1), node(2, 2)] };
    assert!(topology_step(&mut g, Ok(page1), info()).is_none());
    let page2 = NetTopologyResponse { total_node_number: 3, start_index: 3, node_number: 1, net_topology_infos: vec![node(3, 3)] };
    let m = topology_step(&mut g, Ok(page2), info()).expect("the last page answers");
    assert_eq!(m.topic(), format!("{APP_NAME}/get/response/app/netTopology"));
    let v = json(m.payload());
    assert_eq!(v["token"], "77");
    assert_eq!(v["status"], "OK");
    assert_eq!(v["totalNumber"], 3);
    assert_eq!(v["body"].as_array().unwrap().len(), 3);
    assert_eq!(v["body"][2]["nodeAddr"], "000000000003");
    assert_eq!(v["body"][1]["nodeLevel"], 2);
    assert_eq!(v["body"][0]["proxyNodeFlag"], 2);
}

#[test]
fn a_failed_topology_page_ends_the_query() {
    let mut g = MqttNetTopologyInfoResponse::new();
    let m = topology_step(&mut g, Err(Error::Response(plc_service::error::MqttResponseError::Timeout)), info()).unwrap();
    let v = json(m.payload());
    assert_eq!(v["status"], "FAILURE");
    assert_eq!(v["reason"], "request timeout");
    let mut g = MqttNetTopologyInfoResponse::new();
    let empty = NetTopologyResponse { total_node_number: 5, start_index: 1, node_number: 0, net_topology_infos: vec![] };
    assert_eq!(json(topology_step(&mut g, Ok(empty), info()).unwrap().payload())["body"], json("[]"));
}

fn report(last: u8) -> ReportNodeInfoAndDeviceType {
    ReportNodeInfoAndDeviceType {
        node_number: 1,
        node_info: ReportNodeInfoDetail { address: Address::new([0, 0, 0, 0, 1, last]), protocol_type: 2, seq_num: 0 },
        device_type: 1,
        slave_node_count: 0,
        slave_node_number: 0,
        slave_node_comm_infos: vec![],
    }
}

#[test]
fn found_meters_are_reported_to_the_asking_application() {
    let m = search_report(&format!("app7/set/request/{APP_NAME}/enSearchMeter"), "12", &vec![report(5), report(6)]);
    assert_eq!(m.topic(), format!("{APP_NAME}/notify/spont/app7/searchMeter"));
    let v = json(m.payload());
    assert_eq!(v["token"], "12");
    assert_eq!(v["body"][0][0]["acqAddr"], "000000000105");
    assert_eq!(v["body"][1][0]["acqAddr"], "000000000106");
    assert_eq!(v["body"][1][0]["proType"], 2);
    assert_eq!(v["body"][1][0]["deviceType"], 1);
}

#[test]
fn a_second_search_is_refused_while_one_runs() {
    let m = search_running_reply(info());
    let v = json(m.payload());
    assert_eq!(v["status"], "FAILURE");
    assert_eq!(v["reason"], "search meter already running");
    assert_eq!(v["token"], "77");
}

#[test]
fn an_unreadable_search_start_time_is_answered_with_a_failure() {
    let request = MqttMessage::new(&format!("app7/set/request/{APP_NAME}/enSearchMeter"), r#"{"token":"3"}"#);
    let answer = mqtt_enable_search(&request, "2024/01/01 08:00:00", "minute", 10, 1, 1).unwrap_err();
    assert_eq!(answer.topic(), format!("{APP_NAME}/set/response/app7/enSearchMeter"));
    let v = json(answer.payload());
    assert_eq!(v["status"], "FAILURE");
    assert!(v["reason"].as_str().unwrap().starts_with("invalid json request: "));
    assert_eq!(v["token"], "3");
    let q = mqtt_enable_search(&request, "2024-01-01 08:00:00", "hour", 2, 1, 1).unwrap();
    assert_eq!(q.duration, 120);
}

fn reading(addr: &str, task: &str) -> QueuedReading {
    QueuedReading {
        message: MqttMessage::new(&format!("app1/get/request/{APP_NAME}/concurrent"), &format!(r#"{{"token":"{task}"}}"#)),
        payload: SamplePayload { task_id: task.to_string(), acq_addr: addr.to_string(), pro_type: "2".to_string(), data: "68aa".to_string() },
    }
}

#[test]
fn an_idle_meter_is_refused_at_the_limit() {
    let mut c = ConcurrentMeter::new(MeterReadingConfig { cache_queue_size: 2, concurrent_addr: 1, queue_aging_time: 10 });
    let mut seq = FrameSeq::new();
    let master = Address::new([9, 9, 9, 9, 9, 9]);
    assert!(c.handle_meter_reading::<()>(reading("000000000001", "a"), master, false, 0, &mut seq).unwrap().is_some());
    assert!(c.handle_next_request::<()>("000000000001", master, &mut seq).is_none());
    assert!(c.handle_meter_reading::<()>(reading("000000000002", "b"), master, false, 0, &mut seq).unwrap().is_some());
    assert_eq!(
        c.handle_meter_reading::<()>(reading("000000000001", "c"), master, false, 0, &mut seq).err(),
        Some(Error::ConcurrentMeter(ConcurrentMeterError::AddrLimit(1)))
    );
    assert_eq!(c.concurrent_addr_num(), 1);
}

#[test]
fn a_request_that_can_be_neither_answered_nor_queued_is_not_taken_in() {
    let mut seq = MessageSequence::new();
    let no_json = MqttMessage::new(&format!("app/get/request/{APP_NAME}/x"), "not json");
    assert!(take_in(None, no_json, &mut seq).is_none());
    let ok = MqttMessage::new(&format!("app/get/request/{APP_NAME}/x"), r#"{"token":"1","prio":2}"#);
    match take_in(None, ok, &mut seq) {
        Some(Admission::Queued(p)) => assert_eq!((p.priority, p.sequence), (2, 0)),
        other => panic!("not queued: {:?}", other),
    }
}
