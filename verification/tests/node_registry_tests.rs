use plc_service::error::{Error, NodeConfigError, ParseIntError};
use plc_service::mqtt_message::MqttMessage;
use plc_service::protocol::app_data::answer::{DenyErrorCode, DenyResponse};
use plc_service::protocol::app_data::{Afn, AppData};
use plc_service::protocol::frame::{Frame, FrameSeq};
use plc_service::request_info::{ReqInfo, UartMessage};
use plc_service::service::node_config::{parse_usize, ConfigChange, NodeConfig, NodeInfo};
use plc_service::service::node_manage::{
    load_config, mqtt_get_acq_files, mqtt_get_acq_files_number, uart_get_acq_files,
    uart_get_acq_files_number, uart_operate_acq_files, AcqFilesAnswer, AcqFilesJob,
    AcqFilesOperation, ChunkStep,
};
use plc_service::service::parse_response::UartResponse;
use plc_service::APP_NAME;

fn node(addr: &str, t: &str) -> NodeInfo {
    NodeInfo::new(addr.to_string(), t.to_string())
}

fn addrs(v: &[NodeInfo]) -> Vec<String> {
    v.iter().map(|n| n.acq_addr.clone()).collect()
}

#[test]
fn meters_are_shared_between_applications() {
    let mut c = NodeConfig::new();
    assert_eq!(c.add_node_info_exist("a", &node("000000000001", "1"), false), Ok(false));
    c.add_node_info_checked("a", node("000000000001", "1"));
    assert_eq!(c.add_node_info_exist("a", &node("000000000001", "1"), false), Ok(true));
    // Another application takes the entry over, and that is to be persisted.
    assert_eq!(c.add_node_info_exist("b", &node("000000000001", "1"), false), Ok(true));
    assert_eq!(c.get_node_count("b"), 1);
    let changes = c.take_changes();
    assert_eq!(changes.len(), 1);
    assert!(matches!(&changes[0], ConfigChange::Add(app, n) if app == "b" && n.len() == 1));
    // The same address under another protocol type is refused.
    assert_eq!(
        c.add_node_info_exist("c", &node("000000000001", "2"), false),
        Err(Error::NodeConfig(NodeConfigError::TypeMismatch("2".to_string(), "1".to_string())))
    );
    assert_eq!(c.get_node_count("c"), 0);
}

#[test]
fn shared_meters_are_only_dropped_from_one_application() {
    let mut c = NodeConfig::new();
    c.add_node_info_checked("a", node("000000000001", "1"));
    c.add_node_info_exist("b", &node("000000000001", "1"), false).unwrap();
    c.take_changes();
    // Held by two applications: "b" lets go, the module keeps the meter.
    assert!(!c.should_remove_node_info("b", &node("000000000001", "1")));
    assert_eq!(c.get_node_count("b"), 0);
    assert!(matches!(&c.take_changes()[..], [ConfigChange::Del(app, _)] if app == "b"));
    // Held by "a" alone: the module must delete it.
    assert!(c.should_remove_node_info("a", &node("000000000001", "1")));
    assert!(c.can_remove_all("a", &[node("000000000001", "1")]));
    assert!(!c.can_remove_all("a", &[node("000000000001", "1"), node("000000000001", "1")]));
    assert_eq!(c.remove_node_infos_checked("a", &[node("000000000001", "1")]), Ok(()));
    assert_eq!(c.get_node_count("a"), 0);
    // Unknown application or meter: nothing to delete.
    assert!(!c.should_remove_node_info("x", &node("000000000001", "1")));
}

#[test]
fn removing_an_unregistered_address_is_an_error() {
    let mut c = NodeConfig::new();
    c.add_node_infos_checked("a", &[node("000000000001", "1"), node("000000000001", "1")]);
    assert_eq!(c.get_node_count("a"), 2);
    assert_eq!(c.remove_node_info_checked("a", &node("000000000001", "1")), Ok(()));
    assert_eq!(
        c.remove_node_info_checked("a", &node("000000000001", "1")),
        Err(Error::NodeConfig(NodeConfigError::NotFound("000000000001".to_string())))
    );
    assert_eq!(c.get_node_count("a"), 0);
}

#[test]
fn meters_are_read_a_page_at_a_time() {
    let mut c = NodeConfig::new();
    let nodes: Vec<NodeInfo> = (1..=5).map(|i| node(&format!("00000000000{i}"), "1")).collect();
    c.add_node_infos_checked("a", &nodes);
    assert_eq!(addrs(&c.get_node_infos("a", 1, 2)), vec!["000000000002", "000000000003"]);
    assert_eq!(c.get_node_infos("a", 4, 10).len(), 1);
    assert!(c.get_node_infos("a", 9, 10).is_empty());
    assert!(c.get_node_infos("z", 0, 10).is_empty());
    assert_eq!(c.get_all_node_infos("a").len(), 5);
    c.clear_all_app();
    assert_eq!(c.get_node_count("a"), 0);
}

#[test]
fn start_up_loading_takes_shared_meters_once() {
    let mut c = NodeConfig::new();
    let apps = vec![
        ("a".to_string(), vec![node("000000000001", "1"), node("000000000002", "1")]),
        ("b".to_string(), vec![node("000000000002", "1"), node("000000000003", "1")]),
    ];
    let send = load_config(&mut c, &apps).unwrap();
    assert_eq!(addrs(&send), vec!["000000000001", "000000000002", "000000000003"]);
    assert_eq!(c.get_node_count("a"), 2);
    assert_eq!(c.get_node_count("b"), 2);
    assert!(c.take_changes().is_empty());
    let bad = vec![("c".to_string(), vec![node("000000000001", "7")])];
    assert!(matches!(load_config(&mut c, &bad), Err(Error::NodeConfig(NodeConfigError::TypeMismatch(_, _)))));
}

#[test]
fn decimal_numbers_are_parsed_as_std_does() {
    assert_eq!(parse_usize("42"), Ok(42));
    assert_eq!(parse_usize("+7"), Ok(7));
    assert_eq!(parse_usize(""), Err(ParseIntError::Empty));
    assert_eq!(parse_usize("+"), Err(ParseIntError::InvalidDigit));
    assert_eq!(parse_usize("-1"), Err(ParseIntError::InvalidDigit));
    assert_eq!(parse_usize("1a"), Err(ParseIntError::InvalidDigit));
    assert_eq!(parse_usize("99999999999999999999999"), Err(ParseIntError::PosOverflow));
    for s in ["0", "17", "+3", "", "x", "18446744073709551615", "18446744073709551616"] {
        assert_eq!(parse_usize(s).ok(), s.parse::<usize>().ok());
    }
}

fn request(object: &str, payload: &str) -> MqttMessage {
    MqttMessage::new(&format!("meter/set/request/{APP_NAME}/{object}"), payload)
}

fn confirm(sent: &Frame) -> UartMessage<(), ()> {
    let answer = Frame::new_response(0, None, AppData::new(Afn::Answer, 1, Some(vec![0xff, 0xff, 0xff, 0xff, 0, 0])));
    UartMessage::new(ReqInfo::new(sent, None, None), answer)
}

#[test]
fn additions_go_to_the_module_ten_at_a_time() {
    let mut c = NodeConfig::new();
    let mut seq = FrameSeq::new();
    let nodes: Vec<NodeInfo> = (0..12).map(|i| node(&format!("0000000000{i:02}"), "2")).collect();
    let info = request("acqFiles", r#"{"token":"5"}"#).to_mqtt_req_info::<()>();
    let mut job = AcqFilesJob::new(AcqFilesOperation::Add, "meter", Some(info), nodes);
    let mut sent = 0;
    loop {
        match job.next_step::<(), ()>(&mut c, &mut seq).unwrap() {
            ChunkStep::Done => break,
            ChunkStep::Skipped => {}
            ChunkStep::Send(m) => {
                let units = m.frame.user_data.app_data.data_units().clone().unwrap();
                assert_eq!(units[0] as usize, job.pending.len());
                assert_eq!(units.len(), 1 + 7 * job.pending.len());
                sent += job.pending.len();
                let outcome = uart_operate_acq_files(confirm(&m.frame)).unwrap();
                job.chunk_done(&mut c, outcome).unwrap();
            }
        }
    }
    assert_eq!(sent, 12);
    assert_eq!(c.get_node_count("meter"), 12);
    assert_eq!(c.take_changes().len(), 2);
    // A second request for the same meters needs nothing of the module.
    let again: Vec<NodeInfo> = (0..3).map(|i| node(&format!("0000000000{i:02}"), "2")).collect();
    let mut job = AcqFilesJob::new(AcqFilesOperation::Add, "meter", Some(request("acqFiles", r#"{"token":"6"}"#).to_mqtt_req_info::<()>()), again);
    assert!(matches!(job.next_step::<(), ()>(&mut c, &mut seq), Ok(ChunkStep::Skipped)));
    assert!(matches!(job.next_step::<(), ()>(&mut c, &mut seq), Ok(ChunkStep::Done)));
}

#[test]
fn a_denied_group_stops_the_request() {
    let mut c = NodeConfig::new();
    let mut seq = FrameSeq::new();
    let mut job = AcqFilesJob::new(
        AcqFilesOperation::Add,
        "meter",
        Some(request("acqFiles", r#"{"token":"5"}"#).to_mqtt_req_info::<()>()),
        vec![node("000000000001", "2")],
    );
    let m = match job.next_step::<(), ()>(&mut c, &mut seq).unwrap() {
        ChunkStep::Send(m) => m,
        _ => panic!("expected a request"),
    };
    let deny = Frame::new_response(0, None, AppData::from(DenyResponse { error_code: DenyErrorCode::MasterBusy }));
    let outcome = uart_operate_acq_files(UartMessage::<(), ()>::new(ReqInfo::new(&m.frame, None, None), deny)).unwrap();
    assert_eq!(job.chunk_done(&mut c, outcome), Err(Error::Denied(DenyErrorCode::MasterBusy)));
    assert_eq!(c.get_node_count("meter"), 0);
}

#[test]
fn deletions_ask_the_module_about_sole_holders() {
    let mut c = NodeConfig::new();
    let mut seq = FrameSeq::new();
    c.add_node_infos_checked("a", &[node("000000000001", "1"), node("000000000002", "1")]);
    c.add_node_info_exist("b", &node("000000000002", "1"), false).unwrap();
    c.take_changes();
    let mut job = AcqFilesJob::new(
        AcqFilesOperation::Del,
        "a",
        Some(request("delAcqFiles", r#"{"token":"1"}"#).to_mqtt_req_info::<()>()),
        vec![node("000000000001", "1"), node("000000000002", "1")],
    );
    let m = match job.next_step::<(), ()>(&mut c, &mut seq).unwrap() {
        ChunkStep::Send(m) => m,
        _ => panic!("expected a request"),
    };
    assert_eq!(addrs(&job.pending), vec!["000000000001"]);
    assert_eq!(m.frame.user_data.app_data.data_units(), &Some(vec![1, 1, 0, 0, 0, 0, 0]));
    assert!(c.can_remove_all("a", &job.pending));
    job.chunk_done(&mut c, Ok(())).unwrap();
    assert_eq!(c.get_node_count("a"), 0);
    assert_eq!(c.get_node_count("b"), 1);
}

#[test]
fn meter_queries_are_answered_locally_or_by_the_module() {
    let mut c = NodeConfig::new();
    let mut seq = FrameSeq::new();
    c.add_node_infos_checked("meter", &[node("000000000001", "1"), node("000000000002", "1")]);
    let msg = MqttMessage::new(&format!("meter/get/request/{APP_NAME}/acqFiles"), r#"{"token":"9"}"#);
    match mqtt_get_acq_files::<(), ()>(&c, &msg, "1", "5", None, &mut seq).unwrap() {
        AcqFilesAnswer::Local(v) => assert_eq!(addrs(&v), vec!["000000000002"]),
        _ => panic!("expected a local answer"),
    }
    match mqtt_get_acq_files::<(), ()>(&c, &msg, "1", "5", Some(1), &mut seq).unwrap() {
        AcqFilesAnswer::Module(m) => {
            assert_eq!(m.frame.user_data.app_data.data_units(), &Some(vec![1, 0, 5]));
            assert_eq!(m.req_info.mqtt_req_info.unwrap().token, "9");
        }
        _ => panic!("expected a module request"),
    }
    assert!(matches!(
        mqtt_get_acq_files::<(), ()>(&c, &msg, "x", "5", None, &mut seq),
        Err(Error::ParseInt(ParseIntError::InvalidDigit))
    ));
    match mqtt_get_acq_files_number::<(), ()>(&c, &msg, Some(0), &mut seq) {
        AcqFilesAnswer::Local(s) => assert_eq!(s, "2"),
        _ => panic!("expected a local answer"),
    }
}

#[test]
fn module_meter_answers_are_read() {
    let mut seq = FrameSeq::new();
    let sent = Frame::new_request(&mut seq, None, AppData::new(Afn::RouteGet, 2, None));
    let units = vec![2, 0, 1, 0x02, 0x01, 0, 0, 0, 0, 0x00, 0x10];
    let answer = Frame::new_response(0, None, AppData::new(Afn::RouteGet, 2, Some(units)));
    match uart_get_acq_files(UartMessage::<(), ()>::new(ReqInfo::new(&sent, None, None), answer)).unwrap() {
        UartResponse::Normal(v) => {
            assert_eq!(v.len(), 1);
            assert_eq!(v[0].acq_addr, "000000000102");
            assert_eq!(v[0].pro_type, "02");
        }
        _ => panic!("expected meters"),
    }
    let count = Frame::new_response(0, None, AppData::new(Afn::RouteGet, 1, Some(vec![0x2c, 0x01, 0, 4])));
    match uart_get_acq_files_number(UartMessage::<(), ()>::new(ReqInfo::new(&sent, None, None), count)).unwrap() {
        UartResponse::Normal(s) => assert_eq!(s, "300"),
        _ => panic!("expected a count"),
    }
}

#[test]
fn added_meters_are_listed_after_the_old_ones() {
    let mut c = NodeConfig::new();
    c.add_node_info_checked("a", node("000000000001", "1"));
    let more = vec![node("000000000002", "2"), node("000000000003", "1")];
    c.add_node_infos_checked("a", &more);
    assert_eq!(addrs(&c.get_all_node_infos("a")), vec!["000000000001", "000000000002", "000000000003"]);
    assert_eq!(c.get_node_count("a"), 3);
    assert_eq!(c.get_node_count("b"), 0);
}

#[test]
fn a_meter_added_then_removed_leaves_the_list_as_it_was() {
    let mut c = NodeConfig::new();
    c.add_node_info_checked("a", node("000000000001", "1"));
    let before = addrs(&c.get_all_node_infos("a"));
    let n = node("000000000009", "2");
    c.add_node_info_checked("a", n.copy());
    assert!(c.removable("a", "000000000009"));
    assert_eq!(c.remove_node_info_checked("a", &n), Ok(()));
    assert_eq!(addrs(&c.get_all_node_infos("a")), before);
}
