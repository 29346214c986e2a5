use plc_service::protocol::app_data::route_get::{
    ChipInfoRequest, ChipInfoResponse, ChipInformation, IdInfoRequest, IdInfoResponse,
    NetTopologyInfo, NetTopologyRequest, NetTopologyResponse, NodeDetail, NodeLineInfo,
    QueryNodeInfoRequest, QueryNodeInfoResponse, QueryNodeLineInfoRequest,
    QueryNodeLineInfoResponse, QueryNodeNumberRequest, QueryNodeNumberResponse, RunningStatus,
    RunningStatusRequest, RunningStatusResponse, SlaveModuleIdInfo, SlaveModuleIdRequest,
    SlaveModuleIdResponse, WorkStatus,
};
use plc_service::protocol::app_data::{Address, AppData, ModuleIdFormat};
use plc_service::protocol::frame::Frame;

fn create_frame_from_hex(hex_str: &str) -> Frame {
    let bytes = hex::decode(hex_str).expect("Invalid hex string");
    Frame::from_bytes(bytes.as_slice()).expect("Failed to create frame from hex")
}

fn addr(s: &str) -> Address {
    Address::from_hex(s)
}

#[test]
fn test_query_node_number_request() {
    let frame = create_frame_from_hex("680f00430000000000001001005416");
    assert_eq!(frame.into_app_data(), AppData::from(QueryNodeNumberRequest {}));
}

#[test]
fn test_query_node_number_response() {
    let frame = create_frame_from_hex("681300830000100000001001000100f807a416");
    let response = QueryNodeNumberResponse { node_number: 0x0001, max_node_number: 0x07f8 };
    assert_eq!(TryInto::<QueryNodeNumberResponse>::try_into(frame.into_app_data()).unwrap(), response);
}

#[test]
fn test_query_node_info_request() {
    let frame = create_frame_from_hex("68120043000000802500100200000001fb16");
    let request = QueryNodeInfoRequest { start_seq: 0x0000, node_number: 0x01 };
    assert_eq!(frame.into_app_data(), request.into());
}

#[test]
fn test_query_node_info_response() {
    let frame = create_frame_from_hex("681a0083000010000000100200010001025000022222f0144316");
    let response = QueryNodeInfoResponse {
        total_node_number: 0x0001,
        node_number: 0x01,
        node_infos: vec![NodeDetail {
            src_addr: Address::new([0x22, 0x22, 0x02, 0x00, 0x50, 0x02]),
            listen_signal_quality: 0x0f,
            relay_level: 0x00,
            comm_protocol_type: 0x02,
            phase: 0x04,
        }],
    };
    assert_eq!(TryInto::<QueryNodeInfoResponse>::try_into(frame.into_app_data()).unwrap(), response);
}

#[test]
fn test_id_info_request() {
    let frame = create_frame_from_hex("6817004300000000000010800401218967563412018616");
    let request = IdInfoRequest { device_type: 0x01, address: addr("123456678921"), id_type: 0x01 };
    assert_eq!(frame.into_app_data(), request.into());
}

#[test]
fn test_id_info_response() {
    let frame = create_frame_from_hex(
        "68300083000010000005108004034841020100000118000000000000000000000000000000000000000000000000d416",
    );
    let response = IdInfoResponse {
        device_type: 0x03,
        address: addr("000001024148"),
        id_type: 0x01,
        id_length: 0x18,
        id_info: hex::decode("000000000000000000000000000000000000000000000000").unwrap(),
    };
    assert_eq!(TryInto::<IdInfoResponse>::try_into(frame.into_app_data()).unwrap(), response);
}

#[test]
fn test_chip_info_request() {
    let frame = create_frame_from_hex("6812004300000000000010800d0100ffe016");
    let request = ChipInfoRequest { start_seq: 0x0001, node_number: 0xff };
    assert_eq!(frame.into_app_data(), request.into());
}

#[test]
fn test_chip_info_response() {
    let frame = create_frame_from_hex(
        "6877008300001000000710800d030001000310445713576602000000000000000000000000000000000000000000000000082416433420200003ffffffffffffffffffffffffffffffffffffffffffffffff06090250000222220338722ac62e5b47f528bd9400003241484c03fbc1019c02010322ac16",
    );
    let response = ChipInfoResponse {
        total_node_number: 0x0003,
        start_seq: 0x0001,
        node_number: 0x03,
        chip_infos: vec![
            ChipInformation {
                address: addr("665713574410"),
                device_type: 0x02,
                id_info: hex::decode("000000000000000000000000000000000000000000000000").unwrap().try_into().unwrap(),
                software_version: "2408".into(),
            },
            ChipInformation {
                address: addr("002020344316"),
                device_type: 0x03,
                id_info: hex::decode("ffffffffffffffffffffffffffffffffffffffffffffffff").unwrap().try_into().unwrap(),
                software_version: "0906".into(),
            },
            ChipInformation {
                address: addr("222202005002"),
                device_type: 0x03,
                id_info: hex::decode("38722ac62e5b47f528bd9400003241484c03fbc1019c0201").unwrap().try_into().unwrap(),
                software_version: "2203".into(),
            },
        ],
    };
    assert_eq!(TryInto::<ChipInfoResponse>::try_into(frame.into_app_data()).unwrap(), response);
}

#[test]
fn test_node_line_info_request() {
    let frame = create_frame_from_hex("681200430000000000001040030100039a16");
    let request = QueryNodeLineInfoRequest { start_seq: 0x0001, node_number: 0x03 };
    assert_eq!(frame.into_app_data(), request.into());
}

#[test]
fn test_node_line_info_response() {
    let frame = create_frame_from_hex("682400830000100000051040030300010002484102010000010012710201004511005a16");
    let response = QueryNodeLineInfoResponse {
        total_node_number: 0x0003,
        start_index: 0x0001,
        node_number: 0x02,
        line_infos: vec![
            NodeLineInfo { addr: addr("000001024148"), info: 0x0001 },
            NodeLineInfo { addr: addr("450001027112"), info: 0x0011 },
        ],
    };
    assert_eq!(TryInto::<QueryNodeLineInfoResponse>::try_into(frame.into_app_data()).unwrap(), response);
}

#[test]
fn test_slave_module_id_request() {
    let frame = create_frame_from_hex("681200430000000000001040000100039716");
    let request = SlaveModuleIdRequest { start_seq: 0x0001, node_number: 0x03 };
    assert_eq!(frame.into_app_data(), request.into());
}

#[test]
fn test_slave_module_id_response() {
    let frame = create_frame_from_hex(
        "68340083000010000005104000030002000248410201814c4d060212710201004514524841020900484906023471520102483d16",
    );
    let response = SlaveModuleIdResponse {
        total_node_number: 0x0003,
        node_number: 0x02,
        slave_module_id_infos: vec![
            SlaveModuleIdInfo {
                address: addr("010241480200"),
                device_type: 0x81,
                factory_code: "ML".into(),
                id_format: ModuleIdFormat::Bin,
                id_info: hex::decode("127102010045").unwrap(),
            },
            SlaveModuleIdInfo {
                address: addr("090241485214"),
                device_type: 0x00,
                factory_code: "IH".into(),
                id_format: ModuleIdFormat::Bin,
                id_info: hex::decode("347152010248").unwrap(),
            },
        ],
    };
    assert_eq!(SlaveModuleIdResponse::from_app_data(frame.into_app_data()).unwrap(), response);
}

#[test]
fn test_net_topology_request() {
    let frame = create_frame_from_hex("6812004300000000000310100201000a7316");
    let request = NetTopologyRequest { start_seq: 0x0001, node_number: 0x0a };
    assert_eq!(frame.into_app_data(), request.into());
}

#[test]
fn test_net_topology_response() {
    let frame = create_frame_from_hex(
        "682a008300001000000510100203000100024841020100000100127112010045110001020001004a8716",
    );
    let response = NetTopologyResponse {
        total_node_number: 0x0003,
        start_index: 0x0001,
        node_number: 0x02,
        net_topology_infos: vec![
            NetTopologyInfo {
                address: addr("000001024148"),
                node_flag: 1,
                proxy_node_flag: 28946,
                node_level: 2,
                node_role: 1,
            },
            NetTopologyInfo {
                address: addr("010011450001"),
                node_flag: 2,
                proxy_node_flag: 1,
                node_level: 10,
                node_role: 4,
            },
        ],
    };
    assert_eq!(TryInto::<NetTopologyResponse>::try_into(frame.into_app_data()).unwrap(), response);
}

#[test]
fn test_running_status_request() {
    let frame = create_frame_from_hex("680f00430000000000031008005e16");
    assert_eq!(frame.into_app_data(), AppData::from(RunningStatusRequest {}));
}

#[test]
fn test_running_status_response() {
    let frame = create_frame_from_hex("681f00830000100000031008000101025000022222f014431600000000a516");
    let response = RunningStatusResponse {
        running_status: RunningStatus { error_code: 0, report_event_flag: 0, work_flag: 0, route_finish_flag: 1 },
        total_node_number: 0x0201,
        meter_node_number: 0x0050,
        relay_meter_node_number: 0x2202,
        work_status: WorkStatus {
            meter_status: 0,
            area_identify_status: 0,
            report_event_flag: 0,
            register_permit: 1,
            work_status: 0,
        },
        comm_speed: 0x14f0,
        relay_level: [0x43, 0x16, 0x00],
        work_step: [0x00, 0x00, 0x00],
    };
    assert_eq!(TryInto::<RunningStatusResponse>::try_into(frame.into_app_data()).unwrap(), response);
}
