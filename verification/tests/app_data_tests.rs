use plc_service::error::Error;
use plc_service::protocol::app_data::active_report::SlaveNodeEvent;
use plc_service::protocol::app_data::answer::{ConfirmResponse, DenyErrorCode, DenyResponse};
use plc_service::protocol::app_data::ctrl_cmd::{AddressSetRequest, BroadcastRequest};
use plc_service::protocol::app_data::data_trans::{TransferFrameRequest, TransferFrameResponse};
use plc_service::protocol::app_data::init::{InitOperation, InitRequest};
use plc_service::protocol::app_data::meter_reading::{ConcurrentReadMeterRequest, ConcurrentReadMeterResponse};
use plc_service::protocol::app_data::query_data::{
    BroadcastDelayRequest, BroadcastDelayResponse, MasterIdInfoRequest, MasterIdInfoResponse,
    ModuleInfoRequest, ModuleInfoResponse,
};
use plc_service::protocol::app_data::route_data_forward::{MonitorNodeRequest, MonitorNodeResponse};
use plc_service::protocol::app_data::route_set::{AddNodeRequest, DelNodeRequest, NodeInfo};
use plc_service::protocol::app_data::{
    date_to_string, date_transfer, module_id_format_string, Address, AppData, AppDataError, Afn,
    DataFlag, Date, ModuleIdFormat, AFN_SIZE, DATA_FLAG_SIZE,
};
use plc_service::protocol::frame::Frame;

fn hex_to_bytes(hex_str: &str) -> Vec<u8> {
    hex::decode(hex_str).expect("Invalid hex string")
}

fn create_frame_from_hex(hex_str: &str) -> Frame {
    let bytes = hex_to_bytes(hex_str);
    Frame::from_bytes(bytes.as_slice()).expect("Failed to create frame from hex")
}

#[test]
fn test_app_data_creation() {
    let app_data = AppData::new(Afn::Init, 1, Some(vec![1, 2, 3]));
    assert_eq!(app_data.afn(), Afn::Init);
    assert_eq!(app_data.fn_num(), 1);
    assert_eq!(app_data.data_length(), 3);
}

#[test]
fn test_app_data_length() {
    let app_data = AppData::new(Afn::CtrlCmd, 2, Some(vec![1, 2, 3, 4]));
    assert_eq!(app_data.length(), 7);
}

#[test]
fn test_app_data_get_comm_mark() {
    let app_data1 = AppData::new(Afn::Init, 1, None);
    assert_eq!(app_data1.get_comm_mark(), 0);

    let app_data2 = AppData::new(Afn::DataForward, 1, None);
    assert_eq!(app_data2.get_comm_mark(), 1);
}

#[test]
fn test_app_data_check() {
    let app_data = AppData::new(Afn::QueryData, 3, Some(vec![1, 2, 3]));
    assert!(app_data.check(Afn::QueryData, 3, 3).is_ok());
    assert!(app_data.check(Afn::Init, 3, 3).is_err());
    assert!(app_data.check(Afn::QueryData, 4, 3).is_err());
    assert!(app_data.check(Afn::QueryData, 3, 4).is_err());
}

#[test]
fn test_app_data_try_from() {
    let data = vec![Afn::RouteGet.code(), 1, 0, 5, 6, 7];
    let app_data = AppData::from_bytes(data.as_slice()).unwrap();
    assert_eq!(app_data.afn(), Afn::RouteGet);
    assert_eq!(app_data.fn_num(), 1);
    assert_eq!(app_data.data_units(), &Some(vec![5, 6, 7]));
}

#[test]
fn test_app_data_try_from_error() {
    let data = vec![0xFF];
    assert!(AppData::from_bytes(data.as_slice()).is_err());

    let data = vec![Afn::Init.code()];
    assert!(AppData::from_bytes(data.as_slice()).is_err());
}

#[test]
fn test_app_data_into_vec() {
    let app_data = AppData::new(Afn::CtrlCmd, 2, Some(vec![3, 4, 5]));
    let vec: Vec<u8> = app_data.to_bytes();
    assert_eq!(vec, vec![Afn::CtrlCmd.code(), 2, 0, 3, 4, 5]);
}

#[test]
fn test_app_data_display() {
    let app_data = AppData::new(Afn::Init, 1, Some(vec![1, 2, 3]));
    let display_string = app_data.to_string();
    assert!(display_string.contains("afn: 1, fn: 1"));
    assert!(display_string.contains("type: 0, mark: 1"));
    assert!(display_string.contains("data_units: 010203"));
}

#[test]
fn test_app_data_into_iterator() {
    let app_data = AppData::new(Afn::RouteSet, 3, Some(vec![4, 5, 6]));
    let collected: Vec<u8> = app_data.to_bytes();
    assert_eq!(collected, vec![Afn::RouteSet.code(), 4, 0, 4, 5, 6]);
}

#[test]
fn test_data_flag() {
    let data_flag = DataFlag { type_: 2, mark: 4 };
    assert_eq!(data_flag.as_fn_num(), 19);

    let data_flag_from_fn = DataFlag::from_fn_num(19u8);
    assert_eq!(data_flag_from_fn.type_, 2);
    assert_eq!(data_flag_from_fn.mark, 4);

    let data_flag_from_slice = DataFlag::from_bytes([4u8, 2u8].as_slice());
    assert_eq!(data_flag_from_slice.type_, 2);
    assert_eq!(data_flag_from_slice.mark, 4);
}

#[test]
fn test_app_data_with_empty_data_units() {
    let app_data = AppData::new(Afn::Answer, 1, None);
    assert_eq!(app_data.data_length(), 0);
    assert_eq!(app_data.length(), AFN_SIZE + DATA_FLAG_SIZE);
}

#[test]
fn test_app_data_with_large_data_units() {
    let large_data = vec![0; 1000];
    let app_data = AppData::new(Afn::FileTransfer, 1, Some(large_data.clone()));
    assert_eq!(app_data.data_length(), 1000);
    assert_eq!(app_data.length(), AFN_SIZE + DATA_FLAG_SIZE + 1000);
}

#[test]
fn test_app_data_try_from_boundary() {
    let minimal_data = vec![Afn::Debug.code(), 1, 0];
    let app_data = AppData::from_bytes(minimal_data.as_slice()).unwrap();
    assert_eq!(app_data.afn(), Afn::Debug);
    assert_eq!(app_data.fn_num(), 1);
    assert_eq!(app_data.data_units(), &None);

    let barely_invalid_data = vec![Afn::Debug.code(), 0];
    assert!(AppData::from_bytes(barely_invalid_data.as_slice()).is_err());
}

#[test]
fn test_app_data_error_cases() {
    let app_data = AppData::new(Afn::Init, 1, Some(vec![1, 2, 3]));

    let err = app_data.check(Afn::CtrlCmd, 1, 3).unwrap_err();
    assert!(matches!(err, Error::AppData(AppDataError::Afn(_))));

    let err = app_data.check(Afn::Init, 2, 3).unwrap_err();
    assert!(matches!(err, Error::AppData(AppDataError::FnNum(_))));

    let err = app_data.check(Afn::Init, 1, 4).unwrap_err();
    assert!(matches!(err, Error::AppData(AppDataError::DataLength(_))));
}

#[test]
fn test_address() {
    let address = Address::new([0x12, 0x34, 0x56, 0x78, 0x90, 0x21]);
    let address_str = "123456789021";

    let addr1 = Address::from_hex(address_str);
    assert_eq!(addr1, address);

    let addr2 = Address::try_from(hex::decode("219078563412").unwrap().as_slice()).unwrap();
    assert_eq!(addr2, address);

    assert_eq!(address.to_string(), address_str);
    assert_eq!(address.to_bytes(), vec![0x21, 0x90, 0x78, 0x56, 0x34, 0x12]);
}

#[test]
fn test_module_id() {
    assert_eq!(module_id_format_string(ModuleIdFormat::Ascii, &[65, 66, 67, 68]), "ABCD");

    assert_eq!(
        module_id_format_string(ModuleIdFormat::Bin, hex::decode("65666768").unwrap().as_slice()),
        "65666768"
    );
}

#[test]
fn test_confirm_response_into() {
    let frame = create_frame_from_hex("681500030000000000000001000000000006000a16");
    let confirm = ConfirmResponse { channel_status: 0x00000000, wait_time: 0x0006 };
    assert_eq!(frame.into_app_data(), confirm.into());
}

#[test]
fn test_confirm_response_from() {
    let frame = create_frame_from_hex("68150003000000000000000100403020100a00ae16");
    let confirm = ConfirmResponse { channel_status: 0x40302010, wait_time: 0x000a };
    assert_eq!(TryInto::<ConfirmResponse>::try_into(frame.into_app_data()).unwrap(), confirm);
}

#[test]
fn test_deny_response_into() {
    let frame = create_frame_from_hex("68100003000000000001000200080e16");
    let deny = DenyResponse { error_code: DenyErrorCode::AppNoResponse };
    assert_eq!(frame.into_app_data(), deny.into());
}

#[test]
fn test_deny_response_from() {
    let frame = create_frame_from_hex("681000030000000000010002006f7516");
    let deny = DenyResponse { error_code: DenyErrorCode::MeterOperating };
    assert_eq!(TryInto::<DenyResponse>::try_into(frame.into_app_data()).unwrap(), deny);
}

#[test]
fn test_slave_node_event() {
    let frame = create_frame_from_hex("682200c3000010000001061000020110689228950000136811043434393820165316");
    let slave_node_event = SlaveNodeEvent {
        device_type: 0x02,
        protocol_type: 0x01,
        data_length: 0x10,
        data: hex_to_bytes("68922895000013681104343439382016"),
    };
    assert_eq!(SlaveNodeEvent::try_from(frame.into_app_data()).unwrap(), slave_node_event);
}

#[test]
fn test_address_set_request() {
    let frame = create_frame_from_hex("68150043000000000000050100ab89675634128016");
    let address_set = AddressSetRequest { address: Address::new([0x12, 0x34, 0x56, 0x67, 0x89, 0xab]) };
    assert_eq!(frame.into_app_data(), address_set.into());
}

#[test]
fn test_broadcast_request() {
    let frame = create_frame_from_hex("682300430000286400990504000212689999999999996808064A33343A3C54EF167916");
    let broadcast = BroadcastRequest::new(0x02, hex::decode("689999999999996808064A33343A3C54EF16").unwrap());
    assert_eq!(frame.into_app_data(), broadcast.into());
}

#[test]
fn test_data_transfer_request() {
    let frame = create_frame_from_hex(
        "682d004304000000000677206419826301000000000002010001106801000000000068110435343433b616dd16",
    );
    let data_transfer_request = TransferFrameRequest {
        protocol_type: 0x01,
        message: hex_to_bytes("6801000000000068110435343433b616"),
    };
    assert_eq!(frame.into_app_data(), data_transfer_request.into());
}

#[test]
fn test_data_transfer_response() {
    let frame = create_frame_from_hex("681f0083000000000006020100020e6812345678901268010243c3ac16ed16");
    let data_transfer_response = TransferFrameResponse {
        protocol_type: 0x02,
        message_len: 0x0e,
        message: hex_to_bytes("6812345678901268010243c3ac16"),
    };
    let response: TransferFrameResponse = frame.into_app_data().try_into().unwrap();
    assert_eq!(response, data_transfer_response);
}

#[test]
fn test_init_request() {
    let frame = create_frame_from_hex("680f00430000000000000102004616");
    let init_request = InitRequest::new(InitOperation::Params);
    assert_eq!(frame.into_app_data(), init_request.into());
}

#[test]
fn test_meter_read_request() {
    let frame = create_frame_from_hex(
        "682d0043040000000000ab8967563412ab8967564321f1010002000e006812345678901268010243c3ac162616",
    );
    let meter_read_request = ConcurrentReadMeterRequest {
        protocol_type: 0x02,
        reserve: 0x00,
        message: hex_to_bytes("6812345678901268010243c3ac16"),
    };
    assert_eq!(frame.into_app_data(), meter_read_request.into());
}

#[test]
fn test_meter_read_response() {
    let frame = create_frame_from_hex(
        "683200830400101f0051222202005002129078563412f10100021400680250000222226891083333343337363333a116b516",
    );
    let meter_read_response = ConcurrentReadMeterResponse {
        protocol_type: 0x02,
        message_len: 0x0014,
        message: hex_to_bytes("680250000222226891083333343337363333a116"),
    };
    let response: ConcurrentReadMeterResponse = frame.into_app_data().try_into().unwrap();
    assert_eq!(response, meter_read_response);
}

#[test]
fn test_module_info_request() {
    let frame = create_frame_from_hex("680f00430000000000000302014916");
    let module_info_request = ModuleInfoRequest {};
    assert_eq!(frame.into_app_data(), module_info_request.into());
}

#[test]
fn test_module_info_response() {
    let frame = create_frame_from_hex(
        "68270083000000000004030201000000020000030500ffff12341078901268010243001c0018080730073368787a620112240023218200233c16",
    );
    let module_info_response = ModuleInfoResponse::from_app_data(frame.into_app_data()).unwrap();
    assert_eq!(module_info_response.comm_mode, 0);
    assert_eq!(module_info_response.max_timeout_time, 0x03);
    assert_eq!(module_info_response.broadcast_cmd_timeout_time, 0x0005);
    assert_eq!(module_info_response.max_packet_length, 0xffff);
    assert_eq!(module_info_response.max_packet_per_packet, 0x3412);
    assert_eq!(module_info_response.upgrade_wait_time, 0x10);
    assert_eq!(module_info_response.main_node_addr, Address::new([0x02, 0x01, 0x68, 0x12, 0x90, 0x78]));
    assert_eq!(module_info_response.max_node_num, 0x0043);
    assert_eq!(module_info_response.current_node_num, 0x001c);
    assert_eq!(module_info_response.protocol_release_date, Date { year: 2007, month: 8, day: 18 });
    assert_eq!(module_info_response.last_record_date, Date { year: 2033, month: 7, day: 30 });
    assert_eq!(module_info_response.factory_code, "xh");
    assert_eq!(module_info_response.chip_code, "bz");
    assert_eq!(module_info_response.version_date, Date { year: 2024, month: 12, day: 1 });
    assert_eq!(module_info_response.version, "2300");
    assert_eq!(module_info_response.comm_speed, vec![0x8221, 0x2300]);
}

#[test]
fn module_info_text_form() {
    let frame = create_frame_from_hex(
        "68270083000000000004030201000000020000030500ffff12341078901268010243001c0018080730073368787a620112240023218200233c16",
    );
    let info = ModuleInfoResponse::from_app_data(frame.into_app_data()).unwrap();
    let text = info.to_string();
    let lines: Vec<&str> = text.lines().collect();
    assert_eq!(lines[0], "comm_mode: 0");
    assert_eq!(lines[3], "max_packet_length: 65535");
    assert_eq!(lines[6], "main_node_addr: 020168129078");
    assert_eq!(lines[9], "protocol_release_date: 20070818");
    assert_eq!(lines[12], "chip_code: bz");
    assert_eq!(lines[15], "comm_speed:");
    assert_eq!(lines[16], "\tspeed: 545, unit_flag: 1");
    assert_eq!(lines[17], "\tspeed: 8960, unit_flag: 0");
    assert_eq!(lines.len(), 18);
    assert!(text.ends_with('\n'));
}

#[test]
fn test_date_transfer() {
    let date = Date { year: 2007, month: 8, day: 18 };
    assert_eq!(date_transfer(0x07, 0x08, 0x18), date);
}

#[test]
fn test_date_to_string() {
    let date = Date { year: 2007, month: 8, day: 18 };
    assert_eq!(date_to_string(&date), "20070818");
}

#[test]
fn test_master_id_info_request() {
    let frame = create_frame_from_hex("680f00430000000000000308014f16");
    let master_id_info_request = MasterIdInfoRequest {};
    assert_eq!(frame.into_app_data(), master_id_info_request.into());
}

#[test]
fn test_master_id_info_response() {
    let frame = create_frame_from_hex("681e0083000010000005030801484c0b0100000000000000000000004416");
    let master_id_info_response = MasterIdInfoResponse::from_app_data(frame.into_app_data()).unwrap();
    assert_eq!(master_id_info_response.factory_code, "LH");
    assert_eq!(master_id_info_response.module_id_length, 0x0b);
    assert_eq!(master_id_info_response.module_id_format, ModuleIdFormat::Bcd);
    assert_eq!(master_id_info_response.module_id, hex::decode("0000000000000000000000").unwrap());
}

#[test]
fn test_broadcast_delay_request() {
    let frame = create_frame_from_hex("682300430000286400960301010212689999999999996808064a33343a3c54ef167216");
    let broadcast_delay_request = BroadcastDelayRequest {
        protocol_type: 0x02,
        message: hex_to_bytes("689999999999996808064a33343a3c54ef16"),
    };
    assert_eq!(frame.into_app_data(), broadcast_delay_request.into());
}

#[test]
fn test_broadcast_delay_response() {
    let frame = create_frame_from_hex("6825008300000000009603010101000212689999999999996808064a33343a3c54ef162716");
    let broadcast_delay_response = BroadcastDelayResponse {
        delay: 1,
        protocol_type: 0x02,
        message_len: 0x12,
        message: hex_to_bytes("689999999999996808064a33343a3c54ef16"),
    };
    let response: BroadcastDelayResponse = frame.into_app_data().try_into().unwrap();
    assert_eq!(response, broadcast_delay_response);
}

#[test]
fn test_monitor_node_request() {
    let frame = create_frame_from_hex(
        "68390043040000000000ab8967563412ab8967564321130100020002ab8967563413ab89675634140e6812345678901268010243c3ac16bb16",
    );
    let monitor_node_request = MonitorNodeRequest {
        protocol_type: 0x02,
        comm_delay_flag: 0x00,
        node_addrs: vec![
            Address::new([0x13, 0x34, 0x56, 0x67, 0x89, 0xab]),
            Address::new([0x14, 0x34, 0x56, 0x67, 0x89, 0xab]),
        ],
        message: hex_to_bytes("6812345678901268010243c3ac16"),
    };
    assert_eq!(frame.into_app_data(), monitor_node_request.into());
}

#[test]
fn test_monitor_node_response() {
    let frame = create_frame_from_hex("682100830000000000041301000b00020e6812345678901268010243c3ac160716");
    let monitor_node_response = MonitorNodeResponse {
        up_time: 0x000b,
        protocol_type: 0x02,
        message_len: 0x0e,
        message: hex_to_bytes("6812345678901268010243c3ac16"),
    };
    let response: MonitorNodeResponse = frame.into_app_data().try_into().unwrap();
    assert_eq!(response, monitor_node_response);
}

#[test]
fn test_add_node_request() {
    let frame = create_frame_from_hex("6825004300000000000011010003ab896756341201ab896756341302ab8967563414030616");
    let add_node_request = AddNodeRequest {
        node_infos: vec![
            NodeInfo { src_addr: Address::new([0x12, 0x34, 0x56, 0x67, 0x89, 0xab]), protocol_type: 0x01 },
            NodeInfo { src_addr: Address::new([0x13, 0x34, 0x56, 0x67, 0x89, 0xab]), protocol_type: 0x02 },
            NodeInfo { src_addr: Address::new([0x14, 0x34, 0x56, 0x67, 0x89, 0xab]), protocol_type: 0x03 },
        ],
    };
    assert_eq!(frame.into_app_data(), add_node_request.into());
}

#[test]
fn test_del_node_request() {
    let frame = create_frame_from_hex("6822004300000000000011020003ab8967563412ab8967563413ab89675634140116");
    let del_node_request = DelNodeRequest {
        node_addrs: vec![
            Address::new([0x12, 0x34, 0x56, 0x67, 0x89, 0xab]),
            Address::new([0x13, 0x34, 0x56, 0x67, 0x89, 0xab]),
            Address::new([0x14, 0x34, 0x56, 0x67, 0x89, 0xab]),
        ],
    };
    assert_eq!(frame.into_app_data(), del_node_request.into());
}
