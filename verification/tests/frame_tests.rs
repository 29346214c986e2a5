use plc_service::error::Error;
use plc_service::protocol::app_data::answer::AnswerFn;
use plc_service::protocol::app_data::{Address, Afn, AppData};
use plc_service::protocol::frame::{Comm, Dir, Frame, FrameError, FrameSeq, Prm, TAIL};
use plc_service::protocol::info_field::InfoFieldType;

fn create_frame_from_hex(hex_str: &str) -> Frame {
    let bytes = hex::decode(hex_str).expect("Invalid hex string");
    Frame::from_bytes(bytes.as_slice()).expect("Failed to create frame from hex")
}

fn create_dummy_app_data() -> AppData {
    AppData::new(Afn::QueryData, 1, Some(vec![0x01, 0x02, 0x03]))
}

#[test]
fn test_frame_new_request() {
    let mut seq = FrameSeq::new();
    let app_data = create_dummy_app_data();
    let frame = Frame::new_request(&mut seq, None, app_data.clone());

    assert_eq!(frame.ctrl_field.dir, Dir::Down);
    assert_eq!(frame.ctrl_field.prm, Prm::Master);
    assert_eq!(frame.user_data.app_data, app_data);
    assert_eq!(frame.tail.tail, TAIL);
}

#[test]
fn test_frame_new_response() {
    let app_data = create_dummy_app_data();
    let frame = Frame::new_response(5, None, app_data.clone());

    assert_eq!(frame.ctrl_field.dir, Dir::Down);
    assert_eq!(frame.ctrl_field.prm, Prm::Slave);
    assert_eq!(frame.user_data.app_data, app_data);
    assert_eq!(frame.get_seq(), 5);
    assert_eq!(frame.tail.tail, TAIL);
}

#[test]
fn test_frame_to_bytes_and_back() {
    let mut seq = FrameSeq::new();
    let original_frame = Frame::new_request(&mut seq, None, create_dummy_app_data());
    let bytes = original_frame.to_bytes();
    let reconstructed_frame = Frame::from_bytes(bytes.as_slice()).unwrap();

    assert_eq!(original_frame.user_data.app_data, reconstructed_frame.user_data.app_data);
    assert_eq!(original_frame.ctrl_field.dir, reconstructed_frame.ctrl_field.dir);
    assert_eq!(original_frame.ctrl_field.prm, reconstructed_frame.ctrl_field.prm);
}

#[test]
fn test_frame_checksum() {
    let frame = create_frame_from_hex("680f00430000000000000102004616");
    assert_eq!(frame.checksum.checksum, 0x46);
}

#[test]
fn test_frame_parse_valid() {
    let mut seq = FrameSeq::new();
    let frame = Frame::new_request(&mut seq, None, create_dummy_app_data());
    let bytes = frame.to_bytes();
    let mut pos = 0usize;
    let parsed_frame = Frame::parse(bytes.as_slice(), &mut pos).unwrap().unwrap();
    assert_eq!(frame.user_data.app_data, parsed_frame.user_data.app_data);
}

#[test]
fn test_frame_parse_invalid_header() {
    let mut seq = FrameSeq::new();
    let mut invalid_bytes = vec![0x00]; // Invalid header
    invalid_bytes.extend(Frame::new_request(&mut seq, None, create_dummy_app_data()).to_bytes());
    let mut pos = 0usize;
    let result = Frame::parse(invalid_bytes.as_slice(), &mut pos);
    assert!(result.is_ok());
    assert!(result.unwrap().is_none());
}

#[test]
fn test_frame_try_from_invalid_length() {
    let short_bytes = vec![0x68, 0x03, 0x00]; // Too short
    let result = Frame::from_bytes(short_bytes.as_slice());
    assert!(result.is_err());
    assert!(matches!(result.unwrap_err(), Error::Frame(FrameError::Length(_))));
}

#[test]
fn test_frame_try_from_invalid_checksum() {
    let mut seq = FrameSeq::new();
    let mut frame = Frame::new_request(&mut seq, None, create_dummy_app_data());
    frame.checksum.checksum = 0xFF; // Incorrect checksum
    let bytes = frame.to_bytes();
    let result = Frame::from_bytes(bytes.as_slice());
    assert!(result.is_err());
    assert!(matches!(result.unwrap_err(), Error::Frame(FrameError::Checksum { .. })));
}

#[test]
fn test_frame_try_from_invalid_tail() {
    let mut seq = FrameSeq::new();
    let mut frame = Frame::new_request(&mut seq, None, create_dummy_app_data());
    frame.tail.tail = 0x00; // Incorrect tail
    let bytes = frame.to_bytes();
    let result = Frame::from_bytes(bytes.as_slice());
    assert!(result.is_err());
    assert!(matches!(result.unwrap_err(), Error::Frame(FrameError::Tail(_))));
}

#[test]
fn test_frame_sequence_number() {
    let mut seq = FrameSeq::new();
    let frame1 = Frame::new_request(&mut seq, None, create_dummy_app_data());
    let frame2 = Frame::new_request(&mut seq, None, create_dummy_app_data());
    assert_ne!(frame1.get_seq(), frame2.get_seq());
}

#[test]
fn test_frame_is_confirm() {
    let app_data = AppData::new(Afn::Answer, AnswerFn::Confirm.code(), Some(vec![]));
    let frame = Frame::new_response(0, None, app_data);
    assert!(frame.is_confirm());
}

#[test]
fn test_frame_is_deny() {
    let app_data = AppData::new(Afn::Answer, AnswerFn::Deny.code(), Some(vec![]));
    let frame = Frame::new_response(0, None, app_data);
    assert!(frame.is_deny());
}

#[test]
fn test_frame_is_slave_report() {
    let mut seq = FrameSeq::new();
    let mut frame = Frame::new_request(&mut seq, None, create_dummy_app_data());
    frame.ctrl_field.dir = Dir::Up;
    frame.ctrl_field.prm = Prm::Master;
    assert!(frame.is_slave_report());
}

#[test]
fn test_frame_is_master_response() {
    let frame = Frame::new_response(0, None, create_dummy_app_data());
    assert!(frame.is_master_response());
}

#[test]
fn test_afn_00h_f1() {
    let hex_str = "681500030000000000000001000000000006000a16";
    let frame = create_frame_from_hex(hex_str);

    let Frame { ctrl_field, user_data, checksum, .. } = frame;

    assert!(matches!(ctrl_field.dir, Dir::Down));
    assert!(matches!(ctrl_field.prm, Prm::Slave));
    assert!(matches!(ctrl_field.comm, Comm::Hplc));

    assert_eq!(user_data.info_field.get_type(), InfoFieldType::Down);
    assert_eq!(user_data.info_field.comm_model_mark(), 0);
    assert_eq!(user_data.info_field.seq_num(), 0);
    assert!(user_data.address_field.is_none());

    assert_eq!(user_data.app_data.afn(), Afn::Answer);
    assert_eq!(user_data.app_data.fn_num(), AnswerFn::Confirm.code());
    assert_eq!(checksum.checksum, 0x0a);
}

#[test]
fn _test_afn_13h_f1() {
    let hex_str = "68390043040000000000ab8967563412ab8967564321130100020002ab8967563413ab89675634140e6812345678901268010243c3ac16bb16";
    let frame = create_frame_from_hex(hex_str);

    let Frame { ctrl_field, user_data, checksum, .. } = frame;

    assert!(matches!(ctrl_field.dir, Dir::Down));
    assert!(matches!(ctrl_field.prm, Prm::Master));
    assert!(matches!(ctrl_field.comm, Comm::Hplc));

    assert_eq!(user_data.info_field.get_type(), InfoFieldType::Down);
    assert_eq!(user_data.info_field.comm_model_mark(), 1);
    assert_eq!(user_data.info_field.seq_num(), 0);

    let address_field = user_data.address_field.unwrap();
    assert_eq!(address_field.src_address, Address::new([0x12, 0x34, 0x56, 0x67, 0x89, 0xAB]));
    assert_eq!(address_field.dst_address, Address::new([0x21, 0x43, 0x56, 0x67, 0x89, 0xAB]));
    assert!(address_field.relay_address.is_none());

    assert_eq!(user_data.app_data.afn(), Afn::RouteDataForward);
    assert_eq!(checksum.checksum, 0xbb);
}
