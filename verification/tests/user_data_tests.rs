use plc_service::protocol::app_data::{Address, Afn, AppData};
use plc_service::protocol::info_field::InfoFieldType;
use plc_service::protocol::user_data::{hex_to_dec, AddressField, UserData};

fn create_sample_app_data() -> AppData {
    AppData::new(Afn::Answer, 1, Some(vec![0x01, 0x02, 0x03]))
}

#[test]
fn test_hex_to_dec() {
    assert_eq!(hex_to_dec(0x12), 12);
    assert_eq!(hex_to_dec(0x99), 99);
    assert_eq!(hex_to_dec(0x00), 0);
    assert_eq!(hex_to_dec(0xFF), 165);
}

#[test]
fn test_address_field_creation() {
    let src_address = Address::new([0x01, 0x02, 0x03, 0x04, 0x05, 0x06]);
    let dst_address = Address::new([0x07, 0x08, 0x09, 0x0A, 0x0B, 0x0C]);
    let address_field = AddressField { src_address, relay_address: None, dst_address };

    assert_eq!(address_field.length(), 12);
    assert_eq!(address_field.src_address, Address::new([0x01, 0x02, 0x03, 0x04, 0x05, 0x06]));
    assert_eq!(address_field.dst_address, Address::new([0x07, 0x08, 0x09, 0x0A, 0x0B, 0x0C]));
}

#[test]
fn test_address_field_with_relay() {
    let src_address = Address::new([0x01, 0x02, 0x03, 0x04, 0x05, 0x06]);
    let relay_address = vec![Address::new([0x0D, 0x0E, 0x0F, 0x10, 0x11, 0x12])];
    let dst_address = Address::new([0x07, 0x08, 0x09, 0x0A, 0x0B, 0x0C]);
    let address_field =
        AddressField { src_address, relay_address: Some(relay_address.clone()), dst_address };

    assert_eq!(address_field.length(), 18);
    assert_eq!(address_field.src_address, Address::new([0x01, 0x02, 0x03, 0x04, 0x05, 0x06]));
    assert_eq!(address_field.relay_address, Some(relay_address));
    assert_eq!(address_field.dst_address, Address::new([0x07, 0x08, 0x09, 0x0A, 0x0B, 0x0C]));
}

#[test]
fn test_address_field_conversion() {
    let src_address = Address::new([0x01, 0x02, 0x03, 0x04, 0x05, 0x06]);
    let relay_address = vec![Address::new([0x0D, 0x0E, 0x0F, 0x10, 0x11, 0x12])];
    let dst_address = Address::new([0x07, 0x08, 0x09, 0x0A, 0x0B, 0x0C]);
    let address_field = AddressField { src_address, relay_address: Some(relay_address), dst_address };

    let bytes: Vec<u8> = address_field.clone().to_bytes();
    assert_eq!(bytes.len(), 18);

    let reconstructed = AddressField::from_bytes(bytes.as_slice());
    assert_eq!(reconstructed.src_address, address_field.src_address);
    assert_eq!(reconstructed.relay_address, address_field.relay_address);
    assert_eq!(reconstructed.dst_address, address_field.dst_address);
}

#[test]
fn test_address_field_display() {
    let src_address = Address::new([0x01, 0x02, 0x03, 0x04, 0x05, 0x06]);
    let relay_address = vec![Address::new([0x0D, 0x0E, 0x0F, 0x10, 0x11, 0x12])];
    let dst_address = Address::new([0x07, 0x08, 0x09, 0x0A, 0x0B, 0x0C]);
    let address_field = AddressField { src_address, relay_address: Some(relay_address), dst_address };

    let display_string = address_field.to_string();
    assert!(display_string.contains("src_address: 010203040506"));
    assert!(display_string.contains("relay_address: 0d0e0f101112"));
    assert!(display_string.contains("dst_address: 0708090a0b0c"));
}

#[test]
fn test_user_data_creation() {
    let app_data = create_sample_app_data();
    let user_data = UserData::new(1, None, app_data.clone());

    assert_eq!(user_data.get_seq(), 1);
    assert_eq!(user_data.app_data, app_data);
    assert!(user_data.address_field.is_none());
}

#[test]
fn test_user_data_length() {
    let app_data = create_sample_app_data();
    let mut user_data = UserData::new(1, None, app_data);

    let length_without_address = user_data.length();

    user_data.address_field = Some(AddressField {
        src_address: Address::new([0x01, 0x02, 0x03, 0x04, 0x05, 0x06]),
        relay_address: None,
        dst_address: Address::new([0x07, 0x08, 0x09, 0x0A, 0x0B, 0x0C]),
    });

    let length_with_address = user_data.length();
    assert_eq!(length_with_address - length_without_address, 12);
}

#[test]
fn test_user_data_from_bytes() {
    let app_data = AppData::new(Afn::RouteDataForward, 1, Some(vec![0x01, 0x02, 0x00, 0x01, 0x02, 0x03]));
    let address_field = Some(AddressField {
        src_address: Address::new([0x01, 0x02, 0x03, 0x04, 0x05, 0x06]),
        relay_address: None,
        dst_address: Address::new([0x07, 0x08, 0x09, 0x0A, 0x0B, 0x0C]),
    });
    let user_data = UserData::new(1, address_field, app_data);

    let bytes: Vec<u8> = user_data.clone().to_bytes();
    let reconstructed = UserData::from_bytes(InfoFieldType::Down, &bytes).unwrap();

    assert_eq!(reconstructed.get_seq(), user_data.get_seq());
    assert_eq!(reconstructed.app_data, user_data.app_data);
    assert_eq!(reconstructed.address_field.is_some(), user_data.address_field.is_some());
}

#[test]
fn test_user_data_conversion() {
    let app_data = create_sample_app_data();
    let user_data = UserData::new(1, None, app_data.clone());

    let bytes: Vec<u8> = user_data.clone().to_bytes();
    assert!(!bytes.is_empty());

    let reconstructed = UserData::from_bytes(InfoFieldType::Down, &bytes).unwrap();
    assert_eq!(reconstructed.get_seq(), user_data.get_seq());
    assert_eq!(reconstructed.app_data, user_data.app_data);
}

#[test]
fn test_user_data_display() {
    let app_data = create_sample_app_data();
    let user_data = UserData::new(1, None, app_data);

    let display_string = user_data.to_string();
    assert!(display_string.contains("info_field:"));
    assert!(display_string.contains("app_data:"));
}

#[test]
fn test_user_data_into_app_data() {
    let app_data = create_sample_app_data();
    let user_data = UserData::new(1, None, app_data.clone());

    let extracted_app_data = user_data.into_app_data();
    assert_eq!(extracted_app_data, app_data);
}
