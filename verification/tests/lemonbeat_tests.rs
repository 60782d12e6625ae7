use gardena_bnw::firmware_status::{DataDownloadStatus, FirmwareUpdateResult, FirmwareUpdateState};
use gardena_bnw::lemonbeat::{
    go_to_sleep_raw, native_length, HexError, NativeError, NetworkService, Property, PropertyError, PropertyId,
    PropertyIdTooLarge, RawStatus, StatusCode, StatusCodeError, StatusCodeValue, StatusLevel,
    StatusType,
};

fn status(type_id: u32, code: u32, level: u32) -> RawStatus {
    RawStatus { type_id, code, level, data: None }
}

#[test]
fn status_codes() {
    assert_eq!(
        status(5, 12, 2).code(),
        Ok(StatusCode::Value(StatusCodeValue::ValueInvalid))
    );
    assert_eq!(status(1, 77, 0).code(), Ok(StatusCode::PublicKey(77)));
    assert_eq!(status(200, 9, 0).code(), Ok(StatusCode::Application(9)));
    assert_eq!(status(42, 1, 0).code(), Err(StatusCodeError::UnknownTypeId));
    assert_eq!(
        status(5, 9999, 0).code(),
        Err(StatusCodeError::UnknownCode(StatusType::Value))
    );
    assert_eq!(StatusCodeError::UnknownCode(StatusType::Value).message(), "unknown value code");
    assert_eq!(status(0, 0, 2).level(), Some(StatusLevel::Error));
    assert_eq!(status(0, 0, 99).level(), None);
}

#[test]
fn enum_numbers_round_trip() {
    for n in 0..300u32 {
        if let Some(t) = StatusType::from_u32(n) {
            assert_eq!(t.to_u32(), n);
        }
    }
    assert_eq!(StatusType::Exi.to_u32(), 100);
    assert_eq!(StatusType::from_u32(StatusType::System.to_u32()), Some(StatusType::System));
    assert_eq!(FirmwareUpdateState::default(), FirmwareUpdateState::Idle);
    assert_eq!(FirmwareUpdateResult::default().to_u32(), 0);
    assert_eq!(FirmwareUpdateResult::from_u32(7), Some(FirmwareUpdateResult::InvalidUri));
    assert_eq!(DataDownloadStatus::default(), DataDownloadStatus::Initial);
    assert_eq!(DataDownloadStatus::from_u32(6), None);
}

#[test]
fn properties() {
    let p = Property::new_number(2, 17).unwrap();
    assert_eq!(p.id(), Some(PropertyId::Manufacturer));
    assert_eq!(p.number(), Ok(17));
    assert_eq!(p.str(), Err(PropertyError::NotAString(2)));
    assert_eq!(p.hex(), Err(PropertyError::NotHex(2)));

    let s = Property::new_string(1, "lawn".to_string()).unwrap();
    assert_eq!(s.str(), Ok("lawn"));
    assert_eq!(s.number(), Err(PropertyError::NotANumber(1)));

    let h = Property::new_hex(3, &[0x30, 0x14, 0xab]).unwrap();
    assert_eq!(h.hex.as_deref(), Some("3014AB"));
    assert_eq!(h.hex(), Ok(vec![0x30, 0x14, 0xab]));

    assert_eq!(
        Property::new_number(1 << 32, 1).err(),
        Some(PropertyIdTooLarge(1 << 32))
    );

    let bad = Property { type_id: 4, number: None, string: None, hex: Some("3g".to_string()) };
    assert_eq!(
        bad.hex(),
        Err(PropertyError::FromHex(4, HexError::InvalidHexCharacter { c: 'g', index: 1 }))
    );
    let odd = Property { type_id: 4, number: None, string: None, hex: Some("abc".to_string()) };
    assert_eq!(odd.hex(), Err(PropertyError::FromHex(4, HexError::OddLength)));
}

#[test]
fn network_ports_and_native_results() {
    assert_eq!(NetworkService::Value.port(), 20000);
    assert_eq!(NetworkService::Status.port(), 20015);
    assert_eq!(NetworkService::Configuration.port(), 20016);
    assert_eq!(native_length(10, 64), Ok(10));
    assert_eq!(native_length(0, 64), Err(NativeError::Native(0)));
    assert_eq!(native_length(64, 64), Err(NativeError::Native(64)));
}

#[test]
fn go_to_sleep_in_millis() {
    assert_eq!(go_to_sleep_raw(None), Ok(None));
    assert_eq!(go_to_sleep_raw(Some(1500)), Ok(Some(1500)));
    assert_eq!(go_to_sleep_raw(Some(u32::MAX as u128)), Ok(Some(u32::MAX)));
    assert_eq!(go_to_sleep_raw(Some(u32::MAX as u128 + 1)), Err(NativeError::TryFromInt));
}
