use climate_sensor::ccs811::{register_request, RegisterAddress};

#[test]
fn register_codes() {
    assert_eq!(u8::from(RegisterAddress::Status), 0x00);
    assert_eq!(u8::from(RegisterAddress::EnvData), 0x05);
    assert_eq!(u8::from(RegisterAddress::ErrorId), 0x0E);
    assert_eq!(u8::from(RegisterAddress::HwId), 0x20);
    let code: u8 = RegisterAddress::SwReset.into();
    assert_eq!(code, 0xFF);
}

#[test]
fn request_selects_register() {
    assert_eq!(register_request(RegisterAddress::Status), vec![0x00]);
    assert_eq!(register_request(RegisterAddress::FwAppVersion), vec![0x24]);
}
