use vstd::prelude::*;

verus! {

/// Registers of the CCS811 air-quality sensor.
#[derive(Debug, PartialEq, Eq, Structural, Clone, Copy)]
pub enum RegisterAddress {
    Status,
    MeasMode,
    AlgResultData,
    RawData,
    EnvData,
    Ntc,
    Thresholds,
    Baseline,
    HwId,
    HwVersion,
    FwBootVersion,
    FwAppVersion,
    ErrorId,
    SwReset,
}

/// The register's address on the I2C bus, as the sensor's data sheet gives it.
pub open spec fn register_code(r: RegisterAddress) -> u8 {
    match r {
        RegisterAddress::Status => 0x0,
        RegisterAddress::MeasMode => 0x1,
        RegisterAddress::AlgResultData => 0x2,
        RegisterAddress::RawData => 0x3,
        RegisterAddress::EnvData => 0x5,
        RegisterAddress::Ntc => 0x6,
        RegisterAddress::Thresholds => 0x10,
        RegisterAddress::Baseline => 0x11,
        RegisterAddress::HwId => 0x20,
        RegisterAddress::HwVersion => 0x21,
        RegisterAddress::FwBootVersion => 0x23,
        RegisterAddress::FwAppVersion => 0x24,
        RegisterAddress::ErrorId => 0xE,
        RegisterAddress::SwReset => 0xFF,
    }
}

impl From<RegisterAddress> for u8 {
    fn from(r: RegisterAddress) -> (code: u8) {
        match r {
            RegisterAddress::Status => 0x0,
            RegisterAddress::MeasMode => 0x1,
            RegisterAddress::AlgResultData => 0x2,
            RegisterAddress::RawData => 0x3,
            RegisterAddress::EnvData => 0x5,
            RegisterAddress::Ntc => 0x6,
            RegisterAddress::Thresholds => 0x10,
            RegisterAddress::Baseline => 0x11,
            RegisterAddress::HwId => 0x20,
            RegisterAddress::HwVersion => 0x21,
            RegisterAddress::FwBootVersion => 0x23,
            RegisterAddress::FwAppVersion => 0x24,
            RegisterAddress::ErrorId => 0xE,
            RegisterAddress::SwReset => 0xFF,
        }
    }
}

impl vstd::std_specs::convert::FromSpecImpl<RegisterAddress> for u8 {
    open spec fn obeys_from_spec() -> bool {
        true
    }

    open spec fn from_spec(r: RegisterAddress) -> u8 {
        register_code(r)
    }
}

/// The bytes written to the sensor to select `address` before reading it.
pub fn register_request(address: RegisterAddress) -> (r: Vec<u8>)
    ensures
        r@ == seq![register_code(address)],
{
    let code: u8 = address.into();
    let r = vec![code];
    assert(r@ =~= seq![register_code(address)]);
    r
}

} // verus!
