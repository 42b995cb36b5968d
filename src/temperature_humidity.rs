use vstd::prelude::*;

use crate::util::{bits_value, vec_to_int};

verus! {

/// Number of bits in one sensor frame.
pub const FRAME_BITS: usize = 40;

/// Number of bytes in one sensor frame: four data bytes and a checksum.
pub const FRAME_BYTES: usize = 5;

/// Temperature and relative humidity, each in hundredths of its unit.
#[derive(Debug, PartialEq, Eq, Structural, Clone, Copy)]
pub struct EnvironmentData {
    /// Temperature, in hundredths of a degree.
    pub temp: u64,
    /// Relative humidity, in hundredths of a percent.
    pub humidity: u64,
}

/// Why a captured bit sequence could not be turned into a reading.
#[derive(Debug, PartialEq, Eq, Structural, Clone, Copy)]
pub enum ConversionError {
    BadChecksum,
    UnexpectedInput,
}

/// Declares the GPIO character-device error so that a hardware fault can
/// carry it; its contents are never inspected.
#[verifier::external_type_specification]
#[verifier::external_body]
pub struct ExGpioError(gpio_cdev::Error);

/// Why one read of the sensor failed before decoding.
#[derive(Debug)]
pub enum SensorError {
    /// The first edge after the start signal was not a falling edge.
    InvalidAck,
    /// The edge stream ended early, or its timestamps ran backwards.
    BadRead,
    /// The GPIO line reported an error.
    GpioError(gpio_cdev::Error),
    /// The read did not finish before its deadline.
    TimeoutError,
}

/// Why one read of the sensor produced no reading.
#[derive(Debug)]
pub enum ReadError {
    Sensor(SensorError),
    Conversion(ConversionError),
}

/// The byte packed from bits `8 * k .. 8 * k + 8` of `bits`.
pub open spec fn frame_byte(bits: Seq<u8>, k: int) -> u8 {
    (bits_value(bits.subrange(8 * k, 8 * k + 8)) % 256) as u8
}

/// The five bytes of a 40-bit frame, each packed most significant bit first.
pub open spec fn frame_of(bits: Seq<u8>) -> Seq<u8> {
    Seq::new(5, |k: int| frame_byte(bits, k))
}

/// The sum, modulo 256, of the first four bytes.
pub open spec fn checksum_of(bytes: Seq<u8>) -> int {
    (bytes[0] + bytes[1] + bytes[2] + bytes[3]) % 256
}

/// Whether the last byte is the checksum of the first four.
pub open spec fn checksum_matches(bytes: Seq<u8>) -> bool {
    checksum_of(bytes) == bytes.last()
}

/// The big-endian 16-bit value of bytes `i` and `i + 1`.
pub open spec fn word_at(bytes: Seq<u8>, i: int) -> int {
    bytes[i] * 256 + bytes[i + 1]
}

/// What a bit sequence decodes to: a frame of exactly 40 bits whose checksum
/// holds gives humidity from its first word and temperature from its second,
/// each in tenths of a unit (stored here in hundredths).
pub open spec fn decode_spec(bits: Seq<u8>) -> Result<EnvironmentData, ConversionError> {
    if bits.len() != 40 {
        Err(ConversionError::UnexpectedInput)
    } else if !checksum_matches(frame_of(bits)) {
        Err(ConversionError::BadChecksum)
    } else {
        let f = frame_of(bits);
        Ok(EnvironmentData { humidity: (word_at(f, 0) * 10) as u64, temp: (word_at(f, 2) * 10) as u64 })
    }
}

/// The same reading with its temperature taken from Celsius to Fahrenheit,
/// `t * 1.8 + 32`, rounded down to the hundredth.
pub open spec fn fahrenheit_spec(d: EnvironmentData) -> EnvironmentData {
    EnvironmentData { temp: (d.temp * 9 / 5 + 3200) as u64, humidity: d.humidity }
}

/// Largest temperature, in hundredths, whose Fahrenheit value fits in `u64`.
pub const MAX_CONVERTIBLE_TEMP: u64 = 2049638230412172401;

impl EnvironmentData {
    /// Decodes a captured 40-bit sequence into a reading.
    pub fn from_raw_output(output: &[u8]) -> (r: Result<EnvironmentData, ConversionError>)
        ensures
            r == decode_spec(output@),
            r == Err::<EnvironmentData, ConversionError>(ConversionError::UnexpectedInput)
                <==> output@.len() != 40,
            r == Err::<EnvironmentData, ConversionError>(ConversionError::BadChecksum) <==> (
            output@.len() == 40 && !checksum_matches(frame_of(output@))),
    {
        if output.len() != FRAME_BITS {
            return Err(ConversionError::UnexpectedInput);
        }
        let mut data: Vec<u8> = Vec::new();
        let mut k: usize = 0;
        while k < FRAME_BYTES
            invariant
                output@.len() == 40,
                k <= 5,
                data@.len() == k,
                forall|j: int| 0 <= j < k ==> data@[j] == frame_byte(output@, j),
            decreases 5 - k,
        {
            let byte = vec_to_int(&output[8 * k..8 * k + 8]);
            data.push(byte);
            k = k + 1;
        }
        assert(data@ =~= frame_of(output@));
        match Self::validate(data.as_slice()) {
            Err(e) => Err(e),
            Ok(()) => {
                let humidity: u64 = (data[0] as u64) * 256 + (data[1] as u64);
                let temp: u64 = (data[2] as u64) * 256 + (data[3] as u64);
                Ok(EnvironmentData { humidity: humidity * 10, temp: temp * 10 })
            },
        }
    }

    /// Checks that the last byte is the wrapping sum of the first four.
    pub fn validate(converted: &[u8]) -> (r: Result<(), ConversionError>)
        requires
            converted@.len() == 0 || converted@.len() >= 4,
        ensures
            converted@.len() == 0 ==> r == Err::<(), ConversionError>(
                ConversionError::UnexpectedInput,
            ),
            converted@.len() >= 4 ==> (r is Ok <==> checksum_matches(converted@)),
            converted@.len() >= 4 ==> (r is Err ==> r == Err::<(), ConversionError>(
                ConversionError::BadChecksum,
            )),
    {
        if converted.len() == 0 {
            return Err(ConversionError::UnexpectedInput);
        }
        let checksum = converted[converted.len() - 1];
        let mut sum: u8 = 0;
        let mut i: usize = 0;
        while i < 4
            invariant
                converted@.len() >= 4,
                i <= 4,
                sum as int == (if i == 0 {
                    0
                } else if i == 1 {
                    converted@[0] as int
                } else if i == 2 {
                    converted@[0] + converted@[1]
                } else if i == 3 {
                    converted@[0] + converted@[1] + converted@[2]
                } else {
                    converted@[0] + converted@[1] + converted@[2] + converted@[3]
                }) % 256,
            decreases 4 - i,
        {
            let byte = converted[i];
            let ghost before = sum;
            sum = sum.wrapping_add(byte);
            proof {
                let p: int = (if i == 0 {
                    0
                } else if i == 1 {
                    converted@[0] as int
                } else if i == 2 {
                    converted@[0] + converted@[1]
                } else {
                    converted@[0] + converted@[1] + converted@[2]
                });
                assert((p % 256 + byte) % 256 == (p + byte) % 256) by (nonlinear_arith)
                    requires p >= 0, byte >= 0;
            }
            i = i + 1;
        }
        if checksum != sum {
            return Err(ConversionError::BadChecksum);
        }
        Ok(())
    }

    /// The same reading with its temperature converted from Celsius to
    /// Fahrenheit; humidity is kept.
    pub fn into_farenheit(&self) -> (r: EnvironmentData)
        requires
            self.temp <= MAX_CONVERTIBLE_TEMP,
        ensures
            r == fahrenheit_spec(*self),
    {
        EnvironmentData { temp: self.temp * 9 / 5 + 3200, humidity: self.humidity }
    }
}

/// Decoding is a function of the bits alone, and every reading it gives can
/// be converted to Fahrenheit, where the result is exactly `t * 1.8 + 32`
/// with humidity unchanged.
pub proof fn lemma_decoded_fahrenheit_exact(bits: Seq<u8>, d: EnvironmentData)
    requires
        decode_spec(bits) == Ok::<EnvironmentData, ConversionError>(d),
    ensures
        d.temp <= MAX_CONVERTIBLE_TEMP,
        d.temp % 10 == 0,
        fahrenheit_spec(d).temp * 5 == d.temp * 9 + 16000,
        fahrenheit_spec(d).humidity == d.humidity,
{
    let f = frame_of(bits);
    assert(0 <= word_at(f, 2) <= 65535);
}

/// Turns the outcome of one capture into a reading: a capture fault is
/// passed on as is, and captured bits are decoded.
pub fn reading_from_capture(captured: Result<Vec<u8>, SensorError>) -> (r: Result<
    EnvironmentData,
    ReadError,
>)
    ensures
        captured matches Err(e) ==> r == Err::<EnvironmentData, ReadError>(ReadError::Sensor(e)),
        captured matches Ok(bits) ==> match decode_spec(bits@) {
            Ok(d) => r == Ok::<EnvironmentData, ReadError>(d),
            Err(c) => r == Err::<EnvironmentData, ReadError>(ReadError::Conversion(c)),
        },
{
    match captured {
        Err(e) => Err(ReadError::Sensor(e)),
        Ok(bits) => match EnvironmentData::from_raw_output(bits.as_slice()) {
            Ok(d) => Ok(d),
            Err(c) => Err(ReadError::Conversion(c)),
        },
    }
}

} // verus!
