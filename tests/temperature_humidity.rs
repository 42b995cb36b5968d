use climate_sensor::temperature_humidity::{
    reading_from_capture, ConversionError, EnvironmentData, ReadError, SensorError,
};

fn data_sheet_bits() -> Vec<u8> {
    vec![
        // humidity
        0, 0, 0, 0, 0, 0, 1, 0, 1, 0, 0, 0, 1, 1, 0, 0, // temperature
        0, 0, 0, 0, 0, 0, 0, 1, 0, 1, 0, 1, 1, 1, 1, 1, // checksum
        1, 1, 1, 0, 1, 1, 1, 0,
    ]
}

#[test]
fn spec_sheet_expectations() {
    let input = data_sheet_bits();

    let data = EnvironmentData::from_raw_output(&input).unwrap();
    assert_eq!(data, EnvironmentData { humidity: 6520, temp: 3510 });
    assert_eq!(data.humidity as f32 / 100.0, 65.2);
    assert_eq!(data.temp as f32 / 100.0, 35.1);
}

#[test]
fn bad_checksum() {
    let input = vec![
        0, 0, 0, 0, 0, 0, 0, 0, 0, 0, 0, 0, 0, 0, 0, 0, 0, 0, 0, 0, 0, 0, 0, 0, 0, 0, 0, 0, 0,
        0, 0, 1, 0, 0, 0, 0, 0, 0, 1, 0,
    ];

    assert_eq!(
        EnvironmentData::from_raw_output(&input),
        Err(ConversionError::BadChecksum)
    )
}

#[test]
fn bad_input() {
    let input = vec![
        0, 0, 0, 0, 0, 0, 0, 0, 0, 0, 0, 0, 0, 0, 0, 0, 0, 0, 0, 0, 0, 0, 0, 0, 0, 0, 0, 1, 0,
        0, 0, 0, 0, 0, 1, 0,
    ];

    assert_eq!(
        EnvironmentData::from_raw_output(&input),
        Err(ConversionError::UnexpectedInput)
    )
}

#[test]
fn thirty_eight_bits_are_rejected() {
    let mut input = data_sheet_bits();
    input.truncate(38);
    assert_eq!(input.len(), 38);
    assert_eq!(
        EnvironmentData::from_raw_output(&input),
        Err(ConversionError::UnexpectedInput)
    );
}

#[test]
fn other_lengths_are_rejected_whatever_the_content() {
    let mut long = data_sheet_bits();
    long.push(0);
    assert_eq!(EnvironmentData::from_raw_output(&long), Err(ConversionError::UnexpectedInput));
    assert_eq!(EnvironmentData::from_raw_output(&[]), Err(ConversionError::UnexpectedInput));
    assert_eq!(
        EnvironmentData::from_raw_output(&vec![1; 41]),
        Err(ConversionError::UnexpectedInput)
    );
}

#[test]
fn stray_one_breaks_the_checksum() {
    let mut input = vec![0u8; 40];
    input[5] = 1;
    assert_eq!(EnvironmentData::from_raw_output(&input), Err(ConversionError::BadChecksum));
}

#[test]
fn all_zero_frame_decodes_to_zero() {
    let input = vec![0u8; 40];
    assert_eq!(
        EnvironmentData::from_raw_output(&input),
        Ok(EnvironmentData { humidity: 0, temp: 0 })
    );
}

#[test]
fn validate_accepts_wrapping_sum() {
    // 200 + 57 = 257, which wraps to 1.
    assert_eq!(EnvironmentData::validate(&[200, 57, 0, 0, 1]), Ok(()));
    assert_eq!(EnvironmentData::validate(&[255, 255, 255, 255, 252]), Ok(()));
}

#[test]
fn validate_rejects_unwrapped_sum() {
    assert_eq!(
        EnvironmentData::validate(&[200, 57, 0, 0, 2]),
        Err(ConversionError::BadChecksum)
    );
    assert_eq!(
        EnvironmentData::validate(&[1, 2, 3, 4, 11]),
        Err(ConversionError::BadChecksum)
    );
}

#[test]
fn validate_rejects_empty_input() {
    assert_eq!(EnvironmentData::validate(&[]), Err(ConversionError::UnexpectedInput));
}

#[test]
fn fahrenheit_conversion_is_exact() {
    let data = EnvironmentData::from_raw_output(&data_sheet_bits()).unwrap();
    let f = data.into_farenheit();
    // 35.1 * 1.8 + 32 = 95.18
    assert_eq!(f, EnvironmentData { humidity: 6520, temp: 9518 });
    assert_eq!(data, EnvironmentData { humidity: 6520, temp: 3510 });
    let zero = EnvironmentData { humidity: 0, temp: 0 }.into_farenheit();
    assert_eq!(zero.temp, 3200);
}

#[test]
fn capture_fault_is_passed_on() {
    match reading_from_capture(Err(SensorError::TimeoutError)) {
        Err(ReadError::Sensor(SensorError::TimeoutError)) => {}
        other => panic!("unexpected {:?}", other),
    }
}

#[test]
fn captured_bits_are_decoded() {
    match reading_from_capture(Ok(data_sheet_bits())) {
        Ok(d) => assert_eq!(d, EnvironmentData { humidity: 6520, temp: 3510 }),
        other => panic!("unexpected {:?}", other),
    }
    match reading_from_capture(Ok(vec![0, 1])) {
        Err(ReadError::Conversion(ConversionError::UnexpectedInput)) => {}
        other => panic!("unexpected {:?}", other),
    }
}
