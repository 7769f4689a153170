use gallivant::{DecodeError, Error, Measurement, MeasurementTest};

fn range_test(min: u32, max: u32, retries: u32) -> MeasurementTest {
    MeasurementTest::new(min, max, retries, "out of range".to_string())
}

fn measure(value: u32) -> Measurement {
    Measurement::decode(format!("{:X}\r", value).as_bytes()).unwrap()
}

#[test]
fn decode_hex_value() {
    assert_eq!(Measurement::decode(b"001A\r").unwrap().value(), 26);
}

#[test]
fn decode_rejects_non_hex() {
    assert_eq!(Measurement::decode(b"ZZ\r"), Err(DecodeError::InvalidDigit));
}

#[test]
fn decode_rejects_non_text() {
    assert_eq!(Measurement::decode(&[0xff, 0xfe, b'1', b'\r']), Err(DecodeError::NotText));
    assert_eq!(Measurement::decode(&[b'1', b'\r', 0xc3]), Err(DecodeError::NotText));
}

#[test]
fn decode_empty_is_error() {
    assert_eq!(Measurement::decode(b"\r"), Err(DecodeError::Empty));
    assert_eq!(Measurement::decode(b""), Err(DecodeError::Empty));
}

#[test]
fn decode_overflow_is_error() {
    assert_eq!(Measurement::decode(b"100000000\r"), Err(DecodeError::Overflow));
    assert_eq!(Measurement::decode(b"FFFFFFFF\r").unwrap().value(), u32::MAX);
    assert_eq!(Measurement::decode(b"0000000000FF\r").unwrap().value(), 255);
}

#[test]
fn decode_stops_at_carriage_return() {
    assert_eq!(Measurement::decode(b"1a\rZZ\r").unwrap().value(), 26);
    assert_eq!(Measurement::decode(b"ff").unwrap().value(), 255);
}

#[test]
fn decode_sign_handling() {
    assert_eq!(Measurement::decode(b"+1A\r").unwrap().value(), 26);
    assert_eq!(Measurement::decode(b"+\r"), Err(DecodeError::InvalidDigit));
    assert_eq!(Measurement::decode(b"-1\r"), Err(DecodeError::InvalidDigit));
    assert_eq!(Measurement::decode(b" 1\r"), Err(DecodeError::InvalidDigit));
    assert_eq!(Measurement::decode("1\u{e9}\r".as_bytes()), Err(DecodeError::InvalidDigit));
}

#[test]
fn grading_in_range_passes() {
    assert_eq!(range_test(20, 30, 2).test(measure(26)), Ok(()));
}

#[test]
fn grading_retries_then_fails() {
    let first = range_test(20, 30, 2).test(measure(15));
    let test = match first {
        Err(Error::TestFailedRetryable(test)) => test,
        other => panic!("expected a retryable failure, got {:?}", other),
    };
    assert_eq!(test.retries, 1);
    assert_eq!((test.min, test.max), (20, 30));
    assert_eq!(test.failure_message, "out of range");

    let test = match test.test(measure(15)) {
        Err(Error::TestFailedRetryable(test)) => test,
        other => panic!("expected a retryable failure, got {:?}", other),
    };
    assert_eq!(test.retries, 0);

    assert_eq!(test.test(measure(15)), Err(Error::TestFailed));
}

#[test]
fn grading_bounds_are_inclusive() {
    assert_eq!(range_test(20, 30, 2).test(measure(20)), Ok(()));
    assert_eq!(range_test(20, 30, 2).test(measure(30)), Ok(()));
    assert!(range_test(20, 30, 0).test(measure(31)).is_err());
    assert!(range_test(20, 30, 0).test(measure(19)).is_err());
}

#[test]
fn grading_without_retries_fails_at_once() {
    assert_eq!(range_test(20, 30, 0).test(measure(40)), Err(Error::TestFailed));
    assert_eq!(range_test(20, 30, 0).test(measure(0)), Err(Error::TestFailed));
}
