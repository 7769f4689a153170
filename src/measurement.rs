use vstd::prelude::*;
use vstd::utf8::valid_utf8;

verus! {

/// A measurement returned from either the TCU or the printer's debug protocol.
#[derive(Clone, Copy, Debug, PartialEq, Eq, Structural)]
pub struct Measurement(u32);

impl View for Measurement {
    type V = u32;

    closed spec fn view(&self) -> u32 {
        self.0
    }
}

/// Why a response could not be read as a measurement.
#[derive(Clone, Copy, Debug, PartialEq, Eq, Structural)]
pub enum DecodeError {
    /// The bytes are not well-formed UTF-8 text.
    NotText,
    /// Nothing precedes the carriage return.
    Empty,
    /// A character that is not a hexadecimal digit.
    InvalidDigit,
    /// The value does not fit in 32 bits.
    Overflow,
}

/// A test to be performed on a measurement taken by a device: the value must
/// lie in `min..=max`; a failure is retried while `retries` is not zero.
#[derive(Clone, Debug, PartialEq)]
pub struct MeasurementTest {
    pub min: u32,
    pub max: u32,
    pub retries: u32,
    pub failure_message: String,
}

/// The outcome of grading a measurement, or of decoding one.
#[derive(Debug, PartialEq)]
pub enum Error {
    /// Out of range with no retries left.
    TestFailed,
    /// Out of range; carries the test with one retry fewer.
    TestFailedRetryable(MeasurementTest),
    /// The response could not be decoded.
    ParseError(DecodeError),
}

pub const CARRIAGE_RETURN: u8 = 13;

/// Index of the first carriage return at or after `from`, or the length of
/// `s` when there is none.
pub open spec fn cr_index(s: Seq<u8>, from: int) -> int
    decreases s.len() - from,
{
    if from >= s.len() {
        s.len() as int
    } else if s[from] == CARRIAGE_RETURN {
        from
    } else {
        cr_index(s, from + 1)
    }
}

/// The bytes before the first carriage return.
pub open spec fn text_before_cr(s: Seq<u8>) -> Seq<u8> {
    s.subrange(0, cr_index(s, 0))
}

pub open spec fn hex_digit(b: u8) -> Option<nat> {
    if 48 <= b <= 57 {
        Some((b - 48) as nat)
    } else if 65 <= b <= 70 {
        Some((b - 55) as nat)
    } else if 97 <= b <= 102 {
        Some((b - 87) as nat)
    } else {
        None
    }
}

/// Reads hexadecimal digits left to right; the first bad digit or the first
/// step past `u32::MAX` decides the error.
pub open spec fn parse_hex_digits(s: Seq<u8>) -> Result<nat, DecodeError>
    decreases s.len(),
{
    if s.len() == 0 {
        Ok(0)
    } else {
        match parse_hex_digits(s.drop_last()) {
            Err(e) => Err(e),
            Ok(v) => match hex_digit(s.last()) {
                None => Err(DecodeError::InvalidDigit),
                Some(d) => if v * 16 + d > u32::MAX {
                    Err(DecodeError::Overflow)
                } else {
                    Ok(v * 16 + d)
                },
            },
        }
    }
}

/// An unsigned base-16 literal with an optional leading `+`.
pub open spec fn parse_hex(t: Seq<u8>) -> Result<u32, DecodeError> {
    if t.len() == 0 {
        Err(DecodeError::Empty)
    } else {
        let digits = if t[0] == 43u8 { t.drop_first() } else { t };
        if digits.len() == 0 {
            Err(DecodeError::InvalidDigit)
        } else {
            match parse_hex_digits(digits) {
                Ok(v) => Ok(v as u32),
                Err(e) => Err(e),
            }
        }
    }
}

/// What a response decodes to: text up to the first carriage return, read
/// as a hexadecimal number.
pub open spec fn decode_spec(b: Seq<u8>) -> Result<u32, DecodeError> {
    if !valid_utf8(b) {
        Err(DecodeError::NotText)
    } else {
        parse_hex(text_before_cr(b))
    }
}

/// Relies on std::str::from_utf8: it accepts exactly the well-formed UTF-8
/// byte sequences.
#[verifier::external_body]
fn is_text(bytes: &[u8]) -> (r: bool)
    ensures
        r == valid_utf8(bytes@),
{
    std::str::from_utf8(bytes).is_ok()
}

/// Position of the first carriage return at or after `from`.
pub fn find_cr(bytes: &[u8], from: usize) -> (r: usize)
    requires
        from <= bytes@.len(),
    ensures
        r as int == cr_index(bytes@, from as int),
        from <= r <= bytes@.len(),
{
    let mut i: usize = from;
    while i < bytes.len()
        invariant
            from <= i <= bytes@.len(),
            cr_index(bytes@, from as int) == cr_index(bytes@, i as int),
        decreases bytes@.len() - i,
    {
        if bytes[i] == CARRIAGE_RETURN {
            return i;
        }
        i = i + 1;
    }
    i
}

fn digit_value(b: u8) -> (r: Option<u32>)
    ensures
        match hex_digit(b) {
            Some(d) => r == Some(d as u32),
            None => r is None,
        },
{
    if 48 <= b && b <= 57 {
        Some((b - 48) as u32)
    } else if 65 <= b && b <= 70 {
        Some((b - 55) as u32)
    } else if 97 <= b && b <= 102 {
        Some((b - 87) as u32)
    } else {
        None
    }
}

/// Parses `bytes[0..end]` as an unsigned hexadecimal literal.
pub fn parse_hex_prefix(bytes: &[u8], end: usize) -> (r: Result<u32, DecodeError>)
    requires
        end <= bytes@.len(),
    ensures
        r == parse_hex(bytes@.subrange(0, end as int)),
{
    let ghost t = bytes@.subrange(0, end as int);
    if end == 0 {
        return Err(DecodeError::Empty);
    }
    let start: usize = if bytes[0] == 43u8 { 1 } else { 0 };
    if start == end {
        return Err(DecodeError::InvalidDigit);
    }
    let ghost digits = bytes@.subrange(start as int, end as int);
    assert(digits == (if t[0] == 43u8 { t.drop_first() } else { t }));
    let mut acc: u32 = 0;
    let mut i: usize = start;
    while i < end
        invariant
            start <= i <= end <= bytes@.len(),
            digits == bytes@.subrange(start as int, end as int),
            t == bytes@.subrange(0, end as int),
            t.len() > 0,
            digits.len() > 0,
            digits == (if t[0] == 43u8 { t.drop_first() } else { t }),
            parse_hex_digits(bytes@.subrange(start as int, i as int)) == Ok::<nat, DecodeError>(
                acc as nat,
            ),
        decreases end - i,
    {
        let ghost prefix = bytes@.subrange(start as int, i as int + 1);
        assert(prefix.drop_last() == bytes@.subrange(start as int, i as int));
        assert(prefix.last() == bytes@[i as int]);
        assert(digits.subrange(0, i - start + 1) == prefix);
        match digit_value(bytes[i]) {
            None => {
                assert(parse_hex_digits(prefix) is Err);
                proof {
                    lemma_error_persists(digits, i - start + 1);
                }
                return Err(DecodeError::InvalidDigit);
            },
            Some(d) => {
                if acc > (u32::MAX - d) / 16 {
                    assert(acc * 16 + d > u32::MAX) by (nonlinear_arith)
                        requires
                            acc > (u32::MAX - d) / 16,
                            d <= 15,
                    ;
                    assert(parse_hex_digits(prefix) == Err::<nat, DecodeError>(DecodeError::Overflow));
                    proof {
                        lemma_error_persists(digits, i - start + 1);
                    }
                    return Err(DecodeError::Overflow);
                }
                assert(acc * 16 + d <= u32::MAX) by (nonlinear_arith)
                    requires
                        acc <= (u32::MAX - d) / 16,
                        d <= 15,
                ;
                acc = acc * 16 + d;
            },
        }
        i = i + 1;
    }
    assert(bytes@.subrange(start as int, end as int) == digits);
    Ok(acc)
}

/// Once a prefix of the digits fails, the whole literal fails the same way.
proof fn lemma_error_persists(s: Seq<u8>, n: int)
    requires
        0 <= n <= s.len(),
        parse_hex_digits(s.subrange(0, n)) is Err,
    ensures
        parse_hex_digits(s) == parse_hex_digits(s.subrange(0, n)),
    decreases s.len() - n,
{
    if n < s.len() {
        let next = s.subrange(0, n + 1);
        assert(next.drop_last() == s.subrange(0, n));
        lemma_error_persists(s, n + 1);
    } else {
        assert(s.subrange(0, n) == s);
    }
}

impl Measurement {
    /// Decodes a device response: the text before the first carriage return,
    /// read as a base-16 number.
    pub fn decode(bytes: &[u8]) -> (r: Result<Measurement, DecodeError>)
        ensures
            match r {
                Ok(m) => decode_spec(bytes@) == Ok::<u32, DecodeError>(m@),
                Err(e) => decode_spec(bytes@) == Err::<u32, DecodeError>(e),
            },
    {
        if !is_text(bytes) {
            return Err(DecodeError::NotText);
        }
        let end = find_cr(bytes, 0);
        match parse_hex_prefix(bytes, end) {
            Ok(v) => Ok(Measurement(v)),
            Err(e) => Err(e),
        }
    }

    /// The numeric value.
    pub fn value(&self) -> (r: u32)
        ensures
            r == self@,
    {
        self.0
    }
}

/// The result of grading value `v` with `t`: inside `t.min..=t.max` passes;
/// outside it fails, retryably with one retry fewer while retries remain.
pub open spec fn grade(t: MeasurementTest, v: u32) -> Result<(), Error> {
    if t.min <= v <= t.max {
        Ok(())
    } else if t.retries > 0 {
        Err(
            Error::TestFailedRetryable(
                MeasurementTest {
                    min: t.min,
                    max: t.max,
                    retries: (t.retries - 1) as u32,
                    failure_message: t.failure_message,
                },
            ),
        )
    } else {
        Err(Error::TestFailed)
    }
}

impl MeasurementTest {
    pub fn new(min: u32, max: u32, retries: u32, failure_message: String) -> (r: Self)
        ensures
            r == (MeasurementTest { min, max, retries, failure_message }),
    {
        MeasurementTest { min, max, retries, failure_message }
    }

    /// Grades a measurement, consuming the test. A retryable failure hands
    /// back the test with its retry count decremented.
    pub fn test(self, measurement: Measurement) -> (r: Result<(), Error>)
        ensures
            r == grade(self, measurement@),
    {
        let value = measurement.value();
        if self.min <= value && value <= self.max {
            Ok(())
        } else if self.retries > 0 {
            let mut test = self;
            test.retries = test.retries - 1;
            Err(Error::TestFailedRetryable(test))
        } else {
            Err(Error::TestFailed)
        }
    }
}

} // verus!
