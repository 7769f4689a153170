use vstd::prelude::*;

use crate::expression::ParsedExpr;
use crate::measurement::{
    cr_index, decode_spec, find_cr, grade, DecodeError, Error, Measurement, MeasurementTest,
    CARRIAGE_RETURN,
};

verus! {

/// Device that a frontend may need to communicate with during script execution.
#[allow(clippy::upper_case_acronyms)]
#[derive(Clone, Copy, Debug, PartialEq, Eq, Structural)]
pub enum Device {
    TCU,
    Printer,
}

/// Describes a two way transaction between a frontend and a device.
#[derive(Debug, PartialEq)]
pub struct Transaction {
    expression: ParsedExpr,
    txbytes: Vec<u8>,
    txcomplete: bool,
    device: Device,
    response: Vec<u8>,
    test: Option<MeasurementTest>,
}

/// The state of a transaction as plain values.
pub struct TransactionView {
    pub expression: ParsedExpr,
    pub txbytes: Seq<u8>,
    pub sent: bool,
    pub device: Device,
    pub response: Seq<u8>,
    pub test: Option<MeasurementTest>,
}

impl View for Transaction {
    type V = TransactionView;

    closed spec fn view(&self) -> TransactionView {
        TransactionView {
            expression: self.expression,
            txbytes: self.txbytes@,
            sent: self.txcomplete,
            device: self.device,
            response: self.response@,
            test: self.test,
        }
    }
}

#[derive(Debug, PartialEq)]
pub enum TransactionStatus {
    /// The exchange is complete.
    Success,
    /// The exchange goes on from this state.
    Ongoing(Transaction),
}

/// What the port did for one step of a transaction.
#[derive(Debug, PartialEq)]
pub enum PortOutcome {
    /// All outgoing bytes were written.
    Written,
    /// One read returned these bytes, possibly none.
    Received(Vec<u8>),
    /// The write or the read failed.
    Failed,
}

/// A terminal failure of a transaction, with the command it served.
#[derive(Debug, PartialEq)]
pub enum TransactionError {
    /// Reading from or writing to the port failed.
    Io(ParsedExpr),
    /// The TCU did not echo the command it was sent.
    EchoMismatch(ParsedExpr),
    /// The measurement could not be decoded.
    Decode(ParsedExpr, DecodeError),
    /// The measurement stayed out of range with no retries left; carries
    /// the test's failure message.
    TestFailed(ParsedExpr, String),
}

/// Where a transaction stands once its accumulated response is examined.
pub enum Verdict {
    /// More response bytes are needed.
    Incomplete,
    /// The exchange succeeded.
    Complete,
    /// The measurement failed and must be taken again with this test.
    Retry(MeasurementTest),
    /// The exchange failed for good.
    Fail(TransactionError),
}

/// Number of carriage-return terminated segments the device answers with:
/// an echo from the TCU, and a measurement when a test is attached.
pub open spec fn expected_segments(device: Device, has_test: bool) -> nat {
    (if device == Device::TCU { 1nat } else { 0nat }) + (if has_test { 1nat } else { 0nat })
}

/// End of the first segment (index of its carriage return).
pub open spec fn first_end(r: Seq<u8>) -> int {
    cr_index(r, 0)
}

/// End of the second segment.
pub open spec fn second_end(r: Seq<u8>) -> int {
    cr_index(r, first_end(r) + 1)
}

/// Whether `r` holds at least `n` complete segments, for `n <= 2`.
pub open spec fn has_segments(r: Seq<u8>, n: nat) -> bool {
    (n >= 1 ==> first_end(r) < r.len()) && (n >= 2 ==> second_end(r) < r.len())
}

/// The first segment, terminator included.
pub open spec fn first_segment(r: Seq<u8>) -> Seq<u8> {
    r.subrange(0, first_end(r) + 1)
}

/// The second segment, terminator included.
pub open spec fn second_segment(r: Seq<u8>) -> Seq<u8> {
    r.subrange(first_end(r) + 1, second_end(r) + 1)
}

/// The segment that carries the measurement: after the echo for the TCU.
pub open spec fn measurement_segment(device: Device, r: Seq<u8>) -> Seq<u8> {
    if device == Device::TCU {
        second_segment(r)
    } else {
        first_segment(r)
    }
}

/// What the accumulated response of a sent transaction amounts to.
pub open spec fn verdict(v: TransactionView) -> Verdict {
    let n = expected_segments(v.device, v.test is Some);
    if n == 0 {
        Verdict::Complete
    } else if !has_segments(v.response, n) {
        Verdict::Incomplete
    } else if v.device == Device::TCU && first_segment(v.response) != v.txbytes {
        Verdict::Fail(TransactionError::EchoMismatch(v.expression))
    } else {
        match v.test {
            None => Verdict::Complete,
            Some(t) => match decode_spec(measurement_segment(v.device, v.response)) {
                Err(e) => Verdict::Fail(TransactionError::Decode(v.expression, e)),
                Ok(value) => match grade(t, value) {
                    Ok(_) => Verdict::Complete,
                    Err(Error::TestFailedRetryable(next)) => Verdict::Retry(next),
                    Err(_) => Verdict::Fail(TransactionError::TestFailed(v.expression, t.failure_message)),
                },
            },
        }
    }
}

/// The same transaction with `response` in place of its response.
pub open spec fn with_response(v: TransactionView, response: Seq<u8>) -> TransactionView {
    TransactionView { response, ..v }
}

/// How a step result follows from a verdict on state `v`.
pub open spec fn follows_verdict(
    v: TransactionView,
    r: Result<TransactionStatus, TransactionError>,
) -> bool {
    match verdict(v) {
        Verdict::Incomplete => r matches Ok(TransactionStatus::Ongoing(t)) && t@ == v,
        Verdict::Complete => r matches Ok(TransactionStatus::Success),
        Verdict::Retry(next) => r matches Ok(TransactionStatus::Ongoing(t)) && t@ == (
        TransactionView { sent: false, response: Seq::empty(), test: Some(next), ..v }),
        Verdict::Fail(e) => r == Err::<TransactionStatus, TransactionError>(e),
    }
}

/// A carriage return found in `s` is found at the same place in any
/// extension of `s`.
proof fn lemma_cr_index_extend(s: Seq<u8>, t: Seq<u8>, from: int)
    requires
        0 <= from,
        cr_index(s, from) < s.len(),
    ensures
        cr_index(s + t, from) == cr_index(s, from),
    decreases s.len() - from,
{
    if from < s.len() && s[from] != CARRIAGE_RETURN {
        lemma_cr_index_extend(s, t, from + 1);
    }
}

proof fn lemma_cr_index_bounds(s: Seq<u8>, from: int)
    requires
        0 <= from <= s.len(),
    ensures
        from <= cr_index(s, from) <= s.len(),
    decreases s.len() - from,
{
    if from < s.len() && s[from] != CARRIAGE_RETURN {
        lemma_cr_index_bounds(s, from + 1);
    }
}

/// Once `r` holds `n` complete segments, bytes that arrive later change
/// neither the segments nor what they amount to.
proof fn lemma_segments_stable(v: TransactionView, r: Seq<u8>, more: Seq<u8>)
    requires
        has_segments(r, expected_segments(v.device, v.test is Some)),
    ensures
        verdict(with_response(v, r)) == verdict(with_response(v, r + more)),
{
    let n = expected_segments(v.device, v.test is Some);
    let x = r + more;
    if n >= 1 {
        lemma_cr_index_bounds(r, 0);
        lemma_cr_index_extend(r, more, 0);
        assert(first_segment(x) =~= first_segment(r));
        if n >= 2 {
            lemma_cr_index_bounds(r, first_end(r) + 1);
            lemma_cr_index_extend(r, more, first_end(r) + 1);
            assert(second_segment(x) =~= second_segment(r));
        }
    }
}

/// Fragmented reads: a response that arrives as `a` and then `b` leads to
/// the outcome it leads to when it arrives as `a + b` in one read. Either
/// the first part already decides it, and the same way, or the transaction
/// waits with `a` kept and the second part completes the same response.
pub proof fn lemma_fragmented_reads(v: TransactionView, a: Seq<u8>, b: Seq<u8>)
    ensures
        verdict(with_response(v, v.response + a)) is Incomplete || verdict(
            with_response(v, v.response + a),
        ) == verdict(with_response(v, v.response + (a + b))),
        verdict(with_response(with_response(v, v.response + a), v.response + a + b)) == verdict(
            with_response(v, v.response + (a + b)),
        ),
{
    let x = v.response + a;
    assert(x + b == v.response + (a + b));
    assert(with_response(with_response(v, x), x + b) == with_response(v, x + b));
    if has_segments(x, expected_segments(v.device, v.test is Some)) {
        lemma_segments_stable(v, x, b);
    }
}

/// A TCU exchange with a test evaluates nothing before two carriage-return
/// terminated segments have arrived: with fewer it waits, response kept. With
/// two, an echo other than the bytes sent fails the exchange for good.
pub proof fn lemma_tcu_waits_for_echo_and_measurement(v: TransactionView)
    requires
        v.device == Device::TCU,
        v.test is Some,
    ensures
        !has_segments(v.response, 2) ==> verdict(v) is Incomplete,
        has_segments(v.response, 2) && first_segment(v.response) != v.txbytes ==> verdict(v)
            == Verdict::Fail(TransactionError::EchoMismatch(v.expression)),
{
}

/// Whether `a[start..end]` holds exactly the bytes of `b`.
fn segment_equals(a: &[u8], start: usize, end: usize, b: &[u8]) -> (r: bool)
    requires
        start <= end <= a@.len(),
    ensures
        r == (a@.subrange(start as int, end as int) == b@),
{
    if end - start != b.len() {
        return false;
    }
    let mut i: usize = 0;
    while i < b.len()
        invariant
            end - start == b@.len(),
            start <= end <= a@.len(),
            0 <= i <= b@.len(),
            forall|j: int| 0 <= j < i ==> a@[start + j] == b@[j],
        decreases b@.len() - i,
    {
        if a[start + i] != b[i] {
            assert(a@.subrange(start as int, end as int)[i as int] != b@[i as int]);
            return false;
        }
        i = i + 1;
    }
    assert(a@.subrange(start as int, end as int) =~= b@);
    true
}

impl Transaction {
    pub fn with_tcu(expression: ParsedExpr, txbytes: Vec<u8>, test: Option<MeasurementTest>) -> (r:
        Self)
        ensures
            r@ == (TransactionView {
                expression,
                txbytes: txbytes@,
                sent: false,
                device: Device::TCU,
                response: Seq::empty(),
                test,
            }),
    {
        Self {
            expression,
            txbytes,
            txcomplete: false,
            device: Device::TCU,
            response: Vec::new(),
            test,
        }
    }

    pub fn with_printer(
        expression: ParsedExpr,
        txbytes: Vec<u8>,
        test: Option<MeasurementTest>,
    ) -> (r: Self)
        ensures
            r@ == (TransactionView {
                expression,
                txbytes: txbytes@,
                sent: false,
                device: Device::Printer,
                response: Seq::empty(),
                test,
            }),
    {
        Self {
            expression,
            txbytes,
            txcomplete: false,
            device: Device::Printer,
            response: Vec::new(),
            test,
        }
    }

    /// The bytes to send.
    pub fn bytes(&self) -> (r: &[u8])
        ensures
            r@ == self@.txbytes,
    {
        self.txbytes.as_slice()
    }

    /// Whether the next step is a write (otherwise it is a read).
    pub fn needs_write(&self) -> (r: bool)
        ensures
            r == !self@.sent,
    {
        !self.txcomplete
    }

    /// Advances the exchange by the outcome of one port operation: the write
    /// of the outgoing bytes while they are unsent, else one read.
    pub fn process(self, outcome: PortOutcome) -> (r: Result<TransactionStatus, TransactionError>)
        requires
            outcome is Written ==> !self@.sent,
            outcome is Received ==> self@.sent,
        ensures
            match outcome {
                PortOutcome::Failed => r == Err::<TransactionStatus, TransactionError>(
                    TransactionError::Io(self@.expression),
                ),
                PortOutcome::Written => if self@.device == Device::Printer && self@.test is None {
                    r matches Ok(TransactionStatus::Success)
                } else {
                    r matches Ok(TransactionStatus::Ongoing(t)) && t@ == (TransactionView {
                        sent: true,
                        ..self@
                    })
                },
                PortOutcome::Received(bytes) => follows_verdict(
                    with_response(self@, self@.response + bytes@),
                    r,
                ),
            },
    {
        let mut this = self;
        match outcome {
            PortOutcome::Failed => Err(TransactionError::Io(this.expression)),
            PortOutcome::Written => {
                this.txcomplete = true;
                if this.device == Device::Printer && this.test.is_none() {
                    Ok(TransactionStatus::Success)
                } else {
                    Ok(TransactionStatus::Ongoing(this))
                }
            },
            PortOutcome::Received(bytes) => {
                this.response.extend_from_slice(bytes.as_slice());
                assert(this.response@ =~= self@.response + bytes@);
                this.evaluate_response()
            },
        }
    }

    /// Examines the accumulated response.
    fn evaluate_response(self) -> (r: Result<TransactionStatus, TransactionError>)
        ensures
            follows_verdict(self@, r),
    {
        let echo_expected = self.device == Device::TCU;
        let has_test = self.test.is_some();
        if !echo_expected && !has_test {
            return Ok(TransactionStatus::Success);
        }
        let len = self.response.len();
        let e1 = find_cr(self.response.as_slice(), 0);
        if e1 == len {
            return Ok(TransactionStatus::Ongoing(self));
        }
        let mut start: usize = 0;
        let mut end: usize = e1 + 1;
        if echo_expected {
            if has_test {
                let e2 = find_cr(self.response.as_slice(), e1 + 1);
                if e2 == len {
                    return Ok(TransactionStatus::Ongoing(self));
                }
                start = e1 + 1;
                end = e2 + 1;
            }
            if !segment_equals(self.response.as_slice(), 0, e1 + 1, self.txbytes.as_slice()) {
                return Err(TransactionError::EchoMismatch(self.expression));
            }
        }
        let mut this = self;
        match this.test {
            None => Ok(TransactionStatus::Success),
            Some(test) => {
                let segment = vstd::slice::slice_subrange(this.response.as_slice(), start, end);
                let message = test.failure_message.clone();
                match Measurement::decode(segment) {
                    Err(e) => Err(TransactionError::Decode(this.expression, e)),
                    Ok(measurement) => match test.test(measurement) {
                        Ok(()) => Ok(TransactionStatus::Success),
                        Err(Error::TestFailedRetryable(next)) => {
                            this.test = Some(next);
                            this.txcomplete = false;
                            this.response = Vec::new();
                            Ok(TransactionStatus::Ongoing(this))
                        },
                        Err(_) => Err(TransactionError::TestFailed(this.expression, message)),
                    },
                }
            },
        }
    }
}

} // verus!
