use gallivant::{
    DecodeError, Expr, ExprKind, MeasurementTest, ParsedExpr, PortOutcome, Transaction,
    TransactionError, TransactionStatus,
};

fn command() -> ParsedExpr {
    ParsedExpr::from_kind_default(Expr::Flush)
}

fn range_test(retries: u32) -> MeasurementTest {
    MeasurementTest::new(20, 30, retries, "reading out of range".to_string())
}

fn ongoing(r: Result<TransactionStatus, TransactionError>) -> Transaction {
    match r {
        Ok(TransactionStatus::Ongoing(t)) => t,
        other => panic!("expected an ongoing transaction, got {:?}", other),
    }
}

fn send(t: Transaction) -> Transaction {
    assert!(t.needs_write());
    let t = ongoing(t.process(PortOutcome::Written));
    assert!(!t.needs_write());
    t
}

fn feed(t: Transaction, chunks: &[&[u8]]) -> Result<TransactionStatus, TransactionError> {
    let mut t = t;
    for (i, chunk) in chunks.iter().enumerate() {
        let r = t.process(PortOutcome::Received(chunk.to_vec()));
        if i + 1 == chunks.len() {
            return r;
        }
        t = ongoing(r);
    }
    panic!("no chunks");
}

#[test]
fn printer_write_without_test_succeeds() {
    let t = Transaction::with_printer(command(), b"PRINT\r".to_vec(), None);
    assert_eq!(t.bytes(), b"PRINT\r");
    assert!(t.needs_write());
    assert_eq!(t.process(PortOutcome::Written), Ok(TransactionStatus::Success));
}

#[test]
fn printer_with_test_reads_one_segment() {
    let t = send(Transaction::with_printer(command(), b"M1\r".to_vec(), Some(range_test(0))));
    assert_eq!(feed(t, &[b"1A\r"]), Ok(TransactionStatus::Success));
}

#[test]
fn tcu_without_test_needs_echo() {
    let t = send(Transaction::with_tcu(command(), b"OPEN\r".to_vec(), None));
    let t = ongoing(t.process(PortOutcome::Received(b"OPE".to_vec())));
    assert_eq!(t.process(PortOutcome::Received(b"N\r".to_vec())), Ok(TransactionStatus::Success));
}

#[test]
fn tcu_exchange_waits_for_two_segments() {
    let t = send(Transaction::with_tcu(command(), b"T1\r".to_vec(), Some(range_test(0))));
    let t = ongoing(t.process(PortOutcome::Received(b"T1\r".to_vec())));
    let t = ongoing(t.process(PortOutcome::Received(b"1".to_vec())));
    let t = ongoing(t.process(PortOutcome::Received(Vec::new())));
    assert_eq!(t.process(PortOutcome::Received(b"A\r".to_vec())), Ok(TransactionStatus::Success));
}

#[test]
fn tcu_echo_mismatch_is_fatal() {
    let t = send(Transaction::with_tcu(command(), b"T1\r".to_vec(), Some(range_test(3))));
    assert_eq!(
        feed(t, &[b"T2\r1A\r"]),
        Err(TransactionError::EchoMismatch(command()))
    );
}

#[test]
fn fragmented_reads_match_single_read() {
    let response: &[u8] = b"T1\r0F\r";
    for retries in [0u32, 2] {
        let whole = send(Transaction::with_tcu(command(), b"T1\r".to_vec(), Some(range_test(retries))));
        let whole = feed(whole, &[response]);
        let chunks: Vec<&[u8]> = response.chunks(1).collect();
        let pieces = send(Transaction::with_tcu(command(), b"T1\r".to_vec(), Some(range_test(retries))));
        let pieces = feed(pieces, &chunks);
        assert_eq!(whole, pieces);
    }
    let whole = send(Transaction::with_tcu(command(), b"T1\r".to_vec(), Some(range_test(0))));
    let pieces = send(Transaction::with_tcu(command(), b"T1\r".to_vec(), Some(range_test(0))));
    assert_eq!(
        feed(whole, &[b"T1\r16\r"]),
        feed(pieces, &[b"T", b"1\r1", b"6", b"\r"])
    );
}

#[test]
fn retryable_failure_resends() {
    let t = send(Transaction::with_tcu(command(), b"T1\r".to_vec(), Some(range_test(1))));
    let t = ongoing(feed(t, &[b"T1\r0F\r"]));
    assert!(t.needs_write());
    let t = send(t);
    assert_eq!(feed(t, &[b"T1\r14\r"]), Ok(TransactionStatus::Success));
}

#[test]
fn retries_exhausted_is_terminal() {
    let t = send(Transaction::with_tcu(command(), b"T1\r".to_vec(), Some(range_test(1))));
    let t = send(ongoing(feed(t, &[b"T1\r0F\r"])));
    assert_eq!(
        feed(t, &[b"T1\r0F\r"]),
        Err(TransactionError::TestFailed(command(), "reading out of range".to_string()))
    );
}

#[test]
fn undecodable_measurement_is_fatal() {
    let t = send(Transaction::with_tcu(command(), b"T1\r".to_vec(), Some(range_test(2))));
    assert_eq!(
        feed(t, &[b"T1\rZZ\r"]),
        Err(TransactionError::Decode(command(), DecodeError::InvalidDigit))
    );
}

#[test]
fn port_failure_is_fatal() {
    let t = Transaction::with_tcu(command(), b"T1\r".to_vec(), None);
    assert_eq!(t.process(PortOutcome::Failed), Err(TransactionError::Io(command())));
    let t = send(Transaction::with_tcu(command(), b"T1\r".to_vec(), None));
    assert_eq!(t.process(PortOutcome::Failed), Err(TransactionError::Io(command())));
}

#[test]
fn parsed_expression_accessors() {
    let e = ParsedExpr::from_kind_and_span(Expr::UInt(7), 3..9);
    assert_eq!(e.expression(), &Expr::UInt(7));
    assert_eq!(e.expression_kind(), ExprKind::UInt);
    assert_eq!(e.span(), 3..9);

    let s = ParsedExpr::from_str_default("hello");
    assert_eq!(s.expression(), &Expr::String("hello".to_string()));
    assert_eq!(s.span(), 0..0);

    let u = ParsedExpr::from_uint_default(42);
    assert_eq!(u.expression(), &Expr::UInt(42));
    assert_eq!(u.expression_kind(), ExprKind::UInt);

    let t = ParsedExpr::from_kind_default(Expr::TCUOpen(Box::new(ParsedExpr::from_uint_default(1))));
    assert_eq!(t.expression_kind(), ExprKind::TCUOpen);
    assert_eq!(ExprKind::of(&Expr::USBSetTime), ExprKind::USBSetTime);
}
