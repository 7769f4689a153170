//! Transaction engine for a printer test bench: byte exchanges with a test
//! control unit or a printer, and grading of the measurements they report.

pub mod expression;
pub mod measurement;
pub mod transaction;

pub use expression::{Expr, ExprKind, ParsedExpr};
pub use measurement::{DecodeError, Error, Measurement, MeasurementTest};
pub use transaction::{Device, PortOutcome, Transaction, TransactionError, TransactionStatus};
