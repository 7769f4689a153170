use vstd::prelude::*;
use std::ops::Range;

verus! {

/// A command or value of the test script language.
#[derive(PartialEq, Debug)]
pub enum Expr {
    String(String),
    UInt(u32),
    ScriptComment(String),
    HPMode,
    Comment(Box<ParsedExpr>),
    Wait(Box<ParsedExpr>),
    OpenDialog(Box<ParsedExpr>),
    WaitDialog(Box<ParsedExpr>),
    Flush,
    Protocol,
    Print(Vec<ParsedExpr>),
    SetTimeFormat(Box<ParsedExpr>),
    /// Sends the current time to the printer through the TCU; the time is taken
    /// just before the command is sent.
    SetTime,
    SetOption {
        option: Box<ParsedExpr>,
        setting: Box<ParsedExpr>,
    },
    TCUClose(Box<ParsedExpr>),
    TCUOpen(Box<ParsedExpr>),
    TCUTest {
        channel: Box<ParsedExpr>,
        min: Box<ParsedExpr>,
        max: Box<ParsedExpr>,
        retries: Box<ParsedExpr>,
        message: Box<ParsedExpr>,
    },
    PrinterSet(Box<ParsedExpr>),
    PrinterTest {
        channel: Box<ParsedExpr>,
        min: Box<ParsedExpr>,
        max: Box<ParsedExpr>,
        retries: Box<ParsedExpr>,
        message: Box<ParsedExpr>,
    },
    /// Not used by the interpreter.
    IssueTest(Box<ParsedExpr>),
    /// Not used by the interpreter.
    TestResult {
        min: Box<ParsedExpr>,
        max: Box<ParsedExpr>,
        message: Box<ParsedExpr>,
    },
    USBOpen,
    USBClose,
    USBPrint(Vec<ParsedExpr>),
    USBSetTimeFormat(Box<ParsedExpr>),
    USBSetTime,
    USBSetOption {
        option: Box<ParsedExpr>,
        setting: Box<ParsedExpr>,
    },
    USBPrinterSet(Box<ParsedExpr>),
    USBPrinterTest {
        channel: Box<ParsedExpr>,
        min: Box<ParsedExpr>,
        max: Box<ParsedExpr>,
        retries: Box<ParsedExpr>,
        message: Box<ParsedExpr>,
    },
}

/// The variant of an [`Expr`], without its contents.
#[derive(PartialEq, Eq, Clone, Copy, Debug, Structural)]
pub enum ExprKind {
    String,
    UInt,
    ScriptComment,
    HPMode,
    Comment,
    Wait,
    OpenDialog,
    WaitDialog,
    Flush,
    Protocol,
    Print,
    SetTimeFormat,
    SetTime,
    SetOption,
    TCUClose,
    TCUOpen,
    TCUTest,
    PrinterSet,
    PrinterTest,
    IssueTest,
    TestResult,
    USBOpen,
    USBClose,
    USBPrint,
    USBSetTimeFormat,
    USBSetTime,
    USBSetOption,
    USBPrinterSet,
    USBPrinterTest,
}

/// An expression together with the span of script text it was parsed from.
#[derive(Debug, PartialEq)]
pub struct ParsedExpr {
    expr: Expr,
    start: usize,
    end: usize,
}

/// The kind of each expression variant.
pub open spec fn kind_of(e: Expr) -> ExprKind {
    match e {
        Expr::String(_) => ExprKind::String,
        Expr::UInt(_) => ExprKind::UInt,
        Expr::ScriptComment(_) => ExprKind::ScriptComment,
        Expr::HPMode => ExprKind::HPMode,
        Expr::Comment(_) => ExprKind::Comment,
        Expr::Wait(_) => ExprKind::Wait,
        Expr::OpenDialog(_) => ExprKind::OpenDialog,
        Expr::WaitDialog(_) => ExprKind::WaitDialog,
        Expr::Flush => ExprKind::Flush,
        Expr::Protocol => ExprKind::Protocol,
        Expr::Print(_) => ExprKind::Print,
        Expr::SetTimeFormat(_) => ExprKind::SetTimeFormat,
        Expr::SetTime => ExprKind::SetTime,
        Expr::SetOption { .. } => ExprKind::SetOption,
        Expr::TCUClose(_) => ExprKind::TCUClose,
        Expr::TCUOpen(_) => ExprKind::TCUOpen,
        Expr::TCUTest { .. } => ExprKind::TCUTest,
        Expr::PrinterSet(_) => ExprKind::PrinterSet,
        Expr::PrinterTest { .. } => ExprKind::PrinterTest,
        Expr::IssueTest(_) => ExprKind::IssueTest,
        Expr::TestResult { .. } => ExprKind::TestResult,
        Expr::USBOpen => ExprKind::USBOpen,
        Expr::USBClose => ExprKind::USBClose,
        Expr::USBPrint(_) => ExprKind::USBPrint,
        Expr::USBSetTimeFormat(_) => ExprKind::USBSetTimeFormat,
        Expr::USBSetTime => ExprKind::USBSetTime,
        Expr::USBSetOption { .. } => ExprKind::USBSetOption,
        Expr::USBPrinterSet(_) => ExprKind::USBPrinterSet,
        Expr::USBPrinterTest { .. } => ExprKind::USBPrinterTest,
    }
}

impl ExprKind {
    /// The kind of `expr`.
    pub fn of(expr: &Expr) -> (r: ExprKind)
        ensures
            r == kind_of(*expr),
    {
        match expr {
            Expr::String(_) => ExprKind::String,
            Expr::UInt(_) => ExprKind::UInt,
            Expr::ScriptComment(_) => ExprKind::ScriptComment,
            Expr::HPMode => ExprKind::HPMode,
            Expr::Comment(_) => ExprKind::Comment,
            Expr::Wait(_) => ExprKind::Wait,
            Expr::OpenDialog(_) => ExprKind::OpenDialog,
            Expr::WaitDialog(_) => ExprKind::WaitDialog,
            Expr::Flush => ExprKind::Flush,
            Expr::Protocol => ExprKind::Protocol,
            Expr::Print(_) => ExprKind::Print,
            Expr::SetTimeFormat(_) => ExprKind::SetTimeFormat,
            Expr::SetTime => ExprKind::SetTime,
            Expr::SetOption { .. } => ExprKind::SetOption,
            Expr::TCUClose(_) => ExprKind::TCUClose,
            Expr::TCUOpen(_) => ExprKind::TCUOpen,
            Expr::TCUTest { .. } => ExprKind::TCUTest,
            Expr::PrinterSet(_) => ExprKind::PrinterSet,
            Expr::PrinterTest { .. } => ExprKind::PrinterTest,
            Expr::IssueTest(_) => ExprKind::IssueTest,
            Expr::TestResult { .. } => ExprKind::TestResult,
            Expr::USBOpen => ExprKind::USBOpen,
            Expr::USBClose => ExprKind::USBClose,
            Expr::USBPrint(_) => ExprKind::USBPrint,
            Expr::USBSetTimeFormat(_) => ExprKind::USBSetTimeFormat,
            Expr::USBSetTime => ExprKind::USBSetTime,
            Expr::USBSetOption { .. } => ExprKind::USBSetOption,
            Expr::USBPrinterSet(_) => ExprKind::USBPrinterSet,
            Expr::USBPrinterTest { .. } => ExprKind::USBPrinterTest,
        }
    }
}

impl ParsedExpr {
    /// The expression.
    pub closed spec fn expr_spec(&self) -> Expr {
        self.expr
    }

    /// The span of script text.
    pub closed spec fn span_spec(&self) -> Range<usize> {
        Range { start: self.start, end: self.end }
    }

    pub fn from_kind_and_span(expr: Expr, span: Range<usize>) -> (r: Self)
        ensures
            r.expr_spec() == expr,
            r.span_spec() == span,
    {
        Self { expr, start: span.start, end: span.end }
    }

    /// A new expression with the empty span `0..0`.
    pub fn from_kind_default(expr: Expr) -> (r: Self)
        ensures
            r.expr_spec() == expr,
            r.span_spec() == (Range { start: 0usize, end: 0usize }),
    {
        Self { expr, start: 0, end: 0 }
    }

    /// A new string expression with the empty span `0..0`.
    pub fn from_str_default(string: &str) -> (r: Self)
        ensures
            r.expr_spec() matches Expr::String(s) && s@ == string@,
            r.span_spec() == (Range { start: 0usize, end: 0usize }),
    {
        Self { expr: Expr::String(string.to_string()), start: 0, end: 0 }
    }

    /// A new unsigned integer expression with the empty span `0..0`.
    pub fn from_uint_default(uint: u32) -> (r: Self)
        ensures
            r.expr_spec() == Expr::UInt(uint),
            r.span_spec() == (Range { start: 0usize, end: 0usize }),
    {
        Self { expr: Expr::UInt(uint), start: 0, end: 0 }
    }

    pub fn expression(&self) -> (r: &Expr)
        ensures
            *r == self.expr_spec(),
    {
        &self.expr
    }

    pub fn expression_kind(&self) -> (r: ExprKind)
        ensures
            r == kind_of(self.expr_spec()),
    {
        ExprKind::of(&self.expr)
    }

    pub fn span(&self) -> (r: Range<usize>)
        ensures
            r == self.span_spec(),
    {
        Range { start: self.start, end: self.end }
    }
}

} // verus!
