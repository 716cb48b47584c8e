//! What can go wrong at the boundary, and the text that reports it.
use crate::text::{decimal, push_decimal};
use crate::value::{ConvertError, ValKind};
use vstd::prelude::*;
use vstd::string::StringExecFns;

verus! {

/// An exception object of the host language: its identity and the text it
/// prints as.
#[derive(Debug)]
pub struct HostException {
    pub id: u64,
    pub message: String,
}

/// What a `HostException` holds, as mathematics.
pub struct HostExceptionView {
    pub id: u64,
    pub message: Seq<char>,
}

impl View for HostException {
    type V = HostExceptionView;

    open spec fn view(&self) -> HostExceptionView {
        HostExceptionView { id: self.id, message: self.message@ }
    }
}

/// An error as the host language raises it: an exception object that host
/// code raised, or a failure that the bridge itself reports.
#[derive(Debug)]
pub enum HostError {
    Exception(HostException),
    Failure(String),
}

/// What a `HostError` holds, as mathematics.
pub enum HostErrorView {
    Exception(HostExceptionView),
    Failure(Seq<char>),
}

impl View for HostError {
    type V = HostErrorView;

    open spec fn view(&self) -> HostErrorView {
        match self {
            HostError::Exception(e) => HostErrorView::Exception(e@),
            HostError::Failure(m) => HostErrorView::Failure(m@),
        }
    }
}

/// The name of a kind, as messages print it.
pub open spec fn kind_name(kind: ValKind) -> Seq<char> {
    match kind {
        ValKind::I32 => "i32"@,
        ValKind::I64 => "i64"@,
        ValKind::F32 => "f32"@,
        ValKind::F64 => "f64"@,
        ValKind::V128 => "v128"@,
        ValKind::FuncRef => "funcref"@,
        ValKind::ExternRef => "externref"@,
    }
}

/// The text of a conversion failure.
pub open spec fn convert_error_text(e: ConvertError) -> Seq<char> {
    match e {
        ConvertError::Unsupported(k) => "conversion of "@ + kind_name(k) + " is not supported"@,
        ConvertError::Mismatch(k) => "no implicit conversion into "@ + kind_name(k),
        ConvertError::OutOfRange(k) => "integer out of range for "@ + kind_name(k),
    }
}

/// The text of a host error: an exception prints as its message, a failure
/// as it stands.
pub open spec fn host_error_text(e: HostErrorView) -> Seq<char> {
    match e {
        HostErrorView::Exception(x) => x.message,
        HostErrorView::Failure(m) => m,
    }
}

fn kind_str(kind: ValKind) -> (s: &'static str)
    ensures
        s@ == kind_name(kind),
{
    match kind {
        ValKind::I32 => "i32",
        ValKind::I64 => "i64",
        ValKind::F32 => "f32",
        ValKind::F64 => "f64",
        ValKind::V128 => "v128",
        ValKind::FuncRef => "funcref",
        ValKind::ExternRef => "externref",
    }
}

/// Appends the text of a conversion failure to `out`.
pub fn push_convert_error(out: &mut String, e: ConvertError)
    ensures
        final(out)@ == old(out)@ + convert_error_text(e),
{
    match e {
        ConvertError::Unsupported(k) => {
            out.append("conversion of ");
            out.append(kind_str(k));
            out.append(" is not supported");
        },
        ConvertError::Mismatch(k) => {
            out.append("no implicit conversion into ");
            out.append(kind_str(k));
        },
        ConvertError::OutOfRange(k) => {
            out.append("integer out of range for ");
            out.append(kind_str(k));
        },
    }
    assert(out@ =~= old(out)@ + convert_error_text(e));
}

impl HostError {
    /// The text that this error prints as.
    pub fn text(&self) -> (s: &str)
        ensures
            s@ == host_error_text(self@),
    {
        match self {
            HostError::Exception(x) => x.message.as_str(),
            HostError::Failure(m) => m.as_str(),
        }
    }
}

/// Why a list of host arguments could not become a parameter list.
#[derive(Clone, Copy, Debug, PartialEq, Eq, Structural)]
pub enum ParamsError {
    /// The number of arguments is not the number of declared parameters.
    Arity { expected: usize, given: usize },
    /// The argument at `index` cannot become a value of its declared kind.
    Conversion { index: usize, reason: ConvertError },
}

/// The text of a `ParamsError`.
pub open spec fn params_error_text(e: ParamsError) -> Seq<char> {
    match e {
        ParamsError::Arity { expected, given } => "wrong number of arguments (given "@ + decimal(
            given as nat,
        ) + ", expected "@ + decimal(expected as nat) + ")"@,
        ParamsError::Conversion { index, reason } => "invalid argument at index "@ + decimal(
            index as nat,
        ) + ": "@ + convert_error_text(reason),
    }
}

impl ParamsError {
    /// Appends the text of this error to `out`.
    pub fn push_text(&self, out: &mut String)
        ensures
            final(out)@ == old(out)@ + params_error_text(*self),
    {
        match *self {
            ParamsError::Arity { expected, given } => {
                out.append("wrong number of arguments (given ");
                push_decimal(out, given);
                out.append(", expected ");
                push_decimal(out, expected);
                out.append(")");
            },
            ParamsError::Conversion { index, reason } => {
                out.append("invalid argument at index ");
                push_decimal(out, index);
                out.append(": ");
                push_convert_error(out, reason);
            },
        }
        assert(out@ =~= old(out)@ + params_error_text(*self));
    }

    /// The text of this error, as a string of its own.
    pub fn message(&self) -> (s: String)
        ensures
            s@ == params_error_text(*self),
    {
        let mut s = String::new();
        self.push_text(&mut s);
        assert(s@ =~= params_error_text(*self));
        s
    }
}

/// Why what a callback returned could not become the declared results.
#[derive(Clone, Copy, Debug, PartialEq, Eq, Structural)]
pub enum ResultError {
    /// The callback returned `given` values where `expected` are declared.
    Count { expected: usize, given: usize },
    /// The value at `index` cannot become a value of its declared kind.
    Conversion { index: usize, reason: ConvertError },
}

/// The text of a `ResultError`.
pub open spec fn result_error_text(e: ResultError) -> Seq<char> {
    match e {
        ResultError::Count { expected, given } => "wrong number of results (given "@ + decimal(
            given as nat,
        ) + ", expected "@ + decimal(expected as nat) + ")"@,
        ResultError::Conversion { index, reason } => "invalid result at index "@ + decimal(
            index as nat,
        ) + ": "@ + convert_error_text(reason),
    }
}

impl ResultError {
    /// The text of this error.
    pub fn message(&self) -> (s: String)
        ensures
            s@ == result_error_text(*self),
    {
        let mut s = String::new();
        match *self {
            ResultError::Count { expected, given } => {
                s.append("wrong number of results (given ");
                push_decimal(&mut s, given);
                s.append(", expected ");
                push_decimal(&mut s, expected);
                s.append(")");
            },
            ResultError::Conversion { index, reason } => {
                s.append("invalid result at index ");
                push_decimal(&mut s, index);
                s.append(": ");
                push_convert_error(&mut s, reason);
            },
        }
        assert(s@ =~= result_error_text(*self));
        s
    }
}

/// Why the engine does not take a signature: it declares more parameters or
/// more results than the engine's limit.
#[derive(Clone, Copy, Debug, PartialEq, Eq, Structural)]
pub enum SignatureError {
    Params { given: usize, limit: usize },
    Results { given: usize, limit: usize },
}

/// The text of a `SignatureError`.
pub open spec fn signature_error_text(e: SignatureError) -> Seq<char> {
    match e {
        SignatureError::Params { given, limit } => "too many parameters (given "@ + decimal(
            given as nat,
        ) + ", limit "@ + decimal(limit as nat) + ")"@,
        SignatureError::Results { given, limit } => "too many results (given "@ + decimal(
            given as nat,
        ) + ", limit "@ + decimal(limit as nat) + ")"@,
    }
}

impl SignatureError {
    /// The text of this error.
    pub fn message(&self) -> (s: String)
        ensures
            s@ == signature_error_text(*self),
    {
        let mut s = String::new();
        match *self {
            SignatureError::Params { given, limit } => {
                s.append("too many parameters (given ");
                push_decimal(&mut s, given);
                s.append(", limit ");
                push_decimal(&mut s, limit);
                s.append(")");
            },
            SignatureError::Results { given, limit } => {
                s.append("too many results (given ");
                push_decimal(&mut s, given);
                s.append(", limit ");
                push_decimal(&mut s, limit);
                s.append(")");
            },
        }
        assert(s@ =~= signature_error_text(*self));
        s
    }
}

/// The message of the trap that ends a call of the callback named `name`
/// for the reason `cause`.
pub open spec fn trap_text(name: Seq<char>, cause: Seq<char>) -> Seq<char> {
    "Error when calling Func "@ + name + "\n Error: "@ + cause
}

/// Builds the message of the trap that ends a call of the callback named
/// `name` for the reason `cause`.
pub fn trap_message(name: &str, cause: &str) -> (s: String)
    ensures
        s@ == trap_text(name@, cause@),
{
    let mut s = String::new();
    s.append("Error when calling Func ");
    s.append(name);
    s.append("\n Error: ");
    s.append(cause);
    assert(s@ =~= trap_text(name@, cause@));
    s
}

} // verus!
