//! Engine values, host values, and the conversion table between them.
use crate::engine::clone_extern_ref;
use vstd::prelude::*;

verus! {

/// The kinds of value that the engine passes to and from a function.
#[derive(Clone, Copy, Debug, PartialEq, Eq, Structural)]
pub enum ValKind {
    I32,
    I64,
    F32,
    F64,
    V128,
    FuncRef,
    ExternRef,
}

/// A value as the engine holds it. Floating-point values are kept as their
/// IEEE 754 bit patterns.
#[derive(Debug)]
pub enum Val {
    I32(i32),
    I64(i64),
    F32(u32),
    F64(u64),
    V128(u128),
    FuncRef(Option<wasmtime::Func>),
    ExternRef(Option<wasmtime::ExternRef>),
}

/// A value as the host language holds it. A host float is carried as a bit
/// pattern together with its width: a single converts to `F32` and a double
/// to `F64`, and to widen or narrow one is left to whoever makes the value.
/// Sequences nest.
#[derive(Debug)]
pub enum HostValue {
    Nil,
    Integer(i64),
    Single(u32),
    Double(u64),
    Func(wasmtime::Func),
    Extern(wasmtime::ExternRef),
    Array(Vec<HostValue>),
}

/// Why a value could not cross the boundary.
#[derive(Clone, Copy, Debug, PartialEq, Eq, Structural)]
pub enum ConvertError {
    /// The kind has no host representation.
    Unsupported(ValKind),
    /// The host value is not of a type that can become the kind.
    Mismatch(ValKind),
    /// The host integer does not fit the kind.
    OutOfRange(ValKind),
}

impl Val {
    /// The kind of this value.
    pub open spec fn kind(self) -> ValKind {
        match self {
            Val::I32(_) => ValKind::I32,
            Val::I64(_) => ValKind::I64,
            Val::F32(_) => ValKind::F32,
            Val::F64(_) => ValKind::F64,
            Val::V128(_) => ValKind::V128,
            Val::FuncRef(_) => ValKind::FuncRef,
            Val::ExternRef(_) => ValKind::ExternRef,
        }
    }

    /// The host representation of this value, where its kind has one.
    pub open spec fn host_form(self) -> Result<HostValue, ConvertError> {
        match self {
            Val::I32(i) => Ok(HostValue::Integer(i as i64)),
            Val::I64(i) => Ok(HostValue::Integer(i)),
            Val::F32(bits) => Ok(HostValue::Single(bits)),
            Val::F64(bits) => Ok(HostValue::Double(bits)),
            Val::V128(_) => Err(ConvertError::Unsupported(ValKind::V128)),
            Val::FuncRef(None) => Ok(HostValue::Nil),
            Val::FuncRef(Some(f)) => Ok(HostValue::Func(f)),
            Val::ExternRef(None) => Ok(HostValue::Nil),
            Val::ExternRef(Some(e)) => Ok(HostValue::Extern(e)),
        }
    }

    /// Computes the kind of this value.
    pub fn get_kind(&self) -> (k: ValKind)
        ensures
            k == self.kind(),
    {
        match self {
            Val::I32(_) => ValKind::I32,
            Val::I64(_) => ValKind::I64,
            Val::F32(_) => ValKind::F32,
            Val::F64(_) => ValKind::F64,
            Val::V128(_) => ValKind::V128,
            Val::FuncRef(_) => ValKind::FuncRef,
            Val::ExternRef(_) => ValKind::ExternRef,
        }
    }

    /// Converts an engine value to its host representation. Every kind but
    /// `V128` has one.
    pub fn to_host_value(&self) -> (r: Result<HostValue, ConvertError>)
        ensures
            r == self.host_form(),
    {
        match self {
            Val::I32(i) => Ok(HostValue::Integer(*i as i64)),
            Val::I64(i) => Ok(HostValue::Integer(*i)),
            Val::F32(bits) => Ok(HostValue::Single(*bits)),
            Val::F64(bits) => Ok(HostValue::Double(*bits)),
            Val::V128(_) => Err(ConvertError::Unsupported(ValKind::V128)),
            Val::FuncRef(None) => Ok(HostValue::Nil),
            Val::FuncRef(Some(f)) => Ok(HostValue::Func(*f)),
            Val::ExternRef(None) => Ok(HostValue::Nil),
            Val::ExternRef(Some(e)) => Ok(HostValue::Extern(clone_extern_ref(e))),
        }
    }
}

impl HostValue {
    /// The engine value of kind `kind` that this host value stands for, where
    /// there is one.
    pub open spec fn wasm_form(self, kind: ValKind) -> Result<Val, ConvertError> {
        match kind {
            ValKind::I32 => match self {
                HostValue::Integer(i) => if i32::MIN <= i <= i32::MAX {
                    Ok(Val::I32(i as i32))
                } else {
                    Err(ConvertError::OutOfRange(kind))
                },
                _ => Err(ConvertError::Mismatch(kind)),
            },
            ValKind::I64 => match self {
                HostValue::Integer(i) => Ok(Val::I64(i)),
                _ => Err(ConvertError::Mismatch(kind)),
            },
            ValKind::F32 => match self {
                HostValue::Single(bits) => Ok(Val::F32(bits)),
                _ => Err(ConvertError::Mismatch(kind)),
            },
            ValKind::F64 => match self {
                HostValue::Double(bits) => Ok(Val::F64(bits)),
                _ => Err(ConvertError::Mismatch(kind)),
            },
            ValKind::V128 => Err(ConvertError::Unsupported(kind)),
            ValKind::FuncRef => match self {
                HostValue::Nil => Ok(Val::FuncRef(None)),
                HostValue::Func(f) => Ok(Val::FuncRef(Some(f))),
                _ => Err(ConvertError::Mismatch(kind)),
            },
            ValKind::ExternRef => match self {
                HostValue::Nil => Ok(Val::ExternRef(None)),
                HostValue::Extern(e) => Ok(Val::ExternRef(Some(e))),
                _ => Err(ConvertError::Mismatch(kind)),
            },
        }
    }

    /// Converts a host value to an engine value of the declared kind, or says
    /// why it cannot.
    pub fn to_wasm_val(&self, kind: ValKind) -> (r: Result<Val, ConvertError>)
        ensures
            r == self.wasm_form(kind),
    {
        match kind {
            ValKind::I32 => match self {
                HostValue::Integer(i) => if -0x8000_0000i64 <= *i && *i <= 0x7fff_ffffi64 {
                    Ok(Val::I32(*i as i32))
                } else {
                    Err(ConvertError::OutOfRange(kind))
                },
                _ => Err(ConvertError::Mismatch(kind)),
            },
            ValKind::I64 => match self {
                HostValue::Integer(i) => Ok(Val::I64(*i)),
                _ => Err(ConvertError::Mismatch(kind)),
            },
            ValKind::F32 => match self {
                HostValue::Single(bits) => Ok(Val::F32(*bits)),
                _ => Err(ConvertError::Mismatch(kind)),
            },
            ValKind::F64 => match self {
                HostValue::Double(bits) => Ok(Val::F64(*bits)),
                _ => Err(ConvertError::Mismatch(kind)),
            },
            ValKind::V128 => Err(ConvertError::Unsupported(kind)),
            ValKind::FuncRef => match self {
                HostValue::Nil => Ok(Val::FuncRef(None)),
                HostValue::Func(f) => Ok(Val::FuncRef(Some(*f))),
                _ => Err(ConvertError::Mismatch(kind)),
            },
            ValKind::ExternRef => match self {
                HostValue::Nil => Ok(Val::ExternRef(None)),
                HostValue::Extern(e) => Ok(Val::ExternRef(Some(clone_extern_ref(e)))),
                _ => Err(ConvertError::Mismatch(kind)),
            },
        }
    }
}

/// Every engine value whose kind has a host representation comes back
/// unchanged when it is converted to the host and then converted back at its
/// own kind.
pub proof fn lemma_round_trip(v: Val)
    requires
        v.kind() != ValKind::V128,
    ensures
        v.host_form() is Ok,
        v.host_form()->Ok_0.wasm_form(v.kind()) == Ok::<Val, ConvertError>(v),
{
}

} // verus!
