//! The end of a call from the host into the engine: which error surfaces,
//! and how the results are handed back.
use crate::error::{
    convert_error_text, params_error_text, push_convert_error, HostError, HostErrorView,
    HostException, HostExceptionView,
};
use crate::func_type::FuncType;
use crate::params::{build_params, built_params, raise_all, raised};
use crate::store::StoreData;
use crate::value::{ConvertError, HostValue, Val, ValKind};
use vstd::prelude::*;
use vstd::std_specs::convert::FromSpecImpl;
use vstd::string::StringExecFns;

verus! {

/// Why a call from the host into the engine failed: a host exception that a
/// callback raised during the call, kept as the object it is, or any other
/// error.
#[derive(Debug)]
pub enum InvokeError {
    BoxedException(HostException),
    Error(HostError),
}

/// What an `InvokeError` holds, as mathematics.
pub enum InvokeErrorView {
    BoxedException(HostExceptionView),
    Error(HostErrorView),
}

impl View for InvokeError {
    type V = InvokeErrorView;

    open spec fn view(&self) -> InvokeErrorView {
        match self {
            InvokeError::BoxedException(x) => InvokeErrorView::BoxedException(x@),
            InvokeError::Error(e) => InvokeErrorView::Error(e@),
        }
    }
}

impl From<InvokeError> for HostError {
    /// The error that the host raises for a failed call: the kept exception
    /// itself, or the other error as it stands.
    fn from(error: InvokeError) -> (r: HostError) {
        match error {
            InvokeError::Error(inner) => inner,
            InvokeError::BoxedException(x) => HostError::Exception(x),
        }
    }
}

impl FromSpecImpl<InvokeError> for HostError {
    open spec fn obeys_from_spec() -> bool {
        true
    }

    open spec fn from_spec(error: InvokeError) -> HostError {
        match error {
            InvokeError::Error(inner) => inner,
            InvokeError::BoxedException(x) => HostError::Exception(x),
        }
    }
}

impl From<HostError> for InvokeError {
    fn from(e: HostError) -> (r: InvokeError) {
        InvokeError::Error(e)
    }
}

impl FromSpecImpl<HostError> for InvokeError {
    open spec fn obeys_from_spec() -> bool {
        true
    }

    open spec fn from_spec(e: HostError) -> InvokeError {
        InvokeError::Error(e)
    }
}

impl From<HostException> for InvokeError {
    fn from(x: HostException) -> (r: InvokeError) {
        InvokeError::BoxedException(x)
    }
}

impl FromSpecImpl<HostException> for InvokeError {
    open spec fn obeys_from_spec() -> bool {
        true
    }

    open spec fn from_spec(x: HostException) -> InvokeError {
        InvokeError::BoxedException(x)
    }
}

/// Whether `r` is what goes to the engine for a call with the arguments
/// `args` of a function with the parameter kinds `params` and `results`
/// declared results: the built parameter list, and a result buffer of that
/// many null references; or the failure that says why the arguments do not
/// fit.
pub open spec fn prepares(
    r: Result<(Vec<Val>, Vec<Val>), InvokeError>,
    args: Seq<HostValue>,
    params: Seq<ValKind>,
    results: nat,
) -> bool {
    match built_params(args, params) {
        Ok(vals) => {
            &&& r matches Ok((handed, buffer))
            &&& handed@ == vals
            &&& buffer@.len() == results
            &&& forall|i: int| 0 <= i < results ==> buffer@[i] == Val::ExternRef(None)
        },
        Err(e) => {
            &&& r matches Err(InvokeError::Error(HostError::Failure(message)))
            &&& message@ == params_error_text(e)
        },
    }
}

/// Prepares a call of a function of the signature `ty` with the arguments
/// `args`: what is handed to the engine, or why the call cannot be made.
pub fn prepare(ty: &FuncType, args: &Vec<HostValue>) -> (r: Result<
    (Vec<Val>, Vec<Val>),
    InvokeError,
>)
    ensures
        prepares(r, args@, ty@.params, ty@.results.len()),
{
    match build_params(args, ty.params()) {
        Ok(params) => Ok((params, null_results(ty.results().len()))),
        Err(e) => Err(InvokeError::Error(HostError::Failure(e.message()))),
    }
}

/// A result buffer for `count` results, each a null reference until the
/// engine writes it.
pub fn null_results(count: usize) -> (results: Vec<Val>)
    ensures
        results@.len() == count,
        forall|i: int| 0 <= i < count ==> results@[i] == Val::ExternRef(None),
{
    let mut results: Vec<Val> = Vec::new();
    let mut i: usize = 0;
    while i < count
        invariant
            i <= count,
            results@.len() == i,
            forall|j: int| 0 <= j < i ==> results@[j] == Val::ExternRef(None),
        decreases count - i,
    {
        results.push(Val::ExternRef(None));
        i += 1;
    }
    results
}

/// The text of the failure that stands for an engine failure with the
/// message `message`.
pub open spec fn engine_failure_text(message: Seq<char>) -> Seq<char> {
    "Could not invoke function: "@ + message
}

/// The error of a call that the engine reported as failed with `message`
/// while `pending` was in the exception slot: a pending exception is the
/// cause and the engine's message is dropped; else the message is wrapped.
pub open spec fn failure(pending: Option<HostExceptionView>, message: Seq<char>) -> InvokeErrorView {
    match pending {
        Some(x) => InvokeErrorView::BoxedException(x),
        None => InvokeErrorView::Error(HostErrorView::Failure(engine_failure_text(message))),
    }
}

/// Chooses the error of a call that the engine reported as failed.
pub fn invoke_failure(pending: Option<HostException>, message: &str) -> (e: InvokeError)
    ensures
        e@ == failure(
            match pending {
                Some(x) => Some(x@),
                None => None,
            },
            message@,
        ),
{
    match pending {
        Some(x) => InvokeError::BoxedException(x),
        None => {
            let mut text = String::new();
            text.append("Could not invoke function: ");
            text.append(message);
            assert(text@ =~= engine_failure_text(message@));
            InvokeError::Error(HostError::Failure(text))
        },
    }
}

/// Whether `r` is what the host sees of the results `vals`: no value for no
/// result, the one value for one result, and a sequence of the values, in
/// order, for more; or the reason why the first value without a host form
/// has none.
pub open spec fn packages(r: Result<HostValue, ConvertError>, vals: Seq<Val>) -> bool {
    if vals.len() == 0 {
        r == Ok::<HostValue, ConvertError>(HostValue::Nil)
    } else if vals.len() == 1 {
        r == vals[0].host_form()
    } else {
        match raised(vals) {
            Ok(items) => r matches Ok(HostValue::Array(held)) && held@ == items,
            Err((_, reason)) => r == Err::<HostValue, ConvertError>(reason),
        }
    }
}

/// Hands the results of a call back to the host.
pub fn package_results(vals: &Vec<Val>) -> (r: Result<HostValue, ConvertError>)
    ensures
        packages(r, vals@),
{
    if vals.len() == 0 {
        Ok(HostValue::Nil)
    } else if vals.len() == 1 {
        vals[0].to_host_value()
    } else {
        match raise_all(vals) {
            Ok(items) => Ok(HostValue::Array(items)),
            Err((_, reason)) => Err(reason),
        }
    }
}

/// Whether `r` is what a call comes to once the engine has ended it with
/// `ended` while `pending` was in the exception slot.
pub open spec fn concludes(
    r: Result<HostValue, InvokeError>,
    ended: Result<Seq<Val>, Seq<char>>,
    pending: Option<HostExceptionView>,
) -> bool {
    match ended {
        Err(message) => r matches Err(e) && e@ == failure(pending, message),
        Ok(vals) => match r {
            Ok(v) => packages(Ok(v), vals),
            Err(e) => exists|reason: ConvertError|
                #![trigger convert_error_text(reason)]
                {
                    &&& packages(Err(reason), vals)
                    &&& e@ == InvokeErrorView::Error(
                        HostErrorView::Failure(convert_error_text(reason)),
                    )
                },
        },
    }
}

/// What the slot holds after a call has been concluded: a failed call has
/// read it, and reading empties it; a call that went well leaves it.
pub open spec fn slot_after_call(
    ended: Result<Seq<Val>, Seq<char>>,
    pending: Option<HostExceptionView>,
) -> Option<HostExceptionView> {
    match ended {
        Err(_) => None,
        Ok(_) => pending,
    }
}

/// The engine's outcome of a call, taken by its views.
pub open spec fn ended_view(ended: Result<Vec<Val>, String>) -> Result<Seq<Val>, Seq<char>> {
    match ended {
        Ok(vals) => Ok(vals@),
        Err(message) => Err(message@),
    }
}

/// Concludes a call that the engine has ended with `ended`. On failure the
/// exception slot is read, once, and decides the error. On success the
/// results are handed back and the slot is left alone.
pub fn conclude(data: &mut StoreData, ended: Result<Vec<Val>, String>) -> (r: Result<
    HostValue,
    InvokeError,
>)
    ensures
        concludes(r, ended_view(ended), old(data).pending()),
        final(data).pending() == slot_after_call(ended_view(ended), old(data).pending()),
        final(data).retained() == old(data).retained(),
{
    match ended {
        Err(message) => {
            let pending = data.take_exception();
            Err(invoke_failure(pending, message.as_str()))
        },
        Ok(vals) => match package_results(&vals) {
            Ok(v) => Ok(v),
            Err(reason) => {
                let mut text = String::new();
                push_convert_error(&mut text, reason);
                assert(text@ =~= convert_error_text(reason));
                Err(InvokeError::Error(HostError::Failure(text)))
            },
        },
    }
}

} // verus!
