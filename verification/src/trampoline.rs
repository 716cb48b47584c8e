//! The path from the engine into a host callback and back.
use crate::engine::{bridge_val, new_trap, trap_reason, val_from_engine, val_to_engine};
use crate::error::{
    host_error_text, params_error_text, result_error_text, trap_message, trap_text, HostError,
    HostErrorView, HostExceptionView, ParamsError, ResultError,
};
use crate::params::{lower_all, lowered, raise_all, raised};
use crate::store::StoreData;
use crate::value::{HostValue, Val, ValKind};
use vstd::prelude::*;

verus! {

/// A host value read as a sequence: a sequence is its items, and any other
/// value is a sequence of that one value.
pub open spec fn as_sequence(v: HostValue) -> Seq<HostValue> {
    match v {
        HostValue::Array(items) => items@,
        _ => seq![v],
    }
}

/// The results that a callback's return value amounts to under the declared
/// result kinds. With no result declared the value is ignored. Otherwise it
/// is read as a sequence, which must be as long as the declaration and
/// convert item by item.
pub open spec fn accepted(returned: HostValue, kinds: Seq<ValKind>) -> Result<
    Seq<Val>,
    ResultError,
> {
    if kinds.len() == 0 {
        Ok(Seq::empty())
    } else if as_sequence(returned).len() != kinds.len() {
        Err(
            ResultError::Count {
                expected: kinds.len() as usize,
                given: as_sequence(returned).len() as usize,
            },
        )
    } else {
        match lowered(as_sequence(returned), kinds) {
            Ok(vals) => Ok(vals),
            Err((index, reason)) => Err(ResultError::Conversion { index: index as usize, reason }),
        }
    }
}

/// The single argument that a callback is called with: the host forms of the
/// engine's parameters, in order, as one sequence.
pub open spec fn marshalled(params: Seq<Val>) -> Result<Seq<HostValue>, ParamsError> {
    match raised(params) {
        Ok(items) => Ok(items),
        Err((index, reason)) => Err(ParamsError::Conversion { index: index as usize, reason }),
    }
}

/// Converts the engine's parameters into the one sequence that the callback
/// is called with, or reports the first that has no host form.
pub fn marshal_args(params: &Vec<Val>) -> (r: Result<HostValue, ParamsError>)
    ensures
        match r {
            Ok(arg) => arg matches HostValue::Array(items) && marshalled(params@) == Ok::<
                Seq<HostValue>,
                ParamsError,
            >(items@),
            Err(e) => marshalled(params@) == Err::<Seq<HostValue>, ParamsError>(e),
        },
{
    match raise_all(params) {
        Ok(items) => Ok(HostValue::Array(items)),
        Err((index, reason)) => Err(ParamsError::Conversion { index, reason }),
    }
}

/// Reconciles what a callback returned with the declared result kinds.
pub fn accept_result(returned: &HostValue, kinds: &Vec<ValKind>) -> (r: Result<
    Vec<Val>,
    ResultError,
>)
    ensures
        match r {
            Ok(vals) => accepted(*returned, kinds@) == Ok::<Seq<Val>, ResultError>(vals@),
            Err(e) => accepted(*returned, kinds@) == Err::<Seq<Val>, ResultError>(e),
        },
{
    let expected = kinds.len();
    if expected == 0 {
        return Ok(Vec::new());
    }
    match returned {
        HostValue::Array(items) => {
            if items.len() != expected {
                return Err(ResultError::Count { expected, given: items.len() });
            }
            match lower_all(items, kinds) {
                Ok(vals) => Ok(vals),
                Err((index, reason)) => Err(ResultError::Conversion { index, reason }),
            }
        },
        single => {
            if expected != 1 {
                return Err(ResultError::Count { expected, given: 1 });
            }
            proof {
                let one = seq![*single];
                assert(one.drop_last() =~= Seq::<HostValue>::empty());
                assert(one.last() == *single);
                reveal_with_fuel(lowered, 2);
            }
            match single.to_wasm_val(kinds[0]) {
                Ok(v) => {
                    let mut vals: Vec<Val> = Vec::new();
                    vals.push(v);
                    assert(vals@ =~= Seq::<Val>::empty().push(v));
                    Ok(vals)
                },
                Err(reason) => Err(ResultError::Conversion { index: 0, reason }),
            }
        },
    }
}

/// What the exception slot holds once a callback has finished with
/// `outcome`: a raised exception takes the slot, anything else leaves it.
pub open spec fn slot_after(before: Option<HostExceptionView>, outcome: Result<
    HostValue,
    HostErrorView,
>) -> Option<HostExceptionView> {
    match outcome {
        Err(HostErrorView::Exception(x)) => Some(x),
        _ => before,
    }
}

/// How a call of the callback named `name` ends once the callback has
/// finished with `outcome`: the declared results, or the message of a trap.
pub open spec fn settled(name: Seq<char>, kinds: Seq<ValKind>, outcome: Result<
    HostValue,
    HostErrorView,
>) -> Result<Seq<Val>, Seq<char>> {
    match outcome {
        Err(e) => Err(trap_text(name, host_error_text(e))),
        Ok(returned) => match accepted(returned, kinds) {
            Ok(vals) => Ok(vals),
            Err(e) => Err(trap_text(name, result_error_text(e))),
        },
    }
}

/// The outcome of a callback with its error, if any, taken by its view.
pub open spec fn outcome_view(outcome: Result<HostValue, HostError>) -> Result<
    HostValue,
    HostErrorView,
> {
    match outcome {
        Ok(v) => Ok(v),
        Err(e) => Err(e@),
    }
}

/// Whether the exec result `r` of a call is the result `expected`.
pub open spec fn ends_as(r: Result<Vec<Val>, String>, expected: Result<Seq<Val>, Seq<char>>) -> bool {
    match r {
        Ok(vals) => expected == Ok::<Seq<Val>, Seq<char>>(vals@),
        Err(message) => expected == Err::<Seq<Val>, Seq<char>>(message@),
    }
}

/// Finishes a call of the callback named `name` whose callback ended with
/// `outcome`. A raised exception goes into the context's slot; every failure
/// becomes the message of a trap that names the callback.
pub fn settle(
    name: &str,
    kinds: &Vec<ValKind>,
    data: &mut StoreData,
    outcome: Result<HostValue, HostError>,
) -> (r: Result<Vec<Val>, String>)
    ensures
        ends_as(r, settled(name@, kinds@, outcome_view(outcome))),
        final(data).pending() == slot_after(old(data).pending(), outcome_view(outcome)),
        final(data).retained() == old(data).retained(),
{
    match outcome {
        Err(e) => {
            let message = trap_message(name, e.text());
            match e {
                HostError::Exception(x) => {
                    data.hold_exception(x);
                },
                HostError::Failure(_) => {},
            }
            Err(message)
        },
        Ok(returned) => match accept_result(&returned, kinds) {
            Ok(vals) => Ok(vals),
            Err(e) => {
                let cause = e.message();
                Err(trap_message(name, cause.as_str()))
            },
        },
    }
}

/// How a call of the callback named `name` ends when a parameter has no host
/// form: the callback is not reached.
pub open spec fn refused(name: Seq<char>, e: ParamsError) -> Seq<char> {
    trap_text(name, params_error_text(e))
}

/// Whether one call of the callback named `name`, on the parameters
/// `params` and with `before` in the exception slot, can have ended with `r`
/// and with `after` in the slot. Where a parameter has no host form, the call
/// ends with the message that names it, and the slot is as it was. Otherwise
/// the callback ran on one sequence, the host forms of the parameters in
/// order, and the call ended as `settled` and `slot_after` say for what the
/// callback did.
pub open spec fn runs<F: Fn(HostValue) -> Result<HostValue, HostError>>(
    name: Seq<char>,
    kinds: Seq<ValKind>,
    callback: F,
    before: Option<HostExceptionView>,
    after: Option<HostExceptionView>,
    params: Seq<Val>,
    r: Result<Vec<Val>, String>,
) -> bool {
    match marshalled(params) {
        Err(e) => {
            &&& r matches Err(message)
            &&& message@ == refused(name, e)
            &&& after == before
        },
        Ok(items) => exists|arg: HostValue, outcome: Result<HostValue, HostError>|
            {
                &&& as_sequence(arg) == items
                &&& arg is Array
                &&& #[trigger] call_ensures(callback, (arg,), outcome)
                &&& ends_as(r, settled(name, kinds, outcome_view(outcome)))
                &&& after == slot_after(before, outcome_view(outcome))
            },
    }
}

/// One call from the engine into a host callback. The parameters are
/// converted first; where one has no host form the call ends there, the
/// callback is not run and the context is left as it was. Otherwise the
/// callback runs once, on one sequence, and the call ends as `settle` says
/// for what the callback did.
pub fn run_callback<F>(
    name: &str,
    kinds: &Vec<ValKind>,
    callback: &F,
    data: &mut StoreData,
    params: &Vec<Val>,
) -> (r: Result<Vec<Val>, String>) where F: Fn(HostValue) -> Result<HostValue, HostError>
    requires
        forall|arg: HostValue| call_requires(*callback, (arg,)),
    ensures
        final(data).retained() == old(data).retained(),
        runs(
            name@,
            kinds@,
            *callback,
            old(data).pending(),
            final(data).pending(),
            params@,
            r,
        ),
{
    match marshal_args(params) {
        Err(e) => {
            let cause = e.message();
            Err(trap_message(name, cause.as_str()))
        },
        Ok(arg) => {
            let ghost sent = arg;
            let outcome = callback(arg);
            let ghost got = outcome;
            let r = settle(name, kinds, data, outcome);
            assert(call_ensures(*callback, (sent,), got));
            r
        },
    }
}

/// Whether `after` is as long as `before` and has the entries of `before`
/// from the index `from` on.
pub open spec fn kept_from<T>(before: Seq<T>, after: Seq<T>, from: int) -> bool {
    &&& after.len() == before.len()
    &&& forall|k: int| from <= k < before.len() ==> after[k] == before[k]
}

/// The values of the bridge that a list of engine values is, one for one.
pub open spec fn bridge_vals(vals: Seq<wasmtime::Val>) -> Seq<Val> {
    Seq::new(vals.len(), |i: int| bridge_val(vals[i]))
}

/// The trampoline that the engine calls. It takes the parameters as the
/// engine hands them over and runs the callback on the values that they are,
/// as `run_callback` does. Where that call ends well, its results are written
/// over the first entries of `results`, one for one, and the entries behind
/// them stay; where it fails, `results` is not touched and the failure's
/// message leaves as a trap.
pub(crate) fn enter_callback<F>(
    name: &str,
    kinds: &Vec<ValKind>,
    callback: &F,
    data: &mut StoreData,
    params: &[wasmtime::Val],
    results: &mut [wasmtime::Val],
) -> (r: Result<(), wasmtime::Trap>) where F: Fn(HostValue) -> Result<HostValue, HostError>
    requires
        forall|arg: HostValue| call_requires(*callback, (arg,)),
    ensures
        final(data).retained() == old(data).retained(),
        final(results)@.len() == old(results)@.len(),
        r is Ok ==> final(data).pending() == old(data).pending(),
        exists|inner: Result<Vec<Val>, String>|
            {
                &&& #[trigger] runs(
                    name@,
                    kinds@,
                    *callback,
                    old(data).pending(),
                    final(data).pending(),
                    bridge_vals(params@),
                    inner,
                )
                &&& inner matches Err(message) ==> {
                    &&& r matches Err(trap)
                    &&& trap_reason(trap) == message@
                    &&& final(results)@ == old(results)@
                }
                &&& inner matches Ok(out) ==> {
                    &&& r is Ok
                    &&& kept_from(old(results)@, final(results)@, out@.len() as int)
                    &&& forall|k: int|
                        0 <= k < out@.len() && k < old(results)@.len() ==> bridge_val(
                            #[trigger] final(results)@[k],
                        ) == out@[k]
                }
            },
{
    let mut vals: Vec<Val> = Vec::new();
    let mut i: usize = 0;
    while i < params.len()
        invariant
            i <= params.len(),
            vals@.len() == i,
            forall|k: int| 0 <= k < i ==> vals@[k] == bridge_val(params@[k]),
        decreases params.len() - i,
    {
        vals.push(val_from_engine(&params[i]));
        i += 1;
    }
    assert(vals@ =~= bridge_vals(params@));
    let inner = run_callback(name, kinds, callback, data, &vals);
    let ghost sent = vals@;
    let ghost ended = inner;
    let r = match inner {
        Err(message) => Err(new_trap(message)),
        Ok(out) => {
            let mut j: usize = 0;
            while j < out.len() && j < results.len()
                invariant
                    j <= out.len(),
                    results@.len() == old(results)@.len(),
                    forall|k: int| j <= k < results@.len() ==> results@[k] == old(results)@[k],
                    forall|k: int| 0 <= k < j ==> bridge_val(#[trigger] results@[k]) == out@[k],
                decreases out.len() - j,
            {
                results[j] = val_to_engine(&out[j]);
                j += 1;
            }
            Ok(())
        },
    };
    assert(runs(
        name@,
        kinds@,
        *callback,
        old(data).pending(),
        final(data).pending(),
        sent,
        ended,
    ));
    r
}

} // verus!
