//! What holds of the bridge as a whole.
use crate::callable::{invoked, surfaced};
use crate::engine::Store;
use crate::error::{
    params_error_text, HostError, HostErrorView, HostExceptionView, ParamsError, ResultError,
};
use crate::invoke::{concludes, InvokeError, InvokeErrorView};
use crate::params::{
    built_params, lemma_lowered_failure_stays, lemma_raised_failure_stays, lowered, raised,
};
use crate::text::decimal;
use crate::trampoline::{accepted, as_sequence, marshalled, settled, slot_after};
use crate::value::{ConvertError, HostValue, Val, ValKind};
use vstd::prelude::*;

verus! {

/// Where every host value converts to the kind at its position, the list
/// converts: to as many engine values, each the conversion of the host value
/// at its position. Order is kept.
pub proof fn lemma_lowered_in_order(args: Seq<HostValue>, kinds: Seq<ValKind>)
    requires
        forall|i: int| 0 <= i < args.len() ==> (#[trigger] args[i]).wasm_form(kinds[i]) is Ok,
    ensures
        lowered(args, kinds) matches Ok(vals) && {
            &&& vals.len() == args.len()
            &&& forall|i: int|
                0 <= i < args.len() ==> (#[trigger] args[i]).wasm_form(kinds[i]) == Ok::<
                    Val,
                    ConvertError,
                >(vals[i])
        },
    decreases args.len(),
{
    if args.len() > 0 {
        let front = args.drop_last();
        assert forall|i: int| 0 <= i < front.len() implies (#[trigger] front[i]).wasm_form(
            kinds[i],
        ) is Ok by {
            assert(front[i] == args[i]);
        }
        lemma_lowered_in_order(front, kinds);
        let vals = lowered(args, kinds)->Ok_0;
        assert forall|i: int| 0 <= i < args.len() implies (#[trigger] args[i]).wasm_form(
            kinds[i],
        ) == Ok::<Val, ConvertError>(vals[i]) by {
            if i < front.len() {
                assert(front[i] == args[i]);
            }
        }
    }
}

/// The first host value that does not convert decides the error: its index
/// and the reason are reported, whatever follows it.
pub proof fn lemma_lowered_first_failure(
    args: Seq<HostValue>,
    kinds: Seq<ValKind>,
    k: int,
    reason: ConvertError,
)
    requires
        0 <= k < args.len(),
        forall|j: int| 0 <= j < k ==> (#[trigger] args[j]).wasm_form(kinds[j]) is Ok,
        args[k].wasm_form(kinds[k]) == Err::<Val, ConvertError>(reason),
    ensures
        lowered(args, kinds) == Err::<Seq<Val>, (int, ConvertError)>((k, reason)),
{
    let front = args.take(k);
    assert forall|j: int| 0 <= j < front.len() implies (#[trigger] front[j]).wasm_form(
        kinds[j],
    ) is Ok by {
        assert(front[j] == args[j]);
    }
    lemma_lowered_in_order(front, kinds);
    let upto = args.take(k + 1);
    assert(upto.drop_last() =~= front);
    assert(upto.last() == args[k]);
    assert(lowered(upto, kinds) == Err::<Seq<Val>, (int, ConvertError)>((k, reason)));
    lemma_lowered_failure_stays(args, kinds, k + 1);
}

/// Where every engine value has a host form, the list has one: as many host
/// values, each the host form of the engine value at its position.
pub proof fn lemma_raised_in_order(vals: Seq<Val>)
    requires
        forall|i: int| 0 <= i < vals.len() ==> (#[trigger] vals[i]).host_form() is Ok,
    ensures
        raised(vals) matches Ok(items) && {
            &&& items.len() == vals.len()
            &&& forall|i: int|
                0 <= i < vals.len() ==> (#[trigger] vals[i]).host_form() == Ok::<
                    HostValue,
                    ConvertError,
                >(items[i])
        },
    decreases vals.len(),
{
    if vals.len() > 0 {
        let front = vals.drop_last();
        assert forall|i: int| 0 <= i < front.len() implies (#[trigger] front[i]).host_form() is Ok by {
            assert(front[i] == vals[i]);
        }
        lemma_raised_in_order(front);
        let items = raised(vals)->Ok_0;
        assert forall|i: int| 0 <= i < vals.len() implies (#[trigger] vals[i]).host_form() == Ok::<
            HostValue,
            ConvertError,
        >(items[i]) by {
            if i < front.len() {
                assert(front[i] == vals[i]);
            }
        }
    }
}

/// The first engine value without a host form decides the error that a
/// callback's caller sees: its index and the reason are reported.
pub proof fn lemma_raised_first_failure(vals: Seq<Val>, k: int, reason: ConvertError)
    requires
        0 <= k < vals.len(),
        forall|j: int| 0 <= j < k ==> (#[trigger] vals[j]).host_form() is Ok,
        vals[k].host_form() == Err::<HostValue, ConvertError>(reason),
    ensures
        marshalled(vals) == Err::<Seq<HostValue>, ParamsError>(
            ParamsError::Conversion { index: k as usize, reason },
        ),
{
    let front = vals.take(k);
    assert forall|j: int| 0 <= j < front.len() implies (#[trigger] front[j]).host_form() is Ok by {
        assert(front[j] == vals[j]);
    }
    lemma_raised_in_order(front);
    let upto = vals.take(k + 1);
    assert(upto.drop_last() =~= front);
    assert(upto.last() == vals[k]);
    assert(raised(upto) == Err::<Seq<HostValue>, (int, ConvertError)>((k, reason)));
    lemma_raised_failure_stays(vals, k + 1);
}

/// A list of host values of a supported kind's host form goes to the engine
/// and comes back as it was: the host forms of engine values, converted at
/// the values' own kinds, are those values.
pub proof fn lemma_list_round_trip(vals: Seq<Val>)
    requires
        forall|i: int| 0 <= i < vals.len() ==> (#[trigger] vals[i]).kind() != ValKind::V128,
    ensures
        raised(vals) matches Ok(items) && lowered(items, vals.map_values(|v: Val| v.kind()))
            == Ok::<Seq<Val>, (int, ConvertError)>(vals),
{
    assert forall|i: int| 0 <= i < vals.len() implies (#[trigger] vals[i]).host_form() is Ok by {
        crate::value::lemma_round_trip(vals[i]);
    }
    lemma_raised_in_order(vals);
    let items = raised(vals)->Ok_0;
    let kinds = vals.map_values(|v: Val| v.kind());
    assert forall|i: int| 0 <= i < items.len() implies (#[trigger] items[i]).wasm_form(
        kinds[i],
    ) is Ok by {
        crate::value::lemma_round_trip(vals[i]);
        assert(vals[i].host_form() == Ok::<HostValue, ConvertError>(items[i]));
    }
    lemma_lowered_in_order(items, kinds);
    let back = lowered(items, kinds)->Ok_0;
    assert forall|i: int| 0 <= i < vals.len() implies back[i] == vals[i] by {
        crate::value::lemma_round_trip(vals[i]);
        assert(vals[i].host_form() == Ok::<HostValue, ConvertError>(items[i]));
        assert(items[i].wasm_form(kinds[i]) == Ok::<Val, ConvertError>(back[i]));
    }
    assert(back =~= vals);
}

/// A call with a number of arguments other than the number of declared
/// parameters fails with an arity error that reports both numbers.
pub proof fn lemma_arity_mismatch(args: Seq<HostValue>, kinds: Seq<ValKind>)
    requires
        args.len() != kinds.len(),
        args.len() <= usize::MAX,
        kinds.len() <= usize::MAX,
    ensures
        built_params(args, kinds) == Err::<Seq<Val>, ParamsError>(
            ParamsError::Arity { expected: kinds.len() as usize, given: args.len() as usize },
        ),
        params_error_text(built_params(args, kinds)->Err_0)
            == "wrong number of arguments (given "@ + decimal(args.len()) + ", expected "@
            + decimal(kinds.len()) + ")"@,
{
}

/// A call from the host with a number of arguments other than the number of
/// parameters that the function declares fails with the arity error, and
/// leaves the store as it was: the engine was not entered, so no callback
/// ran.
pub proof fn lemma_invoke_arity_mismatch(
    before: Store,
    after: Store,
    func: wasmtime::Func,
    args: Seq<HostValue>,
    r: Result<HostValue, InvokeError>,
)
    requires
        invoked(before, after, func, args, r),
        args.len() != before.signature(func).params.len(),
    ensures
        r matches Err(InvokeError::Error(HostError::Failure(message))) && message@
            == params_error_text(
            ParamsError::Arity {
                expected: before.signature(func).params.len() as usize,
                given: args.len() as usize,
            },
        ),
        after.data() == before.data(),
{
}

/// An argument that does not convert, after arguments that do, fails the
/// call with an error that names its index.
pub proof fn lemma_conversion_failure_names_index(
    args: Seq<HostValue>,
    kinds: Seq<ValKind>,
    k: int,
    reason: ConvertError,
)
    requires
        args.len() == kinds.len(),
        0 <= k < args.len(),
        forall|j: int| 0 <= j < k ==> (#[trigger] args[j]).wasm_form(kinds[j]) is Ok,
        args[k].wasm_form(kinds[k]) == Err::<Val, ConvertError>(reason),
    ensures
        built_params(args, kinds) == Err::<Seq<Val>, ParamsError>(
            ParamsError::Conversion { index: k as usize, reason },
        ),
{
    lemma_lowered_first_failure(args, kinds, k, reason);
}

/// A returned value that does not convert, after values that do, ends the
/// callback's call with an error that names its index.
pub proof fn lemma_result_failure_names_index(
    returned: HostValue,
    kinds: Seq<ValKind>,
    k: int,
    reason: ConvertError,
)
    requires
        kinds.len() > 0,
        as_sequence(returned).len() == kinds.len(),
        0 <= k < kinds.len(),
        forall|j: int|
            0 <= j < k ==> (#[trigger] as_sequence(returned)[j]).wasm_form(kinds[j]) is Ok,
        as_sequence(returned)[k].wasm_form(kinds[k]) == Err::<Val, ConvertError>(reason),
    ensures
        accepted(returned, kinds) == Err::<Seq<Val>, ResultError>(
            ResultError::Conversion { index: k as usize, reason },
        ),
{
    lemma_lowered_first_failure(as_sequence(returned), kinds, k, reason);
}

/// A callback that returns one value that is no sequence, where other than
/// one result is declared, has returned the wrong number of results: one.
pub proof fn lemma_bare_value_is_one_result(returned: HostValue, kinds: Seq<ValKind>)
    requires
        !(returned is Array),
        kinds.len() >= 2,
        kinds.len() <= usize::MAX,
    ensures
        accepted(returned, kinds) == Err::<Seq<Val>, ResultError>(
            ResultError::Count { expected: kinds.len() as usize, given: 1 },
        ),
{
}

/// Where no result is declared, whatever the callback returns is ignored: the
/// callback's call ends well with no result, and the host's call of such a
/// function, once the engine has ended it well, sees no value.
pub proof fn lemma_no_result_declared(
    name: Seq<char>,
    returned: HostValue,
    pending: Option<HostExceptionView>,
)
    ensures
        accepted(returned, Seq::<ValKind>::empty()) == Ok::<Seq<Val>, ResultError>(Seq::empty()),
        settled(name, Seq::<ValKind>::empty(), Ok(returned)) == Ok::<Seq<Val>, Seq<char>>(
            Seq::empty(),
        ),
        concludes(Ok(HostValue::Nil), Ok(Seq::<Val>::empty()), pending),
        forall|r: Result<HostValue, InvokeError>|
            concludes(r, Ok(Seq::<Val>::empty()), pending) ==> r == Ok::<HostValue, InvokeError>(
                HostValue::Nil,
            ),
{
    assert forall|r: Result<HostValue, InvokeError>|
        concludes(r, Ok(Seq::<Val>::empty()), pending) implies r == Ok::<HostValue, InvokeError>(
        HostValue::Nil,
    ) by {
    }
}

/// A host exception that a callback raises is the error of the host's call:
/// the callback's call puts the exception into the slot and ends with a
/// trap; the host's call, which the engine then reports as failed, fails
/// with that same exception, whatever message the engine gives, and the host
/// raises it.
pub proof fn lemma_raised_exception_surfaces(
    name: Seq<char>,
    kinds: Seq<ValKind>,
    before: Option<HostExceptionView>,
    x: HostExceptionView,
    message: Seq<char>,
    r: Result<HostValue, InvokeError>,
)
    requires
        concludes(r, Err(message), slot_after(before, Err(HostErrorView::Exception(x)))),
    ensures
        settled(name, kinds, Err(HostErrorView::Exception(x))) is Err,
        slot_after(before, Err(HostErrorView::Exception(x))) == Some(x),
        r matches Err(e) && e@ == InvokeErrorView::BoxedException(x),
        surfaced(r) matches Err(raised) && raised@ == HostErrorView::Exception(x),
{
}

/// A call from the host that finds the exception slot empty leaves it empty,
/// however the call ends: the slot holds an exception only between a
/// callback's raise and the end of the call that it was raised in.
pub proof fn lemma_empty_slot_stays_empty(
    before: Store,
    after: Store,
    func: wasmtime::Func,
    args: Seq<HostValue>,
    r: Result<HostValue, InvokeError>,
)
    requires
        invoked(before, after, func, args, r),
        before.pending() is None,
    ensures
        after.pending() is None,
{
}

/// A callback that the store retains stays retained through every call from
/// the host into the engine.
pub proof fn lemma_retained_through_calls(
    before: Store,
    after: Store,
    func: wasmtime::Func,
    args: Seq<HostValue>,
    r: Result<HostValue, InvokeError>,
    id: u64,
)
    requires
        invoked(before, after, func, args, r),
        before.retained().contains(id),
    ensures
        after.retained().contains(id),
        after.owns(func) == before.owns(func),
{
}

} // verus!
