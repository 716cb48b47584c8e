//! Lists of values crossing the boundary, element by element and in order.
use crate::error::ParamsError;
use crate::value::{ConvertError, HostValue, Val, ValKind};
use vstd::prelude::*;

verus! {

/// The engine values that `args` become at the kinds `kinds`, one for one and
/// in order; or the index of the first argument that cannot be converted,
/// with the reason.
pub open spec fn lowered(args: Seq<HostValue>, kinds: Seq<ValKind>) -> Result<
    Seq<Val>,
    (int, ConvertError),
>
    decreases args.len(),
{
    if args.len() == 0 {
        Ok(Seq::empty())
    } else {
        match lowered(args.drop_last(), kinds) {
            Err(e) => Err(e),
            Ok(vals) => match args.last().wasm_form(kinds[args.len() - 1]) {
                Ok(v) => Ok(vals.push(v)),
                Err(reason) => Err((args.len() - 1, reason)),
            },
        }
    }
}

/// The host values that `vals` become, one for one and in order; or the index
/// of the first value that has no host representation, with the reason.
pub open spec fn raised(vals: Seq<Val>) -> Result<Seq<HostValue>, (int, ConvertError)>
    decreases vals.len(),
{
    if vals.len() == 0 {
        Ok(Seq::empty())
    } else {
        match raised(vals.drop_last()) {
            Err(e) => Err(e),
            Ok(items) => match vals.last().host_form() {
                Ok(h) => Ok(items.push(h)),
                Err(reason) => Err((vals.len() - 1, reason)),
            },
        }
    }
}

/// What building a parameter list gives: an arity error where the counts
/// differ, else the outcome of converting each argument in order.
pub open spec fn built_params(args: Seq<HostValue>, kinds: Seq<ValKind>) -> Result<
    Seq<Val>,
    ParamsError,
> {
    if args.len() != kinds.len() {
        Err(ParamsError::Arity { expected: kinds.len() as usize, given: args.len() as usize })
    } else {
        match lowered(args, kinds) {
            Ok(vals) => Ok(vals),
            Err((index, reason)) => Err(ParamsError::Conversion { index: index as usize, reason }),
        }
    }
}

/// Converts each host value to the kind at its position, in order, stopping
/// at the first that cannot be converted.
pub(crate) fn lower_all(args: &Vec<HostValue>, kinds: &Vec<ValKind>) -> (r: Result<
    Vec<Val>,
    (usize, ConvertError),
>)
    requires
        args.len() <= kinds.len(),
    ensures
        match r {
            Ok(vals) => lowered(args@, kinds@) == Ok::<Seq<Val>, (int, ConvertError)>(vals@),
            Err((index, reason)) => lowered(args@, kinds@) == Err::<
                Seq<Val>,
                (int, ConvertError),
            >((index as int, reason)),
        },
{
    let mut out: Vec<Val> = Vec::new();
    let mut i: usize = 0;
    while i < args.len()
        invariant
            i <= args.len() <= kinds.len(),
            lowered(args@.take(i as int), kinds@) == Ok::<Seq<Val>, (int, ConvertError)>(out@),
        decreases args.len() - i,
    {
        let ghost next = args@.take(i as int + 1);
        assert(next.drop_last() =~= args@.take(i as int));
        assert(next.last() == args@[i as int]);
        match args[i].to_wasm_val(kinds[i]) {
            Ok(v) => {
                out.push(v);
            },
            Err(reason) => {
                proof {
                    lemma_lowered_failure_stays(args@, kinds@, i as int + 1);
                }
                return Err((i, reason));
            },
        }
        i += 1;
    }
    assert(args@.take(args.len() as int) =~= args@);
    Ok(out)
}

/// Converts each engine value to its host representation, in order, stopping
/// at the first that has none.
pub fn raise_all(vals: &Vec<Val>) -> (r: Result<Vec<HostValue>, (usize, ConvertError)>)
    ensures
        match r {
            Ok(items) => raised(vals@) == Ok::<Seq<HostValue>, (int, ConvertError)>(items@),
            Err((index, reason)) => raised(vals@) == Err::<Seq<HostValue>, (int, ConvertError)>(
                (index as int, reason),
            ),
        },
{
    let mut out: Vec<HostValue> = Vec::new();
    let mut i: usize = 0;
    while i < vals.len()
        invariant
            i <= vals.len(),
            raised(vals@.take(i as int)) == Ok::<Seq<HostValue>, (int, ConvertError)>(out@),
        decreases vals.len() - i,
    {
        let ghost next = vals@.take(i as int + 1);
        assert(next.drop_last() =~= vals@.take(i as int));
        assert(next.last() == vals@[i as int]);
        match vals[i].to_host_value() {
            Ok(h) => {
                out.push(h);
            },
            Err(reason) => {
                proof {
                    lemma_raised_failure_stays(vals@, i as int + 1);
                }
                return Err((i, reason));
            },
        }
        i += 1;
    }
    assert(vals@.take(vals.len() as int) =~= vals@);
    Ok(out)
}

/// Builds the parameter list for a call: the arguments must be as many as the
/// declared kinds, and each must convert to the kind at its position.
pub fn build_params(args: &Vec<HostValue>, kinds: &Vec<ValKind>) -> (r: Result<
    Vec<Val>,
    ParamsError,
>)
    ensures
        match r {
            Ok(vals) => built_params(args@, kinds@) == Ok::<Seq<Val>, ParamsError>(vals@),
            Err(e) => built_params(args@, kinds@) == Err::<Seq<Val>, ParamsError>(e),
        },
{
    if args.len() != kinds.len() {
        return Err(ParamsError::Arity { expected: kinds.len(), given: args.len() });
    }
    match lower_all(args, kinds) {
        Ok(vals) => Ok(vals),
        Err((index, reason)) => Err(ParamsError::Conversion { index, reason }),
    }
}

/// A failure among the first `n` arguments is the failure of the whole list.
pub proof fn lemma_lowered_failure_stays(args: Seq<HostValue>, kinds: Seq<ValKind>, n: int)
    requires
        0 <= n <= args.len(),
        lowered(args.take(n), kinds) is Err,
    ensures
        lowered(args, kinds) == lowered(args.take(n), kinds),
    decreases args.len() - n,
{
    if n < args.len() {
        assert(args.take(n + 1).drop_last() =~= args.take(n));
        lemma_lowered_failure_stays(args, kinds, n + 1);
    } else {
        assert(args.take(n) =~= args);
    }
}

/// A failure among the first `n` values is the failure of the whole list.
pub proof fn lemma_raised_failure_stays(vals: Seq<Val>, n: int)
    requires
        0 <= n <= vals.len(),
        raised(vals.take(n)) is Err,
    ensures
        raised(vals) == raised(vals.take(n)),
    decreases vals.len() - n,
{
    if n < vals.len() {
        assert(vals.take(n + 1).drop_last() =~= vals.take(n));
        lemma_raised_failure_stays(vals, n + 1);
    } else {
        assert(vals.take(n) =~= vals);
    }
}

} // verus!
