//! Function signatures: the kinds of the parameters and of the results.
use crate::value::ValKind;
use vstd::prelude::*;

verus! {

/// A signature as mathematics: the kinds of the parameters and of the
/// results, in order.
pub struct Signature {
    pub params: Seq<ValKind>,
    pub results: Seq<ValKind>,
}

/// The declared signature of a function. It does not change once made.
#[derive(Debug)]
pub struct FuncType {
    params: Vec<ValKind>,
    results: Vec<ValKind>,
}

impl View for FuncType {
    type V = Signature;

    closed spec fn view(&self) -> Signature {
        Signature { params: self.params@, results: self.results@ }
    }
}

impl FuncType {
    /// The declared kinds of the parameters, in order.
    pub open spec fn param_kinds(&self) -> Seq<ValKind> {
        self@.params
    }

    /// The declared kinds of the results, in order.
    pub open spec fn result_kinds(&self) -> Seq<ValKind> {
        self@.results
    }

    /// A signature with the given parameter and result kinds.
    pub fn new(params: Vec<ValKind>, results: Vec<ValKind>) -> (ty: FuncType)
        ensures
            ty.param_kinds() == params@,
            ty.result_kinds() == results@,
    {
        FuncType { params, results }
    }

    /// The declared kinds of the parameters.
    pub fn params(&self) -> (kinds: &Vec<ValKind>)
        ensures
            kinds@ == self.param_kinds(),
    {
        &self.params
    }

    /// The declared kinds of the results.
    pub fn results(&self) -> (kinds: &Vec<ValKind>)
        ensures
            kinds@ == self.result_kinds(),
    {
        &self.results
    }

    /// A copy of this signature.
    pub fn duplicate(&self) -> (ty: FuncType)
        ensures
            ty@ == self@,
    {
        FuncType { params: copy_kinds(&self.params), results: copy_kinds(&self.results) }
    }
}

/// Copies a list of kinds.
pub fn copy_kinds(kinds: &Vec<ValKind>) -> (out: Vec<ValKind>)
    ensures
        out@ == kinds@,
{
    let mut out: Vec<ValKind> = Vec::new();
    let mut i: usize = 0;
    while i < kinds.len()
        invariant
            i <= kinds.len(),
            out@ == kinds@.take(i as int),
        decreases kinds.len() - i,
    {
        out.push(kinds[i]);
        assert(kinds@.take(i as int + 1) =~= kinds@.take(i as int).push(kinds@[i as int]));
        i += 1;
    }
    assert(kinds@.take(kinds.len() as int) =~= kinds@);
    out
}

} // verus!
