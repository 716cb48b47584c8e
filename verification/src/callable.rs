//! Callable handles: host callbacks made into engine functions, and calls
//! from the host into the engine.
use crate::engine::{
    declared_kinds, engine_call, func_type_of, new_host_func, Store, MAX_PARAMS, MAX_RESULTS,
};
use crate::error::{
    params_error_text, signature_error_text, HostError, HostExceptionView, SignatureError,
};
use crate::func_type::{FuncType, Signature};
use crate::invoke::{conclude, concludes, prepare, slot_after_call, InvokeError};
use crate::params::built_params;
use crate::value::{HostValue, Val};
use vstd::prelude::*;

verus! {

/// A callback of the host language, as the bridge holds it: the identity of
/// the host object, the text that it prints as, and the way to run it on one
/// sequence of arguments.
#[verifier::reject_recursive_types(F)]
pub struct HostCallback<F> {
    pub id: u64,
    pub name: String,
    pub run: F,
}

/// A host callback that the engine can call: the callback's identity and
/// printed form, and the engine's handle of the function made for it.
#[derive(Debug)]
pub struct Func {
    inner: wasmtime::Func,
    callback: u64,
    name: String,
}

/// What keeps the engine from taking the signature `ty`, if anything: more
/// parameters than `MAX_PARAMS`, or else more results than `MAX_RESULTS`.
pub open spec fn signature_fault(ty: Signature) -> Option<SignatureError> {
    if ty.params.len() > MAX_PARAMS {
        Some(SignatureError::Params { given: ty.params.len() as usize, limit: MAX_PARAMS })
    } else if ty.results.len() > MAX_RESULTS {
        Some(SignatureError::Results { given: ty.results.len() as usize, limit: MAX_RESULTS })
    } else {
        None
    }
}

/// Tests whether the engine takes the signature `ty`.
pub fn check_signature(ty: &FuncType) -> (r: Result<(), SignatureError>)
    ensures
        match signature_fault(ty@) {
            Some(e) => r == Err::<(), SignatureError>(e),
            None => r is Ok,
        },
{
    if ty.params().len() > MAX_PARAMS {
        Err(SignatureError::Params { given: ty.params().len(), limit: MAX_PARAMS })
    } else if ty.results().len() > MAX_RESULTS {
        Err(SignatureError::Results { given: ty.results().len(), limit: MAX_RESULTS })
    } else {
        Ok(())
    }
}

/// Whether a call of `func` on `args`, made in the store `before`, can have
/// ended with `r` and the store `after`. Arguments that do not fit the
/// function's parameters end the call before the engine is reached: the
/// error says why, and the store is as it was. Otherwise the engine ran the
/// function, and the call came to what `concludes` says for the way the
/// engine ended it: a call that the engine ended well has results of the
/// declared kinds and leaves the exception slot as it was, and a call that
/// failed leaves the slot empty. The store keeps its functions and what it
/// retains.
pub open spec fn invoked(
    before: Store,
    after: Store,
    func: wasmtime::Func,
    args: Seq<HostValue>,
    r: Result<HostValue, InvokeError>,
) -> bool {
    &&& after.funcs() == before.funcs()
    &&& after.retained() == before.retained()
    &&& match built_params(args, before.signature(func).params) {
        Err(e) => {
            &&& r matches Err(InvokeError::Error(HostError::Failure(message)))
            &&& message@ == params_error_text(e)
            &&& after.data() == before.data()
        },
        Ok(_) => exists|ended: Result<Seq<Val>, Seq<char>>, pending: Option<HostExceptionView>|
            {
                &&& #[trigger] concludes(r, ended, pending)
                &&& after.pending() == slot_after_call(ended, pending)
                &&& ended matches Ok(vals) ==> pending == before.pending() && declared_kinds(
                    vals,
                    before.signature(func).results,
                )
            },
    }
}

/// What the host sees of the outcome of a call: the value, or the error that
/// it raises.
pub open spec fn surfaced(r: Result<HostValue, InvokeError>) -> Result<HostValue, HostError> {
    match r {
        Ok(v) => Ok(v),
        Err(InvokeError::Error(e)) => Err(e),
        Err(InvokeError::BoxedException(x)) => Err(HostError::Exception(x)),
    }
}

impl Func {
    /// The engine's handle of the function.
    pub closed spec fn handle(&self) -> wasmtime::Func {
        self.inner
    }

    /// The identity of the callback behind the function.
    pub closed spec fn callback_id(&self) -> u64 {
        self.callback
    }

    /// The printed form of the callback behind the function.
    pub closed spec fn callback_name(&self) -> Seq<char> {
        self.name@
    }

    /// Makes a host callback into a function of the store. Where the
    /// signature declares more than the engine takes, the failure says so and
    /// the store is as it was. Otherwise the store retains the callback, and
    /// holds one function more: the new one, with the signature `functype`.
    /// Its exception slot is not touched.
    pub fn new<F>(
        store: &mut Store,
        functype: &FuncType,
        _caller: bool,
        callback: HostCallback<F>,
    ) -> (r: Result<Func, HostError>) where
        F: Fn(HostValue) -> Result<HostValue, HostError> + Send + Sync + 'static,

        requires
            forall|arg: HostValue| call_requires(callback.run, (arg,)),
        ensures
            match signature_fault(functype@) {
                Some(e) => {
                    &&& r matches Err(HostError::Failure(message))
                    &&& message@ == signature_error_text(e)
                    &&& final(store).funcs() == old(store).funcs()
                    &&& final(store).data() == old(store).data()
                },
                None => {
                    &&& r matches Ok(func)
                    &&& !old(store).owns(func.handle())
                    &&& final(store).funcs() == old(store).funcs().insert(
                        func.handle(),
                        functype@,
                    )
                    &&& final(store).retained() == old(store).retained().push(callback.id)
                    &&& final(store).pending() == old(store).pending()
                    &&& func.callback_id() == callback.id
                    &&& func.callback_name() == callback.name@
                },
            },
    {
        match check_signature(functype) {
            Err(e) => {
                return Err(HostError::Failure(e.message()));
            },
            Ok(()) => {},
        }
        let id = callback.id;
        store.state_mut().retain(id);
        let name = callback.name.clone();
        let inner = new_host_func(store, functype, callback.name, callback.run);
        Ok(Func { inner, callback: id, name })
    }

    /// A copy of the engine's handle of the function.
    pub fn get(&self) -> (handle: wasmtime::Func)
        ensures
            handle == self.handle(),
    {
        self.inner
    }

    /// The identity of the callback behind the function.
    pub fn callback(&self) -> (id: u64)
        ensures
            id == self.callback_id(),
    {
        self.callback
    }

    /// The printed form of the callback behind the function.
    pub fn name(&self) -> (name: &str)
        ensures
            name@ == self.callback_name(),
    {
        self.name.as_str()
    }

    /// The signature that `func`, a function of the store, was made with.
    pub fn ty(store: &Store, func: &wasmtime::Func) -> (ty: FuncType)
        requires
            store.owns(*func),
        ensures
            ty@ == store.signature(*func),
    {
        func_type_of(store, func)
    }

    /// Calls the function with host arguments, and hands the host what
    /// `invoke` comes to: the value, or the error to raise.
    pub fn call(&self, store: &mut Store, args: &Vec<HostValue>) -> (r: Result<
        HostValue,
        HostError,
    >)
        requires
            old(store).owns(self.handle()),
        ensures
            exists|inner: Result<HostValue, InvokeError>|
                {
                    &&& #[trigger] invoked(*old(store), *final(store), self.handle(), args@, inner)
                    &&& r == surfaced(inner)
                },
    {
        let inner = Func::invoke(store, &self.inner, args);
        let ghost witness = inner;
        let r = match inner {
            Ok(v) => Ok(v),
            Err(e) => Err(HostError::from(e)),
        };
        assert(invoked(*old(store), *store, self.handle(), args@, witness));
        assert(r == surfaced(witness));
        r
    }

    /// Calls `func`, a function of the store, with host arguments.
    pub fn invoke(store: &mut Store, func: &wasmtime::Func, args: &Vec<HostValue>) -> (r: Result<
        HostValue,
        InvokeError,
    >)
        requires
            old(store).owns(*func),
        ensures
            invoked(*old(store), *final(store), *func, args@, r),
    {
        let ty = func_type_of(store, func);
        let (params, mut results) = match prepare(&ty, args) {
            Ok(handed) => handed,
            Err(e) => {
                return Err(e);
            },
        };
        let ended = match engine_call(store, func, &params, &mut results) {
            Ok(()) => Ok(results),
            Err(message) => Err(message),
        };
        let ghost at_end = crate::invoke::ended_view(ended);
        let ghost pending = store.pending();
        let r = conclude(store.state_mut(), ended);
        assert(concludes(r, at_end, pending));
        r
    }
}

} // verus!
