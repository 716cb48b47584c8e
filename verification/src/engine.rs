//! The engine's own types, and the calls that the bridge makes into it.
use crate::error::{HostError, HostExceptionView};
use crate::func_type::{FuncType, Signature};
use crate::store::StoreData;
use crate::trampoline::enter_callback;
use crate::value::{HostValue, Val, ValKind};
use vstd::prelude::*;
use wasmtime::{Func as FuncImpl, Store as EngineStore, Val as EngineVal};

verus! {

/// `wasmtime::Engine`: the compiler and its settings, shared by stores.
#[verifier::external_type_specification]
#[verifier::external_body]
pub struct ExEngine(wasmtime::Engine);

/// `wasmtime::Store`: an execution context with the state that its embedder
/// keeps in it.
#[verifier::external_type_specification]
#[verifier::external_body]
#[verifier::reject_recursive_types(T)]
pub struct ExEngineStore<T>(EngineStore<T>);

/// `wasmtime::Func`: a handle into a store's table of functions.
#[verifier::external_type_specification]
#[verifier::external_body]
pub struct ExEngineFunc(FuncImpl);

/// `wasmtime::ExternRef`: a counted reference to data that the engine does
/// not look into.
#[verifier::external_type_specification]
#[verifier::external_body]
pub struct ExEngineExternRef(wasmtime::ExternRef);

/// `wasmtime::Val`: a value as the engine's own interface takes it.
#[verifier::external_type_specification]
#[verifier::external_body]
pub struct ExEngineVal(EngineVal);

/// `wasmtime::ValType`: a kind as the engine's own interface takes it.
#[verifier::external_type_specification]
#[verifier::external_body]
pub struct ExEngineValType(wasmtime::ValType);

/// `wasmtime::Trap`: the engine's signal that a call ended abnormally.
#[verifier::external_type_specification]
#[verifier::external_body]
pub struct ExEngineTrap(wasmtime::Trap);

/// An execution context: the engine's store, which holds the bridge's state
/// and the functions made in it. The ghost fields say what the engine's store
/// holds, as far as the contracts speak of it; the functions below that call
/// into the engine keep them in step with it.
pub struct Store {
    inner: wasmtime::Store<StoreData>,
    data: Ghost<StoreData>,
    funcs: Ghost<Map<wasmtime::Func, Signature>>,
}

impl Store {
    /// The bridge's state that the store holds.
    pub closed spec fn data(&self) -> StoreData {
        self.data@
    }

    /// The functions that were made in this store, each with the signature it
    /// was made with.
    pub closed spec fn funcs(&self) -> Map<wasmtime::Func, Signature> {
        self.funcs@
    }

    /// Whether `func` was made in this store.
    pub open spec fn owns(&self, func: wasmtime::Func) -> bool {
        self.funcs().dom().contains(func)
    }

    /// The signature that `func` was made with.
    pub open spec fn signature(&self, func: wasmtime::Func) -> Signature {
        self.funcs()[func]
    }

    /// The exception that waits in the store's slot, if any.
    pub open spec fn pending(&self) -> Option<HostExceptionView> {
        self.data().pending()
    }

    /// The identities of the callbacks that the store keeps alive.
    pub open spec fn retained(&self) -> Seq<u64> {
        self.data().retained()
    }

    /// A store of `engine` with an empty exception slot, in which nothing is
    /// retained and no function has been made.
    pub fn new(engine: &wasmtime::Engine) -> (store: Store)
        ensures
            store.pending() is None,
            store.retained() == Seq::<u64>::empty(),
            store.funcs() == Map::<wasmtime::Func, Signature>::empty(),
    {
        new_engine_store(engine, StoreData::new())
    }

    /// Whether the store retains the callback with identity `id`.
    pub fn retains(&self, id: u64) -> (b: bool)
        ensures
            b == self.retained().contains(id),
    {
        self.state().is_retained(id)
    }

    /// Whether an exception waits in the store's slot.
    pub fn has_pending_exception(&self) -> (b: bool)
        ensures
            b == self.pending().is_some(),
    {
        self.state().has_exception()
    }

    /// `wasmtime::Store::data`: the state that the store holds.
    #[verifier::external_body]
    pub(crate) fn state(&self) -> (data: &StoreData)
        ensures
            *data == self.data(),
    {
        self.inner.data()
    }

    /// `wasmtime::Store::data_mut`: the state that the store holds, to be
    /// changed in place. The store's functions stay as they are.
    #[verifier::external_body]
    pub(crate) fn state_mut(&mut self) -> (data: &mut StoreData)
        ensures
            *data == old(self).data(),
            final(self).data() == *final(data),
            final(self).funcs() == old(self).funcs(),
    {
        self.inner.data_mut()
    }
}

/// The functions of a store in which none has been made.
pub open spec fn no_funcs() -> Map<wasmtime::Func, Signature> {
    Map::empty()
}

/// `wasmtime::Store::new`: a store of `engine` that holds `data`, and in
/// which no function has been made.
#[verifier::external_body]
fn new_engine_store(engine: &wasmtime::Engine, data: StoreData) -> (made: Store)
    ensures
        made.data() == data,
        made.funcs() == no_funcs(),
{
    Store { inner: wasmtime::Store::new(engine, data), data: Ghost(data), funcs: Ghost(Map::empty()) }
}

/// The most parameters that a function made for a callback may declare. It
/// is the most that the engine's parser takes on a function of a module, and
/// the engine's compiler, which panics on counts far beyond it, takes as
/// many.
pub const MAX_PARAMS: usize = 1000;

/// The most results that a function made for a callback may declare; see
/// `MAX_PARAMS`.
pub const MAX_RESULTS: usize = 1000;

/// The value of the bridge that an engine value is: the same variant,
/// holding the same.
pub uninterp spec fn bridge_val(v: wasmtime::Val) -> Val;

/// The message that a trap was made with.
pub uninterp spec fn trap_reason(trap: wasmtime::Trap) -> Seq<char>;

/// Tells the variants of `wasmtime::ValType` apart.
#[verifier::external_body]
pub(crate) fn kind_from_engine(ty: wasmtime::ValType) -> (kind: ValKind) {
    match ty {
        wasmtime::ValType::I32 => ValKind::I32,
        wasmtime::ValType::I64 => ValKind::I64,
        wasmtime::ValType::F32 => ValKind::F32,
        wasmtime::ValType::F64 => ValKind::F64,
        wasmtime::ValType::V128 => ValKind::V128,
        wasmtime::ValType::FuncRef => ValKind::FuncRef,
        wasmtime::ValType::ExternRef => ValKind::ExternRef,
    }
}

/// Names the variant of `wasmtime::ValType` for a kind.
#[verifier::external_body]
pub(crate) fn kind_to_engine(kind: &ValKind) -> (ty: wasmtime::ValType) {
    match kind {
        ValKind::I32 => wasmtime::ValType::I32,
        ValKind::I64 => wasmtime::ValType::I64,
        ValKind::F32 => wasmtime::ValType::F32,
        ValKind::F64 => wasmtime::ValType::F64,
        ValKind::V128 => wasmtime::ValType::V128,
        ValKind::FuncRef => wasmtime::ValType::FuncRef,
        ValKind::ExternRef => wasmtime::ValType::ExternRef,
    }
}

/// Tells the variants of `wasmtime::Val` apart, keeping what each holds: the
/// result is the value of the bridge that `v` is.
#[verifier::external_body]
pub(crate) fn val_from_engine(v: &wasmtime::Val) -> (val: Val)
    ensures
        val == bridge_val(*v),
{
    match v {
        wasmtime::Val::I32(i) => Val::I32(*i),
        wasmtime::Val::I64(i) => Val::I64(*i),
        wasmtime::Val::F32(bits) => Val::F32(*bits),
        wasmtime::Val::F64(bits) => Val::F64(*bits),
        wasmtime::Val::V128(bits) => Val::V128(*bits),
        wasmtime::Val::FuncRef(f) => Val::FuncRef(*f),
        wasmtime::Val::ExternRef(e) => Val::ExternRef(e.clone()),
    }
}

/// Names the variant of `wasmtime::Val` for a value, keeping what it holds:
/// the result is an engine value that is `v`.
#[verifier::external_body]
pub(crate) fn val_to_engine(v: &Val) -> (val: wasmtime::Val)
    ensures
        bridge_val(val) == *v,
{
    match v {
        Val::I32(i) => wasmtime::Val::I32(*i),
        Val::I64(i) => wasmtime::Val::I64(*i),
        Val::F32(bits) => wasmtime::Val::F32(*bits),
        Val::F64(bits) => wasmtime::Val::F64(*bits),
        Val::V128(bits) => wasmtime::Val::V128(*bits),
        Val::FuncRef(f) => wasmtime::Val::FuncRef(*f),
        Val::ExternRef(e) => wasmtime::Val::ExternRef(e.clone()),
    }
}

/// `Clone::clone` of `wasmtime::ExternRef`: the copy refers to the same data
/// as the original, which only gains a count.
#[verifier::external_body]
pub(crate) fn clone_extern_ref(e: &wasmtime::ExternRef) -> (r: wasmtime::ExternRef)
    ensures
        r == *e,
{
    e.clone()
}

/// `wasmtime::Trap::new`: a trap that carries `message`.
#[verifier::external_body]
pub(crate) fn new_trap(message: String) -> (trap: wasmtime::Trap)
    ensures
        trap_reason(trap) == message@,
{
    wasmtime::Trap::new(message)
}

/// Whether `vals` are as many as `kinds`, each of the kind at its position.
pub open spec fn declared_kinds(vals: Seq<Val>, kinds: Seq<ValKind>) -> bool {
    &&& vals.len() == kinds.len()
    &&& forall|i: int| 0 <= i < vals.len() ==> (#[trigger] vals[i]).kind() == kinds[i]
}

/// `wasmtime::Func::ty`, with `FuncType::params` and `FuncType::results`:
/// the signature that the store keeps for `func`, which is the one that the
/// function was made with. The engine panics on a function of another store.
#[verifier::external_body]
pub(crate) fn func_type_of(store: &Store, func: &wasmtime::Func) -> (ty: FuncType)
    requires
        store.owns(*func),
    ensures
        ty@ == store.signature(*func),
{
    let ty = func.ty(&store.inner);
    FuncType::new(
        ty.params().map(kind_from_engine).collect(),
        ty.results().map(kind_from_engine).collect(),
    )
}

/// `wasmtime::Func::call`. The engine checks the parameters against the
/// function's signature and runs the function, which runs its callback; so
/// nothing is promised of whether the call goes well. The results keep their
/// number, the store keeps its functions, and callbacks leave the retained
/// identities alone. A call that went well wrote as many results as the
/// function declares, each of its declared kind, and its callback ended
/// well, which leaves the exception slot as it was. The engine panics on a
/// function of another store, which `requires` leaves out, and on a store
/// with async support, which this crate's build of the engine does not have.
#[verifier::external_body]
pub(crate) fn engine_call(
    store: &mut Store,
    func: &wasmtime::Func,
    params: &Vec<Val>,
    results: &mut Vec<Val>,
) -> (r: Result<(), String>)
    requires
        old(store).owns(*func),
    ensures
        final(store).funcs() == old(store).funcs(),
        final(store).retained() == old(store).retained(),
        final(results)@.len() == old(results)@.len(),
        r is Ok ==> final(store).pending() == old(store).pending(),
        r is Ok ==> declared_kinds(final(results)@, old(store).signature(*func).results),
{
    let args: Vec<wasmtime::Val> = params.iter().map(val_to_engine).collect();
    let mut buffer: Vec<wasmtime::Val> = results.iter().map(val_to_engine).collect();
    let outcome = func.call(&mut store.inner, &args, &mut buffer);
    *results = buffer.iter().map(val_from_engine).collect();
    outcome.map_err(|e| e.to_string())
}

/// `wasmtime::Func::new`, with `wasmtime::FuncType::new`: makes a function
/// of the signature `ty` in the store, which the engine runs by calling
/// `enter_callback` on `callback`. The store's state is not touched. The
/// engine compiles an entry for the signature and panics where it cannot,
/// which is on counts far beyond those that `requires` admits.
#[verifier::external_body]
pub(crate) fn new_host_func<F>(store: &mut Store, ty: &FuncType, name: String, callback: F) -> (func:
    wasmtime::Func) where F: Fn(HostValue) -> Result<HostValue, HostError> + Send + Sync + 'static
    requires
        forall|arg: HostValue| call_requires(callback, (arg,)),
        ty@.params.len() <= MAX_PARAMS,
        ty@.results.len() <= MAX_RESULTS,
    ensures
        !old(store).owns(func),
        final(store).funcs() == old(store).funcs().insert(func, ty@),
        final(store).data() == old(store).data(),
{
    let kinds = ty.duplicate();
    let engine_ty = wasmtime::FuncType::new(
        ty.params().iter().map(kind_to_engine),
        ty.results().iter().map(kind_to_engine),
    );
    wasmtime::Func::new(&mut store.inner, engine_ty, move |mut caller, params, results| {
        enter_callback(&name, kinds.results(), &callback, caller.data_mut(), params, results)
    })
}

} // verus!
