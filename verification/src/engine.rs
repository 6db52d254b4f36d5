//! Execution-context provisioning: each guest instantiation gets a fresh
//! isolated store, produced either from a compilation engine the embedder
//! configured or from the process-default engine.  The engine and the store
//! are opaque resources of the execution backend; this layer provisions
//! them and decides which construction path is taken, nothing more.

use vstd::prelude::*;

verus! {

#[verifier::external_type_specification]
#[verifier::external_body]
pub struct ExEngine(wasmer::Engine);

#[verifier::external_type_specification]
#[verifier::external_body]
pub struct ExStore(wasmer::Store);

/// A store of unknowable contents, built around the given engine.  The name
/// records only which construction path produced the store: which engine a
/// store was built with is not observable from outside the backend.
pub uninterp spec fn store_built_with(s: wasmer::Store, e: wasmer::Engine) -> bool;

/// A store of unknowable contents, built around the process-default engine.
pub uninterp spec fn store_built_default(s: wasmer::Store) -> bool;

/// Relies on wasmer::Engine::default, which yields the process-default
/// compilation engine.  The engine is an opaque resource; nothing is
/// claimed of its contents.
#[verifier::external_body]
pub(crate) fn engine_default() -> wasmer::Engine {
    wasmer::Engine::default()
}

/// Relies on wasmer::Store::default, which builds a fresh store around the
/// process-default engine.  The store's contents are opaque; the contract
/// records the construction path alone.
#[verifier::external_body]
pub(crate) fn store_default() -> (r: wasmer::Store)
    ensures
        store_built_default(r),
{
    wasmer::Store::default()
}

/// Relies on wasmer::Store::new, which builds a fresh store around the given
/// engine.  The store's contents are opaque; the contract records the
/// construction path alone.
#[verifier::external_body]
pub(crate) fn store_with_engine(engine: &wasmer::Engine) -> (r: wasmer::Store)
    ensures
        store_built_with(r, *engine),
{
    wasmer::Store::new(engine.clone())
}

} // verus!
