//! The engine-facing boundary.
//!
//! The host engine and its extension modules are external values: this
//! module declares their types and wraps the few engine operations the
//! crate relies on.  The engine's list of globally registered modules
//! is abstracted by [`engine_global_modules`], which every wrapper's
//! contract speaks of.

use vstd::prelude::*;

verus! {

#[verifier::external_type_specification]
#[verifier::external_body]
pub struct ExModule(rhai::Module);

#[verifier::external_type_specification]
#[verifier::external_body]
pub struct ExEngine(rhai::Engine);

/// The extension modules registered into an engine's global namespace,
/// most recently registered first.  The engine looks functions up from
/// the front of this sequence, so when two registered modules export a
/// function of the same name, the most recently registered one wins.
pub uninterp spec fn engine_global_modules(engine: rhai::Engine) -> Seq<
    rhai::Shared<rhai::Module>,
>;

/// Relies on `rhai::Engine::register_global_module`: the module is
/// inserted at the front of the engine's list of registered global
/// modules (directly behind the engine's own namespace, which always
/// stays first), so the newest registration takes precedence during
/// function lookup.
#[verifier::external_body]
pub(crate) fn engine_register_global_module(
    engine: &mut rhai::Engine,
    module: rhai::Shared<rhai::Module>,
)
    ensures
        engine_global_modules(*final(engine)) == seq![module] + engine_global_modules(
            *old(engine),
        ),
{
    engine.register_global_module(module);
}

/// Relies on `Rc::clone`: the returned handle shares the allocation of
/// `module`, so it stands for the very same module value.
#[verifier::external_body]
pub(crate) fn share_module(module: &rhai::Shared<rhai::Module>) -> (r: rhai::Shared<rhai::Module>)
    ensures
        r == *module,
{
    rhai::Shared::clone(module)
}

/// Relies on `rhai::Module::new` to create an empty module.
#[verifier::external_body]
pub(crate) fn new_module() -> rhai::Module {
    rhai::Module::new()
}

} // verus!
