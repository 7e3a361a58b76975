//! The plugin API surface.
//!
//! A plugin is native code that installs its exported modules into the
//! host engine.  It does so through a [`Builder`], a deliberately
//! narrow façade that records global-module registrations and nothing
//! else — a plugin can add functionality, but cannot reach the rest of
//! the engine's configuration.  A plugin library exports a constructor
//! under the well-known symbol name [`PLUGIN_ENTRYPOINT`];
//! [`plugin_entrypoint`] is this crate's own sample of that shape.

use vstd::prelude::*;

use crate::engine::{
    engine_global_modules, engine_register_global_module, new_module, share_module,
};

verus! {

/// The name of the constructor symbol a plugin library exports.
pub const PLUGIN_ENTRYPOINT: &'static str = "plugin_entrypoint";

/// A builder used to register the exported modules of a plugin.  It
/// records registrations in order; the host then applies them to an
/// engine with [`Builder::apply_to`].  Exposing only this capability
/// keeps a plugin from reconfiguring the rest of the engine.
pub struct Builder {
    modules: Vec<rhai::Shared<rhai::Module>>,
}

/// Trait used to register new modules from a dynamic library.
pub trait Plugin {
    /// Install this plugin's exported modules through `builder`.
    /// Registrations already recorded are left in place.
    fn register(&self, builder: &mut Builder)
        ensures
            old(builder).modules_spec().is_prefix_of(final(builder).modules_spec()),
    ;
}

impl Builder {
    /// The modules registered so far, in registration order.
    pub closed spec fn modules_spec(self) -> Seq<rhai::Shared<rhai::Module>> {
        self.modules@
    }

    /// Create a builder with nothing registered yet.
    pub fn new() -> (r: Self)
        ensures
            r.modules_spec().len() == 0,
    {
        Builder { modules: Vec::new() }
    }

    /// Record `module` for registration into the engine's global
    /// namespace, after everything registered before it.
    pub fn register_global_module(&mut self, module: rhai::Module)
        ensures
            final(self).modules_spec().len() == old(self).modules_spec().len() + 1,
            old(self).modules_spec().is_prefix_of(final(self).modules_spec()),
            final(self).modules_spec().last() == module,
    {
        let shared: rhai::Shared<rhai::Module> = rhai::Shared::new(module);
        self.modules.push(shared);
        proof {
            assert(old(self).modules_spec().is_prefix_of(final(self).modules_spec()));
        }
    }

    /// Register the recorded modules into `engine`, in recording
    /// order, so the engine prefers the most recently recorded module
    /// when exported names collide.
    pub fn apply_to(self, engine: &mut rhai::Engine)
        ensures
            engine_global_modules(*final(engine)) == self.modules_spec().reverse()
                + engine_global_modules(*old(engine)),
    {
        let mut i: usize = 0;
        proof {
            assert(self.modules@.take(0).reverse() + engine_global_modules(*engine)
                =~= engine_global_modules(*engine));
        }
        while i < self.modules.len()
            invariant
                i <= self.modules@.len(),
                engine_global_modules(*engine) == self.modules@.take(i as int).reverse()
                    + engine_global_modules(*old(engine)),
            decreases self.modules@.len() - i,
        {
            let module = share_module(&self.modules[i]);
            engine_register_global_module(engine, module);
            proof {
                assert(seq![self.modules@[i as int]] + (self.modules@.take(i as int).reverse()
                    + engine_global_modules(*old(engine))) =~= self.modules@.take(
                    i + 1 as int,
                ).reverse() + engine_global_modules(*old(engine)));
            }
            i = i + 1;
        }
        proof {
            assert(self.modules@.take(self.modules@.len() as int) =~= self.modules@);
        }
    }
}

/// Let `plugin` install its exported modules into `engine`: the
/// modules it registers through a fresh builder end up registered in
/// the engine, in the plugin's own order.
pub fn register_plugin<P: Plugin>(plugin: &P, engine: &mut rhai::Engine)
    ensures
        exists|added: Seq<rhai::Shared<rhai::Module>>|
            engine_global_modules(*final(engine)) == #[trigger] added.reverse()
                + engine_global_modules(*old(engine)),
{
    let mut builder = Builder::new();
    plugin.register(&mut builder);
    let ghost added = builder.modules_spec();
    builder.apply_to(engine);
    proof {
        assert(engine_global_modules(*engine) == added.reverse() + engine_global_modules(
            *old(engine),
        ));
    }
}

/// Computing something and returning a result: the sum of the three
/// arguments.
pub fn triple_add(a: i64, b: i64, c: i64) -> (r: i64)
    requires
        i64::MIN <= a + b + c <= i64::MAX,
    ensures
        r == a + b + c,
{
    let s: i128 = a as i128 + b as i128 + c as i128;
    s as i64
}

/// The sum of three machine integers, saturated at the representable
/// bounds.
pub open spec fn saturated_sum(a: int, b: int, c: int) -> int {
    let s = a + b + c;
    if s < i64::MIN {
        i64::MIN as int
    } else if s > i64::MAX {
        i64::MAX as int
    } else {
        s
    }
}

/// The sum of the three arguments, saturated instead of overflowing:
/// the total variant of [`triple_add`] exposed to scripts.
pub fn triple_add_saturating(a: i64, b: i64, c: i64) -> (r: i64)
    ensures
        r == saturated_sum(a as int, b as int, c as int),
{
    let s: i128 = a as i128 + b as i128 + c as i128;
    if s < i64::MIN as i128 {
        i64::MIN
    } else if s > i64::MAX as i128 {
        i64::MAX
    } else {
        s as i64
    }
}

/// Relies on `rhai::Module::set_native_fn` to export a three-argument
/// native function named `triple_add`; the installed function is this
/// crate's [`triple_add_saturating`].  The name is fixed here because
/// registration asserts on rhai's reserved indexer names, which an
/// arbitrary caller-chosen name could collide with.
#[verifier::external_body]
fn set_triple_add(module: &mut rhai::Module) {
    module.set_native_fn(
        "triple_add",
        |a: i64, b: i64, c: i64| -> Result<i64, Box<rhai::EvalAltResult>> {
            Ok(triple_add_saturating(a, b, c))
        },
    );
}

/// The sample plugin: it exports one module whose `triple_add`
/// function sums its three arguments.
pub struct MyPlugin;

impl Plugin for MyPlugin {
    /// Install the sample module: exactly one module is registered,
    /// after everything registered before it.
    fn register(&self, builder: &mut Builder)
        ensures
            final(builder).modules_spec().len() == old(builder).modules_spec().len() + 1,
    {
        let mut module = new_module();
        set_triple_add(&mut module);
        builder.register_global_module(module);
    }
}

/// The constructor a plugin library exports under
/// [`PLUGIN_ENTRYPOINT`]: build the plugin object whose registration
/// capability installs its modules.
pub fn plugin_entrypoint() -> (r: MyPlugin)
    ensures
        r == (MyPlugin {  }),
{
    MyPlugin {  }
}

} // verus!

