//! A registry of loaded plugins.
//!
//! [`Libloading`] accumulates the extension modules obtained from
//! loaded libraries — together with the library handles themselves —
//! across multiple loads, and [`Libloading::apply`] registers every
//! accumulated module into a host engine in load order, so that the
//! last-loaded plugin's exports take precedence when names collide.

use vstd::prelude::*;

use crate::engine::{engine_global_modules, engine_register_global_module, share_module};
use crate::loader::{LoadOutcome, LoaderError, loading_detail_spec};

verus! {

/// Why loading a plugin failed.
#[derive(Debug)]
pub enum PluginLoaderError {
    /// The library could not be opened, or its entrypoint was missing;
    /// the detail names the attempted path and the underlying cause.
    Loading(String),
}

/// A registry that accumulates loaded plugins and registers them into
/// an engine.  Library handles are retained, append-only, for as long
/// as the registry lives, so every accumulated module's native code
/// stays mapped.
pub struct Libloading {
    /// Dynamic library loader, owner of the opened handles.
    loader: crate::loader::Libloading,
    /// Extension modules loaded in memory, in load order.
    plugins: Vec<rhai::Shared<rhai::Module>>,
}

impl Libloading {
    /// The accumulated extension modules, in load order.
    pub closed spec fn plugins_spec(self) -> Seq<rhai::Shared<rhai::Module>> {
        self.plugins@
    }

    /// The library handles retained so far, oldest first.
    pub closed spec fn libraries_spec(self) -> Seq<libloading::Library> {
        self.loader.libraries_spec()
    }

    /// Create a new instance of the registry.
    pub fn new() -> (r: Self)
        ensures
            r.plugins_spec().len() == 0,
            r.libraries_spec().len() == 0,
    {
        Libloading { loader: crate::loader::Libloading::new(), plugins: Vec::new() }
    }

    /// How many plugins have been accumulated.
    pub fn plugin_count(&self) -> (r: usize)
        ensures
            r == self.plugins_spec().len(),
    {
        self.plugins.len()
    }

    /// How many library handles are retained.
    pub fn library_count(&self) -> (r: usize)
        ensures
            r == self.libraries_spec().len(),
    {
        self.loader.library_count()
    }

    /// Turn the outcome of the open-and-enter protocol for `path` into
    /// the registry's result.  On success the module joins the
    /// accumulated collection; on failure the collection is untouched —
    /// no half-constructed entry is kept — though an opened handle is
    /// still retained.  Earlier entries are never disturbed.
    pub fn finish_load(&mut self, path: &str, outcome: LoadOutcome) -> (r: Result<
        rhai::Shared<rhai::Module>,
        PluginLoaderError,
    >)
        ensures
            old(self).plugins_spec().is_prefix_of(final(self).plugins_spec()),
            old(self).libraries_spec().is_prefix_of(final(self).libraries_spec()),
            match outcome {
                LoadOutcome::OpenFailed(cause) => {
                    &&& final(self).plugins_spec() == old(self).plugins_spec()
                    &&& final(self).libraries_spec() == old(self).libraries_spec()
                    &&& (r matches Err(PluginLoaderError::Loading(d)) && d@ == loading_detail_spec(
                        path@,
                        cause@,
                    ))
                },
                LoadOutcome::MissingEntrypoint(lib, cause) => {
                    &&& final(self).plugins_spec() == old(self).plugins_spec()
                    &&& final(self).libraries_spec() == old(self).libraries_spec().push(lib)
                    &&& (r matches Err(PluginLoaderError::Loading(d)) && d@ == loading_detail_spec(
                        path@,
                        cause@,
                    ))
                },
                LoadOutcome::Loaded(lib, module) => {
                    &&& final(self).plugins_spec() == old(self).plugins_spec().push(module)
                    &&& final(self).libraries_spec() == old(self).libraries_spec().push(lib)
                    &&& r == Ok::<rhai::Shared<rhai::Module>, PluginLoaderError>(module)
                },
            },
    {
        let loaded = self.loader.finish_load(path, outcome);
        match loaded {
            Ok(module) => {
                let shared = share_module(&module);
                self.plugins.push(shared);
                Ok(module)
            },
            Err(LoaderError::Loading(detail)) => Err(PluginLoaderError::Loading(detail)),
        }
    }

    /// Apply all accumulated plugins to an engine, in load order: each
    /// module is registered into the engine's global namespace, so the
    /// engine ends up preferring the last-loaded plugin's exports when
    /// two plugins export a function of the same name.
    pub fn apply(&self, engine: &mut rhai::Engine) -> (r: Result<(), PluginLoaderError>)
        ensures
            r is Ok,
            engine_global_modules(*final(engine)) == self.plugins_spec().reverse()
                + engine_global_modules(*old(engine)),
    {
        let mut i: usize = 0;
        proof {
            assert(self.plugins@.take(0).reverse() =~= Seq::<rhai::Shared<rhai::Module>>::empty());
            assert(self.plugins@.take(0).reverse() + engine_global_modules(*engine)
                =~= engine_global_modules(*engine));
        }
        while i < self.plugins.len()
            invariant
                i <= self.plugins@.len(),
                engine_global_modules(*engine) == self.plugins@.take(i as int).reverse()
                    + engine_global_modules(*old(engine)),
            decreases self.plugins@.len() - i,
        {
            let module = share_module(&self.plugins[i]);
            engine_register_global_module(engine, module);
            proof {
                assert(seq![self.plugins@[i as int]] + (self.plugins@.take(i as int).reverse()
                    + engine_global_modules(*old(engine))) =~= self.plugins@.take(
                    i + 1 as int,
                ).reverse() + engine_global_modules(*old(engine)));
            }
            i = i + 1;
        }
        proof {
            assert(self.plugins@.take(self.plugins@.len() as int) =~= self.plugins@);
        }
        Ok(())
    }
}

/// Registration order decides name collisions: the engine meets the
/// registered modules front first, and after [`Libloading::apply`] the
/// front-most of them is the last-loaded plugin's module — so when two
/// loaded plugins export a function of the same name, the last-loaded
/// one is found.
pub proof fn lemma_last_loaded_takes_precedence(
    plugins: Seq<rhai::Shared<rhai::Module>>,
    before: Seq<rhai::Shared<rhai::Module>>,
)
    requires
        plugins.len() > 0,
    ensures
        (plugins.reverse() + before)[0] == plugins.last(),
{
}

impl Default for Libloading {
    /// Create a new instance of the registry.
    fn default() -> (r: Self)
        ensures
            r.plugins_spec().len() == 0,
            r.libraries_spec().len() == 0,
    {
        Libloading::new()
    }
}

} // verus!
