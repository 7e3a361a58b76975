//! Dynamic-library plugins for a [rhai](https://rhai.rs) engine.
//!
//! This crate loads native shared libraries ("plugins") into a running
//! script engine and resolves script-level `import` statements to
//! shared objects on disk.  It is organised around three pieces:
//!
//! * [`loader`] — the library-open protocol: a well-known entrypoint
//!   symbol is looked up in a freshly opened shared object and invoked
//!   once to obtain an extension module; the opened handle is retained
//!   for the remaining process lifetime.
//! * [`plugin_loader`] — a registry that accumulates loaded extension
//!   modules and registers them into an engine in load order.
//! * [`module_resolvers`] — a module resolver that maps an `import`
//!   path to a canonical filesystem path, consults a path-keyed cache,
//!   and otherwise delegates to the loader.
//!
//! Opening a shared object and invoking its entrypoint are foreign
//! calls that the host binary performs; every decision around them —
//! path canonicalisation, caching, error classification, registration
//! order, handle retention — lives here, with its contract.

pub mod engine;
pub mod loader;
pub mod module_resolvers;
pub mod paths;
pub mod plugin;
pub mod plugin_loader;

/// Re-exporting rhai to prevent version mismatch: the loading process
/// and every loaded library must be built against the same engine.
pub use rhai;
