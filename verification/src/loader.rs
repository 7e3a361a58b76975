//! The library-open protocol.
//!
//! A loadable module is a shared object exporting a single well-known
//! entrypoint symbol, [`MODULE_ENTRYPOINT`], that is invoked exactly
//! once after the library is opened and returns the library's extension
//! module.  Opening the library and invoking the entrypoint are foreign
//! calls that the host binary performs (on the primary platform, with
//! "resolve now" and "never unload" semantics); their outcome is handed
//! back as a [`LoadOutcome`], and [`Libloading::finish_load`] turns it
//! into the loader's result while retaining the opened handle for the
//! remaining process lifetime.

use vstd::prelude::*;
use vstd::string::*;

verus! {

#[verifier::external_type_specification]
#[verifier::external_body]
pub struct ExLibrary(libloading::Library);

/// The name of the exported symbol every loadable module must provide.
pub const MODULE_ENTRYPOINT: &'static str = "module_entrypoint";

/// Why a load failed.
#[derive(Debug)]
pub enum LoaderError {
    /// The library could not be opened, or its entrypoint was missing;
    /// the detail names the attempted path and the underlying cause.
    Loading(String),
}

/// What came of opening a shared object and invoking its entrypoint.
/// The host performs the foreign calls and reports their outcome here.
pub enum LoadOutcome {
    /// The dynamic linker could not open the file; the message is the
    /// linker's.
    OpenFailed(String),
    /// The library was opened, but the entrypoint symbol could not be
    /// resolved; the opened handle is surrendered so it can still be
    /// retained.
    MissingEntrypoint(libloading::Library, String),
    /// The library was opened and its entrypoint invoked exactly once,
    /// yielding its extension module.
    Loaded(libloading::Library, rhai::Shared<rhai::Module>),
}

/// The detail string of a [`LoaderError::Loading`]: the attempted path
/// followed by the underlying cause.
pub open spec fn loading_detail_spec(path: Seq<char>, cause: Seq<char>) -> Seq<char> {
    "failed to load library at "@ + path + ": "@ + cause
}

fn loading_detail(path: &str, cause: &str) -> (r: String)
    ensures
        r@ == loading_detail_spec(path@, cause@),
{
    let mut r = String::from_str("failed to load library at ");
    r.append(path);
    r.append(": ");
    r.append(cause);
    proof {
        assert(r@ =~= loading_detail_spec(path@, cause@));
    }
    r
}

/// A loader that keeps every opened library handle in an append-only
/// sequence, so the native code a returned module refers to stays
/// mapped for as long as the loader lives.
pub struct Libloading {
    libraries: Vec<libloading::Library>,
}

impl Libloading {
    /// The library handles opened so far, oldest first.
    pub closed spec fn libraries_spec(self) -> Seq<libloading::Library> {
        self.libraries@
    }

    /// Create a new instance of the loader.
    pub fn new() -> (r: Self)
        ensures
            r.libraries_spec().len() == 0,
    {
        Libloading { libraries: Vec::new() }
    }

    /// How many library handles are retained.
    pub fn library_count(&self) -> (r: usize)
        ensures
            r == self.libraries_spec().len(),
    {
        self.libraries.len()
    }

    /// Turn the outcome of the open-and-enter protocol for `path` into
    /// the loader's result.  A successfully opened handle is retained —
    /// also when the entrypoint was missing — and earlier handles are
    /// never disturbed; a failure carries a detail naming `path` and
    /// the cause.
    pub fn finish_load(&mut self, path: &str, outcome: LoadOutcome) -> (r: Result<
        rhai::Shared<rhai::Module>,
        LoaderError,
    >)
        ensures
            old(self).libraries_spec().is_prefix_of(final(self).libraries_spec()),
            match outcome {
                LoadOutcome::OpenFailed(cause) => {
                    &&& final(self).libraries_spec() == old(self).libraries_spec()
                    &&& (r matches Err(LoaderError::Loading(d)) && d@ == loading_detail_spec(
                        path@,
                        cause@,
                    ))
                },
                LoadOutcome::MissingEntrypoint(lib, cause) => {
                    &&& final(self).libraries_spec() == old(self).libraries_spec().push(lib)
                    &&& (r matches Err(LoaderError::Loading(d)) && d@ == loading_detail_spec(
                        path@,
                        cause@,
                    ))
                },
                LoadOutcome::Loaded(lib, module) => {
                    &&& final(self).libraries_spec() == old(self).libraries_spec().push(lib)
                    &&& r == Ok::<rhai::Shared<rhai::Module>, LoaderError>(module)
                },
            },
    {
        match outcome {
            LoadOutcome::OpenFailed(cause) => {
                Err(LoaderError::Loading(loading_detail(path, cause.as_str())))
            },
            LoadOutcome::MissingEntrypoint(lib, cause) => {
                self.libraries.push(lib);
                Err(LoaderError::Loading(loading_detail(path, cause.as_str())))
            },
            LoadOutcome::Loaded(lib, module) => {
                self.libraries.push(lib);
                Ok(module)
            },
        }
    }
}

impl Default for Libloading {
    /// Create a new instance of the loader.
    fn default() -> (r: Self)
        ensures
            r.libraries_spec().len() == 0,
    {
        Libloading::new()
    }
}

} // verus!
