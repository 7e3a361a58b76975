//! A module resolver loading dynamic libraries.
//!
//! [`DylibModuleResolver`] maps a script-level `import` path to the
//! canonical path of a shared object (base-path prefixing, resolution
//! relative to the importing source, platform extension), checks that
//! the file exists, and consults a path-keyed cache before any load is
//! attempted.  Resolution is split in two: [`DylibModuleResolver::begin_resolve`]
//! takes every decision that needs no foreign call, and when it asks
//! for a load, the host opens the library and hands the outcome to
//! [`DylibModuleResolver::finish_resolve`], which caches and returns
//! the module.

use vstd::prelude::*;

use crate::engine::share_module;
use crate::loader::{Libloading, LoadOutcome, LoaderError, loading_detail_spec};
use crate::paths::{TargetPlatform, canonical_path, parent_dir, join_path, parent_of, set_extension};

verus! {

/// Why a resolution failed.
#[derive(Debug)]
pub enum ResolveError {
    /// The canonical path does not exist on disk.  Reported before any
    /// load is attempted, so script diagnostics can say "import target
    /// missing" rather than "import target failed to initialize".
    ModuleNotFound(String),
    /// The file exists but could not be loaded: the dynamic linker
    /// refused it, or the entrypoint symbol was missing.
    Loading(String),
    /// The request was for a source-level import, which this resolver
    /// does not handle; the caller should try an alternate resolver.
    NotApplicable,
}

/// Relies on `std::path::Path::exists`.  Whether the file is present
/// depends on the state of the disk, so nothing is promised of the
/// answer.
#[verifier::external_body]
fn path_exists(path: &str) -> bool {
    std::path::Path::new(path).exists()
}

/// A path-keyed cache of resolved extension modules.  Entries are only
/// ever added, and a lookup answers with the most recently inserted
/// module for the key.
pub struct ModuleCache {
    entries: Vec<(String, rhai::Shared<rhai::Module>)>,
}

impl ModuleCache {
    /// The cached entries, oldest first.
    pub closed spec fn entries_spec(self) -> Seq<(String, rhai::Shared<rhai::Module>)> {
        self.entries@
    }

    /// The module most recently cached under `key`, if any.
    pub open spec fn seq_lookup(
        entries: Seq<(String, rhai::Shared<rhai::Module>)>,
        key: Seq<char>,
    ) -> Option<rhai::Shared<rhai::Module>>
        decreases entries.len(),
    {
        if entries.len() == 0 {
            None
        } else if entries.last().0@ == key {
            Some(entries.last().1)
        } else {
            Self::seq_lookup(entries.drop_last(), key)
        }
    }

    /// The module cached under `key`, if any.
    pub open spec fn lookup(self, key: Seq<char>) -> Option<rhai::Shared<rhai::Module>> {
        Self::seq_lookup(self.entries_spec(), key)
    }

    /// Create an empty cache.
    pub fn new() -> (r: Self)
        ensures
            r.entries_spec().len() == 0,
    {
        ModuleCache { entries: Vec::new() }
    }

    /// The module cached under `key`, shared, if any.
    pub fn get(&self, key: &String) -> (r: Option<rhai::Shared<rhai::Module>>)
        ensures
            r == self.lookup(key@),
    {
        let mut i = self.entries.len();
        proof {
            assert(self.entries@.take(i as int) =~= self.entries@);
        }
        while i > 0
            invariant
                i <= self.entries@.len(),
                self.lookup(key@) == Self::seq_lookup(self.entries@.take(i as int), key@),
            decreases i,
        {
            let entry = &self.entries[i - 1];
            proof {
                assert(self.entries@.take(i as int).last() == self.entries@[i - 1]);
                assert(self.entries@.take(i as int).drop_last() =~= self.entries@.take(
                    i - 1 as int,
                ));
            }
            if entry.0 == *key {
                return Some(share_module(&entry.1));
            }
            i = i - 1;
        }
        None
    }

    /// Cache `module` under `key`.  Existing entries are untouched;
    /// a fresh lookup of `key` now answers `module`.
    pub fn insert(&mut self, key: String, module: rhai::Shared<rhai::Module>)
        ensures
            final(self).entries_spec() == old(self).entries_spec().push((key, module)),
    {
        self.entries.push((key, module));
    }

    /// A lookup after an insertion: the inserted key answers the new
    /// module, and every other key answers as before.
    pub proof fn lemma_lookup_push(
        entries: Seq<(String, rhai::Shared<rhai::Module>)>,
        key: String,
        module: rhai::Shared<rhai::Module>,
        query: Seq<char>,
    )
        ensures
            Self::seq_lookup(entries.push((key, module)), query) == if query == key@ {
                Some(module)
            } else {
                Self::seq_lookup(entries, query)
            },
    {
        assert(entries.push((key, module)).drop_last() =~= entries);
    }
}

/// A module resolver that loads the dynamic library a canonical
/// `import` path points at, caching each loaded module by that path.
pub struct DylibModuleResolver {
    /// Path prepended to each relative import if specified.
    base_path: Option<String>,
    /// The platform whose dynamic-library extension imports are
    /// completed with.
    platform: TargetPlatform,
    /// Dynamic library loader.
    loader: Libloading,
    /// Is module caching enabled for this resolver.
    cache_enabled: bool,
    /// Cache of loaded modules, left empty when caching is disabled.
    cache: ModuleCache,
}

/// What a resolution needs next, decided before any foreign call.
pub enum ResolveAction {
    /// The canonical path is not present on disk: the import fails
    /// with [`ResolveError::ModuleNotFound`] and no load is attempted.
    NotFound(String),
    /// The module was already loaded through this canonical path; the
    /// cached object is returned without touching the filesystem.
    Cached(rhai::Shared<rhai::Module>),
    /// The file exists and no cached module covers it: the library at
    /// the canonical path must be opened.
    Load(String),
}

impl DylibModuleResolver {
    /// The configured base path.
    pub closed spec fn base_path_spec(self) -> Option<Seq<char>> {
        match self.base_path {
            Some(b) => Some(b@),
            None => None,
        }
    }

    /// The platform whose extension imports are completed with.
    pub closed spec fn platform_spec(self) -> TargetPlatform {
        self.platform
    }

    /// Whether resolved modules are cached.
    pub closed spec fn cache_enabled_spec(self) -> bool {
        self.cache_enabled
    }

    /// The cached entries, oldest first.
    pub closed spec fn cache_spec(self) -> Seq<(String, rhai::Shared<rhai::Module>)> {
        self.cache.entries_spec()
    }

    /// The module cached under a canonical path, if any.
    pub open spec fn cached(self, key: Seq<char>) -> Option<rhai::Shared<rhai::Module>> {
        ModuleCache::seq_lookup(self.cache_spec(), key)
    }

    /// The library handles retained so far, oldest first.
    pub closed spec fn libraries_spec(self) -> Seq<libloading::Library> {
        self.loader.libraries_spec()
    }

    /// The canonical path this resolver gives an import, as a function
    /// of the importing source.
    pub open spec fn canonical_for(
        self,
        source: Option<Seq<char>>,
        path: Seq<char>,
    ) -> Seq<char> {
        canonical_path(
            self.base_path_spec(),
            source_parent(source),
            path,
            self.platform_spec().extension_spec(),
        )
    }

    /// Create a new instance of the resolver: no base path, caching
    /// enabled, nothing loaded, targeting the primary platform.
    pub fn new() -> (r: Self)
        ensures
            r.base_path_spec() is None,
            r.platform_spec() == TargetPlatform::Linux,
            r.cache_enabled_spec(),
            r.cache_spec().len() == 0,
            r.libraries_spec().len() == 0,
    {
        DylibModuleResolver {
            base_path: None,
            platform: TargetPlatform::Linux,
            loader: Libloading::new(),
            cache_enabled: true,
            cache: ModuleCache::new(),
        }
    }

    /// Create a new resolver with a specific base path.
    pub fn with_path(path: &str) -> (r: Self)
        ensures
            r.base_path_spec() == Some(path@),
            r.platform_spec() == TargetPlatform::Linux,
            r.cache_enabled_spec(),
            r.cache_spec().len() == 0,
            r.libraries_spec().len() == 0,
    {
        DylibModuleResolver {
            base_path: Some(path.to_owned()),
            platform: TargetPlatform::Linux,
            loader: Libloading::new(),
            cache_enabled: true,
            cache: ModuleCache::new(),
        }
    }

    /// Target `platform` when completing import paths.
    pub fn set_platform(&mut self, platform: TargetPlatform)
        ensures
            final(self).platform_spec() == platform,
            final(self).base_path_spec() == old(self).base_path_spec(),
            final(self).cache_enabled_spec() == old(self).cache_enabled_spec(),
            final(self).cache_spec() == old(self).cache_spec(),
            final(self).libraries_spec() == old(self).libraries_spec(),
    {
        self.platform = platform;
    }

    /// Enable/disable the cache.
    pub fn enable_cache(&mut self, enable: bool)
        ensures
            final(self).cache_enabled_spec() == enable,
            final(self).base_path_spec() == old(self).base_path_spec(),
            final(self).platform_spec() == old(self).platform_spec(),
            final(self).cache_spec() == old(self).cache_spec(),
            final(self).libraries_spec() == old(self).libraries_spec(),
    {
        self.cache_enabled = enable;
    }

    /// Is the cache enabled?
    pub fn is_cache_enabled(&self) -> (r: bool)
        ensures
            r == self.cache_enabled_spec(),
    {
        self.cache_enabled
    }

    /// Construct the full file path of an import: a relative import is
    /// joined onto the base path, or else onto the importing source's
    /// directory `source_path`, and the platform extension replaces
    /// any existing one.
    pub fn get_file_path(&self, path: &str, source_path: Option<&str>) -> (r: String)
        ensures
            r@ == canonical_path(
                self.base_path_spec(),
                opt_str_view(source_path),
                path@,
                self.platform_spec().extension_spec(),
            ),
    {
        let absolute = path.unicode_len() > 0 && path.get_char(0) == '/';
        let stem: String = if absolute {
            path.to_owned()
        } else {
            match &self.base_path {
                Some(base) => join_path(base.as_str(), path),
                None => match source_path {
                    Some(dir) => join_path(dir, path),
                    None => path.to_owned(),
                },
            }
        };
        set_extension(stem.as_str(), self.platform.extension())
    }

    /// Decide how the import behind the canonical path must be
    /// resolved, given whether the file is `present` on disk: a missing
    /// file fails, a cached module answers a cache-enabled resolver,
    /// and only otherwise is a load asked for.
    pub fn decide_resolution(&self, canonical: String, present: bool) -> (r: ResolveAction)
        ensures
            if !present {
                r matches ResolveAction::NotFound(p) && p@ == canonical@
            } else if self.cache_enabled_spec() && self.cached(canonical@) is Some {
                r matches ResolveAction::Cached(m) && Some(m) == self.cached(canonical@)
            } else {
                r matches ResolveAction::Load(p) && p@ == canonical@
            },
    {
        if !present {
            return ResolveAction::NotFound(canonical);
        }
        if self.cache_enabled {
            match self.cache.get(&canonical) {
                Some(module) => {
                    return ResolveAction::Cached(module);
                },
                None => {},
            }
        }
        ResolveAction::Load(canonical)
    }

    /// Decide how to resolve the import `path` appearing in the given
    /// `source` file, without any foreign call: construct the canonical
    /// path, probe the disk for it, and consult the cache.  The loader
    /// is involved only when the action asks for a load, which it never
    /// does for a path the cache already covers.
    pub fn begin_resolve(&self, source: Option<&str>, path: &str) -> (r: ResolveAction)
        ensures
            ({
                let canon = self.canonical_for(opt_str_view(source), path@);
                match r {
                    ResolveAction::NotFound(p) => p@ == canon,
                    ResolveAction::Cached(m) => self.cache_enabled_spec() && self.cached(canon)
                        == Some(m),
                    ResolveAction::Load(p) => p@ == canon && !(self.cache_enabled_spec()
                        && self.cached(canon) is Some),
                }
            }),
    {
        let source_dir: Option<String> = match source {
            Some(s) => parent_of(s),
            None => None,
        };
        let canonical = match &source_dir {
            Some(dir) => self.get_file_path(path, Some(dir.as_str())),
            None => self.get_file_path(path, None),
        };
        let present = path_exists(canonical.as_str());
        self.decide_resolution(canonical, present)
    }

    /// One load, completed: the resolver gained exactly one library
    /// handle, earlier handles and configuration are untouched, and a
    /// cache-enabled resolver now answers `canonical` — and only
    /// `canonical` — with the loaded module.
    pub open spec fn loads_module(
        pre: Self,
        post: Self,
        canonical: Seq<char>,
        module: rhai::Shared<rhai::Module>,
    ) -> bool {
        &&& post.base_path_spec() == pre.base_path_spec()
        &&& post.platform_spec() == pre.platform_spec()
        &&& post.cache_enabled_spec() == pre.cache_enabled_spec()
        &&& pre.libraries_spec().is_prefix_of(post.libraries_spec())
        &&& post.libraries_spec().len() == pre.libraries_spec().len() + 1
        &&& (forall|query: Seq<char>|
            #[trigger] post.cached(query) == if pre.cache_enabled_spec() && query == canonical {
                Some(module)
            } else {
                pre.cached(query)
            })
    }

    /// Complete the resolution of `canonical` from the outcome of the
    /// open-and-enter protocol.  On success the module is returned and
    /// — for a cache-enabled resolver — cached under `canonical`; on
    /// failure nothing is cached, though an opened handle is still
    /// retained.  Configuration and earlier state are never disturbed.
    pub fn finish_resolve(&mut self, canonical: String, outcome: LoadOutcome) -> (r: Result<
        rhai::Shared<rhai::Module>,
        ResolveError,
    >)
        ensures
            final(self).base_path_spec() == old(self).base_path_spec(),
            final(self).platform_spec() == old(self).platform_spec(),
            final(self).cache_enabled_spec() == old(self).cache_enabled_spec(),
            old(self).libraries_spec().is_prefix_of(final(self).libraries_spec()),
            match outcome {
                LoadOutcome::OpenFailed(cause) => {
                    &&& final(self).libraries_spec() == old(self).libraries_spec()
                    &&& final(self).cache_spec() == old(self).cache_spec()
                    &&& (r matches Err(ResolveError::Loading(d)) && d@ == loading_detail_spec(
                        canonical@,
                        cause@,
                    ))
                },
                LoadOutcome::MissingEntrypoint(lib, cause) => {
                    &&& final(self).libraries_spec() == old(self).libraries_spec().push(lib)
                    &&& final(self).cache_spec() == old(self).cache_spec()
                    &&& (r matches Err(ResolveError::Loading(d)) && d@ == loading_detail_spec(
                        canonical@,
                        cause@,
                    ))
                },
                LoadOutcome::Loaded(lib, module) => {
                    &&& r == Ok::<rhai::Shared<rhai::Module>, ResolveError>(module)
                    &&& Self::loads_module(*old(self), *final(self), canonical@, module)
                    &&& final(self).libraries_spec() == old(self).libraries_spec().push(lib)
                },
            },
    {
        let loaded = self.loader.finish_load(canonical.as_str(), outcome);
        match loaded {
            Ok(module) => {
                if self.cache_enabled {
                    let shared = share_module(&module);
                    self.cache.insert(canonical, shared);
                    proof {
                        assert forall|query: Seq<char>|
                            #[trigger] self.cached(query) == if old(self).cache_enabled_spec()
                                && query == canonical@ {
                                Some(module)
                            } else {
                                old(self).cached(query)
                            } by {
                            ModuleCache::lemma_lookup_push(
                                old(self).cache_spec(),
                                canonical,
                                module,
                                query,
                            );
                        }
                    }
                }
                Ok(module)
            },
            Err(LoaderError::Loading(detail)) => Err(ResolveError::Loading(detail)),
        }
    }

    /// For a cache-enabled resolver, a given canonical path is loaded
    /// at most once: after a load, the cache answers that path with the
    /// very module the load produced, so a later resolution of the same
    /// path is a cache hit returning the identical object — it never
    /// asks for another load.
    pub proof fn lemma_cache_hit_idempotent(
        pre: Self,
        post: Self,
        canonical: Seq<char>,
        module: rhai::Shared<rhai::Module>,
    )
        requires
            pre.cache_enabled_spec(),
            Self::loads_module(pre, post, canonical, module),
        ensures
            post.cache_enabled_spec(),
            post.cached(canonical) == Some(module),
    {
    }

    /// For a cache-disabled resolver, resolution bypasses the cache
    /// entirely: two successive loads of the same canonical path retain
    /// two independent library handles, and the cache stays as it was.
    pub proof fn lemma_cache_bypass(
        first: Self,
        second: Self,
        third: Self,
        canonical: Seq<char>,
        module1: rhai::Shared<rhai::Module>,
        module2: rhai::Shared<rhai::Module>,
    )
        requires
            !first.cache_enabled_spec(),
            Self::loads_module(first, second, canonical, module1),
            Self::loads_module(second, third, canonical, module2),
        ensures
            third.libraries_spec().len() == first.libraries_spec().len() + 2,
            forall|query: Seq<char>| #[trigger] third.cached(query) == first.cached(query),
    {
    }
}

impl Default for DylibModuleResolver {
    /// Create a new instance of the resolver: no base path, caching
    /// enabled, nothing loaded, targeting the primary platform.
    fn default() -> (r: Self)
        ensures
            r.base_path_spec() is None,
            r.platform_spec() == TargetPlatform::Linux,
            r.cache_enabled_spec(),
            r.cache_spec().len() == 0,
            r.libraries_spec().len() == 0,
    {
        DylibModuleResolver::new()
    }
}

/// The view of an optional borrowed string.
pub open spec fn opt_str_view(o: Option<&str>) -> Option<Seq<char>> {
    match o {
        Some(s) => Some(s@),
        None => None,
    }
}

/// The directory of the importing source, when one is known.
pub open spec fn source_parent(source: Option<Seq<char>>) -> Option<Seq<char>> {
    match source {
        Some(s) => parent_dir(s),
        None => None,
    }
}

} // verus!

