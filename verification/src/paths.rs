//! Canonical filesystem paths for import resolution.
//!
//! An import path is turned into the path of a shared object on disk in
//! two steps: a relative path is joined onto a directory (the resolver's
//! base path, or the importing script's own directory), and the
//! platform's dynamic-library extension replaces any existing extension
//! of the file name.  The functions here define and compute exactly that
//! transformation.

use vstd::prelude::*;
use vstd::string::*;

verus! {

/// The platform family a resolver targets.  It fixes the file extension
/// that import paths are completed with.
#[derive(Clone, Copy, Debug, PartialEq, Eq, Structural)]
pub enum TargetPlatform {
    Linux,
    Windows,
    MacOs,
}

impl TargetPlatform {
    /// The dynamic-library file extension of this platform, without the
    /// leading dot.
    pub open spec fn extension_spec(self) -> Seq<char> {
        match self {
            TargetPlatform::Linux => "so"@,
            TargetPlatform::Windows => "dll"@,
            TargetPlatform::MacOs => "dylib"@,
        }
    }

    /// The dynamic-library file extension of this platform.
    pub fn extension(&self) -> (r: &'static str)
        ensures
            r@ == self.extension_spec(),
    {
        match self {
            TargetPlatform::Linux => "so",
            TargetPlatform::Windows => "dll",
            TargetPlatform::MacOs => "dylib",
        }
    }
}

/// A path is absolute when it starts at the filesystem root.
pub open spec fn is_absolute(path: Seq<char>) -> bool {
    path.len() > 0 && path[0] == '/'
}

/// `dir` and `rel` joined with a single separator: the empty directory
/// leaves `rel` unchanged, and no separator is doubled.
pub open spec fn joined(dir: Seq<char>, rel: Seq<char>) -> Seq<char> {
    if dir.len() == 0 {
        rel
    } else if dir.last() == '/' {
        dir + rel
    } else {
        dir + seq!['/'] + rel
    }
}

/// Where the file name of `path` starts, scanning `path[..i]`: one past
/// the last separator, or `0` when there is none.
pub open spec fn name_start_from(path: Seq<char>, i: int) -> int
    decreases i,
{
    if i <= 0 {
        0
    } else if path[i - 1] == '/' {
        i
    } else {
        name_start_from(path, i - 1)
    }
}

/// Where the file name of `path` starts.
pub open spec fn name_start(path: Seq<char>) -> int {
    name_start_from(path, path.len() as int)
}

/// Where the extension of `path`'s file name starts, scanning
/// `path[..i]` for the last dot strictly after position `lo` (a leading
/// dot marks a hidden file, not an extension): the index of that dot,
/// or `path.len()` when there is none.
pub open spec fn stem_end_from(path: Seq<char>, lo: int, i: int) -> int
    decreases i,
{
    if i <= 0 || i <= lo + 1 {
        path.len() as int
    } else if path[i - 1] == '.' {
        i - 1
    } else {
        stem_end_from(path, lo, i - 1)
    }
}

/// Where the extension of `path`'s file name would start; `path.len()`
/// when the file name has no extension.
pub open spec fn stem_end(path: Seq<char>) -> int {
    stem_end_from(path, name_start(path), path.len() as int)
}

/// `path` with its extension replaced by `ext`: everything from the
/// file name's last dot on is dropped, and `.ext` appended.
pub open spec fn with_extension(path: Seq<char>, ext: Seq<char>) -> Seq<char> {
    path.take(stem_end(path)) + seq!['.'] + ext
}

/// The directory holding `path`: the part before its file name.  The
/// root's parent and the empty path's parent do not exist; a path
/// without separators lies in the empty (current) directory.
pub open spec fn parent_dir(path: Seq<char>) -> Option<Seq<char>> {
    let ns = name_start(path);
    if path.len() == 0 {
        None
    } else if ns == 0 {
        Some(Seq::empty())
    } else if ns == 1 {
        if path.len() == 1 {
            None
        } else {
            Some(seq!['/'])
        }
    } else {
        Some(path.take(ns - 1))
    }
}

/// The canonical filesystem path of an import: a relative import is
/// joined onto the base path when one is set, else onto the importing
/// source's directory when one is known, else used as is; an absolute
/// import is kept; and the platform extension replaces any existing
/// one.
pub open spec fn canonical_path(
    base: Option<Seq<char>>,
    source_dir: Option<Seq<char>>,
    path: Seq<char>,
    ext: Seq<char>,
) -> Seq<char> {
    if is_absolute(path) {
        with_extension(path, ext)
    } else {
        let dir = match base {
            Some(b) => b,
            None => match source_dir {
                Some(s) => s,
                None => Seq::empty(),
            },
        };
        with_extension(joined(dir, path), ext)
    }
}

proof fn lemma_name_start_from_bounds(path: Seq<char>, i: int)
    requires
        0 <= i <= path.len(),
    ensures
        0 <= name_start_from(path, i) <= i,
    decreases i,
{
    if i > 0 && path[i - 1] != '/' {
        lemma_name_start_from_bounds(path, i - 1);
    }
}

proof fn lemma_name_start_from_char(path: Seq<char>, i: int)
    requires
        0 <= i <= path.len(),
    ensures
        name_start_from(path, i) > 0 ==> path[name_start_from(path, i) - 1] == '/',
    decreases i,
{
    if i > 0 && path[i - 1] != '/' {
        lemma_name_start_from_char(path, i - 1);
    }
}

proof fn lemma_stem_end_from_bounds(path: Seq<char>, lo: int, i: int)
    requires
        0 <= lo,
        i <= path.len(),
    ensures
        stem_end_from(path, lo, i) == path.len() || lo < stem_end_from(path, lo, i) < i,
    decreases i,
{
    if !(i <= lo + 1) && path[i - 1] != '.' {
        lemma_stem_end_from_bounds(path, lo, i - 1);
    }
}

/// The extension cut point lies within the path.
proof fn lemma_stem_end_bounds(path: Seq<char>)
    ensures
        0 <= stem_end(path) <= path.len(),
{
    lemma_name_start_from_bounds(path, path.len() as int);
    lemma_stem_end_from_bounds(path, name_start(path), path.len() as int);
}

/// Where the file name of `path` starts, as an index into `path`.
pub fn find_name_start(path: &str) -> (r: usize)
    ensures
        r == name_start(path@),
{
    let n = path.unicode_len();
    let mut i = n;
    while i > 0
        invariant
            i <= n,
            n == path@.len(),
            name_start(path@) == name_start_from(path@, i as int),
        decreases i,
    {
        if path.get_char(i - 1) == '/' {
            return i;
        }
        i = i - 1;
    }
    0
}

/// `path` with its extension replaced by `ext`.
pub fn set_extension(path: &str, ext: &str) -> (r: String)
    ensures
        r@ == with_extension(path@, ext@),
{
    let n = path.unicode_len();
    let ns = find_name_start(path);
    proof {
        lemma_name_start_from_bounds(path@, path@.len() as int);
    }
    let mut i = n;
    let mut cut = n;
    let mut found = false;
    while !found && i > 0 && i - 1 > ns
        invariant
            ns == name_start(path@),
            0 <= i <= n,
            n == path@.len(),
            if found {
                cut == stem_end(path@)
            } else {
                cut == n && stem_end(path@) == stem_end_from(path@, ns as int, i as int)
            },
        decreases i + (if found {
            0int
        } else {
            1int
        }),
    {
        if path.get_char(i - 1) == '.' {
            cut = i - 1;
            found = true;
        } else {
            i = i - 1;
        }
    }
    proof {
        lemma_stem_end_bounds(path@);
    }
    let stem = path.substring_char(0, cut);
    let mut r = String::from_str(stem);
    r.append(".");
    r.append(ext);
    proof {
        reveal_strlit(".");
        assert(r@ =~= with_extension(path@, ext@));
    }
    r
}

/// `dir` and `rel` joined with a single separator.
pub fn join_path(dir: &str, rel: &str) -> (r: String)
    ensures
        r@ == joined(dir@, rel@),
{
    let n = dir.unicode_len();
    if n == 0 {
        String::from_str(rel)
    } else {
        let mut r = String::from_str(dir);
        if dir.get_char(n - 1) != '/' {
            r.append("/");
        }
        r.append(rel);
        proof {
            reveal_strlit("/");
            assert(r@ =~= joined(dir@, rel@));
        }
        r
    }
}

/// The directory holding `path`, when it has one.
pub fn parent_of(path: &str) -> (r: Option<String>)
    ensures
        match r {
            Some(p) => parent_dir(path@) == Some(p@),
            None => parent_dir(path@) is None,
        },
{
    let n = path.unicode_len();
    let ns = find_name_start(path);
    proof {
        lemma_name_start_from_bounds(path@, path@.len() as int);
    }
    if n == 0 {
        None
    } else if ns == 0 {
        Some(String::new())
    } else if ns == 1 {
        if n == 1 {
            None
        } else {
            let r = path.substring_char(0, 1);
            proof {
                lemma_name_start_from_char(path@, path@.len() as int);
                assert(r@ =~= seq!['/']);
            }
            Some(String::from_str(r))
        }
    } else {
        let r = path.substring_char(0, ns - 1);
        proof {
            assert(r@ =~= path@.take(ns - 1 as int));
        }
        Some(String::from_str(r))
    }
}

} // verus!
