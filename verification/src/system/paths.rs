//! Paths, resolved by their text alone: nothing here looks at a file system.

use crate::error::native_failure;
use crate::error::ErrorKind;
use crate::error::ErrorRecord;
use crate::error::KindView;
use vstd::prelude::*;
use vstd::string::*;

verus! {

/// A path is absolute when it starts at the root.
pub open spec fn is_absolute(path: Seq<char>) -> bool {
    path.len() > 0 && path[0] == '/'
}

/// `path` below the directory `base`, with exactly the separator that is
/// needed between them.
pub open spec fn joined_path(base: Seq<char>, path: Seq<char>) -> Seq<char> {
    if base.len() > 0 && base.last() == '/' {
        base + path
    } else {
        base + seq!['/'] + path
    }
}

/// The absolute path that `path` stands for when the current directory is
/// `base`. An absolute path stands for itself. A relative one is taken
/// below `base`. There is no answer for an empty path, nor for a relative
/// one where `base` is not absolute itself.
pub open spec fn resolution(base: Seq<char>, path: Seq<char>) -> Option<Seq<char>> {
    if is_absolute(path) {
        Some(path)
    } else if path.len() == 0 || !is_absolute(base) {
        None
    } else {
        Some(joined_path(base, path))
    }
}

/// Whatever a path resolves to is absolute.
pub proof fn lemma_resolution_is_absolute(base: Seq<char>, path: Seq<char>)
    ensures
        resolution(base, path) matches Some(resolved) ==> is_absolute(resolved),
{
}

/// Path helpers.
#[derive(Debug, Clone, Copy, PartialEq, Eq)]
pub struct PathUtils;

impl PathUtils {
    pub fn new() -> (r: Self)
        ensures
            r == PathUtils,
    {
        PathUtils
    }

    /// Resolves `path` against the current directory `base`. Where there is
    /// no resolution the path is refused as `PathError`.
    pub fn resolve_path(base: &str, path: &str) -> (r: Result<String, ErrorRecord>)
        ensures
            match r {
                Ok(resolved) => resolution(base@, path@) == Some(resolved@),
                Err(e) => resolution(base@, path@) is None && e@ == native_failure(
                    KindView::PathError,
                    "path cannot be resolved"@,
                ),
            },
    {
        proof {
            reveal_strlit("/");
        }
        if path.is_empty() {
            return Err(ErrorRecord::new(ErrorKind::PathError, "path cannot be resolved"));
        }
        if path.get_char(0) == '/' {
            return Ok(path.to_owned());
        }
        if base.is_empty() || base.get_char(0) != '/' {
            return Err(ErrorRecord::new(ErrorKind::PathError, "path cannot be resolved"));
        }
        let mut resolved = base.to_owned();
        let n = base.unicode_len();
        if base.get_char(n - 1) != '/' {
            resolved.append("/");
            assert("/"@ =~= seq!['/']);
        }
        resolved.append(path);
        Ok(resolved)
    }
}

impl Default for PathUtils {
    fn default() -> (r: Self)
        ensures
            r == PathUtils,
    {
        PathUtils::new()
    }
}

} // verus!
