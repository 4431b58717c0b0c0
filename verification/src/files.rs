//! The rule that guards local file deletion: a task's files may only be
//! removed from inside the configured download directory.
//!
//! The runtime resolves both paths to their canonical form first; this
//! module pins the containment rule itself.

use vstd::prelude::*;
use crate::text::{spec_starts_with, str_eq, str_starts_with};

verus! {

/// Whether the canonical `path` lies within the canonical `dir`: either the
/// directory itself, or below it with the boundary on a path separator.
pub open spec fn spec_path_within(dir: Seq<char>, path: Seq<char>) -> bool {
    ||| path == dir
    ||| (spec_starts_with(path, dir) && path.len() > dir.len() && path[dir.len() as int] == '/')
}

/// Decides whether a canonical path lies within the canonical download
/// directory, exactly as `spec_path_within` says; deletion is refused
/// otherwise.
pub fn path_within(dir: &str, path: &str) -> (r: bool)
    ensures
        r == spec_path_within(dir@, path@),
{
    if str_eq(dir, path) {
        return true;
    }
    if !str_starts_with(path, dir) {
        return false;
    }
    let dlen = dir.unicode_len();
    let plen = path.unicode_len();
    if plen > dlen {
        path.get_char(dlen) == '/'
    } else {
        proof {
            assert(path@ =~= dir@);
        }
        false
    }
}

} // verus!
