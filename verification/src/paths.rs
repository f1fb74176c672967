//! File paths as text.
//!
//! A path is a string whose components are separated by `/`. It is absolute
//! when it begins with `/`. Joining a path to a base puts one separator
//! between the two unless the base already ends with one, and an absolute
//! path joined to any base stays what it is.

use crate::text::{chars_of, push_char};
use vstd::prelude::*;

verus! {

/// The separator of path components.
pub const SEPARATOR: char = '/';

/// A path is absolute when it begins with the separator.
pub open spec fn is_absolute_path(path: Seq<char>) -> bool {
    path.len() > 0 && path[0] == SEPARATOR
}

/// `path` as seen from `base`.
pub open spec fn joined(base: Seq<char>, path: Seq<char>) -> Seq<char> {
    if is_absolute_path(path) {
        path
    } else if base.len() > 0 && base.last() != SEPARATOR {
        base.push(SEPARATOR) + path
    } else {
        base + path
    }
}

/// Whether `path` is absolute.
pub fn is_absolute(path: &str) -> (r: bool)
    ensures
        r == is_absolute_path(path@),
{
    let chars = chars_of(path);
    chars.len() > 0 && chars[0] == SEPARATOR
}

/// `path` as seen from `base`.
pub fn join(base: &str, path: &str) -> (out: String)
    ensures
        out@ == joined(base@, path@),
{
    if is_absolute(path) {
        return path.to_owned();
    }
    let chars = chars_of(base);
    let mut out = base.to_owned();
    if chars.len() > 0 && chars[chars.len() - 1] != SEPARATOR {
        push_char(&mut out, SEPARATOR);
    }
    out.append(path);
    out
}

/// Joining an absolute path to any base gives the path itself.
pub proof fn lemma_join_absolute(base: Seq<char>, path: Seq<char>)
    requires
        is_absolute_path(path),
    ensures
        joined(base, path) == path,
{
}

/// A relative path joined to a base begins with the base and ends with the
/// path.
pub proof fn lemma_join_relative(base: Seq<char>, path: Seq<char>)
    requires
        !is_absolute_path(path),
    ensures
        crate::text::has_prefix(joined(base, path), base),
        crate::text::has_suffix(joined(base, path), path),
{
    let j = joined(base, path);
    assert(j.subrange(0, base.len() as int) =~= base);
    assert(j.subrange(j.len() - path.len(), j.len() as int) =~= path);
}

} // verus!
