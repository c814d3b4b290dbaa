//! Paths held as text, joined and split the way the standard library's `Path` does on Unix.

use vstd::prelude::*;
use crate::text::{owned, push_str};
use std::path::Path;

verus! {

/// The path is absolute: it starts at the root.
pub open spec fn is_absolute_path(p: Seq<char>) -> bool {
    p.len() > 0 && p[0] == '/'
}

/// `base` with `p` pushed onto it (`PathBuf::push` on Unix): an absolute `p` replaces `base`;
/// otherwise a separator is put between them when `base` is not empty and does not already end
/// with one.
pub open spec fn join_path(base: Seq<char>, p: Seq<char>) -> Seq<char> {
    if is_absolute_path(p) {
        p
    } else if base.len() > 0 && base.last() != '/' {
        base + seq!['/'] + p
    } else {
        base + p
    }
}

/// Whether the path is absolute.
pub fn path_is_absolute(p: &str) -> (r: bool)
    ensures
        r == is_absolute_path(p@),
{
    let v = crate::text::chars_of(p);
    v.len() > 0 && v[0] == '/'
}

/// `base` joined with `p`.
pub fn join(base: &str, p: &str) -> (r: String)
    ensures
        r@ == join_path(base@, p@),
{
    if path_is_absolute(p) {
        return owned(p);
    }
    let b = crate::text::chars_of(base);
    let mut r = owned(base);
    if b.len() > 0 && b[b.len() - 1] != '/' {
        crate::text::push_char(&mut r, '/');
    }
    push_str(&mut r, p);
    r
}

/// What `Path::with_extension` gives for a path and an extension.
pub uninterp spec fn path_with_extension(p: Seq<char>, ext: Seq<char>) -> Seq<char>;

/// The path with its extension replaced (`Path::with_extension`). The extension holds no path
/// separator: `PathBuf::set_extension`, which does the work, panics on one.
#[verifier::external_body]
pub(crate) fn with_extension(p: &str, ext: &str) -> (r: String)
    requires
        !ext@.contains('/'),
        !ext@.contains('\\'),
    ensures
        r@ == path_with_extension(p@, ext@),
{
    Path::new(p).with_extension(ext).to_string_lossy().into_owned()
}

/// What `Path::file_name` gives for a path.
pub uninterp spec fn path_file_name(p: Seq<char>) -> Option<Seq<char>>;

/// The last component of the path, if it names a file or directory (`Path::file_name`).
#[verifier::external_body]
pub(crate) fn file_name(p: &str) -> (r: Option<String>)
    ensures
        match r {
            Some(n) => path_file_name(p@) == Some(n@),
            None => path_file_name(p@) is None,
        },
{
    Path::new(p).file_name().map(|n| n.to_string_lossy().into_owned())
}

/// What `Path::strip_prefix` gives for a path and a base.
pub uninterp spec fn path_strip_prefix(p: Seq<char>, base: Seq<char>) -> Option<Seq<char>>;

/// The path relative to `base`, when `base` is one of its ancestors (`Path::strip_prefix`).
#[verifier::external_body]
pub(crate) fn strip_prefix(p: &str, base: &str) -> (r: Option<String>)
    ensures
        match r {
            Some(n) => path_strip_prefix(p@, base@) == Some(n@),
            None => path_strip_prefix(p@, base@) is None,
        },
{
    Path::new(p).strip_prefix(base).ok().map(|n| n.to_string_lossy().into_owned())
}

/// What `path_clean::clean` gives for a path.
pub uninterp spec fn cleaned_path(p: Seq<char>) -> Seq<char>;

/// The path with `.` and `..` components and repeated separators resolved lexically
/// (`path_clean::clean`).
#[verifier::external_body]
pub(crate) fn clean(p: &str) -> (r: String)
    ensures
        r@ == cleaned_path(p@),
{
    path_clean::clean(p).to_string_lossy().into_owned()
}

/// What `Path::parent` gives for a path.
pub uninterp spec fn path_parent(p: Seq<char>) -> Option<Seq<char>>;

/// The path without its last component, if it has one to remove (`Path::parent`).
#[verifier::external_body]
pub(crate) fn parent(p: &str) -> (r: Option<String>)
    ensures
        match r {
            Some(n) => path_parent(p@) == Some(n@),
            None => path_parent(p@) is None,
        },
{
    Path::new(p).parent().map(|n| n.to_string_lossy().into_owned())
}

} // verus!
