//! File-system paths as text.
//!
//! How a path splits into components is the standard library's business and
//! differs between platforms, so the four operations on whole paths are calls
//! into `std::path` behind trusted wrappers, each with a name for its result.
//! The extension of a file name is stated in full and computed here.
//!
//! The paths come in as text, so their parts and what is joined from them are
//! text too: nothing is lost where a wrapper turns a result back into text.

use vstd::prelude::*;
use vstd::string::*;
use crate::text::opt_text;

verus! {

/// The final component of `path`, where it has one, as `Path::file_name` of
/// the standard library gives it on the platform that the crate is built for.
pub uninterp spec fn file_name_of(path: Seq<char>) -> Option<Seq<char>>;

/// `path` without its final component, where that leaves anything, as
/// `Path::parent` gives it.
pub uninterp spec fn parent_of(path: Seq<char>) -> Option<Seq<char>>;

/// `path` appended to `base` as `Path::join` does it.
pub uninterp spec fn join_of(base: Seq<char>, path: Seq<char>) -> Seq<char>;

/// Whether `a` and `b` are equal as paths, component by component, as `==` on
/// `Path` decides it.
pub uninterp spec fn same_path(a: Seq<char>, b: Seq<char>) -> bool;

/// Calls `Path::file_name`. Trusted: the result is what [`file_name_of`]
/// names. The final component of a path given as text is text itself.
#[verifier::external_body]
pub(crate) fn path_file_name(path: &str) -> (out: Option<String>)
    ensures
        opt_text(out) == file_name_of(path@),
{
    std::path::Path::new(path).file_name().map(|name| name.to_string_lossy().into_owned())
}

/// Calls `Path::parent`. Trusted: the result is what [`parent_of`] names.
#[verifier::external_body]
pub(crate) fn path_parent(path: &str) -> (out: Option<String>)
    ensures
        opt_text(out) == parent_of(path@),
{
    std::path::Path::new(path).parent().map(|dir| dir.to_string_lossy().into_owned())
}

/// Calls `Path::join`. Trusted: the result is what [`join_of`] names.
#[verifier::external_body]
pub(crate) fn path_join(base: &str, path: &str) -> (out: String)
    ensures
        out@ == join_of(base@, path@),
{
    std::path::Path::new(base).join(path).to_string_lossy().into_owned()
}

/// Compares two paths with `==` on `Path`. Trusted: the result is what
/// [`same_path`] names.
#[verifier::external_body]
pub(crate) fn path_eq(a: &str, b: &str) -> (out: bool)
    ensures
        out == same_path(a@, b@),
{
    std::path::Path::new(a) == std::path::Path::new(b)
}

/// The place of the last `.` in `name`, or -1 where it holds none.
pub open spec fn last_dot(name: Seq<char>) -> int
    decreases name.len(),
{
    if name.len() == 0 {
        -1
    } else if name.last() == '.' {
        name.len() - 1
    } else {
        last_dot(name.drop_last())
    }
}

/// The extension of a file name: what follows its last `.`, unless it holds
/// no `.` or only the one it begins with.
pub open spec fn extension_in(name: Seq<char>) -> Option<Seq<char>> {
    if last_dot(name) <= 0 {
        None
    } else {
        Some(name.subrange(last_dot(name) + 1, name.len() as int))
    }
}

/// The extension of the file that `path` names.
pub open spec fn extension_of(path: Seq<char>) -> Option<Seq<char>> {
    match file_name_of(path) {
        Some(name) => extension_in(name),
        None => None,
    }
}

/// Where `last_dot` points there is a `.`, and none follows it.
pub proof fn lemma_last_dot(name: Seq<char>)
    ensures
        -1 <= last_dot(name) < name.len(),
        last_dot(name) >= 0 ==> name[last_dot(name)] == '.',
        forall|i: int| last_dot(name) < i < name.len() ==> name[i] != '.',
    decreases name.len(),
{
    if name.len() > 0 && name.last() != '.' {
        lemma_last_dot(name.drop_last());
        assert forall|i: int| last_dot(name) < i < name.len() implies name[i] != '.' by {
            if i < name.len() - 1 {
                assert(name[i] == name.drop_last()[i]);
            }
        }
    }
}

/// A place that holds a `.` followed by none is the one `last_dot` gives.
pub proof fn lemma_last_dot_is(name: Seq<char>, at: int)
    requires
        -1 <= at < name.len(),
        at >= 0 ==> name[at] == '.',
        forall|i: int| at < i < name.len() ==> name[i] != '.',
    ensures
        last_dot(name) == at,
{
    lemma_last_dot(name);
}

/// The extension of a file name.
pub fn name_extension(name: &str) -> (out: Option<String>)
    ensures
        opt_text(out) == extension_in(name@),
{
    let len = name.unicode_len();
    let mut at: usize = len;
    while at > 0 && name.get_char(at - 1) != '.'
        invariant
            at <= len,
            len == name@.len(),
            forall|i: int| at <= i < len ==> name@[i] != '.',
        decreases at,
    {
        at = at - 1;
    }
    proof {
        lemma_last_dot_is(name@, at as int - 1);
    }
    if at <= 1 {
        None
    } else {
        Some(name.substring_char(at, len).to_owned())
    }
}

} // verus!
