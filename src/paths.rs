//! The two questions the resolver asks of a path: what its extension is,
//! and what the path becomes with another extension. Both are answered by
//! `std::path`.

use vstd::prelude::*;
use crate::text::has_separator;

verus! {

/// What `Path::extension` gives for a path: the part of its file name after
/// the last `.`, if there is one.
pub uninterp spec fn extension_of(path: Seq<char>) -> Option<Seq<char>>;

/// What `Path::with_extension` gives for a path and an extension.
pub uninterp spec fn with_extension_of(path: Seq<char>, ext: Seq<char>) -> Seq<char>;

/// The text of an optional string.
pub open spec fn text_option(o: Option<String>) -> Option<Seq<char>> {
    match o {
        Some(s) => Some(s@),
        None => None,
    }
}

/// Relies on `std::path::Path::extension`: the extension of the file name,
/// which depends on the path's text alone. The path is UTF-8, so the
/// extension is too and the lossy conversion keeps it as it is.
#[verifier::external_body]
pub(crate) fn path_extension(path: &str) -> (r: Option<String>)
    ensures
        text_option(r) == extension_of(path@),
{
    match std::path::Path::new(path).extension() {
        Some(e) => Some(e.to_string_lossy().into_owned()),
        None => None,
    }
}

/// Relies on `std::path::Path::with_extension`: the path with its extension
/// added or replaced, which depends on the two texts alone. Where the path
/// has an extension it has a file name, so the extension is replaced and a
/// non-empty one without a `.` is then the path's extension. It panics on an
/// extension that holds a path separator, which `requires` leaves out.
#[verifier::external_body]
pub(crate) fn path_with_extension(path: &str, ext: &str) -> (r: String)
    requires
        !has_separator(ext@),
    ensures
        r@ == with_extension_of(path@, ext@),
        extension_of(path@) is Some && ext@.len() > 0 && !ext@.contains('.') ==> extension_of(r@)
            == Some(ext@),
{
    std::path::Path::new(path).with_extension(ext).to_string_lossy().into_owned()
}

} // verus!
