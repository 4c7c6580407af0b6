//! Conversion of the discovered schema directory path into a `file:`
//! URI, the form in which the `@SCHEMADIR@` placeholder is substituted.

use vstd::prelude::*;

verus! {

/// The `file:` URI that the url crate renders for a given path.  The
/// rendering is a function of the path alone; it is named here rather
/// than spelled out (scheme prefix plus percent-encoded segments).
pub uninterp spec fn file_uri_of(path: Seq<char>) -> Seq<char>;

/// Relies on url::Url::from_file_path: converts an absolute filesystem
/// path into a `file:` URI, percent-encoding where needed, and refuses a
/// path that is not absolute.
#[verifier::external_body]
pub(crate) fn path_to_file_uri(path: &str) -> (r: Option<String>)
    ensures
        (r matches Some(u) ==> u@ == file_uri_of(path@)),
        path@.len() > 0 && path@[0] == '/' ==> r is Some,
{
    match url::Url::from_file_path(path) {
        Ok(u) => Some(String::from(u)),
        Err(_) => None,
    }
}

} // verus!
