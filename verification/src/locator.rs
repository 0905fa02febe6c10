//! The path normalizer: from an editor-supplied file locator to a canonical
//! local path string.
//!
//! A locator that denotes a local file becomes its OS-appropriate absolute
//! path. One that cannot be converted (a non-file resource) falls back to a
//! lexical strip of its scheme and authority prefix. The conversion is total:
//! it always returns a string and never fails.

use vstd::prelude::*;

verus! {

#[verifier::external_type_specification]
#[verifier::external_body]
pub struct ExUrl(url::Url);

/// The local file path that the locator denotes, or nothing when it denotes
/// no local file. A function of the locator alone.
pub uninterp spec fn file_path_of(u: url::Url) -> Option<Seq<char>>;

/// The locator's serialization from the start of its username portion, i.e.
/// with the scheme and its separator stripped. A function of the locator
/// alone.
pub uninterp spec fn after_scheme_of(u: url::Url) -> Seq<char>;

/// Relies on `url::Url::to_file_path` and `Path::to_string_lossy`: the local
/// file path that the locator denotes, as a string, or nothing when the
/// locator denotes no local file. Neither call panics.
#[verifier::external_body]
fn to_file_path_string(uri: &url::Url) -> (r: Option<String>)
    ensures
        r.deep_view() == file_path_of(*uri),
{
    match uri.to_file_path() {
        Ok(path) => Some(path.to_string_lossy().to_string()),
        Err(()) => None,
    }
}

/// Relies on url's `Index<RangeFrom<Position>>`: the locator's serialization
/// from the start of its username portion, i.e. with the scheme and the
/// separator stripped. The position is a character boundary by construction,
/// so the slicing never panics.
#[verifier::external_body]
fn after_scheme_string(uri: &url::Url) -> (r: String)
    ensures
        r@ == after_scheme_of(*uri),
{
    uri[url::Position::BeforeUsername..].to_string()
}

/// Extracts a canonical local path string from a `file://` locator, falling
/// back to a lexical strip of the scheme prefix for locators that denote no
/// local file. Total: returns a string for every locator.
pub fn extract_uri_string(uri: &url::Url) -> (r: String)
    ensures
        file_path_of(*uri) is Some ==> r@ == file_path_of(*uri).unwrap(),
        file_path_of(*uri) is None ==> r@ == after_scheme_of(*uri),
{
    match to_file_path_string(uri) {
        Some(path) => path,
        None => after_scheme_string(uri),
    }
}

} // verus!
