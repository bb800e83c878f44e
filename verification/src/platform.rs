//! The path queries of the standard library, as this crate relies on them.
//!
//! A path is modelled by its bytes in the platform's encoding. What a query
//! yields is a function of those bytes alone, but one that depends on the
//! platform's rules for separators, roots and prefixes; so each query's result
//! has a name here rather than a definition, and one private function that
//! makes the call. Their contracts are taken on trust.

use std::path::Path;
use std::path::PathBuf;
use vstd::prelude::*;
use vstd::utf8::{decode_utf8, valid_utf8};
use crate::name::{extension_of, stem_of};

verus! {

/// `std::path::Path`, known to verified code by its bytes alone.
#[verifier::external_type_specification]
#[verifier::external_body]
pub struct ExPath(Path);

/// `std::path::PathBuf`, which verified code only carries: it is the value of
/// a successful `canonicalize` or `read_link`.
#[verifier::external_type_specification]
#[verifier::external_body]
pub struct ExPathBuf(PathBuf);

/// The bytes that a path holds, in the platform's encoding (a superset of
/// UTF-8: a path that is valid Unicode holds its UTF-8 bytes).
pub uninterp spec fn path_bytes(path: &Path) -> Seq<u8>;

/// What `Path::parent` yields on a path with these bytes: the path without its
/// final component, or nothing where the path ends in a root or is empty.
pub uninterp spec fn parent_of(path: Seq<u8>) -> Option<Seq<u8>>;

/// What `Path::file_name` yields on a path with these bytes: its final
/// component, or nothing where the path ends in `..` or has no component.
pub uninterp spec fn file_name_of(path: Seq<u8>) -> Option<Seq<u8>>;

/// What `Path::strip_prefix` yields on these two paths: the rest of the path
/// behind `base`, or the message of the error that it returns where `base` is
/// not a prefix.
pub uninterp spec fn strip_prefix_of(path: Seq<u8>, base: Seq<u8>) -> Result<Seq<u8>, Seq<char>>;

/// How a path with these bytes is written in a message: between double
/// quotes, with the escapes of `Debug`.
pub uninterp spec fn quoted(path: Seq<u8>) -> Seq<char>;

/// The bytes of a path that may be absent.
pub open spec fn bytes_of(path: Option<&Path>) -> Option<Seq<u8>> {
    match path {
        Some(path) => Some(path_bytes(path)),
        None => None,
    }
}

/// The stem of the final component, where there is one.
pub open spec fn file_stem_of(path: Seq<u8>) -> Option<Seq<u8>> {
    match file_name_of(path) {
        Some(name) => Some(stem_of(name)),
        None => None,
    }
}

/// The extension of the final component, where it has one.
pub open spec fn file_extension_of(path: Seq<u8>) -> Option<Seq<u8>> {
    match file_name_of(path) {
        Some(name) => extension_of(name),
        None => None,
    }
}

/// Trusted: `Path::to_str`. There is a string exactly when the path's bytes
/// are valid UTF-8, and it is the text that they encode.
#[verifier::external_body]
pub(crate) fn path_to_str(path: &Path) -> (text: Option<&str>)
    ensures
        text is Some <==> valid_utf8(path_bytes(path)),
        text is Some ==> text.unwrap()@ == decode_utf8(path_bytes(path)),
{
    path.to_str()
}

/// Trusted: `Path::parent`.
#[verifier::external_body]
pub(crate) fn path_parent(path: &Path) -> (parent: Option<&Path>)
    ensures
        bytes_of(parent) == parent_of(path_bytes(path)),
{
    path.parent()
}

/// Trusted: `Path::file_name`, the component handed out as a path of its own.
#[verifier::external_body]
pub(crate) fn path_file_name(path: &Path) -> (name: Option<&Path>)
    ensures
        bytes_of(name) == file_name_of(path_bytes(path)),
{
    path.file_name().map(Path::new)
}

/// Trusted: `Path::file_stem`, handed out as a path of its own. By its
/// documentation the stem is that of the file name: the whole name where it
/// holds no dot or only a leading one, else what stands before the last dot.
#[verifier::external_body]
pub(crate) fn path_file_stem(path: &Path) -> (stem: Option<&Path>)
    ensures
        bytes_of(stem) == file_stem_of(path_bytes(path)),
{
    path.file_stem().map(Path::new)
}

/// Trusted: `Path::extension`, handed out as a path of its own. By its
/// documentation there is none where the file name holds no dot or only a
/// leading one; else it is what stands after the last dot.
#[verifier::external_body]
pub(crate) fn path_extension(path: &Path) -> (extension: Option<&Path>)
    ensures
        bytes_of(extension) == file_extension_of(path_bytes(path)),
{
    path.extension().map(Path::new)
}

/// Trusted: `Path::strip_prefix`, its error turned into the message that it
/// displays.
#[verifier::external_body]
pub(crate) fn path_strip_prefix<'a>(path: &'a Path, base: &Path) -> (rest: Result<&'a Path, String>)
    ensures
        match strip_prefix_of(path_bytes(path), path_bytes(base)) {
            Ok(bytes) => rest is Ok && path_bytes(rest.unwrap()) == bytes,
            Err(message) => rest is Err && rest.unwrap_err()@ == message,
        },
{
    path.strip_prefix(base).map_err(|error| error.to_string())
}

/// Trusted: the `Debug` form of `Path::display`.
#[verifier::external_body]
pub(crate) fn path_quoted(path: &Path) -> (text: String)
    ensures
        text@ == quoted(path_bytes(path)),
{
    format!("{:?}", path.display())
}

} // verus!
