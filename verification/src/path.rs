//! [`PathAnyhow`]: the queries of a path, and the outcomes of file-system
//! calls on it, with errors that name the path.
//!
//! A query that finds nothing fails with a fixed phrase as its cause. A
//! file-system call is made by the caller, who hands its outcome in with the
//! failure's message as plain text; the value of a success is handed back
//! untouched. Every error is wrapped in a context that quotes the path, or
//! both paths of a call on two.

use std::path::Path;
use std::path::PathBuf;
use vstd::prelude::*;
use vstd::utf8::{decode_utf8, valid_utf8};
use crate::chain::{chain, failure, nested_failure, observed};
use crate::context::{
    copying_context, copying_text, hard_linking_context, hard_linking_text,
    processing_path_context, processing_path_text, renaming_context, renaming_text,
    with_prefix_context, with_prefix_text, with_readonly_permission_context,
    with_readonly_permission_text,
};
use crate::platform::{
    file_extension_of, file_name_of, file_stem_of, parent_of, path_bytes, path_extension,
    path_file_name, path_file_stem, path_parent, path_quoted, path_strip_prefix, path_to_str,
    quoted, strip_prefix_of,
};

verus! {

/// Cause of a failed `to_str_anyhow`.
pub const INVALID_UTF8: &'static str = "invalid UTF8";

/// Cause of a failed `parent_anyhow`.
pub const EXPECTED_PARENT: &'static str = "expected parent directory";

/// Cause of a failed `file_name_anyhow` or `file_stem_anyhow`.
pub const MISSING_FILENAME: &'static str = "missing expected filename";

/// Cause of a failed `extension_anyhow`.
pub const MISSING_EXTENSION: &'static str = "missing expected extension";

/// The text of a path, where its bytes are valid UTF-8.
pub open spec fn text_of(path: Seq<u8>) -> Option<Seq<char>> {
    if valid_utf8(path) {
        Some(decode_utf8(path))
    } else {
        None
    }
}

/// The context of an operation on the path with these bytes.
pub open spec fn processing(path: Seq<u8>) -> Seq<char> {
    processing_path_text(quoted(path))
}

/// The outcome of a query on `path` that found `value`: the value where there
/// is one, else the chain of `phrase` in the path's context.
pub open spec fn found<T>(value: Option<T>, path: Seq<u8>, phrase: Seq<char>) -> Result<
    T,
    Seq<Seq<char>>,
> {
    match value {
        Some(value) => Ok(value),
        None => Err(seq![processing(path), phrase]),
    }
}

/// What `to_str_anyhow` answers on the path with these bytes.
pub open spec fn to_str_query(path: Seq<u8>) -> Result<Seq<char>, Seq<Seq<char>>> {
    found(text_of(path), path, INVALID_UTF8@)
}

/// What `parent_anyhow` answers on the path with these bytes.
pub open spec fn parent_query(path: Seq<u8>) -> Result<Seq<u8>, Seq<Seq<char>>> {
    found(parent_of(path), path, EXPECTED_PARENT@)
}

/// What `file_name_anyhow` answers on the path with these bytes.
pub open spec fn file_name_query(path: Seq<u8>) -> Result<Seq<u8>, Seq<Seq<char>>> {
    found(file_name_of(path), path, MISSING_FILENAME@)
}

/// What `file_stem_anyhow` answers on the path with these bytes.
pub open spec fn file_stem_query(path: Seq<u8>) -> Result<Seq<u8>, Seq<Seq<char>>> {
    found(file_stem_of(path), path, MISSING_FILENAME@)
}

/// What `extension_anyhow` answers on the path with these bytes.
pub open spec fn extension_query(path: Seq<u8>) -> Result<Seq<u8>, Seq<Seq<char>>> {
    found(file_extension_of(path), path, MISSING_EXTENSION@)
}

/// The outcome of a call that was made in the given layers of context,
/// outermost first: the value of a success, else the layers followed by the
/// failure's message.
pub open spec fn annotated<T>(outcome: Result<T, String>, layers: Seq<Seq<char>>) -> Result<
    T,
    Seq<Seq<char>>,
> {
    match outcome {
        Ok(value) => Ok(value),
        Err(message) => Err(layers.push(message@)),
    }
}

/// The outcome of the removal of the prefix `base` from `path`.
pub open spec fn prefix_stripped(path: Seq<u8>, base: Seq<u8>) -> Result<Seq<u8>, Seq<Seq<char>>> {
    match strip_prefix_of(path, base) {
        Ok(rest) => Ok(rest),
        Err(message) => Err(seq![processing(path), with_prefix_text(quoted(base)), message]),
    }
}

/// What a caller can tell of a result that holds a path: its bytes on
/// success, the error's chain on failure.
pub open spec fn observed_path(result: Result<&Path, anyhow::Error>) -> Result<
    Seq<u8>,
    Seq<Seq<char>>,
> {
    match result {
        Ok(path) => Ok(path_bytes(path)),
        Err(error) => Err(chain(error)),
    }
}

/// What a caller can tell of a result that holds a string: its text on
/// success, the error's chain on failure.
pub open spec fn observed_text(result: Result<&str, anyhow::Error>) -> Result<
    Seq<char>,
    Seq<Seq<char>>,
> {
    match result {
        Ok(text) => Ok(text@),
        Err(error) => Err(chain(error)),
    }
}

/// The outcome of a query on `path`, from what the platform found: the value
/// where there is one, else an error with `phrase` as its cause, in the
/// path's context.
pub fn found_or_missing<T>(path: &Path, value: Option<T>, phrase: &str) -> (result: Result<
    T,
    anyhow::Error,
>)
    ensures
        observed(result) == found(value, path_bytes(path), phrase@),
{
    match value {
        Some(value) => Ok(value),
        None => {
            let quoted_path = path_quoted(path);
            Err(failure(phrase.to_owned(), processing_path_context(quoted_path.as_str())))
        },
    }
}

/// A failed call, in one layer of context.
fn failed<T>(message: String, context: String) -> (result: Result<T, anyhow::Error>)
    ensures
        observed(result) == annotated(Err::<T, String>(message), seq![context@]),
{
    let error = failure(message, context);
    assert(seq![context@].push(message@) =~= seq![context@, message@]);
    Err(error)
}

/// A failed call, in two layers of context.
fn failed_within<T>(message: String, inner: String, outer: String) -> (result: Result<
    T,
    anyhow::Error,
>)
    ensures
        observed(result) == annotated(Err::<T, String>(message), seq![outer@, inner@]),
{
    let error = nested_failure(message, inner, outer);
    assert(seq![outer@, inner@].push(message@) =~= seq![outer@, inner@, message@]);
    Err(error)
}

/// The outcome of a file-system call on `path`, from what the platform
/// reported: the value of a success, else an error with the failure's
/// message as its cause, in the path's context.
pub fn annotate<T>(path: &Path, outcome: Result<T, String>) -> (result: Result<T, anyhow::Error>)
    ensures
        observed(result) == annotated(outcome, seq![processing(path_bytes(path))]),
{
    match outcome {
        Ok(value) => Ok(value),
        Err(message) => {
            let quoted_path = path_quoted(path);
            failed(message, processing_path_context(quoted_path.as_str()))
        },
    }
}

/// The first step of a change of the read-only permission, after the
/// caller has fetched the path's metadata: a failed fetch ends the change
/// with the failure in the path's context; else the change goes on with the
/// metadata and the bit to store in its permissions.
///
/// The bit is always set: the change makes a path read-only and can not make
/// it writable again. What the caller asked for shows only in the context of
/// a failure to store, which [`PathAnyhow::set_readonly_anyhow`] reports.
pub fn set_readonly_plan<M>(path: &Path, fetched: Result<M, String>) -> (plan: Result<
    (M, bool),
    anyhow::Error,
>)
    ensures
        observed(plan) == annotated(
            match fetched {
                Ok(metadata) => Ok((metadata, true)),
                Err(message) => Err(message),
            },
            seq![processing(path_bytes(path))],
        ),
{
    match annotate(path, fetched) {
        Ok(metadata) => Ok((metadata, true)),
        Err(error) => Err(error),
    }
}

/// Queries and file-system outcomes with errors that name the path.
pub trait PathAnyhow {
    /// The bytes of this path.
    spec fn bytes(&self) -> Seq<u8>;

    /// The path as a string; fails with `invalid UTF8` where it is none.
    fn to_str_anyhow(&self) -> (result: Result<&str, anyhow::Error>)
        ensures
            observed_text(result) == to_str_query(self.bytes()),
    ;

    /// The path without its final component; fails with
    /// `expected parent directory` where it has none.
    fn parent_anyhow(&self) -> (result: Result<&Path, anyhow::Error>)
        ensures
            observed_path(result) == parent_query(self.bytes()),
    ;

    /// The final component; fails with `missing expected filename` where
    /// there is none.
    fn file_name_anyhow(&self) -> (result: Result<&Path, anyhow::Error>)
        ensures
            observed_path(result) == file_name_query(self.bytes()),
    ;

    /// The rest of the path behind `base`; fails with the platform's message
    /// in the contexts of the prefix and of the path where `base` is no
    /// prefix.
    fn strip_prefix_anyhow(&self, base: &Path) -> (result: Result<&Path, anyhow::Error>)
        ensures
            observed_path(result) == prefix_stripped(self.bytes(), path_bytes(base)),
    ;

    /// The stem of the final component; fails with
    /// `missing expected filename` where there is no such component.
    fn file_stem_anyhow(&self) -> (result: Result<&Path, anyhow::Error>)
        ensures
            observed_path(result) == file_stem_query(self.bytes()),
    ;

    /// The extension of the final component; fails with
    /// `missing expected extension` where it has none.
    fn extension_anyhow(&self) -> (result: Result<&Path, anyhow::Error>)
        ensures
            observed_path(result) == extension_query(self.bytes()),
    ;

    /// The outcome of a metadata query on this path.
    fn metadata_anyhow<M>(&self, outcome: Result<M, String>) -> (result: Result<M, anyhow::Error>)
        ensures
            observed(result) == annotated(outcome, seq![processing(self.bytes())]),
    ;

    /// The outcome of a metadata query that does not follow symbolic links.
    fn symlink_metadata_anyhow<M>(&self, outcome: Result<M, String>) -> (result: Result<
        M,
        anyhow::Error,
    >)
        ensures
            observed(result) == annotated(outcome, seq![processing(self.bytes())]),
    ;

    /// The outcome of making this path canonical.
    fn canonicalize_anyhow(&self, outcome: Result<PathBuf, String>) -> (result: Result<
        PathBuf,
        anyhow::Error,
    >)
        ensures
            observed(result) == annotated(outcome, seq![processing(self.bytes())]),
    ;

    /// The outcome of reading this symbolic link.
    fn read_link_anyhow(&self, outcome: Result<PathBuf, String>) -> (result: Result<
        PathBuf,
        anyhow::Error,
    >)
        ensures
            observed(result) == annotated(outcome, seq![processing(self.bytes())]),
    ;

    /// The outcome of opening this directory for listing.
    fn read_dir_anyhow<D>(&self, outcome: Result<D, String>) -> (result: Result<D, anyhow::Error>)
        ensures
            observed(result) == annotated(outcome, seq![processing(self.bytes())]),
    ;

    /// The outcome of copying this file to `to`; a failure names both paths.
    fn copy_anyhow(&self, to: &Path, outcome: Result<u64, String>) -> (result: Result<
        u64,
        anyhow::Error,
    >)
        ensures
            observed(result) == annotated(
                outcome,
                seq![copying_text(quoted(self.bytes()), quoted(path_bytes(to)))],
            ),
    ;

    /// The outcome of creating this directory.
    fn create_dir_anyhow(&self, outcome: Result<(), String>) -> (result: Result<(), anyhow::Error>)
        ensures
            observed(result) == annotated(outcome, seq![processing(self.bytes())]),
    ;

    /// The outcome of creating this directory and its missing ancestors.
    fn create_dir_all_anyhow(&self, outcome: Result<(), String>) -> (result: Result<
        (),
        anyhow::Error,
    >)
        ensures
            observed(result) == annotated(outcome, seq![processing(self.bytes())]),
    ;

    /// The outcome of linking `link` to this file; a failure names both paths.
    fn hard_link_anyhow(&self, link: &Path, outcome: Result<(), String>) -> (result: Result<
        (),
        anyhow::Error,
    >)
        ensures
            observed(result) == annotated(
                outcome,
                seq![hard_linking_text(quoted(self.bytes()), quoted(path_bytes(link)))],
            ),
    ;

    /// The outcome of reading this file's bytes.
    fn read_anyhow(&self, outcome: Result<Vec<u8>, String>) -> (result: Result<
        Vec<u8>,
        anyhow::Error,
    >)
        ensures
            observed(result) == annotated(outcome, seq![processing(self.bytes())]),
    ;

    /// The outcome of reading this file as a string.
    fn read_to_string_anyhow(&self, outcome: Result<String, String>) -> (result: Result<
        String,
        anyhow::Error,
    >)
        ensures
            observed(result) == annotated(outcome, seq![processing(self.bytes())]),
    ;

    /// The outcome of removing this empty directory.
    fn remove_dir_anyhow(&self, outcome: Result<(), String>) -> (result: Result<(), anyhow::Error>)
        ensures
            observed(result) == annotated(outcome, seq![processing(self.bytes())]),
    ;

    /// The outcome of removing this directory and all it holds.
    fn remove_dir_all_anyhow(&self, outcome: Result<(), String>) -> (result: Result<
        (),
        anyhow::Error,
    >)
        ensures
            observed(result) == annotated(outcome, seq![processing(self.bytes())]),
    ;

    /// The outcome of removing this file.
    fn remove_file_anyhow(&self, outcome: Result<(), String>) -> (result: Result<
        (),
        anyhow::Error,
    >)
        ensures
            observed(result) == annotated(outcome, seq![processing(self.bytes())]),
    ;

    /// The outcome of renaming this path to `to`; a failure names both paths.
    fn rename_anyhow(&self, to: &Path, outcome: Result<(), String>) -> (result: Result<
        (),
        anyhow::Error,
    >)
        ensures
            observed(result) == annotated(
                outcome,
                seq![renaming_text(quoted(self.bytes()), quoted(path_bytes(to)))],
            ),
    ;

    /// The outcome of storing this path's permissions, the last step of the
    /// change that [`set_readonly_plan`] begins; a failure says what was
    /// asked for, in the path's context.
    fn set_readonly_anyhow(&self, readonly: bool, outcome: Result<(), String>) -> (result: Result<
        (),
        anyhow::Error,
    >)
        ensures
            observed(result) == annotated(
                outcome,
                seq![processing(self.bytes()), with_readonly_permission_text(readonly)],
            ),
    ;

    /// The outcome of writing this file.
    fn write_anyhow(&self, outcome: Result<(), String>) -> (result: Result<(), anyhow::Error>)
        ensures
            observed(result) == annotated(outcome, seq![processing(self.bytes())]),
    ;
}

impl PathAnyhow for Path {
    open spec fn bytes(&self) -> Seq<u8> {
        path_bytes(self)
    }

    fn to_str_anyhow(&self) -> (result: Result<&str, anyhow::Error>) {
        found_or_missing(self, path_to_str(self), INVALID_UTF8)
    }

    fn parent_anyhow(&self) -> (result: Result<&Path, anyhow::Error>) {
        found_or_missing(self, path_parent(self), EXPECTED_PARENT)
    }

    fn file_name_anyhow(&self) -> (result: Result<&Path, anyhow::Error>) {
        found_or_missing(self, path_file_name(self), MISSING_FILENAME)
    }

    fn strip_prefix_anyhow(&self, base: &Path) -> (result: Result<&Path, anyhow::Error>) {
        match path_strip_prefix(self, base) {
            Ok(rest) => Ok(rest),
            Err(message) => {
                let quoted_base = path_quoted(base);
                let quoted_path = path_quoted(self);
                Err(
                    nested_failure(
                        message,
                        with_prefix_context(quoted_base.as_str()),
                        processing_path_context(quoted_path.as_str()),
                    ),
                )
            },
        }
    }

    fn file_stem_anyhow(&self) -> (result: Result<&Path, anyhow::Error>) {
        found_or_missing(self, path_file_stem(self), MISSING_FILENAME)
    }

    fn extension_anyhow(&self) -> (result: Result<&Path, anyhow::Error>) {
        found_or_missing(self, path_extension(self), MISSING_EXTENSION)
    }

    fn metadata_anyhow<M>(&self, outcome: Result<M, String>) -> (result: Result<M, anyhow::Error>) {
        annotate(self, outcome)
    }

    fn symlink_metadata_anyhow<M>(&self, outcome: Result<M, String>) -> (result: Result<
        M,
        anyhow::Error,
    >) {
        annotate(self, outcome)
    }

    fn canonicalize_anyhow(&self, outcome: Result<PathBuf, String>) -> (result: Result<
        PathBuf,
        anyhow::Error,
    >) {
        annotate(self, outcome)
    }

    fn read_link_anyhow(&self, outcome: Result<PathBuf, String>) -> (result: Result<
        PathBuf,
        anyhow::Error,
    >) {
        annotate(self, outcome)
    }

    fn read_dir_anyhow<D>(&self, outcome: Result<D, String>) -> (result: Result<D, anyhow::Error>) {
        annotate(self, outcome)
    }

    fn copy_anyhow(&self, to: &Path, outcome: Result<u64, String>) -> (result: Result<
        u64,
        anyhow::Error,
    >) {
        match outcome {
            Ok(copied) => Ok(copied),
            Err(message) => {
                let quoted_from = path_quoted(self);
                let quoted_to = path_quoted(to);
                failed(message, copying_context(quoted_from.as_str(), quoted_to.as_str()))
            },
        }
    }

    fn create_dir_anyhow(&self, outcome: Result<(), String>) -> (result: Result<
        (),
        anyhow::Error,
    >) {
        annotate(self, outcome)
    }

    fn create_dir_all_anyhow(&self, outcome: Result<(), String>) -> (result: Result<
        (),
        anyhow::Error,
    >) {
        annotate(self, outcome)
    }

    fn hard_link_anyhow(&self, link: &Path, outcome: Result<(), String>) -> (result: Result<
        (),
        anyhow::Error,
    >) {
        match outcome {
            Ok(done) => Ok(done),
            Err(message) => {
                let quoted_from = path_quoted(self);
                let quoted_link = path_quoted(link);
                failed(message, hard_linking_context(quoted_from.as_str(), quoted_link.as_str()))
            },
        }
    }

    fn read_anyhow(&self, outcome: Result<Vec<u8>, String>) -> (result: Result<
        Vec<u8>,
        anyhow::Error,
    >) {
        annotate(self, outcome)
    }

    fn read_to_string_anyhow(&self, outcome: Result<String, String>) -> (result: Result<
        String,
        anyhow::Error,
    >) {
        annotate(self, outcome)
    }

    fn remove_dir_anyhow(&self, outcome: Result<(), String>) -> (result: Result<
        (),
        anyhow::Error,
    >) {
        annotate(self, outcome)
    }

    fn remove_dir_all_anyhow(&self, outcome: Result<(), String>) -> (result: Result<
        (),
        anyhow::Error,
    >) {
        annotate(self, outcome)
    }

    fn remove_file_anyhow(&self, outcome: Result<(), String>) -> (result: Result<
        (),
        anyhow::Error,
    >) {
        annotate(self, outcome)
    }

    fn rename_anyhow(&self, to: &Path, outcome: Result<(), String>) -> (result: Result<
        (),
        anyhow::Error,
    >) {
        match outcome {
            Ok(done) => Ok(done),
            Err(message) => {
                let quoted_from = path_quoted(self);
                let quoted_to = path_quoted(to);
                failed(message, renaming_context(quoted_from.as_str(), quoted_to.as_str()))
            },
        }
    }

    fn set_readonly_anyhow(&self, readonly: bool, outcome: Result<(), String>) -> (result: Result<
        (),
        anyhow::Error,
    >) {
        match outcome {
            Ok(done) => Ok(done),
            Err(message) => {
                let quoted_path = path_quoted(self);
                failed_within(
                    message,
                    with_readonly_permission_context(readonly),
                    processing_path_context(quoted_path.as_str()),
                )
            },
        }
    }

    fn write_anyhow(&self, outcome: Result<(), String>) -> (result: Result<(), anyhow::Error>) {
        annotate(self, outcome)
    }
}

} // verus!
