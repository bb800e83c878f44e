//! What holds of every call: facts about the queries and about the
//! descriptions of failures, each proved from the contracts of
//! [`PathAnyhow`](crate::path::PathAnyhow).

use std::path::Path;
use vstd::prelude::*;
use crate::context::{
    copying_text, hard_linking_text, lemma_contexts_mention_paths, renaming_text,
    with_prefix_text,
};
use crate::name::{dot, extension_of, lemma_no_extension, lemma_stem_and_extension, stem_of};
use crate::path::{
    annotated, extension_query, file_name_query, file_stem_query, observed_path, observed_text,
    parent_query, prefix_stripped, processing, to_str_query, MISSING_EXTENSION, MISSING_FILENAME,
};
use crate::platform::{file_name_of, quoted};
use crate::render::{
    lemma_mentions_within, lemma_rendered_ends, lemma_rendered_mentions, lemma_rendered_pair,
    lemma_rendered_triple, mentions, rendered,
};

verus! {

/// A query asked twice of the same path answers the same both times: the
/// same bytes, or the same chain of messages.
pub proof fn lemma_path_query_repeats(
    path: Seq<u8>,
    first: Result<&Path, anyhow::Error>,
    second: Result<&Path, anyhow::Error>,
)
    requires
        ({
            ||| observed_path(first) == parent_query(path) && observed_path(second)
                == parent_query(path)
            ||| observed_path(first) == file_name_query(path) && observed_path(second)
                == file_name_query(path)
            ||| observed_path(first) == file_stem_query(path) && observed_path(second)
                == file_stem_query(path)
            ||| observed_path(first) == extension_query(path) && observed_path(second)
                == extension_query(path)
        }),
    ensures
        observed_path(first) == observed_path(second),
{
}

/// The conversion to a string, asked twice of the same path, answers the same
/// both times.
pub proof fn lemma_to_str_repeats(
    path: Seq<u8>,
    first: Result<&str, anyhow::Error>,
    second: Result<&str, anyhow::Error>,
)
    requires
        observed_text(first) == to_str_query(path),
        observed_text(second) == to_str_query(path),
    ensures
        observed_text(first) == observed_text(second),
{
}

/// The stem is there exactly when the file name is: a name without an
/// extension is no failure but its own stem. Where there is no name the
/// cause is the missing file name.
pub proof fn lemma_file_stem_follows_file_name(path: Seq<u8>)
    ensures
        file_stem_query(path) is Ok <==> file_name_query(path) is Ok,
        file_name_of(path) matches Some(name) ==> file_stem_query(path) == Ok::<
            Seq<u8>,
            Seq<Seq<char>>,
        >(stem_of(name)),
        file_name_of(path) matches Some(name) && extension_of(name) is None ==> file_stem_query(
            path,
        ) == file_name_query(path),
        file_name_of(path) is None ==> file_stem_query(path) == Err::<Seq<u8>, Seq<Seq<char>>>(
            seq![processing(path), MISSING_FILENAME@],
        ),
{
}

/// The extension is missing in three cases and no other: the path has no
/// file name, the name holds no dot, or it holds a single dot and begins
/// with it. The cause is the same in all three.
pub proof fn lemma_extension_missing(path: Seq<u8>)
    ensures
        extension_query(path) is Err <==> match file_name_of(path) {
            None => true,
            Some(name) => {
                ||| !name.contains(dot())
                ||| (name.len() > 0 && name[0] == dot() && !name.drop_first().contains(dot()))
            },
        },
        extension_query(path) is Err ==> extension_query(path) == Err::<Seq<u8>, Seq<Seq<char>>>(
            seq![processing(path), MISSING_EXTENSION@],
        ),
{
    match file_name_of(path) {
        Some(name) => lemma_no_extension(name),
        None => {},
    }
}

/// Where a path has an extension, its file name is the stem, a dot and the
/// extension, and the stem is not empty.
pub proof fn lemma_file_name_is_stem_dot_extension(path: Seq<u8>)
    requires
        extension_query(path) is Ok,
    ensures
        file_name_query(path) is Ok,
        file_stem_query(path) is Ok,
        file_name_query(path)->Ok_0 == file_stem_query(path)->Ok_0 + seq![dot()] + extension_query(
            path,
        )->Ok_0,
        file_stem_query(path)->Ok_0.len() > 0,
{
    lemma_stem_and_extension(file_name_of(path)->Some_0);
}

/// A value that a file-system call succeeded with comes back as it was
/// handed in, whatever the context.
pub proof fn lemma_success_untouched<T>(value: T, layers: Seq<Seq<char>>)
    ensures
        annotated(Ok::<T, String>(value), layers) == Ok::<T, Seq<Seq<char>>>(value),
{
}

/// The description of a failure in a path's context is, letter for letter,
/// `while processing path `, the quoted path, `: ` and the cause.
pub proof fn lemma_description_in_path_context(path: Seq<u8>, cause: Seq<char>)
    ensures
        rendered(seq![processing(path), cause]) == "while processing path "@ + quoted(path) + ": "@
            + cause,
{
    lemma_rendered_pair(processing(path), cause);
}

/// The description of a failure in a path's context and one more layer is
/// `while processing path `, the quoted path, `: `, the inner context, `: `
/// and the cause.
pub proof fn lemma_description_in_two_contexts(path: Seq<u8>, inner: Seq<char>, cause: Seq<char>)
    ensures
        rendered(seq![processing(path), inner, cause]) == "while processing path "@ + quoted(path)
            + ": "@ + inner + ": "@ + cause,
{
    lemma_rendered_triple(processing(path), inner, cause);
}

/// The description of a failure in a path's context begins with that
/// context, quotes the path and ends with the cause: the fixed phrase of a
/// query, or the message of the file-system call exactly as it was handed in.
pub proof fn lemma_failure_names_path(links: Seq<Seq<char>>, path: Seq<u8>)
    requires
        links.len() > 0,
        links[0] == processing(path),
    ensures
        processing(path).is_prefix_of(rendered(links)),
        mentions(rendered(links), quoted(path)),
        links.last().is_suffix_of(rendered(links)),
{
    lemma_rendered_ends(links);
    lemma_rendered_mentions(links, 0);
    lemma_contexts_mention_paths(quoted(path), quoted(path));
    lemma_mentions_within(rendered(links), processing(path), quoted(path));
}

/// Whatever a file-system call on a path failed with, the operation fails
/// too, and the description of its error quotes the path and ends with the
/// message of the call.
pub proof fn lemma_failed_call_names_path<T>(outcome: Result<T, String>, path: Seq<u8>)
    requires
        outcome is Err,
    ensures
        annotated(outcome, seq![processing(path)]) is Err,
        ({
            let text = rendered(annotated(outcome, seq![processing(path)])->Err_0);
            &&& mentions(text, quoted(path))
            &&& outcome->Err_0@.is_suffix_of(text)
        }),
{
    let links = annotated(outcome, seq![processing(path)])->Err_0;
    assert(links.last() == outcome->Err_0@);
    lemma_failure_names_path(links, path);
}

/// The description of a failed removal of a prefix quotes the path and the
/// prefix, and ends with the platform's message.
pub proof fn lemma_prefix_failure_names_both(path: Seq<u8>, base: Seq<u8>)
    requires
        prefix_stripped(path, base) is Err,
    ensures
        ({
            let links = prefix_stripped(path, base)->Err_0;
            &&& links.len() == 3
            &&& mentions(rendered(links), quoted(path))
            &&& mentions(rendered(links), quoted(base))
            &&& links.last().is_suffix_of(rendered(links))
        }),
{
    let links = prefix_stripped(path, base)->Err_0;
    lemma_failure_names_path(links, path);
    lemma_rendered_mentions(links, 1);
    lemma_contexts_mention_paths(quoted(base), quoted(base));
    lemma_mentions_within(rendered(links), with_prefix_text(quoted(base)), quoted(base));
}

/// The description of a failed copy, hard link or rename quotes both paths
/// and ends with the message of the call.
pub proof fn lemma_pair_failure_names_both(from: Seq<u8>, to: Seq<u8>, message: Seq<char>)
    ensures
        ({
            let copied = rendered(seq![copying_text(quoted(from), quoted(to)), message]);
            let linked = rendered(seq![hard_linking_text(quoted(from), quoted(to)), message]);
            let renamed = rendered(seq![renaming_text(quoted(from), quoted(to)), message]);
            &&& mentions(copied, quoted(from)) && mentions(copied, quoted(to))
            &&& mentions(linked, quoted(from)) && mentions(linked, quoted(to))
            &&& mentions(renamed, quoted(from)) && mentions(renamed, quoted(to))
            &&& message.is_suffix_of(copied)
            &&& message.is_suffix_of(linked)
            &&& message.is_suffix_of(renamed)
        }),
{
    lemma_contexts_mention_paths(quoted(from), quoted(to));
    lemma_context_and_cause(copying_text(quoted(from), quoted(to)), message, quoted(from));
    lemma_context_and_cause(copying_text(quoted(from), quoted(to)), message, quoted(to));
    lemma_context_and_cause(hard_linking_text(quoted(from), quoted(to)), message, quoted(from));
    lemma_context_and_cause(hard_linking_text(quoted(from), quoted(to)), message, quoted(to));
    lemma_context_and_cause(renaming_text(quoted(from), quoted(to)), message, quoted(from));
    lemma_context_and_cause(renaming_text(quoted(from), quoted(to)), message, quoted(to));
}

/// The description of a context and a cause mentions what the context
/// mentions and ends with the cause.
proof fn lemma_context_and_cause(context: Seq<char>, cause: Seq<char>, part: Seq<char>)
    requires
        mentions(context, part),
    ensures
        mentions(rendered(seq![context, cause]), part),
        cause.is_suffix_of(rendered(seq![context, cause])),
{
    let links = seq![context, cause];
    lemma_rendered_ends(links);
    lemma_rendered_mentions(links, 0);
    lemma_mentions_within(rendered(links), context, part);
}

} // verus!
