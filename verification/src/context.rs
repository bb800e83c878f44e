//! The context messages: for each kind of operation, the sentence that says
//! what was being done and to which path.
//!
//! A path enters a message already quoted, so every function here works on
//! plain text.

use vstd::prelude::*;
use crate::render::{lemma_mentions_middle, mentions};

verus! {

/// Context of an operation on one path.
pub open spec fn processing_path_text(path: Seq<char>) -> Seq<char> {
    "while processing path "@ + path
}

/// Context of the removal of a prefix from a path.
pub open spec fn with_prefix_text(base: Seq<char>) -> Seq<char> {
    "with prefix "@ + base
}

/// Context of a copy.
pub open spec fn copying_text(from: Seq<char>, to: Seq<char>) -> Seq<char> {
    "while copying "@ + from + " to "@ + to
}

/// Context of the creation of a hard link.
pub open spec fn hard_linking_text(from: Seq<char>, link: Seq<char>) -> Seq<char> {
    "while hard-linking "@ + from + " to "@ + link
}

/// Context of a rename.
pub open spec fn renaming_text(from: Seq<char>, to: Seq<char>) -> Seq<char> {
    "while renaming "@ + from + " to "@ + to
}

/// How a flag is written in a message.
pub open spec fn flag_text(flag: bool) -> Seq<char> {
    if flag {
        "true"@
    } else {
        "false"@
    }
}

/// Context of a change of the read-only permission.
pub open spec fn with_readonly_permission_text(readonly: bool) -> Seq<char> {
    "with readonly permission "@ + flag_text(readonly)
}

/// Every context mentions, unbroken, each path that it was made for.
pub proof fn lemma_contexts_mention_paths(first: Seq<char>, second: Seq<char>)
    ensures
        mentions(processing_path_text(first), first),
        mentions(with_prefix_text(first), first),
        mentions(copying_text(first, second), first),
        mentions(copying_text(first, second), second),
        mentions(hard_linking_text(first, second), first),
        mentions(hard_linking_text(first, second), second),
        mentions(renaming_text(first, second), first),
        mentions(renaming_text(first, second), second),
{
    let none = Seq::<char>::empty();
    lemma_mentions_middle("while processing path "@, first, none);
    assert("while processing path "@ + first + none =~= processing_path_text(first));
    lemma_mentions_middle("with prefix "@, first, none);
    assert("with prefix "@ + first + none =~= with_prefix_text(first));
    lemma_pair_mentions("while copying "@, first, second);
    lemma_pair_mentions("while hard-linking "@, first, second);
    lemma_pair_mentions("while renaming "@, first, second);
}

/// A context for two paths mentions both.
proof fn lemma_pair_mentions(lead: Seq<char>, first: Seq<char>, second: Seq<char>)
    ensures
        mentions(lead + first + " to "@ + second, first),
        mentions(lead + first + " to "@ + second, second),
{
    let text = lead + first + " to "@ + second;
    lemma_mentions_middle(lead, first, " to "@ + second);
    assert(lead + first + (" to "@ + second) =~= text);
    lemma_mentions_middle(lead + first + " to "@, second, Seq::empty());
    assert(lead + first + " to "@ + second + Seq::<char>::empty() =~= text);
}

/// `lead` followed by `rest`.
fn join2(lead: &str, rest: &str) -> (text: String)
    ensures
        text@ == lead@ + rest@,
{
    let mut text = lead.to_owned();
    text.append(rest);
    text
}

/// `lead`, `first`, `" to "` and `second`, in that order.
fn join_pair(lead: &str, first: &str, second: &str) -> (text: String)
    ensures
        text@ == lead@ + first@ + " to "@ + second@,
{
    let mut text = join2(lead, first);
    text.append(" to ");
    text.append(second);
    text
}

/// The context of an operation on the path that is quoted as `path`.
pub fn processing_path_context(path: &str) -> (context: String)
    ensures
        context@ == processing_path_text(path@),
{
    join2("while processing path ", path)
}

/// The context of the removal of the prefix that is quoted as `base`.
pub fn with_prefix_context(base: &str) -> (context: String)
    ensures
        context@ == with_prefix_text(base@),
{
    join2("with prefix ", base)
}

/// The context of a copy between the paths quoted as `from` and `to`.
pub fn copying_context(from: &str, to: &str) -> (context: String)
    ensures
        context@ == copying_text(from@, to@),
{
    join_pair("while copying ", from, to)
}

/// The context of a hard link from the path quoted as `from` to `link`.
pub fn hard_linking_context(from: &str, link: &str) -> (context: String)
    ensures
        context@ == hard_linking_text(from@, link@),
{
    join_pair("while hard-linking ", from, link)
}

/// The context of a rename between the paths quoted as `from` and `to`.
pub fn renaming_context(from: &str, to: &str) -> (context: String)
    ensures
        context@ == renaming_text(from@, to@),
{
    join_pair("while renaming ", from, to)
}

/// The context of a change of the read-only permission to `readonly`.
pub fn with_readonly_permission_context(readonly: bool) -> (context: String)
    ensures
        context@ == with_readonly_permission_text(readonly),
{
    let flag = if readonly {
        "true"
    } else {
        "false"
    };
    join2("with readonly permission ", flag)
}

} // verus!
