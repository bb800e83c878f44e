//! The error chain: an [`anyhow::Error`] seen as the sequence of messages that
//! its links display, outermost context first and root cause last.
//!
//! Everything the rest of the crate says about an error is said about that
//! sequence. The three calls into `anyhow` that the crate makes stand here, each
//! behind a private function whose contract is taken on trust.

use vstd::prelude::*;

verus! {

/// `anyhow::Error`, which verified code builds through the functions below
/// and otherwise only carries.
#[verifier::external_type_specification]
#[verifier::external_body]
pub struct ExError(anyhow::Error);

/// The messages held by an error, in the order in which `anyhow::Error::chain`
/// walks its links: `chain(e)[0]` is what `e` itself displays, the last entry
/// is what the root cause displays.
pub uninterp spec fn chain(error: anyhow::Error) -> Seq<Seq<char>>;

/// The messages of a list of owned strings.
pub open spec fn messages(links: Seq<String>) -> Seq<Seq<char>> {
    Seq::new(links.len(), |i: int| links[i]@)
}

/// What a caller can tell of a result: the value on success, the error's chain
/// on failure.
pub open spec fn observed<T>(result: Result<T, anyhow::Error>) -> Result<T, Seq<Seq<char>>> {
    match result {
        Ok(value) => Ok(value),
        Err(error) => Err(chain(error)),
    }
}

/// Trusted: `anyhow::Error::msg` on an owned string. The new error has a single
/// link, which displays the string, and no source.
#[verifier::external_body]
fn message_error(message: String) -> (error: anyhow::Error)
    ensures
        chain(error) == seq![message@],
{
    anyhow::Error::msg(message)
}

/// Trusted: `anyhow::Error::context` with an owned string. The context becomes
/// the new outermost link and the links of `error` follow it unchanged.
#[verifier::external_body]
fn context_error(error: anyhow::Error, context: String) -> (wrapped: anyhow::Error)
    ensures
        chain(wrapped) == seq![context@] + chain(error),
{
    error.context(context)
}

/// Trusted: `anyhow::Error::chain`, each link turned into the string that it
/// displays.
#[verifier::external_body]
pub(crate) fn chain_messages(error: &anyhow::Error) -> (links: Vec<String>)
    ensures
        messages(links@) == chain(*error),
{
    error.chain().map(|link| link.to_string()).collect()
}

/// An error whose root cause is `cause`, wrapped in one layer of context.
pub fn failure(cause: String, context: String) -> (error: anyhow::Error)
    ensures
        chain(error) == seq![context@, cause@],
{
    let error = context_error(message_error(cause), context);
    assert(seq![context@] + seq![cause@] =~= seq![context@, cause@]);
    error
}

/// An error whose root cause is `cause`, wrapped in two layers of context:
/// `inner` next to the cause, `outer` around both.
pub fn nested_failure(cause: String, inner: String, outer: String) -> (error: anyhow::Error)
    ensures
        chain(error) == seq![outer@, inner@, cause@],
{
    let error = context_error(failure(cause, inner), outer);
    assert(seq![outer@] + seq![inner@, cause@] =~= seq![outer@, inner@, cause@]);
    error
}

} // verus!
