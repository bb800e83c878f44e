//! The one-line description of an error: the messages of its chain, outermost
//! first, with `": "` between neighbours and nothing after the root cause.

use vstd::prelude::*;
use crate::chain::{chain, chain_messages, messages};

verus! {

/// The text between two neighbouring messages of a description.
pub open spec fn separator() -> Seq<char> {
    ": "@
}

/// The description of a chain of messages.
pub open spec fn rendered(links: Seq<Seq<char>>) -> Seq<char>
    decreases links.len(),
{
    if links.len() == 0 {
        Seq::empty()
    } else if links.len() == 1 {
        links[0]
    } else {
        rendered(links.drop_last()) + separator() + links.last()
    }
}

/// `part` stands in `text` at offset `at`.
pub open spec fn occurs_at(text: Seq<char>, part: Seq<char>, at: int) -> bool {
    &&& 0 <= at
    &&& at + part.len() <= text.len()
    &&& text.subrange(at, at + part.len()) == part
}

/// `part` stands somewhere in `text`, unbroken.
pub open spec fn mentions(text: Seq<char>, part: Seq<char>) -> bool {
    exists|at: int| occurs_at(text, part, at)
}

/// A context and a cause are described as `context: cause`.
pub proof fn lemma_rendered_pair(context: Seq<char>, cause: Seq<char>)
    ensures
        rendered(seq![context, cause]) == context + separator() + cause,
{
    let links = seq![context, cause];
    assert(links.drop_last() =~= seq![context]);
    assert(rendered(links.drop_last()) == context);
}

/// Two contexts and a cause are described as `outer: inner: cause`.
pub proof fn lemma_rendered_triple(outer: Seq<char>, inner: Seq<char>, cause: Seq<char>)
    ensures
        rendered(seq![outer, inner, cause]) == outer + separator() + inner + separator() + cause,
{
    let links = seq![outer, inner, cause];
    assert(links.drop_last() =~= seq![outer, inner]);
    lemma_rendered_pair(outer, inner);
}

/// What is mentioned in a part of a text is mentioned in the text.
pub proof fn lemma_mentions_within(text: Seq<char>, part: Seq<char>, inner: Seq<char>)
    requires
        mentions(text, part),
        mentions(part, inner),
    ensures
        mentions(text, inner),
{
    let outer_at = choose|at: int| occurs_at(text, part, at);
    let inner_at = choose|at: int| occurs_at(part, inner, at);
    assert(text.subrange(outer_at + inner_at, outer_at + inner_at + inner.len()) =~= text.subrange(
        outer_at,
        outer_at + part.len(),
    ).subrange(inner_at, inner_at + inner.len()));
    assert(occurs_at(text, inner, outer_at + inner_at));
}

/// A text mentions what it is made of: in `before + part + after`, `part`
/// stands at the length of `before`.
pub proof fn lemma_mentions_middle(before: Seq<char>, part: Seq<char>, after: Seq<char>)
    ensures
        mentions(before + part + after, part),
{
    let text = before + part + after;
    assert(text.subrange(before.len() as int, (before.len() + part.len()) as int) =~= part);
    assert(occurs_at(text, part, before.len() as int));
}

/// A description begins with the outermost message and ends with the root
/// cause.
pub proof fn lemma_rendered_ends(links: Seq<Seq<char>>)
    requires
        links.len() > 0,
    ensures
        links[0].is_prefix_of(rendered(links)),
        links.last().is_suffix_of(rendered(links)),
    decreases links.len(),
{
    if links.len() > 1 {
        let front = links.drop_last();
        lemma_rendered_ends(front);
        let text = rendered(links);
        assert(front[0] == links[0]);
        assert(text.subrange(0, links[0].len() as int) =~= rendered(front).subrange(
            0,
            links[0].len() as int,
        ));
        assert(text.subrange(text.len() - links.last().len(), text.len() as int) =~= links.last());
    } else {
        assert(links[0].subrange(0, links[0].len() as int) =~= links[0]);
    }
}

/// A description mentions every message of the chain.
pub proof fn lemma_rendered_mentions(links: Seq<Seq<char>>, at: int)
    requires
        0 <= at < links.len(),
    ensures
        mentions(rendered(links), links[at]),
    decreases links.len(),
{
    if links.len() == 1 {
        lemma_mentions_middle(Seq::empty(), links[0], Seq::empty());
        assert(Seq::<char>::empty() + links[0] + Seq::<char>::empty() =~= links[0]);
    } else {
        let front = links.drop_last();
        if at == links.len() - 1 {
            lemma_mentions_middle(rendered(front) + separator(), links.last(), Seq::empty());
            assert(rendered(front) + separator() + links.last() + Seq::<char>::empty() =~= rendered(
                links,
            ));
        } else {
            lemma_rendered_mentions(front, at);
            assert(front[at] == links[at]);
            lemma_mentions_middle(Seq::empty(), rendered(front), separator() + links.last());
            assert(Seq::<char>::empty() + rendered(front) + (separator() + links.last())
                =~= rendered(links));
            lemma_mentions_within(rendered(links), rendered(front), links[at]);
        }
    }
}

/// The description of an error, as `anyhow` prints it in its alternate form.
pub fn describe(error: &anyhow::Error) -> (text: String)
    ensures
        text@ == rendered(chain(*error)),
{
    let links = chain_messages(error);
    let mut text = String::new();
    let mut done: usize = 0;
    while done < links.len()
        invariant
            done <= links.len(),
            text@ == rendered(messages(links@).take(done as int)),
        decreases links.len() - done,
    {
        let ghost before = messages(links@).take(done as int);
        let ghost after = messages(links@).take(done + 1);
        assert(after.drop_last() =~= before);
        assert(after.last() == links@[done as int]@);
        if done > 0 {
            text.append(": ");
        }
        text.append(links[done].as_str());
        done = done + 1;
    }
    assert(messages(links@).take(done as int) =~= messages(links@));
    text
}

} // verus!
