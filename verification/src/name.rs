//! How a file name splits into stem and extension.
//!
//! A file name is the sequence of bytes of a path's final component. The split
//! is made at the last dot, unless that dot is the name's first byte: a name
//! such as `.profile` has no extension and is its own stem.

use vstd::prelude::*;

verus! {

/// The byte `.`.
pub open spec fn dot() -> u8 {
    0x2e
}

/// The position of the last dot of `name`, if it has one.
pub open spec fn last_dot(name: Seq<u8>) -> Option<int>
    decreases name.len(),
{
    if name.len() == 0 {
        None
    } else if name.last() == dot() {
        Some(name.len() - 1)
    } else {
        last_dot(name.drop_last())
    }
}

/// The position at which `name` splits: that of its last dot, unless the name
/// has none or begins with it.
pub open spec fn split_point(name: Seq<u8>) -> Option<int> {
    match last_dot(name) {
        Some(at) if at > 0 => Some(at),
        _ => None,
    }
}

/// The stem of a file name: what stands before the split point, or the whole
/// name where it does not split.
pub open spec fn stem_of(name: Seq<u8>) -> Seq<u8> {
    match split_point(name) {
        Some(at) => name.subrange(0, at),
        None => name,
    }
}

/// The extension of a file name: what stands after the split point.
pub open spec fn extension_of(name: Seq<u8>) -> Option<Seq<u8>> {
    match split_point(name) {
        Some(at) => Some(name.subrange(at + 1, name.len() as int)),
        None => None,
    }
}

/// `last_dot` finds a dot exactly when there is one, and no dot follows the
/// one it finds.
pub proof fn lemma_last_dot(name: Seq<u8>)
    ensures
        match last_dot(name) {
            Some(at) => {
                &&& 0 <= at < name.len()
                &&& name[at] == dot()
                &&& forall|later: int| at < later < name.len() ==> name[later] != dot()
            },
            None => forall|any: int| 0 <= any < name.len() ==> name[any] != dot(),
        },
    decreases name.len(),
{
    if name.len() > 0 && name.last() != dot() {
        let shorter = name.drop_last();
        lemma_last_dot(shorter);
        assert forall|at: int| 0 <= at < shorter.len() implies shorter[at] == name[at] by {}
    }
}

/// A name with an extension is its stem, a dot and the extension; a name
/// without one is its stem.
pub proof fn lemma_stem_and_extension(name: Seq<u8>)
    ensures
        match extension_of(name) {
            Some(extension) => {
                &&& name == stem_of(name) + seq![dot()] + extension
                &&& stem_of(name).len() > 0
                &&& !extension.contains(dot())
            },
            None => stem_of(name) == name,
        },
{
    lemma_last_dot(name);
    match extension_of(name) {
        Some(extension) => {
            let at = split_point(name).unwrap();
            assert(name =~= stem_of(name) + seq![dot()] + extension);
            assert forall|i: int| 0 <= i < extension.len() implies extension[i] != dot() by {
                assert(extension[i] == name[at + 1 + i]);
            }
        },
        None => {},
    }
}

/// A name has no extension exactly when it holds no dot, or a single one that
/// it begins with.
pub proof fn lemma_no_extension(name: Seq<u8>)
    ensures
        extension_of(name) is None <==> {
            ||| !name.contains(dot())
            ||| (name.len() > 0 && name[0] == dot() && !name.drop_first().contains(dot()))
        },
{
    lemma_last_dot(name);
    match last_dot(name) {
        Some(at) => {
            assert(name.contains(dot()));
            if at == 0 {
                assert forall|i: int| 0 <= i < name.drop_first().len() implies name.drop_first()[i]
                    != dot() by {
                    assert(name.drop_first()[i] == name[i + 1]);
                }
            } else {
                assert(name.drop_first()[at - 1] == name[at]);
                assert(name.drop_first().contains(dot()));
            }
        },
        None => {},
    }
}

} // verus!
