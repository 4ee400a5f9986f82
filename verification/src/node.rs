//! The generic input tree: a dynamically typed node as an external markup
//! parser produces it, and key lookup over its mapping nodes.

use vstd::prelude::*;
use crate::text::str_eq;

verus! {

/// A generic, dynamically typed tree value: scalars, an ordered array, or a
/// mapping given as an ordered list of key/value pairs. The source format
/// guarantees neither key uniqueness nor key type, so a mapping is kept as
/// the plain list of its pairs; on a repeated key the last pair wins, as the
/// parser's own map behaves on repeated insertion.
#[derive(Debug)]
pub enum Node {
    /// A text scalar: in a chapter slot, a bare title or a bare file reference.
    Text(String),
    /// An integer scalar.
    Int(i64),
    /// A real scalar, kept as its source text.
    Real(String),
    /// A boolean scalar.
    Bool(bool),
    /// An explicit null.
    Null,
    /// A value with no valid interpretation in the source document.
    Invalid,
    /// An ordered sequence of nodes.
    Array(Vec<Node>),
    /// An ordered collection of key/value pairs.
    Mapping(Vec<Entry>),
}

/// One key/value pair of a mapping node.
#[derive(Debug)]
pub struct Entry {
    pub key: Node,
    pub value: Node,
}

/// The value under the text key `key` among `entries`: the value of the last
/// pair whose key is `Text(key)`, or `None` when no pair has that key. Keys
/// of any other kind never match a text key.
pub open spec fn spec_lookup(entries: Seq<Entry>, key: Seq<char>) -> Option<Node>
    decreases entries.len(),
{
    if entries.len() == 0 {
        None
    } else {
        match entries.last().key {
            Node::Text(k) => if k@ == key {
                Some(entries.last().value)
            } else {
                spec_lookup(entries.drop_last(), key)
            },
            _ => spec_lookup(entries.drop_last(), key),
        }
    }
}

/// Finds the index of the pair that `spec_lookup` picks: the last pair of
/// `entries` whose key is the text `key`.
pub fn lookup_idx(entries: &Vec<Entry>, key: &str) -> (r: Option<usize>)
    ensures
        r matches Some(j) ==> j < entries@.len() && spec_lookup(entries@, key@) == Some(
            entries@[j as int].value,
        ),
        r is None ==> spec_lookup(entries@, key@) is None,
{
    let mut i: usize = entries.len();
    proof {
        assert(entries@.subrange(0, i as int) =~= entries@);
    }
    while i > 0
        invariant
            i <= entries@.len(),
            spec_lookup(entries@, key@) == spec_lookup(
                entries@.subrange(0, i as int),
                key@,
            ),
        decreases i,
    {
        i = i - 1;
        let hit = match &entries[i].key {
            Node::Text(k) => str_eq(k.as_str(), key),
            _ => false,
        };
        proof {
            let sub = entries@.subrange(0, i + 1);
            assert(sub.last() == entries@[i as int]);
            assert(sub.drop_last() =~= entries@.subrange(0, i as int));
        }
        if hit {
            return Some(i);
        }
    }
    proof {
        assert(entries@.subrange(0, 0) =~= Seq::<Entry>::empty());
    }
    None
}

} // verus!
