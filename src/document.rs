//! A small tagged tree for semi-structured documents.

use vstd::prelude::*;

verus! {

/// One node of a parsed document: mappings, sequences and scalars.
#[derive(Debug)]
pub enum Node {
    /// A floating-point scalar, kept as the text it was written with.
    Real(String),
    Integer(i64),
    Text(String),
    Boolean(bool),
    Sequence(Vec<Node>),
    /// Entries in document order; a lookup takes the first entry with the key.
    Mapping(Vec<(Node, Node)>),
    Alias(usize),
    Null,
    /// A node that could not be represented.
    Bad,
}

/// The node is a text scalar equal to `key`.
pub open spec fn is_key(n: Node, key: Seq<char>) -> bool {
    match n {
        Node::Text(s) => s@ == key,
        _ => false,
    }
}

/// The value of the first entry at or after position `i` whose key is `key`.
pub open spec fn lookup_from(entries: Seq<(Node, Node)>, key: Seq<char>, i: int) -> Option<Node>
    decreases entries.len() - i,
{
    if i < 0 || i >= entries.len() {
        None
    } else if is_key(entries[i].0, key) {
        Some(entries[i].1)
    } else {
        lookup_from(entries, key, i + 1)
    }
}

/// The value stored under `key` in a mapping node; `None` when the node is
/// absent, is not a mapping, or has no such key.
pub open spec fn field(n: Option<Node>, key: Seq<char>) -> Option<Node> {
    match n {
        Some(Node::Mapping(entries)) => lookup_from(entries@, key, 0),
        _ => None,
    }
}

/// The node a reference points to, if any.
pub open spec fn opt_node(n: Option<&Node>) -> Option<Node> {
    match n {
        Some(v) => Some(*v),
        None => None,
    }
}

/// The value stored under `key` in `n`, if `n` is a mapping that has it.
pub fn get_field<'a>(n: Option<&'a Node>, key: &str) -> (r: Option<&'a Node>)
    ensures
        opt_node(r) == field(opt_node(n), key@),
{
    match n {
        Some(Node::Mapping(entries)) => {
            let wanted = String::from_str(key);
            let mut i: usize = 0;
            while i < entries.len()
                invariant
                    i <= entries@.len(),
                    opt_node(n) == Some(Node::Mapping(*entries)),
                    wanted@ == key@,
                    lookup_from(entries@, key@, 0) == lookup_from(entries@, key@, i as int),
                decreases entries@.len() - i,
            {
                let hit = match &entries[i].0 {
                    Node::Text(s) => *s == wanted,
                    _ => false,
                };
                assert(hit == is_key(entries@[i as int].0, key@));
                if hit {
                    return Some(&entries[i].1);
                }
                i = i + 1;
            }
            None
        },
        _ => None,
    }
}

} // verus!
