//! The generic tree a parsed document is held in before it is mapped onto the
//! typed model.

use vstd::prelude::*;
use vstd::string::*;

verus! {

/// A parsed document node.
#[derive(Debug, PartialEq, Eq)]
pub enum Node {
    /// An explicit null.
    Null,
    /// A boolean scalar.
    Bool(bool),
    /// A numeric scalar, kept as its text.
    Number(String),
    /// A string scalar.
    Text(String),
    /// A sequence of nodes.
    List(Vec<Node>),
    /// A mapping, its entries in document order.
    Table(Vec<(Node, Node)>),
    /// A node carrying an explicit tag.
    Tagged(String, Box<Node>),
}

/// The mathematical value of a [`Node`].
pub enum Tree {
    Null,
    Bool(bool),
    Number(Seq<char>),
    Text(Seq<char>),
    List(Seq<Tree>),
    Table(Seq<(Tree, Tree)>),
    Tagged(Seq<char>, Box<Tree>),
}

/// The value of a node, defined by recursion over its structure.
pub open spec fn tree_of(node: Node) -> Tree
    decreases node,
{
    match node {
        Node::Null => Tree::Null,
        Node::Bool(b) => Tree::Bool(b),
        Node::Number(text) => Tree::Number(text@),
        Node::Text(text) => Tree::Text(text@),
        Node::List(items) => Tree::List(
            Seq::new(
                items@.len(),
                |i: int|
                    if 0 <= i < items@.len() {
                        tree_of(items@[i])
                    } else {
                        Tree::Null
                    },
            ),
        ),
        Node::Table(entries) => Tree::Table(
            Seq::new(
                entries@.len(),
                |i: int|
                    if 0 <= i < entries@.len() {
                        (tree_of(entries@[i].0), tree_of(entries@[i].1))
                    } else {
                        (Tree::Null, Tree::Null)
                    },
            ),
        ),
        Node::Tagged(tag, inner) => Tree::Tagged(tag@, Box::new(tree_of(*inner))),
    }
}

impl View for Node {
    type V = Tree;

    open spec fn view(&self) -> Tree {
        tree_of(*self)
    }
}

/// The values of a mapping's entries, in document order.
pub open spec fn entries_of(entries: Seq<(Node, Node)>) -> Seq<(Tree, Tree)> {
    Seq::new(entries.len(), |i: int| (entries[i].0@, entries[i].1@))
}

/// `i` is the position of the first entry of `entries` whose key is the text
/// `key`.
pub open spec fn first_at(entries: Seq<(Tree, Tree)>, key: Seq<char>, i: int) -> bool {
    &&& 0 <= i < entries.len()
    &&& entries[i].0 == Tree::Text(key)
    &&& forall|j: int| 0 <= j < i ==> (#[trigger] entries[j]).0 != Tree::Text(key)
}

/// The value stored under the text key `key`: that of the first such entry,
/// or `None` when no entry has that key.
pub open spec fn entry_of(entries: Seq<(Tree, Tree)>, key: Seq<char>) -> Option<Tree> {
    if exists|i: int| first_at(entries, key, i) {
        Some(entries[choose|i: int| first_at(entries, key, i)].1)
    } else {
        None
    }
}

/// A table's value is the values of its entries.
pub proof fn lemma_table_view(entries: Vec<(Node, Node)>)
    ensures
        Node::Table(entries)@ == Tree::Table(entries_of(entries@)),
{
    assert(Node::Table(entries)@->Table_0 =~= entries_of(entries@));
}

/// Only one position can be the first with a given key.
pub proof fn lemma_first_at_unique(entries: Seq<(Tree, Tree)>, key: Seq<char>, i: int, j: int)
    requires
        first_at(entries, key, i),
        first_at(entries, key, j),
    ensures
        i == j,
{
}

/// Looks a field up by name in a mapping's entries.
pub fn find<'a>(entries: &'a Vec<(Node, Node)>, key: &str) -> (found: Option<&'a Node>)
    ensures
        match entry_of(entries_of(entries@), key@) {
            Some(value) => found matches Some(node) && node@ == value,
            None => found is None,
        },
{
    let wanted = String::from_str(key);
    let ghost table = entries_of(entries@);
    let mut i: usize = 0;
    while i < entries.len()
        invariant
            i <= entries.len(),
            wanted@ == key@,
            table == entries_of(entries@),
            forall|j: int| 0 <= j < i ==> (#[trigger] table[j]).0 != Tree::Text(key@),
        decreases entries.len() - i,
    {
        let hit = match &entries[i].0 {
            Node::Text(name) => *name == wanted,
            _ => false,
        };
        if hit {
            proof {
                assert(first_at(table, key@, i as int));
                let k = choose|k: int| first_at(table, key@, k);
                lemma_first_at_unique(table, key@, i as int, k);
            }
            return Some(&entries[i].1);
        }
        i = i + 1;
    }
    proof {
        assert forall|k: int| !first_at(table, key@, k) by {
            if first_at(table, key@, k) {
                assert(table[k].0 == Tree::Text(key@));
            }
        }
    }
    None
}

} // verus!
