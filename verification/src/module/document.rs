//! A parsed template document, as a tree of plain values.

use vstd::prelude::*;
use crate::text::same_text;

verus! {

/// One value of a template document.
///
/// A table keeps its entries in the order the parser hands them out. A float
/// and a datetime are held as text, which is all that is ever read of them.
#[derive(Debug)]
pub enum Node {
    Text(String),
    Integer(i64),
    /// A float, as the text the parser prints for it.
    Float(String),
    Boolean(bool),
    /// A datetime, as the text the parser prints for it.
    Datetime(String),
    Array(Vec<Node>),
    Table(Vec<(String, Node)>),
}

/// What a [`Node`] holds, as mathematical values.
pub enum NodeView {
    Text(Seq<char>),
    Integer(i64),
    Float(Seq<char>),
    Boolean(bool),
    Datetime(Seq<char>),
    Array(Seq<NodeView>),
    Table(Seq<(Seq<char>, NodeView)>),
}

/// The model of a node: the same tree over sequences.
pub open spec fn node_view(node: Node) -> NodeView
    decreases node,
{
    match node {
        Node::Text(text) => NodeView::Text(text@),
        Node::Integer(number) => NodeView::Integer(number),
        Node::Float(printed) => NodeView::Float(printed@),
        Node::Boolean(flag) => NodeView::Boolean(flag),
        Node::Datetime(printed) => NodeView::Datetime(printed@),
        Node::Array(items) => NodeView::Array(
            Seq::new(
                items@.len(),
                |i: int|
                    if 0 <= i < items@.len() {
                        node_view(items@[i])
                    } else {
                        NodeView::Boolean(false)
                    },
            ),
        ),
        Node::Table(entries) => NodeView::Table(
            Seq::new(
                entries@.len(),
                |i: int|
                    if 0 <= i < entries@.len() {
                        (entries@[i].0@, node_view(entries@[i].1))
                    } else {
                        (Seq::empty(), NodeView::Boolean(false))
                    },
            ),
        ),
    }
}

impl View for Node {
    type V = NodeView;

    open spec fn view(&self) -> NodeView {
        node_view(*self)
    }
}

impl DeepView for Node {
    type V = NodeView;

    open spec fn deep_view(&self) -> NodeView {
        self@
    }
}

/// An array node holds the models of its items, in order.
pub proof fn lemma_array_view(items: Vec<Node>)
    ensures
        Node::Array(items)@ == NodeView::Array(items.deep_view()),
{
    assert(Node::Array(items)@->Array_0 =~= items.deep_view());
}

/// A table node holds its keys with the models of their values, in order.
pub proof fn lemma_table_view(entries: Vec<(String, Node)>)
    ensures
        Node::Table(entries)@ == NodeView::Table(entries.deep_view()),
{
    assert(Node::Table(entries)@->Table_0 =~= entries.deep_view());
}

/// The value of the first entry under `key`, if there is one.
pub open spec fn lookup(entries: Seq<(Seq<char>, NodeView)>, key: Seq<char>) -> Option<NodeView>
    decreases entries.len(),
{
    if entries.len() == 0 {
        None
    } else if entries[0].0 == key {
        Some(entries[0].1)
    } else {
        lookup(entries.drop_first(), key)
    }
}

/// Skipping entries under other keys does not change what a lookup finds.
pub proof fn lemma_lookup_skip(entries: Seq<(Seq<char>, NodeView)>, key: Seq<char>, count: int)
    requires
        0 <= count <= entries.len(),
        forall|j: int| 0 <= j < count ==> (#[trigger] entries[j]).0 != key,
    ensures
        lookup(entries, key) == lookup(entries.skip(count), key),
    decreases count,
{
    if count == 0 {
        assert(entries.skip(0) =~= entries);
    } else {
        lemma_lookup_skip(entries, key, count - 1);
        let rest = entries.skip(count - 1);
        assert(rest[0] == entries[count - 1]);
        assert(rest.drop_first() =~= entries.skip(count));
    }
}

/// The value under `key` among the entries of a table.
pub fn table_get<'a>(entries: &'a Vec<(String, Node)>, key: &str) -> (found: Option<&'a Node>)
    ensures
        found.deep_view() == lookup(entries.deep_view(), key@),
{
    let mut i: usize = 0;
    while i < entries.len()
        invariant
            i <= entries.len(),
            forall|j: int| 0 <= j < i ==> (#[trigger] entries.deep_view()[j]).0 != key@,
        decreases entries.len() - i,
    {
        if same_text(entries[i].0.as_str(), key) {
            proof {
                let model = entries.deep_view();
                lemma_lookup_skip(model, key@, i as int);
                assert(model.skip(i as int)[0] == model[i as int]);
            }
            return Some(&entries[i].1);
        }
        i += 1;
    }
    proof {
        let model = entries.deep_view();
        lemma_lookup_skip(model, key@, model.len() as int);
    }
    None
}

impl Node {
    /// The text of a text node.
    pub fn as_str(&self) -> (text: Option<&str>)
        ensures
            match text {
                Some(text) => self@ == NodeView::Text(text@),
                None => !(self@ is Text),
            },
    {
        match self {
            Node::Text(text) => Some(text.as_str()),
            _ => None,
        }
    }

    /// The flag of a boolean node.
    pub fn as_bool(&self) -> (flag: Option<bool>)
        ensures
            match flag {
                Some(flag) => self@ == NodeView::Boolean(flag),
                None => !(self@ is Boolean),
            },
    {
        match self {
            Node::Boolean(flag) => Some(*flag),
            _ => None,
        }
    }

    /// The items of an array node.
    pub fn as_array(&self) -> (items: Option<&Vec<Node>>)
        ensures
            match items {
                Some(items) => self@ == NodeView::Array(items.deep_view()),
                None => !(self@ is Array),
            },
    {
        match self {
            Node::Array(items) => {
                proof {
                    lemma_array_view(*items);
                }
                Some(items)
            },
            _ => None,
        }
    }

    /// The entries of a table node.
    pub fn as_table(&self) -> (entries: Option<&Vec<(String, Node)>>)
        ensures
            match entries {
                Some(entries) => self@ == NodeView::Table(entries.deep_view()),
                None => !(self@ is Table),
            },
    {
        match self {
            Node::Table(entries) => {
                proof {
                    lemma_table_view(*entries);
                }
                Some(entries)
            },
            _ => None,
        }
    }
}

} // verus!
