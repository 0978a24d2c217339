//! Reading a TOML text into a document.

use vstd::prelude::*;
use crate::module::document::{lemma_array_view, lemma_table_view, Node, NodeView};
use crate::module::source::{
    datetime_text, entry_trees, float_text, table_entries, toml_document, toml_parse, toml_tree,
    trees,
};
use crate::text::lemma_deep_view_push;

verus! {

/// The node that holds what `value` holds. It is given only values that the
/// parser produced.
pub(crate) fn node_of(value: &toml::Value) -> (node: Node)
    ensures
        node@ == toml_tree(*value),
    decreases toml_tree(*value),
{
    if let Some(text) = value.as_str() {
        return Node::Text(String::from_str(text));
    }
    if let Some(number) = value.as_integer() {
        return Node::Integer(number);
    }
    if let Some(flag) = value.as_bool() {
        return Node::Boolean(flag);
    }
    if let Some(items) = value.as_array() {
        let mut nodes: Vec<Node> = Vec::new();
        let mut i: usize = 0;
        proof {
            assert(nodes.deep_view() =~= trees(items@.take(0)));
        }
        while i < items.len()
            invariant
                i <= items.len(),
                toml_tree(*value) == NodeView::Array(trees(items@)),
                nodes.deep_view() == trees(items@.take(i as int)),
            decreases items.len() - i,
        {
            let ghost before = nodes;
            proof {
                let children = trees(items@);
                assert(children[i as int] == toml_tree(items@[i as int]));
                assert(toml_tree(*value)->Array_0 == children);
                assert(decreases_to!(toml_tree(*value) => toml_tree(*value)->Array_0));
                assert(decreases_to!(children => children[i as int]));
            }
            let node = node_of(&items[i]);
            nodes.push(node);
            proof {
                lemma_deep_view_push(before, nodes, node);
                assert(nodes.deep_view() =~= trees(items@.take(i + 1)));
            }
            i += 1;
        }
        proof {
            assert(items@.take(items.len() as int) =~= items@);
            lemma_array_view(nodes);
        }
        return Node::Array(nodes);
    }
    if let Some(table) = value.as_table() {
        let pairs = table_entries(table);
        let mut entries: Vec<(String, Node)> = Vec::new();
        let mut i: usize = 0;
        proof {
            assert(entries.deep_view() =~= entry_trees(pairs@.take(0)));
        }
        while i < pairs.len()
            invariant
                i <= pairs.len(),
                toml_tree(*value) == NodeView::Table(entry_trees(pairs@)),
                entries.deep_view() == entry_trees(pairs@.take(i as int)),
            decreases pairs.len() - i,
        {
            let ghost before = entries;
            proof {
                let children = entry_trees(pairs@);
                assert(children[i as int] == (pairs@[i as int].0@, toml_tree(*pairs@[i as int].1)));
                assert(toml_tree(*value)->Table_0 == children);
                assert(decreases_to!(toml_tree(*value) => toml_tree(*value)->Table_0));
                assert(decreases_to!(children => children[i as int]));
                assert(decreases_to!(children[i as int] => children[i as int].1));
            }
            let pair = pairs[i];
            let node = node_of(pair.1);
            let entry = (pair.0.clone(), node);
            entries.push(entry);
            proof {
                lemma_deep_view_push(before, entries, entry);
                assert(entries.deep_view() =~= entry_trees(pairs@.take(i + 1)));
            }
            i += 1;
        }
        proof {
            assert(pairs@.take(pairs.len() as int) =~= pairs@);
            lemma_table_view(entries);
        }
        return Node::Table(entries);
    }
    if let Some(printed) = datetime_text(value) {
        return Node::Datetime(printed);
    }
    Node::Float(float_text(value))
}

/// Reads the document of a TOML text. Where the text is not a TOML document,
/// the parser's error is handed on.
pub fn read_document(text: &str) -> (document: Result<Node, toml::de::Error>)
    ensures
        match document {
            Ok(document) => toml_document(text@) == Some(document@),
            Err(_) => toml_document(text@) is None,
        },
{
    match toml_parse(text) {
        Ok(value) => Ok(node_of(&value)),
        Err(error) => Err(error),
    }
}

} // verus!
