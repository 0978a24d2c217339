//! The TOML parser that templates are read with.
//!
//! Everything in this file is believed, not proved: it says what the `toml`
//! crate does, over names for what its values hold.

use vstd::prelude::*;
use crate::module::document::NodeView;

verus! {

/// `toml::Value`, a parsed TOML value. Nothing inside it is visible here.
#[verifier::external_type_specification]
#[verifier::external_body]
pub struct ExTomlValue(toml::Value);

/// `toml::map::Map`, the table of a TOML document. Nothing inside it is
/// visible here.
#[verifier::external_type_specification]
#[verifier::external_body]
#[verifier::reject_recursive_types(K)]
#[verifier::reject_recursive_types(V)]
pub struct ExTomlMap<K, V>(toml::map::Map<K, V>);

/// `toml::de::Error`, the parser's error. Nothing inside it is visible here.
#[verifier::external_type_specification]
#[verifier::external_body]
pub struct ExTomlError(toml::de::Error);

/// The document that `toml` reads from `text`, or `None` where `text` is not
/// a TOML document.
pub uninterp spec fn toml_document(text: Seq<char>) -> Option<NodeView>;

/// The tree that a `toml::Value` holds: its string, integer or boolean, its
/// array item by item, its table entry by entry, for a float the text that
/// `Display for toml::Value` prints, and for a datetime the text that
/// `Display for toml::value::Datetime` prints.
pub uninterp spec fn toml_tree(value: toml::Value) -> NodeView;

/// The entries that a `toml::map::Map` holds, each a key and the tree of its
/// value, in the order the map hands them out.
pub uninterp spec fn toml_entries(table: toml::map::Map<String, toml::Value>) -> Seq<
    (Seq<char>, NodeView),
>;

/// The trees of a list of values, in order.
pub open spec fn trees(values: Seq<toml::Value>) -> Seq<NodeView> {
    Seq::new(values.len(), |i: int| toml_tree(values[i]))
}

/// The keys of a list of entries with the trees of their values, in order.
pub open spec fn entry_trees<'a>(entries: Seq<(&'a String, &'a toml::Value)>) -> Seq<
    (Seq<char>, NodeView),
> {
    Seq::new(entries.len(), |i: int| (entries[i].0@, toml_tree(*entries[i].1)))
}

/// Calls `str::parse::<toml::Table>`, that is `toml::from_str`, and wraps the
/// table in `toml::Value::Table`.
///
/// Claimed: parsing depends on the text alone. What is read from a text is
/// that text's document, and an error means that the text has none.
#[verifier::external_body]
pub(crate) fn toml_parse(text: &str) -> (parsed: Result<toml::Value, toml::de::Error>)
    ensures
        parsed matches Ok(value) ==> toml_document(text@) == Some(toml_tree(value)),
        parsed is Err ==> toml_document(text@) is None,
{
    text.parse::<toml::Table>().map(toml::Value::Table)
}

/// `toml::Value::as_str` hands out the string of a string value and nothing
/// for any other value.
pub assume_specification[ toml::Value::as_str ](value: &toml::Value) -> (text: Option<&str>)
    ensures
        match text {
            Some(text) => toml_tree(*value) == NodeView::Text(text@),
            None => !(toml_tree(*value) is Text),
        },
;

/// `toml::Value::as_integer` hands out the integer of an integer value and
/// nothing for any other value.
pub assume_specification[ toml::Value::as_integer ](value: &toml::Value) -> (number: Option<i64>)
    ensures
        match number {
            Some(number) => toml_tree(*value) == NodeView::Integer(number),
            None => !(toml_tree(*value) is Integer),
        },
;

/// `toml::Value::as_bool` hands out the boolean of a boolean value and
/// nothing for any other value.
pub assume_specification[ toml::Value::as_bool ](value: &toml::Value) -> (flag: Option<bool>)
    ensures
        match flag {
            Some(flag) => toml_tree(*value) == NodeView::Boolean(flag),
            None => !(toml_tree(*value) is Boolean),
        },
;

/// `toml::Value::as_array` hands out the items of an array value and nothing
/// for any other value.
pub assume_specification[ toml::Value::as_array ](value: &toml::Value) -> (items: Option<
    &Vec<toml::Value>,
>)
    ensures
        match items {
            Some(items) => toml_tree(*value) == NodeView::Array(trees(items@)),
            None => !(toml_tree(*value) is Array),
        },
;

/// `toml::Value::as_table` hands out the table of a table value and nothing
/// for any other value.
pub assume_specification[ toml::Value::as_table ](value: &toml::Value) -> (table: Option<
    &toml::map::Map<String, toml::Value>,
>)
    ensures
        match table {
            Some(table) => toml_tree(*value) == NodeView::Table(toml_entries(*table)),
            None => !(toml_tree(*value) is Table),
        },
;

/// Calls `toml::map::Map::iter` and collects what it yields.
///
/// Claimed: the iterator yields every entry of the map once, always in the
/// same order.
#[verifier::external_body]
pub(crate) fn table_entries(table: &toml::map::Map<String, toml::Value>) -> (entries: Vec<
    (&String, &toml::Value),
>)
    ensures
        entry_trees(entries@) == toml_entries(*table),
{
    table.iter().collect()
}

/// Calls `toml::Value::as_datetime` and turns the datetime it hands out
/// into text with `Display for toml::value::Datetime`, which writes the date,
/// the time and the offset as TOML spells them.
///
/// Claimed: a datetime value hands out its datetime, whose printed text is
/// what the tree holds; any other value hands out nothing.
#[verifier::external_body]
pub(crate) fn datetime_text(value: &toml::Value) -> (printed: Option<String>)
    ensures
        match printed {
            Some(printed) => toml_tree(*value) == NodeView::Datetime(printed@),
            None => !(toml_tree(*value) is Datetime),
        },
{
    value.as_datetime().map(std::string::ToString::to_string)
}

/// Calls `Display for toml::Value` on a float value.
///
/// Claimed: the text printed for a float value is what the tree holds.
/// Printing a float cannot fail.
#[verifier::external_body]
pub(crate) fn float_text(value: &toml::Value) -> (printed: String)
    requires
        toml_tree(*value) is Float,
    ensures
        toml_tree(*value) == NodeView::Float(printed@),
{
    value.to_string()
}

} // verus!
