//! TOML tables as the library sees them: a tree of plain values, with the
//! `toml` crate doing the reading and writing of the text.
use vstd::prelude::*;

verus! {

/// What a TOML value is, as far as this library reads it: text, an array,
/// a table, or anything else (numbers, booleans, dates).
pub enum TomlTree {
    Text(Seq<char>),
    Array(Seq<TomlTree>),
    Table(Map<Seq<char>, TomlTree>),
    Other,
}

/// A TOML document: a table from keys to values.
pub type TomlMap = Map<Seq<char>, TomlTree>;

/// A table of the `toml` crate.
pub type TomlTable = toml::map::Map<String, toml::Value>;

#[verifier::external_type_specification]
#[verifier::external_body]
#[verifier::reject_recursive_types(K)]
#[verifier::reject_recursive_types(V)]
pub struct ExTomlMap<K, V>(toml::map::Map<K, V>);

#[verifier::external_type_specification]
#[verifier::external_body]
pub struct ExTomlValue(toml::Value);

#[verifier::external_type_specification]
#[verifier::external_body]
pub struct ExTomlSerError(toml::ser::Error);

#[verifier::external_type_specification]
#[verifier::external_body]
pub struct ExTomlDeError(toml::de::Error);

/// The entries of a `toml::Table`.
pub uninterp spec fn table_tree(t: TomlTable) -> TomlMap;

/// The table that `toml::from_str` reads from a text, or `None` where the
/// text is not a TOML document.
pub uninterp spec fn toml_parse(s: Seq<char>) -> Option<TomlMap>;

/// The text that `toml::to_string` writes for a table whose entries are the
/// tree `m`.
pub uninterp spec fn toml_text(m: TomlMap) -> Seq<char>;

pub open spec fn lookup_text(m: TomlMap, k: Seq<char>) -> Option<Seq<char>> {
    if m.contains_key(k) {
        match m[k] {
            TomlTree::Text(s) => Some(s),
            _ => None,
        }
    } else {
        None
    }
}

pub open spec fn lookup_table(m: TomlMap, k: Seq<char>) -> Option<TomlMap> {
    if m.contains_key(k) {
        match m[k] {
            TomlTree::Table(sub) => Some(sub),
            _ => None,
        }
    } else {
        None
    }
}

pub open spec fn is_text(t: TomlTree) -> bool {
    t is Text
}

/// The texts of an array whose items are all text.
pub open spec fn texts_of(t: TomlTree) -> Option<Seq<Seq<char>>> {
    match t {
        TomlTree::Array(items) => if forall|i: int| 0 <= i < items.len() ==> #[trigger] is_text(items[i]) {
            Some(items.map_values(|item: TomlTree| item->Text_0))
        } else {
            None
        },
        _ => None,
    }
}

pub open spec fn is_text_array(t: TomlTree) -> bool {
    match t {
        TomlTree::Array(items) => forall|i: int| 0 <= i < items.len() ==> #[trigger] is_text(items[i]),
        _ => false,
    }
}

/// A value that is text or an array of texts.
pub open spec fn is_leaf(t: TomlTree) -> bool {
    is_text(t) || is_text_array(t)
}

/// A table whose values are all leaves.
pub open spec fn is_flat(m: TomlMap) -> bool {
    forall|k: Seq<char>| #[trigger] m.contains_key(k) ==> is_leaf(m[k])
}

/// A table whose values are leaves or flat tables: the shapes this library
/// writes, two levels deep at most.
pub open spec fn is_shallow(m: TomlMap) -> bool {
    forall|k: Seq<char>|
        #[trigger] m.contains_key(k) ==> is_leaf(m[k]) || (m[k] is Table && is_flat(m[k]->Table_0))
}

pub open spec fn lookup_texts(m: TomlMap, k: Seq<char>) -> Option<Seq<Seq<char>>> {
    if m.contains_key(k) {
        texts_of(m[k])
    } else {
        None
    }
}

pub open spec fn text_array(items: Seq<Seq<char>>) -> TomlTree {
    TomlTree::Array(items.map_values(|s: Seq<char>| TomlTree::Text(s)))
}

pub open spec fn strings_view(v: Seq<String>) -> Seq<Seq<char>> {
    v.map_values(|s: String| s@)
}

/// Relies on `toml::Table::new`: an empty table.
#[verifier::external_body]
pub(crate) fn new_table() -> (r: TomlTable)
    ensures
        table_tree(r) == TomlMap::empty(),
{
    toml::Table::new()
}

/// Relies on `toml::Table::insert` with a `Value::String`: the key now maps
/// to the text, whatever it held before.
#[verifier::external_body]
pub(crate) fn put_text(t: &mut TomlTable, k: &str, v: &str)
    ensures
        table_tree(*final(t)) == table_tree(*old(t)).insert(k@, TomlTree::Text(v@)),
{
    t.insert(k.to_string(), toml::Value::String(v.to_string()));
}

/// Relies on `toml::Table::insert` with a `Value::Table`: the key now maps to
/// the sub-table.
#[verifier::external_body]
pub(crate) fn put_table(
    t: &mut TomlTable,
    k: &str,
    sub: TomlTable,
)
    ensures
        table_tree(*final(t)) == table_tree(*old(t)).insert(k@, TomlTree::Table(table_tree(sub))),
{
    t.insert(k.to_string(), toml::Value::Table(sub));
}

/// Relies on `toml::Table::insert` with a `Value::Array` of `Value::String`:
/// the key now maps to the texts, in their order.
#[verifier::external_body]
pub(crate) fn put_texts(t: &mut TomlTable, k: &str, v: &Vec<String>)
    ensures
        table_tree(*final(t)) == table_tree(*old(t)).insert(k@, text_array(strings_view(v@))),
{
    t.insert(k.to_string(), toml::Value::Array(v.iter().map(|s| toml::Value::String(s.clone())).collect()));
}

/// Relies on `toml::Table::get` and `Value::as_str`: the text under a key.
#[verifier::external_body]
pub(crate) fn get_text(t: &TomlTable, k: &str) -> (r: Option<String>)
    ensures
        match r {
            Some(s) => lookup_text(table_tree(*t), k@) == Some(s@),
            None => lookup_text(table_tree(*t), k@) is None,
        },
{
    t.get(k).and_then(|v| v.as_str()).map(|s| s.to_string())
}

/// Relies on `toml::Table::get` and `Value::as_table`: a copy of the
/// sub-table under a key.
#[verifier::external_body]
pub(crate) fn get_table(t: &TomlTable, k: &str) -> (r: Option<
    TomlTable,
>)
    ensures
        match r {
            Some(sub) => lookup_table(table_tree(*t), k@) == Some(table_tree(sub)),
            None => lookup_table(table_tree(*t), k@) is None,
        },
{
    t.get(k).and_then(|v| v.as_table()).cloned()
}

/// Relies on `toml::Table::get`, `Value::as_array` and `Value::as_str`: the
/// texts of the array under a key, where each of its items is text.
#[verifier::external_body]
pub(crate) fn get_texts(t: &TomlTable, k: &str) -> (r: Option<Vec<String>>)
    ensures
        match r {
            Some(v) => lookup_texts(table_tree(*t), k@) == Some(strings_view(v@)),
            None => lookup_texts(table_tree(*t), k@) is None,
        },
{
    t.get(k).and_then(|v| v.as_array()).and_then(
        |items| items.iter().map(|i| i.as_str().map(|s| s.to_string())).collect(),
    )
}

/// Relies on `toml::to_string` on a table: it writes any table (its
/// serializer fails only on values a table cannot hold), its text depends on
/// the table alone, and for a shallow table of texts `toml::from_str` reads
/// that text back as the same table.
#[verifier::external_body]
pub(crate) fn render_table(t: &TomlTable) -> (r: Result<String, toml::ser::Error>)
    ensures
        r is Ok,
        is_shallow(table_tree(*t)) ==> r->Ok_0@ == toml_text(table_tree(*t)),
        is_shallow(table_tree(*t)) ==> toml_parse(r->Ok_0@) == Some(table_tree(*t)),
{
    toml::to_string(t)
}

/// Relies on `toml::from_str` into a table: it succeeds exactly on TOML
/// documents.
#[verifier::external_body]
pub(crate) fn parse_table(s: &str) -> (r: Result<TomlTable, toml::de::Error>)
    ensures
        match r {
            Ok(t) => toml_parse(s@) == Some(table_tree(t)),
            Err(_) => toml_parse(s@) is None,
        },
{
    toml::from_str(s)
}

} // verus!
