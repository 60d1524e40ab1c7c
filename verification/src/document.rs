//! TOML documents as the configuration layers read them.

use vstd::prelude::*;
use crate::error::{Failure, FailureView};
use crate::text::same_text;

verus! {

/// A TOML value, as far as configuration reads it: strings and tables are kept,
/// every other kind of value only marks its key as taken.
#[derive(Debug, PartialEq, Eq)]
pub enum TomlValue {
    Text(String),
    Table(Vec<(String, TomlValue)>),
    Other,
}

/// The entries of a table, each a key with its value.
pub type Table = Vec<(String, TomlValue)>;

/// What a [`TomlValue`] holds, as mathematical values.
pub enum TomlValueView {
    Text(Seq<char>),
    Table(Seq<(Seq<char>, TomlValueView)>),
    Other,
}

/// What a [`Table`] holds, as mathematical values.
pub type TableView = Seq<(Seq<char>, TomlValueView)>;

pub open spec fn value_view(v: TomlValue) -> TomlValueView
    decreases v,
{
    match v {
        TomlValue::Text(s) => TomlValueView::Text(s@),
        TomlValue::Table(t) => TomlValueView::Table(table_view(t@)),
        TomlValue::Other => TomlValueView::Other,
    }
}

/// What the entries of a table hold, as mathematical values.
pub open spec fn table_view(table: Seq<(String, TomlValue)>) -> TableView
    decreases table,
{
    Seq::new(
        table.len(),
        |i: int|
            if 0 <= i < table.len() {
                (table[i].0@, value_view(table[i].1))
            } else {
                arbitrary()
            },
    )
}

impl View for TomlValue {
    type V = TomlValueView;

    open spec fn view(&self) -> TomlValueView {
        value_view(*self)
    }
}

/// `toml::Value`, carried through without a look inside.
#[verifier::external_type_specification]
#[verifier::external_body]
pub struct ExTomlValue(toml::Value);

/// `toml::map::Map`, the table type of the parser; what it holds is named by
/// [`table_entries`].
#[verifier::external_type_specification]
#[verifier::external_body]
#[verifier::reject_recursive_types(K)]
#[verifier::reject_recursive_types(V)]
pub struct ExTomlMap<K, V>(toml::map::Map<K, V>);

/// What `toml::from_str` makes of `text` when asked for a table: the entries of the
/// document, or, where the text is not a TOML document, the parser's diagnostic as
/// its `Display` writes it.
pub uninterp spec fn toml_document(text: Seq<char>) -> Result<
    Seq<(Seq<char>, TomlValueView)>,
    Seq<char>,
>;

/// The entries that a `toml::map::Map` holds, in the order in which it hands them
/// out, each value reduced to what a [`TomlValue`] keeps of it.
pub uninterp spec fn table_entries(table: toml::map::Map<String, toml::Value>) -> Seq<
    (Seq<char>, TomlValueView),
>;

/// `toml::from_str`, asked for a table, with the diagnostic of a failure written
/// out by its `Display`. It is taken on trust that the outcome is a function of the
/// text alone, named by [`toml_document`].
#[verifier::external_body]
fn table_from_str(text: &str) -> (r: Result<toml::map::Map<String, toml::Value>, String>)
    ensures
        match toml_document(text@) {
            Ok(entries) => r matches Ok(table) && table_entries(table) == entries,
            Err(diagnostic) => r matches Err(message) && message@ == diagnostic,
        },
{
    match toml::from_str(text) {
        Ok(table) => Ok(table),
        Err(error) => Err(error.to_string()),
    }
}

/// `toml::map::Map::iter`, with every entry copied out: strings and tables keep
/// what they hold, all other kinds of value become [`TomlValue::Other`]. It is taken on
/// trust that this yields the entries named by [`table_entries`].
#[verifier::external_body]
fn entries_of(table: &toml::map::Map<String, toml::Value>) -> (r: Vec<(String, TomlValue)>)
    ensures
        table_view(r@) == table_entries(*table),
{
    let copy = |v: &toml::Value| match v {
        toml::Value::String(s) => TomlValue::Text(s.clone()),
        toml::Value::Table(t) => TomlValue::Table(entries_of(t)),
        toml::Value::Integer(_) => TomlValue::Other,
        toml::Value::Float(_) => TomlValue::Other,
        toml::Value::Boolean(_) => TomlValue::Other,
        toml::Value::Datetime(_) => TomlValue::Other,
        toml::Value::Array(_) => TomlValue::Other,
    };
    table.iter().map(|(k, v)| (k.clone(), copy(v))).collect()
}

/// Parses `text` as a TOML document. Malformed text is a parse failure that carries
/// the parser's own diagnostic.
pub fn parse_toml(text: &str) -> (r: Result<Table, Failure>)
    ensures
        match toml_document(text@) {
            Ok(entries) => r matches Ok(table) && table_view(table@) == entries,
            Err(diagnostic) => r matches Err(e) && e@ == (FailureView::Parse {
                message: diagnostic,
            }),
        },
{
    match table_from_str(text) {
        Ok(table) => Ok(entries_of(&table)),
        Err(message) => Err(Failure::Parse { message }),
    }
}

/// Position of the first entry of `table` under `key`, if there is one.
pub open spec fn position_of(table: TableView, key: Seq<char>) -> Option<int>
    decreases table.len(),
{
    if table.len() == 0 {
        None
    } else if table[0].0 == key {
        Some(0)
    } else {
        match position_of(table.skip(1), key) {
            Some(i) => Some(i + 1),
            None => None,
        }
    }
}

/// The value of the first entry of `table` under `key`.
pub open spec fn lookup(table: TableView, key: Seq<char>) -> Option<TomlValueView> {
    match position_of(table, key) {
        Some(i) => Some(table[i].1),
        None => None,
    }
}

/// The string that `table` holds under `key`, if its first entry under that key
/// is a string.
pub open spec fn text_at(table: TableView, key: Seq<char>) -> Option<Seq<char>> {
    match lookup(table, key) {
        Some(TomlValueView::Text(s)) => Some(s),
        _ => None,
    }
}

/// `position_of` finds the first entry under the key and nothing else.
pub proof fn lemma_position_of(table: TableView, key: Seq<char>)
    ensures
        match position_of(table, key) {
            Some(i) => 0 <= i < table.len() && table[i].0 == key && forall|j: int|
                0 <= j < i ==> table[j].0 != key,
            None => forall|j: int| 0 <= j < table.len() ==> table[j].0 != key,
        },
    decreases table.len(),
{
    if table.len() > 0 && table[0].0 != key {
        let rest = table.skip(1);
        lemma_position_of(rest, key);
        match position_of(rest, key) {
            Some(i) => {
                assert(rest[i] == table[i + 1]);
                assert forall|j: int| 0 <= j < i + 1 implies table[j].0 != key by {
                    if j > 0 {
                        assert(rest[j - 1] == table[j]);
                    }
                }
            },
            None => {
                assert forall|j: int| 0 <= j < table.len() implies table[j].0 != key by {
                    if j > 0 {
                        assert(rest[j - 1] == table[j]);
                    }
                }
            },
        }
    }
}

/// The value of the first entry of `table` under `key`.
pub fn get<'a>(table: &'a Vec<(String, TomlValue)>, key: &str) -> (r: Option<&'a TomlValue>)
    ensures
        match lookup(table_view(table@), key@) {
            Some(v) => r is Some && (*r->0)@ == v,
            None => r is None,
        },
{
    let ghost held = table_view(table@);
    let mut i: usize = 0;
    while i < table.len()
        invariant
            i <= table.len(),
            held == table_view(table@),
            forall|j: int| 0 <= j < i ==> held[j].0 != key@,
        decreases table.len() - i,
    {
        if same_text(table[i].0.as_str(), key) {
            proof {
                lemma_position_of(held, key@);
                let found = position_of(held, key@)->0;
                assert(held[i as int].0 == key@);
                assert(found == i);
            }
            return Some(&table[i].1);
        }
        i += 1;
    }
    proof {
        lemma_position_of(held, key@);
        if position_of(held, key@) is Some {
            let found = position_of(held, key@)->0;
            assert(held[found].0 == key@);
        }
    }
    None
}

/// The string under `key`, copied out.
pub fn get_text(table: &Vec<(String, TomlValue)>, key: &str) -> (r: Option<String>)
    ensures
        match text_at(table_view(table@), key@) {
            Some(s) => r is Some && r->0@ == s,
            None => r is None,
        },
{
    match get(table, key) {
        Some(TomlValue::Text(s)) => Some(s.clone()),
        _ => None,
    }
}

} // verus!
