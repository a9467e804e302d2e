//! The configuration as a TOML document.
//!
//! The `toml` crate parses and renders; which tables and keys make up a
//! configuration, which of them may be left out and what stands in for
//! them is decided here.

use vstd::prelude::*;

verus! {

/// The map of the `toml` crate; with strings as keys and values as
/// values it is a TOML table. Nothing is known of what is inside but
/// through the functions below.
#[verifier::external_type_specification]
#[verifier::external_body]
#[verifier::reject_recursive_types(K)]
#[verifier::reject_recursive_types(V)]
pub struct ExTomlMap<K, V>(toml::map::Map<K, V>);

/// The value of the `toml` crate: a string, a number, a boolean, a date,
/// an array or a table.
#[verifier::external_type_specification]
#[verifier::external_body]
pub struct ExTomlValue(toml::Value);

/// The error with which the `toml` crate refuses a text.
#[verifier::external_type_specification]
#[verifier::external_body]
pub struct ExTomlParseError(toml::de::Error);

/// The error with which the `toml` crate refuses to render a table.
#[verifier::external_type_specification]
#[verifier::external_body]
pub struct ExTomlRenderError(toml::ser::Error);

/// The table that `toml::from_str` reads from a text, or `None` where the
/// text is not a TOML document.
pub uninterp spec fn parsed_document(content: Seq<char>) -> Option<toml::Table>;

/// The text that `toml::to_string_pretty` renders a table to, or `None`
/// where it cannot render it.
pub uninterp spec fn rendered_document(table: toml::Table) -> Option<Seq<char>>;

/// The value that a table holds under a key, as `Map::get` finds it.
pub uninterp spec fn table_entry(table: toml::Table, key: Seq<char>) -> Option<toml::Value>;

/// The boolean that a value is, as `Value::as_bool` extracts it.
pub uninterp spec fn value_bool(value: toml::Value) -> Option<bool>;

/// The integer that a value is, as `Value::as_integer` extracts it.
pub uninterp spec fn value_integer(value: toml::Value) -> Option<i64>;

/// The string that a value is, as `Value::as_str` extracts it.
pub uninterp spec fn value_text(value: toml::Value) -> Option<Seq<char>>;

/// The table that a value is, as `Value::as_table` extracts it.
pub uninterp spec fn value_table(value: toml::Value) -> Option<toml::Table>;

/// The items of the array that a value is, as `Value::as_array` extracts
/// them.
pub uninterp spec fn value_items(value: toml::Value) -> Option<Seq<toml::Value>>;

/// Calls `toml::from_str` for a table: parses a TOML document.
#[verifier::external_body]
pub(crate) fn parse(content: &str) -> (parsed: Result<toml::Table, toml::de::Error>)
    ensures
        match parsed {
            Ok(table) => parsed_document(content@) == Some(table),
            Err(_) => parsed_document(content@) is None,
        },
{
    toml::from_str::<toml::Table>(content)
}

/// Calls `to_string` on a parse error: the words that describe it.
#[verifier::external_body]
pub(crate) fn parse_error_text(error: &toml::de::Error) -> (words: String) {
    error.to_string()
}

/// Calls `toml::to_string_pretty` on a table: renders it as a TOML
/// document.
#[verifier::external_body]
pub(crate) fn render(table: &toml::Table) -> (text: Result<String, toml::ser::Error>)
    ensures
        match text {
            Ok(text) => rendered_document(*table) == Some(text@),
            Err(_) => rendered_document(*table) is None,
        },
{
    toml::to_string_pretty(table)
}

/// Calls `to_string` on a render error: the words that describe it.
#[verifier::external_body]
pub(crate) fn render_error_text(error: &toml::ser::Error) -> (words: String) {
    error.to_string()
}

/// Calls `Map::get`: the value under `key`, if the table has one.
#[verifier::external_body]
pub(crate) fn get<'a>(table: &'a toml::Table, key: &str) -> (found: Option<&'a toml::Value>)
    ensures
        match found {
            Some(value) => table_entry(*table, key@) == Some(*value),
            None => table_entry(*table, key@) is None,
        },
{
    table.get(key)
}

/// Calls `Value::as_bool`: the boolean, if the value is one.
#[verifier::external_body]
pub(crate) fn as_bool(value: &toml::Value) -> (found: Option<bool>)
    ensures
        found == value_bool(*value),
{
    value.as_bool()
}

/// Calls `Value::as_integer`: the integer, if the value is one.
#[verifier::external_body]
pub(crate) fn as_integer(value: &toml::Value) -> (found: Option<i64>)
    ensures
        found == value_integer(*value),
{
    value.as_integer()
}

/// Calls `Value::as_str`: the string, if the value is one.
#[verifier::external_body]
pub(crate) fn as_str<'a>(value: &'a toml::Value) -> (found: Option<&'a str>)
    ensures
        match found {
            Some(text) => value_text(*value) == Some(text@),
            None => value_text(*value) is None,
        },
{
    value.as_str()
}

/// Calls `Value::as_table`: the table, if the value is one.
#[verifier::external_body]
pub(crate) fn as_table<'a>(value: &'a toml::Value) -> (found: Option<&'a toml::Table>)
    ensures
        match found {
            Some(table) => value_table(*value) == Some(*table),
            None => value_table(*value) is None,
        },
{
    value.as_table()
}

/// Calls `Value::as_array`: the items, if the value is an array.
#[verifier::external_body]
pub(crate) fn as_array<'a>(value: &'a toml::Value) -> (found: Option<&'a Vec<toml::Value>>)
    ensures
        match found {
            Some(items) => value_items(*value) == Some(items@),
            None => value_items(*value) is None,
        },
{
    value.as_array()
}

/// Calls `Map::new`: a table without entries.
#[verifier::external_body]
pub(crate) fn new_table() -> (table: toml::Table)
    ensures
        forall|key: Seq<char>| table_entry(table, key) is None,
{
    toml::Table::new()
}

/// Calls `Map::insert`: puts `value` under `key`. What the table held
/// under other keys stays.
#[verifier::external_body]
pub(crate) fn insert(table: &mut toml::Table, key: &str, value: toml::Value)
    ensures
        table_entry(*final(table), key@) == Some(value),
        forall|other: Seq<char>|
            #![trigger table_entry(*final(table), other)]
            other != key@ ==> table_entry(*final(table), other) == table_entry(*old(table), other),
{
    table.insert(key.to_owned(), value);
}

/// Makes the value `Value::Boolean`.
#[verifier::external_body]
pub(crate) fn bool_value(flag: bool) -> (value: toml::Value)
    ensures
        value_bool(value) == Some(flag),
{
    toml::Value::Boolean(flag)
}

/// Makes the value `Value::Integer`.
#[verifier::external_body]
pub(crate) fn integer_value(number: i64) -> (value: toml::Value)
    ensures
        value_integer(value) == Some(number),
{
    toml::Value::Integer(number)
}

/// Makes the value `Value::String`.
#[verifier::external_body]
pub(crate) fn text_value(text: &str) -> (value: toml::Value)
    ensures
        value_text(value) == Some(text@),
{
    toml::Value::String(text.to_owned())
}

/// Makes the value `Value::Table`.
#[verifier::external_body]
pub(crate) fn table_value(table: toml::Table) -> (value: toml::Value)
    ensures
        value_table(value) == Some(table),
{
    toml::Value::Table(table)
}

/// Makes the value `Value::Array`.
#[verifier::external_body]
pub(crate) fn array_value(items: Vec<toml::Value>) -> (value: toml::Value)
    ensures
        value_items(value) == Some(items@),
{
    toml::Value::Array(items)
}

} // verus!
