//! The top-level table of a TOML document, as plain values.
//!
//! The TOML grammar is the `toml` crate's business. What the settings file
//! means on top of it — which keys exist, what each must hold, what a missing
//! one defaults to — is ours, and is read from this shape in `settings`.
use vstd::prelude::*;

verus! {

/// One value of the top-level table, as far as the settings file cares.
///
/// Strings and integers keep their contents; every other kind of value is
/// only told apart by its kind, which is all an error message needs.
#[derive(Debug, PartialEq, Eq)]
pub enum TomlValue {
    Str(String),
    Int(i64),
    Float,
    Bool(bool),
    Datetime,
    Array,
    Table,
}

/// The plain value of a `TomlValue`.
pub enum TomlScalar {
    Str(Seq<char>),
    Int(int),
    Float,
    Bool(bool),
    Datetime,
    Array,
    Table,
}

impl View for TomlValue {
    type V = TomlScalar;

    open spec fn view(&self) -> TomlScalar {
        match self {
            TomlValue::Str(s) => TomlScalar::Str(s@),
            TomlValue::Int(i) => TomlScalar::Int(*i as int),
            TomlValue::Float => TomlScalar::Float,
            TomlValue::Bool(b) => TomlScalar::Bool(*b),
            TomlValue::Datetime => TomlScalar::Datetime,
            TomlValue::Array => TomlScalar::Array,
            TomlValue::Table => TomlScalar::Table,
        }
    }
}

/// One key of the top-level table and its value.
#[derive(Debug, PartialEq, Eq)]
pub struct TomlEntry {
    pub key: String,
    pub value: TomlValue,
}

impl View for TomlEntry {
    type V = (Seq<char>, TomlScalar);

    open spec fn view(&self) -> (Seq<char>, TomlScalar) {
        (self.key@, self.value@)
    }
}

/// The entries of a parsed table, as plain values.
pub open spec fn entries_view(es: Seq<TomlEntry>) -> Seq<(Seq<char>, TomlScalar)> {
    es.map_values(|e: TomlEntry| e@)
}

/// The plain value of a parse result: the entries, or the error's text.
pub open spec fn table_result_view(r: Result<Vec<TomlEntry>, String>) -> Result<
    Seq<(Seq<char>, TomlScalar)>,
    Seq<char>,
> {
    match r {
        Ok(es) => Ok(entries_view(es@)),
        Err(m) => Err(m@),
    }
}

/// What the `toml` crate makes of `text` as a whole document: the entries of
/// its top-level table in the order the crate hands them out, or the text of
/// its error.
pub uninterp spec fn toml_table(text: Seq<char>) -> Result<Seq<(Seq<char>, TomlScalar)>, Seq<char>>;

/// Parse `text` with `toml::Table`'s `FromStr` (`toml::from_str`).
///
/// Claimed: the result is `toml_table` of the text, a function of the text
/// alone. Not claimed: anything about which texts parse, or what an error
/// says; both are the crate's.
#[verifier::external_body]
pub(crate) fn parse_table(text: &str) -> (r: Result<Vec<TomlEntry>, String>)
    ensures
        table_result_view(r) == toml_table(text@),
{
    match text.parse::<toml::Table>() {
        Ok(t) => Ok(t.into_iter().map(|(key, v)| TomlEntry { key, value: match v {
            toml::Value::String(s) => TomlValue::Str(s),
            toml::Value::Integer(i) => TomlValue::Int(i),
            toml::Value::Float(_) => TomlValue::Float,
            toml::Value::Boolean(b) => TomlValue::Bool(b),
            toml::Value::Datetime(_) => TomlValue::Datetime,
            toml::Value::Array(_) => TomlValue::Array,
            toml::Value::Table(_) => TomlValue::Table,
        } }).collect()),
        Err(e) => Err(e.to_string()),
    }
}

} // verus!
