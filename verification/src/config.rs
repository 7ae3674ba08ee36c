//! The embedded configuration block: a structured key-to-value document
//! whose top-level entries assign semantic roles (or literal initial values)
//! to uniforms by name.  The document syntax is TOML; parsing is delegated
//! to the `toml` crate behind one trusted wrapper, and everything decided
//! about the parsed entries happens in verified code.

use vstd::prelude::*;

verus! {

/// A top-level configuration value, reduced to what role resolution reads:
/// a text value (a role hint), an integer literal, or anything else
/// (floats, booleans, dates, arrays, tables), which resolution ignores.
#[derive(Debug, PartialEq, Eq)]
pub enum ConfigValue {
    Text(String),
    Integer(i64),
    Other,
}

/// One top-level configuration entry: a uniform name and its value.
#[derive(Debug, PartialEq, Eq)]
pub struct ConfigEntry {
    pub key: String,
    pub value: ConfigValue,
}

/// The mathematical value of a [`ConfigValue`].
#[verifier::ext_equal]
pub enum ConfigValueView {
    Text(Seq<char>),
    Integer(i64),
    Other,
}

/// The mathematical value of a [`ConfigEntry`].
#[verifier::ext_equal]
pub struct EntryView {
    pub key: Seq<char>,
    pub value: ConfigValueView,
}

impl View for ConfigValue {
    type V = ConfigValueView;

    open spec fn view(&self) -> ConfigValueView {
        match self {
            ConfigValue::Text(s) => ConfigValueView::Text(s@),
            ConfigValue::Integer(n) => ConfigValueView::Integer(*n),
            ConfigValue::Other => ConfigValueView::Other,
        }
    }
}

impl View for ConfigEntry {
    type V = EntryView;

    open spec fn view(&self) -> EntryView {
        EntryView { key: self.key@, value: self.value@ }
    }
}

pub open spec fn entry_views(es: Seq<ConfigEntry>) -> Seq<EntryView> {
    es.map_values(|e: ConfigEntry| e@)
}

/// What the `toml` crate's document parser yields on the given text: `None`
/// when the text is not a well-formed TOML document, otherwise the document's
/// top-level entries in the parser's (deterministic, key-sorted) order, each
/// reduced as [`ConfigValue`] describes.  The parse is a function of the text
/// alone; this name stands for its result, stated only by the trusted wrapper
/// below.
pub uninterp spec fn toml_top_level_entries(text: Seq<u8>) -> Option<Seq<EntryView>>;

/// Relies on `str::parse::<toml::Value>` (the `toml` crate): parsing a
/// well-formed TOML document yields `Value::Table` with the top-level
/// entries; parsing anything else fails with a diagnostic.  The body only
/// converts: UTF-8 decoding feeds the parser (a TOML document must be UTF-8,
/// so undecodable text is a parse failure), and each entry's value moves
/// into [`ConfigValue`] one variant arm at a time.
#[verifier::external_body]
pub(crate) fn parse_config_block(text: &[u8]) -> (r: Result<Vec<ConfigEntry>, String>)
    ensures
        r is Ok <==> toml_top_level_entries(text@) is Some,
        r matches Ok(entries) ==> toml_top_level_entries(text@) == Some(entry_views(entries@)),
{
    let source = std::str::from_utf8(text).map_err(|error| error.to_string())?;
    let document: toml::Value = source.parse().map_err(|error: toml::de::Error| error.to_string())?;
    let mut entries = Vec::new();
    if let toml::Value::Table(table) = document {
        for (key, value) in table {
            let value = match value {
                toml::Value::String(text) => ConfigValue::Text(text),
                toml::Value::Integer(number) => ConfigValue::Integer(number),
                _ => ConfigValue::Other,
            };
            entries.push(ConfigEntry { key, value });
        }
    }
    Ok(entries)
}

} // verus!
