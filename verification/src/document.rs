//! Documents as the `toml` crate holds them. A document is opaque to the
//! verifier; [`doc_of`] names what it holds. Every executable function of
//! this module hands one call to an outside crate and is believed, not
//! proved.

use vstd::prelude::*;
use crate::nesting::{json_nesting, toml_nesting, NESTING_LIMIT};

verus! {

#[verifier::external_type_specification]
#[verifier::external_body]
pub struct ExTomlValue(toml::Value);

/// What a document holds. Numbers and dates, which the engine neither reads
/// nor writes, are `Other`.
pub enum Doc {
    Text(Seq<char>),
    Flag(bool),
    List(Seq<Doc>),
    Table(Map<Seq<char>, Doc>),
    Other,
}

impl Doc {
    /// The member under a key: there is one where the document is a table
    /// that holds the key.
    pub open spec fn member(self, key: Seq<char>) -> Option<Doc> {
        match self {
            Doc::Table(members) => if members.contains_key(key) {
                Some(members[key])
            } else {
                None
            },
            _ => None,
        }
    }

    /// The text under a key: there is one where the member is a string.
    pub open spec fn text_at(self, key: Seq<char>) -> Option<Seq<char>> {
        match self.member(key) {
            Some(Doc::Text(text)) => Some(text),
            _ => None,
        }
    }

    /// The boolean under a key: there is one where the member is a boolean.
    pub open spec fn flag_at(self, key: Seq<char>) -> Option<bool> {
        match self.member(key) {
            Some(Doc::Flag(flag)) => Some(flag),
            _ => None,
        }
    }

    /// The elements under a key: there are some where the member is an array.
    pub open spec fn list_at(self, key: Seq<char>) -> Option<Seq<Doc>> {
        match self.member(key) {
            Some(Doc::List(items)) => Some(items),
            _ => None,
        }
    }

    /// Whether the document is made of strings, booleans, arrays and tables
    /// alone, with arrays and tables nested `depth` deep at most.
    pub open spec fn within(self, depth: nat) -> bool
        decreases depth,
    {
        match self {
            Doc::Text(_) => true,
            Doc::Flag(_) => true,
            Doc::List(items) => depth > 0 && forall|i: int|
                0 <= i < items.len() ==> (#[trigger] items[i]).within((depth - 1) as nat),
            Doc::Table(members) => depth > 0 && members.dom().finite() && forall|key: Seq<char>|
                members.contains_key(key) ==> (#[trigger] members[key]).within(
                    (depth - 1) as nat,
                ),
            Doc::Other => false,
        }
    }

    /// Whether the document is one that the engine renders: strings,
    /// booleans, arrays and tables alone, nested three deep at most.
    pub open spec fn plain(self) -> bool {
        self.within(3)
    }
}

/// What an outside document holds.
pub uninterp spec fn doc_of(value: toml::Value) -> Doc;

/// What each document of a list holds.
pub open spec fn docs_of(values: Seq<toml::Value>) -> Seq<Doc> {
    values.map_values(|value: toml::Value| doc_of(value))
}

/// What `toml::from_str` makes of a text: the document, or the display form
/// of the crate's error.
pub uninterp spec fn toml_parse(text: Seq<char>) -> Result<Doc, Seq<char>>;

/// What `toml::to_string` makes of a document: the text, or the display form
/// of the crate's error.
pub uninterp spec fn toml_text(doc: Doc) -> Result<Seq<char>, Seq<char>>;

/// What `toml::to_string_pretty` makes of a document: the text, or the
/// display form of the crate's error.
pub uninterp spec fn toml_pretty(doc: Doc) -> Result<Seq<char>, Seq<char>>;

/// What `json5::to_string` makes of a document: the text, or the display
/// form of the crate's error.
pub uninterp spec fn json5_text(doc: Doc) -> Result<Seq<char>, Seq<char>>;

/// The outcome of a parse, with the document as what it holds and the error
/// as its characters.
pub open spec fn parsed(r: Result<toml::Value, String>) -> Result<Doc, Seq<char>> {
    match r {
        Ok(value) => Ok(doc_of(value)),
        Err(fault) => Err(fault@),
    }
}

/// The outcome of a rendering, with the text and the error as their
/// characters.
pub open spec fn rendered(r: Result<String, String>) -> Result<Seq<char>, Seq<char>> {
    match r {
        Ok(text) => Ok(text@),
        Err(fault) => Err(fault@),
    }
}

/// `toml::from_str` at the type `toml::Value`: the parsed document or the
/// display form of the crate's error, named by [`toml_parse`]. The crate
/// descends once for every array and inline table that is open and for every
/// part of a dotted key or of a table's header, without a limit of its own:
/// texts that nest deeper than the limit are left out.
#[verifier::external_body]
pub(crate) fn parse_toml(src: &str) -> (r: Result<toml::Value, String>)
    requires
        toml_nesting(src@) <= NESTING_LIMIT,
    ensures
        parsed(r) == toml_parse(src@),
{
    toml::from_str::<toml::Value>(src).map_err(|fault| fault.to_string())
}

/// `toml::to_string` on a document of strings, booleans, arrays and tables,
/// nested three deep at most: the text or the display form of the crate's
/// error, named by [`toml_text`].
#[verifier::external_body]
pub(crate) fn render_toml(doc: &toml::Value) -> (r: Result<String, String>)
    requires
        doc_of(*doc).plain(),
    ensures
        rendered(r) == toml_text(doc_of(*doc)),
{
    toml::to_string(doc).map_err(|fault| fault.to_string())
}

/// `toml::to_string_pretty` on a document of strings, booleans, arrays and
/// tables, nested three deep at most: the text or the display form of the
/// crate's error, named by [`toml_pretty`].
#[verifier::external_body]
pub(crate) fn render_toml_pretty(doc: &toml::Value) -> (r: Result<String, String>)
    requires
        doc_of(*doc).plain(),
    ensures
        rendered(r) == toml_pretty(doc_of(*doc)),
{
    toml::to_string_pretty(doc).map_err(|fault| fault.to_string())
}

/// `json5::from_str` at the type `toml::Value`: the parsed document or the
/// display form of the crate's error. The crate's parser gives up where the
/// stack of the thread runs low or a limit of the process is reached, so the
/// outcome is not the text's alone and nothing is said of it. After the parse
/// the crate descends once for every array and object that is open: texts
/// that nest deeper than the limit are left out.
#[verifier::external_body]
pub(crate) fn parse_json5(src: &str) -> (r: Result<toml::Value, String>)
    requires
        json_nesting(src@) <= NESTING_LIMIT,
{
    json5::from_str::<toml::Value>(src).map_err(|fault| fault.to_string())
}

/// `json5::to_string` on a document of strings, booleans, arrays and tables,
/// nested three deep at most: the text or the display form of the crate's
/// error, named by [`json5_text`].
#[verifier::external_body]
pub(crate) fn render_json5(doc: &toml::Value) -> (r: Result<String, String>)
    requires
        doc_of(*doc).plain(),
    ensures
        rendered(r) == json5_text(doc_of(*doc)),
{
    json5::to_string(doc).map_err(|fault| fault.to_string())
}

/// `toml::Value::get` with a string index: the member under `key` where the
/// document is a table that holds it, else none.
#[verifier::external_body]
pub(crate) fn member<'a>(doc: &'a toml::Value, key: &str) -> (r: Option<&'a toml::Value>)
    ensures
        match r {
            Some(found) => doc_of(*doc).member(key@) == Some(doc_of(*found)),
            None => doc_of(*doc).member(key@) is None,
        },
{
    doc.get(key)
}

/// `toml::Value::as_str`: the text where the document is a string, else
/// none.
#[verifier::external_body]
pub(crate) fn text<'a>(doc: &'a toml::Value) -> (r: Option<&'a str>)
    ensures
        match r {
            Some(s) => doc_of(*doc) == Doc::Text(s@),
            None => !(doc_of(*doc) is Text),
        },
{
    doc.as_str()
}

/// `toml::Value::as_bool`: the value where the document is a boolean, else
/// none.
#[verifier::external_body]
pub(crate) fn flag(doc: &toml::Value) -> (r: Option<bool>)
    ensures
        match r {
            Some(b) => doc_of(*doc) == Doc::Flag(b),
            None => !(doc_of(*doc) is Flag),
        },
{
    doc.as_bool()
}

/// `toml::Value::as_array`: the elements where the document is an array,
/// else none.
#[verifier::external_body]
pub(crate) fn list<'a>(doc: &'a toml::Value) -> (r: Option<&'a Vec<toml::Value>>)
    ensures
        match r {
            Some(items) => doc_of(*doc) == Doc::List(docs_of(items@)),
            None => !(doc_of(*doc) is List),
        },
{
    doc.as_array()
}

/// The variant `toml::Value::String`: a document that is a string and holds
/// `s`.
#[verifier::external_body]
pub(crate) fn text_value(s: String) -> (r: toml::Value)
    ensures
        doc_of(r) == Doc::Text(s@),
{
    toml::Value::String(s)
}

/// The variant `toml::Value::Boolean`: a document that is a boolean and
/// holds `b`.
#[verifier::external_body]
pub(crate) fn flag_value(b: bool) -> (r: toml::Value)
    ensures
        doc_of(r) == Doc::Flag(b),
{
    toml::Value::Boolean(b)
}

/// The variant `toml::Value::Array`: a document that is an array and holds
/// `items` in their order.
#[verifier::external_body]
pub(crate) fn list_value(items: Vec<toml::Value>) -> (r: toml::Value)
    ensures
        doc_of(r) == Doc::List(docs_of(items@)),
{
    toml::Value::Array(items)
}

/// The variant `toml::Value::Table` around `toml::map::Map::new`: a document
/// that is a table and holds nothing.
#[verifier::external_body]
pub(crate) fn empty_table() -> (r: toml::Value)
    ensures
        doc_of(r) == Doc::Table(Map::<Seq<char>, Doc>::empty()),
{
    toml::Value::Table(toml::map::Map::new())
}

/// `toml::map::Map::insert` on the table of a document: afterwards the table
/// holds `value` under `key`, and under every other key what it held before.
#[verifier::external_body]
pub(crate) fn put(table: &mut toml::Value, key: &str, value: toml::Value)
    requires
        doc_of(*old(table)) is Table,
    ensures
        doc_of(*final(table)) == Doc::Table(
            doc_of(*old(table))->Table_0.insert(key@, doc_of(value)),
        ),
{
    match table {
        toml::Value::Table(members) => {
            members.insert(key.to_owned(), value);
        },
        _ => {},
    }
}

} // verus!
