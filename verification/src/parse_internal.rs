//! The manifest codec: a manifest is the section `mod` of a document, each
//! field a string under its key. Parsing and rendering are the outside
//! crates' work; which keys are read and written is decided here.

use vstd::prelude::*;
use vstd::string::*;
use crate::document::{
    doc_of, empty_table, json5_text, member, parse_json5, parse_toml, parsed, put, render_json5,
    render_toml, text, text_value, toml_parse, toml_text, Doc,
};
use crate::nesting::{
    json_nesting, json_within_limit, toml_nesting, toml_within_limit, too_deep, too_deep_text,
    NESTING_LIMIT,
};
use crate::error::ParseError;
use crate::models::{Manifest, Mod, ModView};
use crate::text::join3;

verus! {

/// What a section holds as a mod: every field is the string under its key.
/// Where a string is missing, the first such key in the order of the fields
/// is the error.
pub open spec fn mod_of(section: Doc) -> Result<ModView, Seq<char>> {
    if section.text_at("id"@) is None {
        Err("id"@)
    } else if section.text_at("name"@) is None {
        Err("name"@)
    } else if section.text_at("description"@) is None {
        Err("description"@)
    } else if section.text_at("author"@) is None {
        Err("author"@)
    } else if section.text_at("source-url"@) is None {
        Err("source-url"@)
    } else if section.text_at("download-url"@) is None {
        Err("download-url"@)
    } else if section.text_at("checksum"@) is None {
        Err("checksum"@)
    } else if section.text_at("icon-path"@) is None {
        Err("icon-path"@)
    } else if section.text_at("date"@) is None {
        Err("date"@)
    } else if section.text_at("uk-version"@) is None {
        Err("uk-version"@)
    } else if section.text_at("mod-version"@) is None {
        Err("mod-version"@)
    } else {
        Ok(
            ModView {
                id: section.text_at("id"@)->0,
                name: section.text_at("name"@)->0,
                description: section.text_at("description"@)->0,
                author: section.text_at("author"@)->0,
                source_url: section.text_at("source-url"@)->0,
                download_url: section.text_at("download-url"@)->0,
                checksum: section.text_at("checksum"@)->0,
                icon_path: section.text_at("icon-path"@)->0,
                date: section.text_at("date"@)->0,
                uk_version: section.text_at("uk-version"@)->0,
                mod_version: section.text_at("mod-version"@)->0,
            },
        )
    }
}

/// What a document holds as a manifest: the mod under `mod`.
pub open spec fn manifest_of(doc: Doc) -> Result<ModView, Seq<char>> {
    match doc.member("mod"@) {
        Some(section) => mod_of(section),
        None => Err("mod"@),
    }
}

/// The section of a mod: each field as a string under its key, and nothing
/// else.
pub open spec fn mod_doc(m: ModView) -> Doc {
    Doc::Table(
        Map::<Seq<char>, Doc>::empty().insert("id"@, Doc::Text(m.id)).insert(
            "name"@,
            Doc::Text(m.name),
        ).insert("description"@, Doc::Text(m.description)).insert(
            "author"@,
            Doc::Text(m.author),
        ).insert("source-url"@, Doc::Text(m.source_url)).insert(
            "download-url"@,
            Doc::Text(m.download_url),
        ).insert("checksum"@, Doc::Text(m.checksum)).insert(
            "icon-path"@,
            Doc::Text(m.icon_path),
        ).insert("date"@, Doc::Text(m.date)).insert("uk-version"@, Doc::Text(m.uk_version)).insert(
            "mod-version"@,
            Doc::Text(m.mod_version),
        ),
    )
}

/// The document of a manifest: the section of its mod under `mod`.
pub open spec fn manifest_doc(m: ModView) -> Doc {
    Doc::Table(Map::<Seq<char>, Doc>::empty().insert("mod"@, mod_doc(m)))
}

/// The message for a field that a document lacks.
pub open spec fn missing_field(key: Seq<char>) -> Seq<char> {
    "missing field `"@ + key + "`"@
}

/// What reading a TOML text gives: what the parser makes of it, where the
/// text nests within the limit; else the text is refused.
pub open spec fn toml_read(text: Seq<char>) -> Result<Doc, Seq<char>> {
    if toml_nesting(text) <= NESTING_LIMIT {
        toml_parse(text)
    } else {
        Err(too_deep())
    }
}

/// Whether `r` can be what decoding a JSON5 text gives. Where the bound on
/// the nesting of the text is within the limit, the parser is asked, and `r`
/// is what decoding makes of its answer, whatever that is: a parser that
/// watches the stack does not answer by the text alone. Else the text is
/// refused.
pub open spec fn json_decoded(text: Seq<char>, r: Result<ModView, Seq<char>>) -> bool {
    if json_nesting(text) <= NESTING_LIMIT {
        exists|parse: Result<Doc, Seq<char>>| r == decode(parse)
    } else {
        r == Err::<ModView, Seq<char>>(too_deep())
    }
}

/// What decoding makes of a parse: the manifest that the document holds,
/// the message for the first field it lacks, or the parser's own diagnostic.
pub open spec fn decode(parse: Result<Doc, Seq<char>>) -> Result<ModView, Seq<char>> {
    match parse {
        Ok(doc) => match manifest_of(doc) {
            Ok(m) => Ok(m),
            Err(key) => Err(missing_field(key)),
        },
        Err(fault) => Err(fault),
    }
}

/// What encoding a document as TOML gives: the text that the renderer makes
/// of it, or its diagnostic. A text that would not be read back, because it
/// nests too deep, is refused.
pub open spec fn toml_encoded(doc: Doc) -> Result<Seq<char>, Seq<char>> {
    match toml_text(doc) {
        Ok(text) => if toml_nesting(text) <= NESTING_LIMIT {
            Ok(text)
        } else {
            Err(too_deep())
        },
        Err(fault) => Err(fault),
    }
}

/// What encoding a document as JSON5 gives: the text that the renderer
/// makes of it, or its diagnostic. A text that would not be read back,
/// because it nests too deep, is refused.
pub open spec fn json_encoded(doc: Doc) -> Result<Seq<char>, Seq<char>> {
    match json5_text(doc) {
        Ok(text) => if json_nesting(text) <= NESTING_LIMIT {
            Ok(text)
        } else {
            Err(too_deep())
        },
        Err(fault) => Err(fault),
    }
}

/// The outcome of decoding, as the manifest's value or the error's message.
pub open spec fn decoded(r: Result<Manifest, ParseError>) -> Result<ModView, Seq<char>> {
    match r {
        Ok(manifest) => Ok(manifest@),
        Err(e) => Err(e.message@),
    }
}

/// The outcome of encoding, as the text's characters or the error's message.
pub open spec fn encoded(r: Result<String, ParseError>) -> Result<Seq<char>, Seq<char>> {
    match r {
        Ok(text) => Ok(text@),
        Err(e) => Err(e.message@),
    }
}

fn missing(key: &str) -> (e: ParseError)
    ensures
        e.message@ == missing_field(key@),
{
    ParseError { message: join3("missing field `", key, "`") }
}

/// The string under `key` of a section, if there is one.
pub(crate) fn text_field(section: &toml::Value, key: &str) -> (r: Option<String>)
    ensures
        match r {
            Some(s) => doc_of(*section).text_at(key@) == Some(s@),
            None => doc_of(*section).text_at(key@) is None,
        },
{
    match member(section, key) {
        Some(found) => match text(found) {
            Some(s) => Some(s.to_owned()),
            None => None,
        },
        None => None,
    }
}

/// Reads a manifest out of a parsed document.
pub fn manifest_from_document(doc: &toml::Value) -> (r: Result<Manifest, ParseError>)
    ensures
        decoded(r) == decode(Ok(doc_of(*doc))),
{
    let section = match member(doc, "mod") {
        Some(section) => section,
        None => {
            return Err(missing("mod"));
        },
    };
    let id = match text_field(section, "id") {
        Some(s) => s,
        None => {
            return Err(missing("id"));
        },
    };
    let name = match text_field(section, "name") {
        Some(s) => s,
        None => {
            return Err(missing("name"));
        },
    };
    let description = match text_field(section, "description") {
        Some(s) => s,
        None => {
            return Err(missing("description"));
        },
    };
    let author = match text_field(section, "author") {
        Some(s) => s,
        None => {
            return Err(missing("author"));
        },
    };
    let source_url = match text_field(section, "source-url") {
        Some(s) => s,
        None => {
            return Err(missing("source-url"));
        },
    };
    let download_url = match text_field(section, "download-url") {
        Some(s) => s,
        None => {
            return Err(missing("download-url"));
        },
    };
    let checksum = match text_field(section, "checksum") {
        Some(s) => s,
        None => {
            return Err(missing("checksum"));
        },
    };
    let icon_path = match text_field(section, "icon-path") {
        Some(s) => s,
        None => {
            return Err(missing("icon-path"));
        },
    };
    let date = match text_field(section, "date") {
        Some(s) => s,
        None => {
            return Err(missing("date"));
        },
    };
    let uk_version = match text_field(section, "uk-version") {
        Some(s) => s,
        None => {
            return Err(missing("uk-version"));
        },
    };
    let mod_version = match text_field(section, "mod-version") {
        Some(s) => s,
        None => {
            return Err(missing("mod-version"));
        },
    };
    Ok(
        Manifest {
            mod_data: Mod {
                id,
                name,
                description,
                author,
                source_url,
                download_url,
                checksum,
                icon_path,
                date,
                uk_version,
                mod_version,
            },
        },
    )
}

/// Puts a string under `key` of a table.
pub(crate) fn put_text(table: &mut toml::Value, key: &str, value: &String)
    requires
        doc_of(*old(table)) is Table,
    ensures
        doc_of(*final(table)) == Doc::Table(
            doc_of(*old(table))->Table_0.insert(key@, Doc::Text(value@)),
        ),
{
    put(table, key, text_value(value.clone()));
}

/// Builds the document of a manifest.
pub fn manifest_document(manifest: &Manifest) -> (doc: toml::Value)
    ensures
        doc_of(doc) == manifest_doc(manifest@),
{
    let m = &manifest.mod_data;
    let mut section = empty_table();
    put_text(&mut section, "id", &m.id);
    put_text(&mut section, "name", &m.name);
    put_text(&mut section, "description", &m.description);
    put_text(&mut section, "author", &m.author);
    put_text(&mut section, "source-url", &m.source_url);
    put_text(&mut section, "download-url", &m.download_url);
    put_text(&mut section, "checksum", &m.checksum);
    put_text(&mut section, "icon-path", &m.icon_path);
    put_text(&mut section, "date", &m.date);
    put_text(&mut section, "uk-version", &m.uk_version);
    put_text(&mut section, "mod-version", &m.mod_version);
    let mut doc = empty_table();
    put(&mut doc, "mod", section);
    doc
}

/// The eleven keys of a mod are different texts.
pub proof fn lemma_mod_keys_differ()
    ensures
        "id"@.len() == 2,
        "name"@.len() == 4,
        "description"@.len() == 11,
        "author"@.len() == 6,
        "source-url"@.len() == 10 && "source-url"@[0] == 's',
        "download-url"@.len() == 12,
        "checksum"@.len() == 8,
        "icon-path"@.len() == 9,
        "date"@.len() == 4 && "date"@[0] == 'd',
        "uk-version"@.len() == 10 && "uk-version"@[0] == 'u',
        "mod-version"@.len() == 11 && "mod-version"@[0] == 'm',
        "name"@[0] == 'n',
        "description"@[0] == 'd',
{
    reveal_strlit("id");
    reveal_strlit("name");
    reveal_strlit("description");
    reveal_strlit("author");
    reveal_strlit("source-url");
    reveal_strlit("download-url");
    reveal_strlit("checksum");
    reveal_strlit("icon-path");
    reveal_strlit("date");
    reveal_strlit("uk-version");
    reveal_strlit("mod-version");
}

/// Reading back the document of a manifest gives the manifest: no field is
/// lost or changed between a manifest and its document.
pub proof fn law_manifest_document_round_trip(m: ModView)
    ensures
        manifest_of(manifest_doc(m)) == Ok::<ModView, Seq<char>>(m),
        manifest_doc(m).plain(),
{
    lemma_mod_keys_differ();
    let section = mod_doc(m);
    assert(section.within(2)) by {
        reveal_with_fuel(Doc::within, 2);
    }
}

/// Decoding the TOML text that a manifest was encoded as gives the manifest,
/// for every text that the parser reads back as the document it was
/// rendered from: the rest of the way between a manifest and its text is
/// the codec's own. A text that was encoded nests within the limit, so it is
/// not refused when it is read.
pub proof fn law_manifest_text_round_trip(m: ModView, text: Seq<char>)
    requires
        toml_encoded(manifest_doc(m)) == Ok::<Seq<char>, Seq<char>>(text),
        toml_parse(text) == Ok::<Doc, Seq<char>>(manifest_doc(m)),
    ensures
        decode(toml_read(text)) == Ok::<ModView, Seq<char>>(m),
{
    law_manifest_document_round_trip(m);
}

/// Reads a TOML text as a document. A text that nests deeper than the
/// limit is refused and not handed to the parser.
pub fn read_toml(src: &str) -> (r: Result<toml::Value, String>)
    ensures
        parsed(r) == toml_read(src@),
{
    if toml_within_limit(src) {
        parse_toml(src)
    } else {
        Err(too_deep_text())
    }
}

/// Reads a JSON5 text as a document. A text that nests deeper than the
/// limit is refused and not handed to the parser; of what the
/// parser answers nothing is known.
pub fn read_json5(src: &str) -> (r: Result<toml::Value, String>)
    ensures
        json_nesting(src@) > NESTING_LIMIT ==> parsed(r) == Err::<Doc, Seq<char>>(too_deep()),
{
    if json_within_limit(src) {
        parse_json5(src)
    } else {
        Err(too_deep_text())
    }
}

/// Decodes a manifest from TOML text.
pub fn from_toml(src: &str) -> (r: Result<Manifest, ParseError>)
    ensures
        decoded(r) == decode(toml_read(src@)),
{
    match read_toml(src) {
        Ok(doc) => manifest_from_document(&doc),
        Err(fault) => Err(ParseError { message: fault }),
    }
}

/// Decodes a manifest from JSON5 text: what [`manifest_from_document`]
/// reads out of the parser's document, or the parser's diagnostic.
pub fn from_json(src: &str) -> (r: Result<Manifest, ParseError>)
    ensures
        json_decoded(src@, decoded(r)),
{
    let read = read_json5(src);
    let ghost parse = parsed(read);
    let r = match read {
        Ok(doc) => manifest_from_document(&doc),
        Err(fault) => Err(ParseError { message: fault }),
    };
    assert(decoded(r) == decode(parse));
    r
}

/// Encodes a manifest as TOML text.
pub fn to_toml_string(manifest: &Manifest) -> (r: Result<String, ParseError>)
    ensures
        encoded(r) == toml_encoded(manifest_doc(manifest@)),
{
    let doc = manifest_document(manifest);
    proof {
        law_manifest_document_round_trip(manifest@);
    }
    match render_toml(&doc) {
        Ok(text) => if toml_within_limit(text.as_str()) {
            Ok(text)
        } else {
            Err(ParseError { message: too_deep_text() })
        },
        Err(fault) => Err(ParseError { message: fault }),
    }
}

/// Encodes a manifest as JSON5 text.
pub fn to_json5_string(manifest: &Manifest) -> (r: Result<String, ParseError>)
    ensures
        encoded(r) == json_encoded(manifest_doc(manifest@)),
{
    let doc = manifest_document(manifest);
    proof {
        law_manifest_document_round_trip(manifest@);
    }
    match render_json5(&doc) {
        Ok(text) => if json_within_limit(text.as_str()) {
            Ok(text)
        } else {
            Err(ParseError { message: too_deep_text() })
        },
        Err(fault) => Err(ParseError { message: fault }),
    }
}

} // verus!
