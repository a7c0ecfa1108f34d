//! The persisted forms of the lock state and of the configuration: which
//! keys of a document hold which field. Parsing and rendering are the `toml`
//! crate's work.

use vstd::prelude::*;
use crate::document::{
    doc_of, docs_of, empty_table, flag, flag_value, list, list_value, member, put,
    render_toml_pretty, toml_parse, toml_pretty, Doc,
};
use crate::effects::{Request, RequestView};
use crate::error::{ErrorKind, Failure, RuntimeError};
use crate::models::{
    saved, ConfigMeta, ConfigView, LockFile, LockView, MetaView, ModLockRecord, ModRecordView,
    PatternLockRecord, PatternRecordView, Save, UMMConfig, UserConfig, UserView,
};
use crate::paths::{join, path_join};
use crate::nesting::{toml_nesting, toml_within_limit, NESTING_LIMIT};
use crate::parse_internal::{put_text, read_toml, text_field, toml_read};

verus! {

/// What a table holds as a mod record: four strings and a boolean, each
/// under its key; none where one is missing.
pub open spec fn mod_record_of(d: Doc) -> Option<ModRecordView> {
    if d.text_at("name"@) is Some && d.text_at("id"@) is Some && d.text_at("description"@) is Some
        && d.text_at("version"@) is Some && d.flag_at("autoload"@) is Some {
        Some(
            ModRecordView {
                name: d.text_at("name"@)->0,
                id: d.text_at("id"@)->0,
                description: d.text_at("description"@)->0,
                version: d.text_at("version"@)->0,
                autoload: d.flag_at("autoload"@)->0,
            },
        )
    } else {
        None
    }
}

/// The table of a mod record.
pub open spec fn mod_record_doc(r: ModRecordView) -> Doc {
    Doc::Table(
        Map::<Seq<char>, Doc>::empty().insert("name"@, Doc::Text(r.name)).insert(
            "id"@,
            Doc::Text(r.id),
        ).insert("description"@, Doc::Text(r.description)).insert(
            "version"@,
            Doc::Text(r.version),
        ).insert("autoload"@, Doc::Flag(r.autoload)),
    )
}

/// What a table holds as a pattern record: two strings, each under its key;
/// none where one is missing.
pub open spec fn pattern_record_of(d: Doc) -> Option<PatternRecordView> {
    if d.text_at("name"@) is Some && d.text_at("version"@) is Some {
        Some(PatternRecordView { name: d.text_at("name"@)->0, version: d.text_at("version"@)->0 })
    } else {
        None
    }
}

/// The table of a pattern record.
pub open spec fn pattern_record_doc(r: PatternRecordView) -> Doc {
    Doc::Table(
        Map::<Seq<char>, Doc>::empty().insert("name"@, Doc::Text(r.name)).insert(
            "version"@,
            Doc::Text(r.version),
        ),
    )
}

/// What a list holds as mod records; none where an element is no record.
pub open spec fn mod_records_of(items: Seq<Doc>) -> Option<Seq<ModRecordView>> {
    if forall|i: int| 0 <= i < items.len() ==> mod_record_of(#[trigger] items[i]) is Some {
        Some(items.map_values(|d: Doc| mod_record_of(d)->0))
    } else {
        None
    }
}

/// What a list holds as pattern records; none where an element is no record.
pub open spec fn pattern_records_of(items: Seq<Doc>) -> Option<Seq<PatternRecordView>> {
    if forall|i: int| 0 <= i < items.len() ==> pattern_record_of(#[trigger] items[i]) is Some {
        Some(items.map_values(|d: Doc| pattern_record_of(d)->0))
    } else {
        None
    }
}

/// What a document holds as a lock state: the records under `mods` and those
/// under `patterns`; none where a list or a field is missing.
pub open spec fn lock_of(doc: Doc) -> Option<LockView> {
    match (doc.list_at("mods"@), doc.list_at("patterns"@)) {
        (Some(mods), Some(patterns)) => match (mod_records_of(mods), pattern_records_of(patterns)) {
            (Some(mods), Some(patterns)) => Some(LockView { mods, patterns }),
            _ => None,
        },
        _ => None,
    }
}

/// The document of a lock state.
pub open spec fn lock_doc(lock: LockView) -> Doc {
    Doc::Table(
        Map::<Seq<char>, Doc>::empty().insert(
            "mods"@,
            Doc::List(lock.mods.map_values(|r: ModRecordView| mod_record_doc(r))),
        ).insert(
            "patterns"@,
            Doc::List(lock.patterns.map_values(|r: PatternRecordView| pattern_record_doc(r))),
        ),
    )
}

/// What a table holds as the locations: six strings, each under its key;
/// none where one is missing.
pub open spec fn meta_of(d: Doc) -> Option<MetaView> {
    if d.text_at("ultrakill-path"@) is Some && d.text_at("ultrakill-mods"@) is Some && d.text_at(
        "ultrakill-patterns"@,
    ) is Some && d.text_at("umm-dir"@) is Some && d.text_at("mods-dir"@) is Some && d.text_at(
        "patterns-dir"@,
    ) is Some {
        Some(
            MetaView {
                ultrakill_path: d.text_at("ultrakill-path"@)->0,
                ultrakill_mods: d.text_at("ultrakill-mods"@)->0,
                ultrakill_patterns: d.text_at("ultrakill-patterns"@)->0,
                umm_dir: d.text_at("umm-dir"@)->0,
                mods_dir: d.text_at("mods-dir"@)->0,
                patterns_dir: d.text_at("patterns-dir"@)->0,
            },
        )
    } else {
        None
    }
}

/// The table of the locations.
pub open spec fn meta_doc(m: MetaView) -> Doc {
    Doc::Table(
        Map::<Seq<char>, Doc>::empty().insert(
            "ultrakill-path"@,
            Doc::Text(m.ultrakill_path),
        ).insert("ultrakill-mods"@, Doc::Text(m.ultrakill_mods)).insert(
            "ultrakill-patterns"@,
            Doc::Text(m.ultrakill_patterns),
        ).insert(
            "umm-dir"@,
            Doc::Text(m.umm_dir),
        ).insert("mods-dir"@, Doc::Text(m.mods_dir)).insert(
            "patterns-dir"@,
            Doc::Text(m.patterns_dir),
        ),
    )
}

/// What a table holds as the user's settings; none where the token is
/// missing.
pub open spec fn user_of(d: Doc) -> Option<UserView> {
    match d.text_at("user-token"@) {
        Some(user_token) => Some(UserView { user_token }),
        None => None,
    }
}

/// The table of the user's settings.
pub open spec fn user_doc(u: UserView) -> Doc {
    Doc::Table(Map::<Seq<char>, Doc>::empty().insert("user-token"@, Doc::Text(u.user_token)))
}

/// What a document holds as a configuration: the locations under `meta` and
/// the user's settings under `user`; none where a section or a field is
/// missing.
pub open spec fn config_of(doc: Doc) -> Option<ConfigView> {
    match (doc.member("meta"@), doc.member("user"@)) {
        (Some(meta), Some(user)) => match (meta_of(meta), user_of(user)) {
            (Some(meta), Some(user)) => Some(ConfigView { meta, user }),
            _ => None,
        },
        _ => None,
    }
}

/// The document of a configuration.
pub open spec fn config_doc(config: ConfigView) -> Doc {
    Doc::Table(
        Map::<Seq<char>, Doc>::empty().insert("meta"@, meta_doc(config.meta)).insert(
            "user"@,
            user_doc(config.user),
        ),
    )
}

/// The outcome of decoding, as the value that was read.
pub open spec fn read_lock(r: Option<LockFile>) -> Option<LockView> {
    match r {
        Some(lock) => Some(lock@),
        None => None,
    }
}

/// The outcome of decoding, as the value that was read.
pub open spec fn read_config(r: Option<UMMConfig>) -> Option<ConfigView> {
    match r {
        Some(config) => Some(config@),
        None => None,
    }
}

/// The lock state that a text holds: none where the text is no TOML or the
/// document is no lock state.
pub open spec fn lock_in(text: Seq<char>) -> Option<LockView> {
    match toml_read(text) {
        Ok(doc) => lock_of(doc),
        Err(_) => None,
    }
}

/// The configuration that a text holds: none where the text is no TOML or
/// the document is no configuration.
pub open spec fn config_in(text: Seq<char>) -> Option<ConfigView> {
    match toml_read(text) {
        Ok(doc) => config_of(doc),
        Err(_) => None,
    }
}

/// The text of a document that is to be written: what the renderer makes of
/// it; none where the renderer fails, and none where the text could not be
/// read back because it nests too deep.
pub open spec fn file_text(doc: Doc) -> Option<Seq<char>> {
    match toml_pretty(doc) {
        Ok(text) => if toml_nesting(text) <= NESTING_LIMIT {
            Some(text)
        } else {
            None
        },
        Err(_) => None,
    }
}

/// The text of a lock state, where it has one.
pub open spec fn lock_text(lock: LockView) -> Option<Seq<char>> {
    file_text(lock_doc(lock))
}

/// The text of a configuration, where it has one.
pub open spec fn config_text(config: ConfigView) -> Option<Seq<char>> {
    file_text(config_doc(config))
}

/// The outcome of encoding, as the characters that were written.
pub open spec fn written(r: Option<String>) -> Option<Seq<char>> {
    match r {
        Some(text) => Some(text@),
        None => None,
    }
}

fn flag_field(section: &toml::Value, key: &str) -> (r: Option<bool>)
    ensures
        r == doc_of(*section).flag_at(key@),
{
    match member(section, key) {
        Some(found) => flag(found),
        None => None,
    }
}

fn mod_record_from_document(d: &toml::Value) -> (r: Option<ModLockRecord>)
    ensures
        match r {
            Some(record) => mod_record_of(doc_of(*d)) == Some(record@),
            None => mod_record_of(doc_of(*d)) is None,
        },
{
    let name = match text_field(d, "name") {
        Some(s) => s,
        None => {
            return None;
        },
    };
    let id = match text_field(d, "id") {
        Some(s) => s,
        None => {
            return None;
        },
    };
    let description = match text_field(d, "description") {
        Some(s) => s,
        None => {
            return None;
        },
    };
    let version = match text_field(d, "version") {
        Some(s) => s,
        None => {
            return None;
        },
    };
    let autoload = match flag_field(d, "autoload") {
        Some(b) => b,
        None => {
            return None;
        },
    };
    Some(ModLockRecord { name, id, description, version, autoload })
}

fn pattern_record_from_document(d: &toml::Value) -> (r: Option<PatternLockRecord>)
    ensures
        match r {
            Some(record) => pattern_record_of(doc_of(*d)) == Some(record@),
            None => pattern_record_of(doc_of(*d)) is None,
        },
{
    let name = match text_field(d, "name") {
        Some(s) => s,
        None => {
            return None;
        },
    };
    let version = match text_field(d, "version") {
        Some(s) => s,
        None => {
            return None;
        },
    };
    Some(PatternLockRecord { name, version })
}

fn list_field<'a>(doc: &'a toml::Value, key: &str) -> (r: Option<&'a Vec<toml::Value>>)
    ensures
        match r {
            Some(items) => doc_of(*doc).list_at(key@) == Some(docs_of(items@)),
            None => doc_of(*doc).list_at(key@) is None,
        },
{
    match member(doc, key) {
        Some(found) => list(found),
        None => None,
    }
}

/// Reads a lock state out of a parsed document.
pub fn lock_from_document(doc: &toml::Value) -> (r: Option<LockFile>)
    ensures
        read_lock(r) == lock_of(doc_of(*doc)),
{
    let mod_items = match list_field(doc, "mods") {
        Some(items) => items,
        None => {
            return None;
        },
    };
    let pattern_items = match list_field(doc, "patterns") {
        Some(items) => items,
        None => {
            return None;
        },
    };
    let ghost mod_docs = docs_of(mod_items@);
    let ghost pattern_docs = docs_of(pattern_items@);
    let mut mods: Vec<ModLockRecord> = Vec::new();
    let mut i: usize = 0;
    while i < mod_items.len()
        invariant
            i <= mod_items@.len(),
            mods@.len() == i,
            mod_docs == docs_of(mod_items@),
            doc_of(*doc).list_at("mods"@) == Some(mod_docs),
            doc_of(*doc).list_at("patterns"@) is Some,
            forall|k: int| 0 <= k < i ==> mod_record_of(#[trigger] mod_docs[k]) == Some(mods@[k]@),
        decreases mod_items@.len() - i,
    {
        match mod_record_from_document(&mod_items[i]) {
            Some(record) => {
                mods.push(record);
            },
            None => {
                assert(mod_record_of(mod_docs[i as int]) is None);
                return None;
            },
        }
        i = i + 1;
    }
    let mut patterns: Vec<PatternLockRecord> = Vec::new();
    let mut j: usize = 0;
    while j < pattern_items.len()
        invariant
            j <= pattern_items@.len(),
            patterns@.len() == j,
            pattern_docs == docs_of(pattern_items@),
            doc_of(*doc).list_at("mods"@) is Some,
            doc_of(*doc).list_at("patterns"@) == Some(pattern_docs),
            forall|k: int|
                0 <= k < j ==> pattern_record_of(#[trigger] pattern_docs[k]) == Some(
                    patterns@[k]@,
                ),
        decreases pattern_items@.len() - j,
    {
        match pattern_record_from_document(&pattern_items[j]) {
            Some(record) => {
                patterns.push(record);
            },
            None => {
                assert(pattern_record_of(pattern_docs[j as int]) is None);
                return None;
            },
        }
        j = j + 1;
    }
    let lock = LockFile { mods, patterns };
    assert(lock@.mods =~= mod_records_of(mod_docs)->0);
    assert(lock@.patterns =~= pattern_records_of(pattern_docs)->0);
    Some(lock)
}

fn mod_record_document(record: &ModLockRecord) -> (d: toml::Value)
    ensures
        doc_of(d) == mod_record_doc(record@),
{
    let mut d = empty_table();
    put_text(&mut d, "name", &record.name);
    put_text(&mut d, "id", &record.id);
    put_text(&mut d, "description", &record.description);
    put_text(&mut d, "version", &record.version);
    put(&mut d, "autoload", flag_value(record.autoload));
    d
}

fn pattern_record_document(record: &PatternLockRecord) -> (d: toml::Value)
    ensures
        doc_of(d) == pattern_record_doc(record@),
{
    let mut d = empty_table();
    put_text(&mut d, "name", &record.name);
    put_text(&mut d, "version", &record.version);
    d
}

/// Builds the document of a lock state.
pub fn lock_document(lock: &LockFile) -> (doc: toml::Value)
    ensures
        doc_of(doc) == lock_doc(lock@),
{
    let mut mods: Vec<toml::Value> = Vec::new();
    let mut i: usize = 0;
    while i < lock.mods.len()
        invariant
            i <= lock.mods@.len(),
            mods@.len() == i,
            forall|k: int|
                0 <= k < i ==> doc_of(#[trigger] mods@[k]) == mod_record_doc(lock.mods@[k]@),
        decreases lock.mods@.len() - i,
    {
        mods.push(mod_record_document(&lock.mods[i]));
        i = i + 1;
    }
    let mut patterns: Vec<toml::Value> = Vec::new();
    let mut j: usize = 0;
    while j < lock.patterns.len()
        invariant
            j <= lock.patterns@.len(),
            patterns@.len() == j,
            forall|k: int|
                0 <= k < j ==> doc_of(#[trigger] patterns@[k]) == pattern_record_doc(
                    lock.patterns@[k]@,
                ),
        decreases lock.patterns@.len() - j,
    {
        patterns.push(pattern_record_document(&lock.patterns[j]));
        j = j + 1;
    }
    assert(docs_of(mods@) =~= lock@.mods.map_values(|r: ModRecordView| mod_record_doc(r)));
    assert(docs_of(patterns@) =~= lock@.patterns.map_values(
        |r: PatternRecordView| pattern_record_doc(r),
    ));
    let mut doc = empty_table();
    put(&mut doc, "mods", list_value(mods));
    put(&mut doc, "patterns", list_value(patterns));
    doc
}

/// Reads a configuration out of a parsed document.
pub fn config_from_document(doc: &toml::Value) -> (r: Option<UMMConfig>)
    ensures
        read_config(r) == config_of(doc_of(*doc)),
{
    let meta = match member(doc, "meta") {
        Some(section) => section,
        None => {
            return None;
        },
    };
    let user = match member(doc, "user") {
        Some(section) => section,
        None => {
            return None;
        },
    };
    let ultrakill_path = match text_field(meta, "ultrakill-path") {
        Some(s) => s,
        None => {
            return None;
        },
    };
    let ultrakill_mods = match text_field(meta, "ultrakill-mods") {
        Some(s) => s,
        None => {
            return None;
        },
    };
    let ultrakill_patterns = match text_field(meta, "ultrakill-patterns") {
        Some(s) => s,
        None => {
            return None;
        },
    };
    let umm_dir = match text_field(meta, "umm-dir") {
        Some(s) => s,
        None => {
            return None;
        },
    };
    let mods_dir = match text_field(meta, "mods-dir") {
        Some(s) => s,
        None => {
            return None;
        },
    };
    let patterns_dir = match text_field(meta, "patterns-dir") {
        Some(s) => s,
        None => {
            return None;
        },
    };
    let user_token = match text_field(user, "user-token") {
        Some(s) => s,
        None => {
            return None;
        },
    };
    Some(
        UMMConfig {
            meta: ConfigMeta {
                ultrakill_path,
                ultrakill_mods,
                ultrakill_patterns,
                umm_dir,
                mods_dir,
                patterns_dir,
            },
            user: UserConfig { user_token },
        },
    )
}

/// Builds the document of a configuration.
pub fn config_document(config: &UMMConfig) -> (doc: toml::Value)
    ensures
        doc_of(doc) == config_doc(config@),
{
    let mut meta = empty_table();
    put_text(&mut meta, "ultrakill-path", &config.meta.ultrakill_path);
    put_text(&mut meta, "ultrakill-mods", &config.meta.ultrakill_mods);
    put_text(&mut meta, "ultrakill-patterns", &config.meta.ultrakill_patterns);
    put_text(&mut meta, "umm-dir", &config.meta.umm_dir);
    put_text(&mut meta, "mods-dir", &config.meta.mods_dir);
    put_text(&mut meta, "patterns-dir", &config.meta.patterns_dir);
    let mut user = empty_table();
    put_text(&mut user, "user-token", &config.user.user_token);
    let mut doc = empty_table();
    put(&mut doc, "meta", meta);
    put(&mut doc, "user", user);
    doc
}

/// The keys of the persisted records and sections are different texts.
pub proof fn lemma_persist_keys_differ()
    ensures
        "name"@.len() == 4,
        "id"@.len() == 2,
        "description"@.len() == 11,
        "version"@.len() == 7,
        "autoload"@.len() == 8,
        "mods"@.len() == 4 && "mods"@[0] == 'm',
        "patterns"@.len() == 8 && "patterns"@[0] == 'p',
        "meta"@.len() == 4 && "meta"@[1] == 'e',
        "user"@.len() == 4 && "user"@[1] == 's',
        "ultrakill-path"@.len() == 14,
        "ultrakill-mods"@.len() == 14,
        "ultrakill-path"@[10] == 'p',
        "ultrakill-mods"@[10] == 'm',
        "ultrakill-patterns"@.len() == 18,
        "umm-dir"@.len() == 7,
        "mods-dir"@.len() == 8,
        "patterns-dir"@.len() == 12,
        "user-token"@.len() == 10,
{
    reveal_strlit("name");
    reveal_strlit("id");
    reveal_strlit("description");
    reveal_strlit("version");
    reveal_strlit("autoload");
    reveal_strlit("mods");
    reveal_strlit("patterns");
    reveal_strlit("meta");
    reveal_strlit("user");
    reveal_strlit("ultrakill-path");
    reveal_strlit("ultrakill-mods");
    reveal_strlit("ultrakill-patterns");
    reveal_strlit("umm-dir");
    reveal_strlit("mods-dir");
    reveal_strlit("patterns-dir");
    reveal_strlit("user-token");
}

/// Reading back the table of a mod record gives the record.
pub proof fn lemma_mod_record_round_trip(r: ModRecordView)
    ensures
        mod_record_of(mod_record_doc(r)) == Some(r),
        mod_record_doc(r).within(1),
{
    lemma_persist_keys_differ();
    assert(mod_record_doc(r).within(1)) by {
        reveal_with_fuel(Doc::within, 2);
    }
}

/// Reading back the table of a pattern record gives the record.
pub proof fn lemma_pattern_record_round_trip(r: PatternRecordView)
    ensures
        pattern_record_of(pattern_record_doc(r)) == Some(r),
        pattern_record_doc(r).within(1),
{
    lemma_persist_keys_differ();
    assert(pattern_record_doc(r).within(1)) by {
        reveal_with_fuel(Doc::within, 2);
    }
}

/// Reading back the document of a lock state gives the lock state: no record
/// and no field is lost or changed between a lock state and its document.
pub proof fn law_lock_document_round_trip(lock: LockView)
    ensures
        lock_of(lock_doc(lock)) == Some(lock),
        lock_doc(lock).plain(),
{
    lemma_persist_keys_differ();
    let mods = lock.mods.map_values(|r: ModRecordView| mod_record_doc(r));
    let patterns = lock.patterns.map_values(|r: PatternRecordView| pattern_record_doc(r));
    assert forall|i: int| 0 <= i < mods.len() implies mod_record_of(#[trigger] mods[i]) == Some(
        lock.mods[i],
    ) && mods[i].within(1) by {
        lemma_mod_record_round_trip(lock.mods[i]);
    }
    assert forall|i: int| 0 <= i < patterns.len() implies pattern_record_of(
        #[trigger] patterns[i],
    ) == Some(lock.patterns[i]) && patterns[i].within(1) by {
        lemma_pattern_record_round_trip(lock.patterns[i]);
    }
    assert(mod_records_of(mods)->0 =~= lock.mods);
    assert(pattern_records_of(patterns)->0 =~= lock.patterns);
    assert(Doc::List(mods).within(2));
    assert(Doc::List(patterns).within(2));
}

/// Reading back the document of a configuration gives the configuration.
pub proof fn law_config_document_round_trip(config: ConfigView)
    ensures
        config_of(config_doc(config)) == Some(config),
        config_doc(config).plain(),
{
    lemma_persist_keys_differ();
    let meta = meta_doc(config.meta);
    let user = user_doc(config.user);
    assert(meta.within(2) && user.within(2)) by {
        reveal_with_fuel(Doc::within, 2);
    }
}

/// Decoding the text of a lock state gives the lock state, for every text
/// that the codec reads back as the document it was rendered from: the
/// rest of the way between a lock state and its text is the codec's own.
pub proof fn law_lock_text_round_trip(lock: LockView, text: Seq<char>)
    requires
        lock_text(lock) == Some(text),
        toml_parse(text) == Ok::<Doc, Seq<char>>(lock_doc(lock)),
    ensures
        lock_in(text) == Some(lock),
{
    law_lock_document_round_trip(lock);
}

/// Decoding the text of a configuration gives the configuration, for every
/// text that the codec reads back as the document it was rendered from.
pub proof fn law_config_text_round_trip(config: ConfigView, text: Seq<char>)
    requires
        config_text(config) == Some(text),
        toml_parse(text) == Ok::<Doc, Seq<char>>(config_doc(config)),
    ensures
        config_in(text) == Some(config),
{
    law_config_document_round_trip(config);
}

/// Decodes a lock state from the text of a lock file.
pub fn lock_from_toml(text: &str) -> (r: Option<LockFile>)
    ensures
        read_lock(r) == lock_in(text@),
{
    match read_toml(text) {
        Ok(doc) => lock_from_document(&doc),
        Err(_) => None,
    }
}

/// Encodes a lock state as the text of a lock file. There is no text where
/// the renderer fails or the text could not be read back.
pub fn lock_to_toml(lock: &LockFile) -> (r: Option<String>)
    ensures
        written(r) == lock_text(lock@),
{
    let doc = lock_document(lock);
    proof {
        law_lock_document_round_trip(lock@);
    }
    match render_toml_pretty(&doc) {
        Ok(text) => if toml_within_limit(text.as_str()) {
            Some(text)
        } else {
            None
        },
        Err(_) => None,
    }
}

/// Decodes a configuration from the text of a configuration file.
pub fn config_from_toml(text: &str) -> (r: Option<UMMConfig>)
    ensures
        read_config(r) == config_in(text@),
{
    match read_toml(text) {
        Ok(doc) => config_from_document(&doc),
        Err(_) => None,
    }
}

/// Encodes a configuration as the text of a configuration file. There is no
/// text where the renderer fails or the text could not be read back.
pub fn config_to_toml(config: &UMMConfig) -> (r: Option<String>)
    ensures
        written(r) == config_text(config@),
{
    let doc = config_document(config);
    proof {
        law_config_document_round_trip(config@);
    }
    match render_toml_pretty(&doc) {
        Ok(text) => if toml_within_limit(text.as_str()) {
            Some(text)
        } else {
            None
        },
        Err(_) => None,
    }
}

/// The configuration file of a managed root.
pub open spec fn config_path(umm_dir: Seq<char>) -> Seq<char> {
    path_join(umm_dir, "config.toml"@)
}

/// The lock file of a managed root.
pub open spec fn lock_path(umm_dir: Seq<char>) -> Seq<char> {
    path_join(umm_dir, "ultramodmanager.lock"@)
}

impl Save for UMMConfig {
    /// The configuration is written, in full, to `config.toml` in the
    /// managed root.
    open spec fn save_request(&self) -> Result<RequestView, Failure> {
        match config_text(self@) {
            Some(text) => Ok(RequestView::Write { path: config_path(self@.meta.umm_dir), text }),
            None => Err(
                Failure {
                    kind: ErrorKind::WriteFailed,
                    message: "Failed to encode the config file."@,
                },
            ),
        }
    }

    fn save(&self) -> (r: Result<Request, RuntimeError>) {
        match config_to_toml(self) {
            Some(text) => Ok(
                Request::Write { path: join(self.meta.umm_dir.as_str(), "config.toml"), text },
            ),
            None => Err(
                RuntimeError {
                    kind: ErrorKind::WriteFailed,
                    message: "Failed to encode the config file.".to_owned(),
                },
            ),
        }
    }
}

impl UMMConfig {
    /// Points the configuration at the host application in `path`: the
    /// host's directories for mods and patterns follow from it. The result
    /// asks for the configuration to be written.
    pub fn set_ultrakill_path(&mut self, path: String) -> (r: Result<Request, RuntimeError>)
        ensures
            final(self)@ == old(self)@.with_ultrakill_path(path@),
            saved(r) == final(self).save_request(),
    {
        let plugins = join(path.as_str(), "BepInEx");
        self.meta.ultrakill_mods = join(plugins.as_str(), "UMM Mods");
        let grind = join(path.as_str(), "Cybergrind");
        let patterns = join(grind.as_str(), "Patterns");
        self.meta.ultrakill_patterns = join(patterns.as_str(), "ULTRAMODMANAGER");
        self.meta.ultrakill_path = path;
        self.save()
    }
}

} // verus!
