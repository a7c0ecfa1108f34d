use ultramodmanager::models::{
    ConfigMeta, LockFile, Manifest, Mod, ModLockRecord, PatternLockRecord, UMMConfig, UserConfig,
};
use ultramodmanager::parse_internal::{
    from_json, from_toml, manifest_document, manifest_from_document, to_json5_string,
    to_toml_string,
};
use ultramodmanager::persist::{
    config_from_toml, config_to_toml, lock_document, lock_from_document, lock_from_toml,
    lock_to_toml,
};
use ultramodmanager::nesting::{json_within_limit, toml_within_limit, NESTING_LIMIT};
use ultramodmanager::parse_internal::{read_json5, read_toml};
use ultramodmanager::{deserialize, serialize};

fn sample_mod() -> Mod {
    Mod {
        id: "a".to_string(),
        name: "Mod A".to_string(),
        description: "first mod".to_string(),
        author: "someone".to_string(),
        source_url: "https://example.org/src".to_string(),
        download_url: "https://example.org/dl".to_string(),
        checksum: "abc123".to_string(),
        icon_path: "icon.png".to_string(),
        date: "2022-06-01T00:00:00Z".to_string(),
        uk_version: "0.9".to_string(),
        mod_version: "1.0.0".to_string(),
    }
}

fn assert_same_mod(a: &Mod, b: &Mod) {
    assert_eq!(a.id, b.id);
    assert_eq!(a.name, b.name);
    assert_eq!(a.description, b.description);
    assert_eq!(a.author, b.author);
    assert_eq!(a.source_url, b.source_url);
    assert_eq!(a.download_url, b.download_url);
    assert_eq!(a.checksum, b.checksum);
    assert_eq!(a.icon_path, b.icon_path);
    assert_eq!(a.date, b.date);
    assert_eq!(a.uk_version, b.uk_version);
    assert_eq!(a.mod_version, b.mod_version);
}

const MANIFEST_TOML: &str = "[mod]\nid = \"a\"\nname = \"Mod A\"\ndescription = \"first mod\"\nauthor = \"someone\"\nsource-url = \"https://example.org/src\"\ndownload-url = \"https://example.org/dl\"\nchecksum = \"abc123\"\nicon-path = \"icon.png\"\ndate = \"2022-06-01T00:00:00Z\"\nuk-version = \"0.9\"\nmod-version = \"1.0.0\"\n";

#[test]
fn manifest() {
    let manifest = Manifest::default();
    let text = serialize("toml", manifest).unwrap();
    println!("{}", text);
    assert!(text.starts_with("[mod]\n"));
    assert!(text.contains("mod-version = \"\"\n"));
    let back = from_toml(&text).unwrap();
    assert_same_mod(&back.mod_data, &Mod::default());
}

#[test]
fn lockfile() {
    let lock = LockFile::default();
    let st = lock_to_toml(&lock).unwrap();
    println!("{st}");
    assert_eq!(st, "mods = []\npatterns = []\n");
}

#[test]
fn umm_config() {
    let config = UMMConfig::rooted_at("/home/v1/.ultramodmanager");
    let text = config_to_toml(&config).unwrap();
    println!("{}", text);
    assert!(text.contains("[meta]\n"));
    assert!(text.contains("mods-dir = '/home/v1/.ultramodmanager/mods'\n")
        || text.contains("mods-dir = \"/home/v1/.ultramodmanager/mods\"\n"));
    assert!(text.contains("[user]\n"));
    let back = config_from_toml(&text).unwrap();
    assert_eq!(back.meta.umm_dir, "/home/v1/.ultramodmanager");
    assert_eq!(back.meta.mods_dir, "/home/v1/.ultramodmanager/mods");
    assert_eq!(back.meta.patterns_dir, "/home/v1/.ultramodmanager/patterns");
    assert_eq!(back.meta.ultrakill_path, "");
    assert_eq!(back.meta.ultrakill_mods, "");
    assert_eq!(back.meta.ultrakill_patterns, "");
    assert_eq!(back.user.user_token, "");
}

#[test]
fn toml_manifest_is_decoded_field_by_field() {
    let manifest = from_toml(MANIFEST_TOML).unwrap();
    assert_same_mod(&manifest.mod_data, &sample_mod());
}

#[test]
fn deserialize_takes_toml_and_json() {
    let from_t = deserialize("toml", MANIFEST_TOML).unwrap();
    assert_same_mod(&from_t.mod_data, &sample_mod());
    let json = "{ mod: { id: 'a', name: 'Mod A', description: 'first mod', author: 'someone', \
                'source-url': 'https://example.org/src', 'download-url': 'https://example.org/dl', \
                checksum: 'abc123', 'icon-path': 'icon.png', date: '2022-06-01T00:00:00Z', \
                'uk-version': '0.9', 'mod-version': '1.0.0', } // trailing comma and comment\n}";
    let from_j = deserialize("json", json).unwrap();
    assert_same_mod(&from_j.mod_data, &sample_mod());
}

#[test]
fn unknown_format_is_refused() {
    let e = deserialize("yaml", MANIFEST_TOML).unwrap_err();
    assert_eq!(e.to_string(), "Invalid deserialization type");
    let e = serialize("yaml", Manifest::default()).unwrap_err();
    assert_eq!(e.to_string(), "Invalid deserialization type");
    let e = deserialize("", "").unwrap_err();
    assert_eq!(e.message, "Invalid deserialization type");
}

#[test]
fn missing_field_is_named() {
    let text = MANIFEST_TOML.replace("checksum = \"abc123\"\n", "");
    let e = from_toml(&text).unwrap_err();
    assert_eq!(e.message, "missing field `checksum`");
    let e = from_toml("title = \"no mod here\"\n").unwrap_err();
    assert_eq!(e.message, "missing field `mod`");
    let e = from_toml("").unwrap_err();
    assert_eq!(e.message, "missing field `mod`");
}

#[test]
fn first_missing_field_wins() {
    let e = from_toml("[mod]\nname = \"x\"\n").unwrap_err();
    assert_eq!(e.message, "missing field `id`");
    let e = from_toml("[mod]\nid = \"x\"\nname = \"x\"\nauthor = \"y\"\n").unwrap_err();
    assert_eq!(e.message, "missing field `description`");
}

#[test]
fn field_of_another_type_counts_as_missing() {
    let text = MANIFEST_TOML.replace("id = \"a\"", "id = 7");
    let e = from_toml(&text).unwrap_err();
    assert_eq!(e.message, "missing field `id`");
    let e = from_toml("mod = \"text\"\n").unwrap_err();
    assert_eq!(e.message, "missing field `id`");
}

#[test]
fn unknown_keys_are_ignored() {
    let text = format!("{}extra = \"x\"\n\n[other]\nkey = 1\n", MANIFEST_TOML);
    let manifest = from_toml(&text).unwrap();
    assert_same_mod(&manifest.mod_data, &sample_mod());
}

#[test]
fn malformed_text_gives_the_parsers_diagnostic() {
    let e = from_toml("[mod\nid = ").unwrap_err();
    assert!(!e.message.is_empty());
    assert_ne!(e.message, "[mod\nid = ");
    assert!(!e.message.starts_with("missing field"));
    let e = from_json("{ mod: ").unwrap_err();
    assert!(!e.message.is_empty());
    assert_ne!(e.message, "{ mod: ");
}

#[test]
fn manifest_round_trips_through_toml() {
    let manifest = Manifest { mod_data: sample_mod() };
    let text = to_toml_string(&manifest).unwrap();
    assert_ne!(text, "");
    let back = from_toml(&text).unwrap();
    assert_same_mod(&back.mod_data, &sample_mod());
}

#[test]
fn manifest_round_trips_through_json() {
    let manifest = Manifest { mod_data: sample_mod() };
    let text = to_json5_string(&manifest).unwrap();
    assert!(text.starts_with('{'));
    let back = from_json(&text).unwrap();
    assert_same_mod(&back.mod_data, &sample_mod());
    let again = serialize("json", Manifest { mod_data: sample_mod() }).unwrap();
    assert_eq!(again, text);
}

#[test]
fn empty_and_odd_strings_round_trip() {
    let mut m = Mod::default();
    m.id = "".to_string();
    m.name = "quote \" backslash \\ newline \n tab \t end".to_string();
    m.description = "unicode: \u{e9}\u{4e16}\u{1f600}".to_string();
    m.author = "'single'".to_string();
    m.date = "not a date".to_string();
    let manifest = Manifest { mod_data: m.clone() };
    let text = to_toml_string(&manifest).unwrap();
    assert_same_mod(&from_toml(&text).unwrap().mod_data, &m);
    let text = to_json5_string(&manifest).unwrap();
    assert_same_mod(&from_json(&text).unwrap().mod_data, &m);
}

#[test]
fn manifest_document_holds_the_fields_under_their_keys() {
    let manifest = Manifest { mod_data: sample_mod() };
    let doc = manifest_document(&manifest);
    let section = doc.get("mod").unwrap();
    assert_eq!(section.get("id").unwrap().as_str(), Some("a"));
    assert_eq!(section.get("source-url").unwrap().as_str(), Some("https://example.org/src"));
    assert_eq!(section.get("mod-version").unwrap().as_str(), Some("1.0.0"));
    assert_eq!(section.as_table().unwrap().len(), 11);
    assert_eq!(doc.as_table().unwrap().len(), 1);
    let back = manifest_from_document(&doc).unwrap();
    assert_same_mod(&back.mod_data, &sample_mod());
}

#[test]
fn manifest_from_document_reads_a_document_built_elsewhere() {
    let mut section = toml::value::Table::new();
    for key in [
        "id",
        "name",
        "description",
        "author",
        "source-url",
        "download-url",
        "checksum",
        "icon-path",
        "date",
        "uk-version",
    ] {
        section.insert(key.to_string(), toml::Value::String(format!("<{}>", key)));
    }
    let mut doc = toml::value::Table::new();
    doc.insert("mod".to_string(), toml::Value::Table(section.clone()));
    let e = manifest_from_document(&toml::Value::Table(doc)).unwrap_err();
    assert_eq!(e.message, "missing field `mod-version`");
    section.insert("mod-version".to_string(), toml::Value::String("2.0.0".to_string()));
    let mut doc = toml::value::Table::new();
    doc.insert("mod".to_string(), toml::Value::Table(section));
    let m = manifest_from_document(&toml::Value::Table(doc)).unwrap();
    assert_eq!(m.mod_data.id, "<id>");
    assert_eq!(m.mod_data.uk_version, "<uk-version>");
    assert_eq!(m.mod_data.mod_version, "2.0.0");
}

fn sample_lock() -> LockFile {
    LockFile {
        mods: vec![
            ModLockRecord {
                name: "a@1.0.0".to_string(),
                id: "a".to_string(),
                description: "first".to_string(),
                version: "1.0.0".to_string(),
                autoload: true,
            },
            ModLockRecord {
                name: "b@0.2.0".to_string(),
                id: "b".to_string(),
                description: "".to_string(),
                version: "0.2.0".to_string(),
                autoload: false,
            },
        ],
        patterns: vec![PatternLockRecord {
            name: "boss@1.0.0".to_string(),
            version: "1.0.0".to_string(),
        }],
    }
}

fn assert_same_lock(a: &LockFile, b: &LockFile) {
    assert_eq!(a.mods.len(), b.mods.len());
    for (x, y) in a.mods.iter().zip(b.mods.iter()) {
        assert_eq!(x.name, y.name);
        assert_eq!(x.id, y.id);
        assert_eq!(x.description, y.description);
        assert_eq!(x.version, y.version);
        assert_eq!(x.autoload, y.autoload);
    }
    assert_eq!(a.patterns.len(), b.patterns.len());
    for (x, y) in a.patterns.iter().zip(b.patterns.iter()) {
        assert_eq!(x.name, y.name);
        assert_eq!(x.version, y.version);
    }
}

#[test]
fn lock_state_round_trips() {
    let lock = sample_lock();
    let text = lock_to_toml(&lock).unwrap();
    assert!(text.contains("[[mods]]\n"));
    assert!(text.contains("[[patterns]]\n"));
    assert!(text.contains("autoload = false\n"));
    let back = lock_from_toml(&text).unwrap();
    assert_same_lock(&back, &lock);
    let empty = lock_from_toml(&lock_to_toml(&LockFile::default()).unwrap()).unwrap();
    assert_same_lock(&empty, &LockFile::default());
}

#[test]
fn lock_state_with_empty_strings_round_trips() {
    let lock = LockFile {
        mods: vec![ModLockRecord::default()],
        patterns: vec![PatternLockRecord::default(), PatternLockRecord::default()],
    };
    let back = lock_from_toml(&lock_to_toml(&lock).unwrap()).unwrap();
    assert_same_lock(&back, &lock);
    assert!(back.mods[0].autoload);
}

#[test]
fn lock_document_lists_the_records_in_order() {
    let doc = lock_document(&sample_lock());
    let mods = doc.get("mods").unwrap().as_array().unwrap();
    assert_eq!(mods.len(), 2);
    assert_eq!(mods[0].get("name").unwrap().as_str(), Some("a@1.0.0"));
    assert_eq!(mods[1].get("id").unwrap().as_str(), Some("b"));
    assert_eq!(mods[1].get("autoload").unwrap().as_bool(), Some(false));
    assert_eq!(mods[0].as_table().unwrap().len(), 5);
    let patterns = doc.get("patterns").unwrap().as_array().unwrap();
    assert_eq!(patterns.len(), 1);
    assert_eq!(patterns[0].get("version").unwrap().as_str(), Some("1.0.0"));
    assert_same_lock(&lock_from_document(&doc).unwrap(), &sample_lock());
}

#[test]
fn lock_text_that_lacks_a_list_or_a_field_is_refused() {
    assert!(lock_from_toml("mods = []\n").is_none());
    assert!(lock_from_toml("patterns = []\n").is_none());
    assert!(lock_from_toml("").is_none());
    assert!(lock_from_toml("mods = [").is_none());
    assert!(lock_from_toml("mods = \"x\"\npatterns = []\n").is_none());
    let no_autoload = "patterns = []\n\n[[mods]]\nname = \"a@1\"\nid = \"a\"\ndescription = \"\"\nversion = \"1\"\n";
    assert!(lock_from_toml(no_autoload).is_none());
    let with_autoload = format!("{}autoload = true\n", no_autoload);
    let lock = lock_from_toml(&with_autoload).unwrap();
    assert_eq!(lock.mods.len(), 1);
    assert_eq!(lock.mods[0].name, "a@1");
    let odd_pattern = "mods = []\n\n[[patterns]]\nname = \"p\"\n";
    assert!(lock_from_toml(odd_pattern).is_none());
    assert!(lock_from_toml("mods = [1]\npatterns = []\n").is_none());
}

#[test]
fn configuration_round_trips() {
    let config = UMMConfig {
        meta: ConfigMeta {
            ultrakill_path: "/games/ULTRAKILL".to_string(),
            ultrakill_mods: "/games/ULTRAKILL/BepInEx/UMM Mods".to_string(),
            ultrakill_patterns: "/games/ULTRAKILL/Cybergrind/Patterns/ULTRAMODMANAGER".to_string(),
            umm_dir: "/home/v1/.ultramodmanager".to_string(),
            mods_dir: "/home/v1/.ultramodmanager/mods".to_string(),
            patterns_dir: "/home/v1/.ultramodmanager/patterns".to_string(),
        },
        user: UserConfig { user_token: "SECRET-REDACTED".to_string() },
    };
    let text = config_to_toml(&config).unwrap();
    let back = config_from_toml(&text).unwrap();
    assert_eq!(back.meta.ultrakill_path, config.meta.ultrakill_path);
    assert_eq!(back.meta.ultrakill_mods, config.meta.ultrakill_mods);
    assert_eq!(back.meta.ultrakill_patterns, config.meta.ultrakill_patterns);
    assert_eq!(back.meta.umm_dir, config.meta.umm_dir);
    assert_eq!(back.meta.mods_dir, config.meta.mods_dir);
    assert_eq!(back.meta.patterns_dir, config.meta.patterns_dir);
    assert_eq!(back.user.user_token, config.user.user_token);
}

#[test]
fn configuration_text_that_lacks_a_section_or_a_field_is_refused() {
    assert!(config_from_toml("").is_none());
    assert!(config_from_toml("[meta]\n").is_none());
    assert!(config_from_toml("[user]\nuser-token = \"\"\n").is_none());
    let text = config_to_toml(&UMMConfig::rooted_at("/r")).unwrap();
    assert!(config_from_toml(&text).is_some());
    let damaged = text.replace("umm-dir", "umm_dir");
    assert!(config_from_toml(&damaged).is_none());
    let damaged = text.replace("user-token", "token");
    assert!(config_from_toml(&damaged).is_none());
}

#[test]
fn lock_state_with_odd_strings_round_trips() {
    let odd = [
        "plain",
        "",
        " leading and trailing ",
        "two\nlines",
        "ends with newline\n",
        "\nstarts with newline",
        "carriage\r\nreturn",
        "tab\tstop",
        "quote \" double",
        "quote ' single",
        "triple ''' single",
        "triple \"\"\" double",
        "back\\slash",
        "unicode \u{e9} \u{4e16}\u{754c} \u{1f600}",
        "control \u{1} \u{7f}",
        "# not a comment",
        "[not.a.table]",
        "key = \"value\"",
    ];
    for text in odd {
        let lock = LockFile {
            mods: vec![ModLockRecord {
                name: text.to_string(),
                id: text.to_string(),
                description: text.to_string(),
                version: text.to_string(),
                autoload: false,
            }],
            patterns: vec![PatternLockRecord {
                name: text.to_string(),
                version: text.to_string(),
            }],
        };
        let rendered = lock_to_toml(&lock).unwrap();
        let back = lock_from_toml(&rendered).unwrap();
        assert_same_lock(&back, &lock);
        let mut config = UMMConfig::rooted_at(text);
        config.user.user_token = text.to_string();
        let back = config_from_toml(&config_to_toml(&config).unwrap()).unwrap();
        assert_eq!(back.meta.umm_dir, text);
        assert_eq!(back.user.user_token, text);
        let mut m = Mod::default();
        m.description = text.to_string();
        m.mod_version = text.to_string();
        let manifest = Manifest { mod_data: m.clone() };
        assert_same_mod(&from_toml(&to_toml_string(&manifest).unwrap()).unwrap().mod_data, &m);
        assert_same_mod(&from_json(&to_json5_string(&manifest).unwrap()).unwrap().mod_data, &m);
    }
}

fn nested(depth: usize) -> String {
    format!("a = {}{}", "[".repeat(depth), "]".repeat(depth))
}

fn dotted(dots: usize) -> String {
    format!("a{}", ".a".repeat(dots))
}

fn deep() -> String {
    format!("{}1{}", "[".repeat(1_000), "]".repeat(1_000))
}

const TOO_DEEP: &str = "The text nests too deep.";

#[test]
fn text_that_nests_too_deep_is_refused() {
    let deep = nested(100_000);
    assert_eq!(from_toml(&deep).unwrap_err().message, TOO_DEEP);
    assert_eq!(deserialize("toml", &deep).unwrap_err().message, TOO_DEEP);
    assert!(lock_from_toml(&deep).is_none());
    assert!(config_from_toml(&deep).is_none());
    let deep_json = format!("{}{}", "[".repeat(100_000), "]".repeat(100_000));
    assert_eq!(from_json(&deep_json).unwrap_err().message, TOO_DEEP);
    assert_eq!(deserialize("json", &deep_json).unwrap_err().message, TOO_DEEP);
    let objects = format!("{}1{}", "{a:".repeat(100_000), "}".repeat(100_000));
    assert_eq!(read_json5(&objects).unwrap_err(), TOO_DEEP);
    let inline = format!("a = {}", "{ b = ".repeat(50_000));
    assert_eq!(read_toml(&inline).unwrap_err(), TOO_DEEP);
    let spread = "a = [\n".repeat(50_000);
    assert_eq!(read_toml(&spread).unwrap_err(), TOO_DEEP);
    assert_eq!(read_json5(&"[\n".repeat(50_000)).unwrap_err(), TOO_DEEP);
    let header = format!("[{}]\n", dotted(100_000));
    assert_eq!(read_toml(&header).unwrap_err(), TOO_DEEP);
    let key = format!("{} = 1\n", dotted(100_000));
    assert_eq!(read_toml(&key).unwrap_err(), TOO_DEEP);
    assert_eq!(from_toml(&key).unwrap_err().message, TOO_DEEP);
    let quoted = format!("[{}a]\n", "\"a\".".repeat(100_000));
    assert_eq!(read_toml(&quoted).unwrap_err(), TOO_DEEP);
    let literal = format!("{}a = 1\n", "'a'.".repeat(100_000));
    assert_eq!(read_toml(&literal).unwrap_err(), TOO_DEEP);
}

#[test]
fn nesting_up_to_the_limit_is_parsed() {
    let most = nested(NESTING_LIMIT - 2);
    assert!(toml_within_limit(&most));
    let doc = read_toml(&most).unwrap();
    let mut at = doc.get("a").unwrap();
    let mut depth = 0;
    while let Some(inner) = at.get(0) {
        at = inner;
        depth += 1;
    }
    assert_eq!(depth, NESTING_LIMIT - 3);
    assert!(!toml_within_limit(&nested(NESTING_LIMIT - 1)));
    assert_ne!(from_toml(&most).unwrap_err().message, TOO_DEEP);
    let json = format!("{}{}", "[".repeat(NESTING_LIMIT), "]".repeat(NESTING_LIMIT));
    assert!(json_within_limit(&json));
    assert!(read_json5(&json).is_ok());
    let over = format!("{}{}", "[".repeat(NESTING_LIMIT + 1), "]".repeat(NESTING_LIMIT + 1));
    assert!(!json_within_limit(&over));
    let inline = format!(
        "a = {}1{}",
        "{ b = ".repeat(NESTING_LIMIT - 2),
        " }".repeat(NESTING_LIMIT - 2)
    );
    assert!(read_toml(&inline).is_ok());
    let spread =
        format!("a = {}{}", "[\n".repeat(NESTING_LIMIT - 2), "]\n".repeat(NESTING_LIMIT - 2));
    assert!(read_toml(&spread).is_ok());
}

#[test]
fn dotted_names_up_to_the_limit_are_parsed() {
    let dots = NESTING_LIMIT / 3 - 1;
    let header = format!("[{}]\nx = \"y\"\n", dotted(dots));
    assert!(toml_within_limit(&header));
    let doc = read_toml(&header).unwrap();
    let mut at = &doc;
    let mut depth = 0;
    while let Some(inner) = at.get("a") {
        at = inner;
        depth += 1;
    }
    assert_eq!(depth, dots + 1);
    assert_eq!(at.get("x").unwrap().as_str(), Some("y"));
    assert!(!toml_within_limit(&format!("[{}]\n", dotted(dots + 1))));
    let key = format!("{} = 1\n", dotted(NESTING_LIMIT / 2 - 1));
    assert!(read_toml(&key).is_ok());
    assert!(!toml_within_limit(&format!("{} = 1\n", dotted(NESTING_LIMIT / 2))));
    let tables = format!(
        "[[{}]]\n{} = 1\n[[{}]]\n{} = \"{}\"\n",
        dotted(40),
        dotted(40),
        dotted(40),
        dotted(40),
        dotted(5_000)
    );
    assert!(toml_within_limit(&tables));
    assert!(read_toml(&tables).unwrap().get("a").is_some());
    let mixed =
        format!("{} = [[{{ {} = [{{ {} = 1 }}] }}]]\n", dotted(8), dotted(8), dotted(8));
    assert!(toml_within_limit(&mixed));
    assert!(read_toml(&mixed).is_ok());
}

#[test]
fn brackets_and_dots_in_strings_and_comments_do_not_count() {
    let noise = format!("{}{}", "[{".repeat(5_000), ".".repeat(5_000));
    let texts = [
        format!("a = \"{}\"\n", noise),
        format!("a = '{}'\n", noise),
        format!("a = \"\"\"{}\n{}\"\"\"\n", noise, noise),
        format!("a = '''{}\n{}'''\n", noise, noise),
        format!("a = 1 # {}\n", noise),
        format!("# {}\n[[mods]] # {}\nname = \"x\" # {}\n", noise, noise, noise),
        format!("a = \"\\\"{}\"\n", noise),
        format!("a = \"\"\"\\\"\"\"{}\"\"\"\n", noise),
        format!("a = \"\"\"\"{}\"\"\"\n", noise),
        format!("a = \"\"\"\"\"{}\"\"\"\n", noise),
        format!("a = '''''{}'''\n", noise),
        format!("\"{}\" = 1\n", noise),
        format!("['{}']\n", noise),
    ];
    for text in texts.iter() {
        assert!(toml_within_limit(text));
        assert!(read_toml(text).unwrap().is_table());
    }
    let json = [
        format!("{{ a: \"{}\" }}", noise),
        format!("{{ a: '{}' }}", noise),
        format!("{{ a: 1 }} // {}", noise),
        format!("/* {} */ {{ a: 1 /* {}\n{} */ }}", noise, noise, noise),
        format!("{{ a: \"\\\"{}\" }}", noise),
        format!("{{ a: '\\'{}' }}", noise),
        format!("{{ a: \"\\\n{}\" }}", noise),
        format!("// {}\u{2028}{{ a: [1] }}", noise),
        format!("// {}\r{{ a: [1] }}", noise),
    ];
    for text in json.iter() {
        assert!(json_within_limit(text));
        assert!(read_json5(text).unwrap().is_table());
    }
}

#[test]
fn brackets_after_a_string_or_a_comment_count() {
    let tail = deep();
    let texts = [
        format!("a = [\"x\", {}]\n", tail),
        format!("a = ['x', {}]\n", tail),
        format!("a = [\"\", {}]\n", tail),
        format!("a = ['', {}]\n", tail),
        format!("a = [\"\\\\\", {}]\n", tail),
        format!("a = ['\\', {}]\n", tail),
        format!("a = [\"\\\"\", {}]\n", tail),
        format!("a = [\"\"\"x\"\"\", {}]\n", tail),
        format!("a = [\"\"\"x\"\"\"\", {}]\n", tail),
        format!("a = [\"\"\"x\"\"\"\"\", {}]\n", tail),
        format!("a = [\"\"\"\"\"\", {}]\n", tail),
        format!("a = ['''x''''', {}]\n", tail),
        format!("a = [\"\"\"x\\\"\"\"\", {}]\n", tail),
        format!("a = [\"\"\"x\n\"y\"\n\"\"z\"\"\"\n, {}]\n", tail),
        format!("a = [ # \"\n {}]\n", tail),
        format!("a = [ # '''\n {}]\n", tail),
    ];
    for text in texts.iter() {
        assert!(!toml_within_limit(text));
        let shallow = text.replace(&tail, "[1]");
        assert!(toml_within_limit(&shallow));
        let doc = read_toml(&shallow).unwrap();
        let list = doc.get("a").unwrap().as_array().unwrap();
        assert_eq!(list[list.len() - 1].get(0).unwrap().as_integer(), Some(1));
    }
    let json = [
        format!("[\"x\", {}]", tail),
        format!("['x', {}]", tail),
        format!("[\"\\\\\", {}]", tail),
        format!("['\\\\', {}]", tail),
        format!("[\"\\\"\", {}]", tail),
        format!("['\\'', {}]", tail),
        format!("[ // \"\n {}]", tail),
        format!("[ // '\r {}]", tail),
        format!("[ // \"\u{2028} {}]", tail),
        format!("[ // \"\u{2029} {}]", tail),
        format!("[ /* \" */ {}]", tail),
        format!("[ /* ' **/ {}]", tail),
        format!("[ /* // */ {}]", tail),
        format!("[ \"/*\", {}]", tail),
        format!("[ \"//\", {}]", tail),
    ];
    for text in json.iter() {
        assert!(!json_within_limit(text));
        let shallow = text.replace(&tail, "[1]");
        assert!(json_within_limit(&shallow));
        let doc = read_json5(&shallow).unwrap();
        let list = doc.as_array().unwrap();
        assert_eq!(list[list.len() - 1].get(0).unwrap().as_integer(), Some(1));
    }
}

#[test]
fn manifests_with_dots_and_brackets_in_their_fields_round_trip() {
    let mut m = sample_mod();
    m.description = ". ".repeat(50);
    m.source_url = "https://a.b.c.d.example.org/x.y.z".to_string();
    m.name = "[beta] {test} ".repeat(200);
    m.author = format!("{}{}", "[".repeat(1_000), ".".repeat(1_000));
    m.checksum = "'''\"\"\" # // /* ".to_string();
    m.icon_path = "a\nb]]\n[[c".to_string();
    for format in ["toml", "json"] {
        let text = serialize(format, Manifest { mod_data: m.clone() }).unwrap();
        let back = deserialize(format, &text).unwrap();
        assert_same_mod(&back.mod_data, &m);
    }
    let toml_text = format!(
        "[mod]\nid = \"a\"\nname = \"n\"\ndescription = \"{}\"\nauthor = \"\"\nsource-url = \"\"\ndownload-url = \"\"\nchecksum = \"\"\nicon-path = \"\"\ndate = \"\"\nuk-version = \"\"\nmod-version = \"1.0.0\"\n",
        "Stop. ".repeat(50)
    );
    assert_eq!(from_toml(&toml_text).unwrap().mod_data.description, "Stop. ".repeat(50));
    let json_text = format!(
        "{{ mod: {{ id: 'a', name: 'n', description: '{}', author: '', 'source-url': 'https://example.org/a.b', 'download-url': '', checksum: '', 'icon-path': 'icon.png', date: '', 'uk-version': '', 'mod-version': '1.0.0' }} }}",
        "Stop. ".repeat(29)
    );
    assert_eq!(from_json(&json_text).unwrap().mod_data.description, "Stop. ".repeat(29));
}

#[test]
fn lock_states_and_configurations_with_dots_and_brackets_are_written() {
    let mut lock = LockFile::default();
    for n in 0..300 {
        lock.mods.push(ModLockRecord {
            name: format!("mod{}@1.0.0", n),
            id: format!("mod{}", n),
            description: "[beta] first. second. third...\n[[x]]\n'''".to_string(),
            version: "1.0.0".to_string(),
            autoload: true,
        });
        lock.patterns.push(PatternLockRecord {
            name: format!("[wave]@1.0.0_({})", n),
            version: "1.0.0".to_string(),
        });
    }
    let text = lock_to_toml(&lock).unwrap();
    assert_same_lock(&lock_from_toml(&text).unwrap(), &lock);
    let home = format!("/home/{}", "a.".repeat(60));
    let config = UMMConfig::rooted_at(&home);
    let text = config_to_toml(&config).unwrap();
    assert_eq!(config_from_toml(&text).unwrap().meta.umm_dir, home);
    let mut config = UMMConfig::rooted_at("/r");
    config.user.user_token = format!("{}{}", "{".repeat(1_000), ".".repeat(1_000));
    let text = config_to_toml(&config).unwrap();
    assert_eq!(config_from_toml(&text).unwrap().user.user_token, config.user.user_token);
}

#[test]
fn lock_state_of_many_records_round_trips() {
    let mut lock = LockFile::default();
    for n in 0..2_000 {
        lock.mods.push(ModLockRecord {
            name: format!("mod{}@1.0.{}", n, n),
            id: format!("mod{}", n),
            description: "two\nlines".to_string(),
            version: format!("1.0.{}", n),
            autoload: n % 2 == 0,
        });
        lock.patterns.push(PatternLockRecord {
            name: format!("wave@1.0.0_({})", n),
            version: "1.0.0".to_string(),
        });
    }
    let text = lock_to_toml(&lock).unwrap();
    assert!(toml_within_limit(&text));
    let back = lock_from_toml(&text).unwrap();
    assert_same_lock(&back, &lock);
}
