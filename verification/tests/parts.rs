use ultramodmanager::error::{ErrorKind, ParseError, RuntimeError};
use ultramodmanager::manager::InitError;
use ultramodmanager::models::{
    ConfigMeta, LockFile, Manifest, Mod, ModLockRecord, PatternLockRecord, UMMConfig, UserConfig,
};
use ultramodmanager::pattern::{
    check_pattern, is_taken, resolve_unique_name, returns_on, strip_extension,
};
use ultramodmanager::text::{decimal_string, join2, join3, same_text};

fn names(list: &[&str]) -> Vec<String> {
    list.iter().map(|s| s.to_string()).collect()
}

#[test]
fn errors_carry_kind_and_message() {
    let e = RuntimeError::new("something broke");
    assert_eq!(e.kind(), ErrorKind::Other);
    assert_eq!(e.to_string(), "something broke");
    assert_eq!(e.message, "something broke");
    let e = RuntimeError::of_kind(ErrorKind::CopyFailed, "disk".to_string());
    assert_eq!(e.kind(), ErrorKind::CopyFailed);
    assert_eq!(e.to_string(), "disk");
    let e = ParseError::new("bad text");
    assert_eq!(e.to_string(), "bad text");
    assert_eq!(ParseError::new("").message, "");
    let e = InitError::new("no root");
    assert_eq!(e.message, "no root");
    assert_eq!(e.kind(), ErrorKind::InitializationError);
    assert_eq!(e.to_string(), "InitError { message: \"no root\" }");
    let e = InitError::new("a \"quoted\"\npath\\");
    assert_eq!(e.to_string(), "InitError { message: \"a \\\"quoted\\\"\\npath\\\\\" }");
    assert_eq!(e.to_string(), format!("InitError {{ message: {:?} }}", e.message));
}

#[test]
fn defaults_are_empty_and_loaded() {
    let record = ModLockRecord::default();
    assert_eq!(record.name, "");
    assert_eq!(record.id, "");
    assert_eq!(record.description, "");
    assert_eq!(record.version, "");
    assert!(record.autoload);
    let pattern = PatternLockRecord::default();
    assert_eq!(pattern.name, "");
    assert_eq!(pattern.version, "");
    let lock = LockFile::default();
    assert!(lock.mods.is_empty() && lock.patterns.is_empty());
    let manifest = Manifest::default();
    assert_eq!(manifest.mod_data.id, "");
    assert_eq!(manifest.mod_data.mod_version, "");
    assert_eq!(Mod::default().icon_path, "");
    assert_eq!(ConfigMeta::default().umm_dir, "");
    assert_eq!(ConfigMeta::default().ultrakill_patterns, "");
    assert_eq!(UserConfig::default().user_token, "");
}

#[test]
fn clones_keep_every_field() {
    let lock = LockFile {
        mods: vec![ModLockRecord {
            name: "a@1".to_string(),
            id: "a".to_string(),
            description: "d".to_string(),
            version: "1".to_string(),
            autoload: false,
        }],
        patterns: vec![
            PatternLockRecord { name: "p".to_string(), version: "1.0.0".to_string() },
            PatternLockRecord { name: "q".to_string(), version: "2.0.0".to_string() },
        ],
    };
    let copy = lock.clone();
    assert_eq!(copy.mods.len(), 1);
    assert_eq!(copy.mods[0].name, "a@1");
    assert_eq!(copy.mods[0].description, "d");
    assert!(!copy.mods[0].autoload);
    assert_eq!(copy.patterns.len(), 2);
    assert_eq!(copy.patterns[1].name, "q");
    assert_eq!(copy.patterns[1].version, "2.0.0");
    let config = UMMConfig::rooted_at("/r");
    let copy = config.clone();
    assert_eq!(copy.meta.umm_dir, "/r");
    assert_eq!(copy.meta.mods_dir, "/r/mods");
    assert_eq!(copy.meta.patterns_dir, "/r/patterns");
    let mut m = Mod::default();
    m.uk_version = "x".to_string();
    assert_eq!(Manifest { mod_data: m }.clone().mod_data.uk_version, "x");
}

#[test]
fn lock_state_finds_a_mod_by_id_and_version() {
    let mut lock = LockFile::default();
    assert!(!lock.holds_mod("a", "1.0.0"));
    lock.mods.push(ModLockRecord {
        name: "a@1.0.0".to_string(),
        id: "a".to_string(),
        description: String::new(),
        version: "1.0.0".to_string(),
        autoload: true,
    });
    assert!(lock.holds_mod("a", "1.0.0"));
    assert!(!lock.holds_mod("a", "1.0.1"));
    assert!(!lock.holds_mod("b", "1.0.0"));
    assert!(!lock.holds_mod("", ""));
    assert!(lock.pattern_names().is_empty());
    lock.patterns.push(PatternLockRecord { name: "p@1.0.0".to_string(), version: "1.0.0".to_string() });
    lock.patterns.push(PatternLockRecord { name: "q@1.0.0".to_string(), version: "1.0.0".to_string() });
    assert_eq!(lock.pattern_names(), names(&["p@1.0.0", "q@1.0.0"]));
}

#[test]
fn plan_names_the_mod_after_id_and_version() {
    let lock = LockFile::default();
    let config = UMMConfig::rooted_at("/r");
    let mut m = Mod::default();
    m.id = "grapple".to_string();
    m.mod_version = "0.3.1".to_string();
    m.description = "hooks".to_string();
    m.name = "Grapple Hook".to_string();
    let (record, dest) = lock.plan_mod(&config, &Manifest { mod_data: m.clone() }).unwrap();
    assert_eq!(record.name, "grapple@0.3.1");
    assert_eq!(record.id, "grapple");
    assert_eq!(record.description, "hooks");
    assert_eq!(record.version, "0.3.1");
    assert!(record.autoload);
    assert_eq!(dest, "/r/mods/grapple@0.3.1");
    let lock = LockFile { mods: vec![record], patterns: Vec::new() };
    let e = lock.plan_mod(&config, &Manifest { mod_data: m.clone() }).unwrap_err();
    assert_eq!(e.kind, ErrorKind::DuplicateInstall);
    assert_eq!(e.message, "A mod with that id and version already exists locally.");
    m.mod_version = "0.3.2".to_string();
    assert!(lock.plan_mod(&config, &Manifest { mod_data: m }).is_ok());
    let empty = Manifest::default();
    let (record, dest) = LockFile::default().plan_mod(&config, &empty).unwrap();
    assert_eq!(record.name, "@");
    assert_eq!(dest, "/r/mods/@");
}

#[test]
fn numerals_are_decimal() {
    assert_eq!(decimal_string(0), "0");
    assert_eq!(decimal_string(7), "7");
    assert_eq!(decimal_string(9), "9");
    assert_eq!(decimal_string(10), "10");
    assert_eq!(decimal_string(11), "11");
    assert_eq!(decimal_string(99), "99");
    assert_eq!(decimal_string(100), "100");
    assert_eq!(decimal_string(1234567890), "1234567890");
    assert_eq!(decimal_string(usize::MAX), usize::MAX.to_string());
}

#[test]
fn texts_are_joined_and_compared() {
    assert_eq!(join2("a", "b"), "ab");
    assert_eq!(join2("", ""), "");
    assert_eq!(join3("id", "@", "1.0.0"), "id@1.0.0");
    assert_eq!(join3("", "x", ""), "x");
    assert!(same_text("abc", "abc"));
    assert!(same_text("", ""));
    assert!(!same_text("abc", "abd"));
    assert!(!same_text("abc", "ab"));
    assert!(!same_text("\u{e9}", "e"));
}

#[test]
fn extension_is_stripped_from_the_end_only() {
    assert_eq!(strip_extension("boss.cgp"), "boss");
    assert_eq!(strip_extension("boss"), "boss");
    assert_eq!(strip_extension("uwu owo"), "uwu owo");
    assert_eq!(strip_extension(".cgp"), "");
    assert_eq!(strip_extension("cgp"), "cgp");
    assert_eq!(strip_extension(""), "");
    assert_eq!(strip_extension("a.cgp.cgp"), "a.cgp");
    assert_eq!(strip_extension("a.cgp.txt"), "a.cgp.txt");
    assert_eq!(strip_extension("boss.CGP"), "boss.CGP");
    assert_eq!(strip_extension("\u{4e16}\u{754c}.cgp"), "\u{4e16}\u{754c}");
    assert_eq!(strip_extension("x\u{1f600}cgp"), "x\u{1f600}cgp");
}

#[test]
fn free_candidate_is_kept() {
    assert_eq!(resolve_unique_name(&Vec::new(), "boss@1.0.0"), "boss@1.0.0");
    assert_eq!(resolve_unique_name(&names(&["other@1.0.0"]), "boss@1.0.0"), "boss@1.0.0");
    assert_eq!(resolve_unique_name(&names(&["boss@1.0.0_(0)"]), "boss@1.0.0"), "boss@1.0.0");
    assert_eq!(resolve_unique_name(&names(&["boss@1.0.0 "]), "boss@1.0.0"), "boss@1.0.0");
    assert_eq!(resolve_unique_name(&Vec::new(), ""), "");
}

#[test]
fn taken_candidate_gets_the_first_free_suffix() {
    let c = "boss@1.0.0";
    assert_eq!(resolve_unique_name(&names(&[c]), c), "boss@1.0.0_(0)");
    assert_eq!(resolve_unique_name(&names(&[c, "boss@1.0.0_(0)"]), c), "boss@1.0.0_(1)");
    assert_eq!(
        resolve_unique_name(&names(&["boss@1.0.0_(1)", "boss@1.0.0_(0)", c]), c),
        "boss@1.0.0_(2)"
    );
    assert_eq!(resolve_unique_name(&names(&[c, "boss@1.0.0_(1)"]), c), "boss@1.0.0_(0)");
    assert_eq!(resolve_unique_name(&names(&[c, c, c]), c), "boss@1.0.0_(0)");
    let mut taken = names(&[c]);
    for n in 0..25 {
        let name = resolve_unique_name(&taken, c);
        assert_eq!(name, format!("boss@1.0.0_({})", n));
        assert!(!is_taken(&taken, &name));
        taken.push(name);
    }
    assert!(is_taken(&taken, "boss@1.0.0_(24)"));
    assert!(!is_taken(&taken, "boss@1.0.0_(25)"));
    assert_eq!(resolve_unique_name(&names(&[""]), ""), "_(0)");
}

fn row(cell: &str, cells: usize) -> String {
    let mut line = cell.repeat(cells);
    line.push('\n');
    line
}

#[test]
fn validator_returns_when_the_first_rows_are_full() {
    let full = row("0", 16).repeat(32);
    assert!(returns_on(&full));
    assert!(check_pattern(&full).is_ok());
    assert!(returns_on(""));
    assert!(returns_on("too short"));
    assert!(returns_on(&row("0", 1).repeat(31)));
    assert!(!returns_on(&row("0", 1).repeat(32)));
    assert!(!returns_on(&row("0", 15).repeat(32)));
    let wide = row("(10)", 16).repeat(32);
    assert!(returns_on(&wide));
    let narrow = row("(10)", 15).repeat(32);
    assert!(!returns_on(&narrow));
    let gaps = format!("{}\n\n\r\n{}", row("0", 16).repeat(16), row("n", 16).repeat(16));
    assert!(returns_on(&gaps));
    assert!(check_pattern(&gaps).is_ok());
}

#[test]
fn short_row_counts_only_among_the_first_thirty_two() {
    let mut late = row("0", 16).repeat(32);
    late.push_str("0\n");
    assert!(returns_on(&late));
    assert!(check_pattern(&late).is_ok());
    let mut early = String::from("0\n");
    early.push_str(&row("0", 16).repeat(31));
    assert!(!returns_on(&early));
    let mut last = row("0", 16).repeat(31);
    last.push_str("0\n");
    assert!(!returns_on(&last));
    assert_eq!(
        check_pattern(&last).unwrap_err(),
        "A row of the pattern holds fewer than 16 cells."
    );
    let mut few = row("0", 16).repeat(30);
    few.push_str("0\n");
    assert!(returns_on(&few));
    assert_eq!(
        check_pattern(&few).unwrap_err(),
        "ParseError(\"Input is not long enough to be a valid pattern.\")"
    );
}

#[test]
fn rejected_cell_before_a_missing_one_gets_the_validators_diagnostic() {
    let only_n = "n\n".repeat(32);
    assert!(returns_on(&only_n));
    assert_eq!(
        check_pattern(&only_n).unwrap_err(),
        "ParseError(\"Invalid token when parsing numbers\")"
    );
    let mut bad_prefab = String::from("0?\n");
    bad_prefab.push_str(&row("0", 16).repeat(15));
    bad_prefab.push_str("??\n");
    bad_prefab.push_str(&row("0", 16).repeat(15));
    assert!(returns_on(&bad_prefab));
    assert_eq!(
        check_pattern(&bad_prefab).unwrap_err(),
        "ParseError(\"Invalid token when parsing prefabs\")"
    );
    let mut height_first = String::from("0\n");
    height_first.push_str(&row("0", 16).repeat(15));
    height_first.push_str("0?\n");
    height_first.push_str(&row("0", 16).repeat(15));
    assert!(!returns_on(&height_first));
    let mut short_below = row("0", 16).repeat(16);
    short_below.push_str("0\n");
    short_below.push_str(&row("0", 16).repeat(15));
    assert!(!returns_on(&short_below));
    let mut late_short = row("0", 16).repeat(16);
    late_short.push_str(&row("s", 16).repeat(15));
    late_short.push_str("ssss\n");
    assert!(!returns_on(&late_short));
    let mut masked = String::from("n\n");
    masked.push_str(&row("0", 16).repeat(15));
    masked.push_str(&row("s", 16).repeat(15));
    masked.push_str("ssss\n");
    assert!(returns_on(&masked));
    assert_eq!(
        check_pattern(&masked).unwrap_err(),
        "ParseError(\"Invalid token when parsing numbers\")"
    );
    let mut rows_beyond = row("0", 16).repeat(32);
    rows_beyond.push_str("?\n");
    assert!(returns_on(&rows_beyond));
    assert!(check_pattern(&rows_beyond).is_ok());
}

#[test]
fn pattern_records_compare_by_name_then_version() {
    let a = PatternLockRecord { name: "a".to_string(), version: "2.0.0".to_string() };
    let b = PatternLockRecord { name: "b".to_string(), version: "1.0.0".to_string() };
    assert!(a == PatternLockRecord { name: "a".to_string(), version: "2.0.0".to_string() });
    assert!(a != b);
    assert!(a < b);
    assert!(a < PatternLockRecord { name: "a".to_string(), version: "3.0.0".to_string() });
}

#[test]
fn validator_rejects_bad_cells() {
    let mut text = row("?", 16).repeat(16);
    text.push_str(&row("0", 16).repeat(16));
    assert_eq!(
        check_pattern(&text).unwrap_err(),
        "ParseError(\"Invalid token when parsing numbers\")"
    );
    let mut text = row("5", 16).repeat(16);
    text.push_str(&row("?", 16).repeat(16));
    assert_eq!(
        check_pattern(&text).unwrap_err(),
        "ParseError(\"Invalid token when parsing prefabs\")"
    );
    let mut text = row("(-12)", 16).repeat(16);
    text.push_str(&row("J", 16).repeat(16));
    assert!(check_pattern(&text).is_ok());
}

fn mod_record(id: &str, version: &str) -> ModLockRecord {
    ModLockRecord {
        name: format!("{}@{}", id, version),
        id: id.to_string(),
        description: String::new(),
        version: version.to_string(),
        autoload: true,
    }
}

fn pattern_record(name: &str) -> PatternLockRecord {
    PatternLockRecord { name: name.to_string(), version: "1.0.0".to_string() }
}

#[test]
fn lock_state_invariant_is_checked() {
    assert!(LockFile::default().is_well_formed());
    let mut lock = LockFile {
        mods: vec![mod_record("a", "1.0.0"), mod_record("a", "1.0.1"), mod_record("b", "1.0.0")],
        patterns: vec![pattern_record("p"), pattern_record("q")],
    };
    assert!(lock.is_well_formed());
    lock.mods.push(mod_record("a", "1.0.1"));
    assert!(!lock.is_well_formed());
    lock.mods.pop();
    lock.patterns.push(pattern_record("p"));
    assert!(!lock.is_well_formed());
    lock.patterns.pop();
    lock.patterns.push(pattern_record("r"));
    assert!(lock.is_well_formed());
    let twice = LockFile { mods: vec![mod_record("x", "1"), mod_record("x", "1")], patterns: Vec::new() };
    assert!(!twice.is_well_formed());
}
