//! The data of the engine: manifest, configuration and lock state, each with
//! the mathematical value that the contracts speak of.

use vstd::prelude::*;
use crate::effects::{Request, RequestView};
use crate::error::{Failure, RuntimeError};
use crate::paths::{
    is_absolute, join, path_is_absolute, path_join, path_under, same_path, starts_with,
};

verus! {

/// The metadata of a mod, as its author wrote it. No field is validated.
#[derive(Debug)]
pub struct Mod {
    pub id: String,
    pub name: String,
    pub description: String,
    pub author: String,
    pub source_url: String,
    pub download_url: String,
    pub checksum: String,
    /// Location of the mod's icon, relative to the mod directory.
    pub icon_path: String,
    /// RFC 3339 by convention.
    pub date: String,
    pub uk_version: String,
    /// A semantic version by convention.
    pub mod_version: String,
}

/// The value of a [`Mod`].
pub struct ModView {
    pub id: Seq<char>,
    pub name: Seq<char>,
    pub description: Seq<char>,
    pub author: Seq<char>,
    pub source_url: Seq<char>,
    pub download_url: Seq<char>,
    pub checksum: Seq<char>,
    pub icon_path: Seq<char>,
    pub date: Seq<char>,
    pub uk_version: Seq<char>,
    pub mod_version: Seq<char>,
}

impl View for Mod {
    type V = ModView;

    open spec fn view(&self) -> ModView {
        ModView {
            id: self.id@,
            name: self.name@,
            description: self.description@,
            author: self.author@,
            source_url: self.source_url@,
            download_url: self.download_url@,
            checksum: self.checksum@,
            icon_path: self.icon_path@,
            date: self.date@,
            uk_version: self.uk_version@,
            mod_version: self.mod_version@,
        }
    }
}

impl ModView {
    /// The mod whose fields are all empty.
    pub open spec fn empty() -> ModView {
        ModView {
            id: Seq::empty(),
            name: Seq::empty(),
            description: Seq::empty(),
            author: Seq::empty(),
            source_url: Seq::empty(),
            download_url: Seq::empty(),
            checksum: Seq::empty(),
            icon_path: Seq::empty(),
            date: Seq::empty(),
            uk_version: Seq::empty(),
            mod_version: Seq::empty(),
        }
    }
}

impl Default for Mod {
    fn default() -> (r: Mod)
        ensures
            r@ == ModView::empty(),
    {
        Mod {
            id: String::new(),
            name: String::new(),
            description: String::new(),
            author: String::new(),
            source_url: String::new(),
            download_url: String::new(),
            checksum: String::new(),
            icon_path: String::new(),
            date: String::new(),
            uk_version: String::new(),
            mod_version: String::new(),
        }
    }
}

impl Clone for Mod {
    fn clone(&self) -> (r: Mod)
        ensures
            r@ == self@,
    {
        Mod {
            id: self.id.clone(),
            name: self.name.clone(),
            description: self.description.clone(),
            author: self.author.clone(),
            source_url: self.source_url.clone(),
            download_url: self.download_url.clone(),
            checksum: self.checksum.clone(),
            icon_path: self.icon_path.clone(),
            date: self.date.clone(),
            uk_version: self.uk_version.clone(),
            mod_version: self.mod_version.clone(),
        }
    }
}

/// The descriptor of a mod: one section, `mod`.
#[derive(Debug)]
pub struct Manifest {
    pub mod_data: Mod,
}

impl View for Manifest {
    type V = ModView;

    open spec fn view(&self) -> ModView {
        self.mod_data@
    }
}

impl Default for Manifest {
    fn default() -> (r: Manifest)
        ensures
            r@ == ModView::empty(),
    {
        Manifest { mod_data: Mod::default() }
    }
}

impl Clone for Manifest {
    fn clone(&self) -> (r: Manifest)
        ensures
            r@ == self@,
    {
        Manifest { mod_data: self.mod_data.clone() }
    }
}

/// An installed mod, as the lock file lists it.
#[derive(Debug)]
pub struct ModLockRecord {
    /// The directory of the mod in the managed store: `id@version`.
    pub name: String,
    pub id: String,
    pub description: String,
    pub version: String,
    pub autoload: bool,
}

/// The value of a [`ModLockRecord`].
pub struct ModRecordView {
    pub name: Seq<char>,
    pub id: Seq<char>,
    pub description: Seq<char>,
    pub version: Seq<char>,
    pub autoload: bool,
}

impl View for ModLockRecord {
    type V = ModRecordView;

    open spec fn view(&self) -> ModRecordView {
        ModRecordView {
            name: self.name@,
            id: self.id@,
            description: self.description@,
            version: self.version@,
            autoload: self.autoload,
        }
    }
}

impl Default for ModLockRecord {
    fn default() -> (r: ModLockRecord)
        ensures
            r@ == (ModRecordView {
                name: Seq::empty(),
                id: Seq::empty(),
                description: Seq::empty(),
                version: Seq::empty(),
                autoload: true,
            }),
    {
        ModLockRecord {
            description: String::new(),
            id: String::new(),
            name: String::new(),
            version: String::new(),
            autoload: true,
        }
    }
}

impl Clone for ModLockRecord {
    fn clone(&self) -> (r: ModLockRecord)
        ensures
            r@ == self@,
    {
        ModLockRecord {
            name: self.name.clone(),
            id: self.id.clone(),
            description: self.description.clone(),
            version: self.version.clone(),
            autoload: self.autoload,
        }
    }
}

/// An installed pattern, as the lock file lists it.
#[derive(Debug, PartialEq, PartialOrd)]
pub struct PatternLockRecord {
    /// The file stem in the managed store: base name, `@`, version and, after
    /// a collision, a suffix.
    pub name: String,
    /// The version tag as it was given.
    pub version: String,
}

/// The value of a [`PatternLockRecord`].
pub struct PatternRecordView {
    pub name: Seq<char>,
    pub version: Seq<char>,
}

impl View for PatternLockRecord {
    type V = PatternRecordView;

    open spec fn view(&self) -> PatternRecordView {
        PatternRecordView { name: self.name@, version: self.version@ }
    }
}

impl Default for PatternLockRecord {
    fn default() -> (r: PatternLockRecord)
        ensures
            r@ == (PatternRecordView { name: Seq::empty(), version: Seq::empty() }),
    {
        PatternLockRecord { name: String::new(), version: String::new() }
    }
}

impl Clone for PatternLockRecord {
    fn clone(&self) -> (r: PatternLockRecord)
        ensures
            r@ == self@,
    {
        PatternLockRecord { name: self.name.clone(), version: self.version.clone() }
    }
}

/// The values of a list of mod records.
pub open spec fn mod_views(records: Seq<ModLockRecord>) -> Seq<ModRecordView> {
    records.map_values(|record: ModLockRecord| record@)
}

/// The values of a list of pattern records.
pub open spec fn pattern_views(records: Seq<PatternLockRecord>) -> Seq<PatternRecordView> {
    records.map_values(|record: PatternLockRecord| record@)
}

/// The record of what is installed: mods and patterns, each in the order of
/// their installation.
#[derive(Debug)]
pub struct LockFile {
    pub mods: Vec<ModLockRecord>,
    pub patterns: Vec<PatternLockRecord>,
}

/// The value of a [`LockFile`].
pub struct LockView {
    pub mods: Seq<ModRecordView>,
    pub patterns: Seq<PatternRecordView>,
}

impl LockView {
    /// The lock state that lists nothing.
    pub open spec fn empty() -> LockView {
        LockView { mods: Seq::empty(), patterns: Seq::empty() }
    }

    /// Whether a mod with this id and this version is listed.
    pub open spec fn has_mod(self, id: Seq<char>, version: Seq<char>) -> bool {
        exists|i: int|
            0 <= i < self.mods.len() && (#[trigger] self.mods[i]).id == id && self.mods[i].version
                == version
    }

    /// Whether a pattern of this name is listed.
    pub open spec fn has_pattern(self, name: Seq<char>) -> bool {
        exists|i: int| 0 <= i < self.patterns.len() && (#[trigger] self.patterns[i]).name == name
    }

    /// The names of the listed patterns.
    pub open spec fn pattern_names(self) -> Set<Seq<char>> {
        Set::new(|name: Seq<char>| self.has_pattern(name))
    }

    /// The invariant of the lock state: no two mods share both id and
    /// version, and no two patterns share a name.
    pub open spec fn well_formed(self) -> bool {
        &&& forall|i: int, j: int|
            0 <= i < j < self.mods.len() ==> !((#[trigger] self.mods[i]).id == (
            #[trigger] self.mods[j]).id && self.mods[i].version == self.mods[j].version)
        &&& forall|i: int, j: int|
            0 <= i < j < self.patterns.len() ==> (#[trigger] self.patterns[i]).name != (
            #[trigger] self.patterns[j]).name
    }

    /// This lock state with one more mod at the end.
    pub open spec fn with_mod(self, record: ModRecordView) -> LockView {
        LockView { mods: self.mods.push(record), patterns: self.patterns }
    }

    /// This lock state with one more pattern at the end.
    pub open spec fn with_pattern(self, record: PatternRecordView) -> LockView {
        LockView { mods: self.mods, patterns: self.patterns.push(record) }
    }
}

impl View for LockFile {
    type V = LockView;

    open spec fn view(&self) -> LockView {
        LockView { mods: mod_views(self.mods@), patterns: pattern_views(self.patterns@) }
    }
}

impl Default for LockFile {
    fn default() -> (r: LockFile)
        ensures
            r@ == LockView::empty(),
            r@.well_formed(),
    {
        let r = LockFile { mods: Vec::new(), patterns: Vec::new() };
        assert(r@.mods =~= Seq::empty());
        assert(r@.patterns =~= Seq::empty());
        r
    }
}

impl Clone for LockFile {
    fn clone(&self) -> (r: LockFile)
        ensures
            r@ == self@,
    {
        let mut mods: Vec<ModLockRecord> = Vec::new();
        let mut i: usize = 0;
        while i < self.mods.len()
            invariant
                i <= self.mods@.len(),
                mods@.len() == i,
                forall|k: int| 0 <= k < i ==> (#[trigger] mods@[k])@ == self.mods@[k]@,
            decreases self.mods@.len() - i,
        {
            mods.push(self.mods[i].clone());
            i = i + 1;
        }
        let mut patterns: Vec<PatternLockRecord> = Vec::new();
        let mut j: usize = 0;
        while j < self.patterns.len()
            invariant
                j <= self.patterns@.len(),
                patterns@.len() == j,
                forall|k: int| 0 <= k < j ==> (#[trigger] patterns@[k])@ == self.patterns@[k]@,
            decreases self.patterns@.len() - j,
        {
            patterns.push(self.patterns[j].clone());
            j = j + 1;
        }
        let r = LockFile { mods, patterns };
        assert(r@.mods =~= self@.mods);
        assert(r@.patterns =~= self@.patterns);
        r
    }
}

/// The locations that the engine works in. All are paths as texts.
#[derive(Debug)]
pub struct ConfigMeta {
    /// The root of the host application.
    pub ultrakill_path: String,
    /// Where the host application looks for mods.
    pub ultrakill_mods: String,
    /// Where the host application looks for patterns.
    pub ultrakill_patterns: String,
    /// The managed root.
    pub umm_dir: String,
    /// The managed store of mods.
    pub mods_dir: String,
    /// The managed store of patterns.
    pub patterns_dir: String,
}

/// The value of a [`ConfigMeta`].
pub struct MetaView {
    pub ultrakill_path: Seq<char>,
    pub ultrakill_mods: Seq<char>,
    pub ultrakill_patterns: Seq<char>,
    pub umm_dir: Seq<char>,
    pub mods_dir: Seq<char>,
    pub patterns_dir: Seq<char>,
}

impl View for ConfigMeta {
    type V = MetaView;

    open spec fn view(&self) -> MetaView {
        MetaView {
            ultrakill_path: self.ultrakill_path@,
            ultrakill_mods: self.ultrakill_mods@,
            ultrakill_patterns: self.ultrakill_patterns@,
            umm_dir: self.umm_dir@,
            mods_dir: self.mods_dir@,
            patterns_dir: self.patterns_dir@,
        }
    }
}

impl MetaView {
    /// The locations that are all empty.
    pub open spec fn empty() -> MetaView {
        MetaView {
            ultrakill_path: Seq::empty(),
            ultrakill_mods: Seq::empty(),
            ultrakill_patterns: Seq::empty(),
            umm_dir: Seq::empty(),
            mods_dir: Seq::empty(),
            patterns_dir: Seq::empty(),
        }
    }
}

impl Default for ConfigMeta {
    fn default() -> (r: ConfigMeta)
        ensures
            r@ == MetaView::empty(),
    {
        ConfigMeta {
            ultrakill_path: String::new(),
            ultrakill_mods: String::new(),
            ultrakill_patterns: String::new(),
            umm_dir: String::new(),
            mods_dir: String::new(),
            patterns_dir: String::new(),
        }
    }
}

impl Clone for ConfigMeta {
    fn clone(&self) -> (r: ConfigMeta)
        ensures
            r@ == self@,
    {
        ConfigMeta {
            ultrakill_path: self.ultrakill_path.clone(),
            ultrakill_mods: self.ultrakill_mods.clone(),
            ultrakill_patterns: self.ultrakill_patterns.clone(),
            umm_dir: self.umm_dir.clone(),
            mods_dir: self.mods_dir.clone(),
            patterns_dir: self.patterns_dir.clone(),
        }
    }
}

/// What the user may edit in the configuration.
#[derive(Debug)]
pub struct UserConfig {
    pub user_token: String,
}

/// The value of a [`UserConfig`].
pub struct UserView {
    pub user_token: Seq<char>,
}

impl View for UserConfig {
    type V = UserView;

    open spec fn view(&self) -> UserView {
        UserView { user_token: self.user_token@ }
    }
}

impl Default for UserConfig {
    fn default() -> (r: UserConfig)
        ensures
            r@ == (UserView { user_token: Seq::empty() }),
    {
        UserConfig { user_token: String::new() }
    }
}

impl Clone for UserConfig {
    fn clone(&self) -> (r: UserConfig)
        ensures
            r@ == self@,
    {
        UserConfig { user_token: self.user_token.clone() }
    }
}

/// The configuration: the locations and the user's settings.
#[derive(Debug)]
pub struct UMMConfig {
    pub meta: ConfigMeta,
    pub user: UserConfig,
}

/// The value of a [`UMMConfig`].
pub struct ConfigView {
    pub meta: MetaView,
    pub user: UserView,
}

impl View for UMMConfig {
    type V = ConfigView;

    open spec fn view(&self) -> ConfigView {
        ConfigView { meta: self.meta@, user: self.user@ }
    }
}

impl Clone for UMMConfig {
    fn clone(&self) -> (r: UMMConfig)
        ensures
            r@ == self@,
    {
        UMMConfig { meta: self.meta.clone(), user: self.user.clone() }
    }
}

impl ConfigView {
    /// The configuration of a fresh managed root: the two stores lie in it
    /// as `mods` and `patterns`, and everything else is empty.
    pub open spec fn rooted_at(umm_dir: Seq<char>) -> ConfigView {
        ConfigView {
            meta: MetaView {
                ultrakill_path: Seq::empty(),
                ultrakill_mods: Seq::empty(),
                ultrakill_patterns: Seq::empty(),
                umm_dir: umm_dir,
                mods_dir: path_join(umm_dir, "mods"@),
                patterns_dir: path_join(umm_dir, "patterns"@),
            },
            user: UserView { user_token: Seq::empty() },
        }
    }

    /// This configuration with the host application at `path`: the host's
    /// directories for mods and patterns follow from it.
    pub open spec fn with_ultrakill_path(self, path: Seq<char>) -> ConfigView {
        ConfigView {
            meta: MetaView {
                ultrakill_path: path,
                ultrakill_mods: path_join(path_join(path, "BepInEx"@), "UMM Mods"@),
                ultrakill_patterns: path_join(
                    path_join(path_join(path, "Cybergrind"@), "Patterns"@),
                    "ULTRAMODMANAGER"@,
                ),
                ..self.meta
            },
            user: self.user,
        }
    }
}

impl MetaView {
    /// Whether a location of the host is unset or absolute.
    pub open spec fn host_path(path: Seq<char>) -> bool {
        path.len() == 0 || path_is_absolute(path)
    }

    /// The invariant of the locations: the managed root and the two stores
    /// are absolute paths, the stores lie below the managed root and are not
    /// the same path, and every location of the host is absolute where it is
    /// set.
    pub open spec fn valid(self) -> bool {
        &&& path_is_absolute(self.umm_dir)
        &&& path_is_absolute(self.mods_dir)
        &&& path_is_absolute(self.patterns_dir)
        &&& path_under(self.mods_dir, self.umm_dir)
        &&& path_under(self.patterns_dir, self.umm_dir)
        &&& !same_path(self.mods_dir, self.patterns_dir)
        &&& MetaView::host_path(self.ultrakill_path)
        &&& MetaView::host_path(self.ultrakill_mods)
        &&& MetaView::host_path(self.ultrakill_patterns)
    }
}

fn is_host_path(path: &str) -> (r: bool)
    ensures
        r == MetaView::host_path(path@),
{
    path.is_empty() || is_absolute(path)
}

fn is_under(path: &str, base: &str) -> (r: bool)
    ensures
        r == path_under(path@, base@),
{
    starts_with(path, base) && !starts_with(base, path)
}

impl ConfigMeta {
    /// Whether the locations keep their invariant.
    pub fn is_valid(&self) -> (r: bool)
        ensures
            r == self@.valid(),
    {
        let root = self.umm_dir.as_str();
        let mods = self.mods_dir.as_str();
        let patterns = self.patterns_dir.as_str();
        is_absolute(root) && is_absolute(mods) && is_absolute(patterns) && is_under(mods, root)
            && is_under(patterns, root) && !(starts_with(mods, patterns) && starts_with(
            patterns,
            mods,
        )) && is_host_path(self.ultrakill_path.as_str()) && is_host_path(
            self.ultrakill_mods.as_str(),
        ) && is_host_path(self.ultrakill_patterns.as_str())
    }
}

impl UMMConfig {
    /// The configuration of a fresh managed root at `umm_dir`.
    pub fn rooted_at(umm_dir: &str) -> (r: UMMConfig)
        ensures
            r@ == ConfigView::rooted_at(umm_dir@),
    {
        UMMConfig {
            meta: ConfigMeta {
                ultrakill_path: String::new(),
                ultrakill_mods: String::new(),
                ultrakill_patterns: String::new(),
                umm_dir: umm_dir.to_owned(),
                mods_dir: join(umm_dir, "mods"),
                patterns_dir: join(umm_dir, "patterns"),
            },
            user: UserConfig::default(),
        }
    }
}

/// The outcome of asking for a write, as the request's value or the
/// failure.
pub open spec fn saved(r: Result<Request, RuntimeError>) -> Result<RequestView, Failure> {
    match r {
        Ok(request) => Ok(request@),
        Err(e) => Err(e@),
    }
}

/// A value that has a file of its own under the managed root.
pub trait Save {
    /// What persists this value: the request that writes its file in full,
    /// or the failure to render it.
    spec fn save_request(&self) -> Result<RequestView, Failure>;

    /// Asks for this value to be written to its file.
    fn save(&self) -> (r: Result<Request, RuntimeError>)
        ensures
            saved(r) == self.save_request(),
    ;
}

} // verus!
