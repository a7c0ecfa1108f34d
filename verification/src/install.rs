//! The installation engine: installing a mod and installing a pattern, each
//! as a state machine over the lock state. The lock state gains a record
//! only after the artifact is in the managed store, the lock file is written
//! only after the record is appended, and a failed write takes the record
//! back: the record that the installation holds, wherever it stands.
//!
//! Making an artifact visible to the host application is no part of an
//! installation. The setup links each store into the host as a whole, so
//! that what is installed into a store is visible at once; a link that
//! cannot be made is a `ProjectionFailed` of the setup.

use vstd::prelude::*;
use vstd::string::*;
use crate::effects::{
    out_of_turn, out_of_turn_text, texts, PathKind, Reply, ReplyView, Request, RequestView,
};
use crate::error::{ErrorKind, Failure, RuntimeError};
use crate::guarantees::{law_mod_step_keeps_well_formed, law_pattern_step_keeps_well_formed};
use crate::models::{
    mod_views, pattern_views, ConfigView, LockFile, LockView, Manifest, ModLockRecord,
    ModRecordView, ModView, PatternLockRecord, PatternRecordView, UMMConfig,
};
use crate::parse_internal::{decode, from_toml, toml_read};
use crate::paths::{file_name, join, path_file_name, path_join};
use crate::pattern::{
    base_name, candidate_name, canonical_version, check_pattern, checked, is_taken,
    resolve_unique_name, resolved, semver_canonical, strip_extension,
};
use crate::persist::{lock_path, lock_text, lock_to_toml};
use crate::replicate::{copy, CopyStep, CopyStepView, Replicator, ReplicatorView};
use crate::text::{join2, join3, same_text};

verus! {

/// Where the installation of a mod stands: which request it waits on.
#[derive(Clone, Copy, Debug, PartialEq, Eq, Structural)]
pub enum ModPhase {
    /// Asked what stands at the candidate path.
    SourceProbe,
    /// Asked what stands at the manifest of the candidate.
    ManifestProbe,
    /// Asked for the text of the manifest.
    ManifestRead,
    /// Asked what stands at the destination in the managed store.
    DestProbe,
    /// Asked for a step of the copy into the managed store.
    Copying,
    /// Asked to write the lock file.
    LockWrite,
}

/// The installation of a mod in progress.
#[derive(Debug)]
pub struct ModInstall {
    pub phase: ModPhase,
    /// The candidate directory.
    pub mod_dir: String,
    /// The destination in the managed store, once the manifest is read.
    pub dest: String,
    /// The record to append, once the manifest is read.
    pub record: ModLockRecord,
    /// The copy, while it runs.
    pub copy: Option<Replicator>,
}

/// The value of a [`ModInstall`].
pub struct ModInstallView {
    pub phase: ModPhase,
    pub mod_dir: Seq<char>,
    pub dest: Seq<char>,
    pub record: ModRecordView,
    pub copy: Option<ReplicatorView>,
}

impl View for ModInstall {
    type V = ModInstallView;

    open spec fn view(&self) -> ModInstallView {
        ModInstallView {
            phase: self.phase,
            mod_dir: self.mod_dir@,
            dest: self.dest@,
            record: self.record@,
            copy: match self.copy {
                Some(copy) => Some(copy@),
                None => None,
            },
        }
    }
}

/// What the installation of a mod does next.
#[derive(Debug)]
pub enum ModStep {
    /// The driver performs the request and resumes the installation, in the
    /// state given here, with the answer.
    Ask(ModInstall, Request),
    /// The mod is installed and the lock file is written.
    Done,
    /// The installation has failed.
    Failed(RuntimeError),
}

/// The value of a [`ModStep`].
pub enum ModStepView {
    Ask(ModInstallView, RequestView),
    Done,
    Failed(ErrorKind, Seq<char>),
}

impl View for ModStep {
    type V = ModStepView;

    open spec fn view(&self) -> ModStepView {
        match *self {
            ModStep::Ask(state, request) => ModStepView::Ask(state@, request@),
            ModStep::Done => ModStepView::Done,
            ModStep::Failed(e) => ModStepView::Failed(e.kind, e.message@),
        }
    }
}

/// The directory of a mod in the managed store: id, `@` and version.
pub open spec fn mod_dir_name(m: ModView) -> Seq<char> {
    m.id + "@"@ + m.mod_version
}

/// The record of a mod: its directory name, and id, description and version
/// from the manifest; it is loaded by default.
pub open spec fn mod_record(m: ModView) -> ModRecordView {
    ModRecordView {
        name: mod_dir_name(m),
        id: m.id,
        description: m.description,
        version: m.mod_version,
        autoload: true,
    }
}

/// The manifest of a candidate directory.
pub open spec fn manifest_path(mod_dir: Seq<char>) -> Seq<char> {
    path_join(mod_dir, "manifest.toml"@)
}

/// The message for a candidate without a manifest. It names the last
/// component of the candidate path, or the whole path where there is none.
pub open spec fn missing_manifest(mod_dir: Seq<char>) -> Seq<char> {
    "manifest.toml is not present in mod directory \""@ + (match path_file_name(mod_dir) {
        Some(name) => name,
        None => mod_dir,
    }) + "\"."@
}

/// The message for a copy that failed.
pub open spec fn copy_failure(dest: Seq<char>, reason: Seq<char>) -> Seq<char> {
    "Unable to copy "@ + dest + " to the ultramodmanager mods directory: "@ + reason
}

/// The outcome of planning, as the record's value and the destination's
/// characters, or the failure.
pub open spec fn planned(r: Result<(ModLockRecord, String), RuntimeError>) -> Result<
    (ModRecordView, Seq<char>),
    Failure,
> {
    match r {
        Ok((record, dest)) => Ok((record@, dest@)),
        Err(e) => Err(e@),
    }
}

impl ModInstallView {
    /// How the installation of the mod at `mod_dir` starts: the path is
    /// probed.
    pub open spec fn start(mod_dir: Seq<char>) -> ModStepView {
        ModStepView::Ask(
            ModInstallView {
                phase: ModPhase::SourceProbe,
                mod_dir,
                dest: Seq::empty(),
                record: ModRecordView {
                    name: Seq::empty(),
                    id: Seq::empty(),
                    description: Seq::empty(),
                    version: Seq::empty(),
                    autoload: true,
                },
                copy: None,
            },
            RequestView::Probe { path: mod_dir },
        )
    }

    /// This installation in another phase, asking `request`.
    pub open spec fn ask(self, phase: ModPhase, request: RequestView) -> ModStepView {
        ModStepView::Ask(ModInstallView { phase, ..self }, request)
    }
}

/// Whether `i` is the last place of `x` in `s`.
pub open spec fn is_last_place<T>(s: Seq<T>, x: T, i: int) -> bool {
    0 <= i < s.len() && s[i] == x && forall|j: int| i < j < s.len() ==> s[j] != x
}

/// The list without `x` at its last place; the list itself where it does not
/// hold `x`.
pub open spec fn without<T>(s: Seq<T>, x: T) -> Seq<T> {
    if s.contains(x) {
        s.remove(choose|i: int| is_last_place(s, x, i))
    } else {
        s
    }
}

/// Where `i` is the last place of `x`, the list without `x` is the list
/// without what is at `i`.
pub proof fn lemma_without_at<T>(s: Seq<T>, x: T, i: int)
    requires
        is_last_place(s, x, i),
    ensures
        without(s, x) == s.remove(i),
{
    assert(s.contains(x));
    let c = choose|c: int| is_last_place(s, x, c);
    assert(is_last_place(s, x, c));
    assert(c == i) by {
        if c < i {
            assert(s[i] != x);
        } else if i < c {
            assert(s[c] != x);
        }
    }
}

impl LockView {
    /// This lock state without the last mod record that equals `record`.
    pub open spec fn without_mod(self, record: ModRecordView) -> LockView {
        LockView { mods: without(self.mods, record), patterns: self.patterns }
    }

    /// This lock state without the last pattern record that equals `record`.
    pub open spec fn without_pattern(self, record: PatternRecordView) -> LockView {
        LockView { mods: self.mods, patterns: without(self.patterns, record) }
    }

    /// What a manifest asks of this lock state: the record to append and the
    /// destination in the managed store; a duplicate where a mod with the
    /// same id and version is listed.
    pub open spec fn mod_plan(self, config: ConfigView, m: ModView) -> Result<
        (ModRecordView, Seq<char>),
        Failure,
    > {
        if self.has_mod(m.id, m.mod_version) {
            Err(
                Failure {
                    kind: ErrorKind::DuplicateInstall,
                    message: "A mod with that id and version already exists locally."@,
                },
            )
        } else {
            Ok((mod_record(m), path_join(config.meta.mods_dir, mod_dir_name(m))))
        }
    }

    /// The reaction to the text of a manifest: the text is decoded and the
    /// install is planned; with a plan, the destination is probed.
    pub open spec fn mod_manifest_read(
        self,
        config: ConfigView,
        state: ModInstallView,
        text: Seq<char>,
    ) -> ModStepView {
        match decode(toml_read(text)) {
            Err(fault) => ModStepView::Failed(
                ErrorKind::ManifestDecodeError,
                "Unable to parse manifest: "@ + fault,
            ),
            Ok(m) => match self.mod_plan(config, m) {
                Err(failure) => ModStepView::Failed(failure.kind, failure.message),
                Ok((record, dest)) => (ModInstallView { dest, record, ..state }).ask(
                    ModPhase::DestProbe,
                    RequestView::Probe { path: dest },
                ),
            },
        }
    }

    /// The reaction to the end of the copy: the record is appended and the
    /// lock file is to be written in full. Where a mod with the record's id
    /// and version has been listed in the meantime, or the lock state cannot
    /// be rendered, the lock state stays as it was.
    pub open spec fn mod_commit(self, config: ConfigView, state: ModInstallView) -> (
        LockView,
        ModStepView,
    ) {
        let next = self.with_mod(state.record);
        if self.has_mod(state.record.id, state.record.version) {
            (
                self,
                ModStepView::Failed(
                    ErrorKind::DuplicateInstall,
                    "A mod with that id and version already exists locally."@,
                ),
            )
        } else {
            match lock_text(next) {
            Some(text) => (
                next,
                (ModInstallView { copy: None, ..state }).ask(
                    ModPhase::LockWrite,
                    RequestView::Write { path: lock_path(config.meta.umm_dir), text },
                ),
            ),
            None => (
                self,
                ModStepView::Failed(
                    ErrorKind::WriteFailed,
                    "Failed to encode the updated lockfile."@,
                ),
            ),
            }
        }
    }

    /// The reaction of the installation of a mod to an answer: the lock
    /// state afterwards, and what the installation does next.
    pub open spec fn mod_step(
        self,
        config: ConfigView,
        state: ModInstallView,
        reply: ReplyView,
    ) -> (LockView, ModStepView) {
        match state.phase {
            ModPhase::SourceProbe => (
                self,
                match reply {
                    ReplyView::Kind(PathKind::Directory) => state.ask(
                        ModPhase::ManifestProbe,
                        RequestView::Probe { path: manifest_path(state.mod_dir) },
                    ),
                    ReplyView::Kind(_) => ModStepView::Failed(
                        ErrorKind::InvalidSource,
                        "The specified path doesn't exist or is not a directory."@,
                    ),
                    _ => ModStepView::Failed(ErrorKind::Other, out_of_turn()),
                },
            ),
            ModPhase::ManifestProbe => (
                self,
                match reply {
                    ReplyView::Kind(PathKind::File) => state.ask(
                        ModPhase::ManifestRead,
                        RequestView::ReadToString { path: manifest_path(state.mod_dir) },
                    ),
                    ReplyView::Kind(_) => ModStepView::Failed(
                        ErrorKind::MissingManifest,
                        missing_manifest(state.mod_dir),
                    ),
                    _ => ModStepView::Failed(ErrorKind::Other, out_of_turn()),
                },
            ),
            ModPhase::ManifestRead => (
                self,
                match reply {
                    ReplyView::Text(text) => self.mod_manifest_read(config, state, text),
                    ReplyView::Failed(reason) => ModStepView::Failed(
                        ErrorKind::ManifestDecodeError,
                        "Unable to read ultramodmanager config file: "@ + reason,
                    ),
                    _ => ModStepView::Failed(ErrorKind::Other, out_of_turn()),
                },
            ),
            ModPhase::DestProbe => (
                self,
                match reply {
                    ReplyView::Kind(PathKind::Missing) => match ReplicatorView::start(
                        state.mod_dir,
                        state.dest,
                    ) {
                        CopyStepView::Ask(copy, request) => (ModInstallView {
                            copy: Some(copy),
                            ..state
                        }).ask(ModPhase::Copying, request),
                        _ => ModStepView::Failed(ErrorKind::Other, out_of_turn()),
                    },
                    ReplyView::Kind(_) => ModStepView::Failed(
                        ErrorKind::DestinationExists,
                        "A mod with that id and version already exists in the fs."@,
                    ),
                    _ => ModStepView::Failed(ErrorKind::Other, out_of_turn()),
                },
            ),
            ModPhase::Copying => match state.copy {
                Some(copy) => match copy.step(reply) {
                    CopyStepView::Ask(next, request) => (
                        self,
                        (ModInstallView { copy: Some(next), ..state }).ask(
                            ModPhase::Copying,
                            request,
                        ),
                    ),
                    CopyStepView::Done(_) => self.mod_commit(config, state),
                    CopyStepView::Failed(reason) => (
                        self,
                        ModStepView::Failed(
                            ErrorKind::CopyFailed,
                            copy_failure(state.dest, reason),
                        ),
                    ),
                },
                None => (self, ModStepView::Failed(ErrorKind::Other, out_of_turn())),
            },
            ModPhase::LockWrite => match reply {
                ReplyView::Done => (self, ModStepView::Done),
                ReplyView::Failed(_) => (
                    self.without_mod(state.record),
                    ModStepView::Failed(
                        ErrorKind::WriteFailed,
                        "Failed to write updated lockfile to fs."@,
                    ),
                ),
                _ => (
                    self.without_mod(state.record),
                    ModStepView::Failed(ErrorKind::Other, out_of_turn()),
                ),
            },
        }
    }
}

fn same_mod(a: &ModLockRecord, b: &ModLockRecord) -> (r: bool)
    ensures
        r == (a@ == b@),
{
    same_text(a.name.as_str(), b.name.as_str()) && same_text(a.id.as_str(), b.id.as_str())
        && same_text(a.description.as_str(), b.description.as_str()) && same_text(
        a.version.as_str(),
        b.version.as_str(),
    ) && a.autoload == b.autoload
}

fn same_pattern(a: &PatternLockRecord, b: &PatternLockRecord) -> (r: bool)
    ensures
        r == (a@ == b@),
{
    same_text(a.name.as_str(), b.name.as_str()) && same_text(
        a.version.as_str(),
        b.version.as_str(),
    )
}

fn mod_failed(kind: ErrorKind, message: &str) -> (r: ModStep)
    ensures
        r@ == ModStepView::Failed(kind, message@),
{
    ModStep::Failed(RuntimeError { kind, message: message.to_owned() })
}

fn mod_out_of_turn() -> (r: ModStep)
    ensures
        r@ == ModStepView::Failed(ErrorKind::Other, out_of_turn()),
{
    ModStep::Failed(RuntimeError { kind: ErrorKind::Other, message: out_of_turn_text() })
}

impl ModInstall {
    /// Starts the installation of the mod in the directory `mod_dir`: the
    /// first request probes the path. Nothing is decided yet.
    pub fn start(mod_dir: &str) -> (r: ModStep)
        ensures
            r@ == ModInstallView::start(mod_dir@),
    {
        ModStep::Ask(
            ModInstall {
                phase: ModPhase::SourceProbe,
                mod_dir: mod_dir.to_owned(),
                dest: String::new(),
                record: ModLockRecord::default(),
                copy: None,
            },
            Request::Probe { path: mod_dir.to_owned() },
        )
    }

    fn ask(self, phase: ModPhase, request: Request) -> (r: ModStep)
        ensures
            r@ == self@.ask(phase, request@),
    {
        ModStep::Ask(
            ModInstall {
                phase,
                mod_dir: self.mod_dir,
                dest: self.dest,
                record: self.record,
                copy: self.copy,
            },
            request,
        )
    }
}

impl LockFile {
    /// Whether the lock state keeps its invariant: no two mods share both id
    /// and version, and no two patterns share a name.
    pub fn is_well_formed(&self) -> (r: bool)
        ensures
            r == self@.well_formed(),
    {
        let mut j: usize = 0;
        while j < self.mods.len()
            invariant
                j <= self.mods@.len(),
                forall|a: int, b: int|
                    0 <= a < b < j ==> !((#[trigger] self@.mods[a]).id == (
                    #[trigger] self@.mods[b]).id && self@.mods[a].version == self@.mods[b].version),
            decreases self.mods@.len() - j,
        {
            let mut i: usize = 0;
            while i < j
                invariant
                    i <= j < self.mods@.len(),
                    forall|a: int|
                        0 <= a < i ==> !((#[trigger] self@.mods[a]).id == self@.mods[j as int].id
                            && self@.mods[a].version == self@.mods[j as int].version),
                decreases j - i,
            {
                if same_text(self.mods[i].id.as_str(), self.mods[j].id.as_str()) && same_text(
                    self.mods[i].version.as_str(),
                    self.mods[j].version.as_str(),
                ) {
                    assert(self@.mods[i as int].id == self@.mods[j as int].id);
                    assert(self@.mods[i as int].version == self@.mods[j as int].version);
                    return false;
                }
                i = i + 1;
            }
            j = j + 1;
        }
        let mut j: usize = 0;
        while j < self.patterns.len()
            invariant
                j <= self.patterns@.len(),
                forall|a: int, b: int|
                    0 <= a < b < self@.mods.len() ==> !((#[trigger] self@.mods[a]).id == (
                    #[trigger] self@.mods[b]).id && self@.mods[a].version == self@.mods[b].version),
                forall|a: int, b: int|
                    0 <= a < b < j ==> (#[trigger] self@.patterns[a]).name != (
                    #[trigger] self@.patterns[b]).name,
            decreases self.patterns@.len() - j,
        {
            let mut i: usize = 0;
            while i < j
                invariant
                    i <= j < self.patterns@.len(),
                    forall|a: int|
                        0 <= a < i ==> (#[trigger] self@.patterns[a]).name
                            != self@.patterns[j as int].name,
                decreases j - i,
            {
                if same_text(self.patterns[i].name.as_str(), self.patterns[j].name.as_str()) {
                    assert(self@.patterns[i as int].name == self@.patterns[j as int].name);
                    return false;
                }
                i = i + 1;
            }
            j = j + 1;
        }
        true
    }

    /// Whether a mod with this id and this version is listed.
    pub fn holds_mod(&self, id: &str, version: &str) -> (r: bool)
        ensures
            r == self@.has_mod(id@, version@),
    {
        let mut i: usize = 0;
        while i < self.mods.len()
            invariant
                i <= self.mods@.len(),
                forall|k: int|
                    0 <= k < i ==> !((#[trigger] self@.mods[k]).id == id@ && self@.mods[k].version
                        == version@),
            decreases self.mods@.len() - i,
        {
            if same_text(self.mods[i].id.as_str(), id) && same_text(
                self.mods[i].version.as_str(),
                version,
            ) {
                assert(self@.mods[i as int].id == id@ && self@.mods[i as int].version == version@);
                return true;
            }
            i = i + 1;
        }
        false
    }

    /// Plans the install of a decoded manifest: the record to append and the
    /// destination in the managed store. A mod with the same id and version
    /// that is listed already makes it a duplicate, whatever is on disk.
    pub fn plan_mod(&self, config: &UMMConfig, manifest: &Manifest) -> (r: Result<
        (ModLockRecord, String),
        RuntimeError,
    >)
        ensures
            planned(r) == self@.mod_plan(config@, manifest@),
    {
        let m = &manifest.mod_data;
        if self.holds_mod(m.id.as_str(), m.mod_version.as_str()) {
            return Err(
                RuntimeError {
                    kind: ErrorKind::DuplicateInstall,
                    message: "A mod with that id and version already exists locally.".to_owned(),
                },
            );
        }
        let name = join3(m.id.as_str(), "@", m.mod_version.as_str());
        let dest = join(config.meta.mods_dir.as_str(), name.as_str());
        let record = ModLockRecord {
            name,
            id: m.id.clone(),
            description: m.description.clone(),
            version: m.mod_version.clone(),
            autoload: true,
        };
        Ok((record, dest))
    }

    fn mod_manifest_read(&self, config: &UMMConfig, state: ModInstall, text: &str) -> (r: ModStep)
        ensures
            r@ == self@.mod_manifest_read(config@, state@, text@),
    {
        match from_toml(text) {
            Err(e) => ModStep::Failed(
                RuntimeError {
                    kind: ErrorKind::ManifestDecodeError,
                    message: join2("Unable to parse manifest: ", e.message.as_str()),
                },
            ),
            Ok(manifest) => match self.plan_mod(config, &manifest) {
                Err(e) => ModStep::Failed(e),
                Ok((record, dest)) => {
                    let path = dest.clone();
                    let next = ModInstall {
                        phase: state.phase,
                        mod_dir: state.mod_dir,
                        dest,
                        record,
                        copy: state.copy,
                    };
                    next.ask(ModPhase::DestProbe, Request::Probe { path })
                },
            },
        }
    }

    fn mod_commit(&mut self, config: &UMMConfig, state: ModInstall) -> (r: ModStep)
        ensures
            (final(self)@, r@) == old(self)@.mod_commit(config@, state@),
    {
        if self.holds_mod(state.record.id.as_str(), state.record.version.as_str()) {
            return mod_failed(
                ErrorKind::DuplicateInstall,
                "A mod with that id and version already exists locally.",
            );
        }
        self.mods.push(state.record.clone());
        assert(self@.mods =~= old(self)@.mods.push(state.record@));
        assert(self@.patterns == old(self)@.patterns);
        match lock_to_toml(self) {
            Some(text) => {
                let path = join(config.meta.umm_dir.as_str(), "ultramodmanager.lock");
                let next = ModInstall {
                    phase: state.phase,
                    mod_dir: state.mod_dir,
                    dest: state.dest,
                    record: state.record,
                    copy: None,
                };
                next.ask(ModPhase::LockWrite, Request::Write { path, text })
            },
            None => {
                self.mods.pop();
                assert(self@.mods =~= old(self)@.mods);
                mod_failed(ErrorKind::WriteFailed, "Failed to encode the updated lockfile.")
            },
        }
    }

    fn take_back_mod(&mut self, record: &ModLockRecord)
        ensures
            final(self)@ == old(self)@.without_mod(record@),
    {
        let mut i = self.mods.len();
        while i > 0
            invariant
                i <= self.mods@.len(),
                *self == *old(self),
                forall|j: int| i <= j < self@.mods.len() ==> self@.mods[j] != record@,
            decreases i,
        {
            if same_mod(&self.mods[i - 1], record) {
                proof {
                    assert(self@.mods[i - 1] == record@);
                    lemma_without_at(self@.mods, record@, i - 1);
                }
                let ghost before = self.mods@;
                self.mods.remove(i - 1);
                assert(mod_views(self.mods@) =~= mod_views(before).remove(i - 1));
                return;
            }
            i = i - 1;
        }
        assert(!self@.mods.contains(record@));
    }

    /// Resumes the installation of a mod with the answer to its last
    /// request, and says what it does next: another request, the end, or the
    /// failure. The source and its manifest are checked first, then the
    /// manifest is decoded and held against the lock state, then the
    /// destination is checked and the mod is copied. The record is appended
    /// when the copy has ended, and taken back when the lock file cannot be
    /// written.
    pub fn install_mod(
        &mut self,
        config: &UMMConfig,
        state: ModInstall,
        reply: Reply,
    ) -> (r: ModStep)
        ensures
            (final(self)@, r@) == old(self)@.mod_step(config@, state@, reply@),
            old(self)@.well_formed() ==> final(self)@.well_formed(),
    {
        proof {
            if self@.well_formed() {
                law_mod_step_keeps_well_formed(self@, config@, state@, reply@);
            }
        }
        match state.phase {
            ModPhase::SourceProbe => match reply {
                Reply::Kind(PathKind::Directory) => {
                    let path = join(state.mod_dir.as_str(), "manifest.toml");
                    state.ask(ModPhase::ManifestProbe, Request::Probe { path })
                },
                Reply::Kind(_) => mod_failed(
                    ErrorKind::InvalidSource,
                    "The specified path doesn't exist or is not a directory.",
                ),
                _ => mod_out_of_turn(),
            },
            ModPhase::ManifestProbe => match reply {
                Reply::Kind(PathKind::File) => {
                    let path = join(state.mod_dir.as_str(), "manifest.toml");
                    state.ask(ModPhase::ManifestRead, Request::ReadToString { path })
                },
                Reply::Kind(_) => {
                    let name = match file_name(state.mod_dir.as_str()) {
                        Some(name) => name,
                        None => state.mod_dir.clone(),
                    };
                    ModStep::Failed(
                        RuntimeError {
                            kind: ErrorKind::MissingManifest,
                            message: join3(
                                "manifest.toml is not present in mod directory \"",
                                name.as_str(),
                                "\".",
                            ),
                        },
                    )
                },
                _ => mod_out_of_turn(),
            },
            ModPhase::ManifestRead => match reply {
                Reply::Text(text) => self.mod_manifest_read(config, state, text.as_str()),
                Reply::Failed(reason) => ModStep::Failed(
                    RuntimeError {
                        kind: ErrorKind::ManifestDecodeError,
                        message: join2(
                            "Unable to read ultramodmanager config file: ",
                            reason.as_str(),
                        ),
                    },
                ),
                _ => mod_out_of_turn(),
            },
            ModPhase::DestProbe => match reply {
                Reply::Kind(PathKind::Missing) => match Replicator::start(
                    state.mod_dir.as_str(),
                    state.dest.as_str(),
                ) {
                    CopyStep::Ask(copy, request) => {
                        let next = ModInstall {
                            phase: state.phase,
                            mod_dir: state.mod_dir,
                            dest: state.dest,
                            record: state.record,
                            copy: Some(copy),
                        };
                        next.ask(ModPhase::Copying, request)
                    },
                    _ => mod_out_of_turn(),
                },
                Reply::Kind(_) => mod_failed(
                    ErrorKind::DestinationExists,
                    "A mod with that id and version already exists in the fs.",
                ),
                _ => mod_out_of_turn(),
            },
            ModPhase::Copying => match state.copy {
                Some(running) => match copy(running, reply) {
                    CopyStep::Ask(next_copy, request) => {
                        let next = ModInstall {
                            phase: state.phase,
                            mod_dir: state.mod_dir,
                            dest: state.dest,
                            record: state.record,
                            copy: Some(next_copy),
                        };
                        next.ask(ModPhase::Copying, request)
                    },
                    CopyStep::Done(_) => {
                        let ended = ModInstall {
                            phase: state.phase,
                            mod_dir: state.mod_dir,
                            dest: state.dest,
                            record: state.record,
                            copy: None,
                        };
                        self.mod_commit(config, ended)
                    },
                    CopyStep::Failed(reason) => {
                        let mut message = String::from_str("Unable to copy ");
                        message.append(state.dest.as_str());
                        message.append(" to the ultramodmanager mods directory: ");
                        message.append(reason.as_str());
                        ModStep::Failed(RuntimeError { kind: ErrorKind::CopyFailed, message })
                    },
                },
                None => mod_out_of_turn(),
            },
            ModPhase::LockWrite => match reply {
                Reply::Done => ModStep::Done,
                Reply::Failed(_) => {
                    self.take_back_mod(&state.record);
                    mod_failed(ErrorKind::WriteFailed, "Failed to write updated lockfile to fs.")
                },
                _ => {
                    self.take_back_mod(&state.record);
                    mod_out_of_turn()
                },
            },
        }
    }
}

/// Where the installation of a pattern stands: which request it waits on.
#[derive(Clone, Copy, Debug, PartialEq, Eq, Structural)]
pub enum PatternPhase {
    /// Asked to write the pattern into the managed store.
    FileWrite,
    /// Asked to write the lock file.
    LockWrite,
}

/// The installation of a pattern in progress.
#[derive(Debug)]
pub struct PatternInstall {
    pub phase: PatternPhase,
    /// The record to append.
    pub record: PatternLockRecord,
}

/// The value of a [`PatternInstall`].
pub struct PatternInstallView {
    pub phase: PatternPhase,
    pub record: PatternRecordView,
}

impl View for PatternInstall {
    type V = PatternInstallView;

    open spec fn view(&self) -> PatternInstallView {
        PatternInstallView { phase: self.phase, record: self.record@ }
    }
}

/// What the installation of a pattern does next.
#[derive(Debug)]
pub enum PatternStep {
    /// The driver performs the request and resumes the installation, in the
    /// state given here, with the answer.
    Ask(PatternInstall, Request),
    /// The pattern is installed and the lock file is written.
    Done,
    /// The installation has failed.
    Failed(RuntimeError),
}

/// The value of a [`PatternStep`].
pub enum PatternStepView {
    Ask(PatternInstallView, RequestView),
    Done,
    Failed(ErrorKind, Seq<char>),
}

impl View for PatternStep {
    type V = PatternStepView;

    open spec fn view(&self) -> PatternStepView {
        match *self {
            PatternStep::Ask(state, request) => PatternStepView::Ask(state@, request@),
            PatternStep::Done => PatternStepView::Done,
            PatternStep::Failed(e) => PatternStepView::Failed(e.kind, e.message@),
        }
    }
}

/// The file of a pattern in the managed store.
pub open spec fn pattern_path(patterns_dir: Seq<char>, name: Seq<char>) -> Seq<char> {
    path_join(patterns_dir, name + ".cgp"@)
}

impl LockView {
    /// The names of the listed patterns, in their order.
    pub open spec fn names(self) -> Seq<Seq<char>> {
        self.patterns.map_values(|record: PatternRecordView| record.name)
    }

    /// What a pattern of this base name and this version, whose content has
    /// passed, asks of this lock state: its name is resolved against the
    /// listed names, and its file is to be written.
    pub open spec fn pattern_plan(
        self,
        config: ConfigView,
        candidate: Seq<char>,
        version: Seq<char>,
        contents: Seq<char>,
    ) -> PatternStepView {
        let name = resolved(self.names(), candidate);
        PatternStepView::Ask(
            PatternInstallView {
                phase: PatternPhase::FileWrite,
                record: PatternRecordView { name, version },
            },
            RequestView::Write {
                path: pattern_path(config.meta.patterns_dir, name),
                text: contents,
            },
        )
    }

    /// How the installation of a pattern starts: the extension is stripped
    /// from the requested name, the version is parsed, the content is
    /// checked, and the name is resolved; then the file is to be written.
    pub open spec fn pattern_start(
        self,
        config: ConfigView,
        version: Seq<char>,
        name: Seq<char>,
        contents: Seq<char>,
    ) -> PatternStepView {
        match semver_canonical(version) {
            None => PatternStepView::Failed(
                ErrorKind::InvalidVersion,
                "Unable to parse pattern version to semver."@,
            ),
            Some(parsed) => {
                let candidate = candidate_name(base_name(name), parsed);
                match checked(contents) {
                    Err(diagnostic) => PatternStepView::Failed(
                        ErrorKind::ContentValidationFailed,
                        candidate + ".cgp validation failed: "@ + diagnostic,
                    ),
                    Ok(_) => self.pattern_plan(config, candidate, version, contents),
                }
            },
        }
    }

    /// The reaction to the pattern's file being written: the record is
    /// appended and the lock file is to be written in full. Where a pattern
    /// of the record's name has been listed in the meantime, or the lock
    /// state cannot be rendered, the lock state stays as it was.
    pub open spec fn pattern_commit(self, config: ConfigView, state: PatternInstallView) -> (
        LockView,
        PatternStepView,
    ) {
        let next = self.with_pattern(state.record);
        if self.names().contains(state.record.name) {
            (
                self,
                PatternStepView::Failed(
                    ErrorKind::DuplicateInstall,
                    "A pattern with that name already exists locally."@,
                ),
            )
        } else {
            match lock_text(next) {
                Some(text) => (
                    next,
                    PatternStepView::Ask(
                        PatternInstallView { phase: PatternPhase::LockWrite, ..state },
                        RequestView::Write { path: lock_path(config.meta.umm_dir), text },
                    ),
                ),
                None => (
                    self,
                    PatternStepView::Failed(
                        ErrorKind::WriteFailed,
                        "Failed to encode the updated lockfile."@,
                    ),
                ),
            }
        }
    }

    /// The reaction of the installation of a pattern to an answer: the lock
    /// state afterwards, and what the installation does next.
    pub open spec fn pattern_step(
        self,
        config: ConfigView,
        state: PatternInstallView,
        reply: ReplyView,
    ) -> (LockView, PatternStepView) {
        match state.phase {
            PatternPhase::FileWrite => match reply {
                ReplyView::Done => self.pattern_commit(config, state),
                ReplyView::Failed(_) => (
                    self,
                    PatternStepView::Failed(
                        ErrorKind::WriteFailed,
                        "Failed to write pattern file to fs."@,
                    ),
                ),
                _ => (self, PatternStepView::Failed(ErrorKind::Other, out_of_turn())),
            },
            PatternPhase::LockWrite => match reply {
                ReplyView::Done => (self, PatternStepView::Done),
                ReplyView::Failed(_) => (
                    self.without_pattern(state.record),
                    PatternStepView::Failed(
                        ErrorKind::WriteFailed,
                        "Failed to write updated lockfile to fs."@,
                    ),
                ),
                _ => (
                    self.without_pattern(state.record),
                    PatternStepView::Failed(ErrorKind::Other, out_of_turn()),
                ),
            },
        }
    }
}

fn pattern_failed(kind: ErrorKind, message: &str) -> (r: PatternStep)
    ensures
        r@ == PatternStepView::Failed(kind, message@),
{
    PatternStep::Failed(RuntimeError { kind, message: message.to_owned() })
}

fn pattern_out_of_turn() -> (r: PatternStep)
    ensures
        r@ == PatternStepView::Failed(ErrorKind::Other, out_of_turn()),
{
    PatternStep::Failed(RuntimeError { kind: ErrorKind::Other, message: out_of_turn_text() })
}

impl LockFile {
    /// The names of the listed patterns, in their order.
    pub fn pattern_names(&self) -> (r: Vec<String>)
        ensures
            texts(r@) == self@.names(),
    {
        let mut names: Vec<String> = Vec::new();
        let mut i: usize = 0;
        while i < self.patterns.len()
            invariant
                i <= self.patterns@.len(),
                names@.len() == i,
                forall|k: int| 0 <= k < i ==> (#[trigger] names@[k])@ == self.patterns@[k].name@,
            decreases self.patterns@.len() - i,
        {
            names.push(self.patterns[i].name.clone());
            i = i + 1;
        }
        assert(texts(names@) =~= self@.names());
        names
    }

    /// Plans the install of a pattern whose version has parsed and whose
    /// content has passed: the candidate name is resolved against the listed
    /// names, and the first request writes the content under the resolved
    /// name.
    pub fn plan_pattern(
        &self,
        config: &UMMConfig,
        candidate: &str,
        version: &str,
        contents: &str,
    ) -> (r: PatternStep)
        ensures
            r@ == self@.pattern_plan(config@, candidate@, version@, contents@),
    {
        let names = self.pattern_names();
        let name = resolve_unique_name(&names, candidate);
        let file = join2(name.as_str(), ".cgp");
        let path = join(config.meta.patterns_dir.as_str(), file.as_str());
        PatternStep::Ask(
            PatternInstall {
                phase: PatternPhase::FileWrite,
                record: PatternLockRecord { name, version: version.to_owned() },
            },
            Request::Write { path, text: contents.to_owned() },
        )
    }

    /// Starts the installation of a pattern: `version` is its version tag,
    /// `name` the requested name and `contents` its text. The first request
    /// writes the content into the managed store; a malformed version or a
    /// rejected content ends the installation before anything is written.
    /// Patterns are told apart by base name and version together: the same
    /// base name in another version is another pattern.
    pub fn start_pattern(
        &self,
        config: &UMMConfig,
        version: &str,
        name: &str,
        contents: &str,
    ) -> (r: PatternStep)
        ensures
            r@ == self@.pattern_start(config@, version@, name@, contents@),
    {
        let base = strip_extension(name);
        let parsed = match canonical_version(version) {
            Some(parsed) => parsed,
            None => {
                return pattern_failed(
                    ErrorKind::InvalidVersion,
                    "Unable to parse pattern version to semver.",
                );
            },
        };
        let candidate = join3(base.as_str(), "@", parsed.as_str());
        match check_pattern(contents) {
            Err(diagnostic) => PatternStep::Failed(
                RuntimeError {
                    kind: ErrorKind::ContentValidationFailed,
                    message: join3(
                        candidate.as_str(),
                        ".cgp validation failed: ",
                        diagnostic.as_str(),
                    ),
                },
            ),
            Ok(_) => self.plan_pattern(config, candidate.as_str(), version, contents),
        }
    }

    fn pattern_commit(&mut self, config: &UMMConfig, state: PatternInstall) -> (r: PatternStep)
        ensures
            (final(self)@, r@) == old(self)@.pattern_commit(config@, state@),
    {
        let names = self.pattern_names();
        if is_taken(&names, state.record.name.as_str()) {
            return pattern_failed(
                ErrorKind::DuplicateInstall,
                "A pattern with that name already exists locally.",
            );
        }
        self.patterns.push(state.record.clone());
        assert(self@.patterns =~= old(self)@.patterns.push(state.record@));
        assert(self@.mods == old(self)@.mods);
        match lock_to_toml(self) {
            Some(text) => {
                let path = join(config.meta.umm_dir.as_str(), "ultramodmanager.lock");
                PatternStep::Ask(
                    PatternInstall { phase: PatternPhase::LockWrite, record: state.record },
                    Request::Write { path, text },
                )
            },
            None => {
                self.patterns.pop();
                assert(self@.patterns =~= old(self)@.patterns);
                pattern_failed(ErrorKind::WriteFailed, "Failed to encode the updated lockfile.")
            },
        }
    }

    fn take_back_pattern(&mut self, record: &PatternLockRecord)
        ensures
            final(self)@ == old(self)@.without_pattern(record@),
    {
        let mut i = self.patterns.len();
        while i > 0
            invariant
                i <= self.patterns@.len(),
                *self == *old(self),
                forall|j: int| i <= j < self@.patterns.len() ==> self@.patterns[j] != record@,
            decreases i,
        {
            if same_pattern(&self.patterns[i - 1], record) {
                proof {
                    assert(self@.patterns[i - 1] == record@);
                    lemma_without_at(self@.patterns, record@, i - 1);
                }
                let ghost before = self.patterns@;
                self.patterns.remove(i - 1);
                assert(pattern_views(self.patterns@) =~= pattern_views(before).remove(i - 1));
                return;
            }
            i = i - 1;
        }
        assert(!self@.patterns.contains(record@));
    }

    /// Resumes the installation of a pattern with the answer to its last
    /// request, and says what it does next: another request, the end, or the
    /// failure. The record is appended when the file is written, and taken
    /// back when the lock file cannot be written.
    pub fn install_pattern(
        &mut self,
        config: &UMMConfig,
        state: PatternInstall,
        reply: Reply,
    ) -> (r: PatternStep)
        ensures
            (final(self)@, r@) == old(self)@.pattern_step(config@, state@, reply@),
            old(self)@.well_formed() ==> final(self)@.well_formed(),
    {
        proof {
            if self@.well_formed() {
                law_pattern_step_keeps_well_formed(self@, config@, state@, reply@);
            }
        }
        match state.phase {
            PatternPhase::FileWrite => match reply {
                Reply::Done => self.pattern_commit(config, state),
                Reply::Failed(_) => pattern_failed(
                    ErrorKind::WriteFailed,
                    "Failed to write pattern file to fs.",
                ),
                _ => pattern_out_of_turn(),
            },
            PatternPhase::LockWrite => match reply {
                Reply::Done => PatternStep::Done,
                Reply::Failed(_) => {
                    self.take_back_pattern(&state.record);
                    pattern_failed(
                        ErrorKind::WriteFailed,
                        "Failed to write updated lockfile to fs.",
                    )
                },
                _ => {
                    self.take_back_pattern(&state.record);
                    pattern_out_of_turn()
                },
            },
        }
    }
}

} // verus!
