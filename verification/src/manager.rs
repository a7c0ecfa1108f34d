//! Setting up the managed root: the directories, the configuration file and
//! the lock file are loaded, or made where they are missing, and the stores
//! are linked into the host application.

use vstd::prelude::*;
use vstd::string::*;
use crate::effects::{
    out_of_turn, out_of_turn_text, PathKind, Reply, ReplyView, Request, RequestView,
};
use crate::error::ErrorKind;
use crate::models::{ConfigView, LockFile, LockView, UMMConfig};
use crate::paths::{join, path_join};
use crate::text::{join2, join3};
use crate::persist::{
    config_from_toml, config_in, config_path, config_text, config_to_toml, lock_from_toml, lock_in,
    lock_path, lock_text, lock_to_toml,
};

verus! {

/// The setup could not be completed.
#[derive(Debug)]
pub struct InitError {
    /// `InitializationError`; `ProjectionFailed` where a store could not be
    /// linked into the host; `Other` where an answer did not fit its request.
    pub kind: ErrorKind,
    pub message: String,
}

/// The text in quotes, with the escapes of `std`'s `Debug` for strings.
pub uninterp spec fn debug_form(text: Seq<char>) -> Seq<char>;

/// `std`'s `Debug` for `str`, through its formatter: the text in quotes and
/// escaped, named by [`debug_form`].
#[verifier::external_body]
fn quoted(text: &str) -> (r: String)
    ensures
        r@ == debug_form(text@),
{
    format!("{:?}", text)
}

impl InitError {
    /// A setup failure that carries the text `s`.
    pub fn new(s: &str) -> (r: InitError)
        ensures
            r.kind == ErrorKind::InitializationError,
            r.message@ == s@,
    {
        InitError { kind: ErrorKind::InitializationError, message: s.to_owned() }
    }

    /// The kind of this failure.
    pub fn kind(&self) -> (k: ErrorKind)
        ensures
            k == self.kind,
    {
        self.kind
    }

    /// The text that the error displays as: the type's name around the
    /// message in quotes.
    pub fn to_string(&self) -> (r: String)
        ensures
            r@ == "InitError { message: "@ + debug_form(self.message@) + " }"@,
    {
        join3("InitError { message: ", quoted(self.message.as_str()).as_str(), " }")
    }
}

/// Where the setup stands: which request it waits on.
#[derive(Clone, Copy, Debug, PartialEq, Eq, Structural)]
pub enum SetupPhase {
    /// Asked what stands at the managed root.
    RootProbe,
    /// Asked to create the managed root.
    RootCreate,
    /// Asked what stands at the managed root after its creation.
    RootCheck,
    /// Asked what stands at the configuration file.
    ConfigProbe,
    /// Asked for the text of the configuration file.
    ConfigRead,
    /// Asked what stands at the managed root, before a configuration is made.
    DefaultRootProbe,
    /// Asked to write the configuration that was made.
    ConfigWrite,
    /// Asked what stands at the lock file.
    LockProbe,
    /// Asked for the text of the lock file.
    LockRead,
    /// Asked to write an empty lock file.
    LockWrite,
    /// Asked what stands at the store of patterns.
    PatternsProbe,
    /// Asked to create the store of patterns.
    PatternsCreate,
    /// Asked what stands at the store of mods.
    ModsProbe,
    /// Asked to create the store of mods.
    ModsCreate,
    /// Asked what stands at the host's directory for patterns.
    PatternsLinkProbe,
    /// Asked what stands at the host application, for its patterns.
    PatternsHostProbe,
    /// Asked to link the store of patterns into the host.
    PatternsLink,
    /// Asked what stands at the host's directory for mods.
    ModsLinkProbe,
    /// Asked what stands at the host application, for its mods.
    ModsHostProbe,
    /// Asked to link the store of mods into the host.
    ModsLink,
}

/// A setup in progress.
#[derive(Debug)]
pub struct Setup {
    pub phase: SetupPhase,
    /// The managed root.
    pub umm_dir: String,
    /// The configuration, once a phase has loaded or made it.
    pub config: UMMConfig,
    /// The lock state, once a phase has loaded or made it.
    pub lock: LockFile,
}

/// The value of a [`Setup`].
pub struct SetupView {
    pub phase: SetupPhase,
    pub umm_dir: Seq<char>,
    pub config: ConfigView,
    pub lock: LockView,
}

impl View for Setup {
    type V = SetupView;

    open spec fn view(&self) -> SetupView {
        SetupView {
            phase: self.phase,
            umm_dir: self.umm_dir@,
            config: self.config@,
            lock: self.lock@,
        }
    }
}

/// What the setup does next.
#[derive(Debug)]
pub enum InitStep {
    /// The driver performs the request and resumes the setup, in the state
    /// given here, with the answer.
    Ask(Setup, Request),
    /// The setup is complete.
    Ready(UMMConfig, LockFile),
    /// The setup has failed.
    Failed(InitError),
}

/// The value of an [`InitStep`].
pub enum InitStepView {
    Ask(SetupView, RequestView),
    Ready(ConfigView, LockView),
    Failed(ErrorKind, Seq<char>),
}

impl View for InitStep {
    type V = InitStepView;

    open spec fn view(&self) -> InitStepView {
        match *self {
            InitStep::Ask(state, request) => InitStepView::Ask(state@, request@),
            InitStep::Ready(config, lock) => InitStepView::Ready(config@, lock@),
            InitStep::Failed(e) => InitStepView::Failed(e.kind, e.message@),
        }
    }
}

/// The managed root of a home directory.
pub open spec fn root_of(home: Seq<char>) -> Seq<char> {
    path_join(home, ".ultramodmanager"@)
}

/// The message for a configuration whose locations break their invariant.
pub open spec fn invalid_paths() -> Seq<char> {
    "The paths of the ultramodmanager config are not absolute "@
        + "or not in the ultramodmanager directory."@
}

/// The message for a link that could not be made.
pub open spec fn link_failure(
    what: Seq<char>,
    store: Seq<char>,
    place: Seq<char>,
    host: Seq<char>,
    reason: Seq<char>,
) -> Seq<char> {
    "Unable to symlink ULTRAMODMANAGER "@ + what + " directory ("@ + store + ") to ULTRAKILL "@
        + place + " directory ("@ + host + "): "@ + reason
}

impl SetupView {
    /// How the setup starts for a home directory: the managed root is
    /// probed.
    pub open spec fn start(home: Seq<char>) -> InitStepView {
        InitStepView::Ask(
            SetupView {
                phase: SetupPhase::RootProbe,
                umm_dir: root_of(home),
                config: ConfigView::rooted_at(root_of(home)),
                lock: LockView::empty(),
            },
            RequestView::Probe { path: root_of(home) },
        )
    }

    /// This setup in another phase, asking `request`.
    pub open spec fn ask(self, phase: SetupPhase, request: RequestView) -> InitStepView {
        InitStepView::Ask(SetupView { phase, ..self }, request)
    }

    /// This setup, ended by a failure to initialise.
    pub open spec fn fail(self, message: Seq<char>) -> InitStepView {
        InitStepView::Failed(ErrorKind::InitializationError, message)
    }

    /// This setup, ended by an answer that does not fit the request.
    pub open spec fn stray(self) -> InitStepView {
        InitStepView::Failed(ErrorKind::Other, out_of_turn())
    }

    /// This setup, ended by a link that could not be made.
    pub open spec fn unlinked(self, message: Seq<char>) -> InitStepView {
        InitStepView::Failed(ErrorKind::ProjectionFailed, message)
    }

    /// This setup, ended with the configuration and the lock state it holds.
    pub open spec fn ready(self) -> InitStepView {
        InitStepView::Ready(self.config, self.lock)
    }

    /// What follows once the managed root is known to be a directory: the
    /// configuration file is probed.
    pub open spec fn to_config(self) -> InitStepView {
        self.ask(SetupPhase::ConfigProbe, RequestView::Probe { path: config_path(self.umm_dir) })
    }

    /// What follows once the configuration is held: the lock file is probed.
    pub open spec fn to_lock(self) -> InitStepView {
        self.ask(SetupPhase::LockProbe, RequestView::Probe { path: lock_path(self.umm_dir) })
    }

    /// What follows once the lock state is held: the store of patterns is
    /// probed.
    pub open spec fn to_patterns(self) -> InitStepView {
        self.ask(
            SetupPhase::PatternsProbe,
            RequestView::Probe { path: self.config.meta.patterns_dir },
        )
    }

    /// What follows once the store of patterns is there: the store of mods
    /// is probed.
    pub open spec fn to_mods(self) -> InitStepView {
        self.ask(SetupPhase::ModsProbe, RequestView::Probe { path: self.config.meta.mods_dir })
    }

    /// What follows once both stores are there: the host's directory for
    /// patterns is probed.
    pub open spec fn to_patterns_link(self) -> InitStepView {
        self.ask(
            SetupPhase::PatternsLinkProbe,
            RequestView::Probe { path: self.config.meta.ultrakill_patterns },
        )
    }

    /// What follows once the patterns are dealt with: the host's directory
    /// for mods is probed.
    pub open spec fn to_mods_link(self) -> InitStepView {
        self.ask(
            SetupPhase::ModsLinkProbe,
            RequestView::Probe { path: self.config.meta.ultrakill_mods },
        )
    }

    /// The setup's reaction to an answer: it asks again, in its next state,
    /// or ends. An answer that does not fit the request ends it.
    pub open spec fn step(self, reply: ReplyView) -> InitStepView {
        match self.phase {
            SetupPhase::RootProbe => match reply {
                ReplyView::Kind(PathKind::Missing) => self.ask(
                    SetupPhase::RootCreate,
                    RequestView::CreateDirAll { path: self.umm_dir },
                ),
                ReplyView::Kind(PathKind::Directory) => self.to_config(),
                ReplyView::Kind(_) => self.fail(
                    "The ultramodmanager dotfile needs to be a directory."@,
                ),
                _ => self.stray(),
            },
            SetupPhase::RootCreate => match reply {
                ReplyView::Done => self.ask(
                    SetupPhase::RootCheck,
                    RequestView::Probe { path: self.umm_dir },
                ),
                ReplyView::Failed(_) => self.fail("Unable to create .ultramodmanager directory."@),
                _ => self.stray(),
            },
            SetupPhase::RootCheck => match reply {
                ReplyView::Kind(PathKind::Directory) => self.to_config(),
                ReplyView::Kind(_) => self.fail(
                    "The ultramodmanager dotfile needs to be a directory."@,
                ),
                _ => self.stray(),
            },
            SetupPhase::ConfigProbe => match reply {
                ReplyView::Kind(PathKind::File) => self.ask(
                    SetupPhase::ConfigRead,
                    RequestView::ReadToString { path: config_path(self.umm_dir) },
                ),
                ReplyView::Kind(_) => self.ask(
                    SetupPhase::DefaultRootProbe,
                    RequestView::Probe { path: self.umm_dir },
                ),
                _ => self.stray(),
            },
            SetupPhase::ConfigRead => match reply {
                ReplyView::Text(text) => match config_in(text) {
                    Some(config) => if config.meta.valid() {
                        (SetupView { config, ..self }).to_lock()
                    } else {
                        self.fail(invalid_paths())
                    },
                    None => self.fail("Unable to parse ultramodmanager config file."@),
                },
                ReplyView::Failed(_) => self.fail("Unable to read ultramodmanager config file."@),
                _ => self.stray(),
            },
            SetupPhase::DefaultRootProbe => match reply {
                ReplyView::Kind(PathKind::Directory) => {
                    let config = ConfigView::rooted_at(self.umm_dir);
                    if !config.meta.valid() {
                        self.fail(invalid_paths())
                    } else {
                        match config_text(config) {
                            Some(text) => (SetupView { config, ..self }).ask(
                                SetupPhase::ConfigWrite,
                                RequestView::Write { path: config_path(self.umm_dir), text },
                            ),
                            None => self.fail("Unable to encode the default config file."@),
                        }
                    }
                },
                ReplyView::Kind(_) => self.fail(
                    "The ultramodmanager dotfile needs to be a directory."@,
                ),
                _ => self.stray(),
            },
            SetupPhase::ConfigWrite => match reply {
                ReplyView::Done => self.to_lock(),
                ReplyView::Failed(_) => self.fail("Failed to write default config file to fs."@),
                _ => self.stray(),
            },
            SetupPhase::LockProbe => match reply {
                ReplyView::Kind(PathKind::File) => self.ask(
                    SetupPhase::LockRead,
                    RequestView::ReadToString { path: lock_path(self.umm_dir) },
                ),
                ReplyView::Kind(_) => match lock_text(LockView::empty()) {
                    Some(text) => (SetupView { lock: LockView::empty(), ..self }).ask(
                        SetupPhase::LockWrite,
                        RequestView::Write { path: lock_path(self.umm_dir), text },
                    ),
                    None => self.fail("Unable to encode the default lockfile."@),
                },
                _ => self.stray(),
            },
            SetupPhase::LockRead => match reply {
                ReplyView::Text(text) => match lock_in(text) {
                    Some(lock) => (SetupView { lock, ..self }).to_patterns(),
                    None => self.fail("Unable to parse ultramodmanager config file."@),
                },
                ReplyView::Failed(_) => self.fail("Unable to read ultramodmanager lockfile."@),
                _ => self.stray(),
            },
            SetupPhase::LockWrite => match reply {
                ReplyView::Done => self.to_patterns(),
                ReplyView::Failed(_) => self.fail("Failed to write default lockfile to fs."@),
                _ => self.stray(),
            },
            SetupPhase::PatternsProbe => match reply {
                ReplyView::Kind(PathKind::Missing) => self.ask(
                    SetupPhase::PatternsCreate,
                    RequestView::CreateDirAll { path: self.config.meta.patterns_dir },
                ),
                ReplyView::Kind(_) => self.to_mods(),
                _ => self.stray(),
            },
            SetupPhase::PatternsCreate => match reply {
                ReplyView::Done => self.to_mods(),
                ReplyView::Failed(_) => self.fail("Failed to create local patterns directory."@),
                _ => self.stray(),
            },
            SetupPhase::ModsProbe => match reply {
                ReplyView::Kind(PathKind::Missing) => self.ask(
                    SetupPhase::ModsCreate,
                    RequestView::CreateDirAll { path: self.config.meta.mods_dir },
                ),
                ReplyView::Kind(_) => self.to_patterns_link(),
                _ => self.stray(),
            },
            SetupPhase::ModsCreate => match reply {
                ReplyView::Done => self.to_patterns_link(),
                ReplyView::Failed(_) => self.fail("Failed to create local mods directory."@),
                _ => self.stray(),
            },
            SetupPhase::PatternsLinkProbe => match reply {
                ReplyView::Kind(PathKind::Missing) => self.ask(
                    SetupPhase::PatternsHostProbe,
                    RequestView::Probe { path: self.config.meta.ultrakill_path },
                ),
                ReplyView::Kind(_) => self.to_mods_link(),
                _ => self.stray(),
            },
            SetupPhase::PatternsHostProbe => match reply {
                ReplyView::Kind(PathKind::Missing) => self.to_mods_link(),
                ReplyView::Kind(_) => self.ask(
                    SetupPhase::PatternsLink,
                    RequestView::Symlink {
                        target: self.config.meta.patterns_dir,
                        link: self.config.meta.ultrakill_patterns,
                    },
                ),
                _ => self.stray(),
            },
            SetupPhase::PatternsLink => match reply {
                ReplyView::Done => self.to_mods_link(),
                ReplyView::Failed(reason) => self.unlinked(
                    link_failure(
                        "patterns"@,
                        self.config.meta.patterns_dir,
                        "Patterns"@,
                        self.config.meta.ultrakill_patterns,
                        reason,
                    ),
                ),
                _ => self.stray(),
            },
            SetupPhase::ModsLinkProbe => match reply {
                ReplyView::Kind(PathKind::Missing) => self.ask(
                    SetupPhase::ModsHostProbe,
                    RequestView::Probe { path: self.config.meta.ultrakill_path },
                ),
                ReplyView::Kind(_) => self.ready(),
                _ => self.stray(),
            },
            SetupPhase::ModsHostProbe => match reply {
                ReplyView::Kind(PathKind::Missing) => self.ready(),
                ReplyView::Kind(_) => self.ask(
                    SetupPhase::ModsLink,
                    RequestView::Symlink {
                        target: self.config.meta.mods_dir,
                        link: self.config.meta.ultrakill_mods,
                    },
                ),
                _ => self.stray(),
            },
            SetupPhase::ModsLink => match reply {
                ReplyView::Done => self.ready(),
                ReplyView::Failed(reason) => self.unlinked(
                    link_failure(
                        "mods"@,
                        self.config.meta.mods_dir,
                        "Mods"@,
                        self.config.meta.ultrakill_mods,
                        reason,
                    ),
                ),
                _ => self.stray(),
            },
        }
    }
}

fn failed(message: &str) -> (r: InitStep)
    ensures
        r@ == InitStepView::Failed(ErrorKind::InitializationError, message@),
{
    InitStep::Failed(InitError::new(message))
}

fn failed_paths() -> (r: InitStep)
    ensures
        r@ == InitStepView::Failed(ErrorKind::InitializationError, invalid_paths()),
{
    proof {
        reveal_strlit("The paths of the ultramodmanager config are not absolute ");
        reveal_strlit("or not in the ultramodmanager directory.");
    }
    let message = join2(
        "The paths of the ultramodmanager config are not absolute ",
        "or not in the ultramodmanager directory.",
    );
    InitStep::Failed(InitError { kind: ErrorKind::InitializationError, message })
}

fn failed_out_of_turn() -> (r: InitStep)
    ensures
        r@ == InitStepView::Failed(ErrorKind::Other, out_of_turn()),
{
    InitStep::Failed(InitError { kind: ErrorKind::Other, message: out_of_turn_text() })
}

fn link_failure_text(what: &str, store: &str, place: &str, host: &str, reason: &str) -> (r: String)
    ensures
        r@ == link_failure(what@, store@, place@, host@, reason@),
{
    let mut s = String::from_str("Unable to symlink ULTRAMODMANAGER ");
    s.append(what);
    s.append(" directory (");
    s.append(store);
    s.append(") to ULTRAKILL ");
    s.append(place);
    s.append(" directory (");
    s.append(host);
    s.append("): ");
    s.append(reason);
    s
}

impl Setup {
    /// Starts the setup for a home directory: the managed root is
    /// `.ultramodmanager` in it, and the first request probes it.
    pub fn start(home: &str) -> (r: InitStep)
        ensures
            r@ == SetupView::start(home@),
    {
        let umm_dir = join(home, ".ultramodmanager");
        let request = Request::Probe { path: umm_dir.clone() };
        let config = UMMConfig::rooted_at(umm_dir.as_str());
        InitStep::Ask(
            Setup { phase: SetupPhase::RootProbe, umm_dir, config, lock: LockFile::default() },
            request,
        )
    }

    fn ask(self, phase: SetupPhase, request: Request) -> (r: InitStep)
        ensures
            r@ == self@.ask(phase, request@),
    {
        InitStep::Ask(
            Setup { phase, umm_dir: self.umm_dir, config: self.config, lock: self.lock },
            request,
        )
    }

    fn ready(self) -> (r: InitStep)
        ensures
            r@ == self@.ready(),
    {
        InitStep::Ready(self.config, self.lock)
    }

    fn to_config(self) -> (r: InitStep)
        ensures
            r@ == self@.to_config(),
    {
        let path = join(self.umm_dir.as_str(), "config.toml");
        self.ask(SetupPhase::ConfigProbe, Request::Probe { path })
    }

    fn to_lock(self) -> (r: InitStep)
        ensures
            r@ == self@.to_lock(),
    {
        let path = join(self.umm_dir.as_str(), "ultramodmanager.lock");
        self.ask(SetupPhase::LockProbe, Request::Probe { path })
    }

    fn to_patterns(self) -> (r: InitStep)
        ensures
            r@ == self@.to_patterns(),
    {
        let path = self.config.meta.patterns_dir.clone();
        self.ask(SetupPhase::PatternsProbe, Request::Probe { path })
    }

    fn to_mods(self) -> (r: InitStep)
        ensures
            r@ == self@.to_mods(),
    {
        let path = self.config.meta.mods_dir.clone();
        self.ask(SetupPhase::ModsProbe, Request::Probe { path })
    }

    fn to_patterns_link(self) -> (r: InitStep)
        ensures
            r@ == self@.to_patterns_link(),
    {
        let path = self.config.meta.ultrakill_patterns.clone();
        self.ask(SetupPhase::PatternsLinkProbe, Request::Probe { path })
    }

    fn to_mods_link(self) -> (r: InitStep)
        ensures
            r@ == self@.to_mods_link(),
    {
        let path = self.config.meta.ultrakill_mods.clone();
        self.ask(SetupPhase::ModsLinkProbe, Request::Probe { path })
    }
}

/// Resumes the setup with the answer to its last request, and says what it
/// does next: another request, the configuration and the lock state, or the
/// failure.
pub fn init(state: Setup, reply: Reply) -> (r: InitStep)
    ensures
        r@ == state@.step(reply@),
{
    match state.phase {
        SetupPhase::RootProbe => match reply {
            Reply::Kind(PathKind::Missing) => {
                let path = state.umm_dir.clone();
                state.ask(SetupPhase::RootCreate, Request::CreateDirAll { path })
            },
            Reply::Kind(PathKind::Directory) => state.to_config(),
            Reply::Kind(_) => failed("The ultramodmanager dotfile needs to be a directory."),
            _ => failed_out_of_turn(),
        },
        SetupPhase::RootCreate => match reply {
            Reply::Done => {
                let path = state.umm_dir.clone();
                state.ask(SetupPhase::RootCheck, Request::Probe { path })
            },
            Reply::Failed(_) => failed("Unable to create .ultramodmanager directory."),
            _ => failed_out_of_turn(),
        },
        SetupPhase::RootCheck => match reply {
            Reply::Kind(PathKind::Directory) => state.to_config(),
            Reply::Kind(_) => failed("The ultramodmanager dotfile needs to be a directory."),
            _ => failed_out_of_turn(),
        },
        SetupPhase::ConfigProbe => match reply {
            Reply::Kind(PathKind::File) => {
                let path = join(state.umm_dir.as_str(), "config.toml");
                state.ask(SetupPhase::ConfigRead, Request::ReadToString { path })
            },
            Reply::Kind(_) => {
                let path = state.umm_dir.clone();
                state.ask(SetupPhase::DefaultRootProbe, Request::Probe { path })
            },
            _ => failed_out_of_turn(),
        },
        SetupPhase::ConfigRead => match reply {
            Reply::Text(text) => match config_from_toml(text.as_str()) {
                Some(config) => if !config.meta.is_valid() {
                    failed_paths()
                } else {
                    let next = Setup {
                        phase: state.phase,
                        umm_dir: state.umm_dir,
                        config,
                        lock: state.lock,
                    };
                    next.to_lock()
                },
                None => failed("Unable to parse ultramodmanager config file."),
            },
            Reply::Failed(_) => failed("Unable to read ultramodmanager config file."),
            _ => failed_out_of_turn(),
        },
        SetupPhase::DefaultRootProbe => match reply {
            Reply::Kind(PathKind::Directory) => {
                let config = UMMConfig::rooted_at(state.umm_dir.as_str());
                if !config.meta.is_valid() {
                    failed_paths()
                } else {
                    match config_to_toml(&config) {
                        Some(text) => {
                            let path = join(state.umm_dir.as_str(), "config.toml");
                            let next = Setup {
                                phase: state.phase,
                                umm_dir: state.umm_dir,
                                config,
                                lock: state.lock,
                            };
                            next.ask(SetupPhase::ConfigWrite, Request::Write { path, text })
                        },
                        None => failed("Unable to encode the default config file."),
                    }
                }
            },
            Reply::Kind(_) => failed("The ultramodmanager dotfile needs to be a directory."),
            _ => failed_out_of_turn(),
        },
        SetupPhase::ConfigWrite => match reply {
            Reply::Done => state.to_lock(),
            Reply::Failed(_) => failed("Failed to write default config file to fs."),
            _ => failed_out_of_turn(),
        },
        SetupPhase::LockProbe => match reply {
            Reply::Kind(PathKind::File) => {
                let path = join(state.umm_dir.as_str(), "ultramodmanager.lock");
                state.ask(SetupPhase::LockRead, Request::ReadToString { path })
            },
            Reply::Kind(_) => {
                let lock = LockFile::default();
                match lock_to_toml(&lock) {
                    Some(text) => {
                        let path = join(state.umm_dir.as_str(), "ultramodmanager.lock");
                        let next = Setup {
                            phase: state.phase,
                            umm_dir: state.umm_dir,
                            config: state.config,
                            lock,
                        };
                        next.ask(SetupPhase::LockWrite, Request::Write { path, text })
                    },
                    None => failed("Unable to encode the default lockfile."),
                }
            },
            _ => failed_out_of_turn(),
        },
        SetupPhase::LockRead => match reply {
            Reply::Text(text) => match lock_from_toml(text.as_str()) {
                Some(lock) => {
                    let next = Setup {
                        phase: state.phase,
                        umm_dir: state.umm_dir,
                        config: state.config,
                        lock,
                    };
                    next.to_patterns()
                },
                None => failed("Unable to parse ultramodmanager config file."),
            },
            Reply::Failed(_) => failed("Unable to read ultramodmanager lockfile."),
            _ => failed_out_of_turn(),
        },
        SetupPhase::LockWrite => match reply {
            Reply::Done => state.to_patterns(),
            Reply::Failed(_) => failed("Failed to write default lockfile to fs."),
            _ => failed_out_of_turn(),
        },
        SetupPhase::PatternsProbe => match reply {
            Reply::Kind(PathKind::Missing) => {
                let path = state.config.meta.patterns_dir.clone();
                state.ask(SetupPhase::PatternsCreate, Request::CreateDirAll { path })
            },
            Reply::Kind(_) => state.to_mods(),
            _ => failed_out_of_turn(),
        },
        SetupPhase::PatternsCreate => match reply {
            Reply::Done => state.to_mods(),
            Reply::Failed(_) => failed("Failed to create local patterns directory."),
            _ => failed_out_of_turn(),
        },
        SetupPhase::ModsProbe => match reply {
            Reply::Kind(PathKind::Missing) => {
                let path = state.config.meta.mods_dir.clone();
                state.ask(SetupPhase::ModsCreate, Request::CreateDirAll { path })
            },
            Reply::Kind(_) => state.to_patterns_link(),
            _ => failed_out_of_turn(),
        },
        SetupPhase::ModsCreate => match reply {
            Reply::Done => state.to_patterns_link(),
            Reply::Failed(_) => failed("Failed to create local mods directory."),
            _ => failed_out_of_turn(),
        },
        SetupPhase::PatternsLinkProbe => match reply {
            Reply::Kind(PathKind::Missing) => {
                let path = state.config.meta.ultrakill_path.clone();
                state.ask(SetupPhase::PatternsHostProbe, Request::Probe { path })
            },
            Reply::Kind(_) => state.to_mods_link(),
            _ => failed_out_of_turn(),
        },
        SetupPhase::PatternsHostProbe => match reply {
            Reply::Kind(PathKind::Missing) => state.to_mods_link(),
            Reply::Kind(_) => {
                let target = state.config.meta.patterns_dir.clone();
                let link = state.config.meta.ultrakill_patterns.clone();
                state.ask(SetupPhase::PatternsLink, Request::Symlink { target, link })
            },
            _ => failed_out_of_turn(),
        },
        SetupPhase::PatternsLink => match reply {
            Reply::Done => state.to_mods_link(),
            Reply::Failed(reason) => InitStep::Failed(
                InitError {
                    kind: ErrorKind::ProjectionFailed,
                    message: link_failure_text(
                        "patterns",
                        state.config.meta.patterns_dir.as_str(),
                        "Patterns",
                        state.config.meta.ultrakill_patterns.as_str(),
                        reason.as_str(),
                    ),
                },
            ),
            _ => failed_out_of_turn(),
        },
        SetupPhase::ModsLinkProbe => match reply {
            Reply::Kind(PathKind::Missing) => {
                let path = state.config.meta.ultrakill_path.clone();
                state.ask(SetupPhase::ModsHostProbe, Request::Probe { path })
            },
            Reply::Kind(_) => state.ready(),
            _ => failed_out_of_turn(),
        },
        SetupPhase::ModsHostProbe => match reply {
            Reply::Kind(PathKind::Missing) => state.ready(),
            Reply::Kind(_) => {
                let target = state.config.meta.mods_dir.clone();
                let link = state.config.meta.ultrakill_mods.clone();
                state.ask(SetupPhase::ModsLink, Request::Symlink { target, link })
            },
            _ => failed_out_of_turn(),
        },
        SetupPhase::ModsLink => match reply {
            Reply::Done => state.ready(),
            Reply::Failed(reason) => InitStep::Failed(
                InitError {
                    kind: ErrorKind::ProjectionFailed,
                    message: link_failure_text(
                        "mods",
                        state.config.meta.mods_dir.as_str(),
                        "Mods",
                        state.config.meta.ultrakill_mods.as_str(),
                        reason.as_str(),
                    ),
                },
            ),
            _ => failed_out_of_turn(),
        },
    }
}

} // verus!
