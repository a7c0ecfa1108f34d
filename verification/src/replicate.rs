//! The directory replicator: it reproduces a directory tree under another
//! path, one request at a time, from an explicit work-list of directories.

use vstd::prelude::*;
use crate::effects::{
    out_of_turn, out_of_turn_text, texts, PathKind, Reply, ReplyView, Request, RequestView,
};
use crate::paths::{file_name, join, path_file_name, path_join};

verus! {

/// A directory that is still to be copied.
#[derive(Debug)]
pub struct Pending {
    /// The directory to read.
    pub from: String,
    /// The directory to fill.
    pub to: String,
}

/// The value of a [`Pending`].
pub struct PendingView {
    pub from: Seq<char>,
    pub to: Seq<char>,
}

impl View for Pending {
    type V = PendingView;

    open spec fn view(&self) -> PendingView {
        PendingView { from: self.from@, to: self.to@ }
    }
}

/// The values of a work-list.
pub open spec fn pending_views(list: Seq<Pending>) -> Seq<PendingView> {
    list.map_values(|p: Pending| p@)
}

/// Where the replicator stands: which request it waits on.
#[derive(Clone, Copy, Debug, PartialEq, Eq, Structural)]
pub enum CopyPhase {
    /// Asked what stands at the destination of the directory at work.
    DestProbe,
    /// Asked to create the destination of the directory at work.
    DestCreate,
    /// Asked for the entries of the directory at work.
    Listing,
    /// Asked what stands at the entry at work.
    EntryProbe,
    /// Asked to copy the entry at work.
    FileCopy,
}

/// A replication in progress.
#[derive(Debug)]
pub struct Replicator {
    pub phase: CopyPhase,
    /// The directories that are still to be visited; the last one is next.
    pub stack: Vec<Pending>,
    /// The directory at work.
    pub from: String,
    /// Its destination.
    pub to: String,
    /// Its entries, each a full path.
    pub entries: Vec<String>,
    /// How many of them are dealt with.
    pub index: usize,
    /// The entries that were passed over because they have no name.
    pub skipped: Vec<String>,
}

/// The value of a [`Replicator`].
pub struct ReplicatorView {
    pub phase: CopyPhase,
    pub stack: Seq<PendingView>,
    pub from: Seq<char>,
    pub to: Seq<char>,
    pub entries: Seq<Seq<char>>,
    pub index: nat,
    pub skipped: Seq<Seq<char>>,
}

impl View for Replicator {
    type V = ReplicatorView;

    open spec fn view(&self) -> ReplicatorView {
        ReplicatorView {
            phase: self.phase,
            stack: pending_views(self.stack@),
            from: self.from@,
            to: self.to@,
            entries: texts(self.entries@),
            index: self.index as nat,
            skipped: texts(self.skipped@),
        }
    }
}

/// What the replicator does next.
#[derive(Debug)]
pub enum CopyStep {
    /// The driver performs the request and resumes the replicator, in the
    /// state given here, with the answer.
    Ask(Replicator, Request),
    /// The tree is copied; the entries listed were passed over because they
    /// have no name.
    Done(Vec<String>),
    /// An operation failed; the text is its diagnostic.
    Failed(String),
}

/// The value of a [`CopyStep`].
pub enum CopyStepView {
    Ask(ReplicatorView, RequestView),
    Done(Seq<Seq<char>>),
    Failed(Seq<char>),
}

impl View for CopyStep {
    type V = CopyStepView;

    open spec fn view(&self) -> CopyStepView {
        match *self {
            CopyStep::Ask(state, request) => CopyStepView::Ask(state@, request@),
            CopyStep::Done(skipped) => CopyStepView::Done(texts(skipped@)),
            CopyStep::Failed(reason) => CopyStepView::Failed(reason@),
        }
    }
}

impl ReplicatorView {
    /// How the replication of `from` under `to` starts: nothing is pending,
    /// and the destination is probed.
    pub open spec fn start(from: Seq<char>, to: Seq<char>) -> CopyStepView {
        CopyStepView::Ask(
            ReplicatorView {
                phase: CopyPhase::DestProbe,
                stack: Seq::empty(),
                from,
                to,
                entries: Seq::empty(),
                index: 0,
                skipped: Seq::empty(),
            },
            RequestView::Probe { path: to },
        )
    }

    /// This replication in another phase, asking `request`.
    pub open spec fn ask(self, phase: CopyPhase, request: RequestView) -> CopyStepView {
        CopyStepView::Ask(ReplicatorView { phase, ..self }, request)
    }

    /// What follows once an entry is dealt with: the next entry is probed;
    /// after the last one, the directory that was pushed last becomes the
    /// directory at work and its destination is probed; with none left, the
    /// replication is done.
    pub open spec fn advance(self) -> CopyStepView {
        if self.index < self.entries.len() {
            self.ask(
                CopyPhase::EntryProbe,
                RequestView::Probe { path: self.entries[self.index as int] },
            )
        } else if self.stack.len() > 0 {
            let next = self.stack.last();
            CopyStepView::Ask(
                ReplicatorView {
                    phase: CopyPhase::DestProbe,
                    stack: self.stack.drop_last(),
                    from: next.from,
                    to: next.to,
                    entries: Seq::empty(),
                    index: 0,
                    skipped: self.skipped,
                },
                RequestView::Probe { path: next.to },
            )
        } else {
            CopyStepView::Done(self.skipped)
        }
    }

    /// This replication with the entry at work counted as dealt with.
    pub open spec fn past_entry(self) -> ReplicatorView {
        if self.index < self.entries.len() {
            ReplicatorView { index: self.index + 1, ..self }
        } else {
            self
        }
    }

    /// The replicator's reaction to the kind of the entry at work. An entry
    /// without a name is passed over and noted. A directory is pushed on the
    /// work-list, with the destination that its name gives; anything else is
    /// copied to the destination that its name gives.
    pub open spec fn judge(self, kind: PathKind) -> CopyStepView {
        if self.index < self.entries.len() {
            let entry = self.entries[self.index as int];
            match path_file_name(entry) {
                None => (ReplicatorView {
                    skipped: self.skipped.push(entry),
                    ..self
                }).past_entry().advance(),
                Some(name) => {
                    let target = path_join(self.to, name);
                    if kind == PathKind::Directory {
                        (ReplicatorView {
                            stack: self.stack.push(PendingView { from: entry, to: target }),
                            ..self
                        }).past_entry().advance()
                    } else {
                        self.ask(
                            CopyPhase::FileCopy,
                            RequestView::CopyFile { from: entry, to: target },
                        )
                    }
                },
            }
        } else {
            self.advance()
        }
    }

    /// The replicator's reaction to an answer: it asks again, in its next
    /// state, or ends. A failed operation ends it with the diagnostic, and
    /// so does an answer that does not fit the request.
    pub open spec fn step(self, reply: ReplyView) -> CopyStepView {
        match self.phase {
            CopyPhase::DestProbe => match reply {
                ReplyView::Kind(PathKind::Missing) => self.ask(
                    CopyPhase::DestCreate,
                    RequestView::CreateDirAll { path: self.to },
                ),
                ReplyView::Kind(_) => self.ask(
                    CopyPhase::Listing,
                    RequestView::ReadDir { path: self.from },
                ),
                ReplyView::Failed(reason) => CopyStepView::Failed(reason),
                _ => CopyStepView::Failed(out_of_turn()),
            },
            CopyPhase::DestCreate => match reply {
                ReplyView::Done => self.ask(
                    CopyPhase::Listing,
                    RequestView::ReadDir { path: self.from },
                ),
                ReplyView::Failed(reason) => CopyStepView::Failed(reason),
                _ => CopyStepView::Failed(out_of_turn()),
            },
            CopyPhase::Listing => match reply {
                ReplyView::Listing(entries) => (ReplicatorView {
                    entries,
                    index: 0,
                    ..self
                }).advance(),
                ReplyView::Failed(reason) => CopyStepView::Failed(reason),
                _ => CopyStepView::Failed(out_of_turn()),
            },
            CopyPhase::EntryProbe => match reply {
                ReplyView::Kind(kind) => self.judge(kind),
                ReplyView::Failed(reason) => CopyStepView::Failed(reason),
                _ => CopyStepView::Failed(out_of_turn()),
            },
            CopyPhase::FileCopy => match reply {
                ReplyView::Done => self.past_entry().advance(),
                ReplyView::Failed(reason) => CopyStepView::Failed(reason),
                _ => CopyStepView::Failed(out_of_turn()),
            },
        }
    }
}

impl Replicator {
    /// Starts the replication of the directory `from` under `to`, which need
    /// not exist: the first request probes `to`.
    pub fn start(from: &str, to: &str) -> (r: CopyStep)
        ensures
            r@ == ReplicatorView::start(from@, to@),
    {
        let state = Replicator {
            phase: CopyPhase::DestProbe,
            stack: Vec::new(),
            from: from.to_owned(),
            to: to.to_owned(),
            entries: Vec::new(),
            index: 0,
            skipped: Vec::new(),
        };
        assert(state@.stack =~= Seq::empty());
        assert(state@.entries =~= Seq::empty());
        assert(state@.skipped =~= Seq::empty());
        CopyStep::Ask(state, Request::Probe { path: to.to_owned() })
    }

    fn ask(self, phase: CopyPhase, request: Request) -> (r: CopyStep)
        ensures
            r@ == self@.ask(phase, request@),
    {
        CopyStep::Ask(
            Replicator {
                phase,
                stack: self.stack,
                from: self.from,
                to: self.to,
                entries: self.entries,
                index: self.index,
                skipped: self.skipped,
            },
            request,
        )
    }

    fn advance(self) -> (r: CopyStep)
        ensures
            r@ == self@.advance(),
    {
        let mut state = self;
        if state.index < state.entries.len() {
            let path = state.entries[state.index].clone();
            state.ask(CopyPhase::EntryProbe, Request::Probe { path })
        } else {
            match state.stack.pop() {
                Some(next) => {
                    assert(pending_views(state.stack@) =~= self@.stack.drop_last());
                    let path = next.to.clone();
                    let entries: Vec<String> = Vec::new();
                    assert(texts(entries@) =~= Seq::empty());
                    CopyStep::Ask(
                        Replicator {
                            phase: CopyPhase::DestProbe,
                            stack: state.stack,
                            from: next.from,
                            to: next.to,
                            entries,
                            index: 0,
                            skipped: state.skipped,
                        },
                        Request::Probe { path },
                    )
                },
                None => CopyStep::Done(state.skipped),
            }
        }
    }

    fn past_entry(self) -> (r: Replicator)
        ensures
            r@ == self@.past_entry(),
    {
        if self.index < self.entries.len() {
            Replicator {
                phase: self.phase,
                stack: self.stack,
                from: self.from,
                to: self.to,
                entries: self.entries,
                index: self.index + 1,
                skipped: self.skipped,
            }
        } else {
            self
        }
    }

    fn judge(self, kind: PathKind) -> (r: CopyStep)
        ensures
            r@ == self@.judge(kind),
    {
        let mut state = self;
        if state.index < state.entries.len() {
            let entry = state.entries[state.index].clone();
            match file_name(entry.as_str()) {
                None => {
                    state.skipped.push(entry);
                    assert(texts(state.skipped@) =~= self@.skipped.push(entry@));
                    state.past_entry().advance()
                },
                Some(name) => {
                    let target = join(state.to.as_str(), name.as_str());
                    match kind {
                        PathKind::Directory => {
                            state.stack.push(Pending { from: entry, to: target });
                            assert(pending_views(state.stack@) =~= self@.stack.push(
                                PendingView { from: entry@, to: target@ },
                            ));
                            state.past_entry().advance()
                        },
                        _ => state.ask(
                            CopyPhase::FileCopy,
                            Request::CopyFile { from: entry, to: target },
                        ),
                    }
                },
            }
        } else {
            state.advance()
        }
    }
}

/// Resumes a replication with the answer to its last request, and says what
/// it does next: another request, the end, or the failure.
pub fn copy(state: Replicator, reply: Reply) -> (r: CopyStep)
    ensures
        r@ == state@.step(reply@),
{
    match state.phase {
        CopyPhase::DestProbe => match reply {
            Reply::Kind(PathKind::Missing) => {
                let path = state.to.clone();
                state.ask(CopyPhase::DestCreate, Request::CreateDirAll { path })
            },
            Reply::Kind(_) => {
                let path = state.from.clone();
                state.ask(CopyPhase::Listing, Request::ReadDir { path })
            },
            Reply::Failed(reason) => CopyStep::Failed(reason),
            _ => CopyStep::Failed(out_of_turn_text()),
        },
        CopyPhase::DestCreate => match reply {
            Reply::Done => {
                let path = state.from.clone();
                state.ask(CopyPhase::Listing, Request::ReadDir { path })
            },
            Reply::Failed(reason) => CopyStep::Failed(reason),
            _ => CopyStep::Failed(out_of_turn_text()),
        },
        CopyPhase::Listing => match reply {
            Reply::Listing(entries) => {
                let next = Replicator {
                    phase: state.phase,
                    stack: state.stack,
                    from: state.from,
                    to: state.to,
                    entries,
                    index: 0,
                    skipped: state.skipped,
                };
                next.advance()
            },
            Reply::Failed(reason) => CopyStep::Failed(reason),
            _ => CopyStep::Failed(out_of_turn_text()),
        },
        CopyPhase::EntryProbe => match reply {
            Reply::Kind(kind) => state.judge(kind),
            Reply::Failed(reason) => CopyStep::Failed(reason),
            _ => CopyStep::Failed(out_of_turn_text()),
        },
        CopyPhase::FileCopy => match reply {
            Reply::Done => state.past_entry().advance(),
            Reply::Failed(reason) => CopyStep::Failed(reason),
            _ => CopyStep::Failed(out_of_turn_text()),
        },
    }
}

} // verus!
