//! The replicator against a directory tree: a model of the tree that it
//! reads, and the proof that a replication which ends has copied each file
//! of the tree to the place that mirrors it, as often as the tree holds it.

use vstd::prelude::*;
use vstd::multiset::Multiset;
use crate::effects::{PathKind, ReplyView, RequestView};
use crate::paths::{path_file_name, path_join};
use crate::replicate::{CopyPhase, CopyStepView, PendingView, ReplicatorView};

verus! {

/// A file system to read from: what stands at each path, what each
/// directory lists, and what each file reads as.
pub struct World {
    pub kinds: Map<Seq<char>, PathKind>,
    pub listings: Map<Seq<char>, Seq<Seq<char>>>,
    pub texts: Map<Seq<char>, Seq<char>>,
}

/// One copy of a file.
pub struct Copied {
    pub from: Seq<char>,
    pub to: Seq<char>,
}

impl World {
    /// What stands at a path; nothing where the file system does not know
    /// the path.
    pub open spec fn kind(self, path: Seq<char>) -> PathKind {
        if self.kinds.contains_key(path) {
            self.kinds[path]
        } else {
            PathKind::Missing
        }
    }

    /// The entries of a directory.
    pub open spec fn listing(self, path: Seq<char>) -> Seq<Seq<char>> {
        if self.listings.contains_key(path) {
            self.listings[path]
        } else {
            Seq::empty()
        }
    }

    /// The answer of this file system to a request. It reads what it holds
    /// and performs every creation and every copy.
    pub open spec fn answer(self, request: RequestView) -> ReplyView {
        match request {
            RequestView::Probe { path } => ReplyView::Kind(self.kind(path)),
            RequestView::ReadDir { path } => if self.listings.contains_key(path) {
                ReplyView::Listing(self.listings[path])
            } else {
                ReplyView::Failed(Seq::empty())
            },
            RequestView::ReadToString { path } => if self.texts.contains_key(path) {
                ReplyView::Text(self.texts[path])
            } else {
                ReplyView::Failed(Seq::empty())
            },
            _ => ReplyView::Done,
        }
    }

    /// Whether `path` is a directory that can be listed, and so is every
    /// directory below it, down to `height` levels at most.
    pub open spec fn is_tree(self, path: Seq<char>, height: nat) -> bool
        decreases height,
    {
        &&& self.kind(path) == PathKind::Directory
        &&& self.listings.contains_key(path)
        &&& forall|i: int|
            0 <= i < self.listing(path).len() && self.kind(#[trigger] self.listing(path)[i])
                == PathKind::Directory ==> height > 0 && self.is_tree(
                self.listing(path)[i],
                (height - 1) as nat,
            )
    }

    /// The copies that mirror the entries of `from`, from the `i`-th on,
    /// under `to`: one for each entry that is no directory, under its own
    /// name, and for each directory the copies that mirror it under its own
    /// name. An entry without a name has none.
    pub open spec fn copies(self, from: Seq<char>, to: Seq<char>, height: nat, i: nat) -> Multiset<
        Copied,
    >
        decreases height, self.listing(from).len() - i,
    {
        if i >= self.listing(from).len() {
            Multiset::empty()
        } else {
            let entry = self.listing(from)[i as int];
            let rest = self.copies(from, to, height, i + 1);
            match path_file_name(entry) {
                None => rest,
                Some(name) => if self.kind(entry) == PathKind::Directory {
                    if height > 0 {
                        self.copies(entry, path_join(to, name), (height - 1) as nat, 0).add(rest)
                    } else {
                        rest
                    }
                } else {
                    Multiset::singleton(Copied { from: entry, to: path_join(to, name) }).add(rest)
                },
            }
        }
    }

    /// The copies that mirror the directories of a work-list.
    pub open spec fn pending_copies(self, stack: Seq<PendingView>, height: nat) -> Multiset<Copied>
        decreases stack.len(),
    {
        if stack.len() == 0 {
            Multiset::empty()
        } else {
            self.pending_copies(stack.drop_last(), height).add(
                self.copies(stack.last().from, stack.last().to, height, 0),
            )
        }
    }

    /// The number of requests that the entries of `from`, from the `i`-th
    /// on, can take at most: a probe for each entry, a copy for each that is
    /// no directory, and for each directory what the directory takes.
    pub open spec fn cost(self, from: Seq<char>, height: nat, i: nat) -> nat
        decreases height, self.listing(from).len() - i,
    {
        if i >= self.listing(from).len() {
            0
        } else {
            let entry = self.listing(from)[i as int];
            let rest = self.cost(from, height, i + 1);
            match path_file_name(entry) {
                None => 1 + rest,
                Some(name) => if self.kind(entry) == PathKind::Directory {
                    if height > 0 {
                        4 + self.cost(entry, (height - 1) as nat, 0) + rest
                    } else {
                        1 + rest
                    }
                } else {
                    2 + rest
                },
            }
        }
    }

    /// The number of requests that a directory can take at most: three for
    /// its destination and its listing, and what its entries take.
    pub open spec fn dir_cost(self, from: Seq<char>, height: nat) -> nat {
        3 + self.cost(from, height, 0)
    }

    /// The number of requests that the directories of a work-list can take
    /// at most.
    pub open spec fn pending_cost(self, stack: Seq<PendingView>, height: nat) -> nat
        decreases stack.len(),
    {
        if stack.len() == 0 {
            0
        } else {
            self.pending_cost(stack.drop_last(), height) + self.dir_cost(stack.last().from, height)
        }
    }

    /// The number of requests that a replication can still take at most,
    /// the one it waits on included.
    pub open spec fn steps_left(self, state: ReplicatorView, height: nat) -> nat {
        let pending = self.pending_cost(state.stack, height);
        match state.phase {
            CopyPhase::DestProbe => 3 + self.cost(state.from, height, 0) + pending,
            CopyPhase::DestCreate => 2 + self.cost(state.from, height, 0) + pending,
            CopyPhase::Listing => 1 + self.cost(state.from, height, 0) + pending,
            CopyPhase::EntryProbe => self.cost(state.from, height, state.index) + pending,
            CopyPhase::FileCopy => 1 + self.cost(state.from, height, state.index + 1) + pending,
        }
    }

    /// Whether the replicator, in this state, is at work on this file
    /// system: the directory at work and the directories of the work-list
    /// are trees, and the entries held are those of the directory at work.
    pub open spec fn holds(self, state: ReplicatorView, height: nat) -> bool {
        &&& self.is_tree(state.from, height)
        &&& forall|k: int|
            0 <= k < state.stack.len() ==> self.is_tree((#[trigger] state.stack[k]).from, height)
        &&& match state.phase {
            CopyPhase::EntryProbe => state.entries == self.listing(state.from) && state.index
                < state.entries.len(),
            CopyPhase::FileCopy => state.entries == self.listing(state.from) && state.index
                < state.entries.len() && path_file_name(state.entries[state.index as int]) is Some
                && self.kind(state.entries[state.index as int]) != PathKind::Directory,
            _ => true,
        }
    }

    /// The copies that are still to be made in a state.
    pub open spec fn remaining(self, state: ReplicatorView, height: nat) -> Multiset<Copied> {
        let pending = self.pending_copies(state.stack, height);
        match state.phase {
            CopyPhase::EntryProbe => self.copies(state.from, state.to, height, state.index).add(
                pending,
            ),
            CopyPhase::FileCopy => self.copies(state.from, state.to, height, state.index).add(
                pending,
            ),
            _ => self.copies(state.from, state.to, height, 0).add(pending),
        }
    }
}

/// The request that the replicator waits on in a state.
pub open spec fn asked_in(state: ReplicatorView) -> RequestView {
    match state.phase {
        CopyPhase::DestProbe => RequestView::Probe { path: state.to },
        CopyPhase::DestCreate => RequestView::CreateDirAll { path: state.to },
        CopyPhase::Listing => RequestView::ReadDir { path: state.from },
        CopyPhase::EntryProbe => RequestView::Probe { path: state.entries[state.index as int] },
        CopyPhase::FileCopy => RequestView::CopyFile {
            from: state.entries[state.index as int],
            to: path_join(state.to, path_file_name(state.entries[state.index as int])->0),
        },
    }
}

/// The copy that a request makes, if it is one.
pub open spec fn copy_of(request: RequestView) -> Multiset<Copied> {
    match request {
        RequestView::CopyFile { from, to } => Multiset::singleton(Copied { from, to }),
        _ => Multiset::empty(),
    }
}

/// The run of a replication on a file system, for `steps` requests at most:
/// the step it has come to and the copies it has made.
pub open spec fn copy_run(world: World, step: CopyStepView, steps: nat) -> (
    CopyStepView,
    Multiset<Copied>,
)
    decreases steps,
{
    match step {
        CopyStepView::Ask(state, request) => if steps == 0 {
            (step, Multiset::empty())
        } else {
            let rest = copy_run(world, state.step(world.answer(request)), (steps - 1) as nat);
            (rest.0, copy_of(request).add(rest.1))
        },
        _ => (step, Multiset::empty()),
    }
}

/// Whether a state deals with the entries of the directory at work.
pub open spec fn among_entries(state: ReplicatorView) -> bool {
    state.phase == CopyPhase::EntryProbe || state.phase == CopyPhase::FileCopy
}

/// The order of the replicator's requests, whatever the file system
/// answers. A directory is listed only once its destination is there: it was
/// found when probed, or it was created. Entries are dealt with only after
/// their directory was listed, and a file is copied only into the
/// destination of the directory at work, under its own name.
pub proof fn law_destination_comes_first(state: ReplicatorView, reply: ReplyView)
    ensures
        match state.step(reply) {
            CopyStepView::Ask(next, request) => {
                &&& next.phase == CopyPhase::Listing ==> next.from == state.from && next.to
                    == state.to && request == (RequestView::ReadDir { path: state.from }) && (
                state.phase == CopyPhase::DestCreate && reply == ReplyView::Done || state.phase
                    == CopyPhase::DestProbe && reply is Kind && reply != ReplyView::Kind(
                    PathKind::Missing,
                ))
                &&& among_entries(next) ==> next.from == state.from && next.to == state.to && (
                state.phase == CopyPhase::Listing || among_entries(state))
                &&& request is CopyFile ==> next.phase == CopyPhase::FileCopy && next.index
                    < next.entries.len() && request == (RequestView::CopyFile {
                    from: next.entries[next.index as int],
                    to: path_join(next.to, path_file_name(next.entries[next.index as int])->0),
                })
            },
            _ => true,
        },
{
}

/// A tree of some height is a tree of any greater height.
pub proof fn lemma_tree_of_greater_height(world: World, path: Seq<char>, height: nat)
    requires
        world.is_tree(path, height),
    ensures
        world.is_tree(path, height + 1),
    decreases height,
{
    assert forall|i: int|
        0 <= i < world.listing(path).len() && world.kind(#[trigger] world.listing(path)[i])
            == PathKind::Directory implies world.is_tree(world.listing(path)[i], height) by {
        lemma_tree_of_greater_height(world, world.listing(path)[i], (height - 1) as nat);
    }
}

/// The copies that mirror a tree do not depend on the height that bounds
/// it.
pub proof fn lemma_copies_of_greater_height(
    world: World,
    from: Seq<char>,
    to: Seq<char>,
    height: nat,
    i: nat,
)
    requires
        world.is_tree(from, height),
    ensures
        world.copies(from, to, height, i) == world.copies(from, to, height + 1, i),
    decreases height, world.listing(from).len() - i,
{
    if i < world.listing(from).len() {
        let entry = world.listing(from)[i as int];
        lemma_copies_of_greater_height(world, from, to, height, i + 1);
        if let Some(name) = path_file_name(entry) {
            if world.kind(entry) == PathKind::Directory {
                lemma_copies_of_greater_height(
                    world,
                    entry,
                    path_join(to, name),
                    (height - 1) as nat,
                    0,
                );
            }
        }
    }
}

/// The requests that a tree takes do not depend on the height that bounds
/// it.
pub proof fn lemma_cost_of_greater_height(world: World, from: Seq<char>, height: nat, i: nat)
    requires
        world.is_tree(from, height),
    ensures
        world.cost(from, height, i) == world.cost(from, height + 1, i),
    decreases height, world.listing(from).len() - i,
{
    if i < world.listing(from).len() {
        let entry = world.listing(from)[i as int];
        lemma_cost_of_greater_height(world, from, height, i + 1);
        if path_file_name(entry) is Some && world.kind(entry) == PathKind::Directory {
            lemma_cost_of_greater_height(world, entry, (height - 1) as nat, 0);
        }
    }
}

/// Once the entries of the directory at work are dealt with up to the
/// index, what the replicator does next keeps the account: it asks again
/// with the same copies still to be made, or it is done and none is left.
pub proof fn lemma_advance_keeps_account(world: World, state: ReplicatorView, height: nat)
    requires
        world.is_tree(state.from, height),
        forall|k: int|
            0 <= k < state.stack.len() ==> world.is_tree((#[trigger] state.stack[k]).from, height),
        state.entries == world.listing(state.from),
        state.index <= state.entries.len(),
    ensures
        match state.advance() {
            CopyStepView::Ask(next, request) => world.holds(next, height) && request == asked_in(
                next,
            ) && world.remaining(next, height) == world.copies(
                state.from,
                state.to,
                height,
                state.index,
            ).add(world.pending_copies(state.stack, height)) && world.steps_left(next, height)
                == world.cost(state.from, height, state.index) + world.pending_cost(
                state.stack,
                height,
            ) && world.steps_left(next, height) > 0,
            CopyStepView::Done(_) => world.copies(state.from, state.to, height, state.index).add(
                world.pending_copies(state.stack, height),
            ) == Multiset::<Copied>::empty(),
            CopyStepView::Failed(_) => false,
        },
{
    if state.index >= state.entries.len() && state.stack.len() > 0 {
        let below = state.stack.drop_last();
        assert forall|k: int| 0 <= k < below.len() implies world.is_tree(
            (#[trigger] below[k]).from,
            height,
        ) by {
        }
    }
}

/// One step of the replicator on a file system keeps the account: the copy
/// that the request made and the copies that are still to be made are,
/// together, the copies that were to be made before; and the file system
/// never makes the replicator fail.
pub proof fn lemma_step_keeps_account(world: World, state: ReplicatorView, height: nat)
    requires
        world.holds(state, height),
    ensures
        match state.step(world.answer(asked_in(state))) {
            CopyStepView::Ask(next, request) => world.holds(next, height) && request == asked_in(
                next,
            ) && copy_of(asked_in(state)).add(world.remaining(next, height)) == world.remaining(
                state,
                height,
            ) && world.steps_left(next, height) < world.steps_left(state, height),
            CopyStepView::Done(_) => copy_of(asked_in(state)) == world.remaining(state, height),
            CopyStepView::Failed(_) => false,
        },
{
    match state.phase {
        CopyPhase::Listing => {
            let listed = ReplicatorView { entries: world.listing(state.from), index: 0, ..state };
            lemma_advance_keeps_account(world, listed, height);
        },
        CopyPhase::EntryProbe => {
            let entry = state.entries[state.index as int];
            match path_file_name(entry) {
                None => {
                    let noted = ReplicatorView { skipped: state.skipped.push(entry), ..state };
                    lemma_advance_keeps_account(world, noted.past_entry(), height);
                },
                Some(name) => {
                    if world.kind(entry) == PathKind::Directory {
                        let target = path_join(state.to, name);
                        let pushed = ReplicatorView {
                            stack: state.stack.push(PendingView { from: entry, to: target }),
                            ..state
                        };
                        let below = (height - 1) as nat;
                        lemma_tree_of_greater_height(world, entry, below);
                        lemma_copies_of_greater_height(world, entry, target, below, 0);
                        lemma_cost_of_greater_height(world, entry, below, 0);
                        assert forall|k: int| 0 <= k < pushed.stack.len() implies world.is_tree(
                            (#[trigger] pushed.stack[k]).from,
                            height,
                        ) by {
                        }
                        assert(pushed.stack.drop_last() =~= state.stack);
                        lemma_advance_keeps_account(world, pushed.past_entry(), height);
                    }
                },
            }
        },
        CopyPhase::FileCopy => {
            lemma_advance_keeps_account(world, state.past_entry(), height);
        },
        _ => {},
    }
}

/// What holds of every run of the replicator on a file system, from any
/// state that is at work on it.
pub proof fn lemma_run_keeps_account(world: World, state: ReplicatorView, height: nat, steps: nat)
    requires
        world.holds(state, height),
    ensures
        ({
            let (end, made) = copy_run(world, CopyStepView::Ask(state, asked_in(state)), steps);
            &&& !(end is Failed)
            &&& end is Done ==> made == world.remaining(state, height)
            &&& end matches CopyStepView::Ask(last, _) ==> made.add(world.remaining(last, height))
                == world.remaining(state, height)
        }),
    decreases steps,
{
    if steps > 0 {
        lemma_step_keeps_account(world, state, height);
        let next = state.step(world.answer(asked_in(state)));
        let rest = copy_run(world, next, (steps - 1) as nat);
        if let CopyStepView::Ask(after, _) = next {
            lemma_run_keeps_account(world, after, height, (steps - 1) as nat);
        }
    }
}

/// A run of as many requests as a replication can still take has ended.
pub proof fn lemma_run_ends(world: World, state: ReplicatorView, height: nat, steps: nat)
    requires
        world.holds(state, height),
        steps >= world.steps_left(state, height),
    ensures
        copy_run(world, CopyStepView::Ask(state, asked_in(state)), steps).0 is Done,
    decreases steps,
{
    lemma_step_keeps_account(world, state, height);
    let next = state.step(world.answer(asked_in(state)));
    let rest = copy_run(world, next, (steps - 1) as nat);
    if let CopyStepView::Ask(after, _) = next {
        lemma_run_ends(world, after, height, (steps - 1) as nat);
    }
}

/// The replication of a tree on a file system that performs every request:
/// it never fails; it has made no copy that does not mirror a file of the
/// tree; and after the requests that the tree takes at most it has ended,
/// and the copies it has made are the copies that mirror the tree under
/// the destination, each made as often as the tree holds its file.
pub proof fn law_replication_mirrors_the_tree(
    world: World,
    from: Seq<char>,
    to: Seq<char>,
    height: nat,
    steps: nat,
)
    requires
        world.is_tree(from, height),
    ensures
        ({
            let (end, made) = copy_run(world, ReplicatorView::start(from, to), steps);
            &&& !(end is Failed)
            &&& made.subset_of(world.copies(from, to, height, 0))
            &&& end is Done ==> made == world.copies(from, to, height, 0)
            &&& steps >= world.dir_cost(from, height) ==> end is Done
        }),
{
    let state = ReplicatorView::start(from, to)->Ask_0;
    assert(world.remaining(state, height) =~= world.copies(from, to, height, 0));
    lemma_run_keeps_account(world, state, height, steps);
    if steps >= world.dir_cost(from, height) {
        lemma_run_ends(world, state, height, steps);
    }
}

} // verus!
