//! What holds of every run of an installation, whatever the file system
//! answers: a failure leaves the lock state as it was, a success appends
//! exactly one record, the lock file is written only after the record is
//! appended, and the lock state keeps its invariant. And what holds of every
//! step of the setup.

use vstd::prelude::*;
use vstd::multiset::Multiset;
use crate::effects::{PathKind, ReplyView, RequestView};
use crate::error::ErrorKind;
use crate::install::{
    is_last_place, lemma_without_at, manifest_path, mod_dir_name, mod_record, without,
    ModInstallView, ModPhase, ModStepView, PatternInstallView, PatternPhase, PatternStepView,
};
use crate::manager::{InitStepView, SetupPhase, SetupView};
use crate::models::{ConfigView, LockView, ModRecordView, ModView, PatternRecordView};
use crate::parse_internal::{decode, toml_read};
use crate::paths::path_join;
use crate::pattern::{
    base_name, candidate_name, checked, lemma_resolved_exists, lemma_resolves_unique,
    pattern_verdict, resolved, resolves, semver_canonical, suffixed, validator_returns,
};
use crate::persist::{lock_path, lock_text};
use crate::replicate::{CopyStepView, ReplicatorView};
use crate::text::lemma_decimal_nonempty;
use crate::tree::{asked_in, copy_of, lemma_step_keeps_account, Copied, World};

verus! {

/// What a run has come to: the lock state, the step it stands at, and the
/// requests it has asked, the one of that step included.
pub struct ModRun {
    pub lock: LockView,
    pub step: ModStepView,
    pub asked: Seq<RequestView>,
}

/// The run of the installation of a mod from a step, through the answers
/// given in their order. It ends with the answers or with the installation.
pub open spec fn mod_run(
    lock: LockView,
    config: ConfigView,
    step: ModStepView,
    replies: Seq<ReplyView>,
) -> ModRun
    decreases replies.len(),
{
    match step {
        ModStepView::Ask(state, request) => if replies.len() == 0 {
            ModRun { lock, step, asked: seq![request] }
        } else {
            let (next_lock, next_step) = lock.mod_step(config, state, replies[0]);
            let rest = mod_run(next_lock, config, next_step, replies.drop_first());
            ModRun { lock: rest.lock, step: rest.step, asked: seq![request] + rest.asked }
        },
        _ => ModRun { lock, step, asked: Seq::empty() },
    }
}

/// Whether a step is a failure of any kind but a failed write and an answer
/// out of turn: the kinds of failure that come before the lock file is
/// written.
pub open spec fn failed_early(step: ModStepView) -> bool {
    match step {
        ModStepView::Failed(kind, _) => kind != ErrorKind::WriteFailed && kind != ErrorKind::Other,
        _ => false,
    }
}

/// Whether a step waits on the write of the lock file.
pub open spec fn at_lock_write(step: ModStepView) -> bool {
    match step {
        ModStepView::Ask(state, _) => state.phase == ModPhase::LockWrite,
        _ => false,
    }
}

/// Whether a step is a failure of validation: a source that is no directory,
/// a manifest that is missing or does not decode, a duplicate, or a
/// destination that is there.
pub open spec fn failed_validation(step: ModStepView) -> bool {
    match step {
        ModStepView::Failed(kind, _) => kind == ErrorKind::InvalidSource || kind
            == ErrorKind::MissingManifest || kind == ErrorKind::ManifestDecodeError || kind
            == ErrorKind::DuplicateInstall || kind == ErrorKind::DestinationExists,
        _ => false,
    }
}

/// Whether a step is past validation: it waits on the copy or on the write
/// of the lock file.
pub open spec fn past_validation(step: ModStepView) -> bool {
    match step {
        ModStepView::Ask(state, _) => state.phase == ModPhase::Copying || state.phase
            == ModPhase::LockWrite,
        _ => false,
    }
}

/// Whether a request only reads: it probes a path or reads a file.
pub open spec fn reads(request: RequestView) -> bool {
    request is Probe || request is ReadToString
}

/// Whether every one of the requests only reads.
pub open spec fn only_reads(asked: Seq<RequestView>) -> bool {
    forall|i: int| 0 <= i < asked.len() ==> reads(#[trigger] asked[i])
}

/// Whether one of the requests is a write.
pub open spec fn has_write(asked: Seq<RequestView>) -> bool {
    exists|i: int| 0 <= i < asked.len() && (#[trigger] asked[i]) is Write
}

/// Whether a record is named after its id and version, and loaded by
/// default.
pub open spec fn well_named(record: ModRecordView) -> bool {
    record.name == record.id + "@"@ + record.version && record.autoload
}

/// Whether `after` is `before` with the one record appended, which is named
/// after its id and version and was not listed before.
pub open spec fn appended_mod(before: LockView, after: LockView, record: ModRecordView) -> bool {
    after == before.with_mod(record) && well_named(record) && !before.has_mod(
        record.id,
        record.version,
    )
}

/// What holds between the lock state at the start of an installation and
/// the lock state at one of its steps.
pub open spec fn mod_invariant(start: LockView, lock: LockView, step: ModStepView) -> bool {
    match step {
        ModStepView::Ask(state, request) => if state.phase == ModPhase::LockWrite {
            appended_mod(start, lock, state.record) && request == (RequestView::Write {
                path: request->Write_path,
                text: lock_text(lock)->0,
            }) && lock_text(lock) is Some
        } else {
            &&& lock == start
            &&& !(request is Write)
            &&& state.phase != ModPhase::Copying ==> reads(request)
            &&& state.phase == ModPhase::DestProbe || state.phase == ModPhase::Copying
                ==> well_named(state.record) && !lock.has_mod(
                state.record.id,
                state.record.version,
            )
        },
        ModStepView::Done => lock.mods.len() > 0 && appended_mod(start, lock, lock.mods.last()),
        ModStepView::Failed(_, _) => lock == start,
    }
}

/// The replicator asks to probe, to create, to list and to copy: never to
/// write a file from a text.
pub proof fn lemma_copy_never_writes(state: ReplicatorView, reply: ReplyView)
    ensures
        state.step(reply) matches CopyStepView::Ask(_, request) ==> !(request is Write),
{
}

/// Appending a record that was not listed keeps the invariant of the lock
/// state.
pub proof fn lemma_with_mod_well_formed(lock: LockView, record: ModRecordView)
    requires
        lock.well_formed(),
        !lock.has_mod(record.id, record.version),
    ensures
        lock.with_mod(record).well_formed(),
{
    let after = lock.with_mod(record);
    assert forall|i: int, j: int| 0 <= i < j < after.mods.len() implies !((
    #[trigger] after.mods[i]).id == (#[trigger] after.mods[j]).id && after.mods[i].version
        == after.mods[j].version) by {
        if j == lock.mods.len() {
            assert(after.mods[i] == lock.mods[i]);
            if lock.mods[i].id == record.id && lock.mods[i].version == record.version {
                assert(lock.has_mod(record.id, record.version));
            }
        } else {
            assert(after.mods[i] == lock.mods[i]);
            assert(after.mods[j] == lock.mods[j]);
        }
    }
}

/// Taking back the record that was appended gives the lock state back.
pub proof fn lemma_without_last_mod(lock: LockView, record: ModRecordView)
    ensures
        lock.with_mod(record).without_mod(record) == lock,
{
    let mods = lock.mods.push(record);
    assert(mods[lock.mods.len() as int] == record);
    lemma_without_at(mods, record, lock.mods.len() as int);
    assert(mods.remove(lock.mods.len() as int) =~= lock.mods);
}

/// A list without one of its records is the list or the list with one place
/// removed.
pub proof fn lemma_without_removes_one<T>(s: Seq<T>, x: T)
    ensures
        without(s, x) == s || exists|i: int| 0 <= i < s.len() && without(s, x) == s.remove(i),
{
    if s.contains(x) {
        let i = last_place_of(s, x, s.len() as int);
        lemma_without_at(s, x, i);
    }
}

/// The last place of `x` in `s` below `n`, where `s` holds `x` below `n`.
pub proof fn last_place_of<T>(s: Seq<T>, x: T, n: int) -> (i: int)
    requires
        0 <= n <= s.len(),
        exists|k: int| 0 <= k < n && s[k] == x,
        forall|j: int| n <= j < s.len() ==> s[j] != x,
    ensures
        is_last_place(s, x, i),
    decreases n,
{
    if s[n - 1] == x {
        n - 1
    } else {
        last_place_of(s, x, n - 1)
    }
}

/// One step of the installation of a mod keeps what holds between the lock
/// state at the start and the lock state at the step.
pub proof fn lemma_mod_step_invariant(
    start: LockView,
    lock: LockView,
    config: ConfigView,
    state: ModInstallView,
    request: RequestView,
    reply: ReplyView,
)
    requires
        mod_invariant(start, lock, ModStepView::Ask(state, request)),
    ensures
        mod_invariant(
            start,
            lock.mod_step(config, state, reply).0,
            lock.mod_step(config, state, reply).1,
        ),
{
    match state.phase {
        ModPhase::Copying => {
            if let Some(copy) = state.copy {
                lemma_copy_never_writes(copy, reply);
            }
        },
        ModPhase::LockWrite => {
            lemma_without_last_mod(start, state.record);
        },
        _ => {},
    }
}

/// From the step at which the lock file is written, a run can only end with
/// success, with a failed write or with an answer out of turn.
proof fn lemma_mod_run_from_lock_write(
    lock: LockView,
    config: ConfigView,
    state: ModInstallView,
    request: RequestView,
    replies: Seq<ReplyView>,
)
    requires
        state.phase == ModPhase::LockWrite,
    ensures
        !failed_early(mod_run(lock, config, ModStepView::Ask(state, request), replies).step),
{
    if replies.len() > 0 {
        let (next_lock, next_step) = lock.mod_step(config, state, replies[0]);
        assert(!(next_step is Ask));
        let rest = mod_run(next_lock, config, next_step, replies.drop_first());
        assert(rest.step == next_step);
    }
}

/// From the step at which the copy begins, a run cannot end with a failure
/// of validation.
proof fn lemma_mod_run_past_validation(
    start: LockView,
    lock: LockView,
    config: ConfigView,
    step: ModStepView,
    replies: Seq<ReplyView>,
)
    requires
        mod_invariant(start, lock, step),
        past_validation(step),
    ensures
        !failed_validation(mod_run(lock, config, step, replies).step),
    decreases replies.len(),
{
    let state = step->Ask_0;
    if replies.len() > 0 {
        let (next_lock, next_step) = lock.mod_step(config, state, replies[0]);
        lemma_mod_step_invariant(start, lock, config, state, step->Ask_1, replies[0]);
        let rest = mod_run(next_lock, config, next_step, replies.drop_first());
        if next_step is Ask {
            assert(past_validation(next_step));
            lemma_mod_run_past_validation(
                start,
                next_lock,
                config,
                next_step,
                replies.drop_first(),
            );
        } else {
            assert(rest.step == next_step);
        }
    }
}

/// What holds of every run of the installation of a mod, from any step that
/// the invariant holds of.
pub proof fn lemma_mod_run(
    start: LockView,
    lock: LockView,
    config: ConfigView,
    step: ModStepView,
    replies: Seq<ReplyView>,
)
    requires
        mod_invariant(start, lock, step),
    ensures
        ({
            let run = mod_run(lock, config, step, replies);
            &&& mod_invariant(start, run.lock, run.step)
            &&& !at_lock_write(step) && failed_early(run.step) ==> !has_write(run.asked)
            &&& !past_validation(step) && failed_validation(run.step) ==> only_reads(run.asked)
        }),
    decreases replies.len(),
{
    if let ModStepView::Ask(state, request) = step {
        if replies.len() > 0 {
            let (next_lock, next_step) = lock.mod_step(config, state, replies[0]);
            lemma_mod_step_invariant(start, lock, config, state, request, replies[0]);
            lemma_mod_run(start, next_lock, config, next_step, replies.drop_first());
            let rest = mod_run(next_lock, config, next_step, replies.drop_first());
            let run = mod_run(lock, config, step, replies);
            if !past_validation(step) && failed_validation(run.step) {
                if past_validation(next_step) {
                    lemma_mod_run_past_validation(
                        start,
                        next_lock,
                        config,
                        next_step,
                        replies.drop_first(),
                    );
                }
                assert(only_reads(rest.asked));
                assert forall|i: int| 0 <= i < run.asked.len() implies reads(
                    #[trigger] run.asked[i],
                ) by {
                    if i > 0 {
                        assert(run.asked[i] == rest.asked[i - 1]);
                    }
                }
            }
            if state.phase != ModPhase::LockWrite && failed_early(run.step) {
                if let ModStepView::Ask(next_state, next_request) = next_step {
                    if next_state.phase == ModPhase::LockWrite {
                        lemma_mod_run_from_lock_write(
                            next_lock,
                            config,
                            next_state,
                            next_request,
                            replies.drop_first(),
                        );
                    }
                }
                assert(!has_write(rest.asked));
                assert(!has_write(run.asked)) by {
                    if has_write(run.asked) {
                        let i = choose|i: int|
                            0 <= i < run.asked.len() && (#[trigger] run.asked[i]) is Write;
                        if i > 0 {
                            assert(rest.asked[i - 1] is Write);
                        }
                    }
                }
            }
        }
    }
}

/// An installation of a mod that fails leaves the lock state as it was
/// before the installation began, whatever the file system answered and
/// wherever it failed.
pub proof fn law_failed_mod_install_keeps_lock(
    lock: LockView,
    config: ConfigView,
    mod_dir: Seq<char>,
    replies: Seq<ReplyView>,
)
    ensures
        mod_run(lock, config, ModInstallView::start(mod_dir), replies).step is Failed ==> mod_run(
            lock,
            config,
            ModInstallView::start(mod_dir),
            replies,
        ).lock == lock,
{
    lemma_mod_run(lock, lock, config, ModInstallView::start(mod_dir), replies);
}

/// An installation of a mod that succeeds appends exactly one record: it is
/// named `id@version`, it is loaded by default, and no mod of its id and
/// version was listed before.
pub proof fn law_installed_mod_is_recorded_once(
    lock: LockView,
    config: ConfigView,
    mod_dir: Seq<char>,
    replies: Seq<ReplyView>,
)
    ensures
        ({
            let run = mod_run(lock, config, ModInstallView::start(mod_dir), replies);
            run.step is Done ==> {
                &&& run.lock.mods.len() == lock.mods.len() + 1
                &&& run.lock.mods.drop_last() == lock.mods
                &&& run.lock.patterns == lock.patterns
                &&& run.lock.mods.last().name == run.lock.mods.last().id + "@"@
                    + run.lock.mods.last().version
                &&& run.lock.mods.last().autoload
                &&& !lock.has_mod(run.lock.mods.last().id, run.lock.mods.last().version)
            }
        }),
{
    lemma_mod_run(lock, lock, config, ModInstallView::start(mod_dir), replies);
    let run = mod_run(lock, config, ModInstallView::start(mod_dir), replies);
    if run.step is Done {
        assert(lock.mods.push(run.lock.mods.last()).drop_last() =~= lock.mods);
    }
}

/// An installation of a mod that fails because the copy failed, or for any
/// reason but a failed write and an answer out of turn, has asked for no
/// write: the lock file is as it was.
pub proof fn law_failed_copy_writes_nothing(
    lock: LockView,
    config: ConfigView,
    mod_dir: Seq<char>,
    replies: Seq<ReplyView>,
)
    ensures
        ({
            let run = mod_run(lock, config, ModInstallView::start(mod_dir), replies);
            failed_early(run.step) ==> run.lock == lock && !has_write(run.asked)
        }),
{
    lemma_mod_run(lock, lock, config, ModInstallView::start(mod_dir), replies);
}

/// Validation comes before any effect: an installation of a mod that ends
/// with a source that is no directory, a manifest that is missing or does
/// not decode, a duplicate or a destination that is there has asked only to
/// probe paths and to read the manifest, and leaves the lock state as it
/// was. Nothing was created, copied or written.
pub proof fn law_validation_comes_before_any_effect(
    lock: LockView,
    config: ConfigView,
    mod_dir: Seq<char>,
    replies: Seq<ReplyView>,
)
    ensures
        ({
            let run = mod_run(lock, config, ModInstallView::start(mod_dir), replies);
            failed_validation(run.step) ==> only_reads(run.asked) && run.lock == lock
        }),
{
    lemma_mod_run(lock, lock, config, ModInstallView::start(mod_dir), replies);
}

/// A pattern is validated before anything is asked: a version that does not
/// parse and a content that does not pass end the installation where it
/// starts, and no later step ends it with either.
pub proof fn law_pattern_validation_comes_first(
    lock: LockView,
    config: ConfigView,
    version: Seq<char>,
    name: Seq<char>,
    contents: Seq<char>,
    state: PatternInstallView,
    reply: ReplyView,
)
    ensures
        semver_canonical(version) is None ==> lock.pattern_start(config, version, name, contents)
            is Failed && lock.pattern_start(config, version, name, contents)->Failed_0
            == ErrorKind::InvalidVersion,
        semver_canonical(version) is Some && checked(contents) is Err ==> lock.pattern_start(
            config,
            version,
            name,
            contents,
        ) is Failed && lock.pattern_start(config, version, name, contents)->Failed_0
            == ErrorKind::ContentValidationFailed,
        lock.pattern_step(config, state, reply).1 is Failed ==> lock.pattern_step(
            config,
            state,
            reply,
        ).1->Failed_0 != ErrorKind::InvalidVersion && lock.pattern_step(
            config,
            state,
            reply,
        ).1->Failed_0 != ErrorKind::ContentValidationFailed,
{
}

/// A content that the validator rejects ends the installation of a pattern
/// with the validator's own diagnostic, after the name of the file.
pub proof fn law_rejected_pattern_carries_the_diagnostic(
    lock: LockView,
    config: ConfigView,
    version: Seq<char>,
    name: Seq<char>,
    contents: Seq<char>,
    diagnostic: Seq<char>,
)
    requires
        semver_canonical(version) is Some,
        validator_returns(contents),
        pattern_verdict(contents) == Err::<(), Seq<char>>(diagnostic),
    ensures
        lock.pattern_start(config, version, name, contents) == PatternStepView::Failed(
            ErrorKind::ContentValidationFailed,
            candidate_name(base_name(name), semver_canonical(version)->0)
                + ".cgp validation failed: "@ + diagnostic,
        ),
{
}

/// Whether a step asks to write exactly this text to exactly this path.
pub open spec fn asks_to_write(request: RequestView, path: Seq<char>, text: Seq<char>) -> bool {
    request == (RequestView::Write { path, text })
}

/// The installation of a mod asks for a write only when its copy has ended:
/// it has then appended the record, and what it asks to write is the whole
/// lock state, the new record included, to the lock file of the managed
/// root.
pub proof fn law_mod_write_is_the_lock_state(
    lock: LockView,
    config: ConfigView,
    state: ModInstallView,
    reply: ReplyView,
)
    ensures
        ({
            let (after, step) = lock.mod_step(config, state, reply);
            step is Ask && step->Ask_1 is Write ==> {
                &&& state.phase == ModPhase::Copying
                &&& after == lock.with_mod(state.record)
                &&& lock_text(after) is Some
                &&& asks_to_write(step->Ask_1, lock_path(config.meta.umm_dir), lock_text(after)->0)
            }
        }),
{
    if state.phase == ModPhase::Copying {
        if let Some(copy) = state.copy {
            lemma_copy_never_writes(copy, reply);
        }
    }
}

/// The installation of a pattern asks to write the lock file only when the
/// pattern's file is written: it has then appended the record, and what it
/// asks to write is the whole lock state, the new record included, to the
/// lock file of the managed root.
pub proof fn law_pattern_write_is_the_lock_state(
    lock: LockView,
    config: ConfigView,
    state: PatternInstallView,
    reply: ReplyView,
)
    ensures
        ({
            let (after, step) = lock.pattern_step(config, state, reply);
            step is Ask ==> {
                &&& state.phase == PatternPhase::FileWrite
                &&& after == lock.with_pattern(state.record)
                &&& lock_text(after) is Some
                &&& asks_to_write(step->Ask_1, lock_path(config.meta.umm_dir), lock_text(after)->0)
            }
        }),
{
}

/// An installation ends with success only on the answer that the lock file
/// is written: the write of the lock file is the last step of every install
/// that succeeds.
pub proof fn law_success_follows_the_lock_write(
    lock: LockView,
    config: ConfigView,
    state: ModInstallView,
    pattern: PatternInstallView,
    reply: ReplyView,
)
    ensures
        lock.mod_step(config, state, reply).1 is Done ==> state.phase == ModPhase::LockWrite
            && reply == ReplyView::Done && lock.mod_step(config, state, reply).0 == lock,
        lock.pattern_step(config, pattern, reply).1 is Done ==> pattern.phase
            == PatternPhase::LockWrite && reply == ReplyView::Done && lock.pattern_step(
            config,
            pattern,
            reply,
        ).0 == lock,
{
}

/// A copy that fails ends the installation as a failed copy, at once and
/// with the lock state untouched.
pub proof fn law_copy_failure_ends_the_install(
    lock: LockView,
    config: ConfigView,
    state: ModInstallView,
    reply: ReplyView,
)
    requires
        state.phase == ModPhase::Copying,
        state.copy matches Some(copy) && copy.step(reply) is Failed,
    ensures
        lock.mod_step(config, state, reply).0 == lock,
        lock.mod_step(config, state, reply).1 is Failed,
        lock.mod_step(config, state, reply).1->Failed_0 == ErrorKind::CopyFailed,
{
}

/// Once a mod is listed, the manifest of a mod with the same id and version
/// is refused as a duplicate when it is read, and the lock state stays as it
/// is: of two installs of the same id and version, the second fails.
pub proof fn law_second_install_is_duplicate(
    lock: LockView,
    config: ConfigView,
    state: ModInstallView,
    text: Seq<char>,
    m: ModView,
)
    requires
        lock.has_mod(m.id, m.mod_version),
        state.phase == ModPhase::ManifestRead,
        decode(toml_read(text)) == Ok::<ModView, Seq<char>>(m),
    ensures
        lock.mod_step(config, state, ReplyView::Text(text)).0 == lock,
        lock.mod_step(config, state, ReplyView::Text(text)).1 is Failed,
        lock.mod_step(config, state, ReplyView::Text(text)).1->Failed_0
            == ErrorKind::DuplicateInstall,
{
}

/// After an installation of a mod has succeeded, the mod it recorded is
/// listed, so that a second install of the same id and version is a
/// duplicate.
pub proof fn law_installed_mod_is_listed(
    lock: LockView,
    config: ConfigView,
    mod_dir: Seq<char>,
    replies: Seq<ReplyView>,
)
    ensures
        ({
            let run = mod_run(lock, config, ModInstallView::start(mod_dir), replies);
            run.step is Done ==> run.lock.mods.len() > 0 && run.lock.has_mod(
                run.lock.mods.last().id,
                run.lock.mods.last().version,
            )
        }),
{
    lemma_mod_run(lock, lock, config, ModInstallView::start(mod_dir), replies);
    let run = mod_run(lock, config, ModInstallView::start(mod_dir), replies);
    if run.step is Done {
        let last = run.lock.mods.len() - 1;
        assert(run.lock.mods[last].id == run.lock.mods.last().id);
    }
}

/// Every step of the installation of a mod keeps the invariant of the lock
/// state, whatever state and answer it is given.
pub proof fn law_mod_step_keeps_well_formed(
    lock: LockView,
    config: ConfigView,
    state: ModInstallView,
    reply: ReplyView,
)
    requires
        lock.well_formed(),
    ensures
        lock.mod_step(config, state, reply).0.well_formed(),
{
    let after = lock.mod_step(config, state, reply).0;
    if after != lock {
        if state.phase == ModPhase::LockWrite {
            assert(after == lock.without_mod(state.record));
            lemma_without_removes_one(lock.mods, state.record);
            let at = choose|at: int|
                0 <= at < lock.mods.len() && after.mods == lock.mods.remove(at);
            assert forall|i: int, j: int| 0 <= i < j < after.mods.len() implies !((
            #[trigger] after.mods[i]).id == (#[trigger] after.mods[j]).id && after.mods[i].version
                == after.mods[j].version) by {
                let a = if i < at { i } else { i + 1 };
                let b = if j < at { j } else { j + 1 };
                assert(after.mods[i] == lock.mods[a]);
                assert(after.mods[j] == lock.mods[b]);
            }
        } else {
            assert(after == lock.with_mod(state.record));
            lemma_with_mod_well_formed(lock, state.record);
        }
    }
}

/// The run of the installation of a pattern from a step, through the
/// answers given in their order: the lock state and the step it has come to.
pub open spec fn pattern_run(
    lock: LockView,
    config: ConfigView,
    step: PatternStepView,
    replies: Seq<ReplyView>,
) -> (LockView, PatternStepView)
    decreases replies.len(),
{
    match step {
        PatternStepView::Ask(state, _) => if replies.len() == 0 {
            (lock, step)
        } else {
            let (next_lock, next_step) = lock.pattern_step(config, state, replies[0]);
            pattern_run(next_lock, config, next_step, replies.drop_first())
        },
        _ => (lock, step),
    }
}

/// What holds between the lock state at the start of the installation of a
/// pattern, the record that was planned, and the lock state at one of its
/// steps.
pub open spec fn pattern_invariant(
    start: LockView,
    planned: PatternRecordView,
    lock: LockView,
    step: PatternStepView,
) -> bool {
    match step {
        PatternStepView::Ask(state, _) => state.record == planned && if state.phase
            == PatternPhase::LockWrite {
            lock == start.with_pattern(planned) && !start.names().contains(planned.name)
        } else {
            lock == start
        },
        PatternStepView::Done => lock == start.with_pattern(planned) && !start.names().contains(
            planned.name,
        ),
        PatternStepView::Failed(_, _) => lock == start,
    }
}

/// One step of the installation of a pattern keeps what holds between the
/// lock state at the start and the lock state at the step.
pub proof fn lemma_pattern_step_invariant(
    start: LockView,
    planned: PatternRecordView,
    lock: LockView,
    config: ConfigView,
    state: PatternInstallView,
    request: RequestView,
    reply: ReplyView,
)
    requires
        pattern_invariant(start, planned, lock, PatternStepView::Ask(state, request)),
    ensures
        pattern_invariant(
            start,
            planned,
            lock.pattern_step(config, state, reply).0,
            lock.pattern_step(config, state, reply).1,
        ),
{
    if state.phase == PatternPhase::LockWrite {
        let patterns = start.patterns.push(planned);
        assert(patterns[start.patterns.len() as int] == planned);
        lemma_without_at(patterns, planned, start.patterns.len() as int);
        assert(patterns.remove(start.patterns.len() as int) =~= start.patterns);
    }
}

/// What holds of every run of the installation of a pattern, from any step
/// that the invariant holds of.
pub proof fn lemma_pattern_run(
    start: LockView,
    planned: PatternRecordView,
    lock: LockView,
    config: ConfigView,
    step: PatternStepView,
    replies: Seq<ReplyView>,
)
    requires
        pattern_invariant(start, planned, lock, step),
    ensures
        pattern_invariant(
            start,
            planned,
            pattern_run(lock, config, step, replies).0,
            pattern_run(lock, config, step, replies).1,
        ),
    decreases replies.len(),
{
    if let PatternStepView::Ask(state, request) = step {
        if replies.len() > 0 {
            let (next_lock, next_step) = lock.pattern_step(config, state, replies[0]);
            lemma_pattern_step_invariant(start, planned, lock, config, state, request, replies[0]);
            lemma_pattern_run(start, planned, next_lock, config, next_step, replies.drop_first());
        }
    }
}

/// The record that the installation of a pattern plans: the name that
/// resolves base name, `@` and parsed version against the listed names, and
/// the version tag as it was given.
pub open spec fn planned_pattern(
    lock: LockView,
    version: Seq<char>,
    name: Seq<char>,
) -> PatternRecordView {
    PatternRecordView {
        name: resolved(
            lock.names(),
            candidate_name(base_name(name), semver_canonical(version)->0),
        ),
        version,
    }
}

/// An installation of a pattern that fails leaves the lock state as it was
/// before the installation began; one that succeeds appends exactly the
/// record that was planned.
pub proof fn law_pattern_install_appends_or_keeps(
    lock: LockView,
    config: ConfigView,
    version: Seq<char>,
    name: Seq<char>,
    contents: Seq<char>,
    replies: Seq<ReplyView>,
)
    ensures
        ({
            let start = lock.pattern_start(config, version, name, contents);
            let (after, step) = pattern_run(lock, config, start, replies);
            &&& step is Failed ==> after == lock
            &&& step is Done ==> after == lock.with_pattern(planned_pattern(lock, version, name))
                && !lock.names().contains(planned_pattern(lock, version, name).name)
        }),
{
    let start = lock.pattern_start(config, version, name, contents);
    let planned = planned_pattern(lock, version, name);
    lemma_pattern_run(lock, planned, lock, config, start, replies);
}

/// Where the candidate and its first retries are taken, the name is the
/// candidate with the suffix of the first retry that is free: after `n`
/// collisions, the `n`-th with the suffix `_(n-1)`.
pub proof fn law_nth_collision_takes_the_suffix_before(
    existing: Seq<Seq<char>>,
    candidate: Seq<char>,
    n: nat,
)
    requires
        n >= 1,
        existing.contains(candidate),
        forall|m: nat| m + 1 < n ==> existing.contains(#[trigger] suffixed(candidate, m)),
        !existing.contains(suffixed(candidate, (n - 1) as nat)),
    ensures
        resolved(existing, candidate) == suffixed(candidate, (n - 1) as nat),
        !existing.contains(resolved(existing, candidate)),
{
    let name = suffixed(candidate, (n - 1) as nat);
    assert(resolves(existing, candidate, name));
    lemma_resolves_unique(existing, candidate, name, resolved(existing, candidate));
}

/// A candidate that is free is the name itself.
pub proof fn law_free_candidate_is_kept(existing: Seq<Seq<char>>, candidate: Seq<char>)
    requires
        !existing.contains(candidate),
    ensures
        resolved(existing, candidate) == candidate,
{
    assert(resolves(existing, candidate, candidate));
    lemma_resolves_unique(existing, candidate, candidate, resolved(existing, candidate));
}

/// Every step of the installation of a pattern keeps the invariant of the
/// lock state, whatever state and answer it is given: no two patterns ever
/// share a name.
pub proof fn law_pattern_step_keeps_well_formed(
    lock: LockView,
    config: ConfigView,
    state: PatternInstallView,
    reply: ReplyView,
)
    requires
        lock.well_formed(),
    ensures
        lock.pattern_step(config, state, reply).0.well_formed(),
{
    let after = lock.pattern_step(config, state, reply).0;
    if after != lock {
        if state.phase == PatternPhase::LockWrite {
            assert(after == lock.without_pattern(state.record));
            lemma_without_removes_one(lock.patterns, state.record);
            let at = choose|at: int|
                0 <= at < lock.patterns.len() && after.patterns == lock.patterns.remove(at);
            assert forall|i: int, j: int| 0 <= i < j < after.patterns.len() implies (
            #[trigger] after.patterns[i]).name != (#[trigger] after.patterns[j]).name by {
                let a = if i < at { i } else { i + 1 };
                let b = if j < at { j } else { j + 1 };
                assert(after.patterns[i] == lock.patterns[a]);
                assert(after.patterns[j] == lock.patterns[b]);
            }
        } else {
            assert(after == lock.with_pattern(state.record));
            assert(!lock.names().contains(state.record.name));
            assert forall|i: int, j: int| 0 <= i < j < after.patterns.len() implies (
            #[trigger] after.patterns[i]).name != (#[trigger] after.patterns[j]).name by {
                assert(after.patterns[i] == lock.patterns[i]);
                if j == lock.patterns.len() {
                    assert(lock.names()[i] == lock.patterns[i].name);
                } else {
                    assert(after.patterns[j] == lock.patterns[j]);
                }
            }
        }
    }
}

/// The managed root has to be a directory: where the setup finds something
/// else at its path, it ends with a failure to initialise and asks for
/// nothing more.
pub proof fn law_root_must_be_a_directory(state: SetupView, kind: PathKind)
    requires
        state.phase == SetupPhase::RootProbe && kind != PathKind::Missing || state.phase
            == SetupPhase::RootCheck,
        kind != PathKind::Directory,
    ensures
        state.step(ReplyView::Kind(kind)) == InitStepView::Failed(
            ErrorKind::InitializationError,
            "The ultramodmanager dotfile needs to be a directory."@,
        ),
{
}

/// A directory that cannot be created ends the setup with a failure to
/// initialise.
pub proof fn law_failed_creation_ends_the_setup(state: SetupView, reason: Seq<char>)
    requires
        state.phase == SetupPhase::RootCreate || state.phase == SetupPhase::PatternsCreate
            || state.phase == SetupPhase::ModsCreate,
    ensures
        state.step(ReplyView::Failed(reason)) is Failed,
        state.step(ReplyView::Failed(reason))->Failed_0 == ErrorKind::InitializationError,
{
}

/// A directory of the managed root is created only where the probe has found
/// nothing at its path, and a file is written only where the probe has found
/// no file at its path: the setup overwrites nothing that it could load.
pub proof fn law_setup_makes_only_what_is_missing(state: SetupView, reply: ReplyView)
    ensures
        match state.step(reply) {
            InitStepView::Ask(next, request) => {
                &&& request is CreateDirAll ==> reply == ReplyView::Kind(PathKind::Missing)
                &&& next.phase == SetupPhase::LockWrite ==> state.phase == SetupPhase::LockProbe
                    && reply is Kind && reply != ReplyView::Kind(PathKind::File)
                &&& next.phase == SetupPhase::DefaultRootProbe ==> state.phase
                    == SetupPhase::ConfigProbe && reply is Kind && reply != ReplyView::Kind(
                    PathKind::File,
                )
                &&& next.phase == SetupPhase::ConfigWrite ==> state.phase
                    == SetupPhase::DefaultRootProbe
                &&& request is Write ==> next.phase == SetupPhase::LockWrite || next.phase
                    == SetupPhase::ConfigWrite
            },
            _ => true,
        },
{
}

/// Where the lock file is missing, the setup holds the empty lock state and
/// asks to write its text to the lock file of the managed root.
pub proof fn law_missing_lock_file_is_written_empty(state: SetupView, kind: PathKind)
    requires
        state.phase == SetupPhase::LockProbe,
        kind != PathKind::File,
        lock_text(LockView::empty()) is Some,
    ensures
        state.step(ReplyView::Kind(kind)) == InitStepView::Ask(
            SetupView { phase: SetupPhase::LockWrite, lock: LockView::empty(), ..state },
            RequestView::Write {
                path: lock_path(state.umm_dir),
                text: lock_text(LockView::empty())->0,
            },
        ),
{
}

/// A store is linked into the host only where the host is there and its
/// directory for the store is not: the host is probed only once nothing was
/// found at its directory for the store, and the link is asked for only once
/// something was found at the host. A link that cannot be made ends the
/// setup with a failed projection.
pub proof fn law_stores_are_linked_into_a_host_that_is_there(state: SetupView, reply: ReplyView)
    ensures
        match state.step(reply) {
            InitStepView::Ask(next, request) => {
                &&& request is Symlink ==> (state.phase == SetupPhase::PatternsHostProbe
                    || state.phase == SetupPhase::ModsHostProbe) && reply is Kind && reply
                    != ReplyView::Kind(PathKind::Missing)
                &&& next.phase == SetupPhase::PatternsHostProbe ==> state.phase
                    == SetupPhase::PatternsLinkProbe && reply == ReplyView::Kind(PathKind::Missing)
                &&& next.phase == SetupPhase::ModsHostProbe ==> state.phase
                    == SetupPhase::ModsLinkProbe && reply == ReplyView::Kind(PathKind::Missing)
            },
            InitStepView::Failed(kind, _) => kind == ErrorKind::ProjectionFailed ==> (state.phase
                == SetupPhase::PatternsLink || state.phase == SetupPhase::ModsLink) && reply
                is Failed,
            _ => true,
        },
{
}

/// The run of the installation of a mod on a file system, for `steps`
/// requests at most: the lock state and the step it has come to, and the
/// copies it has made.
pub open spec fn mod_run_on(
    world: World,
    lock: LockView,
    config: ConfigView,
    step: ModStepView,
    steps: nat,
) -> (LockView, ModStepView, Multiset<Copied>)
    decreases steps,
{
    match step {
        ModStepView::Ask(state, request) => if steps == 0 {
            (lock, step, Multiset::empty())
        } else {
            let (next_lock, next_step) = lock.mod_step(config, state, world.answer(request));
            let rest = mod_run_on(world, next_lock, config, next_step, (steps - 1) as nat);
            (rest.0, rest.1, copy_of(request).add(rest.2))
        },
        _ => (lock, step, Multiset::empty()),
    }
}

/// While the installation of a mod copies, its run on a file system is the
/// run of its replicator: it makes the copies that are still to be made,
/// appends the record, writes the lock file and ends.
proof fn lemma_mod_copy_runs_to_the_end(
    world: World,
    lock: LockView,
    config: ConfigView,
    state: ModInstallView,
    height: nat,
    steps: nat,
)
    requires
        state.phase == ModPhase::Copying,
        state.copy is Some,
        world.holds(state.copy->0, height),
        !lock.has_mod(state.record.id, state.record.version),
        lock_text(lock.with_mod(state.record)) is Some,
        steps > world.steps_left(state.copy->0, height),
    ensures
        mod_run_on(world, lock, config, ModStepView::Ask(state, asked_in(state.copy->0)), steps)
            == (
            lock.with_mod(state.record),
            ModStepView::Done,
            world.remaining(state.copy->0, height),
        ),
    decreases steps,
{
    let copy = state.copy->0;
    let request = asked_in(copy);
    let none = Multiset::<Copied>::empty();
    lemma_step_keeps_account(world, copy, height);
    let (next_lock, next_step) = lock.mod_step(config, state, world.answer(request));
    let rest = mod_run_on(world, next_lock, config, next_step, (steps - 1) as nat);
    match copy.step(world.answer(request)) {
        CopyStepView::Ask(next_copy, next_request) => {
            let next_state = ModInstallView { copy: Some(next_copy), ..state };
            assert(next_step == ModStepView::Ask(next_state, asked_in(next_copy)));
            lemma_mod_copy_runs_to_the_end(
                world,
                lock,
                config,
                next_state,
                height,
                (steps - 1) as nat,
            );
        },
        CopyStepView::Done(_) => {
            let written = lock.with_mod(state.record);
            assert(next_lock == written);
            let writing = next_step->Ask_0;
            let write = next_step->Ask_1;
            assert(world.answer(write) == ReplyView::Done);
            assert(written.mod_step(config, writing, ReplyView::Done) == (
                written,
                ModStepView::Done,
            ));
            let last = mod_run_on(world, written, config, ModStepView::Done, (steps - 2) as nat);
            assert(rest == (written, ModStepView::Done, copy_of(write).add(last.2)));
            assert(copy_of(request).add(none.add(none)) =~= copy_of(request));
        },
        CopyStepView::Failed(_) => {},
    }
}

/// The installation of a mod on a file system that holds the mod: where the
/// candidate is a tree with a manifest that decodes, no mod of its id and
/// version is listed, nothing stands at the destination and every request
/// is performed, the installation ends with success; the lock state then
/// lists the one new record, and the copies made are those that mirror the
/// candidate under `id@version` in the store of mods.
pub proof fn law_installed_mod_mirrors_its_source(
    world: World,
    lock: LockView,
    config: ConfigView,
    mod_dir: Seq<char>,
    m: ModView,
    height: nat,
    steps: nat,
)
    requires
        world.is_tree(mod_dir, height),
        world.kind(manifest_path(mod_dir)) == PathKind::File,
        world.texts.contains_key(manifest_path(mod_dir)),
        decode(toml_read(world.texts[manifest_path(mod_dir)])) == Ok::<ModView, Seq<char>>(m),
        !lock.has_mod(m.id, m.mod_version),
        world.kind(path_join(config.meta.mods_dir, mod_dir_name(m))) == PathKind::Missing,
        lock_text(lock.with_mod(mod_record(m))) is Some,
        steps >= world.dir_cost(mod_dir, height) + 5,
    ensures
        mod_run_on(world, lock, config, ModInstallView::start(mod_dir), steps) == (
            lock.with_mod(mod_record(m)),
            ModStepView::Done,
            world.copies(mod_dir, path_join(config.meta.mods_dir, mod_dir_name(m)), height, 0),
        ),
{
    let dest = path_join(config.meta.mods_dir, mod_dir_name(m));
    let none = Multiset::<Copied>::empty();
    let first = ModInstallView::start(mod_dir);
    let probing = first->Ask_0;
    let second = lock.mod_step(config, probing, world.answer(first->Ask_1)).1;
    assert(second is Ask && second->Ask_1 == (RequestView::Probe { path: manifest_path(mod_dir) }));
    let third = lock.mod_step(config, second->Ask_0, world.answer(second->Ask_1)).1;
    assert(third is Ask && third->Ask_1 == (RequestView::ReadToString {
        path: manifest_path(mod_dir),
    }));
    let fourth = lock.mod_step(config, third->Ask_0, world.answer(third->Ask_1)).1;
    assert(fourth is Ask && fourth->Ask_1 == (RequestView::Probe { path: dest }));
    assert(fourth->Ask_0.record == mod_record(m));
    let fifth = lock.mod_step(config, fourth->Ask_0, world.answer(fourth->Ask_1)).1;
    let copying = fifth->Ask_0;
    let copy = copying.copy->0;
    assert(fifth == ModStepView::Ask(copying, asked_in(copy)));
    assert(world.pending_copies(copy.stack, height) =~= none);
    assert(world.pending_cost(copy.stack, height) == 0);
    assert(world.remaining(copy, height) =~= world.copies(mod_dir, dest, height, 0));
    lemma_mod_copy_runs_to_the_end(world, lock, config, copying, height, (steps - 4) as nat);
    let run5 = mod_run_on(world, lock, config, fifth, (steps - 4) as nat);
    let run4 = mod_run_on(world, lock, config, fourth, (steps - 3) as nat);
    let run3 = mod_run_on(world, lock, config, third, (steps - 2) as nat);
    let run2 = mod_run_on(world, lock, config, second, (steps - 1) as nat);
    let run1 = mod_run_on(world, lock, config, first, steps);
    assert(run4 == (run5.0, run5.1, copy_of(fourth->Ask_1).add(run5.2)));
    assert(run3 == (run4.0, run4.1, copy_of(third->Ask_1).add(run4.2)));
    assert(run2 == (run3.0, run3.1, copy_of(second->Ask_1).add(run3.2)));
    assert(run1 == (run2.0, run2.1, copy_of(first->Ask_1).add(run2.2)));
    assert(none.add(none.add(none.add(none.add(run5.2)))) =~= run5.2);
}

/// The installation of a pattern whose version parses and whose content
/// passes begins by asking to write the content, as it is, to the file that
/// is named after the resolved name in the store of patterns; and the name
/// is one that no listed pattern has.
pub proof fn law_pattern_is_written_verbatim(
    lock: LockView,
    config: ConfigView,
    version: Seq<char>,
    name: Seq<char>,
    contents: Seq<char>,
)
    requires
        semver_canonical(version) is Some,
        checked(contents) is Ok,
    ensures
        ({
            let planned = planned_pattern(lock, version, name);
            &&& lock.pattern_start(config, version, name, contents) == PatternStepView::Ask(
                PatternInstallView { phase: PatternPhase::FileWrite, record: planned },
                RequestView::Write {
                    path: path_join(config.meta.patterns_dir, planned.name + ".cgp"@),
                    text: contents,
                },
            )
            &&& !lock.names().contains(planned.name)
            &&& planned.version == version
        }),
{
    let candidate = candidate_name(base_name(name), semver_canonical(version)->0);
    lemma_resolved_exists(lock.names(), candidate);
}

/// The installation of a pattern whose version parses and whose content
/// passes, with both of its writes performed: it ends with success, and the
/// lock state lists the one new record under the resolved name, with the
/// version tag as it was given.
pub proof fn law_installed_pattern_is_recorded(
    lock: LockView,
    config: ConfigView,
    version: Seq<char>,
    name: Seq<char>,
    contents: Seq<char>,
)
    requires
        semver_canonical(version) is Some,
        checked(contents) is Ok,
        lock_text(lock.with_pattern(planned_pattern(lock, version, name))) is Some,
    ensures
        pattern_run(
            lock,
            config,
            lock.pattern_start(config, version, name, contents),
            seq![ReplyView::Done, ReplyView::Done],
        ) == (lock.with_pattern(planned_pattern(lock, version, name)), PatternStepView::Done),
{
    law_pattern_is_written_verbatim(lock, config, version, name, contents);
    let planned = planned_pattern(lock, version, name);
    let replies = seq![ReplyView::Done, ReplyView::Done];
    let start = lock.pattern_start(config, version, name, contents);
    let (after, second) = lock.pattern_step(config, start->Ask_0, replies[0]);
    assert(after == lock.with_pattern(planned));
    assert(second is Ask);
    let rest = replies.drop_first();
    assert(rest.len() == 1 && rest[0] == ReplyView::Done);
    let (last, third) = after.pattern_step(config, second->Ask_0, rest[0]);
    assert(third == PatternStepView::Done && last == after);
    assert(pattern_run(after, config, second, rest) == pattern_run(
        last,
        config,
        third,
        rest.drop_first(),
    ));
}

/// Installing the same mod twice on a file system that holds it: the first
/// installation succeeds, and on the lock state that it leaves the second
/// ends as a duplicate once the manifest is read, with no copy made and the
/// lock state as the first left it.
pub proof fn law_same_mod_twice_is_a_duplicate(
    world: World,
    lock: LockView,
    config: ConfigView,
    mod_dir: Seq<char>,
    m: ModView,
    height: nat,
    steps: nat,
)
    requires
        world.is_tree(mod_dir, height),
        world.kind(manifest_path(mod_dir)) == PathKind::File,
        world.texts.contains_key(manifest_path(mod_dir)),
        decode(toml_read(world.texts[manifest_path(mod_dir)])) == Ok::<ModView, Seq<char>>(m),
        !lock.has_mod(m.id, m.mod_version),
        world.kind(path_join(config.meta.mods_dir, mod_dir_name(m))) == PathKind::Missing,
        lock_text(lock.with_mod(mod_record(m))) is Some,
        steps >= world.dir_cost(mod_dir, height) + 5,
    ensures
        ({
            let first = mod_run_on(world, lock, config, ModInstallView::start(mod_dir), steps);
            let second = mod_run_on(world, first.0, config, ModInstallView::start(mod_dir), steps);
            &&& first.1 == ModStepView::Done
            &&& first.0 == lock.with_mod(mod_record(m))
            &&& second.0 == first.0
            &&& second.1 == ModStepView::Failed(
                ErrorKind::DuplicateInstall,
                "A mod with that id and version already exists locally."@,
            )
            &&& second.2 == Multiset::<Copied>::empty()
        }),
{
    law_installed_mod_mirrors_its_source(world, lock, config, mod_dir, m, height, steps);
    let listed = lock.with_mod(mod_record(m));
    assert(listed.has_mod(m.id, m.mod_version)) by {
        assert(listed.mods[lock.mods.len() as int] == mod_record(m));
    }
    let none = Multiset::<Copied>::empty();
    let first = ModInstallView::start(mod_dir);
    let second = listed.mod_step(config, first->Ask_0, world.answer(first->Ask_1)).1;
    assert(second is Ask && second->Ask_1 == (RequestView::Probe { path: manifest_path(mod_dir) }));
    let third = listed.mod_step(config, second->Ask_0, world.answer(second->Ask_1)).1;
    assert(third is Ask && third->Ask_1 == (RequestView::ReadToString {
        path: manifest_path(mod_dir),
    }));
    let fourth = listed.mod_step(config, third->Ask_0, world.answer(third->Ask_1)).1;
    assert(fourth == ModStepView::Failed(
        ErrorKind::DuplicateInstall,
        "A mod with that id and version already exists locally."@,
    ));
    let run4 = mod_run_on(world, listed, config, fourth, (steps - 3) as nat);
    let run3 = mod_run_on(world, listed, config, third, (steps - 2) as nat);
    let run2 = mod_run_on(world, listed, config, second, (steps - 1) as nat);
    let run1 = mod_run_on(world, listed, config, first, steps);
    assert(run4 == (listed, fourth, none));
    assert(run3 == (run4.0, run4.1, copy_of(third->Ask_1).add(run4.2)));
    assert(run2 == (run3.0, run3.1, copy_of(second->Ask_1).add(run3.2)));
    assert(run1 == (run2.0, run2.1, copy_of(first->Ask_1).add(run2.2)));
    assert(none.add(none.add(none.add(none))) =~= none);
}

/// Installing a pattern of the same name and version twice: the first takes
/// the name of base name, `@` and version, where that is free, and the
/// second takes that name with the suffix `_(0)`, where that is free.
pub proof fn law_same_pattern_twice_gets_a_suffix(
    lock: LockView,
    version: Seq<char>,
    name: Seq<char>,
)
    requires
        !lock.names().contains(candidate_name(base_name(name), semver_canonical(version)->0)),
        !lock.names().contains(
            suffixed(candidate_name(base_name(name), semver_canonical(version)->0), 0),
        ),
    ensures
        ({
            let candidate = candidate_name(base_name(name), semver_canonical(version)->0);
            let first = planned_pattern(lock, version, name);
            let second = planned_pattern(lock.with_pattern(first), version, name);
            first.name == candidate && second.name == suffixed(candidate, 0)
        }),
{
    let candidate = candidate_name(base_name(name), semver_canonical(version)->0);
    law_free_candidate_is_kept(lock.names(), candidate);
    let first = planned_pattern(lock, version, name);
    let after = lock.with_pattern(first);
    assert(after.names() =~= lock.names().push(candidate));
    assert(after.names().contains(candidate)) by {
        assert(after.names()[lock.names().len() as int] == candidate);
    }
    assert(!after.names().contains(suffixed(candidate, 0))) by {
        lemma_decimal_nonempty(0);
        reveal_strlit("_(");
        reveal_strlit(")");
        assert(suffixed(candidate, 0).len() > candidate.len());
    }
    law_nth_collision_takes_the_suffix_before(after.names(), candidate, 1);
}

/// The run of the setup from a step, through the answers given in their
/// order: the step it has come to.
pub open spec fn setup_run(step: InitStepView, replies: Seq<ReplyView>) -> InitStepView
    decreases replies.len(),
{
    match step {
        InitStepView::Ask(state, _) => if replies.len() == 0 {
            step
        } else {
            setup_run(state.step(replies[0]), replies.drop_first())
        },
        _ => step,
    }
}

/// Whether the setup, in a phase, holds the configuration that it has
/// loaded or made.
pub open spec fn holds_configuration(phase: SetupPhase) -> bool {
    phase != SetupPhase::RootProbe && phase != SetupPhase::RootCreate && phase
        != SetupPhase::RootCheck && phase != SetupPhase::ConfigProbe && phase
        != SetupPhase::ConfigRead && phase != SetupPhase::DefaultRootProbe
}

/// What holds of every step of a setup: the configuration that it holds or
/// gives keeps the invariant of the locations.
pub open spec fn setup_invariant(step: InitStepView) -> bool {
    match step {
        InitStepView::Ask(state, _) => holds_configuration(state.phase)
            ==> state.config.meta.valid(),
        InitStepView::Ready(config, _) => config.meta.valid(),
        InitStepView::Failed(_, _) => true,
    }
}

/// What holds of every run of the setup, from any step that the invariant
/// holds of.
pub proof fn lemma_setup_run(step: InitStepView, replies: Seq<ReplyView>)
    requires
        setup_invariant(step),
    ensures
        setup_invariant(setup_run(step, replies)),
    decreases replies.len(),
{
    if let InitStepView::Ask(state, _) = step {
        if replies.len() > 0 {
            lemma_setup_run(state.step(replies[0]), replies.drop_first());
        }
    }
}

/// The configuration that a setup ends with keeps the invariant of the
/// locations, whether it was loaded or made and whatever the file system
/// answered: the managed root and the stores are absolute paths, the stores
/// lie below the managed root and are not the same path, and the locations
/// of the host are absolute where they are set. A configuration that breaks
/// it ends the setup with a failure to initialise.
pub proof fn law_setup_gives_a_valid_configuration(home: Seq<char>, replies: Seq<ReplyView>)
    ensures
        setup_run(SetupView::start(home), replies) matches InitStepView::Ready(config, _)
            ==> config.meta.valid(),
{
    lemma_setup_run(SetupView::start(home), replies);
}

} // verus!
