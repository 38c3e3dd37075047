//! What holds of every run of the engine.
//!
//! The engine never holds more than `MAX_PROCESSES_TO_BOOST` pids; it holds
//! a pid only after a boost of it has succeeded; it touches only processes
//! that the safety policy found eligible; it restores only what it has
//! boosted, and on teardown all of it; a periodic scan forgets the
//! processes that have exited; a handle is asked for only when none is
//! held; and every pass comes to an end.

use crate::config::ConfigView;
use crate::engine::{
    classified_work,
    item_result,
    kept,
    plan,
    snapshot_pids,
    EngineEvent,
    EngineMove,
    EngineView,
    PassKind,
    PassReportView,
    Plan,
    Progress,
    MAX_NEW_BOOSTS_PER_CYCLE,
    MAX_PROCESSES_TO_BOOST,
};
use crate::error::BoosterErrorView;
use crate::paths::{allowed_paths, lemma_whitelist_is_never_empty, InstallLocationsView};
use crate::policy::{
    is_target_name,
    lemma_lookup_finds_the_first,
    lookup,
    lowercase,
    runs_from_allowed,
    safety_check,
    verdict,
    ProcessCandidateView,
    MIN_PROCESS_LIFETIME_SECONDS,
};
use crate::priority::{
    lemma_handle_released,
    lemma_session_stays_consistent,
    ControllerMove,
    ControllerState,
    OsResponseView,
    PriorityChange,
};
use crate::report::{
    disable_summary,
    no_stats,
    succeeded,
    ItemResultView,
    RecordView,
    SummaryView,
};
use vstd::prelude::*;

verus! {

/// Forgetting pids brings in no pid, keeps no pid twice, and keeps none
/// that is not among the survivors.
pub proof fn lemma_kept(boosted: Seq<u32>, survivors: Seq<u32>)
    ensures
        kept(boosted, survivors).len() <= boosted.len(),
        forall|pid: u32| #[trigger]
            kept(boosted, survivors).contains(pid) <==> boosted.contains(pid)
                && survivors.contains(pid),
        boosted.no_duplicates() ==> kept(boosted, survivors).no_duplicates(),
    decreases boosted.len(),
{
    if boosted.len() > 0 {
        let rest = boosted.drop_last();
        let last = boosted.last();
        lemma_kept(rest, survivors);
        assert forall|pid: u32| #[trigger]
            kept(boosted, survivors).contains(pid) <==> boosted.contains(pid)
                && survivors.contains(pid) by {
            let result = kept(boosted, survivors);
            if result.contains(pid) {
                let i = choose|i: int| 0 <= i < result.len() && result[i] == pid;
                if !(survivors.contains(last) && i == result.len() - 1) {
                    assert(kept(rest, survivors).contains(pid));
                }
            }
            if boosted.contains(pid) && survivors.contains(pid) {
                let j = choose|j: int| 0 <= j < boosted.len() && boosted[j] == pid;
                if j == boosted.len() - 1 {
                    assert(result[result.len() - 1] == pid);
                } else {
                    assert(rest[j] == pid);
                    assert(kept(rest, survivors).contains(pid));
                    let i = choose|i: int|
                        0 <= i < kept(rest, survivors).len() && kept(rest, survivors)[i] == pid;
                    assert(result[i] == pid);
                }
            }
        }
        if boosted.no_duplicates() && survivors.contains(last) && kept(rest, survivors).contains(
            last,
        ) {
            let j = choose|j: int| 0 <= j < rest.len() && rest[j] == last;
            assert(boosted[j] == boosted[boosted.len() - 1]);
        }
    }
}

proof fn lemma_push_keeps_no_duplicates(pids: Seq<u32>, pid: u32)
    requires
        pids.no_duplicates(),
        !pids.contains(pid),
    ensures
        pids.push(pid).no_duplicates(),
{
}

proof fn lemma_record_follows_work(progress: Progress, result: ItemResultView)
    requires
        progress.follows_work(),
        !progress.exhausted(),
        progress.current().check is Err ==> result is Skipped,
    ensures
        progress.record(result).follows_work(),
        progress.attempted_all() && (result is Succeeded || result is Failed)
            ==> progress.record(result).attempted_all(),
{
    let next = progress.record(result);
    assert forall|i: int| 0 <= i < next.records.len() implies {
        &&& (#[trigger] next.records[i]).pid == next.work[i].pid
        &&& next.records[i].name == next.work[i].name
        &&& next.work[i].check is Err ==> next.records[i].result is Skipped
    } by {}
    if progress.attempted_all() && (result is Succeeded || result is Failed) {
        assert forall|i: int| 0 <= i < next.records.len() implies (#[trigger] next.records[i])
            .result is Succeeded || next.records[i].result is Failed by {}
    }
}

/// Going on with a pass keeps what `wf` says, brings in no pid, and keeps
/// the preferences and the whitelist.
proof fn lemma_advance_keeps_wf(engine: EngineView, progress: Progress)
    requires
        engine.wf(),
        engine.pass is None,
        engine.fits(progress),
    ensures
        engine.advance(progress).0.wf(),
        engine.advance(progress).0.config == engine.config,
        engine.advance(progress).0.allowed_paths == engine.allowed_paths,
        forall|pid: u32| #[trigger]
            engine.advance(progress).0.boosted.contains(pid) ==> engine.boosted.contains(pid),
        engine.advance(progress).1 is Perform || engine.advance(progress).1 is Finished,
        engine.advance(progress).1 is Perform <==> engine.advance(progress).0.pass is Some,
    decreases progress.work.len() - progress.records.len(),
{
    if progress.exhausted() || progress.capped() {
        lemma_kept(engine.boosted, progress.survivors);
    } else {
        match plan(progress.kind, progress.current(), engine.boosted) {
            Plan::Skip(result) => {
                lemma_record_follows_work(progress, result);
                lemma_advance_keeps_wf(engine, progress.record(result));
            },
            Plan::Attempt => {
                let session = ControllerState::start(
                    progress.current().pid,
                    engine.goal(progress.kind),
                );
                lemma_session_stays_consistent(session, OsResponseView::Opened);
            },
        }
    }
}

/// The engine between two processes is well formed, and the pass can go on.
proof fn lemma_settled(engine: EngineView, outcome: Result<PriorityChange, BoosterErrorView>)
    requires
        engine.wf(),
        engine.pass is Some,
    ensures
        ({
            let progress = engine.pass->0.progress;
            let after = engine.settled(progress, outcome);
            &&& after.wf()
            &&& after.fits(progress.record(item_result(outcome)))
        }),
{
    let progress = engine.pass->0.progress;
    let pid = progress.current().pid;
    let after = engine.settled(progress, outcome);
    if after.boosted != engine.boosted {
        lemma_push_keeps_no_duplicates(engine.boosted, pid);
    }
    lemma_record_follows_work(progress, item_result(outcome));
}

/// A new engine is well formed.
pub proof fn lemma_initial_wf(config: ConfigView, locations: InstallLocationsView)
    ensures
        EngineView::initial(config, allowed_paths(locations)).wf(),
{
    lemma_whitelist_is_never_empty(locations);
}

/// A boost that begins keeps what `wf` says, and so the engine holds no
/// more than `MAX_PROCESSES_TO_BOOST` pids afterwards.
pub proof fn lemma_enable_keeps_wf(engine: EngineView, snapshot: Seq<ProcessCandidateView>)
    requires
        engine.wf(),
    ensures
        engine.enable(snapshot).0.wf(),
        engine.enable(snapshot).0.boosted.len() <= MAX_PROCESSES_TO_BOOST,
{
    if engine.pass is None {
        lemma_advance_keeps_wf(engine, engine.boost_pass(snapshot));
    }
}

/// A periodic scan that begins keeps what `wf` says, and so the engine holds
/// no more than `MAX_PROCESSES_TO_BOOST` pids afterwards.
pub proof fn lemma_auto_detect_keeps_wf(engine: EngineView, snapshot: Seq<ProcessCandidateView>)
    requires
        engine.wf(),
    ensures
        engine.auto_detect_and_boost(snapshot).0.wf(),
        engine.auto_detect_and_boost(snapshot).0.boosted.len() <= MAX_PROCESSES_TO_BOOST,
{
    if engine.pass is None {
        lemma_advance_keeps_wf(engine, engine.scan_pass(snapshot));
    }
}

/// A restoration that begins keeps what `wf` says.
pub proof fn lemma_disable_keeps_wf(engine: EngineView)
    requires
        engine.wf(),
    ensures
        engine.disable().0.wf(),
        engine.disable().0.boosted.len() <= MAX_PROCESSES_TO_BOOST,
{
    if engine.pass is None {
        lemma_advance_keeps_wf(engine, engine.restore_pass());
    }
}

/// An answer keeps what `wf` says, and so the engine holds no more than
/// `MAX_PROCESSES_TO_BOOST` pids afterwards, whatever the answer.
pub proof fn lemma_resume_keeps_wf(engine: EngineView, response: OsResponseView)
    requires
        engine.wf(),
    ensures
        engine.resume(response).0.wf(),
        engine.resume(response).0.boosted.len() <= MAX_PROCESSES_TO_BOOST,
{
    if engine.pass is Some {
        let pass = engine.pass->0;
        lemma_session_stays_consistent(pass.session, response);
        match pass.session.step(response) {
            ControllerMove::Continue(session, command) => {},
            ControllerMove::Finished(outcome) => {
                lemma_settled(engine, outcome);
                lemma_advance_keeps_wf(
                    engine.settled(pass.progress, outcome),
                    pass.progress.record(item_result(outcome)),
                );
            },
        }
    }
}

/// Every event keeps what `wf` says.
pub proof fn lemma_react_keeps_wf(engine: EngineView, event: EngineEvent)
    requires
        engine.wf(),
    ensures
        engine.react(event).wf(),
{
    match event {
        EngineEvent::Enable(snapshot) => lemma_enable_keeps_wf(engine, snapshot),
        EngineEvent::Scan(snapshot) => lemma_auto_detect_keeps_wf(engine, snapshot),
        EngineEvent::Disable => lemma_disable_keeps_wf(engine),
        EngineEvent::Answer(response) => lemma_resume_keeps_wf(engine, response),
        EngineEvent::Configure(config, locations) => {
            lemma_whitelist_is_never_empty(locations);
        },
    }
}

/// Answers keep what `wf` says.
pub proof fn lemma_answers_keep_wf(engine: EngineView, responses: Seq<OsResponseView>)
    requires
        engine.wf(),
    ensures
        engine.answers(responses).wf(),
    decreases responses.len(),
{
    if responses.len() > 0 {
        lemma_answers_keep_wf(engine, responses.drop_last());
        lemma_resume_keeps_wf(engine.answers(responses.drop_last()), responses.last());
    }
}

/// Bounded cardinality. Whatever happens to an engine, in whatever order
/// and however often, it never holds more than `MAX_PROCESSES_TO_BOOST`
/// pids, and none twice.
pub proof fn lemma_bounded_cardinality(engine: EngineView, events: Seq<EngineEvent>)
    requires
        engine.wf(),
    ensures
        engine.run(events).wf(),
        engine.run(events).boosted.len() <= MAX_PROCESSES_TO_BOOST,
        engine.run(events).boosted.no_duplicates(),
    decreases events.len(),
{
    if events.len() > 0 {
        lemma_bounded_cardinality(engine, events.drop_last());
        lemma_react_keeps_wf(engine.run(events.drop_last()), events.last());
    }
}

/// The engine holds a pid only after a boost of it has succeeded: a pid
/// that is held after an answer was held before, or it is the pid of the
/// session, the process had passed the safety policy, the pass is no
/// restoration, and the answer ended the session in success.
pub proof fn lemma_held_only_after_success(engine: EngineView, response: OsResponseView, pid: u32)
    requires
        engine.wf(),
        engine.resume(response).0.boosted.contains(pid),
    ensures
        engine.boosted.contains(pid) || ({
            let pass = engine.pass->0;
            &&& engine.pass is Some
            &&& pass.progress.kind != PassKind::Disable
            &&& pass.session.pid == pid
            &&& pass.session.goal is Boost
            &&& pass.progress.current().pid == pid
            &&& pass.progress.current().check is Ok
            &&& pass.session.step(response) matches ControllerMove::Finished(Ok(_))
        }),
{
    if engine.pass is Some {
        let pass = engine.pass->0;
        match pass.session.step(response) {
            ControllerMove::Continue(session, command) => {},
            ControllerMove::Finished(outcome) => {
                let after = engine.settled(pass.progress, outcome);
                lemma_settled(engine, outcome);
                lemma_advance_keeps_wf(after, pass.progress.record(item_result(outcome)));
            },
        }
    }
}

/// A pass that begins brings in no pid: what the engine holds after
/// `enable`, `auto_detect_and_boost` or `disable` it held before.
pub proof fn lemma_beginning_brings_in_no_pid(
    engine: EngineView,
    snapshot: Seq<ProcessCandidateView>,
    pid: u32,
)
    requires
        engine.wf(),
    ensures
        engine.enable(snapshot).0.boosted.contains(pid) ==> engine.boosted.contains(pid),
        engine.auto_detect_and_boost(snapshot).0.boosted.contains(pid)
            ==> engine.boosted.contains(pid),
        engine.disable().0.boosted.contains(pid) ==> engine.boosted.contains(pid),
{
    if engine.pass is None {
        lemma_advance_keeps_wf(engine, engine.boost_pass(snapshot));
        lemma_advance_keeps_wf(engine, engine.scan_pass(snapshot));
        lemma_advance_keeps_wf(engine, engine.restore_pass());
    }
}

/// Every item of the work of a snapshot is a candidate of that snapshot, and
/// bears the verdict of the safety policy on its pid.
pub proof fn lemma_work_is_judged(
    snapshot: Seq<ProcessCandidateView>,
    allowed: Seq<Seq<char>>,
    n: nat,
    i: int,
)
    requires
        0 <= i < classified_work(snapshot, allowed, n).len(),
    ensures
        ({
            let item = classified_work(snapshot, allowed, n)[i];
            &&& item.check == safety_check(snapshot, item.pid, allowed)
            &&& is_target_name(lowercase(item.name))
            &&& exists|k: int|
                0 <= k < snapshot.len() && (#[trigger] snapshot[k]).pid == item.pid
                    && snapshot[k].name == item.name
        }),
    decreases n,
{
    if n > 0 && n <= snapshot.len() {
        let rest = classified_work(snapshot, allowed, (n - 1) as nat);
        if i < rest.len() {
            lemma_work_is_judged(snapshot, allowed, (n - 1) as nat, i);
        }
    }
}

/// Only eligible processes are touched. In a boost and in a periodic scan,
/// every priority session is about a process that the safety policy found
/// eligible in the snapshot of the pass: it was there, it had run long
/// enough, it bore the name of the game client, and its executable lay
/// below a directory of the whitelist.
pub proof fn lemma_only_eligible_processes_are_touched(engine: EngineView)
    requires
        engine.wf(),
        engine.pass is Some,
        engine.pass->0.progress.kind != PassKind::Disable,
    ensures
        ({
            let pass = engine.pass->0;
            let found = lookup(pass.progress.snapshot, pass.session.pid);
            &&& verdict(found, pass.progress.whitelist) is Eligible
            &&& found is Some
            &&& found->0.uptime_seconds >= MIN_PROCESS_LIFETIME_SECONDS
            &&& is_target_name(lowercase(found->0.name))
            &&& runs_from_allowed(found->0, pass.progress.whitelist)
            &&& pass.session.goal is Boost
        }),
{
    let progress = engine.pass->0.progress;
    lemma_work_is_judged(
        progress.snapshot,
        progress.whitelist,
        progress.snapshot.len(),
        progress.records.len() as int,
    );
}

/// Going on with a pass ends it with the report of its kind, if it ends it.
proof fn lemma_advance_keeps_report(engine: EngineView, progress: Progress)
    ensures
        engine.advance(progress).1 matches EngineMove::Finished(report) ==> match progress.kind {
            PassKind::Enable => report matches PassReportView::Enabled(result) && (result is Ok
                || result == Err::<SummaryView, BoosterErrorView>(
                BoosterErrorView::NoProcessesFound,
            )),
            PassKind::AutoDetect => report is AutoDetected,
            PassKind::Disable => report is Disabled,
        },
    decreases progress.work.len() - progress.records.len(),
{
    if !progress.exhausted() && !progress.capped() {
        if let Plan::Skip(result) = plan(progress.kind, progress.current(), engine.boosted) {
            lemma_advance_keeps_report(engine, progress.record(result));
        }
    }
}

/// A boost fails closed. On a snapshot without a candidate, or with more
/// candidates than `MAX_PROCESSES_TO_BOOST`, the boost is over at once: no
/// command is issued and the engine stays as it was. On no other snapshot
/// does a boost report too many processes.
pub proof fn lemma_enable_fails_closed(engine: EngineView, snapshot: Seq<ProcessCandidateView>)
    requires
        engine.pass is None,
    ensures
        ({
            let found = classified_work(snapshot, engine.allowed_paths, snapshot.len()).len();
            let too_many = BoosterErrorView::TooManyProcesses {
                found: found as usize,
                max: MAX_PROCESSES_TO_BOOST,
            };
            &&& found == 0 ==> engine.enable(snapshot) == (
                engine,
                EngineMove::Finished(
                    PassReportView::Enabled(Err(BoosterErrorView::NoProcessesFound)),
                ),
            )
            &&& found > MAX_PROCESSES_TO_BOOST ==> engine.enable(snapshot) == (
                engine,
                EngineMove::Finished(PassReportView::Enabled(Err(too_many))),
            )
            &&& 0 < found <= MAX_PROCESSES_TO_BOOST ==> !(engine.enable(
                snapshot,
            ).1 matches EngineMove::Finished(
                PassReportView::Enabled(Err(BoosterErrorView::TooManyProcesses { .. })),
            ))
        }),
{
    lemma_advance_keeps_report(engine, engine.boost_pass(snapshot));
}

/// Restoration soundness on the side of the engine: a session that
/// restores is always about a pid that the engine holds. The engine never
/// asks for the restoration of a process that it has not boosted.
pub proof fn lemma_restores_only_what_it_boosted(engine: EngineView)
    requires
        engine.wf(),
        engine.pass is Some,
        engine.pass->0.session.goal is Restore,
    ensures
        engine.boosted.contains(engine.pass->0.session.pid),
{
}

/// What holds of the engine during a restoration and after it: while the
/// restoration is in progress the engine holds what it held; when it is over
/// the engine holds no pid, its statistics are cleared, and it is disabled.
pub open spec fn restoring(engine: EngineView, held: Seq<u32>) -> bool {
    &&& engine.wf()
    &&& match engine.pass {
        None => engine.boosted.len() == 0 && !engine.enabled && engine.stats == no_stats(),
        Some(pass) => pass.progress.kind == PassKind::Disable && engine.boosted == held,
    }
}

/// Going on with a restoration runs a session on the next pid, or ends the
/// restoration when every pid has had one: the summary then counts every
/// pid that the engine held.
proof fn lemma_advance_restores(engine: EngineView, progress: Progress)
    requires
        engine.wf(),
        engine.pass is None,
        engine.fits(progress),
        progress.kind == PassKind::Disable,
    ensures
        restoring(engine.advance(progress).0, engine.boosted),
        match engine.advance(progress) {
            (after, EngineMove::Finished(report)) => {
                &&& report == PassReportView::Disabled(disable_summary(progress.records))
                &&& progress.records.len() == engine.boosted.len()
                &&& progress.attempted_all()
                &&& forall|i: int|
                    0 <= i < progress.records.len() ==> (#[trigger] progress.records[i]).pid
                        == engine.boosted[i]
            },
            (after, command) => command == EngineMove::Perform(after.pass->0.session.pending())
                && after.pass->0.session.pid == engine.boosted[progress.records.len() as int],
        },
{
    lemma_advance_keeps_wf(engine, progress);
}

/// An answer keeps a restoration a restoration, or ends it with no pid
/// held. Once it is over, answers change nothing.
pub proof fn lemma_restore_step(engine: EngineView, held: Seq<u32>, response: OsResponseView)
    requires
        restoring(engine, held),
    ensures
        restoring(engine.resume(response).0, held),
{
    lemma_resume_keeps_wf(engine, response);
    if engine.pass is Some {
        let pass = engine.pass->0;
        match pass.session.step(response) {
            ControllerMove::Continue(session, command) => {},
            ControllerMove::Finished(outcome) => {
                lemma_settled(engine, outcome);
                lemma_advance_restores(
                    engine.settled(pass.progress, outcome),
                    pass.progress.record(item_result(outcome)),
                );
            },
        }
    }
}

/// Answers keep a restoration a restoration, until it is over.
pub proof fn lemma_restoration_goes_on(
    engine: EngineView,
    held: Seq<u32>,
    responses: Seq<OsResponseView>,
)
    requires
        restoring(engine, held),
    ensures
        restoring(engine.answers(responses), held),
    decreases responses.len(),
{
    if responses.len() > 0 {
        lemma_restoration_goes_on(engine, held, responses.drop_last());
        lemma_restore_step(engine.answers(responses.drop_last()), held, responses.last());
    }
}

/// A restoration reports on every pid. When a restoration ends, its
/// summary is drawn from one record for each pid that the engine held, in
/// their order, and each record is that of a session that was run: none
/// was skipped.
pub proof fn lemma_restoration_reports_every_pid(engine: EngineView, response: OsResponseView)
    requires
        engine.wf(),
    ensures
        engine.pass is None && engine.boosted.len() == 0 ==> engine.disable().1
            == EngineMove::Finished(
            PassReportView::Disabled(disable_summary(Seq::<RecordView>::empty())),
        ),
        engine.pass is Some && engine.pass->0.progress.kind == PassKind::Disable
            ==> match engine.resume(response) {
            (after, EngineMove::Finished(report)) => exists|records: Seq<RecordView>|
                {
                    &&& report == PassReportView::Disabled(disable_summary(records))
                    &&& records.len() == engine.boosted.len()
                    &&& forall|i: int|
                        0 <= i < records.len() ==> (#[trigger] records[i]).pid
                            == engine.boosted[i] && (records[i].result is Succeeded
                            || records[i].result is Failed)
                },
            (after, _) => after.boosted == engine.boosted,
        },
{
    if engine.pass is None {
        lemma_advance_restores(engine, engine.restore_pass());
    } else if engine.pass->0.progress.kind == PassKind::Disable {
        let pass = engine.pass->0;
        match pass.session.step(response) {
            ControllerMove::Continue(session, command) => {},
            ControllerMove::Finished(outcome) => {
                let records = pass.progress.record(item_result(outcome)).records;
                lemma_settled(engine, outcome);
                lemma_advance_restores(
                    engine.settled(pass.progress, outcome),
                    pass.progress.record(item_result(outcome)),
                );
                if engine.resume(response).1 is Finished {
                    assert(records.len() == engine.boosted.len());
                }
            },
        }
    }
}

/// Teardown, from whatever state the engine is in. Let the pass in
/// progress, if there is one, be answered to its end, and let a restoration
/// begin then. Whatever the answers, when the restoration is over the
/// engine holds no pid, its statistics are cleared and it is disabled.
/// Until then it holds what it held, and its sessions restore pids that it
/// holds: no pid is forgotten before a session was run on it. Every pass
/// comes to an end when its commands are answered, so the restoration is
/// reached and finished.
pub proof fn lemma_disable_restores_all(
    engine: EngineView,
    finishing: Seq<OsResponseView>,
    responses: Seq<OsResponseView>,
)
    requires
        engine.wf(),
        engine.answers(finishing).pass is None,
    ensures
        ({
            let idle = engine.answers(finishing);
            let after = idle.disable().0.answers(responses);
            match after.pass {
                None => after.boosted.len() == 0 && !after.enabled && after.stats == no_stats(),
                Some(pass) => pass.progress.kind == PassKind::Disable
                    && pass.session.goal is Restore && after.boosted == idle.boosted
                    && idle.boosted.contains(pass.session.pid),
            }
        }),
{
    let idle = engine.answers(finishing);
    lemma_answers_keep_wf(engine, finishing);
    lemma_advance_restores(idle, idle.restore_pass());
    lemma_restoration_goes_on(idle.disable().0, idle.boosted, responses);
    let after = idle.disable().0.answers(responses);
    if after.pass is Some {
        lemma_restores_only_what_it_boosted(after);
    }
}

/// What holds of the engine during a periodic scan and after it: while the
/// scan is in progress it is a scan with the same snapshot; when it is over
/// the engine holds nothing but pids of that snapshot.
pub open spec fn scanning(engine: EngineView, survivors: Seq<u32>) -> bool {
    &&& engine.wf()
    &&& match engine.pass {
        None => forall|pid: u32| #[trigger]
            engine.boosted.contains(pid) ==> survivors.contains(pid),
        Some(pass) => pass.progress.kind == PassKind::AutoDetect && pass.progress.survivors
            == survivors,
    }
}

/// Going on with a periodic scan keeps it a scan, or ends it with nothing
/// held but pids of its snapshot.
proof fn lemma_advance_scans(engine: EngineView, progress: Progress)
    requires
        engine.wf(),
        engine.pass is None,
        engine.fits(progress),
        progress.kind == PassKind::AutoDetect,
    ensures
        scanning(engine.advance(progress).0, progress.survivors),
    decreases progress.work.len() - progress.records.len(),
{
    lemma_advance_keeps_wf(engine, progress);
    if progress.exhausted() || progress.capped() {
        lemma_kept(engine.boosted, progress.survivors);
    } else {
        match plan(progress.kind, progress.current(), engine.boosted) {
            Plan::Skip(result) => {
                lemma_record_follows_work(progress, result);
                lemma_advance_scans(engine, progress.record(result));
            },
            Plan::Attempt => {},
        }
    }
}

/// An answer keeps a periodic scan a scan, or ends it with nothing held but
/// pids of its snapshot. Once it is over, answers change nothing.
pub proof fn lemma_scan_step(engine: EngineView, survivors: Seq<u32>, response: OsResponseView)
    requires
        scanning(engine, survivors),
    ensures
        scanning(engine.resume(response).0, survivors),
{
    lemma_resume_keeps_wf(engine, response);
    if engine.pass is Some {
        let pass = engine.pass->0;
        match pass.session.step(response) {
            ControllerMove::Continue(session, command) => {},
            ControllerMove::Finished(outcome) => {
                lemma_settled(engine, outcome);
                lemma_advance_scans(
                    engine.settled(pass.progress, outcome),
                    pass.progress.record(item_result(outcome)),
                );
            },
        }
    }
}

/// Answers keep a periodic scan a scan, until it is over.
pub proof fn lemma_scan_goes_on(
    engine: EngineView,
    survivors: Seq<u32>,
    responses: Seq<OsResponseView>,
)
    requires
        scanning(engine, survivors),
    ensures
        scanning(engine.answers(responses), survivors),
    decreases responses.len(),
{
    if responses.len() > 0 {
        lemma_scan_goes_on(engine, survivors, responses.drop_last());
        lemma_scan_step(engine.answers(responses.drop_last()), survivors, responses.last());
    }
}

/// Garbage collection. Let a periodic scan begin on an engine that is in
/// no pass, has scans switched on and holds fewer than
/// `MAX_PROCESSES_TO_BOOST` pids. Then, whatever the answers, when the scan
/// is over the engine holds nothing but pids of the snapshot: a process
/// that has exited is forgotten. Until then every session of the scan
/// boosts a process of the snapshot that the engine does not hold yet; none
/// is run to restore anything, and none on a process that has exited.
pub proof fn lemma_scan_forgets_the_dead(
    engine: EngineView,
    snapshot: Seq<ProcessCandidateView>,
    responses: Seq<OsResponseView>,
)
    requires
        engine.wf(),
        engine.pass is None,
        engine.config.auto_detect_roblox,
        engine.boosted.len() < MAX_PROCESSES_TO_BOOST,
    ensures
        ({
            let after = engine.auto_detect_and_boost(snapshot).0.answers(responses);
            match after.pass {
                None => forall|pid: u32| #[trigger]
                    after.boosted.contains(pid) ==> snapshot_pids(snapshot).contains(pid),
                Some(pass) => {
                    &&& pass.progress.kind == PassKind::AutoDetect
                    &&& pass.session.goal is Boost
                    &&& snapshot_pids(snapshot).contains(pass.session.pid)
                    &&& !after.boosted.contains(pass.session.pid)
                },
            }
        }),
{
    let begun = engine.auto_detect_and_boost(snapshot).0;
    if engine.scans() {
        lemma_advance_scans(engine, engine.scan_pass(snapshot));
    }
    lemma_scan_goes_on(begun, snapshot_pids(snapshot), responses);
    let after = begun.answers(responses);
    if after.pass is Some {
        let progress = after.pass->0.progress;
        let pid = after.pass->0.session.pid;
        lemma_only_eligible_processes_are_touched(after);
        lemma_lookup_finds_the_first(progress.snapshot, pid);
        let i = choose|i: int|
            0 <= i < progress.snapshot.len() && (#[trigger] progress.snapshot[i]).pid == pid;
        assert(snapshot_pids(progress.snapshot)[i] == pid);
    }
}

/// What holds of the engine during a periodic scan and after it, as to the
/// number of pids: the scan has boosted fewer new processes than it may
/// while a session is in progress, and the engine holds no more than it
/// held before the scan and what the scan has boosted.
pub open spec fn within_cap(engine: EngineView, before: nat) -> bool {
    &&& engine.wf()
    &&& match engine.pass {
        None => engine.boosted.len() <= before + MAX_NEW_BOOSTS_PER_CYCLE,
        Some(pass) => {
            &&& pass.progress.kind == PassKind::AutoDetect
            &&& succeeded(pass.progress.records) < MAX_NEW_BOOSTS_PER_CYCLE
            &&& engine.boosted.len() <= before + succeeded(pass.progress.records)
        },
    }
}

proof fn lemma_advance_within_cap(engine: EngineView, progress: Progress, before: nat)
    requires
        engine.wf(),
        engine.pass is None,
        engine.fits(progress),
        progress.kind == PassKind::AutoDetect,
        succeeded(progress.records) <= MAX_NEW_BOOSTS_PER_CYCLE,
        engine.boosted.len() <= before + succeeded(progress.records),
    ensures
        within_cap(engine.advance(progress).0, before),
    decreases progress.work.len() - progress.records.len(),
{
    lemma_advance_keeps_wf(engine, progress);
    if progress.exhausted() || progress.capped() {
        lemma_kept(engine.boosted, progress.survivors);
    } else {
        match plan(progress.kind, progress.current(), engine.boosted) {
            Plan::Skip(result) => {
                let next = progress.record(result);
                assert(next.records.drop_last() =~= progress.records);
                lemma_record_follows_work(progress, result);
                lemma_advance_within_cap(engine, next, before);
            },
            Plan::Attempt => {},
        }
    }
}

/// An answer keeps a periodic scan within its cap.
pub proof fn lemma_scan_step_within_cap(
    engine: EngineView,
    before: nat,
    response: OsResponseView,
)
    requires
        within_cap(engine, before),
    ensures
        within_cap(engine.resume(response).0, before),
{
    lemma_resume_keeps_wf(engine, response);
    if engine.pass is Some {
        let pass = engine.pass->0;
        match pass.session.step(response) {
            ControllerMove::Continue(session, command) => {},
            ControllerMove::Finished(outcome) => {
                let next = pass.progress.record(item_result(outcome));
                assert(next.records.drop_last() =~= pass.progress.records);
                lemma_settled(engine, outcome);
                lemma_advance_within_cap(engine.settled(pass.progress, outcome), next, before);
            },
        }
    }
}

/// The cap of a periodic scan. Let a periodic scan begin on an engine that
/// is in no pass. Then, whatever the answers, when the scan is over the
/// engine holds at most `MAX_NEW_BOOSTS_PER_CYCLE` pids more than before.
pub proof fn lemma_scan_boosts_few(
    engine: EngineView,
    snapshot: Seq<ProcessCandidateView>,
    responses: Seq<OsResponseView>,
)
    requires
        engine.wf(),
        engine.pass is None,
    ensures
        ({
            let after = engine.auto_detect_and_boost(snapshot).0.answers(responses);
            after.pass is None ==> after.boosted.len() <= engine.boosted.len()
                + MAX_NEW_BOOSTS_PER_CYCLE
        }),
{
    let begun = engine.auto_detect_and_boost(snapshot).0;
    let before = engine.boosted.len();
    if engine.scans() && engine.boosted.len() < MAX_PROCESSES_TO_BOOST {
        lemma_advance_within_cap(engine, engine.scan_pass(snapshot), before);
    }
    lemma_within_cap_goes_on(begun, before, responses);
}

proof fn lemma_within_cap_goes_on(
    engine: EngineView,
    before: nat,
    responses: Seq<OsResponseView>,
)
    requires
        within_cap(engine, before),
    ensures
        within_cap(engine.answers(responses), before),
    decreases responses.len(),
{
    if responses.len() > 0 {
        lemma_within_cap_goes_on(engine, before, responses.drop_last());
        lemma_scan_step_within_cap(
            engine.answers(responses.drop_last()),
            before,
            responses.last(),
        );
    }
}

/// Going on with a pass ends it, or asks for the handle of the next
/// session, which holds none yet.
proof fn lemma_advance_opens(engine: EngineView, progress: Progress)
    requires
        engine.pass is None,
    ensures
        match engine.advance(progress) {
            (after, EngineMove::Perform(command)) => after.pass is Some && command
                == after.pass->0.session.pending() && command is OpenProcess
                && !after.holds_handle(),
            (after, _) => after.pass is None,
        },
    decreases progress.work.len() - progress.records.len(),
{
    if !progress.exhausted() && !progress.capped() {
        if let Plan::Skip(result) = plan(progress.kind, progress.current(), engine.boosted) {
            lemma_advance_opens(engine, progress.record(result));
        }
    }
}

/// One handle at a time, and none between passes. A pass begins with no
/// handle held. While a handle is held, the engine asks for another only
/// after that one was taken back, and the pass ends only after that one was
/// taken back.
pub proof fn lemma_one_handle_at_a_time(
    engine: EngineView,
    snapshot: Seq<ProcessCandidateView>,
    response: OsResponseView,
)
    requires
        engine.wf(),
    ensures
        engine.pass is None ==> !engine.enable(snapshot).0.holds_handle()
            && !engine.auto_detect_and_boost(snapshot).0.holds_handle()
            && !engine.disable().0.holds_handle(),
        engine.holds_handle() ==> match engine.resume(response) {
            (after, EngineMove::Perform(command)) => {
                &&& after.pass is Some
                &&& command == after.pass->0.session.pending()
                &&& command is OpenProcess <==> !after.holds_handle()
                &&& command is OpenProcess ==> response is Closed
                    && engine.pass->0.session.phase is Closing
            },
            (after, _) => !after.holds_handle() && response is Closed
                && engine.pass->0.session.phase is Closing,
        },
{
    if engine.pass is None {
        lemma_advance_opens(engine, engine.boost_pass(snapshot));
        lemma_advance_opens(engine, engine.scan_pass(snapshot));
        lemma_advance_opens(engine, engine.restore_pass());
    } else {
        let pass = engine.pass->0;
        lemma_handle_released(pass.session, response);
        lemma_session_stays_consistent(pass.session, response);
        match pass.session.step(response) {
            ControllerMove::Continue(session, command) => {},
            ControllerMove::Finished(outcome) => {
                lemma_advance_opens(
                    engine.settled(pass.progress, outcome),
                    pass.progress.record(item_result(outcome)),
                );
            },
        }
    }
}

/// Going on with a pass leaves no more answers to wait for than four for
/// each process that is left.
proof fn lemma_advance_leaves_few_answers(engine: EngineView, progress: Progress)
    requires
        engine.pass is None,
        progress.records.len() <= progress.work.len(),
    ensures
        engine.advance(progress).0.answers_left() <= 4 * (progress.work.len()
            - progress.records.len()),
    decreases progress.work.len() - progress.records.len(),
{
    if !progress.exhausted() && !progress.capped() {
        if let Plan::Skip(result) = plan(progress.kind, progress.current(), engine.boosted) {
            lemma_advance_leaves_few_answers(engine, progress.record(result));
        }
    }
}

/// Every pass comes to an end. Each answer to the command that was issued
/// brings the end of the pass nearer; a pass is over after at most four
/// answers for each of its processes.
pub proof fn lemma_pass_comes_to_an_end(engine: EngineView, response: OsResponseView)
    requires
        engine.wf(),
        engine.pass is Some,
        engine.pass->0.session.answered_by(response),
    ensures
        engine.resume(response).0.answers_left() < engine.answers_left(),
        engine.answers_left() <= 4 * engine.pass->0.progress.work.len(),
{
    let pass = engine.pass->0;
    lemma_handle_released(pass.session, response);
    match pass.session.step(response) {
        ControllerMove::Continue(session, command) => {},
        ControllerMove::Finished(outcome) => {
            lemma_advance_leaves_few_answers(
                engine.settled(pass.progress, outcome),
                pass.progress.record(item_result(outcome)),
            );
        },
    }
}

} // verus!
