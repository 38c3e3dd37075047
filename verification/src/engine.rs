//! The booster as a state machine, in mathematical terms.
//!
//! A pass over the processes (a boost, a periodic scan, a restoration)
//! alternates decisions with work that only the operating system can do.
//! The machine makes the decisions: it says which primitive to perform next
//! and takes what came of it. This file says what the machine does; `laws`
//! proves what holds of every run, and `booster` holds the code that runs
//! the machine.

use crate::config::ConfigView;
use crate::error::BoosterErrorView;
use crate::paths::{allowed_paths, InstallLocationsView};
use crate::policy::{
    is_target_name,
    lowercase,
    runs_from_allowed,
    safety_check,
    ProcessCandidateView,
};
use crate::priority::{
    ControllerMove,
    ControllerState,
    OsCommand,
    OsResponseView,
    PriorityChange,
    PriorityGoal,
};
use crate::report::{
    auto_detect_result,
    disable_summary,
    enable_result,
    enable_stats,
    limit_notice,
    no_stats,
    succeeded,
    ItemResultView,
    OptimizationStats,
    RecordView,
    SummaryView,
};
use crate::text::decimal;
use vstd::prelude::*;

verus! {

/// The engine is never responsible for more processes than this.
pub const MAX_PROCESSES_TO_BOOST: usize = 5;

/// A periodic scan boosts at most this many new processes.
pub const MAX_NEW_BOOSTS_PER_CYCLE: usize = 2;

/// The three passes.
#[derive(Clone, Copy, Debug, PartialEq, Eq, Structural)]
pub enum PassKind {
    /// Boost every eligible candidate.
    Enable,
    /// Boost eligible candidates that have appeared since, a few at a time.
    AutoDetect,
    /// Restore every process that the engine has boosted.
    Disable,
}

/// A process that a pass has to deal with.
pub struct WorkItemView {
    pub pid: u32,
    pub name: Seq<char>,
    /// What the safety policy said of the process when the pass began.
    pub check: Result<(), BoosterErrorView>,
}

/// How far a pass has come.
pub struct Progress {
    pub kind: PassKind,
    /// The snapshot that the pass began with; none in a restoration.
    pub snapshot: Seq<ProcessCandidateView>,
    /// The whitelist in effect when the pass began.
    pub whitelist: Seq<Seq<char>>,
    /// The processes to deal with, in the order of the snapshot.
    pub work: Seq<WorkItemView>,
    /// What came of the processes dealt with so far: one record for each,
    /// in the same order.
    pub records: Seq<RecordView>,
    /// The pids of the snapshot that the pass began with.
    pub survivors: Seq<u32>,
}

/// A pass that waits for the answer to a command.
pub struct PassView {
    pub progress: Progress,
    /// The priority session on the process that comes after the records.
    pub session: ControllerState,
}

/// The state of the engine.
pub struct EngineView {
    pub config: ConfigView,
    /// The allowed installation directories.
    pub allowed_paths: Seq<Seq<char>>,
    /// Whether a boost has succeeded since the engine was last disabled.
    pub enabled: bool,
    /// The pids that the engine has boosted and must restore.
    pub boosted: Seq<u32>,
    pub stats: OptimizationStats,
    /// The pass in progress, if there is one.
    pub pass: Option<PassView>,
}

/// What a pass reports at its end.
pub enum PassReportView {
    Enabled(Result<SummaryView, BoosterErrorView>),
    AutoDetected(Option<SummaryView>),
    Disabled(SummaryView),
}

/// What the engine tells its caller.
pub enum EngineMove {
    /// Perform this command and hand the answer to `resume`.
    Perform(OsCommand),
    /// The pass is over.
    Finished(PassReportView),
    /// A pass is in progress; no other was begun and nothing has changed.
    Busy,
    /// No pass is in progress; nothing has changed.
    Idle,
}

/// What can happen to an engine.
pub enum EngineEvent {
    /// `enable` is called with this snapshot.
    Enable(Seq<ProcessCandidateView>),
    /// `auto_detect_and_boost` is called with this snapshot.
    Scan(Seq<ProcessCandidateView>),
    /// `disable` is called.
    Disable,
    /// `resume` is called with this answer.
    Answer(OsResponseView),
    /// New preferences arrive, with these candidates for the whitelist.
    Configure(ConfigView, InstallLocationsView),
}

/// What to do with the next process of a pass.
pub enum Plan {
    /// Record this and go on.
    Skip(ItemResultView),
    /// Start a priority session on it.
    Attempt,
}

/// The error for a process that the engine has no room left to track.
pub open spec fn no_room_error(pid: u32, held: nat) -> BoosterErrorView {
    BoosterErrorView::SafetyCheckFailed {
        pid,
        reason: "Max processes reached ("@ + decimal(held) + "/"@ + decimal(
            MAX_PROCESSES_TO_BOOST as nat,
        ) + ")"@,
    }
}

/// What to do with a process. A process that failed the safety policy is
/// skipped. A periodic scan skips what the engine has boosted already. A
/// process that the engine has not boosted yet is attempted only while the
/// engine has room for it.
pub open spec fn plan(kind: PassKind, item: WorkItemView, boosted: Seq<u32>) -> Plan {
    match item.check {
        Err(error) => Plan::Skip(ItemResultView::Skipped(error)),
        Ok(_) => {
            if kind == PassKind::AutoDetect && boosted.contains(item.pid) {
                Plan::Skip(ItemResultView::AlreadyTracked)
            } else if !boosted.contains(item.pid) && boosted.len() >= MAX_PROCESSES_TO_BOOST {
                Plan::Skip(ItemResultView::Skipped(no_room_error(item.pid, boosted.len())))
            } else {
                Plan::Attempt
            }
        },
    }
}

/// The work that the first `n` entries of a snapshot give: one item for each
/// entry that bears the name of the game client, with the verdict of the
/// safety policy on its pid.
pub open spec fn classified_work(
    snapshot: Seq<ProcessCandidateView>,
    allowed: Seq<Seq<char>>,
    n: nat,
) -> Seq<WorkItemView>
    decreases n,
{
    if n == 0 || n > snapshot.len() {
        Seq::empty()
    } else {
        let entry = snapshot[n - 1];
        let rest = classified_work(snapshot, allowed, (n - 1) as nat);
        if is_target_name(lowercase(entry.name)) {
            rest.push(
                WorkItemView {
                    pid: entry.pid,
                    name: entry.name,
                    check: safety_check(snapshot, entry.pid, allowed),
                },
            )
        } else {
            rest
        }
    }
}

/// The pids of a snapshot.
pub open spec fn snapshot_pids(snapshot: Seq<ProcessCandidateView>) -> Seq<u32> {
    Seq::new(snapshot.len(), |i: int| snapshot[i].pid)
}

/// How many of the first `n` entries of a snapshot bear the name of the game
/// client and run from an allowed directory.
pub open spec fn validated_count(
    snapshot: Seq<ProcessCandidateView>,
    allowed: Seq<Seq<char>>,
    n: nat,
) -> nat
    decreases n,
{
    if n == 0 || n > snapshot.len() {
        0
    } else {
        let entry = snapshot[n - 1];
        let rest = validated_count(snapshot, allowed, (n - 1) as nat);
        if is_target_name(lowercase(entry.name)) && runs_from_allowed(entry, allowed) {
            rest + 1
        } else {
            rest
        }
    }
}

/// The work of a restoration: every pid that the engine has boosted.
pub open spec fn restore_work(boosted: Seq<u32>) -> Seq<WorkItemView> {
    Seq::new(
        boosted.len(),
        |i: int| WorkItemView { pid: boosted[i], name: Seq::empty(), check: Ok(()) },
    )
}

/// The pids among `boosted` that are among the `survivors`, in their order.
pub open spec fn kept(boosted: Seq<u32>, survivors: Seq<u32>) -> Seq<u32>
    decreases boosted.len(),
{
    if boosted.len() == 0 {
        Seq::empty()
    } else if survivors.contains(boosted.last()) {
        kept(boosted.drop_last(), survivors).push(boosted.last())
    } else {
        kept(boosted.drop_last(), survivors)
    }
}

impl Progress {
    /// The process that comes next.
    pub open spec fn current(self) -> WorkItemView {
        self.work[self.records.len() as int]
    }

    /// Whether every process has been dealt with.
    pub open spec fn exhausted(self) -> bool {
        self.records.len() >= self.work.len()
    }

    /// Whether the pass has boosted as many new processes as one scan may.
    pub open spec fn capped(self) -> bool {
        self.kind == PassKind::AutoDetect && succeeded(self.records) >= MAX_NEW_BOOSTS_PER_CYCLE
    }

    /// The progress after the current process, with what came of it.
    pub open spec fn record(self, result: ItemResultView) -> Progress {
        Progress {
            records: self.records.push(
                RecordView { pid: self.current().pid, name: self.current().name, result },
            ),
            ..self
        }
    }

    /// Whether the records are those of the first processes of the work,
    /// one for each, and a session was run on none that failed the safety
    /// policy.
    pub open spec fn follows_work(self) -> bool {
        &&& self.records.len() <= self.work.len()
        &&& forall|i: int|
            0 <= i < self.records.len() ==> {
                &&& (#[trigger] self.records[i]).pid == self.work[i].pid
                &&& self.records[i].name == self.work[i].name
                &&& self.work[i].check is Err ==> self.records[i].result is Skipped
            }
    }

    /// Whether a session was run on every process dealt with so far.
    pub open spec fn attempted_all(self) -> bool {
        forall|i: int|
            0 <= i < self.records.len() ==> (#[trigger] self.records[i]).result is Succeeded
                || self.records[i].result is Failed
    }
}

impl EngineView {
    /// The engine before its first pass.
    pub open spec fn initial(config: ConfigView, allowed_paths: Seq<Seq<char>>) -> EngineView {
        EngineView {
            config,
            allowed_paths,
            enabled: false,
            boosted: Seq::empty(),
            stats: no_stats(),
            pass: None,
        }
    }

    /// What holds of the work of a pass that the engine is in, or about to
    /// go on with. The work of a restoration is the pids that the engine
    /// holds, and so far a session was run on each. The work of the other
    /// passes is the candidates of their snapshot, each with the verdict of
    /// the safety policy under the whitelist that the pass began with.
    pub open spec fn fits(self, progress: Progress) -> bool {
        &&& progress.follows_work()
        &&& if progress.kind == PassKind::Disable {
            progress.work == restore_work(self.boosted) && progress.attempted_all()
        } else {
            progress.work == classified_work(
                progress.snapshot,
                progress.whitelist,
                progress.snapshot.len(),
            ) && progress.survivors == snapshot_pids(progress.snapshot)
        }
    }

    /// What is kept of every engine: the whitelist is not empty, no pid is
    /// held twice, never more than `MAX_PROCESSES_TO_BOOST` are held, and an
    /// engine that holds a pid is enabled.
    ///
    /// A pass in progress has a process that its session is about. That
    /// process passed the safety policy, and the engine holds it or has
    /// room for it. The session restores in a restoration and boosts in the
    /// other passes. In a periodic scan it is about a pid that the engine
    /// does not hold yet.
    pub open spec fn wf(self) -> bool {
        &&& self.allowed_paths.len() > 0
        &&& self.boosted.no_duplicates()
        &&& self.boosted.len() <= MAX_PROCESSES_TO_BOOST
        &&& self.boosted.len() > 0 ==> self.enabled
        &&& self.pass matches Some(pass) ==> {
            &&& self.fits(pass.progress)
            &&& !pass.progress.exhausted()
            &&& pass.progress.current().check is Ok
            &&& pass.session.pid == pass.progress.current().pid
            &&& pass.session.goal is Restore <==> pass.progress.kind == PassKind::Disable
            &&& pass.session.consistent()
            &&& pass.progress.kind == PassKind::AutoDetect ==> !self.boosted.contains(
                pass.session.pid,
            )
            &&& (self.boosted.contains(pass.session.pid) || self.boosted.len()
                < MAX_PROCESSES_TO_BOOST)
        }
    }

    /// The goal of the priority sessions of a pass.
    pub open spec fn goal(self, kind: PassKind) -> PriorityGoal {
        match kind {
            PassKind::Disable => PriorityGoal::Restore,
            _ => PriorityGoal::Boost(self.config.target_level()),
        }
    }

    /// The end of a pass. A boost leaves its statistics behind, and the
    /// engine is enabled once a boost has succeeded. A periodic scan forgets
    /// the pids that were not in its snapshot. A restoration forgets every
    /// pid, clears the statistics and leaves the engine disabled.
    pub open spec fn finish(self, progress: Progress) -> (EngineView, EngineMove) {
        match progress.kind {
            PassKind::Enable => (
                EngineView {
                    enabled: self.enabled || enable_result(self.config, progress.records) is Ok,
                    stats: enable_stats(self.config, progress.records),
                    pass: None,
                    ..self
                },
                EngineMove::Finished(
                    PassReportView::Enabled(enable_result(self.config, progress.records)),
                ),
            ),
            PassKind::AutoDetect => (
                EngineView {
                    boosted: kept(self.boosted, progress.survivors),
                    pass: None,
                    ..self
                },
                EngineMove::Finished(
                    PassReportView::AutoDetected(auto_detect_result(progress.records)),
                ),
            ),
            PassKind::Disable => (
                EngineView {
                    enabled: false,
                    boosted: Seq::empty(),
                    stats: no_stats(),
                    pass: None,
                    ..self
                },
                EngineMove::Finished(PassReportView::Disabled(disable_summary(progress.records))),
            ),
        }
    }

    /// Goes through the processes that are left until one is to be
    /// attempted, and starts a priority session on it; or ends the pass.
    pub open spec fn advance(self, progress: Progress) -> (EngineView, EngineMove)
        decreases progress.work.len() - progress.records.len(),
    {
        if progress.exhausted() || progress.capped() {
            self.finish(progress)
        } else {
            match plan(progress.kind, progress.current(), self.boosted) {
                Plan::Skip(result) => self.advance(progress.record(result)),
                Plan::Attempt => {
                    let session = ControllerState::start(
                        progress.current().pid,
                        self.goal(progress.kind),
                    );
                    (
                        EngineView { pass: Some(PassView { progress, session }), ..self },
                        EngineMove::Perform(session.pending()),
                    )
                },
            }
        }
    }

    /// A boost that is about to begin: the work is the candidates of the
    /// snapshot, each with the verdict of the safety policy.
    pub open spec fn boost_pass(self, snapshot: Seq<ProcessCandidateView>) -> Progress {
        Progress {
            kind: PassKind::Enable,
            snapshot,
            whitelist: self.allowed_paths,
            work: classified_work(snapshot, self.allowed_paths, snapshot.len()),
            records: Seq::empty(),
            survivors: snapshot_pids(snapshot),
        }
    }

    /// A periodic scan that is about to begin, with the same work as a
    /// boost.
    pub open spec fn scan_pass(self, snapshot: Seq<ProcessCandidateView>) -> Progress {
        Progress { kind: PassKind::AutoDetect, ..self.boost_pass(snapshot) }
    }

    /// A restoration that is about to begin: the work is the pids that the
    /// engine holds.
    pub open spec fn restore_pass(self) -> Progress {
        Progress {
            kind: PassKind::Disable,
            snapshot: Seq::empty(),
            whitelist: self.allowed_paths,
            work: restore_work(self.boosted),
            records: Seq::empty(),
            survivors: Seq::empty(),
        }
    }

    /// Begins a boost on a snapshot of the running processes.
    ///
    /// The candidates are the entries that bear the name of the game
    /// client. Without a candidate the boost fails with `NoProcessesFound`;
    /// with more than `MAX_PROCESSES_TO_BOOST` it fails with
    /// `TooManyProcesses`. Either way no command is issued and nothing
    /// changes.
    pub open spec fn enable(self, snapshot: Seq<ProcessCandidateView>) -> (EngineView, EngineMove) {
        let work = classified_work(snapshot, self.allowed_paths, snapshot.len());
        if self.pass is Some {
            (self, EngineMove::Busy)
        } else if work.len() == 0 {
            (
                self,
                EngineMove::Finished(
                    PassReportView::Enabled(Err(BoosterErrorView::NoProcessesFound)),
                ),
            )
        } else if work.len() > MAX_PROCESSES_TO_BOOST {
            (
                self,
                EngineMove::Finished(
                    PassReportView::Enabled(
                        Err(
                            BoosterErrorView::TooManyProcesses {
                                found: work.len() as usize,
                                max: MAX_PROCESSES_TO_BOOST,
                            },
                        ),
                    ),
                ),
            )
        } else {
            self.advance(
                self.boost_pass(snapshot),
            )
        }
    }

    /// Begins a periodic scan on a snapshot of the running processes.
    ///
    /// Nothing is done while the engine is disabled, or where the
    /// preferences switch the scan off. Where the engine holds
    /// `MAX_PROCESSES_TO_BOOST` pids the scan is skipped as a whole, and
    /// says so.
    pub open spec fn auto_detect_and_boost(self, snapshot: Seq<ProcessCandidateView>) -> (
        EngineView,
        EngineMove,
    ) {
        if self.pass is Some {
            (self, EngineMove::Busy)
        } else if !self.scans() {
            (self, EngineMove::Finished(PassReportView::AutoDetected(None)))
        } else if self.boosted.len() >= MAX_PROCESSES_TO_BOOST {
            (
                self,
                EngineMove::Finished(
                    PassReportView::AutoDetected(
                        Some(limit_notice(self.boosted.len(), MAX_PROCESSES_TO_BOOST as nat)),
                    ),
                ),
            )
        } else {
            self.advance(
                self.scan_pass(snapshot),
            )
        }
    }

    /// Whether a periodic scan is due at all: the engine is enabled and the
    /// preferences ask for scans.
    pub open spec fn scans(self) -> bool {
        self.enabled && self.config.auto_detect_roblox
    }

    /// Begins the restoration of every process that the engine has boosted.
    pub open spec fn disable(self) -> (EngineView, EngineMove) {
        if self.pass is Some {
            (self, EngineMove::Busy)
        } else {
            self.advance(
                self.restore_pass(),
            )
        }
    }

    /// The pids that the engine holds after a priority session on `pid`
    /// has ended: a pid that was boosted is held from then on.
    pub open spec fn boosted_after(
        self,
        kind: PassKind,
        pid: u32,
        outcome: Result<PriorityChange, BoosterErrorView>,
    ) -> Seq<u32> {
        if outcome is Ok && kind != PassKind::Disable && !self.boosted.contains(pid) {
            self.boosted.push(pid)
        } else {
            self.boosted
        }
    }

    /// Takes the answer to the command that the engine issued last.
    ///
    /// The answer goes to the priority session in progress. When the
    /// session ends, what came of it is recorded, and the pass goes on with
    /// the next process.
    pub open spec fn resume(self, response: OsResponseView) -> (EngineView, EngineMove) {
        match self.pass {
            None => (self, EngineMove::Idle),
            Some(pass) => match pass.session.step(response) {
                ControllerMove::Continue(session, command) => (
                    EngineView {
                        pass: Some(PassView { progress: pass.progress, session }),
                        ..self
                    },
                    EngineMove::Perform(command),
                ),
                ControllerMove::Finished(outcome) => self.settled(pass.progress, outcome).advance(
                    pass.progress.record(item_result(outcome)),
                ),
            },
        }
    }

    /// The engine with new preferences and a new whitelist. What it holds,
    /// and a pass in progress, stay as they are.
    pub open spec fn configure(
        self,
        config: ConfigView,
        allowed_paths: Seq<Seq<char>>,
    ) -> EngineView {
        EngineView { config, allowed_paths, ..self }
    }

    /// What an event makes of the engine.
    pub open spec fn react(self, event: EngineEvent) -> EngineView {
        match event {
            EngineEvent::Enable(snapshot) => self.enable(snapshot).0,
            EngineEvent::Scan(snapshot) => self.auto_detect_and_boost(snapshot).0,
            EngineEvent::Disable => self.disable().0,
            EngineEvent::Answer(response) => self.resume(response).0,
            EngineEvent::Configure(config, locations) => self.configure(
                config,
                allowed_paths(locations),
            ),
        }
    }

    /// What a run of events makes of the engine.
    pub open spec fn run(self, events: Seq<EngineEvent>) -> EngineView
        decreases events.len(),
    {
        if events.len() == 0 {
            self
        } else {
            self.run(events.drop_last()).react(events.last())
        }
    }

    /// What a run of answers makes of the engine.
    pub open spec fn answers(self, responses: Seq<OsResponseView>) -> EngineView
        decreases responses.len(),
    {
        if responses.len() == 0 {
            self
        } else {
            self.answers(responses.drop_last()).resume(responses.last()).0
        }
    }

    /// Whether the engine holds a handle that must still be given back.
    pub open spec fn holds_handle(self) -> bool {
        self.pass is Some && self.pass->0.session.holds_handle()
    }

    /// How many answers the pass in progress still needs at most.
    pub open spec fn answers_left(self) -> nat {
        match self.pass {
            None => 0,
            Some(pass) => (4 * (pass.progress.work.len() - pass.progress.records.len() - 1)
                + pass.session.answers_left()) as nat,
        }
    }

    /// The engine between two processes of a pass, after the session on the
    /// current process has ended. A boost that has succeeded leaves the
    /// engine enabled.
    pub open spec fn settled(
        self,
        progress: Progress,
        outcome: Result<PriorityChange, BoosterErrorView>,
    ) -> EngineView {
        EngineView {
            enabled: self.enabled || (outcome is Ok && progress.kind != PassKind::Disable),
            boosted: self.boosted_after(progress.kind, progress.current().pid, outcome),
            pass: None,
            ..self
        }
    }
}

/// What is recorded of a process whose session has ended.
pub open spec fn item_result(outcome: Result<PriorityChange, BoosterErrorView>) -> ItemResultView {
    match outcome {
        Ok(change) => ItemResultView::Succeeded(change),
        Err(error) => ItemResultView::Failed(error),
    }
}

} // verus!
