//! The booster: the engine that boosts the game client, keeps track of what
//! it has boosted, and restores it.
//!
//! The engine reads no process table and changes no priority itself. A
//! pass is begun with `enable`, `auto_detect_and_boost` or `disable`; each
//! hands back the next command to perform, and `resume` takes the answer,
//! until the pass is over.

use crate::config::Config;
use crate::engine::{
    classified_work,
    kept,
    no_room_error,
    plan,
    restore_work,
    snapshot_pids,
    validated_count,
    EngineMove,
    EngineView,
    PassKind,
    PassReportView,
    PassView,
    Plan,
    Progress,
    WorkItemView,
    MAX_NEW_BOOSTS_PER_CYCLE,
    MAX_PROCESSES_TO_BOOST,
};
use crate::error::BoosterError;
use crate::laws::{
    lemma_auto_detect_keeps_wf,
    lemma_disable_keeps_wf,
    lemma_enable_keeps_wf,
    lemma_resume_keeps_wf,
};
use crate::paths::{
    allowed_paths,
    build_allowed_paths,
    locations_of,
    probe_locations,
    InstallEnvironment,
    InstallLocations,
    InstallLocationsView,
};
use crate::policy::{
    check_view,
    classify,
    is_safe_path,
    is_safe_to_optimize,
    ProcessCandidate,
    ProcessCandidateView,
};
use crate::priority::{
    ControllerStep,
    OsCommand,
    OsResponse,
    PriorityController,
    PriorityGoal,
};
use crate::report::{
    auto_detect_report,
    count_succeeded,
    disable_report,
    enable_report,
    enable_statistics,
    limit_report,
    optional_view,
    result_view,
    ItemResult,
    OptimizationStats,
    Record,
    Summary,
    VERSION,
};
use crate::text::push_decimal;
use vstd::prelude::*;
use vstd::string::StringExecFns;

verus! {

/// What a pass reports at its end.
#[derive(Debug, PartialEq, Eq)]
pub enum PassReport {
    /// A boost: its summary, or why it failed as a whole.
    Enabled(Result<Summary, BoosterError>),
    /// A periodic scan: what there is to tell, if anything.
    AutoDetected(Option<Summary>),
    /// A restoration.
    Disabled(Summary),
}

impl View for PassReport {
    type V = PassReportView;

    open spec fn view(&self) -> PassReportView {
        match *self {
            PassReport::Enabled(result) => PassReportView::Enabled(result_view(result)),
            PassReport::AutoDetected(summary) => PassReportView::AutoDetected(
                optional_view(summary),
            ),
            PassReport::Disabled(summary) => PassReportView::Disabled(summary@),
        }
    }
}

/// What the engine tells its caller.
#[derive(Debug, PartialEq, Eq)]
pub enum EngineStep {
    /// Perform this command and hand the answer to `resume`.
    Perform(OsCommand),
    /// The pass is over.
    Finished(PassReport),
    /// A pass is in progress; no other was begun and nothing has changed.
    Busy,
    /// No pass is in progress; nothing has changed.
    Idle,
}

impl View for EngineStep {
    type V = EngineMove;

    open spec fn view(&self) -> EngineMove {
        match *self {
            EngineStep::Perform(command) => EngineMove::Perform(command),
            EngineStep::Finished(report) => EngineMove::Finished(report@),
            EngineStep::Busy => EngineMove::Busy,
            EngineStep::Idle => EngineMove::Idle,
        }
    }
}

struct WorkItem {
    pid: u32,
    name: String,
    check: Result<(), BoosterError>,
}

impl View for WorkItem {
    type V = WorkItemView;

    closed spec fn view(&self) -> WorkItemView {
        WorkItemView { pid: self.pid, name: self.name@, check: check_view(self.check) }
    }
}

impl DeepView for WorkItem {
    type V = WorkItemView;

    closed spec fn deep_view(&self) -> WorkItemView {
        self@
    }
}

struct Pending {
    kind: PassKind,
    snapshot: Ghost<Seq<ProcessCandidateView>>,
    whitelist: Ghost<Seq<Seq<char>>>,
    work: Vec<WorkItem>,
    records: Vec<Record>,
    survivors: Vec<u32>,
}

impl View for Pending {
    type V = Progress;

    closed spec fn view(&self) -> Progress {
        Progress {
            kind: self.kind,
            snapshot: self.snapshot@,
            whitelist: self.whitelist@,
            work: self.work.deep_view(),
            records: self.records.deep_view(),
            survivors: self.survivors@,
        }
    }
}

struct Pass {
    progress: Pending,
    session: PriorityController,
}

enum Decision {
    Skip(ItemResult),
    Attempt,
}

impl View for Decision {
    type V = Plan;

    closed spec fn view(&self) -> Plan {
        match *self {
            Decision::Skip(result) => Plan::Skip(result@),
            Decision::Attempt => Plan::Attempt,
        }
    }
}

/// The engine. It holds the preferences, the allowed installation
/// directories, the pids that it has boosted, and the statistics of the
/// last boost.
///
/// The pids are a set: none is held twice. They are kept in the order in
/// which they were boosted, and a restoration goes through them in that
/// order, so that its commands and its summary are the same on every run.
/// A hash set would walk them in an order that changes with the seed of its
/// hasher, from one process to the next.
pub struct SystemBooster {
    config: Config,
    allowed_paths: Vec<String>,
    enabled: bool,
    boosted: Vec<u32>,
    last_stats: OptimizationStats,
    pass: Option<Pass>,
}

impl View for SystemBooster {
    type V = EngineView;

    closed spec fn view(&self) -> EngineView {
        EngineView {
            config: self.config@,
            allowed_paths: self.allowed_paths.deep_view(),
            enabled: self.enabled,
            boosted: self.boosted@,
            stats: self.last_stats,
            pass: match self.pass {
                Some(pass) => Some(
                    PassView { progress: pass.progress@, session: pass.session@ },
                ),
                None => None,
            },
        }
    }
}

fn contains_pid(pids: &Vec<u32>, pid: u32) -> (found: bool)
    ensures
        found == pids@.contains(pid),
{
    let mut i: usize = 0;
    while i < pids.len()
        invariant
            i <= pids.len(),
            forall|j: int| 0 <= j < i ==> pids@[j] != pid,
        decreases pids.len() - i,
    {
        if pids[i] == pid {
            return true;
        }
        i += 1;
    }
    false
}

fn retain_survivors(boosted: &Vec<u32>, survivors: &Vec<u32>) -> (left: Vec<u32>)
    ensures
        left@ == kept(boosted@, survivors@),
{
    let mut left: Vec<u32> = Vec::new();
    let mut i: usize = 0;
    while i < boosted.len()
        invariant
            i <= boosted.len(),
            left@ == kept(boosted@.take(i as int), survivors@),
        decreases boosted.len() - i,
    {
        assert(boosted@.take(i + 1).drop_last() =~= boosted@.take(i as int));
        if contains_pid(survivors, boosted[i]) {
            left.push(boosted[i]);
        }
        i += 1;
    }
    assert(boosted@.take(boosted.len() as int) =~= boosted@);
    left
}

fn pids_of(snapshot: &Vec<ProcessCandidate>) -> (pids: Vec<u32>)
    ensures
        pids@ == snapshot_pids(snapshot.deep_view()),
{
    let mut pids: Vec<u32> = Vec::new();
    let mut i: usize = 0;
    while i < snapshot.len()
        invariant
            i <= snapshot.len(),
            pids@.len() == i,
            forall|j: int| 0 <= j < i ==> pids@[j] == snapshot@[j].pid,
        decreases snapshot.len() - i,
    {
        pids.push(snapshot[i].pid);
        i += 1;
    }
    pids
}

fn restore_items(boosted: &Vec<u32>) -> (work: Vec<WorkItem>)
    ensures
        work.deep_view() == restore_work(boosted@),
{
    let mut work: Vec<WorkItem> = Vec::new();
    let mut i: usize = 0;
    while i < boosted.len()
        invariant
            i <= boosted.len(),
            work@.len() == i,
            forall|j: int|
                0 <= j < i ==> (#[trigger] work@[j])@ == (WorkItemView {
                    pid: boosted@[j],
                    name: Seq::empty(),
                    check: Ok(()),
                }),
        decreases boosted.len() - i,
    {
        work.push(WorkItem { pid: boosted[i], name: String::new(), check: Ok(()) });
        i += 1;
    }
    work
}

fn classify_snapshot(snapshot: &Vec<ProcessCandidate>, allowed_paths: &Vec<String>) -> (work: Vec<
    WorkItem,
>)
    ensures
        work.deep_view() == classified_work(
            snapshot.deep_view(),
            allowed_paths.deep_view(),
            snapshot.len() as nat,
        ),
{
    let ghost all = snapshot.deep_view();
    let ghost allowed = allowed_paths.deep_view();
    let mut work: Vec<WorkItem> = Vec::new();
    let mut i: usize = 0;
    while i < snapshot.len()
        invariant
            i <= snapshot.len(),
            all == snapshot.deep_view(),
            allowed == allowed_paths.deep_view(),
            work.deep_view() == classified_work(all, allowed, i as nat),
        decreases snapshot.len() - i,
    {
        let entry = &snapshot[i];
        if classify(entry.name.as_str()) {
            let item = WorkItem {
                pid: entry.pid,
                name: entry.name.clone(),
                check: is_safe_to_optimize(snapshot, entry.pid, allowed_paths),
            };
            work.push(item);
        }
        i += 1;
    }
    work
}

fn no_room(pid: u32, held: usize) -> (error: BoosterError)
    ensures
        error@ == no_room_error(pid, held as nat),
{
    let mut reason = String::from_str("Max processes reached (");
    push_decimal(&mut reason, held as u64);
    reason.append("/");
    push_decimal(&mut reason, MAX_PROCESSES_TO_BOOST as u64);
    reason.append(")");
    BoosterError::SafetyCheckFailed { pid, reason }
}

fn decide(kind: PassKind, item: &WorkItem, boosted: &Vec<u32>) -> (decision: Decision)
    ensures
        decision@ == plan(kind, item@, boosted@),
{
    match &item.check {
        Err(error) => Decision::Skip(ItemResult::Skipped(error.clone())),
        Ok(_) => {
            let held = contains_pid(boosted, item.pid);
            match kind {
                PassKind::AutoDetect => {
                    if held {
                        return Decision::Skip(ItemResult::AlreadyTracked);
                    }
                },
                _ => {},
            }
            if !held && boosted.len() >= MAX_PROCESSES_TO_BOOST {
                Decision::Skip(ItemResult::Skipped(no_room(item.pid, boosted.len())))
            } else {
                Decision::Attempt
            }
        },
    }
}

fn record(progress: Pending, result: ItemResult) -> (next: Pending)
    requires
        !progress@.exhausted(),
    ensures
        next@ == progress@.record(result@),
{
    let mut progress = progress;
    let ghost before = progress.records.deep_view();
    let index = progress.records.len();
    let entry = Record {
        pid: progress.work[index].pid,
        name: progress.work[index].name.clone(),
        result,
    };
    progress.records.push(entry);
    assert(progress.records.deep_view() =~= before.push(entry@));
    progress
}

impl SystemBooster {
    /// An engine for these preferences, with the whitelist that the cascade
    /// yields on candidates that have been probed.
    pub fn from_locations(config: Config, locations: &InstallLocations) -> (booster: SystemBooster)
        ensures
            booster@ == EngineView::initial(config@, allowed_paths(locations@)),
            booster@.wf(),
    {
        SystemBooster {
            config,
            allowed_paths: build_allowed_paths(locations),
            enabled: false,
            boosted: Vec::new(),
            last_stats: OptimizationStats::default(),
            pass: None,
        }
    }

    /// An engine for these preferences in this environment. The disk is
    /// asked which candidates for the whitelist exist.
    pub fn new(config: Config, environment: &InstallEnvironment) -> (booster: SystemBooster)
        ensures
            exists|locations: InstallLocationsView|
                locations_of(config@, environment@, locations) && booster@ == EngineView::initial(
                    config@,
                    allowed_paths(locations),
                ),
            booster@.wf(),
    {
        let locations = probe_locations(&config, environment);
        let booster = SystemBooster::from_locations(config, &locations);
        booster
    }

    /// The version of the booster.
    pub fn version() -> (version: &'static str)
        ensures
            version@ == VERSION@,
    {
        VERSION
    }

    /// The first of the allowed installation directories.
    pub fn get_roblox_path(&self) -> (path: String)
        requires
            self@.wf(),
        ensures
            path@ == self@.allowed_paths[0],
    {
        self.allowed_paths[0].clone()
    }

    /// Takes new preferences, and the whitelist that the cascade yields on
    /// candidates that have been probed. What the engine has boosted, and a
    /// pass in progress, stay as they are.
    pub fn update_config_from(&mut self, config: Config, locations: &InstallLocations)
        requires
            old(self)@.wf(),
        ensures
            final(self)@ == (EngineView {
                config: config@,
                allowed_paths: allowed_paths(locations@),
                ..old(self)@
            }),
            final(self)@.wf(),
    {
        let allowed = build_allowed_paths(locations);
        self.allowed_paths = allowed;
        self.config = config;
    }

    /// Takes new preferences and builds the whitelist anew. The disk is
    /// asked which candidates for the whitelist exist.
    pub fn update_config(&mut self, config: Config, environment: &InstallEnvironment)
        requires
            old(self)@.wf(),
        ensures
            exists|locations: InstallLocationsView|
                locations_of(config@, environment@, locations) && final(self)@ == (EngineView {
                    config: config@,
                    allowed_paths: allowed_paths(locations),
                    ..old(self)@
                }),
            final(self)@.wf(),
    {
        let locations = probe_locations(&config, environment);
        self.update_config_from(config, &locations);
    }

    /// The statistics of the last boost.
    pub fn get_stats(&self) -> (stats: &OptimizationStats)
        ensures
            *stats == self@.stats,
    {
        &self.last_stats
    }

    /// The allowed installation directories.
    pub fn allowed_paths(&self) -> (allowed: &Vec<String>)
        ensures
            allowed.deep_view() == self@.allowed_paths,
    {
        &self.allowed_paths
    }

    /// The preferences in effect.
    pub fn config(&self) -> (config: &Config)
        ensures
            config@ == self@.config,
    {
        &self.config
    }

    /// The pids that the engine has boosted and not yet restored or
    /// forgotten: never more than `MAX_PROCESSES_TO_BOOST`, and none twice.
    pub fn boosted_pids(&self) -> (pids: Vec<u32>)
        requires
            self@.wf(),
        ensures
            pids@ == self@.boosted,
            pids.len() <= MAX_PROCESSES_TO_BOOST,
            pids@.no_duplicates(),
    {
        self.boosted.clone()
    }

    /// Whether a boost has succeeded since the engine was last disabled.
    pub fn is_enabled(&self) -> (enabled: bool)
        ensures
            enabled == self@.enabled,
    {
        self.enabled
    }

    /// Whether a pass is in progress.
    pub fn is_busy(&self) -> (busy: bool)
        ensures
            busy == self@.pass is Some,
    {
        self.pass.is_some()
    }

    /// How many processes of the snapshot bear the name of the game client
    /// and run from an allowed directory.
    pub fn get_roblox_process_count(&self, snapshot: &Vec<ProcessCandidate>) -> (count: usize)
        ensures
            count == validated_count(
                snapshot.deep_view(),
                self@.allowed_paths,
                snapshot.len() as nat,
            ),
    {
        let ghost all = snapshot.deep_view();
        let ghost allowed = self.allowed_paths.deep_view();
        let mut count: usize = 0;
        let mut i: usize = 0;
        while i < snapshot.len()
            invariant
                i <= snapshot.len(),
                all == snapshot.deep_view(),
                allowed == self.allowed_paths.deep_view(),
                count == validated_count(all, allowed, i as nat),
                count <= i,
            decreases snapshot.len() - i,
        {
            let entry = &snapshot[i];
            if classify(entry.name.as_str()) && is_safe_path(entry, &self.allowed_paths) {
                count += 1;
            }
            i += 1;
        }
        count
    }

    /// Begins a boost on a snapshot of the running processes.
    pub fn enable(&mut self, snapshot: &Vec<ProcessCandidate>) -> (step: EngineStep)
        requires
            old(self)@.wf(),
        ensures
            (final(self)@, step@) == old(self)@.enable(snapshot.deep_view()),
            final(self)@.wf(),
    {
        proof {
            lemma_enable_keeps_wf(self@, snapshot.deep_view());
        }
        if self.pass.is_some() {
            return EngineStep::Busy;
        }
        let work = classify_snapshot(snapshot, &self.allowed_paths);
        if work.len() == 0 {
            return EngineStep::Finished(PassReport::Enabled(Err(BoosterError::NoProcessesFound)));
        }
        if work.len() > MAX_PROCESSES_TO_BOOST {
            return EngineStep::Finished(
                PassReport::Enabled(
                    Err(
                        BoosterError::TooManyProcesses {
                            found: work.len(),
                            max: MAX_PROCESSES_TO_BOOST,
                        },
                    ),
                ),
            );
        }
        let progress = Pending {
            kind: PassKind::Enable,
            snapshot: Ghost(snapshot.deep_view()),
            whitelist: Ghost(self.allowed_paths.deep_view()),
            work,
            records: Vec::new(),
            survivors: pids_of(snapshot),
        };
        assert(progress@.records =~= Seq::empty());
        self.advance(progress)
    }

    /// Begins a periodic scan on a snapshot of the running processes.
    pub fn auto_detect_and_boost(&mut self, snapshot: &Vec<ProcessCandidate>) -> (step: EngineStep)
        requires
            old(self)@.wf(),
        ensures
            (final(self)@, step@) == old(self)@.auto_detect_and_boost(snapshot.deep_view()),
            final(self)@.wf(),
    {
        proof {
            lemma_auto_detect_keeps_wf(self@, snapshot.deep_view());
        }
        if self.pass.is_some() {
            return EngineStep::Busy;
        }
        if !self.enabled || !self.config.auto_detect_roblox {
            return EngineStep::Finished(PassReport::AutoDetected(None));
        }
        if self.boosted.len() >= MAX_PROCESSES_TO_BOOST {
            return EngineStep::Finished(
                PassReport::AutoDetected(
                    Some(limit_report(self.boosted.len(), MAX_PROCESSES_TO_BOOST)),
                ),
            );
        }
        let progress = Pending {
            kind: PassKind::AutoDetect,
            snapshot: Ghost(snapshot.deep_view()),
            whitelist: Ghost(self.allowed_paths.deep_view()),
            work: classify_snapshot(snapshot, &self.allowed_paths),
            records: Vec::new(),
            survivors: pids_of(snapshot),
        };
        assert(progress@.records =~= Seq::empty());
        self.advance(progress)
    }

    /// Begins the restoration of every process that the engine has boosted.
    pub fn disable(&mut self) -> (step: EngineStep)
        requires
            old(self)@.wf(),
        ensures
            (final(self)@, step@) == old(self)@.disable(),
            final(self)@.wf(),
    {
        proof {
            lemma_disable_keeps_wf(self@);
        }
        if self.pass.is_some() {
            return EngineStep::Busy;
        }
        let progress = Pending {
            kind: PassKind::Disable,
            snapshot: Ghost(Seq::empty()),
            whitelist: Ghost(self.allowed_paths.deep_view()),
            work: restore_items(&self.boosted),
            records: Vec::new(),
            survivors: Vec::new(),
        };
        assert(progress@.records =~= Seq::empty());
        self.advance(progress)
    }

    /// Takes the answer to the command that the engine issued last.
    pub fn resume(&mut self, response: OsResponse) -> (step: EngineStep)
        requires
            old(self)@.wf(),
        ensures
            (final(self)@, step@) == old(self)@.resume(response@),
            final(self)@.wf(),
    {
        proof {
            lemma_resume_keeps_wf(self@, response@);
        }
        match self.pass.take() {
            None => EngineStep::Idle,
            Some(pass) => {
                let progress = pass.progress;
                match pass.session.step(response) {
                    ControllerStep::Continue(session, command) => {
                        self.pass = Some(Pass { progress, session });
                        EngineStep::Perform(command)
                    },
                    ControllerStep::Finished(outcome) => {
                        let index = progress.records.len();
                        let pid = progress.work[index].pid;
                        let result = match outcome {
                            Ok(change) => {
                                match progress.kind {
                                    PassKind::Disable => {},
                                    _ => {
                                        self.enabled = true;
                                        if !contains_pid(&self.boosted, pid) {
                                            self.boosted.push(pid);
                                        }
                                    },
                                }
                                ItemResult::Succeeded(change)
                            },
                            Err(error) => ItemResult::Failed(error),
                        };
                        let progress = record(progress, result);
                        self.advance(progress)
                    },
                }
            },
        }
    }

    fn advance(&mut self, progress: Pending) -> (step: EngineStep)
        requires
            old(self)@.pass is None,
        ensures
            (final(self)@, step@) == old(self)@.advance(progress@),
        decreases progress@.work.len() - progress@.records.len(),
    {
        if progress.records.len() >= progress.work.len() {
            return self.finish(progress);
        }
        match progress.kind {
            PassKind::AutoDetect => {
                if count_succeeded(&progress.records) >= MAX_NEW_BOOSTS_PER_CYCLE {
                    return self.finish(progress);
                }
            },
            _ => {},
        }
        let index = progress.records.len();
        match decide(progress.kind, &progress.work[index], &self.boosted) {
            Decision::Skip(result) => {
                let progress = record(progress, result);
                self.advance(progress)
            },
            Decision::Attempt => {
                let goal = match progress.kind {
                    PassKind::Disable => PriorityGoal::Restore,
                    _ => PriorityGoal::Boost(self.config.target_level()),
                };
                let (session, command) = PriorityController::begin(
                    progress.work[index].pid,
                    goal,
                );
                self.pass = Some(Pass { progress, session });
                EngineStep::Perform(command)
            },
        }
    }

    fn finish(&mut self, progress: Pending) -> (step: EngineStep)
        requires
            old(self)@.pass is None,
        ensures
            (final(self)@, step@) == old(self)@.finish(progress@),
    {
        match progress.kind {
            PassKind::Enable => {
                let report = enable_report(&self.config, &progress.records);
                self.last_stats = enable_statistics(&self.config, &progress.records);
                self.enabled = self.enabled || report.is_ok();
                EngineStep::Finished(PassReport::Enabled(report))
            },
            PassKind::AutoDetect => {
                self.boosted = retain_survivors(&self.boosted, &progress.survivors);
                let report = auto_detect_report(&progress.records);
                EngineStep::Finished(PassReport::AutoDetected(report))
            },
            PassKind::Disable => {
                self.enabled = false;
                self.boosted = Vec::new();
                self.last_stats = OptimizationStats::default();
                EngineStep::Finished(PassReport::Disabled(disable_report(&progress.records)))
            },
        }
    }
}

} // verus!
