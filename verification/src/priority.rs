//! Priority classes, and the controller that changes the priority class of
//! one process through a handle that it always gives back.
//!
//! The controller never touches the operating system. It says which
//! primitive to perform next (`OsCommand`) and is told what came of it
//! (`OsResponse`); the caller performs the primitives.

use crate::error::{BoosterError, BoosterErrorView};
use vstd::prelude::*;

verus! {

/// The priority that the user can ask for.
#[derive(Clone, Copy, Debug, PartialEq, Eq, Structural)]
pub enum PriorityLevel {
    Normal,
    AboveNormal,
    High,
}

/// The scheduling classes of the operating system, in ascending order.
#[derive(Clone, Copy, Debug, PartialEq, Eq, Structural)]
pub enum PriorityClass {
    Idle,
    BelowNormal,
    Normal,
    AboveNormal,
    High,
    Realtime,
}

impl PriorityLevel {
    /// The scheduling class that stands for this level.
    pub open spec fn class(self) -> PriorityClass {
        match self {
            PriorityLevel::Normal => PriorityClass::Normal,
            PriorityLevel::AboveNormal => PriorityClass::AboveNormal,
            PriorityLevel::High => PriorityClass::High,
        }
    }

    /// The scheduling class that stands for this level.
    pub fn to_class(self) -> (class: PriorityClass)
        ensures
            class == self.class(),
    {
        match self {
            PriorityLevel::Normal => PriorityClass::Normal,
            PriorityLevel::AboveNormal => PriorityClass::AboveNormal,
            PriorityLevel::High => PriorityClass::High,
        }
    }
}

impl PriorityClass {
    /// Position in the ascending order of classes.
    pub open spec fn rank(self) -> nat {
        match self {
            PriorityClass::Idle => 0,
            PriorityClass::BelowNormal => 1,
            PriorityClass::Normal => 2,
            PriorityClass::AboveNormal => 3,
            PriorityClass::High => 4,
            PriorityClass::Realtime => 5,
        }
    }

    /// The number by which the operating system knows this class.
    pub open spec fn code(self) -> u32 {
        match self {
            PriorityClass::Idle => 0x40,
            PriorityClass::BelowNormal => 0x4000,
            PriorityClass::Normal => 0x20,
            PriorityClass::AboveNormal => 0x8000,
            PriorityClass::High => 0x80,
            PriorityClass::Realtime => 0x100,
        }
    }

    /// The class with the given number, if there is one.
    pub open spec fn of_code(code: u32) -> Option<PriorityClass> {
        if code == 0x40 {
            Some(PriorityClass::Idle)
        } else if code == 0x4000 {
            Some(PriorityClass::BelowNormal)
        } else if code == 0x20 {
            Some(PriorityClass::Normal)
        } else if code == 0x8000 {
            Some(PriorityClass::AboveNormal)
        } else if code == 0x80 {
            Some(PriorityClass::High)
        } else if code == 0x100 {
            Some(PriorityClass::Realtime)
        } else {
            None
        }
    }

    /// A class at which graphics work is scheduled ahead of ordinary
    /// processes.
    pub open spec fn gpu_friendly(self) -> bool {
        self == PriorityClass::AboveNormal || self == PriorityClass::High
    }

    /// Whether this class is `other` or a higher one.
    pub fn at_least(self, other: PriorityClass) -> (yes: bool)
        ensures
            yes == (self.rank() >= other.rank()),
    {
        self.position() >= other.position()
    }

    fn position(self) -> (rank: u8)
        ensures
            rank == self.rank(),
    {
        match self {
            PriorityClass::Idle => 0,
            PriorityClass::BelowNormal => 1,
            PriorityClass::Normal => 2,
            PriorityClass::AboveNormal => 3,
            PriorityClass::High => 4,
            PriorityClass::Realtime => 5,
        }
    }

    /// The number by which the operating system knows this class.
    pub fn to_code(self) -> (code: u32)
        ensures
            code == self.code(),
    {
        match self {
            PriorityClass::Idle => 0x40,
            PriorityClass::BelowNormal => 0x4000,
            PriorityClass::Normal => 0x20,
            PriorityClass::AboveNormal => 0x8000,
            PriorityClass::High => 0x80,
            PriorityClass::Realtime => 0x100,
        }
    }

    /// The class with the given number, if there is one.
    pub fn from_code(code: u32) -> (class: Option<PriorityClass>)
        ensures
            class == PriorityClass::of_code(code),
    {
        if code == 0x40 {
            Some(PriorityClass::Idle)
        } else if code == 0x4000 {
            Some(PriorityClass::BelowNormal)
        } else if code == 0x20 {
            Some(PriorityClass::Normal)
        } else if code == 0x8000 {
            Some(PriorityClass::AboveNormal)
        } else if code == 0x80 {
            Some(PriorityClass::High)
        } else if code == 0x100 {
            Some(PriorityClass::Realtime)
        } else {
            None
        }
    }

    /// Whether graphics work of a process at this class is scheduled ahead
    /// of ordinary processes.
    pub fn is_gpu_friendly(self) -> (yes: bool)
        ensures
            yes == self.gpu_friendly(),
    {
        match self {
            PriorityClass::AboveNormal => true,
            PriorityClass::High => true,
            _ => false,
        }
    }
}

/// What a handle to a process may be used for.
#[derive(Clone, Copy, Debug, PartialEq, Eq, Structural)]
pub struct AccessRights {
    pub query_information: bool,
    pub set_information: bool,
}

/// The rights that reading and setting a priority class need, and no others.
pub open spec fn minimal_rights() -> AccessRights {
    AccessRights { query_information: true, set_information: true }
}

/// One primitive of the operating system, to be performed by the caller.
#[derive(Clone, Copy, Debug, PartialEq, Eq, Structural)]
pub enum OsCommand {
    /// Acquire a handle to the process, with these rights only.
    OpenProcess { pid: u32, rights: AccessRights },
    /// Read the priority class through the handle.
    QueryPriority { pid: u32 },
    /// Set the priority class through the handle.
    SetPriority { pid: u32, class: PriorityClass },
    /// Give the handle back.
    CloseHandle { pid: u32 },
}

/// What came of a primitive.
#[derive(Debug, PartialEq, Eq)]
pub enum OsResponse {
    Opened,
    OpenFailed { reason: String },
    /// The number of the priority class that was read.
    Priority { code: u32 },
    PrioritySet,
    SetFailed { reason: String },
    Closed,
}

/// An `OsResponse` with its texts as character sequences.
pub enum OsResponseView {
    Opened,
    OpenFailed { reason: Seq<char> },
    Priority { code: u32 },
    PrioritySet,
    SetFailed { reason: Seq<char> },
    Closed,
}

impl View for OsResponse {
    type V = OsResponseView;

    open spec fn view(&self) -> OsResponseView {
        match *self {
            OsResponse::Opened => OsResponseView::Opened,
            OsResponse::OpenFailed { reason } => OsResponseView::OpenFailed { reason: reason@ },
            OsResponse::Priority { code } => OsResponseView::Priority { code },
            OsResponse::PrioritySet => OsResponseView::PrioritySet,
            OsResponse::SetFailed { reason } => OsResponseView::SetFailed { reason: reason@ },
            OsResponse::Closed => OsResponseView::Closed,
        }
    }
}

/// What the controller is asked to do to a process.
#[derive(Clone, Copy, Debug, PartialEq, Eq, Structural)]
pub enum PriorityGoal {
    /// Raise the process to this level unless it is there or higher.
    Boost(PriorityLevel),
    /// Bring an elevated process back to the normal class.
    Restore,
}

/// How a process was left by a session that did not fail.
#[derive(Clone, Copy, Debug, PartialEq, Eq, Structural)]
pub struct PriorityChange {
    /// The class of the process at the end, if it is a known one.
    pub class: Option<PriorityClass>,
    /// Whether the session set the priority class.
    pub mutated: bool,
}

/// The only class that a session with this goal ever sets.
pub open spec fn goal_class(goal: PriorityGoal) -> PriorityClass {
    match goal {
        PriorityGoal::Boost(level) => level.class(),
        PriorityGoal::Restore => PriorityClass::Normal,
    }
}

/// The class to set for `goal` on a process whose class reads `current`, or
/// `None` where the process is to be left alone.
pub open spec fn wanted_class(goal: PriorityGoal, current: Option<PriorityClass>) -> Option<
    PriorityClass,
> {
    match goal {
        PriorityGoal::Boost(level) => {
            if current is Some && current->0.rank() >= level.class().rank() {
                None
            } else {
                Some(level.class())
            }
        },
        PriorityGoal::Restore => {
            if current is Some && current->0.rank() >= PriorityClass::AboveNormal.rank() {
                Some(PriorityClass::Normal)
            } else {
                None
            }
        },
    }
}

/// Decides whether the priority class must be set, and to what.
///
/// A boost leaves alone a process that is at the target or above it; a
/// restoration leaves alone a process that is below `AboveNormal`. A class
/// that could not be read, or that is not a known one, counts as below
/// every known class.
pub fn decide(goal: PriorityGoal, current: Option<PriorityClass>) -> (class: Option<PriorityClass>)
    ensures
        class == wanted_class(goal, current),
{
    match goal {
        PriorityGoal::Boost(level) => {
            let target = level.to_class();
            match current {
                Some(now) => {
                    if now.at_least(target) {
                        None
                    } else {
                        Some(target)
                    }
                },
                None => Some(target),
            }
        },
        PriorityGoal::Restore => {
            match current {
                Some(now) => {
                    if now.at_least(PriorityClass::AboveNormal) {
                        Some(PriorityClass::Normal)
                    } else {
                        None
                    }
                },
                None => None,
            }
        },
    }
}

/// Where a session stands: which answer it waits for.
pub enum ControllerPhase {
    /// Waiting for the handle.
    Opening,
    /// Holding the handle, waiting for the priority class.
    Reading,
    /// Holding the handle, waiting for the priority class to be set.
    Setting { class: PriorityClass },
    /// Holding the handle, waiting for it to be taken back.
    Closing { outcome: Result<PriorityChange, BoosterErrorView> },
}

/// The state of a session of the controller.
pub struct ControllerState {
    pub pid: u32,
    pub goal: PriorityGoal,
    pub phase: ControllerPhase,
}

/// What a session does after an answer.
pub enum ControllerMove {
    /// The session goes on: perform this command next.
    Continue(ControllerState, OsCommand),
    /// The session is over, with this outcome.
    Finished(Result<PriorityChange, BoosterErrorView>),
}

impl ControllerState {
    /// The state in which a session starts.
    pub open spec fn start(pid: u32, goal: PriorityGoal) -> ControllerState {
        ControllerState { pid, goal, phase: ControllerPhase::Opening }
    }

    /// The command whose answer the session waits for.
    pub open spec fn pending(self) -> OsCommand {
        match self.phase {
            ControllerPhase::Opening => OsCommand::OpenProcess {
                pid: self.pid,
                rights: minimal_rights(),
            },
            ControllerPhase::Reading => OsCommand::QueryPriority { pid: self.pid },
            ControllerPhase::Setting { class } => OsCommand::SetPriority { pid: self.pid, class },
            ControllerPhase::Closing { outcome } => OsCommand::CloseHandle { pid: self.pid },
        }
    }

    /// Whether `response` answers the pending command.
    pub open spec fn answered_by(self, response: OsResponseView) -> bool {
        match self.phase {
            ControllerPhase::Opening => response is Opened || response is OpenFailed,
            ControllerPhase::Reading => response is Priority,
            ControllerPhase::Setting { class } => response is PrioritySet || response is SetFailed,
            ControllerPhase::Closing { outcome } => response is Closed,
        }
    }

    /// Whether the session holds a handle that must still be given back.
    pub open spec fn holds_handle(self) -> bool {
        !(self.phase is Opening)
    }

    /// How many answers the session still needs at most.
    pub open spec fn answers_left(self) -> nat {
        match self.phase {
            ControllerPhase::Opening => 4,
            ControllerPhase::Reading => 3,
            ControllerPhase::Setting { class } => 2,
            ControllerPhase::Closing { outcome } => 1,
        }
    }

    /// What holds of a session from its start: where it waits for a class
    /// to be set, that class is the one its goal names; and where it waits
    /// for the handle to be taken back after a failure, the failure is that
    /// of setting the class of its process.
    pub open spec fn consistent(self) -> bool {
        match self.phase {
            ControllerPhase::Setting { class } => class == goal_class(self.goal),
            ControllerPhase::Closing { outcome: Err(error) } => error is PrioritySetFailed
                && error->PrioritySetFailed_pid == self.pid,
            _ => true,
        }
    }

    /// The session in the given phase.
    pub open spec fn at(self, phase: ControllerPhase) -> ControllerState {
        ControllerState { pid: self.pid, goal: self.goal, phase }
    }

    /// The move that `response` leads to. An answer to another command than
    /// the pending one changes nothing: the pending command is issued again.
    pub open spec fn step(self, response: OsResponseView) -> ControllerMove {
        match (self.phase, response) {
            (ControllerPhase::Opening, OsResponseView::Opened) => {
                let next = self.at(ControllerPhase::Reading);
                ControllerMove::Continue(next, next.pending())
            },
            (ControllerPhase::Opening, OsResponseView::OpenFailed { reason }) => {
                ControllerMove::Finished(
                    Err(BoosterErrorView::ProcessOpenFailed { pid: self.pid, reason }),
                )
            },
            (ControllerPhase::Reading, OsResponseView::Priority { code }) => {
                let current = PriorityClass::of_code(code);
                let next = match wanted_class(self.goal, current) {
                    Some(class) => self.at(ControllerPhase::Setting { class }),
                    None => self.at(
                        ControllerPhase::Closing {
                            outcome: Ok(PriorityChange { class: current, mutated: false }),
                        },
                    ),
                };
                ControllerMove::Continue(next, next.pending())
            },
            (ControllerPhase::Setting { class }, OsResponseView::PrioritySet) => {
                let next = self.at(
                    ControllerPhase::Closing {
                        outcome: Ok(PriorityChange { class: Some(class), mutated: true }),
                    },
                );
                ControllerMove::Continue(next, next.pending())
            },
            (ControllerPhase::Setting { class }, OsResponseView::SetFailed { reason }) => {
                let next = self.at(
                    ControllerPhase::Closing {
                        outcome: Err(
                            BoosterErrorView::PrioritySetFailed { pid: self.pid, reason },
                        ),
                    },
                );
                ControllerMove::Continue(next, next.pending())
            },
            (ControllerPhase::Closing { outcome }, OsResponseView::Closed) => {
                ControllerMove::Finished(outcome)
            },
            _ => ControllerMove::Continue(self, self.pending()),
        }
    }
}

/// The outcome of a session: how the process was left, or why it failed.
pub type PriorityOutcome = Result<PriorityChange, BoosterError>;

/// The outcome with its texts as character sequences.
pub open spec fn outcome_view(outcome: PriorityOutcome) -> Result<
    PriorityChange,
    BoosterErrorView,
> {
    match outcome {
        Ok(change) => Ok(change),
        Err(error) => Err(error@),
    }
}

#[derive(Debug)]
enum Phase {
    Opening,
    Reading,
    Setting(PriorityClass),
    Closing(PriorityOutcome),
}

/// One session on one process: acquire a handle, read the priority class,
/// set it where the goal asks for that, and give the handle back.
#[derive(Debug)]
pub struct PriorityController {
    pid: u32,
    goal: PriorityGoal,
    phase: Phase,
}

/// What the caller does after handing an answer to the controller.
#[derive(Debug)]
pub enum ControllerStep {
    /// Perform this command and hand its answer to the controller.
    Continue(PriorityController, OsCommand),
    /// The session is over.
    Finished(PriorityOutcome),
}

impl View for PriorityController {
    type V = ControllerState;

    closed spec fn view(&self) -> ControllerState {
        ControllerState {
            pid: self.pid,
            goal: self.goal,
            phase: match self.phase {
                Phase::Opening => ControllerPhase::Opening,
                Phase::Reading => ControllerPhase::Reading,
                Phase::Setting(class) => ControllerPhase::Setting { class },
                Phase::Closing(outcome) => ControllerPhase::Closing {
                    outcome: outcome_view(outcome),
                },
            },
        }
    }
}

impl View for ControllerStep {
    type V = ControllerMove;

    open spec fn view(&self) -> ControllerMove {
        match *self {
            ControllerStep::Continue(controller, command) => ControllerMove::Continue(
                controller@,
                command,
            ),
            ControllerStep::Finished(outcome) => ControllerMove::Finished(outcome_view(outcome)),
        }
    }
}

impl PriorityController {
    /// Starts a session on `pid`. The first command asks for a handle with
    /// the rights to query and to set information, and no others.
    pub fn begin(pid: u32, goal: PriorityGoal) -> (session: (PriorityController, OsCommand))
        ensures
            session.0@ == ControllerState::start(pid, goal),
            session.1 == session.0@.pending(),
    {
        let controller = PriorityController { pid, goal, phase: Phase::Opening };
        let command = controller.pending();
        (controller, command)
    }

    /// The process that the session is about.
    pub fn pid(&self) -> (pid: u32)
        ensures
            pid == self@.pid,
    {
        self.pid
    }

    /// The command whose answer the session waits for.
    pub fn pending(&self) -> (command: OsCommand)
        ensures
            command == self@.pending(),
    {
        match &self.phase {
            Phase::Opening => OsCommand::OpenProcess {
                pid: self.pid,
                rights: AccessRights { query_information: true, set_information: true },
            },
            Phase::Reading => OsCommand::QueryPriority { pid: self.pid },
            Phase::Setting(class) => OsCommand::SetPriority { pid: self.pid, class: *class },
            Phase::Closing(_) => OsCommand::CloseHandle { pid: self.pid },
        }
    }

    /// Takes the answer to the pending command and says what to do next.
    pub fn step(self, response: OsResponse) -> (next: ControllerStep)
        ensures
            next@ == self@.step(response@),
    {
        let pid = self.pid;
        let goal = self.goal;
        match (self.phase, response) {
            (Phase::Opening, OsResponse::Opened) => {
                PriorityController { pid, goal, phase: Phase::Reading }.proceed()
            },
            (Phase::Opening, OsResponse::OpenFailed { reason }) => {
                ControllerStep::Finished(Err(BoosterError::ProcessOpenFailed { pid, reason }))
            },
            (Phase::Reading, OsResponse::Priority { code }) => {
                let current = PriorityClass::from_code(code);
                match decide(goal, current) {
                    Some(class) => PriorityController {
                        pid,
                        goal,
                        phase: Phase::Setting(class),
                    }.proceed(),
                    None => {
                        let unchanged = PriorityChange { class: current, mutated: false };
                        PriorityController { pid, goal, phase: Phase::Closing(Ok(unchanged)) }
                            .proceed()
                    },
                }
            },
            (Phase::Setting(class), OsResponse::PrioritySet) => {
                PriorityController {
                    pid,
                    goal,
                    phase: Phase::Closing(Ok(PriorityChange { class: Some(class), mutated: true })),
                }.proceed()
            },
            (Phase::Setting(_), OsResponse::SetFailed { reason }) => {
                PriorityController {
                    pid,
                    goal,
                    phase: Phase::Closing(Err(BoosterError::PrioritySetFailed { pid, reason })),
                }.proceed()
            },
            (Phase::Closing(outcome), OsResponse::Closed) => ControllerStep::Finished(outcome),
            (phase, _) => PriorityController { pid, goal, phase }.proceed(),
        }
    }

    fn proceed(self) -> (next: ControllerStep)
        ensures
            next@ == ControllerMove::Continue(self@, self@.pending()),
    {
        let command = self.pending();
        ControllerStep::Continue(self, command)
    }
}

/// The numbers of the classes are told apart: each class is found again
/// from its number, and a number stands for at most one class.
pub proof fn lemma_class_codes(class: PriorityClass, code: u32)
    ensures
        PriorityClass::of_code(class.code()) == Some(class),
        PriorityClass::of_code(code) == Some(class) ==> class.code() == code,
{
}

/// Boosting is idempotent: on a process whose class reads at the target or
/// above it, the session sets nothing, gives the handle back, and ends in
/// success with the class as it was read.
pub proof fn lemma_boost_idempotent(pid: u32, level: PriorityLevel, current: PriorityClass)
    requires
        current.rank() >= level.class().rank(),
    ensures
        ({
            let opened = ControllerState::start(pid, PriorityGoal::Boost(level)).step(
                OsResponseView::Opened,
            );
            let read = opened->Continue_0.step(OsResponseView::Priority { code: current.code() });
            let closed = read->Continue_0.step(OsResponseView::Closed);
            &&& opened == ControllerMove::Continue(
                opened->Continue_0,
                OsCommand::QueryPriority { pid },
            )
            &&& read == ControllerMove::Continue(
                read->Continue_0,
                OsCommand::CloseHandle { pid },
            )
            &&& closed == ControllerMove::Finished(
                Ok(PriorityChange { class: Some(current), mutated: false }),
            )
        }),
{
    lemma_class_codes(current, current.code());
}

/// Restoring is sound: on a process whose class does not read as
/// `AboveNormal` or higher, the session sets nothing, gives the handle back,
/// and ends in success.
pub proof fn lemma_restore_leaves_unelevated(pid: u32, code: u32)
    requires
        PriorityClass::of_code(code) is Some ==> PriorityClass::of_code(code)->0.rank()
            < PriorityClass::AboveNormal.rank(),
    ensures
        ({
            let opened = ControllerState::start(pid, PriorityGoal::Restore).step(
                OsResponseView::Opened,
            );
            let read = opened->Continue_0.step(OsResponseView::Priority { code });
            let closed = read->Continue_0.step(OsResponseView::Closed);
            &&& opened == ControllerMove::Continue(
                opened->Continue_0,
                OsCommand::QueryPriority { pid },
            )
            &&& read == ControllerMove::Continue(
                read->Continue_0,
                OsCommand::CloseHandle { pid },
            )
            &&& closed == ControllerMove::Finished(
                Ok(PriorityChange { class: PriorityClass::of_code(code), mutated: false }),
            )
        }),
{
}

/// A session stays consistent, and it stays with its process and its goal.
/// So it never sets a class other than the one its goal names: the target of
/// a boost, `Normal` for a restoration. And it never reports a failure for
/// another process than its own.
pub proof fn lemma_session_stays_consistent(state: ControllerState, response: OsResponseView)
    ensures
        ControllerState::start(state.pid, state.goal).consistent(),
        state.consistent() ==> match state.step(response) {
            ControllerMove::Continue(next, command) => {
                &&& next.consistent()
                &&& next.pid == state.pid
                &&& next.goal == state.goal
                &&& command == next.pending()
                &&& command matches OsCommand::SetPriority { pid, class } ==> pid == state.pid
                    && class == goal_class(state.goal)
            },
            ControllerMove::Finished(outcome) => outcome matches Err(error) ==> {
                ||| error is ProcessOpenFailed && error->ProcessOpenFailed_pid == state.pid
                ||| error is PrioritySetFailed && error->PrioritySetFailed_pid == state.pid
            },
        },
{
}

/// The handle is given back on every path. A session ends only where it
/// holds no handle: when none could be acquired, or when the handle was
/// taken back. Every answer to the pending command brings the end nearer,
/// and a session that holds a handle goes on holding it until then.
pub proof fn lemma_handle_released(state: ControllerState, response: OsResponseView)
    ensures
        state.step(response) is Finished ==> (!state.holds_handle() && response is OpenFailed)
            || (state.phase is Closing && response is Closed),
        state.answered_by(response) ==> match state.step(response) {
            ControllerMove::Continue(next, command) => next.answers_left() < state.answers_left()
                && next.holds_handle(),
            ControllerMove::Finished(_) => true,
        },
        !state.answered_by(response) ==> state.step(response) == ControllerMove::Continue(
            state,
            state.pending(),
        ),
        state.holds_handle() ==> match state.step(response) {
            ControllerMove::Continue(next, command) => next.holds_handle(),
            ControllerMove::Finished(_) => state.phase is Closing,
        },
{
}

} // verus!
