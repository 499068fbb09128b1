//! Locking the user's sessions.
//!
//! The sessions of the user are visited in order, every one of them. A
//! session is locked where it can be reached, is of the class "user" and is
//! known not to be a text console. The run succeeds where at least one lock
//! succeeded. What fails on one session is passed over and never ends the
//! run: a path that the bus rejects, a session that cannot be reached, a
//! class or a type that cannot be read, a lock that fails.
//!
//! `LockRun` holds the decisions. Its caller talks to the bus: it does what
//! each `LockStep` asks and hands back what came of it.

use vstd::prelude::*;
use vstd::string::*;

verus! {

/// The class of a login session.
#[derive(Debug, Clone, Copy, PartialEq, Eq, Structural)]
pub enum SessionClass {
    User,
    Greeter,
    LockScreen,
    Manager,
}

/// The type of a login session.
#[derive(Debug, Clone, Copy, PartialEq, Eq, Structural)]
pub enum SessionType {
    X11,
    Wayland,
    MIR,
    TTY,
    Unspecified,
}

/// Why locking failed, as plain values.
pub enum LockErrorView {
    NoSessionLocked,
    Bus(Seq<char>),
}

/// Why locking failed.
#[derive(Debug, PartialEq, Eq)]
pub enum LockError {
    /// No session was locked: none was eligible, or every lock failed.
    NoSessionLocked,
    /// The bus reported an error before the sessions were known: the
    /// connection, the user or the list of sessions could not be had. Its
    /// text.
    Bus(String),
}

impl DeepView for LockError {
    type V = LockErrorView;

    open spec fn deep_view(&self) -> LockErrorView {
        match self {
            LockError::NoSessionLocked => LockErrorView::NoSessionLocked,
            LockError::Bus(e) => LockErrorView::Bus(e@),
        }
    }
}

impl View for LockError {
    type V = LockErrorView;

    open spec fn view(&self) -> LockErrorView {
        self.deep_view()
    }
}

/// The text of an error.
pub open spec fn error_text(e: LockErrorView) -> Seq<char> {
    match e {
        LockErrorView::NoSessionLocked => "locking session failed"@,
        LockErrorView::Bus(text) => text,
    }
}

impl LockError {
    /// The text that describes the error.
    pub fn message(&self) -> (text: String)
        ensures
            text@ == error_text(self@),
    {
        match self {
            LockError::NoSessionLocked => "locking session failed".to_owned(),
            LockError::Bus(e) => e.clone(),
        }
    }
}

/// What came of opening a session.
#[derive(Debug, PartialEq, Eq)]
pub enum Opening {
    /// The bus rejected the session's path; the error's text. The session
    /// is passed over.
    PathRejected(String),
    /// The session could not be reached.
    Unreachable,
    /// The session is open.
    Opened,
}

/// What came of one request made for a `LockStep`.
#[derive(Debug, PartialEq, Eq)]
pub enum SessionEvent {
    /// The answer to `LockStep::Open`.
    Open(Opening),
    /// The answer to `LockStep::ReadClass`: the class, or none where it
    /// could not be read.
    Class(Option<SessionClass>),
    /// The answer to `LockStep::ReadType`: the type, or the error's text
    /// where it could not be read. A session of unknown type is passed
    /// over.
    Type(Result<SessionType, String>),
    /// The answer to `LockStep::Lock`: whether the lock succeeded.
    Locked(bool),
}

/// What the run asks for next.
#[derive(Debug, PartialEq, Eq)]
pub enum LockStep {
    /// Open the session at this position.
    Open(usize),
    /// Read the class of the session at this position.
    ReadClass(usize),
    /// Read the type of the session at this position.
    ReadType(usize),
    /// Lock the session at this position.
    Lock(usize),
    /// The run is over, with this result.
    Done(Result<(), LockError>),
    /// The event was not the answer to the request that is open. The run
    /// has not moved.
    Unexpected,
}

/// Where a run stands with the session at hand.
#[derive(Debug, Clone, Copy, PartialEq, Eq, Structural)]
pub enum Phase {
    Opening,
    Class,
    Type,
    Locking,
    Finished,
}

/// A run over the user's sessions.
#[derive(Debug, Clone, Copy, PartialEq, Eq, Structural)]
pub struct LockRun {
    /// How many sessions the user has.
    pub total: usize,
    /// The position of the session at hand.
    pub index: usize,
    /// Whether a lock has succeeded so far.
    pub locked: bool,
    pub phase: Phase,
}

/// A step as plain values.
pub enum LockStepView {
    Open(usize),
    ReadClass(usize),
    ReadType(usize),
    Lock(usize),
    Done(Result<(), LockErrorView>),
    Unexpected,
}

impl DeepView for LockStep {
    type V = LockStepView;

    open spec fn deep_view(&self) -> LockStepView {
        match self {
            LockStep::Open(i) => LockStepView::Open(*i),
            LockStep::ReadClass(i) => LockStepView::ReadClass(*i),
            LockStep::ReadType(i) => LockStepView::ReadType(*i),
            LockStep::Lock(i) => LockStepView::Lock(*i),
            LockStep::Done(r) => LockStepView::Done(result_view(*r)),
            LockStep::Unexpected => LockStepView::Unexpected,
        }
    }
}

impl View for LockStep {
    type V = LockStepView;

    open spec fn view(&self) -> LockStepView {
        self.deep_view()
    }
}

/// A result as plain values.
pub open spec fn result_view(r: Result<(), LockError>) -> Result<(), LockErrorView> {
    match r {
        Ok(()) => Ok(()),
        Err(e) => Err(e@),
    }
}

/// The result of a run that has visited every session.
pub open spec fn verdict(locked: bool) -> Result<(), LockErrorView> {
    if locked {
        Ok(())
    } else {
        Err(LockErrorView::NoSessionLocked)
    }
}

/// The run before its first request, and that request.
pub open spec fn spec_start(total: usize) -> (LockRun, LockStepView) {
    if total == 0 {
        (
            LockRun { total, index: 0, locked: false, phase: Phase::Finished },
            LockStepView::Done(verdict(false)),
        )
    } else {
        (LockRun { total, index: 0, locked: false, phase: Phase::Opening }, LockStepView::Open(0))
    }
}

/// The run after it is done with the session at hand, `locked` saying
/// whether a lock has succeeded by now.
pub open spec fn spec_advance(run: LockRun, locked: bool) -> (LockRun, LockStepView) {
    if run.index + 1 < run.total {
        (
            LockRun {
                total: run.total,
                index: (run.index + 1) as usize,
                locked,
                phase: Phase::Opening,
            },
            LockStepView::Open((run.index + 1) as usize),
        )
    } else {
        (
            LockRun { total: run.total, index: run.index, locked, phase: Phase::Finished },
            LockStepView::Done(verdict(locked)),
        )
    }
}

/// The run in the given phase, with the session at hand unchanged.
pub open spec fn in_phase(run: LockRun, phase: Phase) -> LockRun {
    LockRun { total: run.total, index: run.index, locked: run.locked, phase }
}

/// The run after `event`, and what it asks for next.
pub open spec fn spec_step(run: LockRun, event: SessionEvent) -> (LockRun, LockStepView) {
    match (run.phase, event) {
        (Phase::Opening, SessionEvent::Open(Opening::PathRejected(_))) => spec_advance(
            run,
            run.locked,
        ),
        (Phase::Opening, SessionEvent::Open(Opening::Unreachable)) => spec_advance(
            run,
            run.locked,
        ),
        (Phase::Opening, SessionEvent::Open(Opening::Opened)) => (
            in_phase(run, Phase::Class),
            LockStepView::ReadClass(run.index),
        ),
        (Phase::Class, SessionEvent::Class(class)) => if class == Some(SessionClass::User) {
            (in_phase(run, Phase::Type), LockStepView::ReadType(run.index))
        } else {
            spec_advance(run, run.locked)
        },
        (Phase::Type, SessionEvent::Type(Err(_))) => spec_advance(run, run.locked),
        (Phase::Type, SessionEvent::Type(Ok(kind))) => if kind != SessionType::TTY {
            (in_phase(run, Phase::Locking), LockStepView::Lock(run.index))
        } else {
            spec_advance(run, run.locked)
        },
        (Phase::Locking, SessionEvent::Locked(ok)) => spec_advance(run, run.locked || ok),
        _ => (run, LockStepView::Unexpected),
    }
}

impl LockRun {
    /// Begins a run over `total` sessions. With no session there is
    /// nothing to lock, and the run is over at once.
    pub fn start(total: usize) -> (begun: (LockRun, LockStep))
        ensures
            begun.0 == spec_start(total).0,
            begun.1@ == spec_start(total).1,
    {
        if total == 0 {
            (
                LockRun { total, index: 0, locked: false, phase: Phase::Finished },
                LockStep::Done(Err(LockError::NoSessionLocked)),
            )
        } else {
            (LockRun { total, index: 0, locked: false, phase: Phase::Opening }, LockStep::Open(0))
        }
    }

    fn advance(&mut self, locked: bool) -> (next: LockStep)
        ensures
            *final(self) == spec_advance(*old(self), locked).0,
            next@ == spec_advance(*old(self), locked).1,
    {
        self.locked = locked;
        if self.index < self.total && self.index + 1 < self.total {
            self.index = self.index + 1;
            self.phase = Phase::Opening;
            LockStep::Open(self.index)
        } else {
            self.phase = Phase::Finished;
            if locked {
                LockStep::Done(Ok(()))
            } else {
                LockStep::Done(Err(LockError::NoSessionLocked))
            }
        }
    }

    /// Takes the answer to the open request and says what to do next.
    pub fn step(&mut self, event: SessionEvent) -> (next: LockStep)
        ensures
            *final(self) == spec_step(*old(self), event).0,
            next@ == spec_step(*old(self), event).1,
    {
        match (self.phase, event) {
            (Phase::Opening, SessionEvent::Open(Opening::PathRejected(_))) => {
                let locked = self.locked;
                self.advance(locked)
            },
            (Phase::Opening, SessionEvent::Open(Opening::Unreachable)) => {
                let locked = self.locked;
                self.advance(locked)
            },
            (Phase::Opening, SessionEvent::Open(Opening::Opened)) => {
                self.phase = Phase::Class;
                LockStep::ReadClass(self.index)
            },
            (Phase::Class, SessionEvent::Class(class)) => {
                let is_user = match class {
                    Some(SessionClass::User) => true,
                    _ => false,
                };
                if is_user {
                    self.phase = Phase::Type;
                    LockStep::ReadType(self.index)
                } else {
                    let locked = self.locked;
                    self.advance(locked)
                }
            },
            (Phase::Type, SessionEvent::Type(Err(_))) => {
                let locked = self.locked;
                self.advance(locked)
            },
            (Phase::Type, SessionEvent::Type(Ok(kind))) => {
                if kind != SessionType::TTY {
                    self.phase = Phase::Locking;
                    LockStep::Lock(self.index)
                } else {
                    let locked = self.locked;
                    self.advance(locked)
                }
            },
            (Phase::Locking, SessionEvent::Locked(ok)) => {
                let locked = self.locked || ok;
                self.advance(locked)
            },
            _ => LockStep::Unexpected,
        }
    }
}

/// What the bus answers for one session, request by request. An answer
/// that the run never asks for is not looked at.
#[derive(Debug, PartialEq, Eq)]
pub struct SessionReport {
    pub opening: Opening,
    pub class: Option<SessionClass>,
    pub kind: Result<SessionType, String>,
    pub lock_ok: bool,
}

/// Whether the run tries to lock the session.
pub open spec fn eligible(r: SessionReport) -> bool {
    &&& r.opening is Opened
    &&& r.class == Some(SessionClass::User)
    &&& r.kind matches Ok(kind)
    &&& kind != SessionType::TTY
}

/// Whether one of the first `upto` sessions is eligible and was locked
/// with success.
pub open spec fn any_locked(reports: Seq<SessionReport>, upto: int) -> bool {
    exists|k: int|
        0 <= k < upto && k < reports.len() && eligible(#[trigger] reports[k]) && reports[k].lock_ok
}

/// The result of a run over sessions that answer as `reports` say: success
/// where an eligible session was locked with success, whatever came of the
/// other sessions.
pub open spec fn outcome(reports: Seq<SessionReport>) -> Result<(), LockErrorView> {
    verdict(any_locked(reports, reports.len() as int))
}

spec fn rank(phase: Phase) -> int {
    match phase {
        Phase::Opening => 4,
        Phase::Class => 3,
        Phase::Type => 2,
        Phase::Locking => 1,
        Phase::Finished => 0,
    }
}

/// That `step` is the request which `run` has open over `reports`, and that
/// what has been learned so far agrees with the reports.
spec fn on_track(reports: Seq<SessionReport>, run: LockRun, step: LockStepView) -> bool {
    &&& run.total == reports.len()
    &&& match step {
        LockStepView::Open(i) => {
            &&& run.phase == Phase::Opening
            &&& i == run.index < run.total
            &&& run.locked == any_locked(reports, i as int)
        },
        LockStepView::ReadClass(i) => {
            &&& run.phase == Phase::Class
            &&& i == run.index < run.total
            &&& run.locked == any_locked(reports, i as int)
            &&& reports[i as int].opening is Opened
        },
        LockStepView::ReadType(i) => {
            &&& run.phase == Phase::Type
            &&& i == run.index < run.total
            &&& run.locked == any_locked(reports, i as int)
            &&& reports[i as int].opening is Opened
            &&& reports[i as int].class == Some(SessionClass::User)
        },
        LockStepView::Lock(i) => {
            &&& run.phase == Phase::Locking
            &&& i == run.index < run.total
            &&& run.locked == any_locked(reports, i as int)
            &&& eligible(reports[i as int])
        },
        LockStepView::Done(r) => r == outcome(reports),
        LockStepView::Unexpected => false,
    }
}

impl Clone for Opening {
    fn clone(&self) -> (copy: Self)
        ensures
            copy == *self,
    {
        match self {
            Opening::PathRejected(e) => Opening::PathRejected(e.clone()),
            Opening::Unreachable => Opening::Unreachable,
            Opening::Opened => Opening::Opened,
        }
    }
}

/// Runs over sessions whose answers are known beforehand, and gives the
/// run's result.
pub fn lock_sessions(reports: &Vec<SessionReport>) -> (result: Result<(), LockError>)
    ensures
        result_view(result) == outcome(reports@),
{
    let (mut run, mut step) = LockRun::start(reports.len());
    loop
        invariant
            on_track(reports@, run, step@),
        decreases (run.total - run.index) * 4 + rank(run.phase),
    {
        let event = match step {
            LockStep::Open(i) => SessionEvent::Open(reports[i].opening.clone()),
            LockStep::ReadClass(i) => SessionEvent::Class(reports[i].class),
            LockStep::ReadType(i) => SessionEvent::Type(
                match &reports[i].kind {
                    Ok(kind) => Ok(*kind),
                    Err(e) => Err(e.clone()),
                },
            ),
            LockStep::Lock(i) => SessionEvent::Locked(reports[i].lock_ok),
            LockStep::Done(result) => {
                return result;
            },
            LockStep::Unexpected => {
                return Err(LockError::NoSessionLocked);
            },
        };
        step = run.step(event);
    }
}

/// One eligible session whose lock succeeds is enough for success,
/// whatever the other sessions do.
pub proof fn lemma_one_lock_suffices(reports: Seq<SessionReport>, i: int)
    requires
        0 <= i < reports.len(),
        eligible(reports[i]),
        reports[i].lock_ok,
    ensures
        outcome(reports) == Ok::<(), LockErrorView>(()),
{
}

/// The run fails where no eligible session was locked with success, and
/// the failure says so.
pub proof fn lemma_no_lock_fails(reports: Seq<SessionReport>)
    requires
        forall|k: int|
            0 <= k < reports.len() ==> !(eligible(#[trigger] reports[k]) && reports[k].lock_ok),
    ensures
        outcome(reports) == Err::<(), LockErrorView>(LockErrorView::NoSessionLocked),
        error_text(outcome(reports)->Err_0) == "locking session failed"@,
{
}

/// The run succeeds exactly where an eligible session was locked with
/// success: a failure on one session never undoes the success on another.
pub proof fn lemma_success_iff_one_lock(reports: Seq<SessionReport>)
    ensures
        outcome(reports) is Ok <==> exists|k: int|
            0 <= k < reports.len() && eligible(#[trigger] reports[k]) && reports[k].lock_ok,
{
}

} // verus!
