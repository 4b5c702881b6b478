//! The part of `self rollback` that touches the disk, as a machine that
//! decides each step from what the last one returned: under the lock, the
//! current binary is copied aside, the kept `.prev` is put in place, the
//! copy becomes the new `.prev`, and only then is the receipt written. A
//! failed placement removes the copy and leaves everything else as it was.

use crate::self_install::ops::SelfInstallError;
use vstd::prelude::*;

verus! {

/// Where a rollback stands.
#[derive(Debug, Clone, Copy, PartialEq, Eq, Structural)]
pub enum RollbackPhase {
    Locking,
    Holding,
    Placing,
    Keeping,
    SavingReceipt,
    Done,
}

/// A rollback in progress.
#[derive(Debug)]
pub struct RollbackRun {
    pub phase: RollbackPhase,
    /// The installed binary.
    pub dest: String,
    /// The kept previous binary.
    pub prev: String,
    /// Where the current binary is copied while the previous one is placed.
    pub hold: String,
    /// The current binary has been copied to `hold`.
    pub held: bool,
    /// The previous binary is in place.
    pub placed: bool,
    /// The replaced binary is the new `.prev`.
    pub kept: bool,
}

/// What the caller reports after performing a step.
#[derive(Debug)]
pub enum RollbackEvent {
    Locked,
    Held,
    Placed,
    /// Putting the previous binary in place failed, with this message.
    PlaceFailed(String),
    Kept,
    ReceiptSaved,
    Failed(SelfInstallError),
}

/// The next step for the caller to perform.
#[derive(Debug)]
pub enum RollbackStep {
    AcquireLock,
    /// Copy `dest` to `hold`.
    HoldCurrent { from: String, to: String },
    /// Put `prev` in place of `dest`.
    PlacePrevious { from: String, to: String },
    /// Rename `hold` to `prev`, not executable.
    KeepReplaced { from: String, to: String },
    SaveReceipt,
    /// Remove the copy at `hold`, then stop with the error.
    Abandon { hold: String, error: SelfInstallError },
    Stop(Result<(), SelfInstallError>),
}

/// The work done so far, in the order it is done.
pub open spec fn rollback_ok(run: RollbackRun) -> bool {
    &&& run.placed ==> run.held
    &&& run.kept ==> run.placed
    &&& match run.phase {
        RollbackPhase::Locking | RollbackPhase::Holding => !run.held,
        RollbackPhase::Placing => run.held && !run.placed,
        RollbackPhase::Keeping => run.placed && !run.kept,
        RollbackPhase::SavingReceipt => run.kept,
        RollbackPhase::Done => true,
    }
}

/// Whether an event answers the step a phase waits on (a failure answers
/// any).
pub open spec fn rollback_answers(phase: RollbackPhase, event: RollbackEvent) -> bool {
    match (phase, event) {
        (_, RollbackEvent::Failed(_)) => true,
        (RollbackPhase::Locking, RollbackEvent::Locked) => true,
        (RollbackPhase::Holding, RollbackEvent::Held) => true,
        (RollbackPhase::Placing, RollbackEvent::Placed) => true,
        (RollbackPhase::Placing, RollbackEvent::PlaceFailed(_)) => true,
        (RollbackPhase::Keeping, RollbackEvent::Kept) => true,
        (RollbackPhase::SavingReceipt, RollbackEvent::ReceiptSaved) => true,
        _ => false,
    }
}

/// Whether the caller may hand this event to `rollback_step` now.
pub fn rollback_event_answers(run: &RollbackRun, event: &RollbackEvent) -> (r: bool)
    ensures
        r == rollback_answers(run.phase, *event),
{
    match (run.phase, event) {
        (_, RollbackEvent::Failed(_)) => true,
        (RollbackPhase::Locking, RollbackEvent::Locked) => true,
        (RollbackPhase::Holding, RollbackEvent::Held) => true,
        (RollbackPhase::Placing, RollbackEvent::Placed) => true,
        (RollbackPhase::Placing, RollbackEvent::PlaceFailed(_)) => true,
        (RollbackPhase::Keeping, RollbackEvent::Kept) => true,
        (RollbackPhase::SavingReceipt, RollbackEvent::ReceiptSaved) => true,
        _ => false,
    }
}

/// A rollback the checks allowed starts by taking the lock.
pub fn rollback_begin(dest: String, prev: String, hold: String) -> (r: (RollbackRun, RollbackStep))
    ensures
        r.0.phase == RollbackPhase::Locking,
        rollback_ok(r.0),
        r.0.dest == dest && r.0.prev == prev && r.0.hold == hold,
        r.1 is AcquireLock,
        rollback_awaits(r.0.phase, r.1),
{
    (
        RollbackRun { phase: RollbackPhase::Locking, dest, prev, hold, held: false, placed: false, kept: false },
        RollbackStep::AcquireLock,
    )
}

/// The phase that waits on a step's answer.
pub open spec fn rollback_awaits(phase: RollbackPhase, step: RollbackStep) -> bool {
    match step {
        RollbackStep::AcquireLock => phase == RollbackPhase::Locking,
        RollbackStep::HoldCurrent { .. } => phase == RollbackPhase::Holding,
        RollbackStep::PlacePrevious { .. } => phase == RollbackPhase::Placing,
        RollbackStep::KeepReplaced { .. } => phase == RollbackPhase::Keeping,
        RollbackStep::SaveReceipt => phase == RollbackPhase::SavingReceipt,
        RollbackStep::Abandon { .. } => phase == RollbackPhase::Done,
        RollbackStep::Stop(_) => phase == RollbackPhase::Done,
    }
}

/// What each answer leads to.
pub open spec fn rollback_answer(run: RollbackRun, event: RollbackEvent, step: RollbackStep) -> bool {
    match event {
        RollbackEvent::Failed(e) => step == RollbackStep::Stop(Err(e)),
        RollbackEvent::Locked => step == (RollbackStep::HoldCurrent { from: run.dest, to: run.hold }),
        RollbackEvent::Held => step == (RollbackStep::PlacePrevious { from: run.prev, to: run.dest }),
        RollbackEvent::PlaceFailed(m) => step == (RollbackStep::Abandon {
            hold: run.hold,
            error: SelfInstallError::Place { path: run.dest, message: m },
        }),
        RollbackEvent::Placed => step == (RollbackStep::KeepReplaced { from: run.hold, to: run.prev }),
        RollbackEvent::Kept => step is SaveReceipt,
        RollbackEvent::ReceiptSaved => step == RollbackStep::Stop(Ok(())),
    }
}

/// The next step of a rollback, from where it stands and what the last
/// step gave.
pub fn rollback_step(run: RollbackRun, event: RollbackEvent) -> (r: (RollbackRun, RollbackStep))
    requires
        rollback_ok(run),
        rollback_answers(run.phase, event),
        run.phase != RollbackPhase::Done,
    ensures
        rollback_ok(r.0),
        r.0.dest == run.dest && r.0.prev == run.prev && r.0.hold == run.hold,
        (r.1 is PlacePrevious ==> r.0.held),
        (r.1 is KeepReplaced ==> r.0.placed),
        (r.1 is SaveReceipt ==> r.0.kept),
        (r.1 is Abandon ==> !r.0.placed),
        (r.1 matches RollbackStep::Stop(Ok(_)) ==> r.0.kept && run.phase == RollbackPhase::SavingReceipt),
        (r.1 is Stop || r.1 is Abandon <==> r.0.phase == RollbackPhase::Done),
        rollback_awaits(r.0.phase, r.1),
        rollback_answer(run, event, r.1),
{
    match event {
        RollbackEvent::Failed(e) => (RollbackRun { phase: RollbackPhase::Done, ..run }, RollbackStep::Stop(Err(e))),
        RollbackEvent::Locked => {
            let from = run.dest.clone();
            let to = run.hold.clone();
            (RollbackRun { phase: RollbackPhase::Holding, ..run }, RollbackStep::HoldCurrent { from, to })
        },
        RollbackEvent::Held => {
            let from = run.prev.clone();
            let to = run.dest.clone();
            (
                RollbackRun { phase: RollbackPhase::Placing, held: true, ..run },
                RollbackStep::PlacePrevious { from, to },
            )
        },
        RollbackEvent::PlaceFailed(message) => {
            let hold = run.hold.clone();
            let path = run.dest.clone();
            (
                RollbackRun { phase: RollbackPhase::Done, ..run },
                RollbackStep::Abandon { hold, error: SelfInstallError::Place { path, message } },
            )
        },
        RollbackEvent::Placed => {
            let from = run.hold.clone();
            let to = run.prev.clone();
            (
                RollbackRun { phase: RollbackPhase::Keeping, placed: true, ..run },
                RollbackStep::KeepReplaced { from, to },
            )
        },
        RollbackEvent::Kept => (
            RollbackRun { phase: RollbackPhase::SavingReceipt, kept: true, ..run },
            RollbackStep::SaveReceipt,
        ),
        RollbackEvent::ReceiptSaved => (
            RollbackRun { phase: RollbackPhase::Done, ..run },
            RollbackStep::Stop(Ok(())),
        ),
    }
}

} // verus!
