//! The part of `self install` that touches the disk, once the request is
//! checked and the bin dir chosen, as a machine that decides each step from
//! what the last one returned: the receipt is read (for a managed
//! install), the destination is inspected and a foreign file refused, the
//! binary is placed, the user's PATH is edited when asked, completions are
//! written, and the receipt is written last, once the binary is in place.

use crate::self_install::env::Os;
use crate::self_install::layout::{same_path, same_path_spec};
use crate::self_install::ops::SelfInstallError;
use crate::self_install::place::{PlaceMode, PlaceResult};
use crate::self_install::receipt::{InstallReceipt, ReceiptError};
use crate::self_install::steps::{check_foreign, place_mode, previous_receipt};
use vstd::prelude::*;

verus! {

/// Where an install stands.
#[derive(Debug, Clone, Copy, PartialEq, Eq, Structural)]
pub enum InstallPhase {
    LoadingReceipt,
    Inspecting,
    Placing,
    EditingPath,
    InstallingCompletions,
    SavingReceipt,
    Done,
}

/// An install in progress.
#[derive(Debug)]
pub struct InstallRun {
    pub phase: InstallPhase,
    /// Where the binary goes.
    pub dest: String,
    /// The running binary, which is what gets placed.
    pub current_exe: String,
    pub invocation: String,
    pub os: Os,
    pub force: bool,
    pub from_bootstrap: bool,
    /// Whether a receipt is kept (not `--unmanaged`).
    pub managed: bool,
    /// Whether the user's PATH is to be edited.
    pub edit_path: bool,
    /// Whether completion files are to be written.
    pub completions: bool,
    /// The receipt an earlier install left, once read.
    pub previous: Option<InstallReceipt>,
    /// The destination was found not to be a foreign file (or `--force`).
    pub foreign_checked: bool,
    /// The binary is in place.
    pub placed: Option<PlaceResult>,
}

/// What the caller reports after performing a step.
#[derive(Debug)]
pub enum InstallEvent {
    Loaded(Result<Option<InstallReceipt>, ReceiptError>),
    Inspected { dest_exists: bool, running_is_dest: bool },
    Placed(PlaceResult),
    PathEdited,
    CompletionsWritten,
    ReceiptSaved,
    Failed(SelfInstallError),
}

/// The next step for the caller to perform.
#[derive(Debug)]
pub enum InstallStep {
    LoadReceipt,
    /// Whether `dest` exists and is the running binary.
    InspectDest { dest: String },
    PlaceBinary { from: String, to: String, mode: PlaceMode },
    EditPath,
    WriteCompletions,
    /// Build the receipt (over the previous one) and write it.
    SaveReceipt,
    Stop(Result<(), SelfInstallError>),
}

/// The work done so far, in the order it is done.
pub open spec fn install_ok(run: InstallRun) -> bool {
    &&& run.placed is Some ==> run.foreign_checked
    &&& match run.phase {
        InstallPhase::LoadingReceipt => run.managed && !run.foreign_checked,
        InstallPhase::Inspecting => !run.foreign_checked,
        InstallPhase::Placing => run.foreign_checked && run.placed is None,
        InstallPhase::EditingPath => run.placed is Some && run.edit_path,
        InstallPhase::InstallingCompletions => run.placed is Some && run.managed,
        InstallPhase::SavingReceipt => run.placed is Some && run.managed,
        InstallPhase::Done => true,
    }
}

/// Whether an event answers the step a phase waits on (a failure answers
/// any).
pub open spec fn install_answers(phase: InstallPhase, event: InstallEvent) -> bool {
    match (phase, event) {
        (_, InstallEvent::Failed(_)) => true,
        (InstallPhase::LoadingReceipt, InstallEvent::Loaded(_)) => true,
        (InstallPhase::Inspecting, InstallEvent::Inspected { .. }) => true,
        (InstallPhase::Placing, InstallEvent::Placed(_)) => true,
        (InstallPhase::EditingPath, InstallEvent::PathEdited) => true,
        (InstallPhase::InstallingCompletions, InstallEvent::CompletionsWritten) => true,
        (InstallPhase::SavingReceipt, InstallEvent::ReceiptSaved) => true,
        _ => false,
    }
}

/// Whether the caller may hand this event to `install_step` now.
pub fn install_event_answers(run: &InstallRun, event: &InstallEvent) -> (r: bool)
    ensures
        r == install_answers(run.phase, *event),
{
    match (run.phase, event) {
        (_, InstallEvent::Failed(_)) => true,
        (InstallPhase::LoadingReceipt, InstallEvent::Loaded(_)) => true,
        (InstallPhase::Inspecting, InstallEvent::Inspected { .. }) => true,
        (InstallPhase::Placing, InstallEvent::Placed(_)) => true,
        (InstallPhase::EditingPath, InstallEvent::PathEdited) => true,
        (InstallPhase::InstallingCompletions, InstallEvent::CompletionsWritten) => true,
        (InstallPhase::SavingReceipt, InstallEvent::ReceiptSaved) => true,
        _ => false,
    }
}

/// How an install starts: a managed one reads its receipt first; an
/// unmanaged one inspects the destination at once.
pub fn install_begin(
    dest: String,
    current_exe: String,
    invocation: String,
    os: Os,
    force: bool,
    from_bootstrap: bool,
    managed: bool,
    edit_path: bool,
    completions: bool,
) -> (r: (InstallRun, InstallStep))
    ensures
        install_ok(r.0),
        r.0.dest == dest && r.0.current_exe == current_exe && r.0.invocation == invocation && r.0.os
            == os && r.0.force == force && r.0.from_bootstrap == from_bootstrap && r.0.managed
            == managed && r.0.edit_path == edit_path && r.0.completions == completions,
        r.0.previous is None && r.0.placed is None,
        install_awaits(r.0.phase, r.1),
        managed ==> r.1 is LoadReceipt && r.0.phase == InstallPhase::LoadingReceipt,
        !managed ==> r.1 == (InstallStep::InspectDest { dest }) && r.0.phase == InstallPhase::Inspecting,
{
    let phase = if managed {
        InstallPhase::LoadingReceipt
    } else {
        InstallPhase::Inspecting
    };
    let step = if managed {
        InstallStep::LoadReceipt
    } else {
        InstallStep::InspectDest { dest: dest.clone() }
    };
    (
        InstallRun {
            phase,
            dest,
            current_exe,
            invocation,
            os,
            force,
            from_bootstrap,
            managed,
            edit_path,
            completions,
            previous: None,
            foreign_checked: false,
            placed: None,
        },
        step,
    )
}

/// What follows the placed binary: the PATH edit when asked, then for a
/// managed install the completions when asked and the receipt.
pub open spec fn after_place(phase: InstallPhase, edit_path: bool, managed: bool, completions: bool) -> bool {
    match phase {
        InstallPhase::EditingPath => edit_path,
        InstallPhase::InstallingCompletions => !edit_path && managed && completions,
        InstallPhase::SavingReceipt => !edit_path && managed && !completions,
        InstallPhase::Done => !edit_path && !managed,
        _ => false,
    }
}

/// Whether the destination already holds this app's recorded binary.
pub open spec fn ours(previous: Option<InstallReceipt>, dest: Seq<char>, os: Os) -> bool {
    match previous {
        Some(p) => same_path_spec(p.binary_path@, dest, os),
        None => false,
    }
}

/// The phase that waits on a step's answer.
pub open spec fn install_awaits(phase: InstallPhase, step: InstallStep) -> bool {
    match step {
        InstallStep::LoadReceipt => phase == InstallPhase::LoadingReceipt,
        InstallStep::InspectDest { .. } => phase == InstallPhase::Inspecting,
        InstallStep::PlaceBinary { .. } => phase == InstallPhase::Placing,
        InstallStep::EditPath => phase == InstallPhase::EditingPath,
        InstallStep::WriteCompletions => phase == InstallPhase::InstallingCompletions,
        InstallStep::SaveReceipt => phase == InstallPhase::SavingReceipt,
        InstallStep::Stop(_) => phase == InstallPhase::Done,
    }
}

/// What each answer leads to.
pub open spec fn install_answer(run: InstallRun, event: InstallEvent, next: InstallRun, step: InstallStep) -> bool {
    match event {
        InstallEvent::Failed(e) => step == InstallStep::Stop(Err(e)),
        InstallEvent::Loaded(loaded) => match loaded {
            Ok(p) => next.previous == p && step == (InstallStep::InspectDest { dest: run.dest }),
            Err(_) => if run.force {
                next.previous is None && step == (InstallStep::InspectDest { dest: run.dest })
            } else {
                step matches InstallStep::Stop(Err(SelfInstallError::Receipt(_)))
            },
        },
        InstallEvent::Inspected { dest_exists, running_is_dest } => if dest_exists && !running_is_dest
            && !ours(run.previous, run.dest@, run.os) && !run.force {
            step matches InstallStep::Stop(Err(SelfInstallError::ForeignBinary { path, invocation }))
                && path@ == run.dest@ && invocation@ == run.invocation@
        } else {
            step == (InstallStep::PlaceBinary {
                from: run.current_exe,
                to: run.dest,
                mode: if run.from_bootstrap {
                    PlaceMode::Move
                } else {
                    PlaceMode::Copy
                },
            })
        },
        InstallEvent::Placed(p) => next.placed == Some(p) && after_place(
            next.phase,
            run.edit_path,
            run.managed,
            run.completions,
        ) && (next.phase == InstallPhase::Done ==> step == InstallStep::Stop(Ok(()))),
        InstallEvent::PathEdited => if run.managed {
            if run.completions {
                step is WriteCompletions
            } else {
                step is SaveReceipt
            }
        } else {
            step == InstallStep::Stop(Ok(()))
        },
        InstallEvent::CompletionsWritten => step is SaveReceipt,
        InstallEvent::ReceiptSaved => step == InstallStep::Stop(Ok(())),
    }
}

fn after_placed(run: InstallRun) -> (r: (InstallRun, InstallStep))
    requires
        run.placed is Some,
        run.foreign_checked,
    ensures
        install_ok(r.0),
        r.0.placed == run.placed && r.0.previous == run.previous && r.0.dest == run.dest && r.0.managed
            == run.managed && r.0.edit_path == run.edit_path && r.0.completions == run.completions
            && r.0.force == run.force && r.0.os == run.os && r.0.current_exe == run.current_exe
            && r.0.invocation == run.invocation && r.0.from_bootstrap == run.from_bootstrap,
        after_place(r.0.phase, run.edit_path, run.managed, run.completions),
        r.0.phase == InstallPhase::EditingPath ==> r.1 is EditPath,
        r.0.phase == InstallPhase::InstallingCompletions ==> r.1 is WriteCompletions,
        r.0.phase == InstallPhase::SavingReceipt ==> r.1 is SaveReceipt,
        r.0.phase == InstallPhase::Done ==> r.1 == InstallStep::Stop(Ok(())),
{
    if run.edit_path {
        (InstallRun { phase: InstallPhase::EditingPath, ..run }, InstallStep::EditPath)
    } else if !run.managed {
        (InstallRun { phase: InstallPhase::Done, ..run }, InstallStep::Stop(Ok(())))
    } else if run.completions {
        (InstallRun { phase: InstallPhase::InstallingCompletions, ..run }, InstallStep::WriteCompletions)
    } else {
        (InstallRun { phase: InstallPhase::SavingReceipt, ..run }, InstallStep::SaveReceipt)
    }
}

/// The next step of an install, from where it stands and what the last
/// step gave.
pub fn install_step(run: InstallRun, event: InstallEvent) -> (r: (InstallRun, InstallStep))
    requires
        install_ok(run),
        install_answers(run.phase, event),
        run.phase != InstallPhase::Done,
    ensures
        install_ok(r.0),
        r.0.dest == run.dest && r.0.managed == run.managed && r.0.os == run.os,
        (r.1 is PlaceBinary ==> r.0.foreign_checked),
        (r.1 is SaveReceipt ==> r.0.placed is Some && r.0.managed),
        (r.1 matches InstallStep::Stop(Ok(_)) ==> r.0.placed is Some),
        (r.1 is Stop <==> r.0.phase == InstallPhase::Done),
        install_awaits(r.0.phase, r.1),
        install_answer(run, event, r.0, r.1),
{
    let stop = |run: InstallRun| -> (d: InstallRun)
        ensures
            d.phase == InstallPhase::Done && d.dest == run.dest && d.managed == run.managed && d.os
                == run.os && d.placed == run.placed && d.foreign_checked == run.foreign_checked,
        { InstallRun { phase: InstallPhase::Done, ..run } };
    match event {
        InstallEvent::Failed(e) => (stop(run), InstallStep::Stop(Err(e))),
        InstallEvent::Loaded(loaded) => match previous_receipt(loaded, run.force) {
            Err(e) => (stop(run), InstallStep::Stop(Err(e))),
            Ok(p) => {
                let dest = run.dest.clone();
                (
                    InstallRun { phase: InstallPhase::Inspecting, previous: p, ..run },
                    InstallStep::InspectDest { dest },
                )
            },
        },
        InstallEvent::Inspected { dest_exists, running_is_dest } => {
            let is_ours = match &run.previous {
                Some(p) => same_path(p.binary_path.as_str(), run.dest.as_str(), run.os),
                None => false,
            };
            match check_foreign(
                run.dest.as_str(),
                dest_exists,
                running_is_dest,
                is_ours,
                run.force,
                run.invocation.as_str(),
            ) {
                Err(e) => (stop(run), InstallStep::Stop(Err(e))),
                Ok(()) => {
                    let from = run.current_exe.clone();
                    let to = run.dest.clone();
                    let mode = place_mode(run.from_bootstrap, false);
                    (
                        InstallRun { phase: InstallPhase::Placing, foreign_checked: true, ..run },
                        InstallStep::PlaceBinary { from, to, mode },
                    )
                },
            }
        },
        InstallEvent::Placed(p) => after_placed(InstallRun { placed: Some(p), ..run }),
        InstallEvent::PathEdited => {
            if !run.managed {
                (InstallRun { phase: InstallPhase::Done, ..run }, InstallStep::Stop(Ok(())))
            } else if run.completions {
                (InstallRun { phase: InstallPhase::InstallingCompletions, ..run }, InstallStep::WriteCompletions)
            } else {
                (InstallRun { phase: InstallPhase::SavingReceipt, ..run }, InstallStep::SaveReceipt)
            }
        },
        InstallEvent::CompletionsWritten => (
            InstallRun { phase: InstallPhase::SavingReceipt, ..run },
            InstallStep::SaveReceipt,
        ),
        InstallEvent::ReceiptSaved => (
            InstallRun { phase: InstallPhase::Done, ..run },
            InstallStep::Stop(Ok(())),
        ),
    }
}

} // verus!
