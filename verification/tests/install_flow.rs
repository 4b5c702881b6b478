use cli_framework::self_install::env::Os;
use cli_framework::self_install::install_flow::{
    install_begin, install_event_answers, install_step, InstallEvent, InstallPhase, InstallRun, InstallStep,
};
use cli_framework::self_install::ops::SelfInstallError;
use cli_framework::self_install::place::{PlaceMode, PlaceResult};
use cli_framework::self_install::receipt::ReceiptError;

fn begin(managed: bool, edit_path: bool, completions: bool, force: bool) -> (InstallRun, InstallStep) {
    install_begin(
        "/home/a/.local/bin/demo".to_string(),
        "/tmp/dl/demo".to_string(),
        "demo self".to_string(),
        Os::Linux,
        force,
        false,
        managed,
        edit_path,
        completions,
    )
}

fn placed() -> PlaceResult {
    PlaceResult { already_in_place: false, replaced_existing: false, parked_old: None }
}

#[test]
fn a_managed_install_writes_its_receipt_last() {
    let (run, step) = begin(true, true, true, false);
    assert!(matches!(step, InstallStep::LoadReceipt));
    let (run, step) = install_step(run, InstallEvent::Loaded(Ok(None)));
    assert!(matches!(step, InstallStep::InspectDest { ref dest } if dest == "/home/a/.local/bin/demo"));
    assert!(!install_event_answers(&run, &InstallEvent::ReceiptSaved));
    let (run, step) = install_step(run, InstallEvent::Inspected { dest_exists: false, running_is_dest: false });
    assert!(matches!(step, InstallStep::PlaceBinary { mode: PlaceMode::Copy, ref from, .. } if from == "/tmp/dl/demo"));
    let (run, step) = install_step(run, InstallEvent::Placed(placed()));
    assert!(matches!(step, InstallStep::EditPath));
    let (run, step) = install_step(run, InstallEvent::PathEdited);
    assert!(matches!(step, InstallStep::WriteCompletions));
    let (run, step) = install_step(run, InstallEvent::CompletionsWritten);
    assert!(matches!(step, InstallStep::SaveReceipt));
    let (run, step) = install_step(run, InstallEvent::ReceiptSaved);
    assert!(matches!(step, InstallStep::Stop(Ok(()))));
    assert_eq!(run.phase, InstallPhase::Done);
}

#[test]
fn an_unmanaged_install_keeps_no_receipt() {
    let (run, step) = begin(false, false, true, false);
    assert!(matches!(step, InstallStep::InspectDest { .. }));
    let (run, _) = install_step(run, InstallEvent::Inspected { dest_exists: true, running_is_dest: true });
    let (_, step) = install_step(run, InstallEvent::Placed(placed()));
    assert!(matches!(step, InstallStep::Stop(Ok(()))));
}

#[test]
fn a_foreign_file_is_not_replaced_without_force() {
    let (run, _) = begin(false, false, false, false);
    let (run, step) = install_step(run, InstallEvent::Inspected { dest_exists: true, running_is_dest: false });
    match step {
        InstallStep::Stop(Err(SelfInstallError::ForeignBinary { path, invocation })) => {
            assert_eq!(path, "/home/a/.local/bin/demo");
            assert_eq!(invocation, "demo self");
        }
        other => panic!("unexpected {other:?}"),
    }
    assert!(run.placed.is_none());
    let (run, _) = begin(false, false, false, true);
    let (_, step) = install_step(run, InstallEvent::Inspected { dest_exists: true, running_is_dest: false });
    assert!(matches!(step, InstallStep::PlaceBinary { .. }));
}

#[test]
fn an_unreadable_receipt_stops_unless_forced() {
    let bad = || Err(ReceiptError::Invalid { path: "/r".to_string(), reason: "x".to_string() });
    let (run, _) = begin(true, false, false, false);
    let (_, step) = install_step(run, InstallEvent::Loaded(bad()));
    assert!(matches!(step, InstallStep::Stop(Err(SelfInstallError::Receipt(_)))));
    let (run, _) = begin(true, false, false, true);
    let (_, step) = install_step(run, InstallEvent::Loaded(bad()));
    assert!(matches!(step, InstallStep::InspectDest { .. }));
}
