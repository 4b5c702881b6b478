use cli_framework::self_install::ops::SelfInstallError;
use cli_framework::self_install::rollback_flow::{
    rollback_begin, rollback_event_answers, rollback_step, RollbackEvent, RollbackPhase, RollbackStep,
};

fn begin() -> cli_framework::self_install::rollback_flow::RollbackRun {
    let (run, step) = rollback_begin("/b/demo".to_string(), "/b/demo.prev".to_string(), "/b/.demo.hold".to_string());
    assert!(matches!(step, RollbackStep::AcquireLock));
    run
}

#[test]
fn a_rollback_swaps_then_records() {
    let (run, step) = rollback_step(begin(), RollbackEvent::Locked);
    assert!(matches!(step, RollbackStep::HoldCurrent { ref from, ref to } if from == "/b/demo" && to == "/b/.demo.hold"));
    let (run, step) = rollback_step(run, RollbackEvent::Held);
    assert!(matches!(step, RollbackStep::PlacePrevious { ref from, ref to } if from == "/b/demo.prev" && to == "/b/demo"));
    assert!(!rollback_event_answers(&run, &RollbackEvent::ReceiptSaved));
    let (run, step) = rollback_step(run, RollbackEvent::Placed);
    assert!(matches!(step, RollbackStep::KeepReplaced { ref from, ref to } if from == "/b/.demo.hold" && to == "/b/demo.prev"));
    let (run, step) = rollback_step(run, RollbackEvent::Kept);
    assert!(matches!(step, RollbackStep::SaveReceipt));
    let (run, step) = rollback_step(run, RollbackEvent::ReceiptSaved);
    assert!(matches!(step, RollbackStep::Stop(Ok(()))));
    assert_eq!(run.phase, RollbackPhase::Done);
}

#[test]
fn a_failed_placement_discards_the_copy() {
    let (run, _) = rollback_step(begin(), RollbackEvent::Locked);
    let (run, _) = rollback_step(run, RollbackEvent::Held);
    let (run, step) = rollback_step(run, RollbackEvent::PlaceFailed("busy".to_string()));
    match step {
        RollbackStep::Abandon { hold, error: SelfInstallError::Place { path, message } } => {
            assert_eq!(hold, "/b/.demo.hold");
            assert_eq!(path, "/b/demo");
            assert_eq!(message, "busy");
        }
        other => panic!("unexpected {other:?}"),
    }
    assert!(!run.placed);
}
