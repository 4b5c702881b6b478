use cli_framework::self_install::archive::{sha256_hex, ArchiveError};
use cli_framework::self_install::ops::SelfInstallError;
use cli_framework::self_install::release::ResolvedRelease;
use cli_framework::self_install::update::UpdateAction;
use cli_framework::self_install::update_flow::{
    event_answers, update_begin, update_step, UpdateEvent, UpdatePhase, UpdateRun, UpdateStep,
};
use cli_framework::self_install::version::SemVer;

fn release(signature_url: Option<&str>) -> ResolvedRelease {
    ResolvedRelease {
        version: SemVer::parse("1.2.0").unwrap(),
        tag: "v1.2.0".to_string(),
        asset: "demo.tar.gz".to_string(),
        asset_url: "https://example.com/demo.tar.gz".to_string(),
        sums_url: "https://example.com/SHA256SUMS".to_string(),
        signature_url: signature_url.map(str::to_string),
        via_api: false,
    }
}

fn tar_gz(entries: &[(&str, &[u8])]) -> Vec<u8> {
    let enc = flate2::write::GzEncoder::new(Vec::new(), flate2::Compression::default());
    let mut b = tar::Builder::new(enc);
    for (name, data) in entries {
        let mut h = tar::Header::new_gnu();
        h.set_path(name).unwrap();
        h.set_size(data.len() as u64);
        h.set_mode(0o755);
        h.set_cksum();
        b.append(&h, *data).unwrap();
    }
    b.into_inner().unwrap().finish().unwrap()
}

fn started(signature_url: Option<&str>, key: Option<&str>) -> UpdateRun {
    let (run, step) = update_begin(Ok(None), release(signature_url), key.map(str::to_string), "demo".to_string());
    assert!(matches!(step, UpdateStep::AcquireLock));
    run.unwrap()
}

#[test]
fn an_answer_before_the_lock_downloads_nothing() {
    let (run, step) = update_begin(Ok(Some(UpdateAction::Available)), release(None), None, "demo".to_string());
    assert!(run.is_none());
    assert!(matches!(step, UpdateStep::Stop(Ok(UpdateAction::Available))));
    let (run, step) = update_begin(Err(SelfInstallError::BadRequest("no".to_string())), release(None), None, "demo".to_string());
    assert!(run.is_none());
    assert!(matches!(step, UpdateStep::Stop(Err(SelfInstallError::BadRequest(_)))));
}

#[test]
fn an_unsigned_update_runs_through_in_order() {
    let data = tar_gz(&[("demo-1.2.0/demo", b"\x7fELF")]);
    let sums = format!("{}  demo.tar.gz\n", sha256_hex(&data));
    let run = started(None, None);
    let (run, step) = update_step(run, UpdateEvent::Locked);
    assert!(matches!(step, UpdateStep::FetchSums { ref url, via_api: false } if url == "https://example.com/SHA256SUMS"));
    let (run, step) = update_step(run, UpdateEvent::SumsFetched(sums));
    assert!(matches!(step, UpdateStep::FetchArchive { ref url, .. } if url == "https://example.com/demo.tar.gz"));
    assert!(!event_answers(&run, &UpdateEvent::Kept));
    let (run, step) = update_step(run, UpdateEvent::ArchiveFetched(data));
    match step {
        UpdateStep::Stage(bin) => assert_eq!(bin, b"\x7fELF"),
        other => panic!("unexpected {other:?}"),
    }
    let (run, step) = update_step(run, UpdateEvent::Reported(SemVer::parse("1.2.0").unwrap()));
    assert!(matches!(step, UpdateStep::KeepPrevious));
    let (run, step) = update_step(run, UpdateEvent::Kept);
    assert!(matches!(step, UpdateStep::PlaceBinary));
    assert!(!run.placed);
    let (run, step) = update_step(run, UpdateEvent::Placed);
    assert!(matches!(step, UpdateStep::SaveReceipt));
    let (run, step) = update_step(run, UpdateEvent::ReceiptSaved);
    assert!(matches!(step, UpdateStep::Stop(Ok(UpdateAction::Updated))));
    assert!(matches!(run.phase, UpdatePhase::Done));
}

#[test]
fn a_tampered_archive_stops_before_staging() {
    let data = tar_gz(&[("demo", b"\x7fELF")]);
    let sums = format!("{}  demo.tar.gz\n", "0".repeat(64));
    let (run, _) = update_step(started(None, None), UpdateEvent::Locked);
    let (run, _) = update_step(run, UpdateEvent::SumsFetched(sums));
    let (run, step) = update_step(run, UpdateEvent::ArchiveFetched(data));
    assert!(matches!(step, UpdateStep::Stop(Err(SelfInstallError::Verify(ArchiveError::Mismatch { .. })))));
    assert!(!run.checksum_checked);
}

#[test]
fn a_signed_app_refuses_a_release_without_a_signature() {
    let key = "RWQf6LRCGA9i53mlYecO4IzT51TGPpvWucNSCh1CBM0QTaLn73Y7GFO3";
    let (run, _) = update_step(started(None, Some(key)), UpdateEvent::Locked);
    let (_, step) = update_step(run, UpdateEvent::SumsFetched("x  demo.tar.gz\n".to_string()));
    match step {
        UpdateStep::Stop(Err(SelfInstallError::Verify(ArchiveError::Unsigned(m)))) => assert_eq!(m, "release v1.2.0"),
        other => panic!("unexpected {other:?}"),
    }
    let (run, _) = update_step(started(Some("https://example.com/SHA256SUMS.minisig"), Some(key)), UpdateEvent::Locked);
    let (run, step) = update_step(run, UpdateEvent::SumsFetched("x  demo.tar.gz\n".to_string()));
    assert!(matches!(step, UpdateStep::FetchSignature { .. }));
    let (run, step) = update_step(run, UpdateEvent::SignatureFetched(Some("not a signature".to_string())));
    assert!(matches!(step, UpdateStep::Stop(Err(SelfInstallError::Verify(ArchiveError::BadSignature(_))))));
    assert!(!run.signature_checked);
}

#[test]
fn a_binary_reporting_another_version_is_not_installed() {
    let data = tar_gz(&[("demo", b"\x7fELF")]);
    let sums = format!("{}  demo.tar.gz\n", sha256_hex(&data));
    let (run, _) = update_step(started(None, None), UpdateEvent::Locked);
    let (run, _) = update_step(run, UpdateEvent::SumsFetched(sums));
    let (run, _) = update_step(run, UpdateEvent::ArchiveFetched(data));
    let (run, step) = update_step(run, UpdateEvent::Reported(SemVer::parse("1.1.0").unwrap()));
    assert!(matches!(step, UpdateStep::Stop(Err(SelfInstallError::BadRelease(_)))));
    assert!(!run.placed);
}
