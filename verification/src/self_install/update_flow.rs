//! The part of `self update` that touches the disk and the network, as a
//! machine that decides each step from what the last one returned. The
//! caller performs each step and hands back what happened; the machine
//! keeps the order: the lock before anything is fetched, the signature over
//! `SHA256SUMS` before the archive is fetched, the checksum before the
//! binary is staged, the staged binary's own version before the installed
//! one is touched, and the receipt only once the new binary is in place.

use crate::self_install::archive::{
    digest_in, extract_binary, extracted, hex_lower, lines_of, sha256_of, signature_good, verify_checksum,
    verify_signature, ArchiveError,
};
use crate::self_install::ops::SelfInstallError;
use crate::self_install::release::ResolvedRelease;
use crate::self_install::update::{check_reported, UpdateAction};
use crate::self_install::version::{semver_cmp, SemVer};
use crate::text::{owned, push_str};
use vstd::prelude::*;

verus! {

/// Where a release update stands.
#[derive(Debug)]
pub enum UpdatePhase {
    /// Waiting for the update lock.
    Locking,
    /// Waiting for `SHA256SUMS`.
    FetchingSums,
    /// Waiting for `SHA256SUMS.minisig`.
    FetchingSignature { sums: String },
    /// Waiting for the archive.
    FetchingArchive { sums: String },
    /// The binary is staged; waiting for the version it reports.
    Probing,
    /// Waiting for the current binary to be kept as `.prev`.
    KeepingPrevious,
    /// Waiting for the new binary to be put in place.
    Placing,
    /// Waiting for the receipt to be written.
    SavingReceipt,
    /// Finished: updated, or stopped on an error.
    Done,
}

/// A release update in progress.
#[derive(Debug)]
pub struct UpdateRun {
    pub phase: UpdatePhase,
    pub release: ResolvedRelease,
    /// The application's minisign public key, when it signs its releases.
    pub public_key: Option<String>,
    /// The binary's file name inside the archive.
    pub binary: String,
    /// The sums' signature was verified (or no key asks for one).
    pub signature_checked: bool,
    /// The archive matched its line in the sums.
    pub checksum_checked: bool,
    /// The staged binary reported the release's version.
    pub version_checked: bool,
    /// The new binary is in place.
    pub placed: bool,
}

/// What the caller reports after performing a step.
#[derive(Debug)]
pub enum UpdateEvent {
    Locked,
    SumsFetched(String),
    /// The signature's text, or `None` when the release serves none.
    SignatureFetched(Option<String>),
    ArchiveFetched(Vec<u8>),
    /// The version the staged binary reports.
    Reported(SemVer),
    Kept,
    Placed,
    ReceiptSaved,
    /// The step failed.
    Failed(SelfInstallError),
}

/// The next step for the caller to perform.
#[derive(Debug)]
pub enum UpdateStep {
    AcquireLock,
    FetchSums { url: String, via_api: bool },
    FetchSignature { url: String, via_api: bool },
    FetchArchive { url: String, via_api: bool },
    /// Write these bytes as the staged binary and ask it for its version.
    Stage(Vec<u8>),
    KeepPrevious,
    PlaceBinary,
    SaveReceipt,
    /// Stop: updated, or the error that ended the update.
    Stop(Result<UpdateAction, SelfInstallError>),
}

/// The checks an update has passed, in the order it passes them.
pub open spec fn flags_ok(run: UpdateRun) -> bool {
    &&& run.checksum_checked ==> run.signature_checked
    &&& run.version_checked ==> run.checksum_checked
    &&& run.placed ==> run.version_checked
    &&& match run.phase {
        UpdatePhase::Locking | UpdatePhase::FetchingSums | UpdatePhase::FetchingSignature { .. } =>
            !run.signature_checked,
        UpdatePhase::FetchingArchive { .. } => run.signature_checked && !run.checksum_checked,
        UpdatePhase::Probing => run.checksum_checked && !run.version_checked,
        UpdatePhase::KeepingPrevious | UpdatePhase::Placing => run.version_checked && !run.placed,
        UpdatePhase::SavingReceipt => run.placed,
        UpdatePhase::Done => true,
    }
}

/// Whether an event answers the step a phase waits on (a failure answers
/// any).
pub open spec fn answers(phase: UpdatePhase, event: UpdateEvent) -> bool {
    match (phase, event) {
        (_, UpdateEvent::Failed(_)) => true,
        (UpdatePhase::Locking, UpdateEvent::Locked) => true,
        (UpdatePhase::FetchingSums, UpdateEvent::SumsFetched(_)) => true,
        (UpdatePhase::FetchingSignature { .. }, UpdateEvent::SignatureFetched(_)) => true,
        (UpdatePhase::FetchingArchive { .. }, UpdateEvent::ArchiveFetched(_)) => true,
        (UpdatePhase::Probing, UpdateEvent::Reported(_)) => true,
        (UpdatePhase::KeepingPrevious, UpdateEvent::Kept) => true,
        (UpdatePhase::Placing, UpdateEvent::Placed) => true,
        (UpdatePhase::SavingReceipt, UpdateEvent::ReceiptSaved) => true,
        _ => false,
    }
}

/// Whether the caller may hand this event to `update_step` now.
pub fn event_answers(run: &UpdateRun, event: &UpdateEvent) -> (r: bool)
    ensures
        r == answers(run.phase, *event),
{
    match (&run.phase, event) {
        (_, UpdateEvent::Failed(_)) => true,
        (UpdatePhase::Locking, UpdateEvent::Locked) => true,
        (UpdatePhase::FetchingSums, UpdateEvent::SumsFetched(_)) => true,
        (UpdatePhase::FetchingSignature { .. }, UpdateEvent::SignatureFetched(_)) => true,
        (UpdatePhase::FetchingArchive { .. }, UpdateEvent::ArchiveFetched(_)) => true,
        (UpdatePhase::Probing, UpdateEvent::Reported(_)) => true,
        (UpdatePhase::KeepingPrevious, UpdateEvent::Kept) => true,
        (UpdatePhase::Placing, UpdateEvent::Placed) => true,
        (UpdatePhase::SavingReceipt, UpdateEvent::ReceiptSaved) => true,
        _ => false,
    }
}

/// What an update decided once the target was known: an answer (up to
/// date, available) or a refusal ends it before the lock is taken or
/// anything is downloaded; otherwise the lock comes first.
pub fn update_begin(
    verdict: Result<Option<UpdateAction>, SelfInstallError>,
    release: ResolvedRelease,
    public_key: Option<String>,
    binary: String,
) -> (r: (Option<UpdateRun>, UpdateStep))
    ensures
        match verdict {
            Ok(None) => r.0 matches Some(run) && run.phase is Locking && awaits(run.phase, r.1) && flags_ok(run)
                && run.release == release && run.public_key == public_key && run.binary == binary
                && r.1 is AcquireLock,
            Ok(Some(a)) => r.0 is None && r.1 == UpdateStep::Stop(Ok(a)),
            Err(e) => r.0 is None && r.1 == UpdateStep::Stop(Err(e)),
        },
{
    match verdict {
        Ok(None) => (
            Some(
                UpdateRun {
                    phase: UpdatePhase::Locking,
                    release,
                    public_key,
                    binary,
                    signature_checked: false,
                    checksum_checked: false,
                    version_checked: false,
                    placed: false,
                },
            ),
            UpdateStep::AcquireLock,
        ),
        Ok(Some(a)) => (None, UpdateStep::Stop(Ok(a))),
        Err(e) => (None, UpdateStep::Stop(Err(e))),
    }
}

/// The error of a release that serves no signature to an application
/// that only accepts signed releases.
fn unsigned(tag: &str) -> (e: SelfInstallError)
    ensures
        e matches SelfInstallError::Verify(ArchiveError::Unsigned(m)) && m@ == "release "@ + tag@,
{
    let mut m = owned("release ");
    push_str(&mut m, tag);
    SelfInstallError::Verify(ArchiveError::Unsigned(m))
}

/// `SHA256SUMS` after a check of its signature, when the application signs
/// its releases: the archive is fetched next, or the update stops.
fn after_signature(run: UpdateRun, sums: String) -> (r: (UpdateRun, UpdateStep))
    requires
        flags_ok(run),
        !run.signature_checked,
    ensures
        flags_ok(r.0),
        r.0.release == run.release && r.0.public_key == run.public_key && r.0.binary == run.binary,
        r.1 == (UpdateStep::FetchArchive { url: run.release.asset_url, via_api: run.release.via_api }),
        r.0.signature_checked,
        r.0.phase == (UpdatePhase::FetchingArchive { sums }),
{
    let url = run.release.asset_url.clone();
    let via_api = run.release.via_api;
    let next = UpdateRun {
        phase: UpdatePhase::FetchingArchive { sums },
        signature_checked: true,
        ..run
    };
    (next, UpdateStep::FetchArchive { url, via_api })
}

/// What each answer leads to: a failure stops the update with its error;
/// the lock leads to the sums; the sums to the signature when the
/// application signs its releases (stopping when the release serves none),
/// else to the archive; a good signature to the archive; the archive, when
/// it matches its line in the sums, to the staged binary; a binary that
/// reports the release's version to keeping the previous one; then placing,
/// the receipt, and done.
pub open spec fn step_answer(run: UpdateRun, event: UpdateEvent, step: UpdateStep) -> bool {
    match event {
        UpdateEvent::Failed(e) => step == UpdateStep::Stop(Err(e)),
        UpdateEvent::Locked => step == (UpdateStep::FetchSums {
            url: run.release.sums_url,
            via_api: run.release.via_api,
        }),
        UpdateEvent::SumsFetched(s) => match (run.public_key, run.release.signature_url) {
            (None, _) => step == (UpdateStep::FetchArchive {
                url: run.release.asset_url,
                via_api: run.release.via_api,
            }),
            (Some(_), None) => step matches UpdateStep::Stop(
                Err(SelfInstallError::Verify(ArchiveError::Unsigned(m))),
            ) && m@ == "release "@ + run.release.tag@,
            (Some(_), Some(u)) => step == (UpdateStep::FetchSignature {
                url: u,
                via_api: run.release.via_api,
            }),
        },
        UpdateEvent::SignatureFetched(g) => match (run.phase, run.public_key, g) {
            (UpdatePhase::FetchingSignature { sums }, Some(key), Some(sig)) => if signature_good(
                vstd::utf8::encode_utf8(sums@),
                sig@,
                key@,
            ) {
                step == (UpdateStep::FetchArchive {
                    url: run.release.asset_url,
                    via_api: run.release.via_api,
                })
            } else if !crate::self_install::archive::key_parses(key@) {
                step matches UpdateStep::Stop(Err(SelfInstallError::Verify(ArchiveError::BadPublicKey(_))))
            } else {
                step matches UpdateStep::Stop(Err(SelfInstallError::Verify(ArchiveError::BadSignature(_))))
            },
            (_, _, None) => step matches UpdateStep::Stop(
                Err(SelfInstallError::Verify(ArchiveError::Unsigned(m))),
            ) && m@ == "release "@ + run.release.tag@,
            _ => true,
        },
        UpdateEvent::ArchiveFetched(data) => match run.phase {
            UpdatePhase::FetchingArchive { sums } => match digest_in(
                lines_of(sums@),
                run.release.asset@,
            ) {
                Some(d) => if hex_lower(sha256_of(data@)) == d {
                    exists|x: Result<Vec<u8>, ArchiveError>|
                        #[trigger] extracted(run.release.asset@, run.release.asset@, data@, run.binary@, x)
                            && step == match x {
                            Ok(b) => UpdateStep::Stage(b),
                            Err(e) => UpdateStep::Stop(Err(SelfInstallError::Verify(e))),
                        }
                } else {
                    step matches UpdateStep::Stop(Err(SelfInstallError::Verify(ArchiveError::Mismatch { .. })))
                },
                None => step matches UpdateStep::Stop(Err(SelfInstallError::Verify(ArchiveError::NotListed { .. }))),
            },
            _ => true,
        },
        UpdateEvent::Reported(v) => if semver_cmp(v.source(), run.release.version.source()) == 0 {
            step is KeepPrevious
        } else {
            step matches UpdateStep::Stop(Err(SelfInstallError::BadRelease(_)))
        },
        UpdateEvent::Kept => step is PlaceBinary,
        UpdateEvent::Placed => step is SaveReceipt,
        UpdateEvent::ReceiptSaved => step == UpdateStep::Stop(Ok(UpdateAction::Updated)),
    }
}

/// The phase that waits on a step's answer.
pub open spec fn awaits(phase: UpdatePhase, step: UpdateStep) -> bool {
    match step {
        UpdateStep::AcquireLock => phase is Locking,
        UpdateStep::FetchSums { .. } => phase is FetchingSums,
        UpdateStep::FetchSignature { .. } => phase is FetchingSignature,
        UpdateStep::FetchArchive { .. } => phase is FetchingArchive,
        UpdateStep::Stage(_) => phase is Probing,
        UpdateStep::KeepPrevious => phase is KeepingPrevious,
        UpdateStep::PlaceBinary => phase is Placing,
        UpdateStep::SaveReceipt => phase is SavingReceipt,
        UpdateStep::Stop(_) => phase is Done,
    }
}

/// The sums a phase holds are the ones fetched: those just answered, or
/// those the signature was checked over.
pub open spec fn sums_carried(run: UpdateRun, event: UpdateEvent, next: UpdatePhase) -> bool {
    match event {
        UpdateEvent::SumsFetched(s) => match next {
            UpdatePhase::FetchingSignature { sums } => sums == s,
            UpdatePhase::FetchingArchive { sums } => sums == s,
            _ => true,
        },
        UpdateEvent::SignatureFetched(_) => match next {
            UpdatePhase::FetchingArchive { sums } => run.phase == (UpdatePhase::FetchingSignature { sums }),
            _ => true,
        },
        _ => true,
    }
}

/// The next step of an update, from where it stands and what the last step
/// gave. A failed step stops it with that step's error.
pub fn update_step(run: UpdateRun, event: UpdateEvent) -> (r: (UpdateRun, UpdateStep))
    requires
        flags_ok(run),
        answers(run.phase, event),
        !(run.phase is Done),
    ensures
        flags_ok(r.0),
        r.0.release == run.release && r.0.public_key == run.public_key && r.0.binary == run.binary,
        (r.1 is FetchSums ==> run.phase is Locking),
        (r.1 is FetchArchive ==> r.0.signature_checked),
        (r.1 is Stage ==> r.0.checksum_checked),
        (r.1 is KeepPrevious || r.1 is PlaceBinary ==> r.0.version_checked),
        (r.1 is SaveReceipt ==> r.0.placed),
        (r.1 matches UpdateStep::Stop(Ok(a)) ==> (a == UpdateAction::Updated && r.0.placed
            && run.phase is SavingReceipt)),
        (r.1 is Stop <==> r.0.phase is Done),
        awaits(r.0.phase, r.1),
        sums_carried(run, event, r.0.phase),
        step_answer(run, event, r.1),
{
    let stop = |run: UpdateRun| -> (d: UpdateRun)
        ensures
            d.phase is Done && d.release == run.release && d.public_key == run.public_key && d.binary
                == run.binary && d.signature_checked == run.signature_checked && d.checksum_checked
                == run.checksum_checked && d.version_checked == run.version_checked && d.placed
                == run.placed,
        { UpdateRun { phase: UpdatePhase::Done, ..run } };
    match event {
        UpdateEvent::Failed(e) => (stop(run), UpdateStep::Stop(Err(e))),
        UpdateEvent::Locked => {
            let url = run.release.sums_url.clone();
            let via_api = run.release.via_api;
            (UpdateRun { phase: UpdatePhase::FetchingSums, ..run }, UpdateStep::FetchSums { url, via_api })
        },
        UpdateEvent::SumsFetched(sums) => {
            match &run.public_key {
                None => after_signature(run, sums),
                Some(_) => match &run.release.signature_url {
                    None => {
                        let e = unsigned(run.release.tag.as_str());
                        (stop(run), UpdateStep::Stop(Err(e)))
                    },
                    Some(u) => {
                        let url = u.clone();
                        let via_api = run.release.via_api;
                        (
                            UpdateRun { phase: UpdatePhase::FetchingSignature { sums }, ..run },
                            UpdateStep::FetchSignature { url, via_api },
                        )
                    },
                },
            }
        },
        UpdateEvent::SignatureFetched(g) => {
            let sums = match &run.phase {
                UpdatePhase::FetchingSignature { sums } => sums.clone(),
                _ => String::new(),
            };
            match g {
                None => {
                    let e = unsigned(run.release.tag.as_str());
                    (stop(run), UpdateStep::Stop(Err(e)))
                },
                Some(sig) => {
                    let checked = match &run.public_key {
                        Some(key) => verify_signature(sums.as_str().as_bytes(), sig.as_str(), key.as_str()),
                        None => Ok(()),
                    };
                    match checked {
                        Ok(()) => after_signature(run, sums),
                        Err(e) => (stop(run), UpdateStep::Stop(Err(SelfInstallError::Verify(e)))),
                    }
                },
            }
        },
        UpdateEvent::ArchiveFetched(data) => {
            let sums = match &run.phase {
                UpdatePhase::FetchingArchive { sums } => sums.clone(),
                _ => String::new(),
            };
            match verify_checksum(data.as_slice(), run.release.asset.as_str(), sums.as_str()) {
                Err(e) => (stop(run), UpdateStep::Stop(Err(SelfInstallError::Verify(e)))),
                Ok(()) => {
                    let x = extract_binary(
                        run.release.asset.as_str(),
                        run.release.asset.as_str(),
                        data.as_slice(),
                        run.binary.as_str(),
                    );
                    match x {
                        Err(e) => (stop(run), UpdateStep::Stop(Err(SelfInstallError::Verify(e)))),
                        Ok(bin) => (
                            UpdateRun { phase: UpdatePhase::Probing, checksum_checked: true, ..run },
                            UpdateStep::Stage(bin),
                        ),
                    }
                },
            }
        },
        UpdateEvent::Reported(v) => {
            match check_reported(&v, &run.release.version, run.release.tag.as_str()) {
                Err(e) => (stop(run), UpdateStep::Stop(Err(e))),
                Ok(()) => (
                    UpdateRun { phase: UpdatePhase::KeepingPrevious, version_checked: true, ..run },
                    UpdateStep::KeepPrevious,
                ),
            }
        },
        UpdateEvent::Kept => (UpdateRun { phase: UpdatePhase::Placing, ..run }, UpdateStep::PlaceBinary),
        UpdateEvent::Placed => (
            UpdateRun { phase: UpdatePhase::SavingReceipt, placed: true, ..run },
            UpdateStep::SaveReceipt,
        ),
        UpdateEvent::ReceiptSaved => (
            UpdateRun { phase: UpdatePhase::Done, ..run },
            UpdateStep::Stop(Ok(UpdateAction::Updated)),
        ),
    }
}

} // verus!
