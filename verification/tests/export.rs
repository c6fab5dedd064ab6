use powervoice::error::{IpcError, IpcErrorCode};
use powervoice::events::{JobKind, JobState, NoticeLevel};
use powervoice::jobs::{
    bake_done, bake_error, calibration_error, calibration_step, cancelled, check_bake_rack,
    check_calibration_idle, check_cancelled, export_finished, export_io_error, fail_job,
    join_comma, paste_job_finished, rack_is_active, resolve_range, terminal_state, BakeFailure, CalibrationFailure,
    CalibrationPoll, ExportIoFailure, JobEvent, JobProgress,
};

fn progress_of(e: &JobEvent) -> Option<JobProgress> {
    match e {
        JobEvent::Progress(p) => Some(*p),
        _ => None,
    }
}

fn notice_key_of(e: &JobEvent) -> Option<String> {
    match e {
        JobEvent::Notice(n) => Some(n.key.clone()),
        _ => None,
    }
}

#[test]
fn resolve_range_validates_bounds() {
    assert_eq!(resolve_range(None, 100).unwrap(), (0, 100));
    assert_eq!(resolve_range(Some((10, 20)), 100).unwrap(), (10, 20));
    assert!(resolve_range(Some((20, 10)), 100).is_err());
    assert!(resolve_range(Some((0, 101)), 100).is_err());
}

#[test]
fn an_empty_export_range_is_refused_with_the_export_key() {
    let err = resolve_range(Some((5, 5)), 100).unwrap_err();
    assert_eq!(err.code, IpcErrorCode::InvalidArgument);
    assert_eq!(err.key, "error.export.invalid_range");
    assert_eq!(resolve_range(Some((0, 100)), 100).unwrap(), (0, 100));
}

#[test]
fn cancellation_reads_as_the_cancelled_error() {
    assert!(check_cancelled(false).is_ok());
    let err = check_cancelled(true).unwrap_err();
    assert_eq!(err.code, IpcErrorCode::Cancelled);
    assert_eq!(err.key, "error.cancelled");
    assert_eq!(cancelled().key, "error.cancelled");
}

#[test]
fn a_successful_export_posts_the_done_notice_before_done() {
    let ev = export_finished(3, &Ok(()), "take.wav");
    assert_eq!(ev.len(), 2);
    match &ev[0] {
        JobEvent::Notice(n) => {
            assert_eq!(n.key, "notice.export.done");
            assert_eq!(n.level, NoticeLevel::Info);
            assert_eq!(n.params.get("name").map(String::as_str), Some("take.wav"));
        }
        other => panic!("expected the notice first, got {other:?}"),
    }
    assert_eq!(
        progress_of(&ev[1]),
        Some(JobProgress { job_id: 3, kind: JobKind::Export, state: JobState::Done, fraction_permille: 1000 })
    );
}

#[test]
fn a_failed_export_posts_its_error_before_failed() {
    let err = export_io_error(ExportIoFailure::Other, "no space");
    let ev = export_finished(4, &Err(err), "x.wav");
    assert_eq!(ev.len(), 2);
    assert_eq!(notice_key_of(&ev[0]).as_deref(), Some("error.export.io"));
    assert_eq!(progress_of(&ev[1]).unwrap().state, JobState::Failed);
    assert_eq!(progress_of(&ev[1]).unwrap().fraction_permille, 0);
}

#[test]
fn a_cancelled_job_posts_no_notice() {
    let ev = fail_job(9, JobKind::Bake, &cancelled());
    assert_eq!(ev.len(), 1);
    assert_eq!(
        progress_of(&ev[0]),
        Some(JobProgress { job_id: 9, kind: JobKind::Bake, state: JobState::Cancelled, fraction_permille: 0 })
    );
}

#[test]
fn terminal_states_follow_the_result() {
    assert_eq!(terminal_state(&Ok(())), JobState::Done);
    assert_eq!(terminal_state(&Err(cancelled())), JobState::Cancelled);
    assert_eq!(terminal_state(&Err(IpcError::internal("x"))), JobState::Failed);
}

#[test]
fn mp3_unavailable_is_the_callers_mistake() {
    let e = export_io_error(ExportIoFailure::Mp3Unavailable, "no lame");
    assert_eq!(e.code, IpcErrorCode::InvalidArgument);
    assert_eq!(e.key, "error.export.mp3_unavailable");
    assert_eq!(e.params.get("message").map(String::as_str), Some("no lame"));
}

#[test]
fn rack_activity() {
    assert!(!rack_is_active(&[]));
    assert!(rack_is_active(&[false]));
    assert!(!rack_is_active(&[true]));
    assert!(rack_is_active(&[true, false]));
}

#[test]
fn an_inactive_rack_is_refused_for_bake() {
    assert_eq!(check_bake_rack(&[]).unwrap_err().key, "error.bake.rack_inactive");
    assert_eq!(check_bake_rack(&[true, true]).unwrap_err().key, "error.bake.rack_inactive");
    assert!(check_bake_rack(&[true, false]).is_ok());
}

#[test]
fn bake_failures_map_to_their_keys() {
    assert_eq!(bake_error(BakeFailure::Cancelled).code, IpcErrorCode::Cancelled);
    let slot = bake_error(BakeFailure::SlotFailed { name: "EQ".to_string() });
    assert_eq!(slot.key, "error.bake.slot_failed");
    assert_eq!(slot.params.get("slot").map(String::as_str), Some("EQ"));
    let missing = bake_error(BakeFailure::MissingModules {
        ids: vec!["a.gate".to_string(), "b.eq".to_string()],
    });
    assert_eq!(missing.key, "error.bake.missing_modules");
    assert_eq!(missing.params.get("modules").map(String::as_str), Some("a.gate, b.eq"));
    let project = bake_error(BakeFailure::Project(IpcError::new(IpcErrorCode::Io, "error.read")));
    assert_eq!(project.key, "error.read");
}

#[test]
fn joining_ids_puts_a_comma_between_them() {
    assert_eq!(join_comma(&[]), "");
    assert_eq!(join_comma(&["one".to_string()]), "one");
    assert_eq!(join_comma(&["a".to_string(), "b".to_string(), "c".to_string()]), "a, b, c");
}

#[test]
fn a_committed_bake_reports_done_then_the_document_then_the_toast() {
    let ev = bake_done(2);
    assert_eq!(ev.len(), 3);
    assert_eq!(progress_of(&ev[0]).unwrap().state, JobState::Done);
    assert!(matches!(ev[1], JobEvent::DocumentChanged));
    assert_eq!(notice_key_of(&ev[2]).as_deref(), Some("notice.bake.done"));
}

#[test]
fn engine_refusals_map_to_i18n_keys() {
    assert_eq!(
        calibration_error(CalibrationFailure::Recording).key,
        "error.not_while_recording"
    );
    assert_eq!(
        calibration_error(CalibrationFailure::NoOutput).key,
        "error.calibration.no_output"
    );
    let e = calibration_error(CalibrationFailure::RateMismatch {
        input_hz: 44_100,
        output_hz: 48_000,
    });
    assert_eq!(e.params.get("input").map(String::as_str), Some("44100"));
}

#[test]
fn a_failed_run_posts_the_notice_before_the_terminal_failed_progress_event() {
    let step = calibration_step(
        7,
        CalibrationPoll::Failed(CalibrationFailure::RateMismatch { input_hz: 44_100, output_hz: 48_000 }),
    );
    assert!(step.finished);
    assert_eq!(step.events.len(), 2);
    assert_eq!(notice_key_of(&step.events[0]).as_deref(), Some("error.calibration.rate_mismatch"));
    assert_eq!(
        progress_of(&step.events[1]),
        Some(JobProgress { job_id: 7, kind: JobKind::Calibration, state: JobState::Failed, fraction_permille: 0 })
    );
}

#[test]
fn calibration_polls_report_progress_result_and_interruption() {
    let running = calibration_step(1, CalibrationPoll::Running { progress_permille: 250 });
    assert!(!running.finished);
    assert_eq!(progress_of(&running.events[0]).unwrap().fraction_permille, 250);
    let done = calibration_step(1, CalibrationPoll::Captured);
    assert!(done.finished);
    assert!(matches!(done.events[0], JobEvent::CalibrationResult));
    assert_eq!(progress_of(&done.events[1]).unwrap().state, JobState::Done);
    let idle = calibration_step(1, CalibrationPoll::Idle);
    assert_eq!(notice_key_of(&idle.events[0]).as_deref(), Some("error.calibration.interrupted"));
    let cancelled_run = calibration_step(1, CalibrationPoll::Failed(CalibrationFailure::Cancelled));
    assert_eq!(cancelled_run.events.len(), 1);
    assert_eq!(progress_of(&cancelled_run.events[0]).unwrap().state, JobState::Cancelled);
}

#[test]
fn a_second_calibration_is_refused_while_one_runs() {
    assert!(check_calibration_idle(None).is_ok());
    let err = check_calibration_idle(Some(3)).unwrap_err();
    assert_eq!(err.code, IpcErrorCode::Busy);
    assert_eq!(err.key, "error.calibration.busy");
}

#[test]
fn a_paste_job_ends_with_its_terminal_progress_and_the_resample_notice() {
    let ok: Result<(), IpcError> = Ok(());
    let ev = paste_job_finished(7, &ok, true, 44_100, 48_000);
    assert_eq!(ev.len(), 2);
    let p = progress_of(&ev[0]).unwrap();
    assert_eq!((p.job_id, p.kind, p.state, p.fraction_permille), (7, JobKind::Paste, JobState::Done, 1000));
    match &ev[1] {
        JobEvent::Notice(n) => {
            assert_eq!(n.key, "notice.paste_resampled");
            assert_eq!(n.level, NoticeLevel::Info);
            assert_eq!(n.params.get("from").map(String::as_str), Some("44.1 kHz"));
            assert_eq!(n.params.get("to").map(String::as_str), Some("48 kHz"));
        }
        _ => panic!("expected the resample notice"),
    }
    assert_eq!(paste_job_finished(7, &ok, true, 48_000, 48_000).len(), 1);
    let failed_commit = paste_job_finished(7, &ok, false, 44_100, 48_000);
    assert_eq!(failed_commit.len(), 1);
    assert_eq!(progress_of(&failed_commit[0]).unwrap().state, JobState::Failed);
    let cancelled_import: Result<(), IpcError> = Err(IpcError::new(IpcErrorCode::Cancelled, "error.cancelled"));
    let ev = paste_job_finished(7, &cancelled_import, true, 44_100, 48_000);
    assert_eq!(ev.len(), 1);
    assert_eq!(progress_of(&ev[0]).unwrap().state, JobState::Cancelled);
    let failed_import: Result<(), IpcError> = Err(IpcError::new(IpcErrorCode::Io, "error.io"));
    let ev = paste_job_finished(7, &failed_import, true, 44_100, 48_000);
    assert_eq!((ev.len(), progress_of(&ev[0]).unwrap().state), (1, JobState::Failed));
}
