use powervoice::document::{
    another_attempt, retry_close, CloseOutcome, COMMIT_ATTEMPTS,
    clipboard_on_session_close, reachable_pieces,
    check_edit, check_job_commit, clipboard_info, clipboard_kind, document_error,
    import_ready_buckets, insert_silence_duration_error, is_plain_session_id, memory_budget_bytes,
    normalize_noop_result, paste_needs_job, paste_pieces, peaks_request_count, resolve_paste_target,
    selected_range, unchanged_result, after_paste_job, ClipboardData, ClipboardKind, ConvertedClip,
    EditDocFacts, EditTarget, JobGates, JobTable, NormalizeNotice, PasteTarget, ProjectErrorKind,
    RecoveredTakeAction, SampleRange,
};
use powervoice::error::IpcErrorCode;
use powervoice::recovery::{
    check_recovery_id, newest_first, recovered_binding, RecoveredSessionFate,
};
use powervoice::save::{BitDepth, SaveContainer};

fn open_doc(len: u64) -> Option<EditDocFacts> {
    Some(EditDocFacts { recording: false, len_samples: len })
}

#[test]
fn commands_reject_bad_selections_and_an_empty_clipboard() {
    let len: u64 = 2_400;
    assert_eq!(selected_range(10, 10, len).unwrap_err().key, "error.no_selection");
    assert_eq!(selected_range(0, len + 1, len).unwrap_err().key, "error.invalid_range");
    let empty: Option<ClipboardData<Vec<u32>, ()>> = None;
    assert_eq!(resolve_paste_target(PasteTarget::Cursor(0), len).unwrap(), EditTarget::Cursor(0));
    assert_eq!(paste_pieces(&empty, "s1").unwrap_err().key, "error.clipboard_empty");
    assert_eq!(
        resolve_paste_target(PasteTarget::Cursor(len + 1), len).unwrap_err().key,
        "error.invalid_range"
    );
    assert_eq!(selected_range(20, 10, len).unwrap_err().key, "error.no_selection");
    assert_eq!(selected_range(10, len, len).unwrap(), SampleRange { start: 10, end: len });
}

#[test]
fn edits_and_history_are_refused_while_recording() {
    let rec = Some(EditDocFacts { recording: true, len_samples: 100 });
    assert_eq!(check_edit(false, rec).unwrap_err().code, IpcErrorCode::NotWhileRecording);
    assert_eq!(check_edit(true, rec).unwrap_err().code, IpcErrorCode::Busy);
    assert_eq!(check_edit(false, None).unwrap_err().key, "error.document.none");
    assert!(check_edit(false, open_doc(5)).is_ok());
}

#[test]
fn a_second_normalize_and_other_edits_are_refused_while_one_is_busy() {
    let mut gates = JobGates::new();
    assert_eq!(gates.begin_normalize(open_doc(100), 0, 100).unwrap(), SampleRange { start: 0, end: 100 });
    assert!(gates.is_normalize_busy());
    assert_eq!(gates.begin_normalize(open_doc(100), 0, 100).unwrap_err().key, "error.document_busy");
    assert_eq!(gates.check_edit(open_doc(100)).unwrap_err().key, "error.document_busy");
    assert_eq!(gates.check_undo_redo(true).unwrap_err().code, IpcErrorCode::Busy);
    assert_eq!(gates.begin_bake(open_doc(100), 0, 100).unwrap_err().code, IpcErrorCode::Busy);
    gates.finish_normalize();
    assert!(gates.check_edit(open_doc(100)).is_ok());
    assert!(gates.check_undo_redo(true).is_ok());
    assert_eq!(gates.check_undo_redo(false).unwrap_err().key, "error.document.none");
}

#[test]
fn busy_rules() {
    let mut gates = JobGates::new();
    assert_eq!(gates.begin_bake(open_doc(100), 10, 10).unwrap_err().key, "error.no_selection");
    assert!(!gates.is_normalize_busy());
    gates.begin_bake(open_doc(100), 0, 100).unwrap();
    assert!(gates.is_bake_running());
    assert_eq!(gates.begin_bake(open_doc(100), 0, 100).unwrap_err().code, IpcErrorCode::Busy);
    assert_eq!(gates.check_edit(open_doc(100)).unwrap_err().code, IpcErrorCode::Busy);
    assert_eq!(gates.check_undo_redo(true).unwrap_err().code, IpcErrorCode::Busy);
    assert_eq!(gates.begin_normalize(open_doc(100), 0, 100).unwrap_err().code, IpcErrorCode::Busy);
    gates.finish_bake();
    assert!(!gates.is_normalize_busy());
    assert!(!gates.is_bake_running());
}

#[test]
fn other_edits_are_refused_while_a_paste_job_is_running() {
    let mut gates = JobGates::new();
    assert_eq!(
        gates.begin_paste(open_doc(100), PasteTarget::Cursor(0), ClipboardKind::Empty).unwrap_err().key,
        "error.clipboard_empty"
    );
    assert_eq!(
        gates.begin_paste(open_doc(100), PasteTarget::Cursor(0), ClipboardKind::Bound).unwrap_err().key,
        "error.document_busy"
    );
    gates.begin_paste(open_doc(100), PasteTarget::Cursor(0), ClipboardKind::Materialized).unwrap();
    assert!(gates.is_paste_busy());
    assert_eq!(gates.check_edit(open_doc(100)).unwrap_err().key, "error.document_busy");
    gates.finish_paste();
    assert!(gates.check_edit(open_doc(100)).is_ok());
}

#[test]
fn the_clipboard_decides_how_paste_runs() {
    let bound: Option<ClipboardData<Vec<u32>, &str>> =
        Some(ClipboardData::Bound { pieces: vec![1, 2], sample_rate_hz: 48_000, len_samples: 96 });
    assert_eq!(clipboard_kind(&bound), ClipboardKind::Bound);
    assert!(!paste_needs_job(&bound, "s1"));
    assert_eq!(paste_pieces(&bound, "s1").unwrap(), &vec![1, 2]);
    let info = clipboard_info(&bound);
    assert_eq!((info.len_samples, info.sample_rate_hz), (Some(96), Some(48_000)));

    let materialized: Option<ClipboardData<Vec<u32>, &str>> = Some(ClipboardData::Materialized {
        clip: "clip.wav",
        sample_rate_hz: 44_100,
        len_samples: 50,
        converted: None,
    });
    assert!(paste_needs_job(&materialized, "s1"));
    assert_eq!(paste_pieces(&materialized, "s1").unwrap_err().key, "error.document_busy");
    let cached = after_paste_job(materialized, 44_100, 48_000, "s1".to_string(), vec![7], 55);
    assert!(!paste_needs_job(&cached, "s1"));
    assert!(paste_needs_job(&cached, "s2"));
    assert_eq!(paste_pieces(&cached, "s1").unwrap(), &vec![7]);
    match &cached {
        Some(ClipboardData::Materialized { converted: Some(ConvertedClip { session_id, .. }), len_samples, .. }) => {
            assert_eq!(session_id, "s1");
            assert_eq!(*len_samples, 50);
        }
        other => panic!("{other:?}"),
    }
    let same_rate: Option<ClipboardData<Vec<u32>, &str>> = Some(ClipboardData::Materialized {
        clip: "clip.wav",
        sample_rate_hz: 48_000,
        len_samples: 50,
        converted: None,
    });
    let bound_again = after_paste_job(same_rate, 48_000, 48_000, "s1".to_string(), vec![8], 50);
    assert_eq!(clipboard_kind(&bound_again), ClipboardKind::Bound);
}

#[test]
fn job_ids_are_found_until_removed() {
    let mut jobs: JobTable<&str> = JobTable::new(1);
    let a = jobs.register("a");
    let b = jobs.register("b");
    assert_eq!((a, b), (1, 2));
    assert_eq!(jobs.get(1), Some(&"a"));
    jobs.remove(1);
    assert_eq!(jobs.get(1), None);
    assert_eq!(jobs.get(2), Some(&"b"));
    jobs.remove(42);
    assert_eq!(jobs.get(2), Some(&"b"));
}

#[test]
fn t301_memory_budget_applies_live_and_clamps() {
    assert_eq!(memory_budget_bytes(300), 300 * 1024 * 1024);
    assert_eq!(memory_budget_bytes(1), 256 * 1024 * 1024);
    assert_eq!(memory_budget_bytes(100_000), 16_384 * 1024 * 1024);
}

#[test]
fn t301_recovery_ids_are_plain_directory_names() {
    for id in ["", "..", "../x", "a/b", ".hidden", "nope"] {
        let is_dir = false;
        let err = check_recovery_id(id, ".deleting", is_dir).unwrap_err();
        assert_eq!(err.key, "error.recovery.not_found", "{id:?}");
    }
    assert!(check_recovery_id("abc", ".deleting", true).is_ok());
    assert!(check_recovery_id("abc.deleting", ".deleting", true).is_err());
    assert!(check_recovery_id("a\\b", ".deleting", true).is_err());
    assert!(is_plain_session_id("s-1", ".deleting"));
}

#[test]
fn recoverable_sessions_are_listed_newest_first() {
    assert_eq!(newest_first(&[]), Vec::<usize>::new());
    assert_eq!(newest_first(&[10, 30, 20]), vec![1, 2, 0]);
    assert_eq!(newest_first(&[5, 9, 5, 9]), vec![1, 3, 0, 2]);
}

#[test]
fn peaks_and_import_progress() {
    assert_eq!(peaks_request_count(1, 2_000_000, 1), 1_048_576);
    assert_eq!(peaks_request_count(256, 100_000, 1), 65_536);
    assert_eq!(peaks_request_count(256, 10, 1), 10);
    assert_eq!(import_ready_buckets(1_000, 0, 100, 20), (10, true));
    assert_eq!(import_ready_buckets(1_000, 0, 100, 5), (5, false));
    assert_eq!(import_ready_buckets(1_000, 2_000, 100, 5), (0, true));
}

#[test]
fn project_failures_keep_their_key_and_pick_a_code() {
    let e = document_error(ProjectErrorKind::UnsupportedCodec, "error.open.unsupported_codec", "opus");
    assert_eq!(e.code, IpcErrorCode::InvalidArgument);
    assert_eq!(e.key, "error.open.unsupported_codec");
    assert_eq!(e.params.get("message").map(String::as_str), Some("opus"));
    assert_eq!(document_error(ProjectErrorKind::FileNotFound, "k", "m").code, IpcErrorCode::NotFound);
    assert_eq!(document_error(ProjectErrorKind::Io, "k", "m").code, IpcErrorCode::Io);
    assert_eq!(document_error(ProjectErrorKind::Other, "k", "m").code, IpcErrorCode::Internal);
    assert_eq!(document_error(ProjectErrorKind::Cancelled, "k", "m").code, IpcErrorCode::Cancelled);
    assert_eq!(document_error(ProjectErrorKind::NotWhileRecording, "k", "m").code, IpcErrorCode::NotWhileRecording);
}

#[test]
fn a_finished_job_commits_only_against_the_document_it_read() {
    assert_eq!(check_job_commit(false, true, true, true).unwrap_err().key, "error.document.none");
    assert_eq!(check_job_commit(true, false, true, true).unwrap_err().key, "error.document_busy");
    assert!(check_job_commit(true, false, true, false).is_ok());
    assert!(check_job_commit(true, false, false, false).is_ok());
    assert_eq!(check_job_commit(true, true, false, true).unwrap_err().key, "error.document_busy");
    assert!(check_job_commit(true, true, false, false).is_ok());
    assert!(check_job_commit(true, true, true, true).is_ok());
}

#[test]
fn a_no_op_normalize_keeps_the_selection_and_says_why() {
    let r = normalize_noop_result(4, 1_000, SampleRange { start: 10, end: 90 }, NormalizeNotice::Silent);
    assert!(!r.result.changed);
    assert_eq!(r.result.selection, Some((10, 90)));
    assert_eq!(r.result.playhead_samples, 10);
    assert_eq!(r.notice, Some(NormalizeNotice::Silent));
    let u = unchanged_result(4, 1_000);
    assert_eq!((u.changed, u.selection, u.playhead_samples), (false, None, 0));
    assert_eq!(insert_silence_duration_error().key, "error.insert_silence_duration");
    assert_eq!(RecoveredTakeAction::default_action(), RecoveredTakeAction::Apply);
}

#[test]
fn a_bound_clipboard_survives_its_session_closing_or_is_lost_with_a_notice() {
    let bound: Option<ClipboardData<Vec<u32>, &str>> =
        Some(ClipboardData::Bound { pieces: vec![3], sample_rate_hz: 44_100, len_samples: 12 });
    assert_eq!(reachable_pieces(&bound, "any"), Some(&vec![3]));
    let (kept, notice) = clipboard_on_session_close(bound, Some("saved.wav"));
    assert!(notice.is_none());
    match &kept {
        Some(ClipboardData::Materialized { clip, sample_rate_hz, len_samples, converted }) => {
            assert_eq!((*clip, *sample_rate_hz, *len_samples), ("saved.wav", 44_100, 12));
            assert!(converted.is_none());
        }
        other => panic!("{other:?}"),
    }
    assert_eq!(reachable_pieces(&kept, "s1"), None);
    let bound_again: Option<ClipboardData<Vec<u32>, &str>> =
        Some(ClipboardData::Bound { pieces: vec![3], sample_rate_hz: 44_100, len_samples: 12 });
    let (lost, notice) = clipboard_on_session_close(bound_again, None);
    assert!(lost.is_none());
    let notice = notice.expect("clipboard lost");
    assert_eq!(notice.key, "notice.clipboard_lost");
    assert!(notice.params.is_empty());
    let (still_empty, none) = clipboard_on_session_close::<Vec<u32>, &str>(None, Some("x"));
    assert!(still_empty.is_none() && none.is_none());
}

#[test]
fn commits_and_closes_are_retried_a_bounded_number_of_times() {
    assert!(another_attempt(1, COMMIT_ATTEMPTS, true));
    assert!(another_attempt(2, COMMIT_ATTEMPTS, true));
    assert!(!another_attempt(3, COMMIT_ATTEMPTS, true));
    assert!(!another_attempt(1, COMMIT_ATTEMPTS, false));
    assert!(retry_close(1, CloseOutcome::StoreInUse));
    assert!(retry_close(39, CloseOutcome::StoreInUse));
    assert!(!retry_close(40, CloseOutcome::StoreInUse));
    assert!(!retry_close(1, CloseOutcome::Closed));
    assert!(!retry_close(1, CloseOutcome::Failed));
}

#[test]
fn a_paste_job_starts_at_the_target_asked_for() {
    let mut gates = JobGates::new();
    assert_eq!(
        gates.begin_paste(open_doc(100), PasteTarget::Cursor(101), ClipboardKind::Materialized).unwrap_err().key,
        "error.invalid_range"
    );
    assert_eq!(
        gates.begin_paste(open_doc(100), PasteTarget::Range(5, 5), ClipboardKind::Materialized).unwrap_err().key,
        "error.no_selection"
    );
    assert!(!gates.is_paste_busy());
    assert_eq!(
        gates.begin_paste(open_doc(100), PasteTarget::Range(10, 40), ClipboardKind::Materialized).unwrap(),
        EditTarget::Range(SampleRange { start: 10, end: 40 })
    );
    assert!(gates.is_paste_busy());
    gates.finish_paste();
    assert_eq!(
        gates.begin_paste(open_doc(100), PasteTarget::Cursor(37), ClipboardKind::Materialized).unwrap(),
        EditTarget::Cursor(37)
    );
    assert!(gates.is_paste_busy());
    assert_eq!(
        gates.begin_paste(open_doc(100), PasteTarget::Cursor(0), ClipboardKind::Materialized).unwrap_err().key,
        "error.document_busy"
    );
}

#[test]
fn a_take_recovered_as_a_new_document_is_untitled_wav_24_bit() {
    let b = recovered_binding(
        Some("/tmp/a.flac".to_string()),
        (SaveContainer::Flac, BitDepth::Bit16),
        true,
        RecoveredTakeAction::NewDocument,
        true,
        false,
    );
    assert_eq!(b.path, None);
    assert_eq!((b.container, b.bits), (SaveContainer::Wav, BitDepth::Bit24));
    assert!(!b.keeps_state);
    assert_eq!(b.session, RecoveredSessionFate::Deleted);
    let dirty = recovered_binding(None, (SaveContainer::Flac, BitDepth::Bit16), true, RecoveredTakeAction::NewDocument, true, true);
    assert_eq!(dirty.session, RecoveredSessionFate::LeftForRecovery);
    for (take, action, split) in [
        (true, RecoveredTakeAction::Apply, true),
        (true, RecoveredTakeAction::Discard, true),
        (false, RecoveredTakeAction::NewDocument, true),
        (true, RecoveredTakeAction::NewDocument, false),
    ] {
        let kept = recovered_binding(Some("/tmp/a.flac".to_string()), (SaveContainer::Flac, BitDepth::Bit16), take, action, split, true);
        assert_eq!(kept.path.as_deref(), Some("/tmp/a.flac"));
        assert_eq!((kept.container, kept.bits), (SaveContainer::Flac, BitDepth::Bit16));
        assert!(kept.keeps_state);
        assert_eq!(kept.session, RecoveredSessionFate::Opened);
    }
}
