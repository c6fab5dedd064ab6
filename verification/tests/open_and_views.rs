use powervoice::document::{ClipboardInfo, EditResult, HistoryState, PasteTarget};
use powervoice::dto::{
    acx_passes, amplitude_ruler_mode_of, amplitude_ruler_mode_str, app_info, harmonics_of,
    restored_cursor, restored_selection, time_ruler_format_of, time_ruler_format_str,
    AcxRuleStatusDto, AmplitudeRulerModeDto, ClipboardChangedDto, EditResultDto, EditTargetDto,
    HistoryStateDto, MarkerDto, MarkerKindDto, MarkerRangeKindDto, SaveContainerDto,
    TimeRulerFormatDto,
};
use powervoice::error::{IpcError, IpcErrorCode, Params};
use powervoice::events::{JobKind, JobState, NoticeLevel};
use powervoice::jobs::JobEvent;
use powervoice::markers::{MarkerInfo, MarkerKindInfo, MarkerRangeEditKind};
use powervoice::open::{
    check_open, import_finished, markers_changed_externally, open_notices, sidecar_notice_info,
    sidecar_toast, OpenFindings,
};
use powervoice::save::{SaveContainer, SidecarNoticeInfo};

#[test]
fn opening_a_file_already_open_in_another_instance_needs_confirmation() {
    let err = check_open(false, false, true, "take.wav").unwrap_err();
    assert_eq!(err.code, IpcErrorCode::NeedsConfirmation);
    assert_eq!(err.key, "dialog.already_open");
    assert_eq!(err.params.get("name").map(String::as_str), Some("take.wav"));
    assert!(check_open(false, true, true, "take.wav").is_ok());
    assert!(check_open(false, false, false, "take.wav").is_ok());
    assert_eq!(check_open(true, true, false, "x").unwrap_err().code, IpcErrorCode::NotWhileRecording);
}

#[test]
fn the_file_markers_win_only_when_a_readable_wav_cue_set_differs() {
    assert!(markers_changed_externally(true, "wave", false, false));
    assert!(!markers_changed_externally(true, "wave", false, true));
    assert!(!markers_changed_externally(true, "wave", true, false));
    assert!(!markers_changed_externally(true, "flac", false, false));
    assert!(!markers_changed_externally(false, "wave", false, false));
}

#[test]
fn an_open_posts_its_notices_in_order() {
    let findings = OpenFindings {
        sidecar_notice: Some(sidecar_notice_info("notice.sidecar.items_dropped", Some(2), "take.wav.pvx")),
        markers_changed_externally: true,
        format_mapped: Some(("8-bit", "16-bit")),
        cue_chunk_malformed: true,
        cues_out_of_range: 3,
    };
    let v = open_notices(findings, "take.wav");
    let keys: Vec<&str> = v.iter().map(|n| n.key).collect();
    assert_eq!(
        keys,
        vec![
            "notice.sidecar.items_dropped",
            "notice.open.markers_changed_externally",
            "notice.open.format_mapped",
            "notice.open.markers_unreadable",
            "notice.open.markers_out_of_range",
        ]
    );
    assert_eq!(v[0].params, vec![("file", "take.wav.pvx".to_string()), ("count", "2".to_string())]);
    assert_eq!(v[1].params, vec![("name", "take.wav".to_string())]);
    assert_eq!(v[2].params, vec![("from", "8-bit".to_string()), ("to", "16-bit".to_string())]);
    assert!(v[3].params.is_empty());
    assert_eq!(v[4].params, vec![("count", "3".to_string())]);
    let quiet = OpenFindings {
        sidecar_notice: None,
        markers_changed_externally: false,
        format_mapped: None,
        cue_chunk_malformed: false,
        cues_out_of_range: 0,
    };
    assert!(open_notices(quiet, "x.wav").is_empty());
}

#[test]
fn a_failed_sidecar_write_is_an_error_toast_everything_else_a_warning() {
    let failed = SidecarNoticeInfo {
        key: "notice.save.sidecar_failed.flac",
        params: vec![("name", "a.flac".to_string())],
    };
    let t = sidecar_toast(&failed);
    assert_eq!(t.level, NoticeLevel::Error);
    assert_eq!(t.key, "notice.save.sidecar_failed.flac");
    assert_eq!(t.params.get("name").map(String::as_str), Some("a.flac"));
    let mapped = SidecarNoticeInfo {
        key: "notice.open.format_mapped",
        params: vec![("from", "8-bit".to_string()), ("to", "16-bit".to_string())],
    };
    let m = sidecar_toast(&mapped);
    assert_eq!(m.level, NoticeLevel::Warning);
    assert_eq!(m.params.len(), 2);
    assert!(!m.persistent);
}

#[test]
fn an_import_ends_with_one_terminal_progress_event() {
    let done = import_finished(5, &Ok(()));
    match done {
        JobEvent::Progress(p) => {
            assert_eq!((p.job_id, p.kind, p.state, p.fraction_permille), (5, JobKind::Import, JobState::Done, 1000))
        }
        other => panic!("{other:?}"),
    }
    let cancelled = import_finished(5, &Err(IpcError::new(IpcErrorCode::Cancelled, "error.cancelled")));
    assert!(matches!(cancelled, JobEvent::Progress(p) if p.state == JobState::Cancelled));
    let failed = import_finished(5, &Err(IpcError::internal("x")));
    assert!(matches!(failed, JobEvent::Progress(p) if p.state == JobState::Failed && p.fraction_permille == 0));
}

#[test]
fn waveform_view_of_ignores_a_malformed_selection() {
    assert_eq!(restored_selection(Some(500), Some(100), 1_000), None);
    assert_eq!(restored_cursor(Some(42), 1_000), 42);
    assert_eq!(time_ruler_format_of(None), TimeRulerFormatDto::Timecode);
    assert_eq!(amplitude_ruler_mode_of(None), AmplitudeRulerModeDto::Dbfs);
    assert_eq!(restored_selection(Some(0), Some(2_000), 1_000), None);
    assert_eq!(restored_cursor(Some(5_000), 1_000), 0);
    assert_eq!(time_ruler_format_of(Some("not-a-real-format")), TimeRulerFormatDto::Timecode);
    assert_eq!(amplitude_ruler_mode_of(Some("not-a-real-mode")), AmplitudeRulerModeDto::Dbfs);
    assert_eq!(time_ruler_format_of(Some("samples")), TimeRulerFormatDto::Samples);
    assert_eq!(amplitude_ruler_mode_of(Some("percent")), AmplitudeRulerModeDto::Percent);
    assert_eq!(restored_selection(Some(0), None, 1_000), None);
    assert_eq!(restored_selection(Some(10), Some(1_000), 1_000), Some((10, 1_000)));
}

#[test]
fn view_settings_round_trip_through_their_text() {
    for f in [TimeRulerFormatDto::Timecode, TimeRulerFormatDto::Samples, TimeRulerFormatDto::Seconds] {
        assert_eq!(time_ruler_format_of(Some(time_ruler_format_str(f))), f);
    }
    for m in [AmplitudeRulerModeDto::Dbfs, AmplitudeRulerModeDto::Percent] {
        assert_eq!(amplitude_ruler_mode_of(Some(amplitude_ruler_mode_str(m))), m);
    }
    assert_eq!(TimeRulerFormatDto::default(), TimeRulerFormatDto::Timecode);
}

#[test]
fn library_values_become_their_dtos() {
    let r = EditResult { changed: true, audio_rev: 3, len_samples: 9, selection: Some((1, 2)), playhead_samples: 2 };
    let d = EditResultDto::from(r);
    assert_eq!(d, EditResultDto { changed: true, audio_rev: 3, len_samples: 9, selection: Some((1, 2)), playhead_samples: 2 });
    assert_eq!(PasteTarget::from(EditTargetDto::Cursor { at_samples: 4 }), PasteTarget::Cursor(4));
    assert_eq!(
        PasteTarget::from(EditTargetDto::Range { start_samples: 1, end_samples: 5 }),
        PasteTarget::Range(1, 5)
    );
    let c = ClipboardChangedDto::from(ClipboardInfo { len_samples: Some(10), sample_rate_hz: Some(48_000) });
    assert_eq!(c, ClipboardChangedDto { len_samples: Some(10), sample_rate_hz: Some(48_000) });
    let m = MarkerDto::from(MarkerInfo {
        id: 1,
        pos_samples: 2,
        len_samples: 3,
        name: "Dropout 1 ms".to_string(),
        kind: MarkerKindInfo::Dropout,
    });
    assert_eq!(m.kind, MarkerKindDto::Dropout);
    assert_eq!(m.name, "Dropout 1 ms");
    assert_eq!(MarkerRangeEditKind::from(MarkerRangeKindDto::Resize), MarkerRangeEditKind::Resize);
    assert_eq!(SaveContainer::from(SaveContainerDto::Flac), SaveContainer::Flac);
    let h = HistoryStateDto::from(HistoryState {
        can_undo: true,
        can_redo: false,
        undo_label: Some("history.cut".to_string()),
        redo_label: None,
        undo_label_params: Params::new().with("target".to_string(), "-1".to_string()),
        redo_label_params: Params::new(),
    });
    assert!(h.can_undo && !h.can_redo);
    assert_eq!(h.undo_label.as_deref(), Some("history.cut"));
    assert_eq!(h.undo_label_params.get("target").map(String::as_str), Some("-1"));
    let a = app_info("1.2.3");
    assert_eq!((a.name.as_str(), a.version.as_str()), ("PowerVoice", "1.2.3"));
}

#[test]
fn hum_harmonics_read_from_their_bits() {
    assert_eq!(harmonics_of(0), Vec::<u32>::new());
    assert_eq!(harmonics_of(0b1011), vec![1, 2, 4]);
    assert_eq!(harmonics_of(1 << 31), vec![32]);
    assert_eq!(harmonics_of(u32::MAX).len(), 32);
}

#[test]
fn every_acx_rule_must_pass() {
    assert!(acx_passes(AcxRuleStatusDto::Pass, AcxRuleStatusDto::Pass, AcxRuleStatusDto::Pass));
    assert!(!acx_passes(AcxRuleStatusDto::Pass, AcxRuleStatusDto::TooHigh, AcxRuleStatusDto::Pass));
    assert!(!acx_passes(AcxRuleStatusDto::TooShort, AcxRuleStatusDto::Pass, AcxRuleStatusDto::Pass));
}
