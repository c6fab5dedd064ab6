use powervoice::document::{recording_target, RecordDocFacts, RecordingTarget};
use powervoice::error::IpcErrorCode;
use powervoice::record::{
    begin_record_op, plan_take_op_commit, record_op_result, take_dropout_markers, window_len,
    DropoutMark, RecordOpDocFacts, RecordOpKind, RecordPlan, TakeMode,
};

fn plan(kind: RecordOpKind, at: u64, end: Option<u64>) -> RecordPlan {
    RecordPlan { kind, at_samples: at, end_samples: end, doc_rate_hz: 48_000 }
}

#[test]
fn dropouts_become_markers_committed_with_the_take() {
    let dropouts = [
        DropoutMark { pos_samples: 1_000, len_samples: Some(480) },
        DropoutMark { pos_samples: 5_000, len_samples: Some(24) },
    ];
    let markers = take_dropout_markers(&dropouts, 48_000);
    assert_eq!(markers.len(), 2, "{markers:?}");
    assert_eq!(markers[0].pos_samples, 1_000);
    assert_eq!(markers[0].len_samples, 480);
    assert_eq!(markers[0].name, "Dropout 10 ms");
    assert_eq!(markers[1].pos_samples, 5_000);
    assert_eq!(markers[1].len_samples, 24);
    assert_eq!(markers[1].name, "Dropout 1 ms", "rounds to the nearest ms");
}

#[test]
fn dropout_of_unknown_length_becomes_a_length_unknown_point_marker() {
    let dropouts = [DropoutMark { pos_samples: 1_000, len_samples: None }];
    let markers = take_dropout_markers(&dropouts, 48_000);
    assert_eq!(markers.len(), 1, "{markers:?}");
    assert_eq!(markers[0].pos_samples, 1_000);
    assert_eq!(markers[0].len_samples, 0, "a point marker — no known span");
    assert_eq!(markers[0].name, "Dropout (length unknown)");
}

#[test]
fn record_ops_open_their_take_in_the_matching_mode() {
    let doc = Some(RecordOpDocFacts { recording: false, sample_rate_hz: 48_000 });
    assert_eq!(begin_record_op(false, doc, plan(RecordOpKind::New, 0, None)).unwrap(), TakeMode::New);
    assert_eq!(
        begin_record_op(false, doc, plan(RecordOpKind::Insert, 100, None)).unwrap(),
        TakeMode::Insert { at_samples: 100 }
    );
    assert_eq!(
        begin_record_op(false, doc, plan(RecordOpKind::Overwrite, 7, None)).unwrap(),
        TakeMode::Overwrite { at_samples: 7 }
    );
    assert_eq!(
        begin_record_op(false, doc, plan(RecordOpKind::Punch, 10, Some(20))).unwrap(),
        TakeMode::Punch { start_samples: 10, end_samples: 20 }
    );
    assert_eq!(
        begin_record_op(false, doc, plan(RecordOpKind::Punch, 10, None)).unwrap(),
        TakeMode::Punch { start_samples: 10, end_samples: 10 }
    );
}

#[test]
fn record_ops_are_refused_in_order() {
    let p = plan(RecordOpKind::Insert, 0, None);
    let idle = Some(RecordOpDocFacts { recording: false, sample_rate_hz: 48_000 });
    assert_eq!(begin_record_op(true, idle, p).unwrap_err().key, "error.document_busy");
    assert_eq!(begin_record_op(false, None, p).unwrap_err().key, "error.document.none");
    let rec = Some(RecordOpDocFacts { recording: true, sample_rate_hz: 48_000 });
    assert_eq!(begin_record_op(false, rec, p).unwrap_err().code, IpcErrorCode::NotWhileRecording);
    let other_rate = Some(RecordOpDocFacts { recording: false, sample_rate_hz: 44_100 });
    assert_eq!(begin_record_op(false, other_rate, p).unwrap_err().key, "error.invalid_range");
}

#[test]
fn the_window_is_clipped_to_the_take_and_the_punch() {
    assert_eq!(window_len(plan(RecordOpKind::Insert, 0, None), 100, 600, 1_000), 500);
    assert_eq!(window_len(plan(RecordOpKind::Insert, 0, None), 100, 600, 300), 200);
    assert_eq!(window_len(plan(RecordOpKind::Insert, 0, None), 400, 600, 300), 0);
    assert_eq!(window_len(plan(RecordOpKind::Punch, 1_000, Some(1_100)), 100, 600, 1_000), 100);
    assert_eq!(window_len(plan(RecordOpKind::Punch, 1_000, None), 100, 600, 1_000), 0);
}

#[test]
fn only_dropouts_inside_the_window_become_markers_at_their_document_position() {
    let dropouts = [
        DropoutMark { pos_samples: 50, len_samples: Some(48) },
        DropoutMark { pos_samples: 150, len_samples: Some(480) },
        DropoutMark { pos_samples: 599, len_samples: None },
        DropoutMark { pos_samples: 600, len_samples: Some(48) },
    ];
    let commit = plan_take_op_commit(plan(RecordOpKind::Insert, 10_000, None), Some((100, 600)), 1_000, &dropouts, 48_000)
        .expect("a window");
    assert_eq!(commit.window_len, 500);
    assert_eq!(commit.markers.len(), 2);
    assert_eq!(commit.markers[0].pos_samples, 10_050);
    assert_eq!(commit.markers[0].name, "Dropout 10 ms");
    assert_eq!(commit.markers[1].pos_samples, 10_499);
    assert_eq!(commit.markers[1].len_samples, 0);
    assert!(plan_take_op_commit(plan(RecordOpKind::Insert, 0, None), None, 1_000, &dropouts, 48_000).is_none());
}

#[test]
fn a_committed_operation_places_the_playhead() {
    let insert = record_op_result(plan(RecordOpKind::Insert, 100, None), 50, 7, 1_000);
    assert!(insert.changed);
    assert_eq!(insert.selection, None);
    assert_eq!(insert.playhead_samples, 150);
    assert_eq!(insert.audio_rev, 7);
    assert_eq!(insert.len_samples, 1_000);
    let punch = record_op_result(plan(RecordOpKind::Punch, 100, Some(300)), 200, 8, 1_000);
    assert_eq!(punch.selection, Some((100, 300)));
    assert_eq!(punch.playhead_samples, 100);
}

#[test]
fn a_recording_goes_into_an_empty_document_at_its_rate_or_a_new_one() {
    let empty = Some(RecordDocFacts { recording: false, len_samples: 0, sample_rate_hz: 48_000 });
    assert_eq!(recording_target(empty, 48_000, false).unwrap(), RecordingTarget::OpenDocument);
    assert_eq!(recording_target(empty, 44_100, false).unwrap(), RecordingTarget::NewDocument);
    let full = Some(RecordDocFacts { recording: false, len_samples: 10, sample_rate_hz: 48_000 });
    assert_eq!(recording_target(full, 48_000, false).unwrap_err().key, "error.record.needs_replace");
    assert_eq!(recording_target(full, 48_000, true).unwrap(), RecordingTarget::NewDocument);
    assert_eq!(recording_target(None, 48_000, false).unwrap(), RecordingTarget::NewDocument);
    let busy = Some(RecordDocFacts { recording: true, len_samples: 0, sample_rate_hz: 48_000 });
    assert_eq!(recording_target(busy, 48_000, true).unwrap_err().code, IpcErrorCode::NotWhileRecording);
}
