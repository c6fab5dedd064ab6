use powervoice::error::IpcErrorCode;
use powervoice::markers::{
    check_marker_add, check_marker_delete, check_marker_rename, check_marker_set_range,
    contains_id, dropout_marker_len, dropout_marker_name, listing_order, marker_default_number,
    marker_list_order, next_marker_name, normalize_marker_name, MarkerDocFacts,
    MarkerRangeEditKind,
};

fn names(v: &[&str]) -> Vec<String> {
    v.iter().map(|s| s.to_string()).collect()
}

#[test]
fn default_names_count_up_from_the_largest() {
    assert_eq!(next_marker_name(&[]), "Marker 01");
    assert_eq!(next_marker_name(&names(&["Marker 7", "Intro"])), "Marker 08");
    assert_eq!(next_marker_name(&names(&["Marker 07", "Marker 12"])), "Marker 13");
    assert_eq!(next_marker_name(&names(&["Marker 999999"])), "Marker 1000000");
}

#[test]
fn only_marker_and_up_to_six_digits_is_a_default_name() {
    assert_eq!(marker_default_number("Marker 7"), Some(7));
    assert_eq!(marker_default_number("Marker 007"), Some(7));
    assert_eq!(marker_default_number("Marker "), None);
    assert_eq!(marker_default_number("Marker 1234567"), None);
    assert_eq!(marker_default_number("Marker 1a"), None);
    assert_eq!(marker_default_number("marker 1"), None);
}

#[test]
fn renames_are_trimmed_and_stripped_of_control_characters() {
    assert_eq!(normalize_marker_name("  Intro  "), "Intro");
    assert_eq!(normalize_marker_name("a\u{7}b\tc"), "ab\tc");
    assert_eq!(normalize_marker_name(" \n "), "");
    let long: String = "é".repeat(600);
    let cut = normalize_marker_name(&long);
    assert_eq!(cut.len(), 1024);
    assert_eq!(cut.chars().count(), 512);
}

#[test]
fn dropout_names_round_to_the_nearest_millisecond() {
    assert_eq!(dropout_marker_name(Some(480), 48_000), "Dropout 10 ms");
    assert_eq!(dropout_marker_name(Some(23), 48_000), "Dropout 0 ms");
    assert_eq!(dropout_marker_name(Some(10), 0), "Dropout 10000 ms");
    assert_eq!(dropout_marker_name(None, 48_000), "Dropout (length unknown)");
    assert_eq!(dropout_marker_len(None), 0);
    assert_eq!(dropout_marker_len(Some(9)), 9);
}

fn doc(take_open: bool, recording: bool) -> MarkerDocFacts {
    MarkerDocFacts { take_open, recording, len_samples: 1_000 }
}

#[test]
fn marker_add_rejects_an_out_of_range_marker() {
    let d = MarkerDocFacts { take_open: false, recording: false, len_samples: 2_400 };
    let len = d.len_samples;
    assert_eq!(check_marker_add(d, len + 1, 0).unwrap_err().key, "error.invalid_range");
    assert_eq!(check_marker_add(d, len, 1).unwrap_err().key, "error.invalid_range");
    assert!(check_marker_add(d, len, 0).is_ok());
    assert!(check_marker_add(doc(true, true), 5_000, 10).is_ok());
    assert!(check_marker_add(doc(true, true), u64::MAX, 1).is_err());
}

#[test]
fn marker_rename_normalizes_and_rejects_an_empty_name() {
    assert_eq!(check_marker_rename(doc(false, false), &[1, 2], 2, "  Intro  ").unwrap(), "Intro");
    assert_eq!(check_marker_rename(doc(false, false), &[1, 2], 2, "   ").unwrap_err().key, "error.marker_name_empty");
    assert_eq!(check_marker_rename(doc(false, false), &[1, 2], 999, "x").unwrap_err().key, "error.marker_not_found");
    assert_eq!(check_marker_rename(doc(false, true), &[1], 1, "x").unwrap_err().code, IpcErrorCode::NotWhileRecording);
}

#[test]
fn marker_set_range_moves_or_resizes_with_the_matching_undo_label() {
    let d = MarkerDocFacts { take_open: false, recording: false, len_samples: 144_000 };
    assert_eq!(
        check_marker_set_range(d, &[4], 4, 100_000, 4_800, MarkerRangeEditKind::Move).unwrap(),
        "history.marker_move"
    );
    assert_eq!(
        check_marker_set_range(d, &[4], 4, 100_000, 9_600, MarkerRangeEditKind::Resize).unwrap(),
        "history.marker_resize"
    );
    assert_eq!(
        check_marker_set_range(d, &[4], 4, d.len_samples, 1, MarkerRangeEditKind::Move).unwrap_err().key,
        "error.invalid_range"
    );
    assert_eq!(
        check_marker_set_range(d, &[4], 5, 0, 0, MarkerRangeEditKind::Move).unwrap_err().key,
        "error.marker_not_found"
    );
}

#[test]
fn marker_delete_is_all_or_nothing() {
    assert_eq!(check_marker_delete(doc(false, false), &[1, 2, 3], &[]).unwrap(), false);
    assert_eq!(check_marker_delete(doc(false, false), &[1, 2, 3], &[1, 3]).unwrap(), true);
    assert_eq!(check_marker_delete(doc(false, false), &[1, 2, 3], &[1, 9]).unwrap_err().key, "error.marker_not_found");
    assert_eq!(check_marker_delete(doc(false, true), &[1], &[1]).unwrap_err().code, IpcErrorCode::NotWhileRecording);
    assert!(contains_id(&[5, 6], 6));
    assert!(!contains_id(&[], 6));
}

#[test]
fn marker_commands_are_refused_while_recording() {
    let rec = doc(true, true);
    assert!(check_marker_add(rec, 0, 0).is_ok());
    assert_eq!(check_marker_rename(rec, &[1], 1, "a").unwrap_err().key, "error.not_while_recording");
    assert_eq!(
        check_marker_set_range(rec, &[1], 1, 0, 0, MarkerRangeEditKind::Move).unwrap_err().key,
        "error.not_while_recording"
    );
    assert_eq!(check_marker_delete(rec, &[1], &[1]).unwrap_err().key, "error.not_while_recording");
}

#[test]
fn markers_added_during_a_take_are_listed_by_position_then_id() {
    assert_eq!(marker_list_order(&[(50, 2), (10, 1)], &[]), vec![0, 1]);
    assert_eq!(marker_list_order(&[(50, 2), (10, 1)], &[(30, 3)]), vec![1, 2, 0]);
    assert_eq!(marker_list_order(&[(10, 5)], &[(10, 4), (10, 6)]), vec![1, 0, 2]);
    assert_eq!(listing_order(&[]), Vec::<usize>::new());
    assert_eq!(listing_order(&[(7, 7), (7, 7), (1, 9)]), vec![2, 0, 1]);
}
