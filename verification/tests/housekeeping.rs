use powervoice::format::{format_bytes, khz_label};
use powervoice::housekeeping::{
    decide_step, digest_of_serialized, disk_check_due, effective_free_bytes, empty_report,
    needs_journal, pass_may_run, record_compacted, record_dropped, state_digest, CompactOutcome,
    DiskAction, Housekeeping, HousekeepingPass, HousekeepingStep, PassStep, RoundFacts,
};
use powervoice::events::NoticeLevel;

#[test]
fn bytes_read_like_the_spec_notice() {
    assert_eq!(format_bytes(4_100_000_000), "4.1 GB");
    assert_eq!(format_bytes(67_108_864), "67 MB");
    assert_eq!(format_bytes(10), "1 MB");
}

#[test]
fn byte_counts_round_to_the_nearest_unit() {
    assert_eq!(format_bytes(999_400_000), "999 MB");
    assert_eq!(format_bytes(1_000_000_000), "1.0 GB");
    assert_eq!(format_bytes(1_049_999_999), "1.0 GB");
    assert_eq!(format_bytes(1_050_000_000), "1.1 GB");
    assert_eq!(format_bytes(2_500_000), "2 MB");
    assert_eq!(format_bytes(3_500_000), "4 MB");
    assert_eq!(format_bytes(u64::MAX), "18446744073.7 GB");
}

#[test]
fn sample_rates_read_in_kilohertz() {
    assert_eq!(khz_label(48_000), "48 kHz");
    assert_eq!(khz_label(44_100), "44.1 kHz");
    assert_eq!(khz_label(22_050), "22.1 kHz");
    assert_eq!(khz_label(8_000), "8 kHz");
    assert_eq!(khz_label(11_025), "11.0 kHz");
}

#[test]
fn gigabytes_on_a_half_follow_the_nearest_double() {
    // 1.15 lies just below its nearest double's tenth boundary; 1.25 is exact and ties to even.
    assert_eq!(format_bytes(1_150_000_000), "1.1 GB");
    assert_eq!(format_bytes(1_250_000_000), "1.2 GB");
    assert_eq!(format_bytes(1_350_000_000), "1.4 GB");
    assert_eq!(format_bytes(1_750_000_000), "1.8 GB");
}

#[test]
fn sample_rates_on_a_half_follow_the_nearest_double() {
    assert_eq!(khz_label(44_150), "44.1 kHz");
    assert_eq!(khz_label(44_250), "44.2 kHz");
    assert_eq!(khz_label(44_750), "44.8 kHz");
    assert_eq!(khz_label(50), "0.1 kHz");
    assert_eq!(khz_label(250), "0.2 kHz");
}

fn float_khz(hz: u32) -> String {
    let khz = f64::from(hz) / 1000.0;
    if (khz - khz.round()).abs() < 1e-9 {
        format!("{:.0} kHz", khz.round())
    } else {
        format!("{khz:.1} kHz")
    }
}

fn float_bytes(bytes: u64) -> String {
    let b = bytes as f64;
    if b >= 1e9 {
        format!("{:.1} GB", b / 1e9)
    } else {
        format!("{:.0} MB", (b / 1e6).max(1.0))
    }
}

#[test]
fn sample_rate_labels_match_the_float_formatting() {
    for hz in 0..=400_000u32 {
        assert_eq!(khz_label(hz), float_khz(hz), "{hz}");
    }
    let mut hz: u32 = 400_000;
    while hz < u32::MAX - 7_919 {
        assert_eq!(khz_label(hz), float_khz(hz), "{hz}");
        assert_eq!(khz_label(hz - hz % 100 + 50), float_khz(hz - hz % 100 + 50), "{hz}");
        hz += 7_919;
    }
    assert_eq!(khz_label(u32::MAX), float_khz(u32::MAX));
}

#[test]
fn byte_labels_match_the_float_formatting() {
    let mut tenth: u64 = 10;
    while tenth < 184_467_440_737 {
        let half = tenth * 100_000_000 + 50_000_000;
        for b in [half - 1, half, half + 1, tenth * 100_000_000] {
            assert_eq!(format_bytes(b), float_bytes(b), "{b}");
        }
        tenth = tenth + 1 + tenth / 1_000;
    }
    let mut b: u64 = 0;
    while b < 1_000_000_000 {
        assert_eq!(format_bytes(b), float_bytes(b), "{b}");
        b += 4_999;
    }
    for k in 0..200u64 {
        let big = u64::MAX - k * 1_234_567_891_011;
        assert_eq!(format_bytes(big), float_bytes(big), "{big}");
    }
}

#[test]
fn the_disk_check_runs_when_kicked_or_due() {
    assert!(disk_check_due(true, 0));
    assert!(!disk_check_due(false, 9_999));
    assert!(disk_check_due(false, 10_000));
}

#[test]
fn free_space_counts_what_the_pass_freed() {
    assert_eq!(effective_free_bytes(Some(100), 50), 150);
    assert_eq!(effective_free_bytes(None, 50), u64::MAX);
    assert_eq!(effective_free_bytes(Some(u64::MAX - 1), 50), u64::MAX);
}

#[test]
fn disk_decisions_become_steps() {
    let mut r = empty_report();
    assert_eq!(decide_step(&mut r, DiskAction::Nothing), HousekeepingStep::Stop);
    assert!(!r.almost_full);
    assert_eq!(decide_step(&mut r, DiskAction::DropOldest(3)), HousekeepingStep::DropOldest(3));
    assert_eq!(decide_step(&mut r, DiskAction::Compact), HousekeepingStep::Compact);
    assert_eq!(decide_step(&mut r, DiskAction::AlmostFull), HousekeepingStep::Stop);
    assert!(r.almost_full);
    record_dropped(&mut r, 2);
    record_compacted(&mut r, 4_100_000_000);
    assert_eq!(r.dropped_undo, 2);
    assert_eq!(r.freed_bytes, 4_100_000_000);
    assert!(r.compacted);
}

#[test]
fn a_pass_that_dropped_undo_steps_says_how_many_and_how_much() {
    let mut h = Housekeeping::new();
    let mut r = empty_report();
    record_dropped(&mut r, 3);
    record_compacted(&mut r, 4_100_000_000);
    let notices = h.after_pass(Some(r));
    let n = notices.undo_dropped.expect("a toast");
    assert_eq!(n.key, "notice.disk.undo_dropped");
    assert_eq!(n.level, NoticeLevel::Warning);
    assert_eq!(n.params.get("count").map(String::as_str), Some("3"));
    assert_eq!(n.params.get("size").map(String::as_str), Some("4.1 GB"));
    assert!(notices.almost_full.is_none());
}

#[test]
fn the_almost_full_banner_shows_once_per_episode() {
    let mut h = Housekeeping::new();
    let mut full = empty_report();
    full.almost_full = true;
    let first = h.after_pass(Some(full));
    let banner = first.almost_full.expect("the banner");
    assert_eq!(banner.key, "notice.disk.almost_full");
    assert_eq!(banner.id.as_deref(), Some("disk_almost_full"));
    assert!(banner.persistent);
    assert!(h.after_pass(Some(full)).almost_full.is_none());
    assert!(h.after_pass(None).almost_full.is_none());
    assert!(h.warned_full);
    assert!(h.after_pass(Some(empty_report())).almost_full.is_none());
    assert!(!h.warned_full);
    assert!(h.after_pass(Some(full)).almost_full.is_some());
}

#[test]
fn the_state_is_journaled_only_when_its_digest_changes() {
    let a = digest_of_serialized(Some(b"{\"rack\":null,\"view\":null}".as_slice()));
    let b = digest_of_serialized(Some(b"{\"rack\":null,\"view\":{}}".as_slice()));
    assert_ne!(a, b);
    assert_eq!(digest_of_serialized(None), 0);
    assert_eq!(digest_of_serialized(Some(b"123456789".as_slice())), 0xCBF4_3926);
    assert!(needs_journal(None, a));
    assert!(!needs_journal(Some(a), a));
    assert!(needs_journal(Some(a), b));
}

#[test]
fn a_json_state_digests_its_compact_serialization() {
    let mut map = serde_json::Map::new();
    map.insert("rack".to_string(), serde_json::Value::Null);
    map.insert("view".to_string(), serde_json::Value::Null);
    let state = serde_json::Value::Object(map);
    let bytes = serde_json::to_vec(&state).unwrap();
    assert_eq!(state_digest(&state), digest_of_serialized(Some(bytes.as_slice())));
    assert_eq!(state_digest(&state), crc32fast::hash(&bytes));
}

#[test]
fn a_disk_check_pass_runs_at_most_three_rounds() {
    assert!(pass_may_run(false, false));
    assert!(!pass_may_run(true, false));
    assert!(!pass_may_run(false, true));
    let mut pass = HousekeepingPass::new();
    for round in 0..3u64 {
        assert_eq!(pass.start_round(RoundFacts::Decided(DiskAction::DropOldest(2))), PassStep::DropOldest(2));
        assert_eq!(pass.after_drop(Some(2)), PassStep::Compact);
        assert_eq!(pass.after_compact(CompactOutcome::Freed(1_000)), PassStep::NextRound);
        assert_eq!(pass.report().dropped_undo, 2 * (round + 1));
    }
    let r = pass.report();
    assert_eq!(pass.start_round(RoundFacts::Decided(DiskAction::Compact)), PassStep::Finished(Some(r)));
    assert_eq!((r.freed_bytes, r.compacted), (3_000, true));
}

#[test]
fn a_disk_check_pass_stops_on_its_guards() {
    let mut pass = HousekeepingPass::new();
    assert_eq!(pass.start_round(RoundFacts::NoDocument), PassStep::Finished(None));
    let mut pass = HousekeepingPass::new();
    match pass.start_round(RoundFacts::Recording) {
        PassStep::Finished(Some(r)) => assert!(r.skipped_recording),
        other => panic!("{other:?}"),
    }
    let mut pass = HousekeepingPass::new();
    match pass.start_round(RoundFacts::Decided(DiskAction::AlmostFull)) {
        PassStep::Finished(Some(r)) => assert!(r.almost_full),
        other => panic!("{other:?}"),
    }
    let mut pass = HousekeepingPass::new();
    assert_eq!(pass.start_round(RoundFacts::Decided(DiskAction::Compact)), PassStep::Compact);
    assert_eq!(pass.after_compact(CompactOutcome::DocumentMoved), PassStep::Finished(Some(empty_report())));
    let mut pass = HousekeepingPass::new();
    assert_eq!(pass.start_round(RoundFacts::Decided(DiskAction::DropOldest(1))), PassStep::DropOldest(1));
    assert_eq!(pass.after_drop(None), PassStep::Finished(Some(empty_report())));
}
