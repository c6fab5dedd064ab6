use std::time::{Duration, UNIX_EPOCH};

use powervoice::error::IpcErrorCode;
use powervoice::files::file_changed_on_disk;
use powervoice::save::{
    apply_write_outcome, check_save_target, SaveWriteOutcome, SidecarBookkeeping,
    estimated_save_output_bytes, flac_bits, format_mapped_notice_params, format_tag,
    io_save_error, is_disk_full_io_error, is_disk_full_kind, needs_full_save, record_save,
    save_format_for_import, save_format_for_recovery, save_format_from_tag, save_format_model,
    save_write_notices, BitDepth, FlacBitDepth, IoFailureKind, OversFound, ProbeFormat,
    SaveBaseline, SaveContainer, SaveDitherPref, SaveDocFacts, SaveGate, SaveIoFailure,
    SaveProbes, SaveRequest, SavedDocState,
};

fn probe_of(container: &str, codec: &str, bits_per_sample: Option<u32>) -> ProbeFormat {
    ProbeFormat { container: container.to_string(), codec: codec.to_string(), bits_per_sample }
}

#[test]
fn save_format_for_import_matches_the_spec_005_promotion_table() {
    type Case = (&'static str, &'static str, Option<u32>, SaveContainer, BitDepth, bool);
    let cases: &[Case] = &[
        ("wave", "pcm_s16le", Some(16), SaveContainer::Wav, BitDepth::Bit16, false),
        ("wave", "pcm_s24le", Some(24), SaveContainer::Wav, BitDepth::Bit24, false),
        ("wave", "pcm_f32le", Some(32), SaveContainer::Wav, BitDepth::Bit32Float, false),
        ("wave", "pcm_u8", Some(8), SaveContainer::Wav, BitDepth::Bit16, true),
        ("wave", "pcm_alaw", None, SaveContainer::Wav, BitDepth::Bit16, true),
        ("wave", "pcm_mulaw", None, SaveContainer::Wav, BitDepth::Bit16, true),
        ("wave", "pcm_s32le", None, SaveContainer::Wav, BitDepth::Bit32Float, true),
        ("wave", "pcm_f64le", None, SaveContainer::Wav, BitDepth::Bit32Float, true),
        ("flac", "flac", Some(8), SaveContainer::Flac, BitDepth::Bit16, false),
        ("flac", "flac", Some(16), SaveContainer::Flac, BitDepth::Bit16, false),
        ("flac", "flac", Some(17), SaveContainer::Flac, BitDepth::Bit24, false),
        ("flac", "flac", Some(24), SaveContainer::Flac, BitDepth::Bit24, false),
        ("flac", "flac", Some(25), SaveContainer::Flac, BitDepth::Bit24, true),
        ("flac", "flac", Some(32), SaveContainer::Flac, BitDepth::Bit24, true),
        ("mp3", "mp3", None, SaveContainer::Wav, BitDepth::Bit24, false),
        ("isomp4", "aac", None, SaveContainer::Wav, BitDepth::Bit24, false),
        ("ogg", "vorbis", None, SaveContainer::Wav, BitDepth::Bit24, false),
    ];
    for &(container, codec, bits, want_container, want_bits, want_mapped) in cases {
        let probe = probe_of(container, codec, bits);
        let (got_container, got_bits, got_mapped) = save_format_for_import(&probe);
        assert_eq!(got_container, want_container, "{container}/{codec}/{bits:?}");
        assert_eq!(got_bits, want_bits, "{container}/{codec}/{bits:?}");
        assert_eq!(got_mapped, want_mapped, "{container}/{codec}/{bits:?}");
    }
}

#[test]
fn io_save_error_classifies_disk_full_and_verify_failed_distinctly() {
    let disk_full = io_save_error(
        if is_disk_full_io_error(&std::io::Error::from(std::io::ErrorKind::StorageFull)) {
            SaveIoFailure::DiskFull
        } else {
            SaveIoFailure::Other
        },
        "full",
    );
    assert_eq!(disk_full.key, "error.save.disk_full");
    let quota = io_save_error(
        if is_disk_full_io_error(&std::io::Error::from(std::io::ErrorKind::QuotaExceeded)) {
            SaveIoFailure::DiskFull
        } else {
            SaveIoFailure::Other
        },
        "quota",
    );
    assert_eq!(quota.key, "error.save.disk_full");
    let verify_failed = io_save_error(SaveIoFailure::FlacVerifyFailed, "mismatch");
    assert_eq!(verify_failed.key, "error.save.verify_failed");
    let other = io_save_error(
        if is_disk_full_io_error(&std::io::Error::from(std::io::ErrorKind::Interrupted)) {
            SaveIoFailure::DiskFull
        } else {
            SaveIoFailure::Other
        },
        "interrupted",
    );
    assert_eq!(other.key, "error.save.io");
    assert_eq!(other.code, IpcErrorCode::Io);
    assert_eq!(other.params.get("message").map(String::as_str), Some("interrupted"));
}

#[test]
fn disk_full_kinds() {
    assert!(is_disk_full_kind(IoFailureKind::StorageFull));
    assert!(is_disk_full_kind(IoFailureKind::QuotaExceeded));
    assert!(is_disk_full_kind(IoFailureKind::FileTooLarge));
    assert!(!is_disk_full_kind(IoFailureKind::NotFound));
    assert!(!is_disk_full_kind(IoFailureKind::Other));
}

fn bound_doc() -> SaveDocFacts {
    SaveDocFacts {
        file_name: Some("take.wav".to_string()),
        len_samples: 48_000,
        save_container: SaveContainer::Wav,
        save_bits: BitDepth::Bit24,
        source_channels: 1,
        multichannel_warned: false,
    }
}

fn roomy() -> SaveProbes {
    SaveProbes { changed_on_disk: false, folder_writable: true, free_bytes: None, wav_too_large: false }
}

#[test]
fn a_second_save_or_save_as_while_one_runs_is_refused() {
    let mut gate = SaveGate::new();
    let doc = bound_doc();
    gate.begin(Some(&doc), &SaveRequest::Save { overwrite: false }, &roomy(), false, false, None).unwrap();
    assert!(gate.is_running());
    let err = gate
        .begin(Some(&doc), &SaveRequest::Save { overwrite: false }, &roomy(), false, false, None)
        .unwrap_err();
    assert_eq!(err.code, IpcErrorCode::Busy);
    assert_eq!(err.key, "error.save.in_progress");
    let err = gate
        .begin(
            Some(&doc),
            &SaveRequest::SaveAs { file_name: "elsewhere.wav".to_string(), container: SaveContainer::Wav, bits: BitDepth::Bit24 },
            &roomy(),
            false,
            false,
            None,
        )
        .unwrap_err();
    assert_eq!(err.code, IpcErrorCode::Busy);
    assert_eq!(err.key, "error.save.in_progress");
    assert!(gate.is_running());
    gate.finish();
    assert!(!gate.is_running());
}

#[test]
fn save_as_flac_refuses_32_bit_float_first() {
    let mut gate = SaveGate::new();
    let err = gate
        .begin(
            None,
            &SaveRequest::SaveAs { file_name: "a.flac".to_string(), container: SaveContainer::Flac, bits: BitDepth::Bit32Float },
            &roomy(),
            false,
            false,
            None,
        )
        .unwrap_err();
    assert_eq!(err.key, "error.save.flac_needs_int_bits");
    assert!(!gate.is_running());
}

#[test]
fn the_save_checklist_runs_in_order() {
    let mut gate = SaveGate::new();
    let save = SaveRequest::Save { overwrite: false };
    assert_eq!(gate.begin(None, &save, &roomy(), false, false, None).unwrap_err().key, "error.document.none");
    let untitled = SaveDocFacts { file_name: None, ..bound_doc() };
    assert_eq!(gate.begin(Some(&untitled), &save, &roomy(), false, false, None).unwrap_err().key, "error.document.untitled");
    let changed = SaveProbes { changed_on_disk: true, ..roomy() };
    let err = gate.begin(Some(&bound_doc()), &save, &changed, false, false, None).unwrap_err();
    assert_eq!(err.key, "dialog.changed_on_disk");
    assert_eq!(err.params.get("name").map(String::as_str), Some("take.wav"));
    let locked = SaveProbes { folder_writable: false, ..roomy() };
    assert_eq!(gate.begin(Some(&bound_doc()), &save, &locked, false, false, None).unwrap_err().key, "error.save.permission");
    let tight = SaveProbes { free_bytes: Some(67_108_864 + 144_000 - 1), ..roomy() };
    assert_eq!(gate.begin(Some(&bound_doc()), &save, &tight, false, false, None).unwrap_err().key, "error.save.disk_full");
    let too_big = SaveProbes { wav_too_large: true, ..roomy() };
    assert_eq!(gate.begin(Some(&bound_doc()), &save, &too_big, false, false, None).unwrap_err().key, "error.save.too_large_for_wav");
    let overs = OversFound { count: 12, peak_dbfs: "0.35".to_string() };
    let err = gate.begin(Some(&bound_doc()), &save, &roomy(), false, false, Some(&overs)).unwrap_err();
    assert_eq!(err.key, "dialog.overs");
    assert_eq!(err.params.get("count").map(String::as_str), Some("12"));
    assert_eq!(err.params.get("peak_dbfs").map(String::as_str), Some("0.35"));
    let stereo = SaveDocFacts { source_channels: 2, ..bound_doc() };
    let err = gate.begin(Some(&stereo), &save, &roomy(), true, false, Some(&overs)).unwrap_err();
    assert_eq!(err.key, "dialog.multichannel_source");
    assert!(!gate.is_running());
    let fits = SaveProbes { free_bytes: Some(67_108_864 + 144_000), changed_on_disk: true, ..roomy() };
    gate.begin(Some(&stereo), &SaveRequest::Save { overwrite: true }, &fits, true, true, Some(&overs)).unwrap();
    assert!(gate.is_running());
}

#[test]
fn estimates_and_tags() {
    assert_eq!(estimated_save_output_bytes(48_000, BitDepth::Bit24), 144_000);
    assert_eq!(estimated_save_output_bytes(u64::MAX, BitDepth::Bit16), u64::MAX);
    assert_eq!(format_tag(SaveContainer::Wav, BitDepth::Bit32Float), "wav32f");
    assert_eq!(format_tag(SaveContainer::Flac, BitDepth::Bit32Float), "flac24");
    assert_eq!(save_format_from_tag("flac16"), Some((SaveContainer::Flac, BitDepth::Bit16)));
    assert_eq!(save_format_from_tag("mp3"), None);
    assert_eq!(flac_bits(BitDepth::Bit16), FlacBitDepth::Int16);
    assert_eq!(flac_bits(BitDepth::Bit32Float), FlacBitDepth::Int24);
}

#[test]
fn a_recovered_document_keeps_its_last_saved_format_else_its_sources() {
    assert_eq!(save_format_for_recovery(Some("wav16"), None), (SaveContainer::Wav, BitDepth::Bit16));
    let flac = probe_of("flac", "flac", Some(16));
    assert_eq!(save_format_for_recovery(Some("bogus"), Some(&flac)), (SaveContainer::Flac, BitDepth::Bit16));
    assert_eq!(save_format_for_recovery(None, None), (SaveContainer::Wav, BitDepth::Bit24));
}

#[test]
fn the_format_mapped_notice_names_both_formats() {
    assert_eq!(format_mapped_notice_params(&probe_of("wave", "pcm_u8", Some(8)), BitDepth::Bit16), ("8-bit", "16-bit"));
    assert_eq!(format_mapped_notice_params(&probe_of("flac", "flac", Some(32)), BitDepth::Bit24), ("25-32-bit", "24-bit"));
    assert_eq!(format_mapped_notice_params(&probe_of("wave", "pcm_s32le", None), BitDepth::Bit32Float), ("32-bit int", "32-bit float"));
}

#[test]
fn the_sidecar_format_never_dithers_a_float_save() {
    let m = save_format_model(SaveContainer::Wav, BitDepth::Bit32Float, SaveDitherPref::Tpdf);
    assert_eq!((m.container.as_str(), m.sample_format.as_str(), m.dither.as_str()), ("wav", "f32", "none"));
    let m = save_format_model(SaveContainer::Flac, BitDepth::Bit24, SaveDitherPref::Tpdf);
    assert_eq!((m.container.as_str(), m.sample_format.as_str(), m.dither.as_str()), ("flac", "pcm24", "tpdf"));
}

#[test]
fn a_sidecar_only_save_happens_when_nothing_audible_changed() {
    let base = SaveBaseline {
        last_saved_audio_rev: 5,
        save_container: SaveContainer::Wav,
        save_bits: BitDepth::Bit24,
        save_dither: SaveDitherPref::Tpdf,
    };
    assert!(!needs_full_save(false, 5, false, &base, SaveContainer::Wav, BitDepth::Bit24, SaveDitherPref::Tpdf, false));
    assert!(needs_full_save(false, 6, false, &base, SaveContainer::Wav, BitDepth::Bit24, SaveDitherPref::Tpdf, false));
    assert!(needs_full_save(true, 5, false, &base, SaveContainer::Wav, BitDepth::Bit24, SaveDitherPref::Tpdf, false));
    assert!(needs_full_save(false, 5, false, &base, SaveContainer::Wav, BitDepth::Bit24, SaveDitherPref::Tpdf, true));
}

#[test]
fn save_notices_follow_the_sidecar_outcome() {
    let v = save_write_notices(SaveContainer::Flac, true, 3, "a.flac");
    assert_eq!(v.len(), 1);
    assert_eq!(v[0].key, "notice.save.markers_not_in_flac");
    assert_eq!(v[0].params, vec![("name", "a.flac".to_string()), ("count", "3".to_string())]);
    assert!(save_write_notices(SaveContainer::Wav, true, 3, "a.wav").is_empty());
    let failed = save_write_notices(SaveContainer::Flac, false, 0, "a.flac");
    assert_eq!(failed[0].key, "notice.save.sidecar_failed.flac");
}

#[test]
fn save_posts_the_metadata_dropped_notice_once() {
    let mut state = SavedDocState {
        had_foreign_metadata: true,
        metadata_notice_shown: false,
        multichannel_warned: false,
        recovered: true,
    };
    let first = record_save(&mut state, "in.wav").expect("the first save warns");
    assert_eq!(first.key, "notice.save.metadata_dropped");
    assert!(state.multichannel_warned);
    assert!(!state.recovered);
    assert!(record_save(&mut state, "in.wav").is_none());
}

#[test]
fn file_times_read_in_milliseconds_since_the_epoch() {
    assert_eq!(powervoice::files::unix_ms_of(UNIX_EPOCH + Duration::from_millis(1_500)), 1_500);
    assert_eq!(powervoice::files::unix_ms_of(UNIX_EPOCH), 0);
    assert_eq!(powervoice::files::unix_ms_of(UNIX_EPOCH - Duration::from_secs(5)), 0);
    assert_eq!(powervoice::files::stored_millis(Some(1u128 << 64 | 7)), 7);
}

#[test]
fn a_bound_file_changed_when_its_size_or_time_differs() {
    assert!(!file_changed_on_disk(Some((10, 20)), 10, 20));
    assert!(file_changed_on_disk(Some((11, 20)), 10, 20));
    assert!(file_changed_on_disk(Some((10, 21)), 10, 20));
    assert!(!file_changed_on_disk(None, 10, 20));
}

#[test]
fn a_failed_sidecar_write_keeps_the_old_baseline_for_a_retry() {
    let before = SidecarBookkeeping {
        audio_crc32: 1,
        file_size_bytes: 2,
        file_mtime_unix_ms: 3,
        last_saved_audio_rev: 4,
        needs_backup: true,
        last_written_markers: vec!["old"],
        persisted_digest: 5,
    };
    let failed = SaveWriteOutcome { audio_crc32: 9, file_facts: None, sidecar_written: false, persisted_digest: 77 };
    let after = apply_write_outcome(before.clone(), 8, vec!["new"], &failed);
    assert_eq!((after.audio_crc32, after.file_size_bytes, after.file_mtime_unix_ms, after.last_saved_audio_rev), (9, 0, 0, 8));
    assert!(after.needs_backup);
    assert_eq!(after.last_written_markers, vec!["old"]);
    assert_eq!(after.persisted_digest, 5);
    let written = SaveWriteOutcome { audio_crc32: 9, file_facts: Some((100, 200)), sidecar_written: true, persisted_digest: 77 };
    let after = apply_write_outcome(before, 8, vec!["new"], &written);
    assert_eq!((after.file_size_bytes, after.file_mtime_unix_ms), (100, 200));
    assert!(!after.needs_backup);
    assert_eq!(after.last_written_markers, vec!["new"]);
    assert_eq!(after.persisted_digest, 77);
    assert!(check_save_target(true, true).is_ok());
    assert_eq!(check_save_target(true, false).unwrap_err().key, "error.document.none");
}

#[test]
fn peaks_and_save_before_any_open_report_no_document() {
    let peaks_err = powervoice::save::no_document();
    assert_eq!(peaks_err.code, IpcErrorCode::NotFound);
    assert_eq!(peaks_err.key, "error.document.none");
    let mut gate = SaveGate::new();
    let save_err = gate
        .begin(None, &SaveRequest::Save { overwrite: false }, &roomy(), false, false, None)
        .unwrap_err();
    assert_eq!(save_err.key, "error.document.none");
}
