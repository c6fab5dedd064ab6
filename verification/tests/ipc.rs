use powervoice::error::{IpcError, IpcErrorCode, Params};
use powervoice::events::{
    notice_from_error, rack_notice_event, EventName, Notice, NoticeLevel, RackNoticeKind,
};

#[test]
fn builders_populate_code_key_and_params() {
    let err = IpcError::new(IpcErrorCode::InvalidArgument, "error.invalid_argument")
        .with_param("field", "sample_rate_hz");
    assert_eq!(err.code, IpcErrorCode::InvalidArgument);
    assert_eq!(err.key, "error.invalid_argument");
    assert_eq!(
        err.params.get("field").map(String::as_str),
        Some("sample_rate_hz")
    );
}

#[test]
fn not_while_recording_uses_the_spec_004_ac_15_key() {
    let err = IpcError::not_while_recording();
    assert_eq!(err.key, "error.not_while_recording");
    assert_eq!(err.code, IpcErrorCode::NotWhileRecording);
}

#[test]
fn io_error_conversion_sets_the_io_code() {
    let io_err = std::io::Error::new(std::io::ErrorKind::NotFound, "nope");
    let err: IpcError = io_err.into();
    assert_eq!(err.code, IpcErrorCode::Io);
    assert_eq!(err.key, "error.io");
}

#[test]
fn io_error_conversion_carries_the_error_text() {
    let io_err = std::io::Error::new(std::io::ErrorKind::NotFound, "nope");
    let err: IpcError = io_err.into();
    assert_eq!(err.params.get("message").map(String::as_str), Some("nope"));
    assert_eq!(err.params.len(), 1);
}

#[test]
fn event_name_as_str_matches_the_literal_name() {
    assert_eq!(EventName::notice.as_str(), "notice");
}

#[test]
fn every_event_name_reads_as_its_variant() {
    assert_eq!(EventName::job_progress.as_str(), "job_progress");
    assert_eq!(EventName::document_changed.as_str(), "document_changed");
    assert_eq!(EventName::history_state.as_str(), "history_state");
}

#[test]
fn toast_is_transient_and_unidentified() {
    let toast = Notice::toast(NoticeLevel::Info, "notice.example").with_param("n", "3");
    assert!(!toast.persistent);
    assert_eq!(toast.id, None);
    assert_eq!(toast.params.get("n").map(String::as_str), Some("3"));
    assert_eq!(toast.key, "notice.example");
}

#[test]
fn banner_is_persistent_and_identified() {
    let banner = Notice::banner(NoticeLevel::Error, "device:output", "notice.device_lost");
    assert!(banner.persistent);
    assert_eq!(banner.id.as_deref(), Some("device:output"));
    assert_eq!(banner.level, NoticeLevel::Error);
}

#[test]
fn clearing_a_banner_names_its_id() {
    let clear = Notice::clear_banner("disk_almost_full");
    assert!(clear.cleared);
    assert!(clear.persistent);
    assert_eq!(clear.id.as_deref(), Some("disk_almost_full"));
}

#[test]
fn setting_a_param_twice_keeps_the_last_value() {
    let params = Params::new().with("a".to_string(), "1".to_string()).with("a".to_string(), "2".to_string());
    assert_eq!(params.len(), 1);
    assert_eq!(params.get("a").map(String::as_str), Some("2"));
    assert!(params.get("b").is_none());
}

#[test]
fn an_error_toast_copies_the_key_and_every_param() {
    let err = IpcError::new(IpcErrorCode::Io, "error.export.io")
        .with_param("message", "disk gone")
        .with_param("name", "a.wav");
    let notice = notice_from_error(&err);
    assert_eq!(notice.level, NoticeLevel::Error);
    assert_eq!(notice.key, "error.export.io");
    assert!(!notice.persistent);
    assert_eq!(notice.params.len(), 2);
    assert_eq!(notice.params.get("message").map(String::as_str), Some("disk gone"));
    assert_eq!(notice.params.get("name").map(String::as_str), Some("a.wav"));
}

#[test]
fn internal_and_busy_builders() {
    let e = IpcError::internal("boom");
    assert_eq!(e.code, IpcErrorCode::Internal);
    assert_eq!(e.key, "error.internal");
    assert_eq!(e.params.get("message").map(String::as_str), Some("boom"));
    let b = IpcError::document_busy();
    assert_eq!(b.code, IpcErrorCode::Busy);
    assert_eq!(b.key, "error.document_busy");
    assert_eq!(b.params.len(), 0);
}

#[test]
fn rack_notices_are_forwarded_or_only_logged() {
    assert_eq!(rack_notice_event(RackNoticeKind::ParamChanged), Some(EventName::param_changed));
    assert_eq!(rack_notice_event(RackNoticeKind::LatencyChanged), Some(EventName::rack_latency));
    assert_eq!(rack_notice_event(RackNoticeKind::SlotFailed), None);
    assert_eq!(rack_notice_event(RackNoticeKind::SlotRestarted), None);
}
