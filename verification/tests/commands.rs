use powervoice::error::IpcErrorCode;
use powervoice::settings::{
    downmix_of_choice, needs_channel_choice_error, open_downmix, resolve_policy_downmix,
    telemetry_rate_change, DownmixChoice, DownmixChoiceDto, MultichannelPolicy, Settings,
};

#[test]
fn telemetry_rate_change_is_none_when_unchanged() {
    let before = Settings::default();
    let next = Settings::default();
    assert_eq!(telemetry_rate_change(&before, &next), None);
}

#[test]
fn telemetry_rate_change_reports_the_new_rate() {
    let before = Settings::default();
    let next = Settings {
        telemetry_rate_hz: 30,
        ..Settings::default()
    };
    assert_eq!(telemetry_rate_change(&before, &next), Some(30));
}

#[test]
fn telemetry_rate_change_ignores_unrelated_setting_changes() {
    let before = Settings::default();
    let next = Settings {
        monitor_hint_shown: true,
        ..Settings::default()
    };
    assert_eq!(telemetry_rate_change(&before, &next), None);
}

#[test]
fn mono_never_needs_a_dialog() {
    for policy in [
        MultichannelPolicy::Ask,
        MultichannelPolicy::AlwaysMix,
        MultichannelPolicy::AlwaysFirstChannel,
    ] {
        assert_eq!(resolve_policy_downmix(1, false, policy), Some(DownmixChoice::Average));
    }
}

#[test]
fn identical_channels_never_need_a_dialog_even_when_asking() {
    assert_eq!(
        resolve_policy_downmix(2, true, MultichannelPolicy::Ask),
        Some(DownmixChoice::Average)
    );
}

#[test]
fn ambiguous_stereo_with_ask_needs_the_dialog() {
    assert_eq!(resolve_policy_downmix(2, false, MultichannelPolicy::Ask), None);
}

#[test]
fn always_mix_policy_skips_the_dialog() {
    assert_eq!(
        resolve_policy_downmix(2, false, MultichannelPolicy::AlwaysMix),
        Some(DownmixChoice::Average)
    );
}

#[test]
fn always_first_channel_policy_picks_index_zero() {
    assert_eq!(
        resolve_policy_downmix(2, false, MultichannelPolicy::AlwaysFirstChannel),
        Some(DownmixChoice::Channel(0))
    );
}

#[test]
fn needs_channel_choice_error_carries_the_probe_as_json() {
    let mut probe = serde_json::Map::new();
    probe.insert(
        "channels".to_string(),
        serde_json::Value::Array(vec![serde_json::Value::from("L"), serde_json::Value::from("R")]),
    );
    probe.insert("suggested_channel".to_string(), serde_json::Value::from(0u32));
    probe.insert(
        "channel_peaks_dbfs".to_string(),
        serde_json::Value::Array(vec![serde_json::Value::from(-6.0), serde_json::Value::from(-60.0)]),
    );
    let json = serde_json::Value::Object(probe).to_string();
    let err = needs_channel_choice_error(&json);
    assert_eq!(err.code, IpcErrorCode::NeedsConfirmation);
    assert_eq!(err.key, "dialog.channel_choice");
    let text = err.params.get("probe").expect("a probe param");
    let parsed: serde_json::Value = serde_json::from_str(text).unwrap();
    assert_eq!(parsed["channels"].as_array().unwrap().len(), 2);
    assert_eq!(parsed["suggested_channel"].as_u64(), Some(0));
    assert!((parsed["channel_peaks_dbfs"][0].as_f64().unwrap() - (-6.0)).abs() < 1e-9);
}

#[test]
fn the_dialog_answer_wins_over_the_policy() {
    assert_eq!(
        open_downmix(Some(DownmixChoiceDto::Channel { index: 1 }), 2, false, MultichannelPolicy::AlwaysMix, "{}").unwrap(),
        DownmixChoice::Channel(1)
    );
    assert_eq!(downmix_of_choice(DownmixChoiceDto::Average), DownmixChoice::Average);
    let err = open_downmix(None, 2, false, MultichannelPolicy::Ask, "{\"x\":1}").unwrap_err();
    assert_eq!(err.key, "dialog.channel_choice");
    assert_eq!(err.params.get("probe").map(String::as_str), Some("{\"x\":1}"));
    assert_eq!(
        open_downmix(None, 2, false, MultichannelPolicy::AlwaysFirstChannel, "{}").unwrap(),
        DownmixChoice::Channel(0)
    );
}

#[test]
fn default_settings_read_as_documented() {
    let s = Settings::default();
    assert_eq!(s.telemetry_rate_hz, 60);
    assert!(!s.monitor_hint_shown);
    assert_eq!(s.multichannel_policy, MultichannelPolicy::Ask);
}
