//! Audio devices as the UI sees them: the output status dot, the device notices (fallbacks, a
//! missing or lost device, a reconnect) turned into i18n toasts and banners, and the input
//! channel a saved preference selects.

use vstd::prelude::*;

use crate::error::{is_error_with, IpcError, IpcErrorCode};
use crate::events::{is_banner, is_toast, Notice, NoticeLevel};
use crate::settings::DevicePrefsDto;
use crate::text::{decimal, decimal_string};

verus! {

/// A stream direction.
#[derive(Debug, Clone, Copy, PartialEq, Eq, Structural)]
pub enum Direction {
    Input,
    Output,
}

/// The text a direction reads as in notice keys and banner ids.
pub open spec fn dir_text(d: Direction) -> Seq<char> {
    match d {
        Direction::Input => "input"@,
        Direction::Output => "output"@,
    }
}

/// "input" / "output".
pub fn dir_str(d: Direction) -> (s: &'static str)
    ensures
        s@ == dir_text(d),
{
    match d {
        Direction::Input => "input",
        Direction::Output => "output",
    }
}

/// A device's status dot.
#[derive(Debug, Clone, Copy, PartialEq, Eq, Structural)]
pub enum DeviceStatusDto {
    NotSelected,
    Healthy,
    Fallback,
    Lost,
}

/// Transport state (`transport_state` event, transport command results). While playing, the
/// moving playhead comes from telemetry; `playhead_samples` is then where the pass began.
#[derive(Debug, Clone, Copy, PartialEq, Eq, Structural)]
pub struct TransportStateDto {
    pub playing: bool,
    pub playhead_samples: u64,
    pub play_start_samples: u64,
    pub doc_len_samples: u64,
    pub doc_rate_hz: u32,
    /// A document is loaded and an output device is open.
    pub can_play: bool,
}

/// One device of the selected host.
#[derive(Debug, Clone, PartialEq, Eq)]
pub struct DeviceDto {
    /// Unique name (the key saved in the prefs).
    pub name: String,
    /// Display name.
    pub base_name: String,
    pub input: bool,
    pub output: bool,
    /// Input channels (0 while unknown).
    pub input_channels: u16,
    /// A "follow the system default" pseudo-device.
    pub system_default: bool,
    /// Its capture side monitors an output (hidden from the input list).
    pub input_is_monitor: bool,
    /// The common rates the output supports (empty while unknown).
    pub output_rates_hz: Vec<u32>,
    /// The common buffer sizes within the output's range ("Auto" is implicit).
    pub output_buffer_sizes: Vec<u32>,
}

/// What the audio engine reports about the devices, with the plain values each notice shows.
#[derive(Debug, Clone, PartialEq, Eq)]
pub enum DeviceNotice {
    /// The device could not run at the requested rate.
    RateFallback { device: String, requested_hz: u32, applied_hz: u32 },
    /// The device could not use the requested buffer size.
    BufferFallback { device: String, requested_frames: u32, applied_frames: u32 },
    /// The device could not record the requested channel.
    ChannelFallback { device: String, requested: u16, applied: u16 },
    /// The saved device is gone; `using` is the default used instead, if there is one.
    DeviceNotFound { direction: Direction, saved: String, using: Option<String> },
    /// The saved audio host is gone (both are host names).
    HostNotFound { saved: String, using: String },
    /// The open device disappeared.
    DeviceLost {
        direction: Direction,
        device: String,
        recording_stopped: bool,
        playback_stopped: bool,
        recording_continues: bool,
    },
    /// A lost device came back.
    DeviceReconnected { direction: Direction, device: String },
    /// The audio backend reported an error on the device.
    BackendError { device: String, message: String },
    /// The device runs at another rate than the document and no resampler is available.
    ResampleUnavailable { device: String, doc_rate_hz: u32, device_rate_hz: u32 },
}

/// The banner id a direction's lost/reconnected notices share ("device:input" / "device:output").
pub open spec fn device_banner_id(d: Direction) -> Seq<char> {
    match d {
        Direction::Input => "device:input"@,
        Direction::Output => "device:output"@,
    }
}

fn device_banner_str(d: Direction) -> (s: &'static str)
    ensures
        s@ == device_banner_id(d),
{
    match d {
        Direction::Input => "device:input",
        Direction::Output => "device:output",
    }
}

/// The key of a missing saved device with a default in its place.
pub open spec fn not_found_key(d: Direction) -> Seq<char> {
    match d {
        Direction::Input => "notice.device.not_found.input"@,
        Direction::Output => "notice.device.not_found.output"@,
    }
}

/// The key of a lost device.
pub open spec fn lost_key(d: Direction) -> Seq<char> {
    match d {
        Direction::Input => "notice.device.lost.input"@,
        Direction::Output => "notice.device.lost.output"@,
    }
}

/// The key of a reconnected device.
pub open spec fn reconnected_key(d: Direction) -> Seq<char> {
    match d {
        Direction::Input => "notice.device.reconnected.input"@,
        Direction::Output => "notice.device.reconnected.output"@,
    }
}

/// The empty placeholder map.
pub open spec fn no_params() -> Map<Seq<char>, Seq<char>> {
    Map::<Seq<char>, Seq<char>>::empty()
}

/// The notice the UI shows for a device notice: fallbacks, a missing host or device and a
/// backend error are warning toasts; a resampler that isn't there is an error toast; a lost
/// device is an error banner and its reconnect an info banner under the same per-direction id,
/// so the reconnect replaces the loss.
pub open spec fn device_notice_spec(notice: DeviceNotice, n: Notice) -> bool {
    match notice {
        DeviceNotice::RateFallback { device, requested_hz, applied_hz } => {
            &&& is_toast(n, NoticeLevel::Warning, "notice.device.rate_fallback"@)
            &&& n.params@ == no_params().insert("device"@, device@).insert(
                "requested"@,
                decimal(requested_hz as nat),
            ).insert("applied"@, decimal(applied_hz as nat))
        },
        DeviceNotice::BufferFallback { device, requested_frames, applied_frames } => {
            &&& is_toast(n, NoticeLevel::Warning, "notice.device.buffer_fallback"@)
            &&& n.params@ == no_params().insert("device"@, device@).insert(
                "requested"@,
                decimal(requested_frames as nat),
            ).insert("applied"@, decimal(applied_frames as nat))
        },
        DeviceNotice::ChannelFallback { device, requested, applied } => {
            &&& is_toast(n, NoticeLevel::Warning, "notice.device.channel_fallback"@)
            &&& n.params@ == no_params().insert("device"@, device@).insert(
                "requested"@,
                decimal(requested as nat),
            ).insert("applied"@, decimal(applied as nat))
        },
        DeviceNotice::DeviceNotFound { direction, saved, using } => match using {
            Some(u) => {
                &&& is_toast(n, NoticeLevel::Warning, not_found_key(direction))
                &&& n.params@ == no_params().insert("device"@, saved@).insert("using"@, u@)
            },
            None => {
                &&& is_toast(n, NoticeLevel::Warning, "notice.device.not_found_no_default"@)
                &&& n.params@ == no_params().insert("device"@, saved@)
            },
        },
        DeviceNotice::HostNotFound { saved, using } => {
            &&& is_toast(n, NoticeLevel::Warning, "notice.device.host_not_found"@)
            &&& n.params@ == no_params().insert("host"@, saved@).insert("using"@, using@)
        },
        DeviceNotice::DeviceLost { direction, device, .. } => {
            &&& is_banner(n, NoticeLevel::Error, device_banner_id(direction), lost_key(direction))
            &&& n.params@ == no_params().insert("device"@, device@)
        },
        DeviceNotice::DeviceReconnected { direction, device } => {
            &&& is_banner(
                n,
                NoticeLevel::Info,
                device_banner_id(direction),
                reconnected_key(direction),
            )
            &&& n.params@ == no_params().insert("device"@, device@)
        },
        DeviceNotice::BackendError { device, .. } => {
            &&& is_toast(n, NoticeLevel::Warning, "notice.device.backend_error"@)
            &&& n.params@ == no_params().insert("device"@, device@)
        },
        DeviceNotice::ResampleUnavailable { device, doc_rate_hz, device_rate_hz } => {
            &&& is_toast(n, NoticeLevel::Error, "notice.device.resample_unavailable"@)
            &&& n.params@ == no_params().insert("device"@, device@).insert(
                "doc_rate"@,
                decimal(doc_rate_hz as nat),
            ).insert("rate"@, decimal(device_rate_hz as nat))
        },
    }
}

/// Device notice -> i18n notice (see [`device_notice_spec`]).
pub fn notice_from_device(notice: &DeviceNotice) -> (n: Notice)
    ensures
        device_notice_spec(*notice, n),
{
    match notice {
        DeviceNotice::RateFallback { device, requested_hz, applied_hz } => {
            let requested = decimal_string(*requested_hz as u64);
            let applied = decimal_string(*applied_hz as u64);
            Notice::toast(NoticeLevel::Warning, "notice.device.rate_fallback").with_param(
                "device",
                device.as_str(),
            ).with_param("requested", requested.as_str()).with_param("applied", applied.as_str())
        },
        DeviceNotice::BufferFallback { device, requested_frames, applied_frames } => {
            let requested = decimal_string(*requested_frames as u64);
            let applied = decimal_string(*applied_frames as u64);
            Notice::toast(NoticeLevel::Warning, "notice.device.buffer_fallback").with_param(
                "device",
                device.as_str(),
            ).with_param("requested", requested.as_str()).with_param("applied", applied.as_str())
        },
        DeviceNotice::ChannelFallback { device, requested, applied } => {
            let requested = decimal_string(*requested as u64);
            let applied = decimal_string(*applied as u64);
            Notice::toast(NoticeLevel::Warning, "notice.device.channel_fallback").with_param(
                "device",
                device.as_str(),
            ).with_param("requested", requested.as_str()).with_param("applied", applied.as_str())
        },
        DeviceNotice::DeviceNotFound { direction, saved, using } => match using {
            Some(u) => {
                let key = match direction {
                    Direction::Input => "notice.device.not_found.input",
                    Direction::Output => "notice.device.not_found.output",
                };
                Notice::toast(NoticeLevel::Warning, key).with_param("device", saved.as_str()).with_param(
                    "using",
                    u.as_str(),
                )
            },
            None => Notice::toast(NoticeLevel::Warning, "notice.device.not_found_no_default").with_param(
                "device",
                saved.as_str(),
            ),
        },
        DeviceNotice::HostNotFound { saved, using } => Notice::toast(
            NoticeLevel::Warning,
            "notice.device.host_not_found",
        ).with_param("host", saved.as_str()).with_param("using", using.as_str()),
        DeviceNotice::DeviceLost { direction, device, .. } => {
            let key = match direction {
                Direction::Input => "notice.device.lost.input",
                Direction::Output => "notice.device.lost.output",
            };
            Notice::banner(NoticeLevel::Error, device_banner_str(*direction), key).with_param(
                "device",
                device.as_str(),
            )
        },
        DeviceNotice::DeviceReconnected { direction, device } => {
            let key = match direction {
                Direction::Input => "notice.device.reconnected.input",
                Direction::Output => "notice.device.reconnected.output",
            };
            Notice::banner(NoticeLevel::Info, device_banner_str(*direction), key).with_param(
                "device",
                device.as_str(),
            )
        },
        DeviceNotice::BackendError { device, .. } => Notice::toast(
            NoticeLevel::Warning,
            "notice.device.backend_error",
        ).with_param("device", device.as_str()),
        DeviceNotice::ResampleUnavailable { device, doc_rate_hz, device_rate_hz } => {
            let doc_rate = decimal_string(*doc_rate_hz as u64);
            let rate = decimal_string(*device_rate_hz as u64);
            Notice::toast(NoticeLevel::Error, "notice.device.resample_unavailable").with_param(
                "device",
                device.as_str(),
            ).with_param("doc_rate", doc_rate.as_str()).with_param("rate", rate.as_str())
        },
    }
}

/// A device's loss and its reconnect share one banner id, so the reconnect banner replaces the
/// loss banner.
pub proof fn lemma_reconnect_replaces_loss(
    direction: Direction,
    device: String,
    recording_stopped: bool,
    playback_stopped: bool,
    recording_continues: bool,
    lost: Notice,
    back: Notice,
)
    requires
        device_notice_spec(
            DeviceNotice::DeviceLost {
                direction,
                device,
                recording_stopped,
                playback_stopped,
                recording_continues,
            },
            lost,
        ),
        device_notice_spec(DeviceNotice::DeviceReconnected { direction, device }, back),
    ensures
        lost.persistent && back.persistent,
        lost.id.is_some() && back.id.is_some(),
        lost.id.unwrap()@ == back.id.unwrap()@,
{
}

/// The input channel a saved preference selects: its 1-based number, where 0 or a number too
/// large for a channel index reads as channel 1.
pub fn engine_input_channel(saved: u32) -> (c: u16)
    ensures
        c == (if 1 <= saved <= u16::MAX { saved as u16 } else { 1u16 }),
{
    if saved == 0 || saved > 65535 {
        1
    } else {
        saved as u16
    }
}

/// The Audio Devices dialog's data.
#[derive(Debug, Clone, PartialEq, Eq)]
pub struct DevicesDto {
    pub hosts: Vec<String>,
    pub host: Option<String>,
    pub devices: Vec<DeviceDto>,
    pub default_input: Option<String>,
    pub default_output: Option<String>,
    /// The saved intent.
    pub prefs: DevicePrefsDto,
    /// Applied output device, rate and buffer (`None` = Auto / not open).
    pub output_device: Option<String>,
    pub output_rate_hz: Option<u32>,
    pub output_buffer_frames: Option<u32>,
    pub output_status: DeviceStatusDto,
    /// The configured input device and its status dot.
    pub input_device: Option<String>,
    pub input_status: DeviceStatusDto,
}

/// A device command found the audio engine gone (the app is shutting down).
pub fn engine_stopped() -> (e: IpcError)
    ensures
        is_error_with(e, IpcErrorCode::Internal, "error.internal"@, "message"@, "the audio engine is not running"@),
{
    IpcError::internal("the audio engine is not running")
}

/// A device selection is saved as the new preference once applied, unless the output device
/// was lost doing so.
pub fn keeps_device_selection(output_status: DeviceStatusDto) -> (r: bool)
    ensures
        r == (output_status != DeviceStatusDto::Lost),
{
    output_status != DeviceStatusDto::Lost
}

} // verus!
