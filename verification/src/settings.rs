//! The settings the commands act on, what a settings write changes live, the saved device
//! preferences, and how a multichannel source is opened (the remembered policy, or the
//! channel-choice dialog).

use vstd::prelude::*;

use crate::error::{is_error_with, IpcError, IpcErrorCode};

verus! {

/// What to do with a multichannel source on open.
#[derive(Debug, Clone, Copy, PartialEq, Eq, Structural)]
pub enum MultichannelPolicy {
    /// Show the channel-choice dialog.
    Ask,
    /// Average the channels.
    AlwaysMix,
    /// Keep the first channel.
    AlwaysFirstChannel,
}

/// The settings the commands read.
#[derive(Debug, Clone, Copy, PartialEq, Eq, Structural)]
pub struct Settings {
    /// How often the engine sends telemetry frames.
    pub telemetry_rate_hz: u32,
    /// The monitoring hint was shown once already.
    pub monitor_hint_shown: bool,
    /// "Memory for audio".
    pub memory_budget_mib: u32,
    /// What to do with a multichannel source on open.
    pub multichannel_policy: MultichannelPolicy,
}

/// The default settings: telemetry at 60 Hz, the monitoring hint not shown yet, 1 GiB for
/// audio, and the channel-choice dialog for multichannel sources.
pub open spec fn default_settings() -> Settings {
    Settings {
        telemetry_rate_hz: 60,
        monitor_hint_shown: false,
        memory_budget_mib: 1024,
        multichannel_policy: MultichannelPolicy::Ask,
    }
}

impl Default for Settings {
    fn default() -> (s: Settings)
        ensures
            s == default_settings(),
    {
        Settings {
            telemetry_rate_hz: 60,
            monitor_hint_shown: false,
            memory_budget_mib: 1024,
            multichannel_policy: MultichannelPolicy::Ask,
        }
    }
}

/// The telemetry rate to push to the running engine after a settings write: the new one when
/// it changed, `None` otherwise (every other setting is irrelevant here).
pub fn telemetry_rate_change(before: &Settings, next: &Settings) -> (r: Option<u32>)
    ensures
        r == (if next.telemetry_rate_hz != before.telemetry_rate_hz {
            Some(next.telemetry_rate_hz)
        } else {
            None
        }),
{
    if next.telemetry_rate_hz != before.telemetry_rate_hz {
        Some(next.telemetry_rate_hz)
    } else {
        None
    }
}

/// The saved device choice (the "saved intent": what the user picked, not what was applied).
#[derive(Debug, Clone, PartialEq, Eq)]
pub struct DevicePrefsDto {
    pub host: String,
    pub input_device: Option<String>,
    /// 1-based.
    pub input_channel: u32,
    pub output_device: Option<String>,
    pub sample_rate_hz: Option<u32>,
    /// `None`: Auto.
    pub buffer_size_frames: Option<u32>,
}

/// How a multichannel source becomes the mono document.
#[derive(Debug, Clone, Copy, PartialEq, Eq, Structural)]
pub enum DownmixChoice {
    /// The average of the channels.
    Average,
    /// One channel (0-based).
    Channel(u32),
}

/// The channel-choice dialog's answer, as the UI sends it back.
#[derive(Debug, Clone, Copy, PartialEq, Eq, Structural)]
pub enum DownmixChoiceDto {
    Average,
    Channel { index: u32 },
}

/// The downmix a dialog answer selects.
pub fn downmix_of_choice(choice: DownmixChoiceDto) -> (d: DownmixChoice)
    ensures
        d == match choice {
            DownmixChoiceDto::Average => DownmixChoice::Average,
            DownmixChoiceDto::Channel { index } => DownmixChoice::Channel(index),
        },
{
    match choice {
        DownmixChoiceDto::Average => DownmixChoice::Average,
        DownmixChoiceDto::Channel { index } => DownmixChoice::Channel(index),
    }
}

/// The downmix a source of `channels` channels opens with under `policy` without asking: mono
/// and bit-identical-channel sources are never ambiguous (the average); otherwise the policy
/// decides, and `None` means the dialog must ask.
pub open spec fn policy_downmix(channels: nat, identical_channels: bool, policy: MultichannelPolicy) -> Option<
    DownmixChoice,
> {
    if channels <= 1 || identical_channels {
        Some(DownmixChoice::Average)
    } else {
        match policy {
            MultichannelPolicy::Ask => None,
            MultichannelPolicy::AlwaysMix => Some(DownmixChoice::Average),
            MultichannelPolicy::AlwaysFirstChannel => Some(DownmixChoice::Channel(0)),
        }
    }
}

/// See [`policy_downmix`].
pub fn resolve_policy_downmix(channels: usize, identical_channels: bool, policy: MultichannelPolicy) -> (r:
    Option<DownmixChoice>)
    ensures
        r == policy_downmix(channels as nat, identical_channels, policy),
{
    if channels <= 1 || identical_channels {
        return Some(DownmixChoice::Average);
    }
    match policy {
        MultichannelPolicy::Ask => None,
        MultichannelPolicy::AlwaysMix => Some(DownmixChoice::Average),
        MultichannelPolicy::AlwaysFirstChannel => Some(DownmixChoice::Channel(0)),
    }
}

/// The open needs the channel-choice dialog: `probe_json` is the probe the dialog shows, as
/// JSON; the UI re-issues the open with the user's choice.
pub fn needs_channel_choice_error(probe_json: &str) -> (e: IpcError)
    ensures
        is_error_with(e, IpcErrorCode::NeedsConfirmation, "dialog.channel_choice"@, "probe"@, probe_json@),
{
    IpcError::new(IpcErrorCode::NeedsConfirmation, "dialog.channel_choice").with_param(
        "probe",
        probe_json,
    )
}

/// The downmix of an open: the dialog's answer when there is one, else the policy's; `Err`
/// asks for the dialog (see [`needs_channel_choice_error`]).
pub fn open_downmix(
    answer: Option<DownmixChoiceDto>,
    channels: usize,
    identical_channels: bool,
    policy: MultichannelPolicy,
    probe_json: &str,
) -> (r: Result<DownmixChoice, IpcError>)
    ensures
        match answer {
            Some(a) => r == Ok::<DownmixChoice, IpcError>(
                match a {
                    DownmixChoiceDto::Average => DownmixChoice::Average,
                    DownmixChoiceDto::Channel { index } => DownmixChoice::Channel(index),
                },
            ),
            None => match policy_downmix(channels as nat, identical_channels, policy) {
                Some(d) => r == Ok::<DownmixChoice, IpcError>(d),
                None => r.is_err() && is_error_with(
                    r->Err_0,
                    IpcErrorCode::NeedsConfirmation,
                    "dialog.channel_choice"@,
                    "probe"@,
                    probe_json@,
                ),
            },
        },
{
    match answer {
        Some(a) => Ok(downmix_of_choice(a)),
        None => match resolve_policy_downmix(channels, identical_channels, policy) {
            Some(d) => Ok(d),
            None => Err(needs_channel_choice_error(probe_json)),
        },
    }
}

} // verus!
