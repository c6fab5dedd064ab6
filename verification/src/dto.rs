//! The shapes the commands exchange with the UI, and how the library's own values become
//! them: edit results, markers, the undo/redo state, the clipboard, the waveform view's saved
//! settings, the analyzer's settings and the ACX check's rule statuses.

use vstd::prelude::*;

use crate::document::{ClipboardInfo, EditResult, HistoryState, PasteTarget};
use crate::error::Params;
use crate::markers::{MarkerInfo, MarkerKindInfo, MarkerRangeEditKind};
use crate::save::SaveContainer;
use crate::text::str_eq;

verus! {

/// Basic app identity shown by the UI at startup.
#[derive(Debug, Clone, PartialEq, Eq)]
pub struct AppInfo {
    pub name: String,
    pub version: String,
}

/// The app's identity: "PowerVoice" at `version`.
pub fn app_info(version: &str) -> (a: AppInfo)
    ensures
        a.name@ == "PowerVoice"@,
        a.version@ == version@,
{
    AppInfo { name: "PowerVoice".to_owned(), version: version.to_owned() }
}

/// `[start_sample, end_sample)` document samples.
#[derive(Debug, Clone, Copy, PartialEq, Eq, Structural)]
pub struct WaveformSelectionDto {
    pub start_sample: u64,
    pub end_sample: u64,
}

/// The time ruler's display format (also the clock's and every time readout's).
#[derive(Debug, Clone, Copy, PartialEq, Eq, Structural)]
pub enum TimeRulerFormatDto {
    Timecode,
    Samples,
    Seconds,
}

impl Default for TimeRulerFormatDto {
    /// Timecode.
    fn default() -> (f: TimeRulerFormatDto)
        ensures
            f == TimeRulerFormatDto::Timecode,
    {
        TimeRulerFormatDto::Timecode
    }
}

/// The amplitude ruler's unit.
#[derive(Debug, Clone, Copy, PartialEq, Eq, Structural)]
pub enum AmplitudeRulerModeDto {
    Dbfs,
    Percent,
}

/// The text a time ruler format is saved as.
pub open spec fn time_ruler_text(f: TimeRulerFormatDto) -> Seq<char> {
    match f {
        TimeRulerFormatDto::Timecode => "timecode"@,
        TimeRulerFormatDto::Samples => "samples"@,
        TimeRulerFormatDto::Seconds => "seconds"@,
    }
}

/// "timecode" / "samples" / "seconds".
pub fn time_ruler_format_str(f: TimeRulerFormatDto) -> (s: &'static str)
    ensures
        s@ == time_ruler_text(f),
{
    match f {
        TimeRulerFormatDto::Timecode => "timecode",
        TimeRulerFormatDto::Samples => "samples",
        TimeRulerFormatDto::Seconds => "seconds",
    }
}

/// The format a saved text restores: "samples" and "seconds" name theirs; anything else,
/// including nothing, is timecode.
pub open spec fn time_ruler_of_text(s: Option<Seq<char>>) -> TimeRulerFormatDto {
    match s {
        Some(t) => if t == "samples"@ {
            TimeRulerFormatDto::Samples
        } else if t == "seconds"@ {
            TimeRulerFormatDto::Seconds
        } else {
            TimeRulerFormatDto::Timecode
        },
        None => TimeRulerFormatDto::Timecode,
    }
}

/// See [`time_ruler_of_text`].
pub fn time_ruler_format_of(s: Option<&str>) -> (f: TimeRulerFormatDto)
    ensures
        f == time_ruler_of_text(
            match s {
                Some(t) => Some(t@),
                None => None,
            },
        ),
{
    match s {
        Some(t) => if str_eq(t, "samples") {
            TimeRulerFormatDto::Samples
        } else if str_eq(t, "seconds") {
            TimeRulerFormatDto::Seconds
        } else {
            TimeRulerFormatDto::Timecode
        },
        None => TimeRulerFormatDto::Timecode,
    }
}

/// A format saved as text restores as itself.
pub proof fn lemma_time_ruler_round_trip(f: TimeRulerFormatDto)
    ensures
        time_ruler_of_text(Some(time_ruler_text(f))) == f,
{
    reveal_strlit("timecode");
    reveal_strlit("samples");
    reveal_strlit("seconds");
    assert("timecode"@[0] != "samples"@[0]);
    assert("timecode"@[0] != "seconds"@[0]);
    assert("seconds"@[1] != "samples"@[1]);
}

/// The text an amplitude ruler mode is saved as.
pub open spec fn amplitude_ruler_text(m: AmplitudeRulerModeDto) -> Seq<char> {
    match m {
        AmplitudeRulerModeDto::Dbfs => "dbfs"@,
        AmplitudeRulerModeDto::Percent => "percent"@,
    }
}

/// "dbfs" / "percent".
pub fn amplitude_ruler_mode_str(m: AmplitudeRulerModeDto) -> (s: &'static str)
    ensures
        s@ == amplitude_ruler_text(m),
{
    match m {
        AmplitudeRulerModeDto::Dbfs => "dbfs",
        AmplitudeRulerModeDto::Percent => "percent",
    }
}

/// The mode a saved text restores: "percent" is percent, anything else dBFS.
pub fn amplitude_ruler_mode_of(s: Option<&str>) -> (m: AmplitudeRulerModeDto)
    ensures
        m == (if s is Some && s.unwrap()@ == "percent"@ {
            AmplitudeRulerModeDto::Percent
        } else {
            AmplitudeRulerModeDto::Dbfs
        }),
{
    match s {
        Some(t) => if str_eq(t, "percent") {
            AmplitudeRulerModeDto::Percent
        } else {
            AmplitudeRulerModeDto::Dbfs
        },
        None => AmplitudeRulerModeDto::Dbfs,
    }
}

/// A saved selection, restored only when both ends are there and `start <= end <= len`.
pub fn restored_selection(start: Option<u64>, end: Option<u64>, len_samples: u64) -> (r: Option<
    (u64, u64),
>)
    ensures
        r == (match (start, end) {
            (Some(s), Some(e)) => if s <= e && e <= len_samples {
                Some((s, e))
            } else {
                None
            },
            _ => None,
        }),
{
    match (start, end) {
        (Some(s), Some(e)) => if s <= e && e <= len_samples {
            Some((s, e))
        } else {
            None
        },
        _ => None,
    }
}

/// A saved cursor, restored when it lies within `[0, len]`, else 0.
pub fn restored_cursor(cursor: Option<u64>, len_samples: u64) -> (c: u64)
    ensures
        c == (match cursor {
            Some(x) => if x <= len_samples { x } else { 0 },
            None => 0,
        }),
{
    match cursor {
        Some(x) => if x <= len_samples {
            x
        } else {
            0
        },
        None => 0,
    }
}

/// The result of an edit command or an undo/redo, as the UI gets it.
#[derive(Debug, Clone, Copy, PartialEq, Eq)]
pub struct EditResultDto {
    pub changed: bool,
    pub audio_rev: u64,
    pub len_samples: u64,
    /// `[start, end)`, or none.
    pub selection: Option<(u64, u64)>,
    pub playhead_samples: u64,
}

impl From<EditResult> for EditResultDto {
    fn from(r: EditResult) -> (d: Self)
        ensures
            d == (EditResultDto {
                changed: r.changed,
                audio_rev: r.audio_rev,
                len_samples: r.len_samples,
                selection: r.selection,
                playhead_samples: r.playhead_samples,
            }),
    {
        EditResultDto {
            changed: r.changed,
            audio_rev: r.audio_rev,
            len_samples: r.len_samples,
            selection: r.selection,
            playhead_samples: r.playhead_samples,
        }
    }
}

impl vstd::std_specs::convert::FromSpecImpl<EditResult> for EditResultDto {
    open spec fn obeys_from_spec() -> bool {
        true
    }

    open spec fn from_spec(r: EditResult) -> EditResultDto {
        EditResultDto {
            changed: r.changed,
            audio_rev: r.audio_rev,
            len_samples: r.len_samples,
            selection: r.selection,
            playhead_samples: r.playhead_samples,
        }
    }
}

/// Where paste inserts or replaces, as the UI sends it.
#[derive(Debug, Clone, Copy, PartialEq, Eq, Structural)]
pub enum EditTargetDto {
    Cursor { at_samples: u64 },
    Range { start_samples: u64, end_samples: u64 },
}

impl From<EditTargetDto> for PasteTarget {
    fn from(d: EditTargetDto) -> (t: Self)
        ensures
            t == (match d {
                EditTargetDto::Cursor { at_samples } => PasteTarget::Cursor(at_samples),
                EditTargetDto::Range { start_samples, end_samples } => PasteTarget::Range(
                    start_samples,
                    end_samples,
                ),
            }),
    {
        match d {
            EditTargetDto::Cursor { at_samples } => PasteTarget::Cursor(at_samples),
            EditTargetDto::Range { start_samples, end_samples } => PasteTarget::Range(
                start_samples,
                end_samples,
            ),
        }
    }
}

impl vstd::std_specs::convert::FromSpecImpl<EditTargetDto> for PasteTarget {
    open spec fn obeys_from_spec() -> bool {
        true
    }

    open spec fn from_spec(d: EditTargetDto) -> PasteTarget {
        match d {
            EditTargetDto::Cursor { at_samples } => PasteTarget::Cursor(at_samples),
            EditTargetDto::Range { start_samples, end_samples } => PasteTarget::Range(
                start_samples,
                end_samples,
            ),
        }
    }
}

/// The Edit menu's Undo/Redo state, as the UI gets it.
#[derive(Debug)]
pub struct HistoryStateDto {
    pub can_undo: bool,
    pub can_redo: bool,
    pub undo_label: Option<String>,
    pub redo_label: Option<String>,
    pub undo_label_params: Params,
    pub redo_label_params: Params,
}

impl From<HistoryState> for HistoryStateDto {
    fn from(s: HistoryState) -> (d: Self)
        ensures
            d == (HistoryStateDto {
                can_undo: s.can_undo,
                can_redo: s.can_redo,
                undo_label: s.undo_label,
                redo_label: s.redo_label,
                undo_label_params: s.undo_label_params,
                redo_label_params: s.redo_label_params,
            }),
    {
        HistoryStateDto {
            can_undo: s.can_undo,
            can_redo: s.can_redo,
            undo_label: s.undo_label,
            redo_label: s.redo_label,
            undo_label_params: s.undo_label_params,
            redo_label_params: s.redo_label_params,
        }
    }
}

impl vstd::std_specs::convert::FromSpecImpl<HistoryState> for HistoryStateDto {
    open spec fn obeys_from_spec() -> bool {
        true
    }

    open spec fn from_spec(s: HistoryState) -> HistoryStateDto {
        HistoryStateDto {
            can_undo: s.can_undo,
            can_redo: s.can_redo,
            undo_label: s.undo_label,
            redo_label: s.redo_label,
            undo_label_params: s.undo_label_params,
            redo_label_params: s.redo_label_params,
        }
    }
}

/// The clipboard's length and rate; both `None` when it is empty.
#[derive(Debug, Clone, Copy, PartialEq, Eq, Structural)]
pub struct ClipboardChangedDto {
    pub len_samples: Option<u64>,
    pub sample_rate_hz: Option<u32>,
}

impl From<ClipboardInfo> for ClipboardChangedDto {
    fn from(c: ClipboardInfo) -> (d: Self)
        ensures
            d == (ClipboardChangedDto { len_samples: c.len_samples, sample_rate_hz: c.sample_rate_hz }),
    {
        ClipboardChangedDto { len_samples: c.len_samples, sample_rate_hz: c.sample_rate_hz }
    }
}

impl vstd::std_specs::convert::FromSpecImpl<ClipboardInfo> for ClipboardChangedDto {
    open spec fn obeys_from_spec() -> bool {
        true
    }

    open spec fn from_spec(c: ClipboardInfo) -> ClipboardChangedDto {
        ClipboardChangedDto { len_samples: c.len_samples, sample_rate_hz: c.sample_rate_hz }
    }
}

/// A marker's kind: placed by the user, by the recorder, or unrecognized (treated like a user
/// marker).
#[derive(Debug, Clone, Copy, PartialEq, Eq, Structural)]
pub enum MarkerKindDto {
    User,
    Dropout,
    Other,
}

/// The UI kind of a marker kind.
pub open spec fn marker_kind_dto(k: MarkerKindInfo) -> MarkerKindDto {
    match k {
        MarkerKindInfo::User => MarkerKindDto::User,
        MarkerKindInfo::Dropout => MarkerKindDto::Dropout,
        MarkerKindInfo::Other => MarkerKindDto::Other,
    }
}

impl From<MarkerKindInfo> for MarkerKindDto {
    fn from(k: MarkerKindInfo) -> (d: Self)
        ensures
            d == marker_kind_dto(k),
    {
        match k {
            MarkerKindInfo::User => MarkerKindDto::User,
            MarkerKindInfo::Dropout => MarkerKindDto::Dropout,
            MarkerKindInfo::Other => MarkerKindDto::Other,
        }
    }
}

impl vstd::std_specs::convert::FromSpecImpl<MarkerKindInfo> for MarkerKindDto {
    open spec fn obeys_from_spec() -> bool {
        true
    }

    open spec fn from_spec(k: MarkerKindInfo) -> MarkerKindDto {
        marker_kind_dto(k)
    }
}

/// One marker, as the marker commands report it.
#[derive(Debug, Clone, PartialEq, Eq)]
pub struct MarkerDto {
    pub id: u64,
    pub pos_samples: u64,
    pub len_samples: u64,
    pub name: String,
    pub kind: MarkerKindDto,
}

impl From<MarkerInfo> for MarkerDto {
    fn from(m: MarkerInfo) -> (d: Self)
        ensures
            d == (MarkerDto {
                id: m.id,
                pos_samples: m.pos_samples,
                len_samples: m.len_samples,
                name: m.name,
                kind: marker_kind_dto(m.kind),
            }),
    {
        let kind = MarkerKindDto::from(m.kind);
        MarkerDto { id: m.id, pos_samples: m.pos_samples, len_samples: m.len_samples, name: m.name, kind }
    }
}

impl vstd::std_specs::convert::FromSpecImpl<MarkerInfo> for MarkerDto {
    open spec fn obeys_from_spec() -> bool {
        true
    }

    open spec fn from_spec(m: MarkerInfo) -> MarkerDto {
        MarkerDto {
            id: m.id,
            pos_samples: m.pos_samples,
            len_samples: m.len_samples,
            name: m.name,
            kind: marker_kind_dto(m.kind),
        }
    }
}

/// A typed range edit of a marker: the start keeps the length (a move), the end or duration
/// keep the start (a resize).
#[derive(Debug, Clone, Copy, PartialEq, Eq, Structural)]
pub enum MarkerRangeKindDto {
    Move,
    Resize,
}

impl From<MarkerRangeKindDto> for MarkerRangeEditKind {
    fn from(k: MarkerRangeKindDto) -> (e: Self)
        ensures
            e == (match k {
                MarkerRangeKindDto::Move => MarkerRangeEditKind::Move,
                MarkerRangeKindDto::Resize => MarkerRangeEditKind::Resize,
            }),
    {
        match k {
            MarkerRangeKindDto::Move => MarkerRangeEditKind::Move,
            MarkerRangeKindDto::Resize => MarkerRangeEditKind::Resize,
        }
    }
}

impl vstd::std_specs::convert::FromSpecImpl<MarkerRangeKindDto> for MarkerRangeEditKind {
    open spec fn obeys_from_spec() -> bool {
        true
    }

    open spec fn from_spec(k: MarkerRangeKindDto) -> MarkerRangeEditKind {
        match k {
            MarkerRangeKindDto::Move => MarkerRangeEditKind::Move,
            MarkerRangeKindDto::Resize => MarkerRangeEditKind::Resize,
        }
    }
}

/// A waveform peaks request: `count` buckets of `spp` samples from `start_sample`. The answer
/// always carries the document's current revision; `audio_rev` is what the UI last saw.
#[derive(Debug, Clone, Copy, PartialEq, Eq, Structural)]
pub struct PeaksRequestDto {
    pub request_id: u32,
    pub audio_rev: u64,
    pub spp: u32,
    pub start_sample: u64,
    pub count: u32,
}

/// One source channel's role in an open's probe.
#[derive(Debug, Clone, PartialEq, Eq)]
pub struct ProbeChannelDto {
    pub label: String,
    pub is_lfe: bool,
}

/// The Save As dialog's container choice.
#[derive(Debug, Clone, Copy, PartialEq, Eq, Structural)]
pub enum SaveContainerDto {
    Wav,
    Flac,
}

impl From<SaveContainerDto> for SaveContainer {
    fn from(c: SaveContainerDto) -> (s: Self)
        ensures
            s == (match c {
                SaveContainerDto::Wav => SaveContainer::Wav,
                SaveContainerDto::Flac => SaveContainer::Flac,
            }),
    {
        match c {
            SaveContainerDto::Wav => SaveContainer::Wav,
            SaveContainerDto::Flac => SaveContainer::Flac,
        }
    }
}

impl vstd::std_specs::convert::FromSpecImpl<SaveContainerDto> for SaveContainer {
    open spec fn obeys_from_spec() -> bool {
        true
    }

    open spec fn from_spec(c: SaveContainerDto) -> SaveContainer {
        match c {
            SaveContainerDto::Wav => SaveContainer::Wav,
            SaveContainerDto::Flac => SaveContainer::Flac,
        }
    }
}

/// A bake job's id, echoed on every progress event of it.
#[derive(Debug, Clone, Copy, PartialEq, Eq, Structural)]
pub struct BakeJobStartedDto {
    pub job_id: u32,
}

/// Which signal a measurement reads: the processed output (through the rack) or the source.
#[derive(Debug, Clone, Copy, PartialEq, Eq, Structural)]
pub enum LoudnessSourceDto {
    Processed,
    Source,
}

/// The ACX check's argument.
#[derive(Debug, Clone, Copy, PartialEq, Eq, Structural)]
pub struct AcxCheckRequestDto {
    pub source: LoudnessSourceDto,
}

/// One ACX rule's verdict.
#[derive(Debug, Clone, Copy, PartialEq, Eq, Structural)]
pub enum AcxRuleStatusDto {
    Pass,
    TooLow,
    TooHigh,
    Invalid,
    TooShort,
}

/// The whole document passes the ACX check when every rule passes.
pub fn acx_passes(rms: AcxRuleStatusDto, peak: AcxRuleStatusDto, noise_floor: AcxRuleStatusDto) -> (r: bool)
    ensures
        r == (rms == AcxRuleStatusDto::Pass && peak == AcxRuleStatusDto::Pass && noise_floor
            == AcxRuleStatusDto::Pass),
{
    rms == AcxRuleStatusDto::Pass && peak == AcxRuleStatusDto::Pass && noise_floor == AcxRuleStatusDto::Pass
}

/// The analyzer's averaging response.
#[derive(Debug, Clone, Copy, PartialEq, Eq, Structural)]
pub enum AnalyzerResponseDto {
    Fast,
    Medium,
    Slow,
}

/// A spectral-analysis window.
#[derive(Debug, Clone, Copy, PartialEq, Eq, Structural)]
pub enum SpectrumWindowDto {
    Hann,
    BlackmanHarris,
    FlatTop,
    Rectangular,
}

/// The Spectrum Inspector's settings.
#[derive(Debug, Clone, Copy, PartialEq, Eq, Structural)]
pub struct InspectorConfigDto {
    /// A power of two, 1 024 … 32 768.
    pub fft_size: u32,
    pub window: SpectrumWindowDto,
    pub response: AnalyzerResponseDto,
}

/// Bit `k - 1` of `mask` is set.
pub open spec fn harmonic_set(mask: u32, k: u32) -> bool {
    mask & (1u32 << (k - 1) as u32) != 0
}

/// The harmonics (1 = the fundamental, up to 32) whose bit is set in `mask`, ascending.
pub fn harmonics_of(mask: u32) -> (v: Vec<u32>)
    ensures
        forall|i: int, j: int| 0 <= i < j < v@.len() ==> v@[i] < v@[j],
        forall|i: int| 0 <= i < v@.len() ==> 1 <= #[trigger] v@[i] <= 32 && harmonic_set(mask, v@[i]),
        forall|k: u32| 1 <= k <= 32 && harmonic_set(mask, k) ==> v@.contains(k),
{
    let mut v: Vec<u32> = Vec::new();
    let mut k: u32 = 1;
    while k <= 32
        invariant
            1 <= k <= 33,
            forall|i: int, j: int| 0 <= i < j < v@.len() ==> v@[i] < v@[j],
            forall|i: int| 0 <= i < v@.len() ==> 1 <= #[trigger] v@[i] < k && harmonic_set(mask, v@[i]),
            forall|m: u32| 1 <= m < k && harmonic_set(mask, m) ==> v@.contains(m),
        decreases 33 - k,
    {
        let bit: u32 = 1u32 << (k - 1);
        if mask & bit != 0 {
            let ghost before = v@;
            v.push(k);
            proof {
                assert(v@[v@.len() - 1] == k);
                assert forall|m: u32| 1 <= m < k + 1 && harmonic_set(mask, m) implies v@.contains(m) by {
                    if m < k {
                        assert(before.contains(m));
                        let idx = choose|idx: int| 0 <= idx < before.len() && before[idx] == m;
                        assert(v@[idx] == m);
                    } else {
                        assert(v@[v@.len() - 1] == m);
                    }
                }
            }
        } else {
            proof {
                assert forall|m: u32| 1 <= m < k + 1 && harmonic_set(mask, m) implies v@.contains(m) by {
                    if m == k {
                        assert(!harmonic_set(mask, k));
                    }
                }
            }
        }
        k += 1;
    }
    v
}

} // verus!
