//! Events the UI listens to: user-facing notices (toasts and banners), job kinds and states,
//! and the names every event is emitted under.

use vstd::prelude::*;

use crate::error::{entries_pairs, names_distinct, pairs_map, IpcError, Params};

verus! {

/// A notice's severity.
#[derive(Debug, Clone, Copy, PartialEq, Eq, Structural)]
pub enum NoticeLevel {
    Info,
    Warning,
    Error,
}

/// A user-facing notice: a transient **toast** (`persistent == false`, no `id`) or a
/// **banner** (`persistent`, with an `id` a later notice can replace or clear). `key`/`params`
/// are an i18n key and its placeholder values; `cleared` removes the banner sharing `id`.
#[derive(Debug)]
pub struct Notice {
    pub level: NoticeLevel,
    pub key: String,
    pub params: Params,
    pub persistent: bool,
    pub id: Option<String>,
    pub cleared: bool,
}

/// `n` is a toast of `level` with key `key`.
pub open spec fn is_toast(n: Notice, level: NoticeLevel, key: Seq<char>) -> bool {
    &&& n.level == level
    &&& n.key@ == key
    &&& !n.persistent
    &&& n.id.is_none()
    &&& !n.cleared
}

/// `n` is a banner of `level` under `id` with key `key`.
pub open spec fn is_banner(n: Notice, level: NoticeLevel, id: Seq<char>, key: Seq<char>) -> bool {
    &&& n.level == level
    &&& n.key@ == key
    &&& n.persistent
    &&& n.id.is_some()
    &&& n.id.unwrap()@ == id
    &&& !n.cleared
}

impl Notice {
    /// A transient toast with no placeholder values.
    pub fn toast(level: NoticeLevel, key: &str) -> (n: Notice)
        ensures
            is_toast(n, level, key@),
            n.params@ == Map::<Seq<char>, Seq<char>>::empty(),
    {
        Notice {
            level,
            key: key.to_owned(),
            params: Params::new(),
            persistent: false,
            id: None,
            cleared: false,
        }
    }

    /// A persistent banner under `id`, with no placeholder values.
    pub fn banner(level: NoticeLevel, id: &str, key: &str) -> (n: Notice)
        ensures
            is_banner(n, level, id@, key@),
            n.params@ == Map::<Seq<char>, Seq<char>>::empty(),
    {
        Notice {
            level,
            key: key.to_owned(),
            params: Params::new(),
            persistent: true,
            id: Some(id.to_owned()),
            cleared: false,
        }
    }

    /// Removes the banner `id` instead of showing anything.
    pub fn clear_banner(id: &str) -> (n: Notice)
        ensures
            n.level == NoticeLevel::Info,
            n.key@ == Seq::<char>::empty(),
            n.params@ == Map::<Seq<char>, Seq<char>>::empty(),
            n.persistent,
            n.id.is_some() && n.id.unwrap()@ == id@,
            n.cleared,
    {
        Notice {
            level: NoticeLevel::Info,
            key: String::new(),
            params: Params::new(),
            persistent: true,
            id: Some(id.to_owned()),
            cleared: true,
        }
    }

    /// `self` with placeholder `name` set to `value`; nothing else changes.
    pub fn with_param(self, name: &str, value: &str) -> (n: Notice)
        ensures
            n.level == self.level,
            n.key@ == self.key@,
            n.persistent == self.persistent,
            n.id == self.id,
            n.cleared == self.cleared,
            n.params@ == self.params@.insert(name@, value@),
    {
        let Notice { level, key, params, persistent, id, cleared } = self;
        Notice {
            level,
            key,
            params: params.with(name.to_owned(), value.to_owned()),
            persistent,
            id,
            cleared,
        }
    }
}

/// The error toast a failed job posts: the error's key and every one of its placeholder
/// values, at `Error` level.
pub fn notice_from_error(err: &IpcError) -> (n: Notice)
    ensures
        is_toast(n, NoticeLevel::Error, err.key@),
        n.params@ == err.params@,
{
    let mut notice = Notice::toast(NoticeLevel::Error, err.key.as_str());
    let count = err.params.len();
    let ghost pairs = err.params.pairs();
    let mut i: usize = 0;
    while i < count
        invariant
            count == pairs.len(),
            count == err.params@.len(),
            pairs == err.params.pairs(),
            names_distinct(pairs),
            i <= count,
            is_toast(notice, NoticeLevel::Error, err.key@),
            notice.params@ == pairs_map(pairs.take(i as int)),
        decreases count - i,
    {
        let (name, value) = err.params.entry(i);
        proof {
            let p = pairs.take(i as int);
            assert(pairs.take(i as int + 1) =~= p.push(pairs[i as int]));
            assert(names_distinct(p));
            assert forall|j: int| 0 <= j < p.len() implies p[j].0 != pairs[i as int].0 by {
                assert(pairs[j].0 != pairs[i as int].0);
            }
            crate::error::lemma_pairs_map_push(p, pairs[i as int].0, pairs[i as int].1);
        }
        notice = notice.with_param(name.as_str(), value.as_str());
        i += 1;
    }
    proof {
        assert(pairs.take(count as int) =~= pairs);
    }
    notice
}

/// A long-running, cancellable job's kind (one progress/cancel pattern for every job).
#[derive(Debug, Clone, Copy, PartialEq, Eq, Structural)]
pub enum JobKind {
    Export,
    Import,
    NrCapture,
    LoudnessAnalyze,
    NormalizePeak,
    NormalizeLufs,
    Calibration,
    Bake,
    SpectrumAnalyze,
    Paste,
}

/// A job's lifecycle: `Running` events, then exactly one of the terminal states.
#[derive(Debug, Clone, Copy, PartialEq, Eq, Structural)]
pub enum JobState {
    Running,
    Done,
    Cancelled,
    Failed,
}

/// The import job's document shell, emitted once before decoding starts.
#[derive(Debug, Clone, PartialEq, Eq)]
pub struct ImportStartedDto {
    pub job_id: u32,
    pub name: String,
    pub sample_rate_hz: u32,
    /// `None` when the container states no sample count.
    pub len_samples: Option<u64>,
}

/// The background plugin scan's summary.
#[derive(Debug, Clone, Default, PartialEq, Eq)]
pub struct PluginScanSummaryDto {
    pub scanned: u32,
    pub cached: u32,
    pub failed: u32,
    pub blocklisted_now: u32,
    pub blocklisted: u32,
    pub effects: u32,
    /// Module ids newly registered by this scan.
    pub newly_registered: Vec<String>,
}

/// A plugin-scan tick (`current_path` set) or its final message (`summary` set).
#[derive(Debug, Clone, Default, PartialEq, Eq)]
pub struct PluginScanProgressDto {
    pub done: u32,
    pub total: u32,
    pub current_path: Option<String>,
    pub summary: Option<PluginScanSummaryDto>,
}

/// A scan tick: `done` of `total` files, now at `current_path`.
pub fn plugin_scan_tick(done: u32, total: u32, current_path: String) -> (p: PluginScanProgressDto)
    ensures
        p.done == done,
        p.total == total,
        p.current_path == Some(current_path),
        p.summary.is_none(),
{
    PluginScanProgressDto { done, total, current_path: Some(current_path), summary: None }
}

/// The scan's final message: everything scanned or taken from the cache counts as done.
pub fn plugin_scan_final(summary: PluginScanSummaryDto) -> (p: PluginScanProgressDto)
    requires
        summary.scanned + summary.cached <= u32::MAX,
    ensures
        p.done == summary.scanned + summary.cached,
        p.total == p.done,
        p.current_path.is_none(),
        p.summary == Some(summary),
{
    let n = summary.scanned + summary.cached;
    PluginScanProgressDto { done: n, total: n, current_path: None, summary: Some(summary) }
}

/// Every event the UI listens to, named exactly as it is emitted.
#[allow(non_camel_case_types)]
#[derive(Debug, Clone, Copy, PartialEq, Eq, Structural)]
pub enum EventName {
    notice,
    transport_state,
    devices_changed,
    rack_changed,
    param_changed,
    rack_latency,
    record_state,
    document_changed,
    history_state,
    clipboard_changed,
    job_progress,
    loudness_report,
    normalize_result,
    recent_files_changed,
    record_phase,
    record_finished,
    calibration_result,
    import_started,
    plugin_scan_progress,
    spectrum_report,
}

/// The literal name `e` is emitted under (the variant's own name).
pub open spec fn event_name_text(e: EventName) -> Seq<char> {
    match e {
        EventName::notice => "notice"@,
        EventName::transport_state => "transport_state"@,
        EventName::devices_changed => "devices_changed"@,
        EventName::rack_changed => "rack_changed"@,
        EventName::param_changed => "param_changed"@,
        EventName::rack_latency => "rack_latency"@,
        EventName::record_state => "record_state"@,
        EventName::document_changed => "document_changed"@,
        EventName::history_state => "history_state"@,
        EventName::clipboard_changed => "clipboard_changed"@,
        EventName::job_progress => "job_progress"@,
        EventName::loudness_report => "loudness_report"@,
        EventName::normalize_result => "normalize_result"@,
        EventName::recent_files_changed => "recent_files_changed"@,
        EventName::record_phase => "record_phase"@,
        EventName::record_finished => "record_finished"@,
        EventName::calibration_result => "calibration_result"@,
        EventName::import_started => "import_started"@,
        EventName::plugin_scan_progress => "plugin_scan_progress"@,
        EventName::spectrum_report => "spectrum_report"@,
    }
}

impl EventName {
    /// The literal event name.
    pub fn as_str(self) -> (s: &'static str)
        ensures
            s@ == event_name_text(self),
    {
        match self {
            EventName::notice => "notice",
            EventName::transport_state => "transport_state",
            EventName::devices_changed => "devices_changed",
            EventName::rack_changed => "rack_changed",
            EventName::param_changed => "param_changed",
            EventName::rack_latency => "rack_latency",
            EventName::record_state => "record_state",
            EventName::document_changed => "document_changed",
            EventName::history_state => "history_state",
            EventName::clipboard_changed => "clipboard_changed",
            EventName::job_progress => "job_progress",
            EventName::loudness_report => "loudness_report",
            EventName::normalize_result => "normalize_result",
            EventName::recent_files_changed => "recent_files_changed",
            EventName::record_phase => "record_phase",
            EventName::record_finished => "record_finished",
            EventName::calibration_result => "calibration_result",
            EventName::import_started => "import_started",
            EventName::plugin_scan_progress => "plugin_scan_progress",
            EventName::spectrum_report => "spectrum_report",
        }
    }
}

/// Every event name, in declaration order.
pub fn event_name_variants() -> (v: Vec<EventName>)
    ensures
        v@.len() == 20,
        forall|i: int, j: int| 0 <= i < j < v@.len() ==> v@[i] != v@[j],
{
    let mut v: Vec<EventName> = Vec::new();
    v.push(EventName::notice);
    v.push(EventName::transport_state);
    v.push(EventName::devices_changed);
    v.push(EventName::rack_changed);
    v.push(EventName::param_changed);
    v.push(EventName::rack_latency);
    v.push(EventName::record_state);
    v.push(EventName::document_changed);
    v.push(EventName::history_state);
    v.push(EventName::clipboard_changed);
    v.push(EventName::job_progress);
    v.push(EventName::loudness_report);
    v.push(EventName::normalize_result);
    v.push(EventName::recent_files_changed);
    v.push(EventName::record_phase);
    v.push(EventName::record_finished);
    v.push(EventName::calibration_result);
    v.push(EventName::import_started);
    v.push(EventName::plugin_scan_progress);
    v.push(EventName::spectrum_report);
    v
}

/// What the effects rack reported.
#[derive(Debug, Clone, Copy, PartialEq, Eq, Structural)]
pub enum RackNoticeKind {
    /// A slot's parameter changed (from its editor or automation).
    ParamChanged,
    /// The rack's total latency changed.
    LatencyChanged,
    /// A slot failed and was bypassed.
    SlotFailed,
    /// A failed slot was restarted.
    SlotRestarted,
}

/// The event a rack notice is forwarded as: a parameter change and a latency change each have
/// their own event; a failed or restarted slot only goes to the log (the `rack_changed` event
/// that accompanies it refreshes the rack panel).
pub fn rack_notice_event(kind: RackNoticeKind) -> (e: Option<EventName>)
    ensures
        e == match kind {
            RackNoticeKind::ParamChanged => Some(EventName::param_changed),
            RackNoticeKind::LatencyChanged => Some(EventName::rack_latency),
            _ => None,
        },
{
    match kind {
        RackNoticeKind::ParamChanged => Some(EventName::param_changed),
        RackNoticeKind::LatencyChanged => Some(EventName::rack_latency),
        RackNoticeKind::SlotFailed | RackNoticeKind::SlotRestarted => None,
    }
}

} // verus!
