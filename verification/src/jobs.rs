//! The background jobs' shared rules (export, bake, latency calibration): validating an export
//! range, the errors each job maps its failures to, and the events a job posts when it ends —
//! the error notice of a failure always before its terminal progress event, which comes last.

use vstd::prelude::*;

use crate::error::{is_error_with, is_plain_error, IpcError, IpcErrorCode};
use crate::events::{is_toast, notice_from_error, JobKind, JobState, Notice, NoticeLevel};
use crate::format::{khz_label, khz_label_spec};
use crate::text::{decimal, decimal_string, push_str};

verus! {

/// A job's progress: its state and the fraction done, in thousandths.
#[derive(Debug, Clone, Copy, PartialEq, Eq, Structural)]
pub struct JobProgress {
    pub job_id: u32,
    pub kind: JobKind,
    pub state: JobState,
    pub fraction_permille: u32,
}

/// What a job tells the UI.
#[derive(Debug)]
pub enum JobEvent {
    Progress(JobProgress),
    Notice(Notice),
    /// The document and its undo history changed (a committed bake).
    DocumentChanged,
    /// The calibration analysis is ready to be reported.
    CalibrationResult,
}

/// `e` is the progress event of `job_id`/`kind` in `state` at `permille`.
pub open spec fn is_progress(e: JobEvent, job_id: u32, kind: JobKind, state: JobState, permille: u32) -> bool {
    e == JobEvent::Progress(JobProgress { job_id, kind, state, fraction_permille: permille })
}

/// `e` is the error toast of `err`: its key and every placeholder value.
pub open spec fn is_error_notice(e: JobEvent, err: IpcError) -> bool {
    match e {
        JobEvent::Notice(n) => is_toast(n, NoticeLevel::Error, err.key@) && n.params@ == err.params@,
        _ => false,
    }
}

/// The events of a job that ended with `err`: a cancelled job reports `Cancelled` and nothing
/// else (the user asked for it); a failed one posts its error notice, then `Failed`.
pub open spec fn failure_events(ev: Seq<JobEvent>, job_id: u32, kind: JobKind, err: IpcError) -> bool {
    if err.code == IpcErrorCode::Cancelled {
        ev.len() == 1 && is_progress(ev[0], job_id, kind, JobState::Cancelled, 0)
    } else {
        &&& ev.len() == 2
        &&& is_error_notice(ev[0], err)
        &&& is_progress(ev[1], job_id, kind, JobState::Failed, 0)
    }
}

/// A job's events end with its one terminal progress event: the last event is a progress
/// event in a terminal state, and no earlier one is.
pub open spec fn terminal_last(ev: Seq<JobEvent>) -> bool {
    &&& ev.len() > 0
    &&& ev.last() matches JobEvent::Progress(p) && p.state != JobState::Running
    &&& forall|i: int|
        0 <= i < ev.len() - 1 ==> !(#[trigger] ev[i] matches JobEvent::Progress(p) && p.state
            != JobState::Running)
}

fn progress(job_id: u32, kind: JobKind, state: JobState, permille: u32) -> (e: JobEvent)
    ensures
        is_progress(e, job_id, kind, state, permille),
{
    JobEvent::Progress(JobProgress { job_id, kind, state, fraction_permille: permille })
}

/// The state a job's result ends it in.
pub open spec fn outcome_state(result: Result<(), IpcError>) -> JobState {
    match result {
        Ok(()) => JobState::Done,
        Err(e) => if e.code == IpcErrorCode::Cancelled {
            JobState::Cancelled
        } else {
            JobState::Failed
        },
    }
}

/// The terminal state of a job that returned `result`.
pub fn terminal_state(result: &Result<(), IpcError>) -> (s: JobState)
    ensures
        s == outcome_state(*result),
{
    match result {
        Ok(()) => JobState::Done,
        Err(e) => if e.code == IpcErrorCode::Cancelled {
            JobState::Cancelled
        } else {
            JobState::Failed
        },
    }
}

/// The events of a job of `kind` that ended with `err` (see [`failure_events`]).
pub fn fail_job(job_id: u32, kind: JobKind, err: &IpcError) -> (ev: Vec<JobEvent>)
    ensures
        failure_events(ev@, job_id, kind, *err),
        terminal_last(ev@),
{
    let mut ev: Vec<JobEvent> = Vec::new();
    if err.code == IpcErrorCode::Cancelled {
        ev.push(progress(job_id, kind, JobState::Cancelled, 0));
    } else {
        ev.push(JobEvent::Notice(notice_from_error(err)));
        ev.push(progress(job_id, kind, JobState::Failed, 0));
    }
    ev
}

/// An export's range: the whole document when none is given, otherwise a non-empty range
/// within it.
pub fn resolve_range(range: Option<(u64, u64)>, len_samples: u64) -> (r: Result<(u64, u64), IpcError>)
    ensures
        match range {
            None => r == Ok::<(u64, u64), IpcError>((0, len_samples)),
            Some((start, end)) => if start < end && end <= len_samples {
                r == Ok::<(u64, u64), IpcError>((start, end))
            } else {
                r.is_err() && is_plain_error(
                    r->Err_0,
                    IpcErrorCode::InvalidArgument,
                    "error.export.invalid_range"@,
                )
            },
        },
{
    match range {
        None => Ok((0, len_samples)),
        Some((start, end)) => if start < end && end <= len_samples {
            Ok((start, end))
        } else {
            Err(IpcError::new(IpcErrorCode::InvalidArgument, "error.export.invalid_range"))
        },
    }
}

/// A job stopped on the user's request.
pub fn cancelled() -> (e: IpcError)
    ensures
        is_plain_error(e, IpcErrorCode::Cancelled, "error.cancelled"@),
{
    IpcError::new(IpcErrorCode::Cancelled, "error.cancelled")
}

/// A job's check between its phases: `Err(cancelled)` once cancellation was requested.
pub fn check_cancelled(is_cancelled: bool) -> (r: Result<(), IpcError>)
    ensures
        !is_cancelled ==> r.is_ok(),
        is_cancelled ==> r.is_err() && is_plain_error(r->Err_0, IpcErrorCode::Cancelled, "error.cancelled"@),
{
    if is_cancelled {
        Err(cancelled())
    } else {
        Ok(())
    }
}

/// An export could not read the document.
pub fn export_read_error(message: &str) -> (e: IpcError)
    ensures
        is_error_with(e, IpcErrorCode::Io, "error.export.read"@, "message"@, message@),
{
    IpcError::new(IpcErrorCode::Io, "error.export.read").with_param("message", message)
}

/// The rack render of an export failed.
pub fn export_rack_error(message: &str) -> (e: IpcError)
    ensures
        is_error_with(e, IpcErrorCode::Internal, "error.export.rack"@, "message"@, message@),
{
    IpcError::new(IpcErrorCode::Internal, "error.export.rack").with_param("message", message)
}

/// A rack slot failed during an export's render.
pub fn export_slot_failed(slot: &str) -> (e: IpcError)
    ensures
        is_error_with(e, IpcErrorCode::Internal, "error.export.slot_failed"@, "slot"@, slot@),
{
    IpcError::new(IpcErrorCode::Internal, "error.export.slot_failed").with_param("slot", slot)
}

/// An export's sample-rate conversion failed.
pub fn export_resample_error(message: &str) -> (e: IpcError)
    ensures
        is_error_with(e, IpcErrorCode::Internal, "error.export.resample"@, "message"@, message@),
{
    IpcError::new(IpcErrorCode::Internal, "error.export.resample").with_param("message", message)
}

/// Why an export's encoder failed: no MP3 encoder on this system, or anything else.
#[derive(Debug, Clone, Copy, PartialEq, Eq, Structural)]
pub enum ExportIoFailure {
    Mp3Unavailable,
    Other,
}

/// An export's encoder failed: MP3 not available is the caller's mistake, anything else an I/O
/// failure; the failure's text goes along as `message`.
pub fn export_io_error(cause: ExportIoFailure, message: &str) -> (e: IpcError)
    ensures
        cause == ExportIoFailure::Mp3Unavailable ==> is_error_with(
            e,
            IpcErrorCode::InvalidArgument,
            "error.export.mp3_unavailable"@,
            "message"@,
            message@,
        ),
        cause == ExportIoFailure::Other ==> is_error_with(
            e,
            IpcErrorCode::Io,
            "error.export.io"@,
            "message"@,
            message@,
        ),
{
    match cause {
        ExportIoFailure::Mp3Unavailable => IpcError::new(
            IpcErrorCode::InvalidArgument,
            "error.export.mp3_unavailable",
        ).with_param("message", message),
        ExportIoFailure::Other => IpcError::new(IpcErrorCode::Io, "error.export.io").with_param(
            "message",
            message,
        ),
    }
}

/// The events of a finished export: on success the "exported ‹name›" toast, then `Done` at
/// 100 %; otherwise those of [`fail_job`]. The terminal progress event always comes last.
pub fn export_finished(job_id: u32, result: &Result<(), IpcError>, file_name: &str) -> (ev: Vec<
    JobEvent,
>)
    ensures
        terminal_last(ev@),
        match *result {
            Ok(()) => {
                &&& ev@.len() == 2
                &&& (ev@[0] matches JobEvent::Notice(n) && is_toast(
                    n,
                    NoticeLevel::Info,
                    "notice.export.done"@,
                ) && n.params@ == Map::<Seq<char>, Seq<char>>::empty().insert("name"@, file_name@))
                &&& is_progress(ev@[1], job_id, JobKind::Export, JobState::Done, 1000)
            },
            Err(e) => failure_events(ev@, job_id, JobKind::Export, e),
        },
{
    match result {
        Ok(()) => {
            let mut ev: Vec<JobEvent> = Vec::new();
            let n = Notice::toast(NoticeLevel::Info, "notice.export.done").with_param("name", file_name);
            ev.push(JobEvent::Notice(n));
            ev.push(progress(job_id, JobKind::Export, JobState::Done, 1000));
            ev
        },
        Err(e) => fail_job(job_id, JobKind::Export, e),
    }
}

/// The events a cross-document paste job ends with. `import`: how the clip's import into the
/// session ended; `committed`: whether the commit after a successful import went through.
/// A failed or cancelled import ends the job `Failed` or `Cancelled` at 0 (the command returns
/// the error, no notice of its own); a failed commit ends it `Failed` at 0; a committed paste
/// ends it `Done` at 100 %, followed by the "resampled from ‹from› to ‹to›" toast when the
/// clip's rate `from_hz` differs from the document's `to_hz`.
pub fn paste_job_finished(
    job_id: u32,
    import: &Result<(), IpcError>,
    committed: bool,
    from_hz: u32,
    to_hz: u32,
) -> (ev: Vec<JobEvent>)
    ensures
        ev@.len() > 0,
        ev@[0] matches JobEvent::Progress(p) && p.state != JobState::Running,
        match *import {
            Err(e) => ev@.len() == 1 && is_progress(
                ev@[0],
                job_id,
                JobKind::Paste,
                if e.code == IpcErrorCode::Cancelled {
                    JobState::Cancelled
                } else {
                    JobState::Failed
                },
                0,
            ),
            Ok(()) => if !committed {
                ev@.len() == 1 && is_progress(ev@[0], job_id, JobKind::Paste, JobState::Failed, 0)
            } else {
                &&& is_progress(ev@[0], job_id, JobKind::Paste, JobState::Done, 1000)
                &&& if from_hz == to_hz {
                    ev@.len() == 1
                } else {
                    &&& ev@.len() == 2
                    &&& ev@[1] matches JobEvent::Notice(n) && is_toast(
                        n,
                        NoticeLevel::Info,
                        "notice.paste_resampled"@,
                    ) && n.params@ == Map::<Seq<char>, Seq<char>>::empty().insert(
                        "from"@,
                        khz_label_spec(from_hz as nat),
                    ).insert("to"@, khz_label_spec(to_hz as nat))
                }
            },
        },
{
    let mut ev: Vec<JobEvent> = Vec::new();
    match import {
        Err(e) => {
            let state = if e.code == IpcErrorCode::Cancelled {
                JobState::Cancelled
            } else {
                JobState::Failed
            };
            ev.push(progress(job_id, JobKind::Paste, state, 0));
        },
        Ok(()) => {
            if !committed {
                ev.push(progress(job_id, JobKind::Paste, JobState::Failed, 0));
            } else {
                ev.push(progress(job_id, JobKind::Paste, JobState::Done, 1000));
                if from_hz != to_hz {
                    let from = khz_label(from_hz);
                    let to = khz_label(to_hz);
                    let n = Notice::toast(NoticeLevel::Info, "notice.paste_resampled").with_param(
                        "from",
                        from.as_str(),
                    ).with_param("to", to.as_str());
                    ev.push(JobEvent::Notice(n));
                }
            }
        },
    }
    ev
}

/// Whether a rack has anything to bake: a slot that isn't bypassed (`slot_bypass` holds each
/// slot's bypass switch, in rack order).
pub fn rack_is_active(slot_bypass: &[bool]) -> (r: bool)
    ensures
        r == exists|i: int| 0 <= i < slot_bypass@.len() && !slot_bypass@[i],
{
    let mut i: usize = 0;
    while i < slot_bypass.len()
        invariant
            i <= slot_bypass@.len(),
            forall|j: int| 0 <= j < i ==> slot_bypass@[j],
        decreases slot_bypass.len() - i,
    {
        if !slot_bypass[i] {
            return true;
        }
        i += 1;
    }
    false
}

/// Bake Rack with nothing to bake.
pub fn rack_inactive() -> (e: IpcError)
    ensures
        is_plain_error(e, IpcErrorCode::InvalidArgument, "error.bake.rack_inactive"@),
{
    IpcError::new(IpcErrorCode::InvalidArgument, "error.bake.rack_inactive")
}

/// Starting a bake: refused when every slot is bypassed (or the rack is empty).
pub fn check_bake_rack(slot_bypass: &[bool]) -> (r: Result<(), IpcError>)
    ensures
        r.is_ok() == exists|i: int| 0 <= i < slot_bypass@.len() && !slot_bypass@[i],
        r.is_err() ==> is_plain_error(r->Err_0, IpcErrorCode::InvalidArgument, "error.bake.rack_inactive"@),
{
    if rack_is_active(slot_bypass) {
        Ok(())
    } else {
        Err(rack_inactive())
    }
}

/// `parts` joined with ", ".
pub open spec fn comma_joined(parts: Seq<Seq<char>>) -> Seq<char>
    decreases parts.len(),
{
    if parts.len() == 0 {
        Seq::empty()
    } else if parts.len() == 1 {
        parts[0]
    } else {
        comma_joined(parts.drop_last()) + ", "@ + parts.last()
    }
}

/// The views of `v`'s strings.
pub open spec fn string_views(v: Seq<String>) -> Seq<Seq<char>> {
    Seq::new(v.len(), |i: int| v[i]@)
}

/// `parts` joined with ", ".
pub fn join_comma(parts: &[String]) -> (s: String)
    ensures
        s@ == comma_joined(string_views(parts@)),
{
    let mut s = String::new();
    let mut i: usize = 0;
    while i < parts.len()
        invariant
            i <= parts@.len(),
            s@ == comma_joined(string_views(parts@.take(i as int))),
        decreases parts.len() - i,
    {
        proof {
            let cur = string_views(parts@.take(i + 1));
            assert(cur.drop_last() =~= string_views(parts@.take(i as int)));
            assert(cur.last() == parts@[i as int]@);
        }
        if i > 0 {
            push_str(&mut s, ", ");
        }
        push_str(&mut s, parts[i].as_str());
        proof {
            reveal_strlit(", ");
            let cur = string_views(parts@.take(i + 1));
            if i == 0 {
                assert(s@ =~= comma_joined(cur));
            } else {
                assert(s@ =~= comma_joined(cur.drop_last()) + ", "@ + cur.last());
            }
        }
        i += 1;
    }
    proof {
        assert(parts@.take(parts@.len() as int) =~= parts@);
    }
    s
}

/// Why a bake's render failed.
#[derive(Debug)]
pub enum BakeFailure {
    Cancelled,
    /// A rack slot failed (its name).
    SlotFailed { name: String },
    /// The rack names modules this build doesn't have (their ids).
    MissingModules { ids: Vec<String> },
    /// Any other render failure, with its text.
    Rack { message: String },
    /// Reading the document failed; already mapped to its command error.
    Project(IpcError),
}

/// A bake failure's command error.
pub fn bake_error(err: BakeFailure) -> (e: IpcError)
    ensures
        match err {
            BakeFailure::Cancelled => is_plain_error(e, IpcErrorCode::Cancelled, "error.cancelled"@),
            BakeFailure::SlotFailed { name } => is_error_with(
                e,
                IpcErrorCode::Internal,
                "error.bake.slot_failed"@,
                "slot"@,
                name@,
            ),
            BakeFailure::MissingModules { ids } => is_error_with(
                e,
                IpcErrorCode::InvalidArgument,
                "error.bake.missing_modules"@,
                "modules"@,
                comma_joined(string_views(ids@)),
            ),
            BakeFailure::Rack { message } => is_error_with(
                e,
                IpcErrorCode::Internal,
                "error.bake.rack"@,
                "message"@,
                message@,
            ),
            BakeFailure::Project(p) => e == p,
        },
{
    match err {
        BakeFailure::Cancelled => cancelled(),
        BakeFailure::SlotFailed { name } => IpcError::new(
            IpcErrorCode::Internal,
            "error.bake.slot_failed",
        ).with_param("slot", name.as_str()),
        BakeFailure::MissingModules { ids } => {
            let joined = join_comma(ids.as_slice());
            IpcError::new(IpcErrorCode::InvalidArgument, "error.bake.missing_modules").with_param(
                "modules",
                joined.as_str(),
            )
        },
        BakeFailure::Rack { message } => IpcError::new(
            IpcErrorCode::Internal,
            "error.bake.rack",
        ).with_param("message", message.as_str()),
        BakeFailure::Project(p) => p,
    }
}

/// The events of a committed bake: `Done` at 100 %, the refreshed document and history, then
/// the "baked" toast.
pub fn bake_done(job_id: u32) -> (ev: Vec<JobEvent>)
    ensures
        ev@.len() == 3,
        is_progress(ev@[0], job_id, JobKind::Bake, JobState::Done, 1000),
        ev@[1] == JobEvent::DocumentChanged,
        ev@[2] matches JobEvent::Notice(n) && is_toast(n, NoticeLevel::Info, "notice.bake.done"@)
            && n.params@ == Map::<Seq<char>, Seq<char>>::empty(),
{
    let mut ev: Vec<JobEvent> = Vec::new();
    ev.push(progress(job_id, JobKind::Bake, JobState::Done, 1000));
    ev.push(JobEvent::DocumentChanged);
    ev.push(JobEvent::Notice(Notice::toast(NoticeLevel::Info, "notice.bake.done")));
    ev
}

/// Why the audio engine refused or stopped a latency calibration.
#[derive(Debug, Clone, Copy, PartialEq, Eq, Structural)]
pub enum CalibrationFailure {
    Recording,
    Busy,
    NoOutput,
    NoInput,
    RateMismatch { input_hz: u32, output_hz: u32 },
    Interrupted,
    Cancelled,
}

/// The code of a calibration failure's command error.
pub open spec fn calibration_code(e: CalibrationFailure) -> IpcErrorCode {
    match e {
        CalibrationFailure::Recording => IpcErrorCode::NotWhileRecording,
        CalibrationFailure::Busy => IpcErrorCode::Busy,
        CalibrationFailure::NoOutput => IpcErrorCode::DeviceNotFound,
        CalibrationFailure::NoInput => IpcErrorCode::DeviceNotFound,
        CalibrationFailure::RateMismatch { .. } => IpcErrorCode::InvalidArgument,
        CalibrationFailure::Interrupted => IpcErrorCode::DeviceLost,
        CalibrationFailure::Cancelled => IpcErrorCode::Cancelled,
    }
}

/// The i18n key of a calibration failure's command error.
pub open spec fn calibration_key(e: CalibrationFailure) -> Seq<char> {
    match e {
        CalibrationFailure::Recording => "error.not_while_recording"@,
        CalibrationFailure::Busy => "error.calibration.busy"@,
        CalibrationFailure::NoOutput => "error.calibration.no_output"@,
        CalibrationFailure::NoInput => "error.calibration.no_input"@,
        CalibrationFailure::RateMismatch { .. } => "error.calibration.rate_mismatch"@,
        CalibrationFailure::Interrupted => "error.calibration.interrupted"@,
        CalibrationFailure::Cancelled => "error.cancelled"@,
    }
}

/// The placeholder values of a calibration failure's command error: the two rates of a rate
/// mismatch, nothing otherwise.
pub open spec fn calibration_params(e: CalibrationFailure) -> Map<Seq<char>, Seq<char>> {
    match e {
        CalibrationFailure::RateMismatch { input_hz, output_hz } => Map::<
            Seq<char>,
            Seq<char>,
        >::empty().insert("input"@, decimal(input_hz as nat)).insert(
            "output"@,
            decimal(output_hz as nat),
        ),
        _ => Map::<Seq<char>, Seq<char>>::empty(),
    }
}

/// A calibration failure's command error.
pub fn calibration_error(e: CalibrationFailure) -> (r: IpcError)
    ensures
        r.code == calibration_code(e),
        r.key@ == calibration_key(e),
        r.params@ == calibration_params(e),
{
    match e {
        CalibrationFailure::Recording => IpcError::not_while_recording(),
        CalibrationFailure::Busy => IpcError::new(IpcErrorCode::Busy, "error.calibration.busy"),
        CalibrationFailure::NoOutput => IpcError::new(
            IpcErrorCode::DeviceNotFound,
            "error.calibration.no_output",
        ),
        CalibrationFailure::NoInput => IpcError::new(
            IpcErrorCode::DeviceNotFound,
            "error.calibration.no_input",
        ),
        CalibrationFailure::RateMismatch { input_hz, output_hz } => {
            let input = decimal_string(input_hz as u64);
            let output = decimal_string(output_hz as u64);
            IpcError::new(IpcErrorCode::InvalidArgument, "error.calibration.rate_mismatch").with_param(
                "input",
                input.as_str(),
            ).with_param("output", output.as_str())
        },
        CalibrationFailure::Interrupted => IpcError::new(
            IpcErrorCode::DeviceLost,
            "error.calibration.interrupted",
        ),
        CalibrationFailure::Cancelled => cancelled(),
    }
}

/// Starting a calibration while one runs is refused.
pub fn check_calibration_idle(running: Option<u32>) -> (r: Result<(), IpcError>)
    ensures
        running is None ==> r.is_ok(),
        running is Some ==> r.is_err() && is_plain_error(r->Err_0, IpcErrorCode::Busy, "error.calibration.busy"@),
{
    match running {
        None => Ok(()),
        Some(_) => Err(calibration_error(CalibrationFailure::Busy)),
    }
}

/// What one poll of a running calibration found.
#[derive(Debug, Clone, Copy, PartialEq, Eq, Structural)]
pub enum CalibrationPoll {
    /// Still measuring, this far along (thousandths).
    Running { progress_permille: u32 },
    /// The capture is complete and has been analysed.
    Captured,
    /// The run ended with this failure.
    Failed(CalibrationFailure),
    /// The run's own state vanished without an outcome.
    Idle,
}

/// One step of the calibration job's watch loop: the events to post and whether the job ended.
#[derive(Debug)]
pub struct CalibrationStep {
    pub events: Vec<JobEvent>,
    pub finished: bool,
}

/// The events of a calibration that ended with `e`: a cancelled run reports `Cancelled`; any
/// other failure posts its error notice, then `Failed`.
pub open spec fn calibration_failure_events(ev: Seq<JobEvent>, job_id: u32, e: CalibrationFailure) -> bool {
    if e == CalibrationFailure::Cancelled {
        ev.len() == 1 && is_progress(ev[0], job_id, JobKind::Calibration, JobState::Cancelled, 0)
    } else {
        &&& ev.len() == 2
        &&& (ev[0] matches JobEvent::Notice(n) && is_toast(n, NoticeLevel::Error, calibration_key(e))
            && n.params@ == calibration_params(e))
        &&& is_progress(ev[1], job_id, JobKind::Calibration, JobState::Failed, 0)
    }
}

/// What the watch loop does with a poll: report progress and go on; after a complete capture,
/// the result and then `Done`; after a failure, its events (see
/// [`calibration_failure_events`]); a vanished run counts as interrupted.
pub fn calibration_step(job_id: u32, poll: CalibrationPoll) -> (s: CalibrationStep)
    ensures
        match poll {
            CalibrationPoll::Running { progress_permille } => {
                &&& !s.finished
                &&& s.events@.len() == 1
                &&& is_progress(
                    s.events@[0],
                    job_id,
                    JobKind::Calibration,
                    JobState::Running,
                    progress_permille,
                )
            },
            CalibrationPoll::Captured => {
                &&& s.finished
                &&& s.events@.len() == 2
                &&& s.events@[0] == JobEvent::CalibrationResult
                &&& is_progress(s.events@[1], job_id, JobKind::Calibration, JobState::Done, 1000)
            },
            CalibrationPoll::Failed(e) => s.finished && calibration_failure_events(
                s.events@,
                job_id,
                e,
            ),
            CalibrationPoll::Idle => s.finished && calibration_failure_events(
                s.events@,
                job_id,
                CalibrationFailure::Interrupted,
            ),
        },
        s.finished ==> terminal_last(s.events@),
{
    let mut events: Vec<JobEvent> = Vec::new();
    match poll {
        CalibrationPoll::Running { progress_permille } => {
            events.push(progress(job_id, JobKind::Calibration, JobState::Running, progress_permille));
            CalibrationStep { events, finished: false }
        },
        CalibrationPoll::Captured => {
            events.push(JobEvent::CalibrationResult);
            events.push(progress(job_id, JobKind::Calibration, JobState::Done, 1000));
            CalibrationStep { events, finished: true }
        },
        CalibrationPoll::Failed(e) => {
            let events = calibration_failed(job_id, e);
            CalibrationStep { events, finished: true }
        },
        CalibrationPoll::Idle => {
            let events = calibration_failed(job_id, CalibrationFailure::Interrupted);
            CalibrationStep { events, finished: true }
        },
    }
}

fn calibration_failed(job_id: u32, e: CalibrationFailure) -> (ev: Vec<JobEvent>)
    ensures
        calibration_failure_events(ev@, job_id, e),
        terminal_last(ev@),
{
    let mut ev: Vec<JobEvent> = Vec::new();
    if e == CalibrationFailure::Cancelled {
        ev.push(progress(job_id, JobKind::Calibration, JobState::Cancelled, 0));
    } else {
        let err = calibration_error(e);
        ev.push(JobEvent::Notice(notice_from_error(&err)));
        ev.push(progress(job_id, JobKind::Calibration, JobState::Failed, 0));
    }
    ev
}

} // verus!
