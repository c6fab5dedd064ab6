//! The open document's command rules: the refusals every edit shares (a document job running,
//! no document, a recording in progress, a bad range), the one-job-at-a-time gates of the
//! normalize, bake and cross-document paste jobs, the in-app clipboard's states, and the small
//! computations the document commands make (edit results, recording targets, live import
//! peaks, memory budget, recovery ids).

use vstd::prelude::*;

use crate::error::{is_error_with, is_plain_error, IpcError, IpcErrorCode};
use crate::markers::invalid_range;
use crate::save::{no_document, notice_pairs, SidecarNoticeInfo};

verus! {

/// No selection (or an empty one) where one is required.
pub fn no_selection() -> (e: IpcError)
    ensures
        is_plain_error(e, IpcErrorCode::InvalidArgument, "error.no_selection"@),
{
    IpcError::new(IpcErrorCode::InvalidArgument, "error.no_selection")
}

/// Paste with an empty clipboard.
pub fn clipboard_empty() -> (e: IpcError)
    ensures
        is_plain_error(e, IpcErrorCode::InvalidArgument, "error.clipboard_empty"@),
{
    IpcError::new(IpcErrorCode::InvalidArgument, "error.clipboard_empty")
}

/// Another document job is running.
pub fn document_busy() -> (e: IpcError)
    ensures
        is_plain_error(e, IpcErrorCode::Busy, "error.document_busy"@),
{
    IpcError::document_busy()
}

/// A half-open sample range `[start, end)` of the document.
#[derive(Debug, Clone, Copy, PartialEq, Eq, Structural)]
pub struct SampleRange {
    pub start: u64,
    pub end: u64,
}

/// Where Paste (and Insert Silence) acts, as the UI sends it: at the cursor, or over a range.
#[derive(Debug, Clone, Copy, PartialEq, Eq, Structural)]
pub enum PasteTarget {
    Cursor(u64),
    Range(u64, u64),
}

/// A paste target checked against the document.
#[derive(Debug, Clone, Copy, PartialEq, Eq, Structural)]
pub enum EditTarget {
    Cursor(u64),
    Range(SampleRange),
}

/// Why a selection is refused: empty (`no_selection`) or past the end (`invalid_range`).
pub open spec fn range_refusal(start: u64, end: u64, len_samples: u64) -> Option<Seq<char>> {
    if start >= end {
        Some("error.no_selection"@)
    } else if end > len_samples {
        Some("error.invalid_range"@)
    } else {
        None
    }
}

/// The selection `[start, end)` of a document of `len_samples` samples: refused when empty,
/// then when it reaches past the end.
pub fn selected_range(start: u64, end: u64, len_samples: u64) -> (r: Result<SampleRange, IpcError>)
    ensures
        r.is_ok() == range_refusal(start, end, len_samples).is_none(),
        r.is_ok() ==> r->Ok_0 == (SampleRange { start, end }),
        r.is_err() ==> is_plain_error(
            r->Err_0,
            IpcErrorCode::InvalidArgument,
            range_refusal(start, end, len_samples).unwrap(),
        ),
{
    if start >= end {
        Err(no_selection())
    } else if end > len_samples {
        Err(invalid_range())
    } else {
        Ok(SampleRange { start, end })
    }
}

/// A paste target checked against a document of `len_samples` samples: a cursor must lie
/// within `[0, len]`, a range must be a valid selection.
pub fn resolve_paste_target(target: PasteTarget, len_samples: u64) -> (r: Result<EditTarget, IpcError>)
    ensures
        match target {
            PasteTarget::Cursor(c) => if c <= len_samples {
                r == Ok::<EditTarget, IpcError>(EditTarget::Cursor(c))
            } else {
                r.is_err() && is_plain_error(r->Err_0, IpcErrorCode::InvalidArgument, "error.invalid_range"@)
            },
            PasteTarget::Range(s, e) => {
                &&& r.is_ok() == range_refusal(s, e, len_samples).is_none()
                &&& r.is_ok() ==> r->Ok_0 == EditTarget::Range(SampleRange { start: s, end: e })
                &&& r.is_err() ==> is_plain_error(
                    r->Err_0,
                    IpcErrorCode::InvalidArgument,
                    range_refusal(s, e, len_samples).unwrap(),
                )
            },
        },
{
    match target {
        PasteTarget::Cursor(c) => {
            if c <= len_samples {
                Ok(EditTarget::Cursor(c))
            } else {
                Err(invalid_range())
            }
        },
        PasteTarget::Range(s, e) => match selected_range(s, e, len_samples) {
            Ok(r) => Ok(EditTarget::Range(r)),
            Err(e) => Err(e),
        },
    }
}

/// Why a paste target is refused in a document of `len_samples` samples (`None`: it is valid).
pub open spec fn paste_target_refusal(target: PasteTarget, len_samples: u64) -> Option<Seq<char>> {
    match target {
        PasteTarget::Cursor(c) => if c <= len_samples {
            None
        } else {
            Some("error.invalid_range"@)
        },
        PasteTarget::Range(s, e) => range_refusal(s, e, len_samples),
    }
}

/// The edit target a valid paste target stands for.
pub open spec fn resolved_target(target: PasteTarget) -> EditTarget {
    match target {
        PasteTarget::Cursor(c) => EditTarget::Cursor(c),
        PasteTarget::Range(s, e) => EditTarget::Range(SampleRange { start: s, end: e }),
    }
}

/// What the edit commands need to know of the open document.
#[derive(Debug, Clone, Copy, PartialEq, Eq)]
pub struct EditDocFacts {
    pub recording: bool,
    pub len_samples: u64,
}

/// The first refusal shared by every audio edit, `None` when the edit may go ahead.
pub open spec fn edit_refusal(busy: bool, doc: Option<EditDocFacts>) -> Option<Seq<char>> {
    if busy {
        Some("error.document_busy"@)
    } else if doc.is_none() {
        Some("error.document.none"@)
    } else if doc.unwrap().recording {
        Some("error.not_while_recording"@)
    } else {
        None
    }
}

/// The error code each shared refusal key goes with.
pub open spec fn refusal_code(key: Seq<char>) -> IpcErrorCode {
    if key == "error.document_busy"@ {
        IpcErrorCode::Busy
    } else if key == "error.document.none"@ {
        IpcErrorCode::NotFound
    } else if key == "error.not_while_recording"@ {
        IpcErrorCode::NotWhileRecording
    } else {
        IpcErrorCode::InvalidArgument
    }
}

proof fn lemma_refusal_codes()
    ensures
        refusal_code("error.document_busy"@) == IpcErrorCode::Busy,
        refusal_code("error.document.none"@) == IpcErrorCode::NotFound,
        refusal_code("error.not_while_recording"@) == IpcErrorCode::NotWhileRecording,
        refusal_code("error.no_selection"@) == IpcErrorCode::InvalidArgument,
        refusal_code("error.invalid_range"@) == IpcErrorCode::InvalidArgument,
        refusal_code("error.clipboard_empty"@) == IpcErrorCode::InvalidArgument,
{
    reveal_strlit("error.document_busy");
    reveal_strlit("error.document.none");
    reveal_strlit("error.not_while_recording");
    reveal_strlit("error.no_selection");
    reveal_strlit("error.invalid_range");
    reveal_strlit("error.clipboard_empty");
    assert("error.document.none"@[6] != "error.document_busy"@[6] || "error.document.none"@[14]
        != "error.document_busy"@[14]);
    assert("error.not_while_recording"@[6] != "error.document_busy"@[6]);
    assert("error.not_while_recording"@[6] != "error.document.none"@[6]);
    assert("error.no_selection"@[6] != "error.document_busy"@[6]);
    assert("error.no_selection"@[6] != "error.document.none"@[6]);
    assert("error.no_selection"@[8] != "error.not_while_recording"@[8]);
    assert("error.invalid_range"@[6] != "error.document_busy"@[6]);
    assert("error.invalid_range"@[6] != "error.document.none"@[6]);
    assert("error.invalid_range"@[6] != "error.not_while_recording"@[6]);
    assert("error.clipboard_empty"@[6] != "error.document_busy"@[6]);
    assert("error.clipboard_empty"@[6] != "error.document.none"@[6]);
    assert("error.clipboard_empty"@[6] != "error.not_while_recording"@[6]);
}

/// The error of a shared refusal.
pub open spec fn is_refusal(e: IpcError, key: Seq<char>) -> bool {
    is_plain_error(e, refusal_code(key), key)
}

/// The refusals every audio edit shares, in order: a document job running (`busy`), no
/// document, a recording in progress.
pub fn check_edit(busy: bool, doc: Option<EditDocFacts>) -> (r: Result<EditDocFacts, IpcError>)
    ensures
        r.is_ok() == edit_refusal(busy, doc).is_none(),
        r.is_ok() ==> Some(r->Ok_0) == doc,
        r.is_err() ==> is_refusal(r->Err_0, edit_refusal(busy, doc).unwrap()),
{
    proof {
        lemma_refusal_codes();
    }
    if busy {
        return Err(document_busy());
    }
    match doc {
        None => Err(no_document()),
        Some(d) => {
            if d.recording {
                Err(IpcError::not_while_recording())
            } else {
                Ok(d)
            }
        },
    }
}

/// The one-document-job-at-a-time flags: a normalize or bake job (one shared flag), a bake
/// specifically (rack edits are refused then), and a cross-document paste job.
#[derive(Debug)]
pub struct JobGates {
    normalize_busy: bool,
    paste_busy: bool,
    bake_running: bool,
}

impl JobGates {
    /// A normalize or bake job is running.
    pub closed spec fn normalize_busy_spec(&self) -> bool {
        self.normalize_busy
    }

    /// A cross-document paste job is running.
    pub closed spec fn paste_busy_spec(&self) -> bool {
        self.paste_busy
    }

    /// A bake job is running.
    pub closed spec fn bake_running_spec(&self) -> bool {
        self.bake_running
    }

    /// A bake is only ever running inside the normalize/bake job slot.
    pub closed spec fn wf(&self) -> bool {
        self.bake_running ==> self.normalize_busy
    }

    /// No job running.
    pub fn new() -> (g: JobGates)
        ensures
            g.wf(),
            !g.normalize_busy_spec(),
            !g.paste_busy_spec(),
            !g.bake_running_spec(),
    {
        JobGates { normalize_busy: false, paste_busy: false, bake_running: false }
    }

    /// A normalize or bake job is running.
    pub fn is_normalize_busy(&self) -> (r: bool)
        ensures
            r == self.normalize_busy_spec(),
    {
        self.normalize_busy
    }

    /// A cross-document paste job is running.
    pub fn is_paste_busy(&self) -> (r: bool)
        ensures
            r == self.paste_busy_spec(),
    {
        self.paste_busy
    }

    /// A bake job is running (rack edits are refused then).
    pub fn is_bake_running(&self) -> (r: bool)
        ensures
            r == self.bake_running_spec(),
    {
        self.bake_running
    }

    /// The shared refusals of cut, copy, paste, delete, trim, silence and insert silence:
    /// either job running, no document, recording.
    pub fn check_edit(&self, doc: Option<EditDocFacts>) -> (r: Result<EditDocFacts, IpcError>)
        ensures
            r.is_ok() == edit_refusal(self.normalize_busy_spec() || self.paste_busy_spec(), doc).is_none(),
            r.is_ok() ==> Some(r->Ok_0) == doc,
            r.is_err() ==> is_refusal(
                r->Err_0,
                edit_refusal(self.normalize_busy_spec() || self.paste_busy_spec(), doc).unwrap(),
            ),
    {
        check_edit(self.normalize_busy || self.paste_busy, doc)
    }

    /// Undo/redo's refusals: a normalize or bake job running, then no document (a recording is
    /// refused by the history itself).
    pub fn check_undo_redo(&self, doc_open: bool) -> (r: Result<(), IpcError>)
        ensures
            self.normalize_busy_spec() ==> r.is_err() && is_plain_error(r->Err_0, IpcErrorCode::Busy, "error.document_busy"@),
            !self.normalize_busy_spec() && !doc_open ==> r.is_err() && is_plain_error(r->Err_0, IpcErrorCode::NotFound, "error.document.none"@),
            !self.normalize_busy_spec() && doc_open ==> r.is_ok(),
    {
        if self.normalize_busy {
            Err(document_busy())
        } else if !doc_open {
            Err(no_document())
        } else {
            Ok(())
        }
    }

    /// Begins a normalize job over `[start, end)`: refused while another one (or a bake) runs,
    /// with no document, while recording, or for a bad range; otherwise marks the slot busy.
    pub fn begin_normalize(&mut self, doc: Option<EditDocFacts>, start: u64, end: u64) -> (r: Result<
        SampleRange,
        IpcError,
    >)
        requires
            old(self).wf(),
        ensures
            final(self).wf(),
            final(self).paste_busy_spec() == old(self).paste_busy_spec(),
            final(self).bake_running_spec() == old(self).bake_running_spec(),
            edit_refusal(old(self).normalize_busy_spec(), doc).is_some() ==> r.is_err() && is_refusal(
                r->Err_0,
                edit_refusal(old(self).normalize_busy_spec(), doc).unwrap(),
            ),
            edit_refusal(old(self).normalize_busy_spec(), doc).is_none() ==> {
                let len = doc.unwrap().len_samples;
                &&& r.is_ok() == range_refusal(start, end, len).is_none()
                &&& r.is_ok() ==> r->Ok_0 == (SampleRange { start, end })
                &&& r.is_err() ==> is_plain_error(
                    r->Err_0,
                    IpcErrorCode::InvalidArgument,
                    range_refusal(start, end, len).unwrap(),
                )
            },
            r.is_ok() ==> final(self).normalize_busy_spec(),
            r.is_err() ==> final(self).normalize_busy_spec() == old(self).normalize_busy_spec(),
    {
        let d = match check_edit(self.normalize_busy, doc) {
            Ok(d) => d,
            Err(e) => return Err(e),
        };
        let range = match selected_range(start, end, d.len_samples) {
            Ok(r) => r,
            Err(e) => return Err(e),
        };
        self.normalize_busy = true;
        Ok(range)
    }

    /// Ends a normalize job (committed, abandoned, cancelled or failed).
    pub fn finish_normalize(&mut self)
        requires
            old(self).wf(),
            !old(self).bake_running_spec(),
        ensures
            final(self).wf(),
            !final(self).normalize_busy_spec(),
            final(self).paste_busy_spec() == old(self).paste_busy_spec(),
            !final(self).bake_running_spec(),
    {
        self.normalize_busy = false;
    }

    /// Begins a bake over `[start, end)`: the same refusals and slot as a normalize job; on
    /// success rack edits are refused too until the bake ends.
    pub fn begin_bake(&mut self, doc: Option<EditDocFacts>, start: u64, end: u64) -> (r: Result<
        SampleRange,
        IpcError,
    >)
        requires
            old(self).wf(),
        ensures
            final(self).wf(),
            final(self).paste_busy_spec() == old(self).paste_busy_spec(),
            edit_refusal(old(self).normalize_busy_spec(), doc).is_some() ==> r.is_err() && is_refusal(
                r->Err_0,
                edit_refusal(old(self).normalize_busy_spec(), doc).unwrap(),
            ),
            edit_refusal(old(self).normalize_busy_spec(), doc).is_none() ==> {
                let len = doc.unwrap().len_samples;
                &&& r.is_ok() == range_refusal(start, end, len).is_none()
                &&& r.is_ok() ==> r->Ok_0 == (SampleRange { start, end })
                &&& r.is_err() ==> is_plain_error(
                    r->Err_0,
                    IpcErrorCode::InvalidArgument,
                    range_refusal(start, end, len).unwrap(),
                )
            },
            r.is_ok() ==> final(self).normalize_busy_spec() && final(self).bake_running_spec(),
            r.is_err() ==> final(self).normalize_busy_spec() == old(self).normalize_busy_spec()
                && final(self).bake_running_spec() == old(self).bake_running_spec(),
    {
        let range = match self.begin_normalize(doc, start, end) {
            Ok(r) => r,
            Err(e) => return Err(e),
        };
        self.bake_running = true;
        Ok(range)
    }

    /// Ends a bake (committed, cancelled or failed): both flags clear.
    pub fn finish_bake(&mut self)
        ensures
            final(self).wf(),
            !final(self).normalize_busy_spec(),
            !final(self).bake_running_spec(),
            final(self).paste_busy_spec() == old(self).paste_busy_spec(),
    {
        self.bake_running = false;
        self.normalize_busy = false;
    }

    /// Begins a cross-document paste job at `target`: refused while any document job runs, with
    /// no document, while recording, for a bad target, when the clipboard is bound to this
    /// document (a plain paste, not a job) or empty; otherwise marks the paste slot busy.
    pub fn begin_paste(
        &mut self,
        doc: Option<EditDocFacts>,
        target: PasteTarget,
        clipboard: ClipboardKind,
    ) -> (r: Result<EditTarget, IpcError>)
        requires
            old(self).wf(),
        ensures
            final(self).wf(),
            final(self).normalize_busy_spec() == old(self).normalize_busy_spec(),
            final(self).bake_running_spec() == old(self).bake_running_spec(),
            edit_refusal(old(self).paste_busy_spec() || old(self).normalize_busy_spec(), doc).is_some()
                ==> r.is_err() && is_refusal(
                r->Err_0,
                edit_refusal(old(self).paste_busy_spec() || old(self).normalize_busy_spec(), doc).unwrap(),
            ),
            edit_refusal(old(self).paste_busy_spec() || old(self).normalize_busy_spec(), doc).is_none() ==> {
                let len = doc.unwrap().len_samples;
                &&& paste_target_refusal(target, len).is_some() ==> r.is_err() && is_plain_error(
                    r->Err_0,
                    IpcErrorCode::InvalidArgument,
                    paste_target_refusal(target, len).unwrap(),
                )
                &&& paste_target_refusal(target, len).is_none() && clipboard == ClipboardKind::Bound
                    ==> r.is_err() && is_plain_error(r->Err_0, IpcErrorCode::Busy, "error.document_busy"@)
                &&& paste_target_refusal(target, len).is_none() && clipboard == ClipboardKind::Empty
                    ==> r.is_err() && is_plain_error(
                    r->Err_0,
                    IpcErrorCode::InvalidArgument,
                    "error.clipboard_empty"@,
                )
                &&& paste_target_refusal(target, len).is_none() && clipboard == ClipboardKind::Materialized
                    ==> r == Ok::<EditTarget, IpcError>(resolved_target(target))
                    && final(self).paste_busy_spec()
            },
            r.is_err() ==> final(self).paste_busy_spec() == old(self).paste_busy_spec(),
    {
        let d = match check_edit(self.paste_busy || self.normalize_busy, doc) {
            Ok(d) => d,
            Err(e) => return Err(e),
        };
        let resolved = match resolve_paste_target(target, d.len_samples) {
            Ok(t) => t,
            Err(e) => return Err(e),
        };
        match clipboard {
            ClipboardKind::Materialized => {},
            ClipboardKind::Bound => return Err(document_busy()),
            ClipboardKind::Empty => return Err(clipboard_empty()),
        }
        self.paste_busy = true;
        Ok(resolved)
    }

    /// Ends a cross-document paste job (committed, cancelled or failed).
    pub fn finish_paste(&mut self)
        requires
            old(self).wf(),
        ensures
            final(self).wf(),
            !final(self).paste_busy_spec(),
            final(self).normalize_busy_spec() == old(self).normalize_busy_spec(),
            final(self).bake_running_spec() == old(self).bake_running_spec(),
    {
        self.paste_busy = false;
    }
}

/// While a normalize or bake job runs, every audio edit, every undo/redo and every other
/// normalize or bake is refused with `error.document_busy`.
pub proof fn lemma_one_document_job_at_a_time(g: JobGates, doc: Option<EditDocFacts>)
    requires
        g.normalize_busy_spec(),
    ensures
        edit_refusal(g.normalize_busy_spec() || g.paste_busy_spec(), doc) == Some("error.document_busy"@),
        edit_refusal(g.normalize_busy_spec(), doc) == Some("error.document_busy"@),
        edit_refusal(g.paste_busy_spec() || g.normalize_busy_spec(), doc) == Some("error.document_busy"@),
{
}

/// The in-app clipboard's state, as far as paste decides anything on it.
#[derive(Debug, Clone, Copy, PartialEq, Eq, Structural)]
pub enum ClipboardKind {
    /// Nothing cut or copied yet.
    Empty,
    /// Audio of the open document's own session: a paste is a pure splice.
    Bound,
    /// Audio saved outside every session after its document closed, not yet usable here: a
    /// paste runs the cross-document import job.
    Materialized,
}

/// A materialized clip's audio already imported (and converted) for one session.
#[derive(Debug)]
pub struct ConvertedClip<P> {
    pub session_id: String,
    pub pieces: P,
}

/// The in-app clipboard: `Bound` pieces reference the open document's own session; once that
/// session closes the audio is saved outside every session (`Materialized`), optionally with a
/// cache of it already converted for one session.
#[derive(Debug)]
pub enum ClipboardData<P, M> {
    Bound { pieces: P, sample_rate_hz: u32, len_samples: u64 },
    Materialized {
        clip: M,
        sample_rate_hz: u32,
        len_samples: u64,
        converted: Option<ConvertedClip<P>>,
    },
}

/// The clipboard's length and rate (`None`s: empty).
#[derive(Debug, Clone, Copy, Default, PartialEq, Eq)]
pub struct ClipboardInfo {
    pub len_samples: Option<u64>,
    pub sample_rate_hz: Option<u32>,
}

/// Whether the clipboard holds a materialized clip already converted for session `session`.
pub open spec fn converted_for<P, M>(c: ClipboardData<P, M>, session: Seq<char>) -> bool {
    c matches ClipboardData::Materialized { converted: Some(cc), .. } && cc.session_id@ == session
}

/// Whether a plain paste into session `session` needs the cross-document import job: the
/// clipboard is materialized and not converted for that session yet.
pub open spec fn needs_paste_job<P, M>(c: Option<ClipboardData<P, M>>, session: Seq<char>) -> bool {
    match c {
        Some(d) => d is Materialized && !converted_for(d, session),
        None => false,
    }
}

/// The clipboard's state as paste decides on it.
pub open spec fn clipboard_kind_of<P, M>(c: Option<ClipboardData<P, M>>) -> ClipboardKind {
    match c {
        None => ClipboardKind::Empty,
        Some(ClipboardData::Bound { .. }) => ClipboardKind::Bound,
        Some(ClipboardData::Materialized { .. }) => ClipboardKind::Materialized,
    }
}

/// The clipboard's state as paste decides on it.
pub fn clipboard_kind<P, M>(c: &Option<ClipboardData<P, M>>) -> (k: ClipboardKind)
    ensures
        k == clipboard_kind_of(*c),
{
    match c {
        None => ClipboardKind::Empty,
        Some(ClipboardData::Bound { .. }) => ClipboardKind::Bound,
        Some(ClipboardData::Materialized { .. }) => ClipboardKind::Materialized,
    }
}

/// The clipboard's length and rate (`None`s: empty).
pub fn clipboard_info<P, M>(c: &Option<ClipboardData<P, M>>) -> (i: ClipboardInfo)
    ensures
        match c {
            None => i.len_samples.is_none() && i.sample_rate_hz.is_none(),
            Some(ClipboardData::Bound { sample_rate_hz, len_samples, .. }) => i.len_samples
                == Some(*len_samples) && i.sample_rate_hz == Some(*sample_rate_hz),
            Some(ClipboardData::Materialized { sample_rate_hz, len_samples, .. }) => i.len_samples
                == Some(*len_samples) && i.sample_rate_hz == Some(*sample_rate_hz),
        },
{
    match c {
        None => ClipboardInfo { len_samples: None, sample_rate_hz: None },
        Some(ClipboardData::Bound { sample_rate_hz, len_samples, .. }) => ClipboardInfo {
            len_samples: Some(*len_samples),
            sample_rate_hz: Some(*sample_rate_hz),
        },
        Some(ClipboardData::Materialized { sample_rate_hz, len_samples, .. }) => ClipboardInfo {
            len_samples: Some(*len_samples),
            sample_rate_hz: Some(*sample_rate_hz),
        },
    }
}

/// Whether a plain paste into session `session_id` needs the cross-document import job.
pub fn paste_needs_job<P, M>(c: &Option<ClipboardData<P, M>>, session_id: &str) -> (r: bool)
    ensures
        r == needs_paste_job(*c, session_id@),
{
    match c {
        Some(ClipboardData::Materialized { converted, .. }) => match converted {
            Some(cc) => !str_eq_string(&cc.session_id, session_id),
            None => true,
        },
        _ => false,
    }
}

fn str_eq_string(a: &String, b: &str) -> (r: bool)
    ensures
        r == (a@ == b@),
{
    crate::text::str_eq(a.as_str(), b)
}

/// The pieces a plain paste into session `session_id` splices: the bound pieces, or the clip
/// already converted for this session. Refused as busy for a clip that needs the import job
/// first, and with `error.clipboard_empty` when nothing was cut or copied.
pub fn paste_pieces<'a, P, M>(c: &'a Option<ClipboardData<P, M>>, session_id: &str) -> (r: Result<
    &'a P,
    IpcError,
>)
    ensures
        c.is_none() ==> r.is_err() && is_plain_error(r->Err_0, IpcErrorCode::InvalidArgument, "error.clipboard_empty"@),
        needs_paste_job(*c, session_id@) ==> r.is_err() && is_plain_error(r->Err_0, IpcErrorCode::Busy, "error.document_busy"@),
        c.is_some() && !needs_paste_job(*c, session_id@) ==> r.is_ok() && match c.unwrap() {
            ClipboardData::Bound { pieces, .. } => *r->Ok_0 == pieces,
            ClipboardData::Materialized { converted, .. } => *r->Ok_0 == converted.unwrap().pieces,
        },
{
    match c {
        None => Err(clipboard_empty()),
        Some(ClipboardData::Bound { pieces, .. }) => Ok(pieces),
        Some(ClipboardData::Materialized { converted, .. }) => match converted {
            Some(cc) => {
                if str_eq_string(&cc.session_id, session_id) {
                    Ok(&cc.pieces)
                } else {
                    Err(document_busy())
                }
            },
            None => Err(document_busy()),
        },
    }
}

/// The clipboard pieces that reference session `session_id`'s chunk store (they keep their
/// chunks alive through compaction): a bound clip's pieces, or a materialized clip's cache
/// converted for that session; nothing otherwise.
pub fn reachable_pieces<'a, P, M>(c: &'a Option<ClipboardData<P, M>>, session_id: &str) -> (r: Option<
    &'a P,
>)
    ensures
        match *c {
            Some(ClipboardData::Bound { pieces, .. }) => r == Some(&pieces),
            Some(d) => if converted_for(d, session_id@) {
                (r matches Some(p) && (d matches ClipboardData::Materialized { converted: Some(cc), .. }
                    && *p == cc.pieces))
            } else {
                r is None
            },
            None => r is None,
        },
{
    match c {
        Some(ClipboardData::Bound { pieces, .. }) => Some(pieces),
        Some(ClipboardData::Materialized { converted, .. }) => match converted {
            Some(cc) => if str_eq_string(&cc.session_id, session_id) {
                Some(&cc.pieces)
            } else {
                None
            },
            None => None,
        },
        None => None,
    }
}

/// The clipboard when the session a bound clip references closes, given the outcome of saving
/// its audio outside every session (`Some(clip)`, or `None` when that failed): a bound clip
/// becomes materialized (no conversion cached yet); when saving failed the clipboard is
/// emptied and "clipboard lost" is posted. An empty or already materialized clipboard stays as
/// it is.
pub fn clipboard_on_session_close<P, M>(c: Option<ClipboardData<P, M>>, saved: Option<M>) -> (r: (
    Option<ClipboardData<P, M>>,
    Option<SidecarNoticeInfo>,
))
    ensures
        match c {
            Some(ClipboardData::Bound { sample_rate_hz, len_samples, .. }) => match saved {
                Some(clip) => r.0 == Some(
                    ClipboardData::<P, M>::Materialized { clip, sample_rate_hz, len_samples, converted: None },
                ) && r.1 is None,
                None => r.0 is None && (r.1 matches Some(n) && n.key@ == "notice.clipboard_lost"@
                    && notice_pairs(n) == Seq::<(Seq<char>, Seq<char>)>::empty()),
            },
            _ => r.0 == c && r.1 is None,
        },
{
    match c {
        Some(ClipboardData::Bound { pieces, sample_rate_hz, len_samples }) => match saved {
            Some(clip) => (
                Some(ClipboardData::Materialized { clip, sample_rate_hz, len_samples, converted: None }),
                None,
            ),
            None => {
                let params: Vec<(&'static str, String)> = Vec::new();
                let n = SidecarNoticeInfo { key: "notice.clipboard_lost", params };
                proof {
                    assert(notice_pairs(n) =~= Seq::<(Seq<char>, Seq<char>)>::empty());
                }
                (None, Some(n))
            },
        },
        other => (other, None),
    }
}

/// The clipboard after a cross-document paste job committed `pieces` into session
/// `session_id`.
pub open spec fn clipboard_after_paste<P, M>(
    c: Option<ClipboardData<P, M>>,
    clip_rate_hz: u32,
    target_rate_hz: u32,
    session_id: String,
    pieces: P,
    len_samples: u64,
) -> Option<ClipboardData<P, M>> {
    if clip_rate_hz == target_rate_hz {
        Some(ClipboardData::<P, M>::Bound { pieces, sample_rate_hz: target_rate_hz, len_samples })
    } else {
        match c {
            Some(ClipboardData::Materialized { clip, sample_rate_hz, len_samples: l, .. }) => Some(
                ClipboardData::<P, M>::Materialized {
                    clip,
                    sample_rate_hz,
                    len_samples: l,
                    converted: Some(ConvertedClip { session_id, pieces }),
                },
            ),
            _ => c,
        }
    }
}

/// The clipboard after a cross-document paste job into session `session_id` committed
/// `pieces` (`len_samples` long, at `target_rate_hz`): a same-rate import binds the clipboard
/// to this session; a converted one is cached for this session only, the materialized clip staying
/// for any other document.
pub fn after_paste_job<P, M>(
    c: Option<ClipboardData<P, M>>,
    clip_rate_hz: u32,
    target_rate_hz: u32,
    session_id: String,
    pieces: P,
    len_samples: u64,
) -> (r: Option<ClipboardData<P, M>>)
    ensures
        r == clipboard_after_paste(c, clip_rate_hz, target_rate_hz, session_id, pieces, len_samples),
{
    if clip_rate_hz == target_rate_hz {
        return Some(ClipboardData::Bound { pieces, sample_rate_hz: target_rate_hz, len_samples });
    }
    match c {
        Some(ClipboardData::Materialized { clip, sample_rate_hz, len_samples: l, .. }) => Some(
            ClipboardData::Materialized {
                clip,
                sample_rate_hz,
                len_samples: l,
                converted: Some(ConvertedClip { session_id, pieces }),
            },
        ),
        other => other,
    }
}

/// After a cross-document paste job committed into a session, later pastes into that session
/// are plain splices (no new import job), whether the rates matched or the clip was converted.
pub proof fn lemma_later_pastes_reuse_the_import<P, M>(
    c: Option<ClipboardData<P, M>>,
    clip_rate_hz: u32,
    target_rate_hz: u32,
    session_id: String,
    pieces: P,
    len_samples: u64,
)
    requires
        c matches Some(ClipboardData::Materialized { .. }),
    ensures
        ({
            let r = clipboard_after_paste(c, clip_rate_hz, target_rate_hz, session_id, pieces, len_samples);
            !needs_paste_job(r, session_id@) && r.is_some()
        }),
{
}

broadcast use vstd::std_specs::hash::group_hash_axioms;

/// The ids after `id` that a job counter hands out (wrapping at the top of `u32`).
pub open spec fn next_job_id(id: u32) -> u32 {
    if id == u32::MAX {
        0
    } else {
        (id + 1) as u32
    }
}

/// Running jobs of one kind, by id: what a cancel command looks up (an unknown or finished id
/// is a harmless no-op) and a finished job removes.
#[derive(Debug)]
pub struct JobTable<T> {
    jobs: std::collections::HashMap<u32, T>,
    next_id: u32,
}

impl<T> JobTable<T> {
    /// The running jobs.
    pub closed spec fn jobs_spec(&self) -> Map<u32, T> {
        self.jobs@
    }

    /// The id the next registered job gets.
    pub closed spec fn next_id_spec(&self) -> u32 {
        self.next_id
    }

    /// No jobs; the first one gets `first_id`.
    pub fn new(first_id: u32) -> (t: JobTable<T>)
        ensures
            t.jobs_spec() == Map::<u32, T>::empty(),
            t.next_id_spec() == first_id,
    {
        JobTable { jobs: std::collections::HashMap::new(), next_id: first_id }
    }

    /// Registers a job with cancel handle `token` under the next id, and returns that id.
    pub fn register(&mut self, token: T) -> (id: u32)
        ensures
            id == old(self).next_id_spec(),
            final(self).jobs_spec() == old(self).jobs_spec().insert(id, token),
            final(self).next_id_spec() == next_job_id(id),
    {
        let id = self.next_id;
        self.next_id = if id == u32::MAX {
            0
        } else {
            id + 1
        };
        self.jobs.insert(id, token);
        id
    }

    /// The cancel handle of job `id`, if it is still running.
    pub fn get(&self, id: u32) -> (r: Option<&T>)
        ensures
            r.is_some() == self.jobs_spec().contains_key(id),
            r.is_some() ==> *r.unwrap() == self.jobs_spec()[id],
    {
        self.jobs.get(&id)
    }

    /// Removes job `id` (it finished, whatever the outcome); a no-op for an unknown id.
    pub fn remove(&mut self, id: u32)
        ensures
            final(self).jobs_spec() == old(self).jobs_spec().remove(id),
            final(self).next_id_spec() == old(self).next_id_spec(),
    {
        self.jobs.remove(&id);
    }
}

/// A registered job can be found (and cancelled) until it is removed, and not after.
pub proof fn lemma_job_registered_until_removed<T>(jobs: Map<u32, T>, id: u32, token: T, other: u32)
    ensures
        jobs.insert(id, token).contains_key(id),
        jobs.insert(id, token)[id] == token,
        !jobs.insert(id, token).remove(id).contains_key(id),
        other != id ==> jobs.insert(id, token).remove(other).contains_key(id),
{
}

/// The result of a cut/copy/paste/delete/trim/silence command or an undo/redo: whether the
/// document changed, its revision and length afterwards, the new selection and playhead.
#[derive(Debug, Clone, Copy, Default, PartialEq, Eq)]
pub struct EditResult {
    pub changed: bool,
    pub audio_rev: u64,
    pub len_samples: u64,
    pub selection: Option<(u64, u64)>,
    pub playhead_samples: u64,
}

/// A no-op's result (a whole-document trim, an undo/redo at the history's edge): nothing
/// changed, no selection, the playhead at 0.
pub fn unchanged_result(audio_rev: u64, len_samples: u64) -> (r: EditResult)
    ensures
        r == (EditResult { changed: false, audio_rev, len_samples, selection: None, playhead_samples: 0 }),
{
    EditResult { changed: false, audio_rev, len_samples, selection: None, playhead_samples: 0 }
}

/// Copy's (or a no-op normalize's) result: nothing changed, the range stays selected, the
/// playhead at its start.
pub fn range_kept_result(audio_rev: u64, len_samples: u64, range: SampleRange) -> (r: EditResult)
    ensures
        r == (EditResult {
            changed: false,
            audio_rev,
            len_samples,
            selection: Some((range.start, range.end)),
            playhead_samples: range.start,
        }),
{
    EditResult {
        changed: false,
        audio_rev,
        len_samples,
        selection: Some((range.start, range.end)),
        playhead_samples: range.start,
    }
}

/// Why a peak normalize did nothing.
#[derive(Debug, Clone, Copy, PartialEq, Eq, Structural)]
pub enum NormalizeNotice {
    /// The scope's peak is 0 or below the near-silence floor.
    Silent,
    /// The gain needed is within the "already there" tolerance.
    AlreadyNormalized,
}

/// A peak normalize's result and, when it did nothing, why.
#[derive(Debug, Clone, Copy, PartialEq, Eq)]
pub struct NormalizeEditResult {
    pub result: EditResult,
    pub notice: Option<NormalizeNotice>,
}

/// What to do with a recovered session's interrupted take.
#[derive(Debug, Clone, Copy, PartialEq, Eq, Structural)]
pub enum RecoveredTakeAction {
    /// One undoable "Record" edit, as if Stop had been pressed (the default).
    Apply,
    /// The take becomes a new untitled document.
    NewDocument,
    /// Drop the take.
    Discard,
}

impl RecoveredTakeAction {
    /// The default action: apply the take.
    pub fn default_action() -> (a: RecoveredTakeAction)
        ensures
            a == RecoveredTakeAction::Apply,
    {
        RecoveredTakeAction::Apply
    }
}

/// The Edit menu's Undo/Redo state: labels are i18n keys, with their placeholder values.
#[derive(Debug)]
pub struct HistoryState {
    pub can_undo: bool,
    pub can_redo: bool,
    pub undo_label: Option<String>,
    pub redo_label: Option<String>,
    pub undo_label_params: crate::error::Params,
    pub redo_label_params: crate::error::Params,
}

/// The Undo/Redo state of a history `undo_depth` entries deep with `redo_depth` entries to
/// redo.
pub fn history_state(
    undo_depth: usize,
    redo_depth: usize,
    undo_label: Option<String>,
    redo_label: Option<String>,
    undo_label_params: crate::error::Params,
    redo_label_params: crate::error::Params,
) -> (h: HistoryState)
    ensures
        h.can_undo == (undo_depth > 0),
        h.can_redo == (redo_depth > 0),
        h.undo_label == undo_label,
        h.redo_label == redo_label,
        h.undo_label_params@ == undo_label_params@,
        h.redo_label_params@ == redo_label_params@,
{
    HistoryState {
        can_undo: undo_depth > 0,
        can_redo: redo_depth > 0,
        undo_label,
        redo_label,
        undo_label_params,
        redo_label_params,
    }
}

/// The Undo/Redo state with no document open: nothing to undo or redo.
pub fn empty_history_state() -> (h: HistoryState)
    ensures
        !h.can_undo,
        !h.can_redo,
        h.undo_label.is_none(),
        h.redo_label.is_none(),
        h.undo_label_params@ == Map::<Seq<char>, Seq<char>>::empty(),
        h.redo_label_params@ == Map::<Seq<char>, Seq<char>>::empty(),
{
    history_state(0, 0, None, None, crate::error::Params::new(), crate::error::Params::new())
}

/// Where a new recording goes.
#[derive(Debug, Clone, Copy, PartialEq, Eq, Structural)]
pub enum RecordingTarget {
    /// The open document is empty and at the input's rate: record into it.
    OpenDocument,
    /// A new untitled document replaces the open one (if any).
    NewDocument,
}

/// What a new recording must know of the open document.
#[derive(Debug, Clone, Copy, PartialEq, Eq)]
pub struct RecordDocFacts {
    pub recording: bool,
    pub len_samples: u64,
    pub sample_rate_hz: u32,
}

/// Where a recording at `rate_hz` goes: refused while one is recording; into the open document
/// when it is empty and at that rate; otherwise a new document — which, over a document with
/// audio, needs `replace` (the UI ran the unsaved-changes prompt first).
pub fn recording_target(doc: Option<RecordDocFacts>, rate_hz: u32, replace: bool) -> (r: Result<
    RecordingTarget,
    IpcError,
>)
    ensures
        match doc {
            Some(d) => if d.recording {
                r.is_err() && is_plain_error(r->Err_0, IpcErrorCode::NotWhileRecording, "error.not_while_recording"@)
            } else if d.len_samples == 0 && d.sample_rate_hz == rate_hz {
                r == Ok::<RecordingTarget, IpcError>(RecordingTarget::OpenDocument)
            } else if !replace && d.len_samples > 0 {
                r.is_err() && is_plain_error(r->Err_0, IpcErrorCode::InvalidArgument, "error.record.needs_replace"@)
            } else {
                r == Ok::<RecordingTarget, IpcError>(RecordingTarget::NewDocument)
            },
            None => r == Ok::<RecordingTarget, IpcError>(RecordingTarget::NewDocument),
        },
{
    match doc {
        None => Ok(RecordingTarget::NewDocument),
        Some(d) => {
            if d.recording {
                Err(IpcError::not_while_recording())
            } else if d.len_samples == 0 && d.sample_rate_hz == rate_hz {
                Ok(RecordingTarget::OpenDocument)
            } else if !replace && d.len_samples > 0 {
                Err(IpcError::new(IpcErrorCode::InvalidArgument, "error.record.needs_replace"))
            } else {
                Ok(RecordingTarget::NewDocument)
            }
        },
    }
}

/// How many of `count` buckets of `spp` samples starting at `start` an import can already
/// answer, `committed_len` samples having committed (a bucket counts only once its whole span
/// has committed; a zero `spp` counts as one), and whether the answer is partial.
pub fn import_ready_buckets(committed_len: u64, start: u64, spp: u32, count: u32) -> (r: (u32, bool))
    ensures
        ({
            let spp1: int = if spp == 0 { 1 } else { spp as int };
            let ready: int = if start >= committed_len {
                0
            } else if (committed_len - start) / spp1 < count {
                (committed_len - start) / spp1
            } else {
                count as int
            };
            r.0 == ready && r.1 == (ready < count)
        }),
{
    let spp64: u64 = if spp == 0 { 1 } else { spp as u64 };
    let ready: u32 = if start >= committed_len {
        0
    } else {
        let whole = (committed_len - start) / spp64;
        if whole < count as u64 {
            whole as u32
        } else {
            count
        }
    };
    (ready, ready < count)
}

/// The most buckets a peaks request answers: 65 536, or 1 Mi raw samples when `spp` is at or
/// below `raw_spp` (the raw-samples mode).
pub fn peaks_request_count(spp: u32, count: u32, raw_spp: u32) -> (n: u32)
    ensures
        n == (if count < (if spp <= raw_spp { 1048576u32 } else { 65536u32 }) {
            count
        } else {
            if spp <= raw_spp { 1048576u32 } else { 65536u32 }
        }),
{
    let cap: u32 = if spp <= raw_spp { 1048576 } else { 65536 };
    if count < cap {
        count
    } else {
        cap
    }
}

/// The memory budget for audio in bytes: `mib` clamped to 256 MiB … 16 GiB.
pub fn memory_budget_bytes(mib: u32) -> (b: u64)
    ensures
        b == (if mib < 256 { 256 } else if mib > 16384 { 16384 } else { mib as int }) * 1048576,
{
    let m: u64 = if mib < 256 {
        256
    } else if mib > 16384 {
        16384
    } else {
        mib as u64
    };
    m * 1048576
}

/// Whether `id` names a plain entry of the sessions directory: not empty, not hidden (no
/// leading dot), no path separator, and not a directory being deleted (`deleting_suffix`).
pub open spec fn plain_session_id(id: Seq<char>, deleting_suffix: Seq<char>) -> bool {
    &&& id.len() > 0
    &&& id[0] != '.'
    &&& forall|i: int| 0 <= i < id.len() ==> #[trigger] id[i] != '/' && id[i] != '\\'
    &&& !(deleting_suffix.len() <= id.len() && id.skip(id.len() - deleting_suffix.len()) == deleting_suffix)
}

/// Whether `id` names a plain entry of the sessions directory (a recovery command refuses
/// anything else as not found).
pub fn is_plain_session_id(id: &str, deleting_suffix: &str) -> (r: bool)
    ensures
        r == plain_session_id(id@, deleting_suffix@),
{
    let c = crate::text::chars_of(id);
    let s = crate::text::chars_of(deleting_suffix);
    let n = c.len();
    if n == 0 || c[0] == '.' {
        return false;
    }
    let mut i: usize = 0;
    while i < n
        invariant
            c@ == id@,
            n == c@.len(),
            i <= n,
            forall|j: int| 0 <= j < i ==> #[trigger] c@[j] != '/' && c@[j] != '\\',
        decreases n - i,
    {
        if c[i] == '/' || c[i] == '\\' {
            return false;
        }
        i += 1;
    }
    let m = s.len();
    if m > n {
        return true;
    }
    let mut k: usize = 0;
    while k < m
        invariant
            c@ == id@,
            s@ == deleting_suffix@,
            n == c@.len(),
            m == s@.len(),
            m <= n,
            n > 0,
            c@[0] != '.',
            forall|j: int| 0 <= j < n ==> #[trigger] c@[j] != '/' && c@[j] != '\\',
            k <= m,
            forall|j: int| 0 <= j < k ==> c@[n - m + j] == s@[j],
        decreases m - k,
    {
        if c[n - m + k] != s[k] {
            proof {
                assert(id@.skip(n - m)[k as int] != deleting_suffix@[k as int]);
            }
            return true;
        }
        k += 1;
    }
    proof {
        assert(id@.skip(n - m) =~= deleting_suffix@);
    }
    false
}

/// What went wrong in the project layer (sessions, import, decode), as far as the command's
/// error code depends on it.
#[derive(Debug, Clone, Copy, PartialEq, Eq, Structural)]
pub enum ProjectErrorKind {
    NotWhileRecording,
    InvalidArgument,
    InvalidEdit,
    NonFiniteSample,
    Cancelled,
    /// The file is not a format the decoder recognizes.
    UnrecognizedFormat,
    /// The container holds a codec the decoder can't read.
    UnsupportedCodec,
    NoAudioTrack,
    RateOutOfRange,
    TooManyChannels,
    /// A chained stream changed its format midway.
    ChainedStreamChanged,
    /// Too much of the file is damaged to read.
    TooDamaged,
    /// The file does not exist.
    FileNotFound,
    /// Any other I/O failure reading the file.
    Io,
    /// Anything else (write/encode failures, store problems).
    Other,
}

/// The command error code of a project failure: the caller's mistakes and unreadable files
/// are invalid arguments, a missing file is not found, other read failures are I/O, the rest
/// internal.
pub open spec fn project_error_code(kind: ProjectErrorKind) -> IpcErrorCode {
    match kind {
        ProjectErrorKind::NotWhileRecording => IpcErrorCode::NotWhileRecording,
        ProjectErrorKind::InvalidArgument | ProjectErrorKind::InvalidEdit
        | ProjectErrorKind::NonFiniteSample => IpcErrorCode::InvalidArgument,
        ProjectErrorKind::Cancelled => IpcErrorCode::Cancelled,
        ProjectErrorKind::UnrecognizedFormat | ProjectErrorKind::UnsupportedCodec
        | ProjectErrorKind::NoAudioTrack | ProjectErrorKind::RateOutOfRange
        | ProjectErrorKind::TooManyChannels | ProjectErrorKind::ChainedStreamChanged
        | ProjectErrorKind::TooDamaged => IpcErrorCode::InvalidArgument,
        ProjectErrorKind::FileNotFound => IpcErrorCode::NotFound,
        ProjectErrorKind::Io => IpcErrorCode::Io,
        ProjectErrorKind::Other => IpcErrorCode::Internal,
    }
}

/// A project failure's command error: its own i18n key, the code of its kind, and its text as
/// `message`.
pub fn document_error(kind: ProjectErrorKind, key: &str, message: &str) -> (e: IpcError)
    ensures
        is_error_with(e, project_error_code(kind), key@, "message"@, message@),
{
    let code = match kind {
        ProjectErrorKind::NotWhileRecording => IpcErrorCode::NotWhileRecording,
        ProjectErrorKind::InvalidArgument | ProjectErrorKind::InvalidEdit
        | ProjectErrorKind::NonFiniteSample => IpcErrorCode::InvalidArgument,
        ProjectErrorKind::Cancelled => IpcErrorCode::Cancelled,
        ProjectErrorKind::UnrecognizedFormat | ProjectErrorKind::UnsupportedCodec
        | ProjectErrorKind::NoAudioTrack | ProjectErrorKind::RateOutOfRange
        | ProjectErrorKind::TooManyChannels | ProjectErrorKind::ChainedStreamChanged
        | ProjectErrorKind::TooDamaged => IpcErrorCode::InvalidArgument,
        ProjectErrorKind::FileNotFound => IpcErrorCode::NotFound,
        ProjectErrorKind::Io => IpcErrorCode::Io,
        ProjectErrorKind::Other => IpcErrorCode::Internal,
    };
    IpcError::new(code, key).with_param("message", message)
}

/// Whether a finished document job (normalize, bake) may commit its result. The document must
/// be open. A result that changes audio also needs the document to be the session the job read,
/// unedited since; a no-op result never touched the store, so it commits as a no-op even when
/// the document was reopened or edited while the job ran.
pub fn check_job_commit(doc_open: bool, same_session: bool, unedited: bool, changes_audio: bool) -> (r:
    Result<(), IpcError>)
    ensures
        !doc_open ==> r.is_err() && is_plain_error(r->Err_0, IpcErrorCode::NotFound, "error.document.none"@),
        doc_open && !changes_audio ==> r.is_ok(),
        doc_open && changes_audio && (!same_session || !unedited) ==> r.is_err() && is_plain_error(
            r->Err_0,
            IpcErrorCode::Busy,
            "error.document_busy"@,
        ),
        doc_open && changes_audio && same_session && unedited ==> r.is_ok(),
{
    if !doc_open {
        return Err(no_document());
    }
    if changes_audio && (!same_session || !unedited) {
        return Err(document_busy());
    }
    Ok(())
}

/// An Insert Silence duration outside 1 sample … 3 600 s.
pub fn insert_silence_duration_error() -> (e: IpcError)
    ensures
        is_plain_error(e, IpcErrorCode::InvalidArgument, "error.insert_silence_duration"@),
{
    IpcError::new(IpcErrorCode::InvalidArgument, "error.insert_silence_duration")
}

/// A normalize that found nothing to do: the range stays selected, the playhead at its start,
/// and the reason goes along.
pub fn normalize_noop_result(audio_rev: u64, len_samples: u64, range: SampleRange, why: NormalizeNotice) -> (r:
    NormalizeEditResult)
    ensures
        r.result == (EditResult {
            changed: false,
            audio_rev,
            len_samples,
            selection: Some((range.start, range.end)),
            playhead_samples: range.start,
        }),
        r.notice == Some(why),
{
    NormalizeEditResult { result: range_kept_result(audio_rev, len_samples, range), notice: Some(why) }
}

/// A take's commit is tried this many times before the take is left open for recovery.
pub const COMMIT_ATTEMPTS: u32 = 3;

/// The pause between two commit attempts, in milliseconds.
pub const COMMIT_RETRY_DELAY_MS: u64 = 100;

/// Closing a superseded session is tried this many times while its store is still in use.
pub const CLOSE_RETRY_ATTEMPTS: u32 = 40;

/// The pause between two close attempts, in milliseconds.
pub const CLOSE_RETRY_DELAY_MS: u64 = 5;

/// Whether to try again after `attempts_made` attempts, of at most `max_attempts`, the last of
/// which failed in a way worth retrying.
pub fn another_attempt(attempts_made: u32, max_attempts: u32, retryable_failure: bool) -> (r: bool)
    ensures
        r == (retryable_failure && attempts_made < max_attempts),
{
    retryable_failure && attempts_made < max_attempts
}

/// How an attempt to close a superseded session went.
#[derive(Debug, Clone, Copy, PartialEq, Eq, Structural)]
pub enum CloseOutcome {
    Closed,
    /// The playback reader still holds the session's store (it lets go a moment later).
    StoreInUse,
    /// Anything else: the session is left for the next cleanup pass.
    Failed,
}

/// What to do after the `attempt`-th (from 1) close attempt: done once closed; after a store
/// still in use, wait and retry while attempts remain; otherwise leave the session for the next
/// cleanup pass.
pub open spec fn close_retry(attempt: u32, outcome: CloseOutcome) -> bool {
    outcome == CloseOutcome::StoreInUse && attempt < CLOSE_RETRY_ATTEMPTS
}

/// Whether to retry closing after the `attempt`-th attempt (see [`close_retry`]).
pub fn retry_close(attempt: u32, outcome: CloseOutcome) -> (r: bool)
    ensures
        r == close_retry(attempt, outcome),
{
    another_attempt(attempt, CLOSE_RETRY_ATTEMPTS, outcome == CloseOutcome::StoreInUse)
}

} // verus!
