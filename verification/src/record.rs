//! Recording into the document: where a record operation's take goes, which part of a finished
//! take's window enters the document, which recorder dropouts become "Dropout N ms" markers and
//! where, and the selection and playhead a committed operation leaves.

use vstd::prelude::*;

use crate::document::{document_busy, EditResult};
use crate::error::{is_plain_error, IpcError, IpcErrorCode};
use crate::markers::{dropout_marker_len, dropout_marker_name, dropout_name_spec, invalid_range};
use crate::save::no_document;

verus! {

/// A gap the recorder filled with silence: where it starts in the take, and how long it is
/// (`None` when the recorder could not tell).
#[derive(Debug, Clone, Copy, PartialEq, Eq, Structural)]
pub struct DropoutMark {
    pub pos_samples: u64,
    pub len_samples: Option<u64>,
}

/// A marker the commit creates (the session gives it its id; its kind is Dropout).
#[derive(Debug, Clone, PartialEq, Eq)]
pub struct NewMarker {
    pub pos_samples: u64,
    pub len_samples: u64,
    pub name: String,
}

/// The span a dropout marker shows: the fill length, or a point when it is unknown.
pub open spec fn dropout_len_spec(len: Option<u64>) -> u64 {
    match len {
        Some(n) => n,
        None => 0,
    }
}

/// `m` is the marker of dropout `d` placed at `pos` in a document at `rate_hz`.
pub open spec fn is_dropout_marker(m: NewMarker, d: DropoutMark, pos: int, rate_hz: u32) -> bool {
    &&& m.pos_samples == pos
    &&& m.len_samples == dropout_len_spec(d.len_samples)
    &&& m.name@ == dropout_name_spec(d.len_samples, rate_hz)
}

/// The marker of dropout `d` at document position `pos`.
fn dropout_marker(d: DropoutMark, pos: u64, rate_hz: u32) -> (m: NewMarker)
    ensures
        is_dropout_marker(m, d, pos as int, rate_hz),
{
    NewMarker {
        pos_samples: pos,
        len_samples: dropout_marker_len(d.len_samples),
        name: dropout_marker_name(d.len_samples, rate_hz),
    }
}

/// A plain take's markers: every dropout, at its own position (the take starts the document).
pub fn take_dropout_markers(dropouts: &[DropoutMark], rate_hz: u32) -> (ms: Vec<NewMarker>)
    ensures
        ms@.len() == dropouts@.len(),
        forall|i: int|
            0 <= i < dropouts@.len() ==> is_dropout_marker(
                #[trigger] ms@[i],
                dropouts@[i],
                dropouts@[i].pos_samples as int,
                rate_hz,
            ),
{
    let mut ms: Vec<NewMarker> = Vec::new();
    let mut i: usize = 0;
    while i < dropouts.len()
        invariant
            i <= dropouts@.len(),
            ms@.len() == i,
            forall|j: int|
                0 <= j < i ==> is_dropout_marker(
                    #[trigger] ms@[j],
                    dropouts@[j],
                    dropouts@[j].pos_samples as int,
                    rate_hz,
                ),
        decreases dropouts.len() - i,
    {
        let d = dropouts[i];
        ms.push(dropout_marker(d, d.pos_samples, rate_hz));
        i += 1;
    }
    ms
}

/// The four record operations.
#[derive(Debug, Clone, Copy, PartialEq, Eq, Structural)]
pub enum RecordOpKind {
    /// A new document.
    New,
    /// Insert at `at`.
    Insert,
    /// Overwrite from `at` on.
    Overwrite,
    /// Punch-in over `[at, end)`.
    Punch,
}

/// A resolved record operation: its kind, where it goes, and the document rate it was planned
/// for.
#[derive(Debug, Clone, Copy, PartialEq, Eq, Structural)]
pub struct RecordPlan {
    pub kind: RecordOpKind,
    pub at_samples: u64,
    pub end_samples: Option<u64>,
    pub doc_rate_hz: u32,
}

/// How the session opens the take of a record operation.
#[derive(Debug, Clone, Copy, PartialEq, Eq, Structural)]
pub enum TakeMode {
    New,
    Insert { at_samples: u64 },
    Overwrite { at_samples: u64 },
    Punch { start_samples: u64, end_samples: u64 },
}

/// The take mode of `plan` (a punch with no end is an empty one at `at`).
pub open spec fn take_mode_of(plan: RecordPlan) -> TakeMode {
    match plan.kind {
        RecordOpKind::New => TakeMode::New,
        RecordOpKind::Insert => TakeMode::Insert { at_samples: plan.at_samples },
        RecordOpKind::Overwrite => TakeMode::Overwrite { at_samples: plan.at_samples },
        RecordOpKind::Punch => TakeMode::Punch {
            start_samples: plan.at_samples,
            end_samples: match plan.end_samples {
                Some(e) => e,
                None => plan.at_samples,
            },
        },
    }
}

/// What opening a record operation's take must know of the open document.
#[derive(Debug, Clone, Copy, PartialEq, Eq, Structural)]
pub struct RecordOpDocFacts {
    pub recording: bool,
    pub sample_rate_hz: u32,
}

/// Opening a record operation's take: refused while a normalize job runs, with no document,
/// while recording, and when the plan was made for another rate; otherwise its take mode.
pub fn begin_record_op(normalize_busy: bool, doc: Option<RecordOpDocFacts>, plan: RecordPlan) -> (r:
    Result<TakeMode, IpcError>)
    ensures
        normalize_busy ==> r.is_err() && is_plain_error(r->Err_0, IpcErrorCode::Busy, "error.document_busy"@),
        !normalize_busy ==> match doc {
            None => r.is_err() && is_plain_error(r->Err_0, IpcErrorCode::NotFound, "error.document.none"@),
            Some(d) => if d.recording {
                r.is_err() && is_plain_error(
                    r->Err_0,
                    IpcErrorCode::NotWhileRecording,
                    "error.not_while_recording"@,
                )
            } else if d.sample_rate_hz != plan.doc_rate_hz {
                r.is_err() && is_plain_error(r->Err_0, IpcErrorCode::InvalidArgument, "error.invalid_range"@)
            } else {
                r == Ok::<TakeMode, IpcError>(take_mode_of(plan))
            },
        },
{
    if normalize_busy {
        return Err(document_busy());
    }
    let d = match doc {
        None => return Err(no_document()),
        Some(d) => d,
    };
    if d.recording {
        return Err(IpcError::not_while_recording());
    }
    if d.sample_rate_hz != plan.doc_rate_hz {
        return Err(invalid_range());
    }
    let mode = match plan.kind {
        RecordOpKind::New => TakeMode::New,
        RecordOpKind::Insert => TakeMode::Insert { at_samples: plan.at_samples },
        RecordOpKind::Overwrite => TakeMode::Overwrite { at_samples: plan.at_samples },
        RecordOpKind::Punch => TakeMode::Punch {
            start_samples: plan.at_samples,
            end_samples: match plan.end_samples {
                Some(e) => e,
                None => plan.at_samples,
            },
        },
    };
    Ok(mode)
}

/// `a - b`, or 0 when `b > a`.
pub open spec fn sat_sub(a: int, b: int) -> int {
    if a >= b {
        a - b
    } else {
        0
    }
}

/// The smaller of `a` and `b`.
pub open spec fn min_int(a: int, b: int) -> int {
    if a <= b {
        a
    } else {
        b
    }
}

/// How many samples of the take enter the document: the window `[ws, we)` clipped to the take's
/// `take_len` samples, and for a punch at most the punched range `[at, end)`.
pub open spec fn window_len_spec(plan: RecordPlan, ws: u64, we: u64, take_len: u64) -> int {
    let n = sat_sub(min_int(we as int, take_len as int), min_int(ws as int, take_len as int));
    if plan.kind == RecordOpKind::Punch {
        let end: int = match plan.end_samples {
            Some(e) => e as int,
            None => plan.at_samples as int,
        };
        min_int(n, sat_sub(end, plan.at_samples as int))
    } else {
        n
    }
}

/// The window's length in the document (see [`window_len_spec`]).
pub fn window_len(plan: RecordPlan, ws: u64, we: u64, take_len: u64) -> (n: u64)
    ensures
        n == window_len_spec(plan, ws, we, take_len),
{
    let hi = if we < take_len {
        we
    } else {
        take_len
    };
    let lo = if ws < take_len {
        ws
    } else {
        take_len
    };
    let mut n = hi.saturating_sub(lo);
    if plan.kind == RecordOpKind::Punch {
        let end = match plan.end_samples {
            Some(e) => e,
            None => plan.at_samples,
        };
        let punched = end.saturating_sub(plan.at_samples);
        if punched < n {
            n = punched;
        }
    }
    n
}

/// Only a punch-in is limited to its punched range. A new, inserted or overwriting record
/// operation takes the whole recorded window, as far as the take reaches, into the document
/// (all of `[ws, we)` when the take covers it); a punch-in takes the smaller of that and the
/// punched range `[at, end)`.
pub proof fn lemma_window_len_clips_only_punches(plan: RecordPlan, ws: u64, we: u64, take_len: u64)
    ensures
        ({
            let hi: int = if we <= take_len { we as int } else { take_len as int };
            let lo: int = if ws <= take_len { ws as int } else { take_len as int };
            let recorded: int = if lo <= hi { hi - lo } else { 0 };
            let end: int = match plan.end_samples {
                Some(e) => e as int,
                None => plan.at_samples as int,
            };
            let punched: int = if plan.at_samples <= end { end - plan.at_samples } else { 0 };
            &&& plan.kind != RecordOpKind::Punch ==> window_len_spec(plan, ws, we, take_len) == recorded
            &&& plan.kind != RecordOpKind::Punch && ws <= we && we <= take_len ==> window_len_spec(
                plan,
                ws,
                we,
                take_len,
            ) == we - ws
            &&& plan.kind == RecordOpKind::Punch ==> window_len_spec(plan, ws, we, take_len) == (if recorded
                <= punched {
                recorded
            } else {
                punched
            })
            &&& 0 <= window_len_spec(plan, ws, we, take_len) <= recorded
        }),
{
}

/// The dropouts of `s` inside the window's first `n` samples from `ws`, in order.
pub open spec fn dropouts_in_window(s: Seq<DropoutMark>, ws: u64, n: u64) -> Seq<DropoutMark>
    decreases s.len(),
{
    if s.len() == 0 {
        Seq::empty()
    } else {
        let rest = dropouts_in_window(s.drop_last(), ws, n);
        if ws <= s.last().pos_samples && s.last().pos_samples < ws + n {
            rest.push(s.last())
        } else {
            rest
        }
    }
}

/// A committed record operation's markers: the dropouts inside `[ws, ws + n)` (pre- and
/// post-roll gaps never enter the document), each moved to `at + (pos - ws)`.
pub fn window_dropout_markers(
    dropouts: &[DropoutMark],
    ws: u64,
    n: u64,
    at_samples: u64,
    rate_hz: u32,
) -> (ms: Vec<NewMarker>)
    requires
        ws + n <= u64::MAX,
        at_samples + n <= u64::MAX,
    ensures
        ms@.len() == dropouts_in_window(dropouts@, ws, n).len(),
        forall|i: int|
            0 <= i < ms@.len() ==> {
                let d = dropouts_in_window(dropouts@, ws, n)[i];
                is_dropout_marker(#[trigger] ms@[i], d, at_samples + (d.pos_samples - ws), rate_hz)
            },
{
    let mut ms: Vec<NewMarker> = Vec::new();
    let mut i: usize = 0;
    while i < dropouts.len()
        invariant
            i <= dropouts@.len(),
            ws + n <= u64::MAX,
            at_samples + n <= u64::MAX,
            ms@.len() == dropouts_in_window(dropouts@.take(i as int), ws, n).len(),
            forall|k: int|
                0 <= k < ms@.len() ==> {
                    let d = dropouts_in_window(dropouts@.take(i as int), ws, n)[k];
                    is_dropout_marker(
                        #[trigger] ms@[k],
                        d,
                        at_samples + (d.pos_samples - ws),
                        rate_hz,
                    )
                },
        decreases dropouts.len() - i,
    {
        let d = dropouts[i];
        let ghost before = dropouts@.take(i as int);
        proof {
            assert(dropouts@.take(i + 1).drop_last() =~= before);
            assert(dropouts@.take(i + 1).last() == d);
        }
        if ws <= d.pos_samples && d.pos_samples < ws + n {
            let pos = at_samples + (d.pos_samples - ws);
            ms.push(dropout_marker(d, pos, rate_hz));
        }
        i += 1;
    }
    proof {
        assert(dropouts@.take(dropouts@.len() as int) =~= dropouts@);
    }
    ms
}

/// What a committed record operation leaves: a punch selects the punched range (when it has an
/// end) with the playhead at its start; Insert/Overwrite/New select nothing and put the playhead
/// at the end of the new audio, `at + n`.
pub open spec fn op_selection(plan: RecordPlan) -> Option<(u64, u64)> {
    if plan.kind == RecordOpKind::Punch {
        match plan.end_samples {
            Some(e) => Some((plan.at_samples, e)),
            None => None,
        }
    } else {
        None
    }
}

/// The playhead after a committed record operation of `n` samples.
pub open spec fn op_playhead(plan: RecordPlan, n: u64) -> int {
    if plan.kind == RecordOpKind::Punch {
        plan.at_samples as int
    } else {
        plan.at_samples + n
    }
}

/// The edit result of a committed record operation of `n` samples, with the new revision and
/// length.
pub fn record_op_result(plan: RecordPlan, n: u64, audio_rev: u64, len_samples: u64) -> (r:
    EditResult)
    requires
        plan.at_samples + n <= u64::MAX,
    ensures
        r == (EditResult {
            changed: true,
            audio_rev,
            len_samples,
            selection: op_selection(plan),
            playhead_samples: op_playhead(plan, n) as u64,
        }),
{
    let (selection, playhead) = match plan.kind {
        RecordOpKind::Punch => (
            match plan.end_samples {
                Some(e) => Some((plan.at_samples, e)),
                None => None,
            },
            plan.at_samples,
        ),
        _ => (None, plan.at_samples + n),
    };
    EditResult { changed: true, audio_rev, len_samples, selection, playhead_samples: playhead }
}

/// A finished record operation's commit: how many samples enter the document and the markers
/// that come with them.
#[derive(Debug, Clone, PartialEq, Eq)]
pub struct TakeOpCommit {
    pub window_len: u64,
    pub markers: Vec<NewMarker>,
}

/// Plans the commit of a finished record operation whose take is `take_len` samples long:
/// `None` when it was cancelled (no window; the take is closed without an edit), otherwise the
/// window's length in the document and its dropout markers.
pub fn plan_take_op_commit(
    plan: RecordPlan,
    window: Option<(u64, u64)>,
    take_len: u64,
    dropouts: &[DropoutMark],
    rate_hz: u32,
) -> (r: Option<TakeOpCommit>)
    requires
        window matches Some((ws, we)) ==> plan.at_samples + window_len_spec(plan, ws, we, take_len)
            <= u64::MAX,
    ensures
        window is None ==> r is None,
        window matches Some((ws, we)) ==> r matches Some(c) && {
            let n = window_len_spec(plan, ws, we, take_len);
            let inside = dropouts_in_window(dropouts@, ws, n as u64);
            &&& c.window_len == n
            &&& c.markers@.len() == inside.len()
            &&& forall|i: int|
                0 <= i < inside.len() ==> is_dropout_marker(
                    #[trigger] c.markers@[i],
                    inside[i],
                    plan.at_samples + (inside[i].pos_samples - ws),
                    rate_hz,
                )
        },
{
    match window {
        None => None,
        Some((ws, we)) => {
            let n = window_len(plan, ws, we, take_len);
            proof {
                assert(ws as int + n as int <= u64::MAX) by {
                    assert(n <= sat_sub(min_int(we as int, take_len as int), min_int(ws as int, take_len as int)));
                }
            }
            let markers = window_dropout_markers(dropouts, ws, n, plan.at_samples, rate_hz);
            Some(TakeOpCommit { window_len: n, markers })
        },
    }
}

} // verus!
