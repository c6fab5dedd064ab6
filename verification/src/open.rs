//! Opening a file as the document: the refusals before any work, whose markers the document
//! keeps when the file and its sidecar disagree, the notices an open posts (in order), the
//! notice level each of them is shown at, and the terminal events of the import job.

use vstd::prelude::*;

use crate::error::{is_error_with, is_plain_error, IpcError, IpcErrorCode};
use crate::events::{is_toast, JobKind, JobState, Notice, NoticeLevel};
use crate::jobs::{is_progress, JobEvent, JobProgress};
use crate::save::{already_open_error, notice_pairs, SidecarNoticeInfo};
use crate::text::{contains_text, decimal, decimal_string, str_contains};

verus! {

/// The refusals of an open, before anything is read: none while recording; and, unless the
/// user already confirmed, none of a file another instance holds open (the UI offers "Open
/// Anyway").
pub fn check_open(recording: bool, confirm_already_open: bool, already_open: bool, file_name: &str) -> (r:
    Result<(), IpcError>)
    ensures
        recording ==> r.is_err() && is_plain_error(
            r->Err_0,
            IpcErrorCode::NotWhileRecording,
            "error.not_while_recording"@,
        ),
        !recording && !confirm_already_open && already_open ==> r.is_err() && is_error_with(
            r->Err_0,
            IpcErrorCode::NeedsConfirmation,
            "dialog.already_open"@,
            "name"@,
            file_name@,
        ),
        !recording && (confirm_already_open || !already_open) ==> r.is_ok(),
{
    if recording {
        return Err(IpcError::not_while_recording());
    }
    if !confirm_already_open && already_open {
        return Err(already_open_error(file_name));
    }
    Ok(())
}

/// Whether another program changed the markers since the last save: a valid, matching
/// sidecar exists, the source is a WAV whose cue chunk is readable, and its cue set differs
/// from the sidecar's. The file's own markers win then; otherwise the sidecar's do.
pub fn markers_changed_externally(
    has_sidecar: bool,
    container: &str,
    cue_chunk_malformed: bool,
    cues_match_sidecar: bool,
) -> (r: bool)
    ensures
        r == (has_sidecar && container@ == "wave"@ && !cue_chunk_malformed && !cues_match_sidecar),
{
    has_sidecar && crate::text::str_eq(container, "wave") && !cue_chunk_malformed && !cues_match_sidecar
}

/// The notice a sidecar read posts: its key with the sidecar's file name as `file`, and, when
/// it had to drop unreadable items, their `count`.
pub fn sidecar_notice_info(key: &'static str, items_dropped: Option<u64>, sidecar_file: &str) -> (n:
    SidecarNoticeInfo)
    ensures
        n.key@ == key@,
        notice_pairs(n) == match items_dropped {
            Some(c) => seq![("file"@, sidecar_file@), ("count"@, decimal(c as nat))],
            None => seq![("file"@, sidecar_file@)],
        },
{
    let mut params: Vec<(&'static str, String)> = Vec::new();
    params.push(("file", sidecar_file.to_owned()));
    if let Some(c) = items_dropped {
        params.push(("count", decimal_string(c)));
    }
    proof {
        match items_dropped {
            Some(c) => {
                assert(params@.map_values(|p: (&'static str, String)| (p.0@, p.1@)) =~= seq![
                    ("file"@, sidecar_file@),
                    ("count"@, decimal(c as nat)),
                ]);
            },
            None => {
                assert(params@.map_values(|p: (&'static str, String)| (p.0@, p.1@)) =~= seq![
                    ("file"@, sidecar_file@),
                ]);
            },
        }
    }
    SidecarNoticeInfo { key, params }
}

/// What an open found that the user should hear about.
#[derive(Debug, Clone, PartialEq, Eq)]
pub struct OpenFindings {
    /// The sidecar read's own notice, if it posted one.
    pub sidecar_notice: Option<SidecarNoticeInfo>,
    /// The file's markers replaced the sidecar's (see [`markers_changed_externally`]).
    pub markers_changed_externally: bool,
    /// The source's format maps to a different save format: the two descriptions.
    pub format_mapped: Option<(&'static str, &'static str)>,
    /// The source's cue chunk could not be read.
    pub cue_chunk_malformed: bool,
    /// Cue points that fell outside the document and were dropped.
    pub cues_out_of_range: u64,
}

/// `n` has key `key` and exactly the placeholder pairs `pairs`.
pub open spec fn notice_is(n: SidecarNoticeInfo, key: Seq<char>, pairs: Seq<(Seq<char>, Seq<char>)>) -> bool {
    n.key@ == key && notice_pairs(n) == pairs
}

/// The notices of an open, in the order they are posted.
pub open spec fn open_notices_spec(f: OpenFindings, file_name: Seq<char>) -> Seq<(Seq<char>, Seq<(Seq<char>, Seq<char>)>)> {
    let a: Seq<(Seq<char>, Seq<(Seq<char>, Seq<char>)>)> = match f.sidecar_notice {
        Some(n) => seq![(n.key@, notice_pairs(n))],
        None => seq![],
    };
    let b = if f.markers_changed_externally {
        a.push(("notice.open.markers_changed_externally"@, seq![("name"@, file_name)]))
    } else {
        a
    };
    let c = match f.format_mapped {
        Some((from, to)) => b.push(("notice.open.format_mapped"@, seq![("from"@, from@), ("to"@, to@)])),
        None => b,
    };
    let d = if f.cue_chunk_malformed {
        c.push(("notice.open.markers_unreadable"@, seq![]))
    } else {
        c
    };
    if f.cues_out_of_range > 0 {
        d.push(("notice.open.markers_out_of_range"@, seq![("count"@, decimal(f.cues_out_of_range as nat))]))
    } else {
        d
    }
}

fn notice_with(key: &'static str, params: Vec<(&'static str, String)>) -> (n: SidecarNoticeInfo)
    ensures
        n.key@ == key@,
        n.params@ == params@,
{
    SidecarNoticeInfo { key, params }
}

/// The notices an open posts, in order: the sidecar's own, "markers changed in another
/// program", "format mapped", "markers unreadable", then "N markers out of range".
pub fn open_notices(f: OpenFindings, file_name: &str) -> (v: Vec<SidecarNoticeInfo>)
    ensures
        v@.len() == open_notices_spec(f, file_name@).len(),
        forall|i: int|
            0 <= i < v@.len() ==> (#[trigger] v@[i]).key@ == open_notices_spec(f, file_name@)[i].0
                && notice_pairs(v@[i]) == open_notices_spec(f, file_name@)[i].1,
{
    let ghost want = open_notices_spec(f, file_name@);
    let mut v: Vec<SidecarNoticeInfo> = Vec::new();
    let ghost mut got: Seq<(Seq<char>, Seq<(Seq<char>, Seq<char>)>)> = seq![];
    match f.sidecar_notice {
        Some(n) => {
            proof {
                got = got.push((n.key@, notice_pairs(n)));
            }
            v.push(n);
        },
        None => {},
    }
    if f.markers_changed_externally {
        let mut params: Vec<(&'static str, String)> = Vec::new();
        params.push(("name", file_name.to_owned()));
        let n = notice_with("notice.open.markers_changed_externally", params);
        proof {
            assert(notice_pairs(n) =~= seq![("name"@, file_name@)]);
            got = got.push((n.key@, notice_pairs(n)));
        }
        v.push(n);
    }
    match f.format_mapped {
        Some((from, to)) => {
            let mut params: Vec<(&'static str, String)> = Vec::new();
            params.push(("from", from.to_owned()));
            params.push(("to", to.to_owned()));
            let n = notice_with("notice.open.format_mapped", params);
            proof {
                assert(notice_pairs(n) =~= seq![("from"@, from@), ("to"@, to@)]);
                got = got.push((n.key@, notice_pairs(n)));
            }
            v.push(n);
        },
        None => {},
    }
    if f.cue_chunk_malformed {
        let params: Vec<(&'static str, String)> = Vec::new();
        let n = notice_with("notice.open.markers_unreadable", params);
        proof {
            assert(notice_pairs(n) =~= seq![]);
            got = got.push((n.key@, notice_pairs(n)));
        }
        v.push(n);
    }
    if f.cues_out_of_range > 0 {
        let mut params: Vec<(&'static str, String)> = Vec::new();
        params.push(("count", decimal_string(f.cues_out_of_range)));
        let n = notice_with("notice.open.markers_out_of_range", params);
        proof {
            assert(notice_pairs(n) =~= seq![("count"@, decimal(f.cues_out_of_range as nat))]);
            got = got.push((n.key@, notice_pairs(n)));
        }
        v.push(n);
    }
    proof {
        assert(got =~= want);
        assert(v@.len() == got.len());
        assert forall|i: int| 0 <= i < v@.len() implies (#[trigger] v@[i]).key@ == want[i].0
            && notice_pairs(v@[i]) == want[i].1 by {}
    }
    v
}

/// The level a save/open notice is shown at: a failed sidecar write is an error, everything
/// else a warning.
pub open spec fn sidecar_notice_level(key: Seq<char>) -> NoticeLevel {
    if contains_text(key, "sidecar_failed"@) {
        NoticeLevel::Error
    } else {
        NoticeLevel::Warning
    }
}

/// `m` with each `(name, value)` of `s` set in turn (a later value of a name replaces an
/// earlier one).
pub open spec fn insert_pairs(m: Map<Seq<char>, Seq<char>>, s: Seq<(Seq<char>, Seq<char>)>) -> Map<
    Seq<char>,
    Seq<char>,
>
    decreases s.len(),
{
    if s.len() == 0 {
        m
    } else {
        insert_pairs(m, s.drop_last()).insert(s.last().0, s.last().1)
    }
}

/// A save/open notice as a toast: its key at [`sidecar_notice_level`], with its placeholder
/// values.
pub fn sidecar_toast(info: &SidecarNoticeInfo) -> (n: Notice)
    ensures
        is_toast(n, sidecar_notice_level(info.key@), info.key@),
        n.params@ == insert_pairs(Map::<Seq<char>, Seq<char>>::empty(), notice_pairs(*info)),
{
    proof {
        reveal_strlit("sidecar_failed");
    }
    let level = if str_contains(info.key, "sidecar_failed") {
        NoticeLevel::Error
    } else {
        NoticeLevel::Warning
    };
    let mut n = Notice::toast(level, info.key);
    let ghost pairs = notice_pairs(*info);
    let mut i: usize = 0;
    while i < info.params.len()
        invariant
            pairs == notice_pairs(*info),
            pairs.len() == info.params@.len(),
            i <= info.params@.len(),
            is_toast(n, level, info.key@),
            level == sidecar_notice_level(info.key@),
            n.params@ == insert_pairs(Map::<Seq<char>, Seq<char>>::empty(), pairs.take(i as int)),
        decreases info.params.len() - i,
    {
        let (name, value) = &info.params[i];
        proof {
            assert(pairs.take(i as int + 1).drop_last() =~= pairs.take(i as int));
            assert(pairs[i as int] == (name@, value@));
        }
        n = n.with_param(name, value.as_str());
        i += 1;
    }
    proof {
        assert(pairs.take(pairs.len() as int) =~= pairs);
    }
    n
}

/// The terminal progress event of an import job that ended with `result`: `Done` at 100 %,
/// otherwise `Cancelled` or `Failed` at 0 (an import posts no notice of its own; the command
/// returns the error).
pub fn import_finished(job_id: u32, result: &Result<(), IpcError>) -> (e: JobEvent)
    ensures
        match *result {
            Ok(()) => is_progress(e, job_id, JobKind::Import, JobState::Done, 1000),
            Err(err) => if err.code == IpcErrorCode::Cancelled {
                is_progress(e, job_id, JobKind::Import, JobState::Cancelled, 0)
            } else {
                is_progress(e, job_id, JobKind::Import, JobState::Failed, 0)
            },
        },
{
    let (state, permille) = match result {
        Ok(()) => (JobState::Done, 1000u32),
        Err(err) => if err.code == IpcErrorCode::Cancelled {
            (JobState::Cancelled, 0u32)
        } else {
            (JobState::Failed, 0u32)
        },
    };
    JobEvent::Progress(JobProgress { job_id, kind: JobKind::Import, state, fraction_permille: permille })
}

} // verus!
