//! Crash recovery's listing and naming rules: recoverable sessions are offered newest first
//! (sessions with the same time keep their order), and a recovery command only ever names a
//! plain entry of the sessions directory.

use vstd::prelude::*;

use crate::document::{is_plain_session_id, plain_session_id, RecoveredTakeAction};
use crate::error::{is_plain_error, IpcError, IpcErrorCode};
use crate::order::lists_each_index_once;
use crate::save::{BitDepth, SaveContainer};

verus! {

/// A recovery command named something that isn't a recoverable session.
pub fn recovery_not_found() -> (e: IpcError)
    ensures
        is_plain_error(e, IpcErrorCode::NotFound, "error.recovery.not_found"@),
{
    IpcError::new(IpcErrorCode::NotFound, "error.recovery.not_found")
}

/// A recovery command's session id: refused unless it names a plain entry of the sessions
/// directory (see [`plain_session_id`]) that is a directory.
pub fn check_recovery_id(id: &str, deleting_suffix: &str, is_dir: bool) -> (r: Result<(), IpcError>)
    ensures
        r.is_ok() == (plain_session_id(id@, deleting_suffix@) && is_dir),
        r.is_err() ==> is_plain_error(r->Err_0, IpcErrorCode::NotFound, "error.recovery.not_found"@),
{
    if is_plain_session_id(id, deleting_suffix) && is_dir {
        Ok(())
    } else {
        Err(recovery_not_found())
    }
}

/// What becomes of the recovered session itself.
#[derive(Debug, Clone, Copy, PartialEq, Eq, Structural)]
pub enum RecoveredSessionFate {
    /// It is the document that opens.
    Opened,
    /// It is deleted: its take moved to a new document and nothing in it was unsaved.
    Deleted,
    /// It is left (unlocked) for the next recovery dialog: its take moved to a new document
    /// but it holds unsaved edits.
    LeftForRecovery,
}

/// How a recovered document is bound: its file, its save format, whether its journaled rack
/// and view state applies, and what becomes of the recovered session.
#[derive(Debug, Clone, PartialEq, Eq)]
pub struct RecoveredBinding {
    pub path: Option<String>,
    pub container: SaveContainer,
    pub bits: BitDepth,
    pub keeps_state: bool,
    pub session: RecoveredSessionFate,
}

/// The binding of a recovered document. `bound_path` and `format`: the recovered session's
/// file and save format; `open_take`: a take was open at the crash; `split_off`: asked for a
/// new document, the take was actually moved into a new session; `dirty`: the recovered
/// session holds unsaved edits. A take moved into a new document makes that document
/// untitled, WAV 24-bit, without the old rack and view state; otherwise the recovered session
/// opens with its own file, format and state.
pub fn recovered_binding(
    bound_path: Option<String>,
    format: (SaveContainer, BitDepth),
    open_take: bool,
    action: RecoveredTakeAction,
    split_off: bool,
    dirty: bool,
) -> (b: RecoveredBinding)
    ensures
        open_take && action == RecoveredTakeAction::NewDocument && split_off ==> {
            &&& b.path.is_none()
            &&& b.container == SaveContainer::Wav
            &&& b.bits == BitDepth::Bit24
            &&& !b.keeps_state
            &&& b.session == if dirty {
                RecoveredSessionFate::LeftForRecovery
            } else {
                RecoveredSessionFate::Deleted
            }
        },
        !(open_take && action == RecoveredTakeAction::NewDocument && split_off) ==> {
            &&& b.path == bound_path
            &&& (b.container, b.bits) == format
            &&& b.keeps_state
            &&& b.session == RecoveredSessionFate::Opened
        },
{
    let new_document = open_take && split_off && match action {
        RecoveredTakeAction::NewDocument => true,
        _ => false,
    };
    if new_document {
        RecoveredBinding {
            path: None,
            container: SaveContainer::Wav,
            bits: BitDepth::Bit24,
            keeps_state: false,
            session: if dirty {
                RecoveredSessionFate::LeftForRecovery
            } else {
                RecoveredSessionFate::Deleted
            },
        }
    } else {
        RecoveredBinding {
            path: bound_path,
            container: format.0,
            bits: format.1,
            keeps_state: true,
            session: RecoveredSessionFate::Opened,
        }
    }
}

/// `order` lists `times` newest first, equal times in their given order.
pub open spec fn newest_first_sorted(times: Seq<u64>, order: Seq<usize>) -> bool {
    forall|i: int, j: int|
        #![trigger order[i], order[j]]
        0 <= i < j < order.len() ==> {
            let a = times[order[i] as int];
            let b = times[order[j] as int];
            a > b || (a == b && order[i] < order[j])
        }
}

/// The order in which sessions last modified at `times` are listed: newest first, sessions
/// with equal times in their given order.
pub fn newest_first(times: &[u64]) -> (order: Vec<usize>)
    ensures
        lists_each_index_once(order@, times@.len()),
        newest_first_sorted(times@, order@),
{
    let mut order: Vec<usize> = Vec::new();
    let n = times.len();
    let mut k: usize = 0;
    while k < n
        invariant
            n == times@.len(),
            k <= n,
            lists_each_index_once(order@, k as nat),
            newest_first_sorted(times@, order@),
        decreases n - k,
    {
        let t = times[k];
        let mut p: usize = 0;
        while p < order.len() && times[order[p]] >= t
            invariant
                n == times@.len(),
                k < n,
                t == times@[k as int],
                lists_each_index_once(order@, k as nat),
                newest_first_sorted(times@, order@),
                p <= order@.len(),
                forall|i: int| 0 <= i < p ==> times@[#[trigger] order@[i] as int] >= t,
            decreases order@.len() - p,
        {
            p += 1;
        }
        proof {
            assert forall|i: int| p <= i < order@.len() implies times@[#[trigger] order@[i] as int] < t by {
                assert(times@[order@[p as int] as int] < t);
                if i > p {
                    assert(times@[order@[p as int] as int] >= times@[order@[i] as int]);
                }
            }
        }
        let ghost old_order = order@;
        order.insert(p, k);
        proof {
            let s = order@;
            assert(s.len() == old_order.len() + 1);
            assert forall|i: int| 0 <= i < s.len() implies #[trigger] s[i] == (if i < p {
                old_order[i]
            } else if i == p {
                k
            } else {
                old_order[i - 1]
            }) by {}
            assert forall|i: int| 0 <= i < s.len() implies #[trigger] s[i] < k + 1 by {
                if i < p {
                    assert(s[i] == old_order[i]);
                } else if i > p {
                    assert(s[i] == old_order[i - 1]);
                }
            }
            assert forall|i: int, j: int| 0 <= i < j < s.len() implies s[i] != s[j] by {
                if i < p && j < p {
                    assert(s[i] == old_order[i] && s[j] == old_order[j]);
                } else if i < p && j == p {
                    assert(s[i] == old_order[i]);
                } else if i < p && j > p {
                    assert(s[i] == old_order[i] && s[j] == old_order[j - 1]);
                } else if i == p {
                    assert(s[j] == old_order[j - 1]);
                } else {
                    assert(s[i] == old_order[i - 1] && s[j] == old_order[j - 1]);
                }
            }
            assert forall|i: int, j: int| #![trigger s[i], s[j]] 0 <= i < j < s.len() implies {
                let a = times@[s[i] as int];
                let b = times@[s[j] as int];
                a > b || (a == b && s[i] < s[j])
            } by {
                if i < p && j < p {
                    assert(s[i] == old_order[i] && s[j] == old_order[j]);
                } else if i < p && j == p {
                    assert(s[i] == old_order[i]);
                    assert(times@[old_order[i] as int] >= t);
                    assert(old_order[i] < k);
                } else if i < p && j > p {
                    assert(s[i] == old_order[i] && s[j] == old_order[j - 1]);
                } else if i == p {
                    assert(s[j] == old_order[j - 1]);
                    assert(times@[old_order[j - 1] as int] < t);
                } else {
                    assert(s[i] == old_order[i - 1] && s[j] == old_order[j - 1]);
                }
            }
        }
        k += 1;
    }
    order
}

} // verus!
