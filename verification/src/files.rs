//! File facts as the changed-on-disk check records them: a modification time in milliseconds
//! since the Unix epoch, and whether a bound file changed since it was opened or last saved.

use vstd::prelude::*;

verus! {

#[verifier::external_type_specification]
#[verifier::external_body]
pub struct ExSystemTime(std::time::SystemTime);

/// `SystemTime::duration_since(UNIX_EPOCH)`: the time elapsed since the Unix epoch, `None` for
/// a time before it. Nothing is claimed of the value: a `SystemTime` is opaque here.
#[verifier::external_body]
fn since_epoch(t: std::time::SystemTime) -> Option<std::time::Duration> {
    t.duration_since(std::time::UNIX_EPOCH).ok()
}

/// `Duration::as_millis`: the whole milliseconds of `d`. Nothing is claimed of the value: a
/// `Duration` is opaque here.
#[verifier::external_body]
fn whole_millis(d: std::time::Duration) -> u128 {
    d.as_millis()
}

/// Milliseconds since the epoch as the file facts store them: the low 64 bits, 0 for a time
/// before the epoch.
pub fn stored_millis(ms: Option<u128>) -> (r: u64)
    ensures
        r == match ms {
            Some(m) => (m % 0x1_0000_0000_0000_0000) as u64,
            None => 0,
        },
{
    match ms {
        Some(m) => {
            let low: u128 = m % 0x1_0000_0000_0000_0000;
            low as u64
        },
        None => 0,
    }
}

/// `t`'s milliseconds since the Unix epoch (0 before the epoch).
pub fn unix_ms_of(t: std::time::SystemTime) -> (r: u64) {
    let ms = match since_epoch(t) {
        Some(d) => Some(whole_millis(d)),
        None => None,
    };
    stored_millis(ms)
}

/// Whether the bound file changed since it was opened or last saved: its size or modification
/// time differ from the recorded ones. A file that no longer exists (`current` is `None`) is
/// not "changed": the save recreates it.
pub fn file_changed_on_disk(current: Option<(u64, u64)>, recorded_size: u64, recorded_mtime_ms: u64) -> (r:
    bool)
    ensures
        r == match current {
            Some((size, mtime)) => size != recorded_size || mtime != recorded_mtime_ms,
            None => false,
        },
{
    match current {
        Some((size, mtime)) => size != recorded_size || mtime != recorded_mtime_ms,
        None => false,
    }
}

} // verus!
