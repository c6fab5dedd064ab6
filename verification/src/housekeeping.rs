//! Session housekeeping: when the periodic disk check runs, what one pass of it does with each
//! disk decision, the notices a pass posts ("the N oldest undo steps were removed (freed X)"
//! and the disk-almost-full banner, shown once per episode), and whether the rack/view state
//! changed since it was last journaled.

use vstd::prelude::*;

use crate::events::{is_banner, is_toast, Notice, NoticeLevel};
use crate::format::{format_bytes, format_bytes_spec};
use crate::text::{decimal, decimal_string};

verus! {

/// How long the loop sleeps between state journals, in milliseconds.
pub const STATE_DEBOUNCE_MS: u64 = 2000;

/// How often the disk check runs when nothing asks for it, in milliseconds.
pub const DISK_CHECK_INTERVAL_MS: u64 = 10000;

/// Whether the disk check runs on this wake-up: right after a committed edit asked for it, or
/// once the interval has passed since the last one.
pub fn disk_check_due(kicked: bool, since_last_check_ms: u64) -> (r: bool)
    ensures
        r == (kicked || since_last_check_ms >= DISK_CHECK_INTERVAL_MS),
{
    kicked || since_last_check_ms >= DISK_CHECK_INTERVAL_MS
}

/// What one disk check did.
#[derive(Debug, Clone, Copy, PartialEq, Eq, Structural)]
pub struct HousekeepingReport {
    /// Undo steps dropped to free space.
    pub dropped_undo: u64,
    /// Bytes compaction freed.
    pub freed_bytes: u64,
    /// Free space stayed low after everything that could be done.
    pub almost_full: bool,
    /// The session was compacted.
    pub compacted: bool,
    /// Nothing ran: a recording is in progress.
    pub skipped_recording: bool,
}

/// An empty report: nothing done yet.
pub fn empty_report() -> (r: HousekeepingReport)
    ensures
        r == (HousekeepingReport {
            dropped_undo: 0,
            freed_bytes: 0,
            almost_full: false,
            compacted: false,
            skipped_recording: false,
        }),
{
    HousekeepingReport {
        dropped_undo: 0,
        freed_bytes: 0,
        almost_full: false,
        compacted: false,
        skipped_recording: false,
    }
}

/// The free space a pass's decision goes by: what the filesystem reports (unlimited when it
/// can't tell) plus what this pass already freed, saturating.
pub fn effective_free_bytes(reported: Option<u64>, freed_so_far: u64) -> (r: u64)
    ensures
        r == (match reported {
            Some(f) => if f + freed_so_far <= u64::MAX { (f + freed_so_far) as u64 } else { u64::MAX },
            None => u64::MAX,
        }),
{
    match reported {
        Some(f) => f.saturating_add(freed_so_far),
        None => u64::MAX,
    }
}

/// What the disk budget asks for.
#[derive(Debug, Clone, Copy, PartialEq, Eq, Structural)]
pub enum DiskAction {
    /// Everything is within limits.
    Nothing,
    /// Free space is low and nothing more can be reclaimed.
    AlmostFull,
    /// Drop this many of the oldest undo steps, then compact.
    DropOldest(u64),
    /// Compact the session.
    Compact,
}

/// The next step of a disk-check pass.
#[derive(Debug, Clone, Copy, PartialEq, Eq, Structural)]
pub enum HousekeepingStep {
    /// The pass is over.
    Stop,
    /// Drop this many of the oldest undo steps, then compact.
    DropOldest(u64),
    /// Compact the session.
    Compact,
}

/// One pass runs at most this many decide/compact rounds.
pub const MAX_ROUNDS: u32 = 3;

/// The step a decision leads to, and what it records: nothing to do ends the pass; low space
/// that can't be helped ends it marked almost full; otherwise drop undo steps and/or compact.
pub fn decide_step(report: &mut HousekeepingReport, action: DiskAction) -> (step: HousekeepingStep)
    ensures
        match action {
            DiskAction::Nothing => step == HousekeepingStep::Stop && *final(report) == *old(report),
            DiskAction::AlmostFull => step == HousekeepingStep::Stop && *final(report) == (HousekeepingReport {
                almost_full: true,
                ..*old(report)
            }),
            DiskAction::DropOldest(k) => step == HousekeepingStep::DropOldest(k) && *final(report)
                == *old(report),
            DiskAction::Compact => step == HousekeepingStep::Compact && *final(report) == *old(report),
        },
{
    match action {
        DiskAction::Nothing => HousekeepingStep::Stop,
        DiskAction::AlmostFull => {
            report.almost_full = true;
            HousekeepingStep::Stop
        },
        DiskAction::DropOldest(k) => HousekeepingStep::DropOldest(k),
        DiskAction::Compact => HousekeepingStep::Compact,
    }
}

/// Records `n` more dropped undo steps (saturating).
pub fn record_dropped(report: &mut HousekeepingReport, n: u64)
    ensures
        final(report).dropped_undo == (if old(report).dropped_undo + n <= u64::MAX {
            (old(report).dropped_undo + n) as u64
        } else {
            u64::MAX
        }),
        final(report).freed_bytes == old(report).freed_bytes,
        final(report).almost_full == old(report).almost_full,
        final(report).compacted == old(report).compacted,
        final(report).skipped_recording == old(report).skipped_recording,
{
    report.dropped_undo = report.dropped_undo.saturating_add(n);
}

/// Records a finished compaction that freed `freed` bytes (saturating).
pub fn record_compacted(report: &mut HousekeepingReport, freed: u64)
    ensures
        final(report).freed_bytes == (if old(report).freed_bytes + freed <= u64::MAX {
            (old(report).freed_bytes + freed) as u64
        } else {
            u64::MAX
        }),
        final(report).compacted,
        final(report).dropped_undo == old(report).dropped_undo,
        final(report).almost_full == old(report).almost_full,
        final(report).skipped_recording == old(report).skipped_recording,
{
    report.freed_bytes = report.freed_bytes.saturating_add(freed);
    report.compacted = true;
}

/// Whether a disk-check pass may run at all: not while a normalize job runs, and not during
/// playback (a store switch would stop it); the next check retries.
pub fn pass_may_run(normalize_busy: bool, playing: bool) -> (r: bool)
    ensures
        r == (!normalize_busy && !playing),
{
    !normalize_busy && !playing
}

/// What a round of the pass finds when it looks at the document.
#[derive(Debug, Clone, Copy, PartialEq, Eq, Structural)]
pub enum RoundFacts {
    /// No document is open (any more).
    NoDocument,
    /// A take is being recorded.
    Recording,
    /// The disk budget's decision for the open document.
    Decided(DiskAction),
}

/// How a round's compaction ended.
#[derive(Debug, Clone, Copy, PartialEq, Eq, Structural)]
pub enum CompactOutcome {
    /// The session was compacted, freeing this many bytes.
    Freed(u64),
    /// The document moved on (closed, reopened, recovered) while the chunks were copied.
    DocumentMoved,
    /// Compaction failed.
    Failed,
}

/// Whether a round with these findings does work (drops undo steps and/or compacts).
pub open spec fn starts_work(facts: RoundFacts) -> bool {
    facts matches RoundFacts::Decided(DiskAction::DropOldest(_)) || facts == RoundFacts::Decided(
        DiskAction::Compact,
    )
}

/// The rounds a pass has started after one more round with these findings.
pub open spec fn next_rounds(rounds: nat, facts: RoundFacts) -> nat {
    if rounds < MAX_ROUNDS && starts_work(facts) {
        rounds + 1
    } else {
        rounds
    }
}

/// The rounds a fresh pass has started after rounds with these findings, in order.
pub open spec fn rounds_after(facts: Seq<RoundFacts>) -> nat
    decreases facts.len(),
{
    if facts.len() == 0 {
        0
    } else {
        next_rounds(rounds_after(facts.drop_last()), facts.last())
    }
}

/// A disk-check pass does work in at most [`MAX_ROUNDS`] rounds, whatever the rounds find.
pub proof fn lemma_pass_rounds_bounded(facts: Seq<RoundFacts>)
    ensures
        rounds_after(facts) <= MAX_ROUNDS,
    decreases facts.len(),
{
    if facts.len() > 0 {
        lemma_pass_rounds_bounded(facts.drop_last());
    }
}

/// What the pass does next.
#[derive(Debug, Clone, Copy, PartialEq, Eq, Structural)]
pub enum PassStep {
    /// The pass is over with this report (`None`: nothing ran, the document is gone).
    Finished(Option<HousekeepingReport>),
    /// Drop this many of the oldest undo steps, then report back with [`HousekeepingPass::after_drop`].
    DropOldest(u64),
    /// Compact the session, then report back with [`HousekeepingPass::after_compact`].
    Compact,
    /// Start the next round.
    NextRound,
}

/// One disk-check pass: what it did so far and how many rounds it started. A pass runs at
/// most [`MAX_ROUNDS`] rounds of decide / drop undo steps / compact.
#[derive(Debug)]
pub struct HousekeepingPass {
    report: HousekeepingReport,
    rounds: u32,
}

impl HousekeepingPass {
    /// What the pass did so far.
    pub closed spec fn report_spec(&self) -> HousekeepingReport {
        self.report
    }

    /// The rounds the pass started.
    pub closed spec fn rounds_spec(&self) -> nat {
        self.rounds as nat
    }

    /// A pass that has done nothing yet.
    pub fn new() -> (p: HousekeepingPass)
        ensures
            p.report_spec() == (HousekeepingReport {
                dropped_undo: 0,
                freed_bytes: 0,
                almost_full: false,
                compacted: false,
                skipped_recording: false,
            }),
            p.rounds_spec() == 0,
    {
        HousekeepingPass { report: empty_report(), rounds: 0 }
    }

    /// What the pass did so far.
    pub fn report(&self) -> (r: HousekeepingReport)
        ensures
            r == self.report_spec(),
    {
        self.report
    }

    /// Starts a round with what the document shows. After [`MAX_ROUNDS`] rounds the pass is
    /// over; with no document it ends with nothing to report; while recording it ends marked
    /// skipped; otherwise the disk budget's decision ends it (nothing to do, or almost full) or
    /// starts a round that drops undo steps and/or compacts.
    pub fn start_round(&mut self, facts: RoundFacts) -> (step: PassStep)
        ensures
            final(self).rounds_spec() == next_rounds(old(self).rounds_spec(), facts),
            old(self).rounds_spec() >= MAX_ROUNDS ==> step == PassStep::Finished(
                Some(old(self).report_spec()),
            ) && final(self).report_spec() == old(self).report_spec() && final(self).rounds_spec()
                == old(self).rounds_spec(),
            old(self).rounds_spec() < MAX_ROUNDS ==> match facts {
                RoundFacts::NoDocument => step == PassStep::Finished(None)
                    && final(self).report_spec() == old(self).report_spec()
                    && final(self).rounds_spec() == old(self).rounds_spec(),
                RoundFacts::Recording => {
                    let r = HousekeepingReport { skipped_recording: true, ..old(self).report_spec() };
                    &&& step == PassStep::Finished(Some(r))
                    &&& final(self).report_spec() == r
                    &&& final(self).rounds_spec() == old(self).rounds_spec()
                },
                RoundFacts::Decided(DiskAction::Nothing) => step == PassStep::Finished(
                    Some(old(self).report_spec()),
                ) && final(self).report_spec() == old(self).report_spec() && final(self).rounds_spec()
                    == old(self).rounds_spec(),
                RoundFacts::Decided(DiskAction::AlmostFull) => {
                    let r = HousekeepingReport { almost_full: true, ..old(self).report_spec() };
                    &&& step == PassStep::Finished(Some(r))
                    &&& final(self).report_spec() == r
                    &&& final(self).rounds_spec() == old(self).rounds_spec()
                },
                RoundFacts::Decided(DiskAction::DropOldest(k)) => step == PassStep::DropOldest(k)
                    && final(self).report_spec() == old(self).report_spec() && final(self).rounds_spec()
                    == old(self).rounds_spec() + 1,
                RoundFacts::Decided(DiskAction::Compact) => step == PassStep::Compact
                    && final(self).report_spec() == old(self).report_spec() && final(self).rounds_spec()
                    == old(self).rounds_spec() + 1,
            },
    {
        if self.rounds >= MAX_ROUNDS {
            return PassStep::Finished(Some(self.report));
        }
        match facts {
            RoundFacts::NoDocument => PassStep::Finished(None),
            RoundFacts::Recording => {
                self.report.skipped_recording = true;
                PassStep::Finished(Some(self.report))
            },
            RoundFacts::Decided(action) => {
                let step = decide_step(&mut self.report, action);
                match step {
                    HousekeepingStep::Stop => PassStep::Finished(Some(self.report)),
                    HousekeepingStep::DropOldest(k) => {
                        self.rounds = self.rounds + 1;
                        PassStep::DropOldest(k)
                    },
                    HousekeepingStep::Compact => {
                        self.rounds = self.rounds + 1;
                        PassStep::Compact
                    },
                }
            },
        }
    }

    /// After the oldest undo steps were dropped (`Some(n)`: `n` of them; `None`: dropping
    /// failed): the round goes on to compact, or the pass ends with what it did.
    pub fn after_drop(&mut self, dropped: Option<u64>) -> (step: PassStep)
        ensures
            final(self).rounds_spec() == old(self).rounds_spec(),
            match dropped {
                Some(n) => {
                    &&& step == PassStep::Compact
                    &&& final(self).report_spec() == (HousekeepingReport {
                        dropped_undo: if old(self).report_spec().dropped_undo + n <= u64::MAX {
                            (old(self).report_spec().dropped_undo + n) as u64
                        } else {
                            u64::MAX
                        },
                        ..old(self).report_spec()
                    })
                },
                None => step == PassStep::Finished(Some(old(self).report_spec()))
                    && final(self).report_spec() == old(self).report_spec(),
            },
    {
        match dropped {
            Some(n) => {
                record_dropped(&mut self.report, n);
                PassStep::Compact
            },
            None => PassStep::Finished(Some(self.report)),
        }
    }

    /// After a round's compaction: freed space is recorded and the next round starts; if the
    /// document moved on or compaction failed, the pass ends with what it did.
    pub fn after_compact(&mut self, outcome: CompactOutcome) -> (step: PassStep)
        ensures
            final(self).rounds_spec() == old(self).rounds_spec(),
            match outcome {
                CompactOutcome::Freed(f) => {
                    &&& step == PassStep::NextRound
                    &&& final(self).report_spec() == (HousekeepingReport {
                        freed_bytes: if old(self).report_spec().freed_bytes + f <= u64::MAX {
                            (old(self).report_spec().freed_bytes + f) as u64
                        } else {
                            u64::MAX
                        },
                        compacted: true,
                        ..old(self).report_spec()
                    })
                },
                _ => step == PassStep::Finished(Some(old(self).report_spec()))
                    && final(self).report_spec() == old(self).report_spec(),
            },
    {
        match outcome {
            CompactOutcome::Freed(f) => {
                record_compacted(&mut self.report, f);
                PassStep::NextRound
            },
            _ => PassStep::Finished(Some(self.report)),
        }
    }
}

/// The banner id the disk-almost-full warning replaces itself under.
pub open spec fn disk_full_banner_id() -> Seq<char> {
    "disk_almost_full"@
}

/// The housekeeping loop's memory between passes: whether the disk-almost-full banner is up.
#[derive(Debug, Clone, Copy, PartialEq, Eq, Structural)]
pub struct Housekeeping {
    pub warned_full: bool,
}

/// What a finished pass tells the UI.
#[derive(Debug)]
pub struct PassNotices {
    /// "The N oldest undo steps were removed (freed X)"; the undo history and the document
    /// info are refreshed along with it.
    pub undo_dropped: Option<Notice>,
    /// The disk-almost-full banner.
    pub almost_full: Option<Notice>,
}

/// `n` is the undo-dropped toast for `report`.
pub open spec fn is_undo_dropped_notice(n: Notice, report: HousekeepingReport) -> bool {
    &&& is_toast(n, NoticeLevel::Warning, "notice.disk.undo_dropped"@)
    &&& n.params@ == Map::<Seq<char>, Seq<char>>::empty().insert(
        "count"@,
        decimal(report.dropped_undo as nat),
    ).insert("size"@, format_bytes_spec(report.freed_bytes as nat))
}

impl Housekeeping {
    /// No banner shown yet.
    pub fn new() -> (h: Housekeeping)
        ensures
            !h.warned_full,
    {
        Housekeeping { warned_full: false }
    }

    /// The notices of a finished pass (`None`: nothing ran), and the banner state after it: the
    /// undo-dropped toast whenever undo steps were dropped; the almost-full banner only when the
    /// disk is almost full and the banner is not already up — it stays up (no repeat) until a
    /// pass finds the disk fine again.
    pub fn after_pass(&mut self, report: Option<HousekeepingReport>) -> (p: PassNotices)
        ensures
            match report {
                None => {
                    &&& *final(self) == *old(self)
                    &&& p.undo_dropped is None
                    &&& p.almost_full is None
                },
                Some(r) => {
                    &&& final(self).warned_full == r.almost_full
                    &&& (r.dropped_undo > 0) == p.undo_dropped is Some
                    &&& (p.undo_dropped matches Some(n) ==> is_undo_dropped_notice(n, r))
                    &&& (r.almost_full && !old(self).warned_full) == p.almost_full is Some
                    &&& (p.almost_full matches Some(n) ==> is_banner(
                        n,
                        NoticeLevel::Warning,
                        disk_full_banner_id(),
                        "notice.disk.almost_full"@,
                    ) && n.params@ == Map::<Seq<char>, Seq<char>>::empty())
                },
            },
    {
        match report {
            None => PassNotices { undo_dropped: None, almost_full: None },
            Some(r) => {
                let undo_dropped = if r.dropped_undo > 0 {
                    let count = decimal_string(r.dropped_undo);
                    let size = format_bytes(r.freed_bytes);
                    Some(
                        Notice::toast(NoticeLevel::Warning, "notice.disk.undo_dropped").with_param(
                            "count",
                            count.as_str(),
                        ).with_param("size", size.as_str()),
                    )
                } else {
                    None
                };
                let almost_full = if r.almost_full && !self.warned_full {
                    Some(
                        Notice::banner(
                            NoticeLevel::Warning,
                            "disk_almost_full",
                            "notice.disk.almost_full",
                        ),
                    )
                } else {
                    None
                };
                self.warned_full = r.almost_full;
                PassNotices { undo_dropped, almost_full }
            },
        }
    }
}

/// The disk-almost-full banner is posted once per episode: after a pass that posted (or
/// already had) it, a further almost-full pass posts nothing; after a pass that found the disk
/// fine, the next almost-full pass posts it again.
pub proof fn lemma_almost_full_banner_once_per_episode(
    h0: Housekeeping,
    h1: Housekeeping,
    h2: Housekeeping,
    r1: HousekeepingReport,
    r2: HousekeepingReport,
    p1: PassNotices,
    p2: PassNotices,
)
    requires
        h1.warned_full == r1.almost_full,
        (r1.almost_full && !h0.warned_full) == p1.almost_full is Some,
        h2.warned_full == r2.almost_full,
        (r2.almost_full && !h1.warned_full) == p2.almost_full is Some,
    ensures
        r1.almost_full && r2.almost_full ==> p2.almost_full is None,
        !r1.almost_full && r2.almost_full ==> p2.almost_full is Some,
{
}

/// One bit step of the reflected CRC-32 (IEEE) register: shift right, folding in the
/// polynomial 0xEDB88320 when the bit shifted out is set.
pub open spec fn crc32_step(c: u32) -> u32 {
    if c & 1 == 1 {
        (c >> 1) ^ 0xEDB8_8320
    } else {
        c >> 1
    }
}

/// `n` bit steps of the register.
pub open spec fn crc32_steps(c: u32, n: nat) -> u32
    decreases n,
{
    if n == 0 {
        c
    } else {
        crc32_steps(crc32_step(c), (n - 1) as nat)
    }
}

/// The CRC-32 register after `bytes`: it starts at all ones, and each byte is xored into its
/// low eight bits, which are then stepped out.
pub open spec fn crc32_register(bytes: Seq<u8>) -> u32
    decreases bytes.len(),
{
    if bytes.len() == 0 {
        0xFFFF_FFFF
    } else {
        crc32_steps(crc32_register(bytes.drop_last()) ^ (bytes.last() as u32), 8)
    }
}

/// The CRC-32 (IEEE) of `bytes`: the final register, inverted.
pub open spec fn crc32_of(bytes: Seq<u8>) -> u32 {
    crc32_register(bytes) ^ 0xFFFF_FFFF
}

/// One bit step of the register loses nothing: different registers stay different.
proof fn lemma_crc32_step_injective(a: u32, b: u32)
    requires
        a != b,
    ensures
        crc32_step(a) != crc32_step(b),
{
    assert(a != b ==> (if a & 1 == 1 { (a >> 1) ^ 0xEDB8_8320u32 } else { a >> 1 }) != (if b & 1 == 1 {
        (b >> 1) ^ 0xEDB8_8320u32
    } else {
        b >> 1
    })) by (bit_vector);
}

/// Any number of bit steps loses nothing either.
proof fn lemma_crc32_steps_injective(a: u32, b: u32, n: nat)
    requires
        a != b,
    ensures
        crc32_steps(a, n) != crc32_steps(b, n),
    decreases n,
{
    if n > 0 {
        lemma_crc32_step_injective(a, b);
        lemma_crc32_steps_injective(crc32_step(a), crc32_step(b), (n - 1) as nat);
    }
}

/// Two byte sequences of one length that differ in exactly one byte leave different registers.
proof fn lemma_crc32_register_one_byte(s1: Seq<u8>, s2: Seq<u8>, i: int)
    requires
        s1.len() == s2.len(),
        0 <= i < s1.len(),
        s1[i] != s2[i],
        forall|j: int| 0 <= j < s1.len() && j != i ==> s1[j] == s2[j],
    ensures
        crc32_register(s1) != crc32_register(s2),
    decreases s1.len(),
{
    let n = s1.len() - 1;
    let x1 = s1.last() as u32;
    let x2 = s2.last() as u32;
    if i == n {
        assert(s1.drop_last() =~= s2.drop_last());
        let r = crc32_register(s1.drop_last());
        assert(x1 != x2);
        assert(x1 != x2 ==> r ^ x1 != r ^ x2) by (bit_vector);
        lemma_crc32_steps_injective(r ^ x1, r ^ x2, 8);
    } else {
        lemma_crc32_register_one_byte(s1.drop_last(), s2.drop_last(), i);
        let r1 = crc32_register(s1.drop_last());
        let r2 = crc32_register(s2.drop_last());
        assert(x1 == x2);
        assert(r1 != r2 ==> r1 ^ x1 != r2 ^ x1) by (bit_vector);
        lemma_crc32_steps_injective(r1 ^ x1, r2 ^ x2, 8);
    }
}

/// A serialized state changed in any one byte, wherever that byte lies, gets a different
/// digest; so when the state journaled last serialized to `before`, the changed state is
/// journaled again.
pub proof fn lemma_one_byte_change_is_journaled(before: Seq<u8>, after: Seq<u8>, i: int)
    requires
        before.len() == after.len(),
        0 <= i < before.len(),
        before[i] != after[i],
        forall|j: int| 0 <= j < before.len() && j != i ==> before[j] == after[j],
    ensures
        state_digest_of(Some(before)) != state_digest_of(Some(after)),
        Some(state_digest_of(Some(before))) != Some(state_digest_of(Some(after))),
{
    lemma_crc32_register_one_byte(before, after, i);
    let r1 = crc32_register(before);
    let r2 = crc32_register(after);
    assert(r1 != r2 ==> r1 ^ 0xFFFF_FFFFu32 != r2 ^ 0xFFFF_FFFFu32) by (bit_vector);
}

/// `crc32fast::hash`: the CRC-32 (IEEE) of `bytes`, whichever of its kernels the processor
/// runs.
#[verifier::external_body]
fn crc32_hash(bytes: &[u8]) -> (h: u32)
    ensures
        h == crc32_of(bytes@),
{
    crc32fast::hash(bytes)
}

#[verifier::external_type_specification]
#[verifier::external_body]
pub struct ExJsonValue(serde_json::Value);

/// `serde_json::to_vec` of a JSON value: its compact serialization, or `None` when serde_json
/// reports an error. Nothing is claimed of the bytes: a `serde_json::Value` is opaque here.
#[verifier::external_body]
fn json_bytes(value: &serde_json::Value) -> Option<Vec<u8>> {
    serde_json::to_vec(value).ok()
}

/// The digest the rack/view state is journaled under: the CRC-32 of its serialization, 0 when
/// it cannot be serialized.
pub open spec fn state_digest_of(bytes: Option<Seq<u8>>) -> u32 {
    match bytes {
        Some(b) => crc32_of(b),
        None => 0,
    }
}

/// The digest of a serialized state (`None`: serialization failed).
pub fn digest_of_serialized(bytes: Option<&[u8]>) -> (d: u32)
    ensures
        d == state_digest_of(
            match bytes {
                Some(b) => Some(b@),
                None => None,
            },
        ),
{
    match bytes {
        Some(b) => crc32_hash(b),
        None => 0,
    }
}

/// The digest of the rack/view `state`: the CRC-32 of its serialization (0 when serde_json
/// refuses it). A `serde_json::Value` is opaque here, so nothing is stated of the result;
/// [`digest_of_serialized`] states the digest of given bytes exactly.
pub fn state_digest(state: &serde_json::Value) -> (d: u32) {
    match json_bytes(state) {
        Some(b) => digest_of_serialized(Some(b.as_slice())),
        None => digest_of_serialized(None),
    }
}

/// Whether the state must be journaled: its digest differs from the last journaled one (or
/// nothing was journaled yet).
pub fn needs_journal(last_journaled: Option<u32>, digest: u32) -> (r: bool)
    ensures
        r == (last_journaled != Some(digest)),
{
    match last_journaled {
        Some(d) => d != digest,
        None => true,
    }
}

} // verus!
