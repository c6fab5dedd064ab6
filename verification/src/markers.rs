//! Markers: their generated names ("Marker NN", "Dropout N ms"), the rename normalization, the
//! range and existence rules every marker command checks, and the order the marker list is
//! shown in.

use vstd::prelude::*;

use crate::error::{is_plain_error, IpcError, IpcErrorCode};
use crate::order::lists_each_index_once;
use crate::text::{decimal, decimal2, digit_char, push_decimal, push_str};

verus! {

/// Whether `c` is an ASCII decimal digit.
pub open spec fn is_digit(c: char) -> bool {
    '0' <= c <= '9'
}

/// The value of a string of decimal digits.
pub open spec fn digits_value(s: Seq<char>) -> nat
    decreases s.len(),
{
    if s.len() == 0 {
        0
    } else {
        digits_value(s.drop_last()) * 10 + ((s.last() as int - 48) as nat)
    }
}

/// The fixed prefix of a default marker name.
pub open spec fn marker_prefix() -> Seq<char> {
    seq!['M', 'a', 'r', 'k', 'e', 'r', ' ']
}

/// The number in a default marker name: `"Marker "` followed by one to six decimal digits
/// (leading zeros allowed, so "Marker 7" and "Marker 07" both read 7).
pub open spec fn default_number(name: Seq<char>) -> Option<nat> {
    let ghost p = marker_prefix();
    let rest = name.skip(p.len() as int);
    if name.len() >= p.len() && name.take(p.len() as int) == p && 1 <= rest.len() <= 6 && (forall|i: int|
        0 <= i < rest.len() ==> is_digit(#[trigger] rest[i])) {
        Some(digits_value(rest))
    } else {
        None
    }
}

/// The largest default-name number among `names` (0 when none has one).
pub open spec fn max_default_number(names: Seq<Seq<char>>) -> nat
    decreases names.len(),
{
    if names.len() == 0 {
        0
    } else {
        let rest = max_default_number(names.drop_last());
        match default_number(names.last()) {
            Some(k) => if k > rest { k } else { rest },
            None => rest,
        }
    }
}

/// The name a new marker gets: "Marker NN", NN one above the largest default-name number in
/// use, at least two digits.
pub open spec fn next_marker_name_spec(names: Seq<Seq<char>>) -> Seq<char> {
    marker_prefix() + decimal2(max_default_number(names) + 1)
}

/// Ten to the `k`.
pub open spec fn pow10(k: nat) -> nat
    decreases k,
{
    if k == 0 {
        1
    } else {
        10 * pow10((k - 1) as nat)
    }
}

proof fn lemma_pow10_monotone(a: nat, b: nat)
    requires
        a <= b,
    ensures
        1 <= pow10(a) <= pow10(b),
    decreases b,
{
    if b > a {
        lemma_pow10_monotone(a, (b - 1) as nat);
    } else if a > 0 {
        lemma_pow10_monotone((a - 1) as nat, (a - 1) as nat);
    }
}

proof fn lemma_pow10_6()
    ensures
        pow10(6) == 1_000_000,
{
    reveal_with_fuel(pow10, 7);
}

proof fn lemma_digits_value_bound(s: Seq<char>)
    requires
        forall|i: int| 0 <= i < s.len() ==> is_digit(#[trigger] s[i]),
    ensures
        digits_value(s) < pow10(s.len()),
    decreases s.len(),
{
    if s.len() > 0 {
        let p = s.drop_last();
        assert forall|i: int| 0 <= i < p.len() implies is_digit(#[trigger] p[i]) by {
            assert(is_digit(s[i]));
        }
        lemma_digits_value_bound(p);
        assert(is_digit(s[s.len() - 1]));
        let q = pow10(p.len());
        assert(digits_value(p) + 1 <= q);
        assert((digits_value(p) + 1) * 10 <= q * 10) by (nonlinear_arith)
            requires digits_value(p) + 1 <= q;
    }
}

proof fn lemma_max_default_number_bound(names: Seq<Seq<char>>)
    ensures
        max_default_number(names) < 1_000_000,
    decreases names.len(),
{
    if names.len() > 0 {
        lemma_max_default_number_bound(names.drop_last());
        let n = names.last();
        let p = marker_prefix();
        let rest = n.skip(p.len() as int);
        if default_number(n).is_some() {
            lemma_digits_value_bound(rest);
            lemma_pow10_monotone(rest.len(), 6);
            lemma_pow10_6();
        }
    }
}

/// The number in a default marker name, if `name` is one (`"Marker "` and one to six digits).
pub fn marker_default_number(name: &str) -> (r: Option<u64>)
    ensures
        r.is_some() == default_number(name@).is_some(),
        r.is_some() ==> r.unwrap() == default_number(name@).unwrap(),
{
    let n = name.unicode_len();
    let ghost p = marker_prefix();
    proof {
        reveal_strlit("Marker ");
    }
    if n < 7 {
        return None;
    }
    let prefix = "Marker ";
    let mut i: usize = 0;
    while i < 7
        invariant
            n == name@.len(),
            n >= 7,
            prefix@ == p,
            p.len() == 7,
            p == marker_prefix(),
            i <= 7,
            forall|k: int| 0 <= k < i ==> name@[k] == p[k],
        decreases 7 - i,
    {
        if name.get_char(i) != prefix.get_char(i) {
            proof {
                assert(name@.take(7) != p) by {
                    assert(name@.take(7)[i as int] != p[i as int]);
                }
            }
            return None;
        }
        i += 1;
    }
    proof {
        assert(name@.take(7) =~= p);
    }
    let len = n - 7;
    if len < 1 || len > 6 {
        return None;
    }
    let ghost rest = name@.skip(7);
    let mut value: u64 = 0;
    let mut j: usize = 0;
    while j < len
        invariant
            n == name@.len(),
            len == n - 7,
            1 <= len <= 6,
            rest == name@.skip(7),
            j <= len,
            forall|k: int| 0 <= k < j ==> is_digit(#[trigger] rest[k]),
            value == digits_value(rest.take(j as int)),
            value < pow10(j as nat),
        decreases len - j,
    {
        let c = name.get_char(7 + j);
        if c < '0' || c > '9' {
            proof {
                assert(!is_digit(rest[j as int]));
            }
            return None;
        }
        proof {
            assert(rest.take(j as int + 1).drop_last() =~= rest.take(j as int));
            lemma_pow10_monotone(j as nat + 1, 6);
            lemma_pow10_6();
            let q = pow10(j as nat);
            assert((value + 1) * 10 <= q * 10) by (nonlinear_arith)
                requires value + 1 <= q;
        }
        value = value * 10 + (c as u64 - 48);
        j += 1;
    }
    proof {
        assert(rest.take(len as int) =~= rest);
    }
    Some(value)
}

/// "Marker NN" for a new marker among markers named `names`.
pub fn next_marker_name(names: &[String]) -> (s: String)
    ensures
        s@ == next_marker_name_spec(names@.map_values(|n: String| n@)),
{
    let ghost views = names@.map_values(|n: String| n@);
    let mut max: u64 = 0;
    let mut i: usize = 0;
    while i < names.len()
        invariant
            views == names@.map_values(|n: String| n@),
            i <= names.len(),
            max == max_default_number(views.take(i as int)),
        decreases names.len() - i,
    {
        proof {
            assert(views.take(i as int + 1).drop_last() =~= views.take(i as int));
        }
        match marker_default_number(names[i].as_str()) {
            Some(k) => {
                if k > max {
                    max = k;
                }
            },
            None => {},
        }
        i += 1;
    }
    proof {
        assert(views.take(names.len() as int) =~= views);
        lemma_max_default_number_bound(views);
    }
    let next = max + 1;
    let mut s = String::new();
    push_str(&mut s, "Marker ");
    if next < 10 {
        push_str(&mut s, "0");
    }
    push_decimal(&mut s, next as u128);
    proof {
        reveal_strlit("Marker ");
        reveal_strlit("0");
        assert(s@ =~= next_marker_name_spec(views));
    }
    s
}

/// The name of a dropout marker: "Dropout N ms" (N rounded to the nearest millisecond at
/// `rate_hz`, a zero rate read as one), or "Dropout (length unknown)".
pub open spec fn dropout_name_spec(len_samples: Option<u64>, rate_hz: u32) -> Seq<char> {
    match len_samples {
        None => "Dropout (length unknown)"@,
        Some(len) => {
            let rate: int = if rate_hz == 0 { 1 } else { rate_hz as int };
            "Dropout "@ + decimal(((len * 1000 + rate / 2) / rate) as nat) + " ms"@
        },
    }
}

/// "Dropout N ms" / "Dropout (length unknown)" for a dropout of `len_samples` at `rate_hz`.
pub fn dropout_marker_name(len_samples: Option<u64>, rate_hz: u32) -> (s: String)
    ensures
        s@ == dropout_name_spec(len_samples, rate_hz),
{
    match len_samples {
        None => "Dropout (length unknown)".to_owned(),
        Some(len) => {
            let rate: u128 = if rate_hz == 0 { 1 } else { rate_hz as u128 };
            let ms128: u128 = (len as u128 * 1000 + rate / 2) / rate;
            let mut s = String::new();
            push_str(&mut s, "Dropout ");
            push_decimal(&mut s, ms128);
            push_str(&mut s, " ms");
            proof {
                assert(s@ =~= dropout_name_spec(len_samples, rate_hz));
            }
            s
        },
    }
}

/// A dropout marker's own span: the fill length, or a point (0) when the length is unknown.
pub fn dropout_marker_len(len_samples: Option<u64>) -> (l: u64)
    ensures
        l == match len_samples {
            Some(n) => n,
            None => 0,
        },
{
    match len_samples {
        Some(n) => n,
        None => 0,
    }
}

/// Unicode `White_Space` (what `char::is_whitespace` and `str::trim` go by).
pub open spec fn is_ws(c: char) -> bool {
    let u = c as u32;
    (0x09 <= u <= 0x0D) || u == 0x20 || u == 0x85 || u == 0xA0 || u == 0x1680 || (0x2000 <= u
        <= 0x200A) || u == 0x2028 || u == 0x2029 || u == 0x202F || u == 0x205F || u == 0x3000
}

/// Unicode general category `Cc` (what `char::is_control` goes by).
pub open spec fn is_control(c: char) -> bool {
    let u = c as u32;
    u <= 0x1F || (0x7F <= u <= 0x9F)
}

/// A character a marker name keeps: anything but a control character, tab excepted.
pub open spec fn name_keeps(c: char) -> bool {
    c == '\t' || !is_control(c)
}

/// How many bytes `c` takes in UTF-8.
pub open spec fn utf8_len(c: char) -> nat {
    let u = c as u32;
    if u < 0x80 {
        1
    } else if u < 0x800 {
        2
    } else if u < 0x10000 {
        3
    } else {
        4
    }
}

/// How many whitespace characters `s` starts with.
pub open spec fn lead_ws(s: Seq<char>) -> nat
    decreases s.len(),
{
    if s.len() > 0 && is_ws(s[0]) {
        1 + lead_ws(s.drop_first())
    } else {
        0
    }
}

/// How many whitespace characters `s` ends with.
pub open spec fn trail_ws(s: Seq<char>) -> nat
    decreases s.len(),
{
    if s.len() > 0 && is_ws(s.last()) {
        1 + trail_ws(s.drop_last())
    } else {
        0
    }
}

/// `s` without leading and trailing whitespace.
pub open spec fn trim_ws(s: Seq<char>) -> Seq<char> {
    let t = s.skip(lead_ws(s) as int);
    t.take(t.len() - trail_ws(t))
}

/// `s` without the characters a marker name drops.
pub open spec fn keep_name_chars(s: Seq<char>) -> Seq<char>
    decreases s.len(),
{
    if s.len() == 0 {
        s
    } else if name_keeps(s.last()) {
        keep_name_chars(s.drop_last()).push(s.last())
    } else {
        keep_name_chars(s.drop_last())
    }
}

/// The longest prefix of `s` that fits in `budget` UTF-8 bytes.
pub open spec fn cut_to_bytes(s: Seq<char>, budget: nat) -> Seq<char>
    decreases s.len(),
{
    if s.len() == 0 || utf8_len(s[0]) > budget {
        Seq::empty()
    } else {
        seq![s[0]] + cut_to_bytes(s.drop_first(), (budget - utf8_len(s[0])) as nat)
    }
}

/// A marker rename's normalization: trimmed, control characters other than tab removed, cut to
/// at most 1024 UTF-8 bytes at a character boundary.
pub open spec fn normalized_name(s: Seq<char>) -> Seq<char> {
    cut_to_bytes(keep_name_chars(trim_ws(s)), 1024)
}

fn char_is_ws(c: char) -> (r: bool)
    ensures
        r == is_ws(c),
{
    let u = c as u32;
    (0x09 <= u && u <= 0x0D) || u == 0x20 || u == 0x85 || u == 0xA0 || u == 0x1680 || (0x2000
        <= u && u <= 0x200A) || u == 0x2028 || u == 0x2029 || u == 0x202F || u == 0x205F || u
        == 0x3000
}

fn char_utf8_len(c: char) -> (n: u32)
    ensures
        n == utf8_len(c),
{
    let u = c as u32;
    if u < 0x80 {
        1
    } else if u < 0x800 {
        2
    } else if u < 0x10000 {
        3
    } else {
        4
    }
}

proof fn lemma_lead_ws(s: Seq<char>, i: int)
    requires
        0 <= i <= s.len(),
        forall|j: int| 0 <= j < i ==> is_ws(#[trigger] s[j]),
        i == s.len() || !is_ws(s[i]),
    ensures
        lead_ws(s) == i,
    decreases i,
{
    if i > 0 {
        let d = s.drop_first();
        assert forall|j: int| 0 <= j < i - 1 implies is_ws(#[trigger] d[j]) by {
            assert(is_ws(s[j + 1]));
        }
        assert(is_ws(s[0]));
        lemma_lead_ws(d, i - 1);
    }
}

proof fn lemma_trail_ws(s: Seq<char>, k: int)
    requires
        0 <= k <= s.len(),
        forall|j: int| s.len() - k <= j < s.len() ==> is_ws(#[trigger] s[j]),
        k == s.len() || !is_ws(s[s.len() - k - 1]),
    ensures
        trail_ws(s) == k,
    decreases k,
{
    if k > 0 {
        let d = s.drop_last();
        assert forall|j: int| d.len() - (k - 1) <= j < d.len() implies is_ws(#[trigger] d[j]) by {
            assert(is_ws(s[j]));
        }
        assert(is_ws(s[s.len() - 1]));
        lemma_trail_ws(d, k - 1);
    }
}

proof fn lemma_cut_step(s: Seq<char>, i: int, budget: nat)
    requires
        0 <= i < s.len(),
        utf8_len(s[i]) <= budget,
    ensures
        cut_to_bytes(s.skip(i), budget) == seq![s[i]] + cut_to_bytes(
            s.skip(i + 1),
            (budget - utf8_len(s[i])) as nat,
        ),
{
    assert(s.skip(i).drop_first() =~= s.skip(i + 1));
    assert(s.skip(i)[0] == s[i]);
}

/// A marker name as the user typed it, normalized: whitespace trimmed, control characters
/// other than tab removed, cut to at most 1024 UTF-8 bytes at a character boundary.
pub fn normalize_marker_name(name: &str) -> (r: String)
    ensures
        r@ == normalized_name(name@),
{
    let n = name.unicode_len();
    let ghost s = name@;
    // Leading whitespace.
    let mut a: usize = 0;
    while a < n && char_is_ws(name.get_char(a))
        invariant
            n == s.len(),
            s == name@,
            a <= n,
            forall|j: int| 0 <= j < a ==> is_ws(#[trigger] s[j]),
        decreases n - a,
    {
        a += 1;
    }
    proof {
        lemma_lead_ws(s, a as int);
    }
    let ghost t = s.skip(a as int);
    // Trailing whitespace.
    let mut k: usize = 0;
    while k < n - a && char_is_ws(name.get_char(n - 1 - k))
        invariant
            n == s.len(),
            s == name@,
            a <= n,
            t == s.skip(a as int),
            k <= n - a,
            forall|j: int| t.len() - k <= j < t.len() ==> is_ws(#[trigger] t[j]),
        decreases n - a - k,
    {
        proof {
            assert(t[t.len() - k - 1] == s[n - 1 - k]);
        }
        k += 1;
    }
    proof {
        if k < n - a {
            assert(t[t.len() - k - 1] == s[n - 1 - k]);
        }
        lemma_trail_ws(t, k as int);
    }
    let ghost trimmed = t.take(t.len() - k);
    assert(trimmed == trim_ws(s));
    let end = n - k;
    // Control characters.
    let mut kept: Vec<char> = Vec::new();
    let mut i: usize = a;
    while i < end
        invariant
            n == s.len(),
            s == name@,
            a <= end <= n,
            end == n - k,
            t == s.skip(a as int),
            trimmed == t.take(t.len() - k),
            trimmed == trim_ws(s),
            a <= i <= end,
            kept@ == keep_name_chars(trimmed.take(i - a)),
        decreases end - i,
    {
        let c = name.get_char(i);
        proof {
            assert(trimmed.take(i - a + 1).drop_last() =~= trimmed.take(i - a));
            assert(trimmed.take(i - a + 1).last() == c);
        }
        if c == '\t' || !((c as u32) <= 0x1F || (0x7F <= (c as u32) && (c as u32) <= 0x9F)) {
            kept.push(c);
        }
        i += 1;
    }
    proof {
        assert(trimmed.take(end - a) =~= trimmed);
    }
    let ghost kc = kept@;
    assert(kc == keep_name_chars(trim_ws(name@)));
    assert(kc.skip(0) =~= kc);
    assert(kc.take(0) =~= Seq::<char>::empty());
    // At most 1024 bytes.
    let mut out = String::new();
    let mut budget: u32 = 1024;
    let mut j: usize = 0;
    let m = kept.len();
    while j < m
        invariant
            m == kc.len(),
            kept@ == kc,
            kc == keep_name_chars(trim_ws(name@)),
            j <= m,
            budget <= 1024,
            out@ == kc.take(j as int),
            cut_to_bytes(kc, 1024) == kc.take(j as int) + cut_to_bytes(kc.skip(j as int), budget as nat),
        decreases m - j,
    {
        let c = kept[j];
        let w = char_utf8_len(c);
        if w > budget {
            proof {
                assert(kc.skip(j as int)[0] == c);
                assert(cut_to_bytes(kc.skip(j as int), budget as nat) == Seq::<char>::empty());
                assert(cut_to_bytes(kc, 1024) =~= kc.take(j as int));
            }
            return out;
        }
        proof {
            lemma_cut_step(kc, j as int, budget as nat);
            assert(kc.take(j as int + 1) =~= kc.take(j as int).push(c));
            assert(kc.take(j as int) + (seq![c] + cut_to_bytes(kc.skip(j as int + 1), (budget - w) as nat))
                =~= kc.take(j as int + 1) + cut_to_bytes(kc.skip(j as int + 1), (budget - w) as nat));
        }
        crate::text::push_char(&mut out, c);
        budget -= w;
        j += 1;
    }
    proof {
        assert(kc.skip(m as int) =~= Seq::<char>::empty());
        assert(kc.take(m as int) =~= kc);
        assert(cut_to_bytes(kc, 1024) =~= kc);
    }
    out
}

/// A marker's kind as the UI sees it: user-placed, a recorder dropout, or an unrecognized kind
/// read from a sidecar (treated like a user marker).
#[derive(Debug, Clone, Copy, PartialEq, Eq, Structural)]
pub enum MarkerKindInfo {
    User,
    Dropout,
    Other,
}

/// One marker as the marker commands report it.
#[derive(Debug, Clone, PartialEq, Eq)]
pub struct MarkerInfo {
    pub id: u64,
    pub pos_samples: u64,
    pub len_samples: u64,
    pub name: String,
    pub kind: MarkerKindInfo,
}

/// Whether a typed range edit moves a marker or resizes it; only the undo label differs.
#[derive(Debug, Clone, Copy, PartialEq, Eq, Structural)]
pub enum MarkerRangeEditKind {
    Move,
    Resize,
}

impl MarkerRangeEditKind {
    /// The undo label (an i18n key) of the edit.
    pub fn label_key(self) -> (s: &'static str)
        ensures
            s@ == match self {
                MarkerRangeEditKind::Move => "history.marker_move"@,
                MarkerRangeEditKind::Resize => "history.marker_resize"@,
            },
    {
        match self {
            MarkerRangeEditKind::Move => "history.marker_move",
            MarkerRangeEditKind::Resize => "history.marker_resize",
        }
    }
}

/// A marker command named an id that doesn't exist (any more).
pub fn marker_not_found() -> (e: IpcError)
    ensures
        is_plain_error(e, IpcErrorCode::InvalidArgument, "error.marker_not_found"@),
{
    IpcError::new(IpcErrorCode::InvalidArgument, "error.marker_not_found")
}

/// A rename whose normalized name is empty.
pub fn marker_name_empty() -> (e: IpcError)
    ensures
        is_plain_error(e, IpcErrorCode::InvalidArgument, "error.marker_name_empty"@),
{
    IpcError::new(IpcErrorCode::InvalidArgument, "error.marker_name_empty")
}

/// A range or position past the end of the document.
pub fn invalid_range() -> (e: IpcError)
    ensures
        is_plain_error(e, IpcErrorCode::InvalidArgument, "error.invalid_range"@),
{
    IpcError::new(IpcErrorCode::InvalidArgument, "error.invalid_range")
}

/// What the marker commands need to know of the open document.
#[derive(Debug, Clone, Copy, PartialEq, Eq)]
pub struct MarkerDocFacts {
    /// A take (or record operation) is open: markers added now join it.
    pub take_open: bool,
    /// A recording is in progress (rename, move and delete are refused then).
    pub recording: bool,
    pub len_samples: u64,
}

/// Whether `id` is one of `ids`.
pub fn contains_id(ids: &[u64], id: u64) -> (r: bool)
    ensures
        r == ids@.contains(id),
{
    let mut i: usize = 0;
    while i < ids.len()
        invariant
            i <= ids.len(),
            forall|j: int| 0 <= j < i ==> ids@[j] != id,
        decreases ids.len() - i,
    {
        if ids[i] == id {
            proof {
                assert(ids@[i as int] == id);
            }
            return true;
        }
        i += 1;
    }
    false
}

/// Whether `[pos, pos + len)` lies within a document of `doc_len` samples.
pub open spec fn marker_range_fits(pos: u64, len: u64, doc_len: u64) -> bool {
    pos + len <= doc_len
}

/// The refusals of Add Marker at `[pos, pos + len)`: none while a take is open (the marker is
/// placed at commit) unless the range overflows; otherwise the range must fit the document.
pub fn check_marker_add(doc: MarkerDocFacts, pos: u64, len: u64) -> (r: Result<(), IpcError>)
    ensures
        r.is_ok() == (if doc.take_open {
            pos + len <= u64::MAX
        } else {
            marker_range_fits(pos, len, doc.len_samples)
        }),
        r.is_err() ==> is_plain_error(r->Err_0, IpcErrorCode::InvalidArgument, "error.invalid_range"@),
{
    match pos.checked_add(len) {
        None => Err(invalid_range()),
        Some(end) => {
            if !doc.take_open && end > doc.len_samples {
                Err(invalid_range())
            } else {
                Ok(())
            }
        },
    }
}

/// Rename marker `id` to `name`: refused while recording, then when the normalized name is
/// empty, then when `id` is not among `existing`. Gives the normalized name.
pub fn check_marker_rename(doc: MarkerDocFacts, existing: &[u64], id: u64, name: &str) -> (r: Result<
    String,
    IpcError,
>)
    ensures
        doc.recording ==> r.is_err() && is_plain_error(
            r->Err_0,
            IpcErrorCode::NotWhileRecording,
            "error.not_while_recording"@,
        ),
        !doc.recording && normalized_name(name@).len() == 0 ==> r.is_err() && is_plain_error(
            r->Err_0,
            IpcErrorCode::InvalidArgument,
            "error.marker_name_empty"@,
        ),
        !doc.recording && normalized_name(name@).len() > 0 && !existing@.contains(id) ==> r.is_err()
            && is_plain_error(r->Err_0, IpcErrorCode::InvalidArgument, "error.marker_not_found"@),
        !doc.recording && normalized_name(name@).len() > 0 && existing@.contains(id) ==> r.is_ok()
            && r->Ok_0@ == normalized_name(name@),
{
    if doc.recording {
        return Err(IpcError::not_while_recording());
    }
    let normalized = normalize_marker_name(name);
    if normalized.as_str().unicode_len() == 0 {
        return Err(marker_name_empty());
    }
    if !contains_id(existing, id) {
        return Err(marker_not_found());
    }
    Ok(normalized)
}

/// Move or resize marker `id` to `[pos, pos + len)`: refused while recording, then when `id` is
/// not among `existing`, then when the range doesn't fit. Gives the undo label.
pub fn check_marker_set_range(
    doc: MarkerDocFacts,
    existing: &[u64],
    id: u64,
    pos: u64,
    len: u64,
    kind: MarkerRangeEditKind,
) -> (r: Result<&'static str, IpcError>)
    ensures
        doc.recording ==> r.is_err() && is_plain_error(
            r->Err_0,
            IpcErrorCode::NotWhileRecording,
            "error.not_while_recording"@,
        ),
        !doc.recording && !existing@.contains(id) ==> r.is_err() && is_plain_error(
            r->Err_0,
            IpcErrorCode::InvalidArgument,
            "error.marker_not_found"@,
        ),
        !doc.recording && existing@.contains(id) && !marker_range_fits(pos, len, doc.len_samples)
            ==> r.is_err() && is_plain_error(r->Err_0, IpcErrorCode::InvalidArgument, "error.invalid_range"@),
        !doc.recording && existing@.contains(id) && marker_range_fits(pos, len, doc.len_samples)
            ==> r.is_ok() && r->Ok_0@ == match kind {
            MarkerRangeEditKind::Move => "history.marker_move"@,
            MarkerRangeEditKind::Resize => "history.marker_resize"@,
        },
{
    if doc.recording {
        return Err(IpcError::not_while_recording());
    }
    if !contains_id(existing, id) {
        return Err(marker_not_found());
    }
    match pos.checked_add(len) {
        Some(end) if end <= doc.len_samples => Ok(kind.label_key()),
        _ => Err(invalid_range()),
    }
}

/// Delete the markers `ids` as one edit: nothing to do (`Ok(false)`) for an empty list;
/// otherwise refused while recording, then when any id is not among `existing` (nothing is
/// deleted then). `Ok(true)`: the edit goes ahead.
pub fn check_marker_delete(doc: MarkerDocFacts, existing: &[u64], ids: &[u64]) -> (r: Result<
    bool,
    IpcError,
>)
    ensures
        ids@.len() == 0 ==> r == Ok::<bool, IpcError>(false),
        ids@.len() > 0 && doc.recording ==> r.is_err() && is_plain_error(
            r->Err_0,
            IpcErrorCode::NotWhileRecording,
            "error.not_while_recording"@,
        ),
        ids@.len() > 0 && !doc.recording && (exists|i: int| 0 <= i < ids@.len() && !existing@.contains(#[trigger] ids@[i]))
            ==> r.is_err() && is_plain_error(r->Err_0, IpcErrorCode::InvalidArgument, "error.marker_not_found"@),
        ids@.len() > 0 && !doc.recording && (forall|i: int| 0 <= i < ids@.len() ==> existing@.contains(#[trigger] ids@[i]))
            ==> r == Ok::<bool, IpcError>(true),
{
    if ids.len() == 0 {
        return Ok(false);
    }
    if doc.recording {
        return Err(IpcError::not_while_recording());
    }
    let mut i: usize = 0;
    while i < ids.len()
        invariant
            !doc.recording,
            ids@.len() > 0,
            i <= ids.len(),
            forall|j: int| 0 <= j < i ==> existing@.contains(#[trigger] ids@[j]),
        decreases ids.len() - i,
    {
        if !contains_id(existing, ids[i]) {
            return Err(marker_not_found());
        }
        i += 1;
    }
    Ok(true)
}

/// `a` comes strictly before `b` in the marker list's order: by position, then by id.
pub open spec fn key_before(a: (u64, u64), b: (u64, u64)) -> bool {
    a.0 < b.0 || (a.0 == b.0 && a.1 < b.1)
}

/// `order` lists `keys` by position then id, equal keys in their given order.
pub open spec fn in_listing_order(keys: Seq<(u64, u64)>, order: Seq<usize>) -> bool {
    forall|i: int, j: int|
        #![trigger order[i], order[j]]
        0 <= i < j < order.len() ==> {
            let a = keys[order[i] as int];
            let b = keys[order[j] as int];
            key_before(a, b) || (a == b && order[i] < order[j])
        }
}

/// The order markers are listed in, given each one's `(position, id)`: by position, then id
/// (equal keys keep their order).
pub fn listing_order(keys: &[(u64, u64)]) -> (order: Vec<usize>)
    ensures
        lists_each_index_once(order@, keys@.len()),
        in_listing_order(keys@, order@),
{
    let mut order: Vec<usize> = Vec::new();
    let n = keys.len();
    let mut k: usize = 0;
    while k < n
        invariant
            n == keys@.len(),
            k <= n,
            lists_each_index_once(order@, k as nat),
            in_listing_order(keys@, order@),
        decreases n - k,
    {
        let key = keys[k];
        let mut p: usize = 0;
        while p < order.len() && !(key.0 < keys[order[p]].0 || (key.0 == keys[order[p]].0 && key.1
            < keys[order[p]].1))
            invariant
                n == keys@.len(),
                k < n,
                key == keys@[k as int],
                lists_each_index_once(order@, k as nat),
                in_listing_order(keys@, order@),
                p <= order@.len(),
                forall|i: int| 0 <= i < p ==> !key_before(key, #[trigger] keys@[order@[i] as int]),
            decreases order@.len() - p,
        {
            p += 1;
        }
        proof {
            assert forall|i: int| p <= i < order@.len() implies key_before(
                key,
                #[trigger] keys@[order@[i] as int],
            ) by {
                assert(key_before(key, keys@[order@[p as int] as int]));
                if i > p {
                    let a = keys@[order@[p as int] as int];
                    let b = keys@[order@[i] as int];
                    assert(key_before(a, b) || a == b);
                }
            }
        }
        let ghost old_order = order@;
        order.insert(p, k);
        proof {
            let s = order@;
            assert forall|i: int| 0 <= i < s.len() implies #[trigger] s[i] == (if i < p {
                old_order[i]
            } else if i == p {
                k
            } else {
                old_order[i - 1]
            }) by {}
            assert forall|i: int| 0 <= i < s.len() implies #[trigger] s[i] < k + 1 by {
                if i < p {
                    assert(s[i] == old_order[i]);
                } else if i > p {
                    assert(s[i] == old_order[i - 1]);
                }
            }
            assert forall|i: int, j: int| 0 <= i < j < s.len() implies s[i] != s[j] by {
                if i < p && j < p {
                    assert(s[i] == old_order[i] && s[j] == old_order[j]);
                } else if i < p && j == p {
                    assert(s[i] == old_order[i]);
                } else if i < p && j > p {
                    assert(s[i] == old_order[i] && s[j] == old_order[j - 1]);
                } else if i == p {
                    assert(s[j] == old_order[j - 1]);
                } else {
                    assert(s[i] == old_order[i - 1] && s[j] == old_order[j - 1]);
                }
            }
            assert forall|i: int, j: int| #![trigger s[i], s[j]] 0 <= i < j < s.len() implies {
                let a = keys@[s[i] as int];
                let b = keys@[s[j] as int];
                key_before(a, b) || (a == b && s[i] < s[j])
            } by {
                if i < p && j < p {
                    assert(s[i] == old_order[i] && s[j] == old_order[j]);
                } else if i < p && j == p {
                    assert(s[i] == old_order[i]);
                    assert(!key_before(key, keys@[old_order[i] as int]));
                    assert(old_order[i] < k);
                } else if i < p && j > p {
                    assert(s[i] == old_order[i] && s[j] == old_order[j - 1]);
                } else if i == p {
                    assert(s[j] == old_order[j - 1]);
                    assert(key_before(key, keys@[old_order[j - 1] as int]));
                } else {
                    assert(s[i] == old_order[i - 1] && s[j] == old_order[j - 1]);
                }
            }
        }
        k += 1;
    }
    order
}

/// The order of the marker list while a take is open: the document's markers (`current`) then
/// the ones added during the take (`pending`), as indices into that concatenation — unchanged
/// when nothing is pending, otherwise by position then id.
pub fn marker_list_order(current: &[(u64, u64)], pending: &[(u64, u64)]) -> (order: Vec<usize>)
    requires
        current@.len() + pending@.len() <= usize::MAX,
    ensures
        pending@.len() == 0 ==> order@ == Seq::new(current@.len(), |i: int| i as usize),
        pending@.len() > 0 ==> lists_each_index_once(order@, current@.len() + pending@.len())
            && in_listing_order(current@ + pending@, order@),
{
    if pending.len() == 0 {
        let mut order: Vec<usize> = Vec::new();
        let mut i: usize = 0;
        while i < current.len()
            invariant
                i <= current@.len(),
                order@ == Seq::new(i as nat, |j: int| j as usize),
            decreases current.len() - i,
        {
            order.push(i);
            i += 1;
            proof {
                assert(order@ =~= Seq::new(i as nat, |j: int| j as usize));
            }
        }
        order
    } else {
        let mut all: Vec<(u64, u64)> = Vec::new();
        let mut i: usize = 0;
        while i < current.len()
            invariant
                i <= current@.len(),
                all@ == current@.take(i as int),
            decreases current.len() - i,
        {
            all.push(current[i]);
            i += 1;
            proof {
                assert(all@ =~= current@.take(i as int));
            }
        }
        let mut j: usize = 0;
        while j < pending.len()
            invariant
                j <= pending@.len(),
                all@ == current@ + pending@.take(j as int),
            decreases pending.len() - j,
        {
            all.push(pending[j]);
            j += 1;
            proof {
                assert(all@ =~= current@ + pending@.take(j as int));
            }
        }
        proof {
            assert(current@.take(current@.len() as int) =~= current@);
            assert(pending@.take(pending@.len() as int) =~= pending@);
        }
        listing_order(all.as_slice())
    }
}

} // verus!
