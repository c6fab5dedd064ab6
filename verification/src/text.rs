//! Small verified text helpers: comparing strings, decimal numbers, building messages.

use vstd::prelude::*;

verus! {

/// `String::push`: appends one character.
#[verifier::external_body]
pub(crate) fn push_char(s: &mut String, c: char)
    ensures
        final(s)@ == old(s)@.push(c),
{
    s.push(c);
}

/// Appends `t`.
pub(crate) fn push_str(s: &mut String, t: &str)
    ensures
        final(s)@ == old(s)@ + t@,
{
    s.append(t);
}

/// Whether `a` and `b` hold the same characters.
pub fn str_eq(a: &str, b: &str) -> (r: bool)
    ensures
        r == (a@ == b@),
{
    let x = a.to_owned();
    let y = b.to_owned();
    x == y
}

/// The character of decimal digit `d`.
pub open spec fn digit_char(d: int) -> char
    recommends
        0 <= d < 10,
{
    (48 + d) as char
}

/// `n` written in decimal, without leading zeros.
pub open spec fn decimal(n: nat) -> Seq<char>
    decreases n,
{
    if n < 10 {
        seq![digit_char(n as int)]
    } else {
        decimal(n / 10).push(digit_char((n % 10) as int))
    }
}

/// `n` written in decimal with at least two digits (a leading zero below ten).
pub open spec fn decimal2(n: nat) -> Seq<char> {
    if n < 10 {
        seq!['0'].add(decimal(n))
    } else {
        decimal(n)
    }
}

fn digit(d: u128) -> (c: char)
    requires
        d < 10,
    ensures
        c == digit_char(d as int),
{
    let b: u8 = 48 + d as u8;
    b as char
}

/// Appends `n` in decimal.
pub fn push_decimal(s: &mut String, n: u128)
    ensures
        final(s)@ == old(s)@ + decimal(n as nat),
    decreases n,
{
    if n >= 10 {
        push_decimal(s, n / 10);
    }
    push_char(s, digit(n % 10));
    proof {
        if n >= 10 {
            assert(decimal(n as nat) == decimal((n / 10) as nat).push(digit_char((n % 10) as int)));
        }
    }
}

/// `n` in decimal, as its own string.
pub fn decimal_string(n: u64) -> (s: String)
    ensures
        s@ == decimal(n as nat),
{
    let mut s = String::new();
    push_decimal(&mut s, n as u128);
    proof {
        assert(s@ =~= decimal(n as nat));
    }
    s
}

/// Whether `needle` occurs in `hay` starting at index `i`.
pub open spec fn occurs_at(hay: Seq<char>, needle: Seq<char>, i: int) -> bool {
    0 <= i && i + needle.len() <= hay.len() && hay.subrange(i, i + needle.len()) == needle
}

/// Whether `needle` occurs somewhere in `hay`.
pub open spec fn contains_text(hay: Seq<char>, needle: Seq<char>) -> bool {
    exists|i: int| occurs_at(hay, needle, i)
}

/// The characters of `s`.
pub fn chars_of(s: &str) -> (v: Vec<char>)
    ensures
        v@ == s@,
{
    let n = s.unicode_len();
    let mut v: Vec<char> = Vec::new();
    let mut i: usize = 0;
    while i < n
        invariant
            n == s@.len(),
            i <= n,
            v@ == s@.subrange(0, i as int),
        decreases n - i,
    {
        v.push(s.get_char(i));
        i += 1;
        proof {
            assert(v@ =~= s@.subrange(0, i as int));
        }
    }
    proof {
        assert(v@ =~= s@);
    }
    v
}

/// Whether `needle` occurs in `hay`.
pub fn str_contains(hay: &str, needle: &str) -> (r: bool)
    ensures
        r == contains_text(hay@, needle@),
{
    let h = chars_of(hay);
    let nd = chars_of(needle);
    let hn = h.len();
    let nn = nd.len();
    if nn > hn {
        proof {
            assert forall|i: int| !occurs_at(hay@, needle@, i) by {}
        }
        return false;
    }
    let mut i: usize = 0;
    while i <= hn - nn
        invariant
            h@ == hay@,
            nd@ == needle@,
            hn == h@.len(),
            nn == nd@.len(),
            nn <= hn,
            i <= hn - nn + 1,
            forall|k: int| 0 <= k < i ==> !occurs_at(hay@, needle@, k),
        decreases hn - nn + 1 - i,
    {
        let mut j: usize = 0;
        let mut same = true;
        while j < nn
            invariant
                h@ == hay@,
                nd@ == needle@,
                hn == h@.len(),
                nn == nd@.len(),
                i + nn <= hn,
                j <= nn,
                same == (forall|m: int| 0 <= m < j ==> h@[i + m] == nd@[m]),
            decreases nn - j,
        {
            if h[i + j] != nd[j] {
                same = false;
            }
            j += 1;
        }
        if same {
            proof {
                assert(hay@.subrange(i as int, i + nn) =~= needle@);
                assert(occurs_at(hay@, needle@, i as int));
            }
            return true;
        }
        proof {
            assert(!occurs_at(hay@, needle@, i as int)) by {
                if occurs_at(hay@, needle@, i as int) {
                    let m = choose|m: int| 0 <= m < nn && h@[i + m] != nd@[m];
                    assert(hay@.subrange(i as int, i + nn)[m] == needle@[m]);
                }
            }
        }
        i += 1;
    }
    proof {
        assert forall|k: int| !occurs_at(hay@, needle@, k) by {
            if k > hn - nn {
                assert(!occurs_at(hay@, needle@, k));
            }
        }
    }
    false
}

} // verus!
