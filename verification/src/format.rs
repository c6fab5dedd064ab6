//! Numbers as notices show them: byte counts in decimal megabytes or gigabytes, sample rates in
//! kilohertz.

use vstd::prelude::*;

use crate::text::{decimal, push_decimal, push_str};
use vstd::arithmetic::div_mod::lemma_fundamental_div_mod;
use vstd::arithmetic::mul::lemma_mul_inequality;
use vstd::arithmetic::power2::{
    lemma2_to64, lemma_pow2_pos, lemma_pow2_strictly_increases, lemma_pow2_unfold, pow2,
};

verus! {

/// `n / d` rounded to the nearest integer, a tie going to the even neighbour.
pub open spec fn round_half_even(n: nat, d: nat) -> nat
    recommends
        d > 0,
{
    let q = n / d;
    let r = n % d;
    if 2 * r < d {
        q
    } else if 2 * r > d {
        q + 1
    } else if q % 2 == 0 {
        q
    } else {
        q + 1
    }
}

/// `t` tenths as "I.F": the whole part, a point, the tenths digit.
pub open spec fn tenths_text(t: nat) -> Seq<char> {
    decimal(t / 10) + "."@ + decimal(t % 10)
}

/// Scales `cur / d` up into the range of 53-bit mantissas: doubles `cur` and `den` (the power
/// of two `cur` was scaled by) until `cur / d` reaches 2^52, at most 64 times.
pub open spec fn scale_up(cur: nat, den: nat, d: nat, j: nat) -> (nat, nat)
    decreases 64 - j,
{
    if j >= 64 || cur >= d * 0x10_0000_0000_0000 {
        (cur, den)
    } else {
        scale_up(2 * cur, 2 * den, d, j + 1)
    }
}

/// The `f64` nearest to `n / d`, a tie going to the even mantissa, as `(m, den)` standing for
/// `m / den` (a 53-bit mantissa over a power of two). Exact for quotients from 2^-11 up to
/// below 2^53, where no exponent limit of the format is reached.
pub open spec fn nearest_double_quotient(n: nat, d: nat) -> (nat, nat) {
    let (cur, den) = scale_up(n, 1, d, 0);
    (round_half_even(cur, d), den)
}

/// The power of two an integer `n` must be divided by to fit a 53-bit mantissa (at most 2^64).
pub open spec fn mantissa_unit(n: nat, unit: nat, j: nat) -> nat
    decreases 64 - j,
{
    if j >= 64 || n < unit * 0x20_0000_0000_0000 {
        unit
    } else {
        mantissa_unit(n, 2 * unit, j + 1)
    }
}

/// The `f64` nearest to the integer `n` (`n as f64`), a tie going to the even mantissa: `n`
/// itself below 2^53.
pub open spec fn nearest_double_int(n: nat) -> nat {
    let unit = mantissa_unit(n, 1, 0);
    round_half_even(n, unit) * unit
}

/// `m / den` written with one decimal as `{:.1}` writes it: the exact value rounded to tenths,
/// a tie going to the even tenth.
pub open spec fn tenths_of(v: (nat, nat)) -> nat {
    round_half_even(v.0 * 10, v.1)
}

/// `round_half_even` on machine integers.
fn round_half_even_exec(n: u128, d: u128) -> (r: u128)
    requires
        d > 0,
        n / d < u128::MAX,
    ensures
        r == round_half_even(n as nat, d as nat),
{
    let q = n / d;
    let rem = n % d;
    if rem < d - rem {
        q
    } else if rem > d - rem {
        q + 1
    } else if q % 2 == 0 {
        q
    } else {
        q + 1
    }
}

/// [`nearest_double_quotient`] on machine integers, for `d` up to 2^74 and quotients below
/// 2^53; the mantissa is at most 2^53 and the power of two at most 2^64.
fn nearest_double_quotient_exec(n: u128, d: u128) -> (r: (u128, u128))
    requires
        0 < d <= 0x400_0000_0000_0000_0000,
        n < d * 0x20_0000_0000_0000,
    ensures
        (r.0 as nat, r.1 as nat) == nearest_double_quotient(n as nat, d as nat),
        r.0 <= 0x20_0000_0000_0000,
        0 < r.1 <= 0x1_0000_0000_0000_0000,
{
    let target: u128 = d * 0x10_0000_0000_0000;
    let mut cur: u128 = n;
    let mut den: u128 = 1;
    let mut j: u32 = 0;
    proof {
        lemma2_to64();
    }
    while j < 64 && cur < target
        invariant
            0 < d <= 0x400_0000_0000_0000_0000,
            target == d * 0x10_0000_0000_0000,
            j <= 64,
            cur < d * 0x20_0000_0000_0000,
            den == pow2(j as nat),
            den <= 0x1_0000_0000_0000_0000,
            scale_up(cur as nat, den as nat, d as nat, j as nat) == scale_up(n as nat, 1, d as nat, 0),
        decreases 64 - j,
    {
        proof {
            lemma_pow2_unfold((j + 1) as nat);
            if j < 63 {
                lemma_pow2_strictly_increases(j as nat, 63);
                lemma_pow2_strictly_increases((j + 1) as nat, 64);
            }
            lemma2_to64();
        }
        cur = 2 * cur;
        den = 2 * den;
        j = j + 1;
    }
    proof {
        lemma2_to64();
        if j < 64 {
            lemma_pow2_strictly_increases(j as nat, 64);
        }
        lemma_pow2_pos(j as nat);
        assert(cur / d < 0x20_0000_0000_0000) by (nonlinear_arith)
            requires
                cur < d * 0x20_0000_0000_0000,
                d > 0,
        ;
    }
    let m = round_half_even_exec(cur, d);
    (m, den)
}

/// [`nearest_double_int`] on machine integers (`n as f64` read back as an integer).
fn nearest_double_int_exec(n: u64) -> (r: u128)
    ensures
        r == nearest_double_int(n as nat),
        r <= 0x2_0000_0000_0000_0000,
{
    let mut unit: u128 = 1;
    let mut j: u32 = 0;
    proof {
        lemma2_to64();
    }
    while j < 64 && (n as u128) >= unit * 0x20_0000_0000_0000
        invariant
            j <= 64,
            unit == pow2(j as nat),
            unit <= 0x1_0000_0000_0000_0000,
            mantissa_unit(n as nat, unit as nat, j as nat) == mantissa_unit(n as nat, 1, 0),
        decreases 64 - j,
    {
        proof {
            lemma_pow2_unfold((j + 1) as nat);
            if j < 63 {
                lemma_pow2_strictly_increases(j as nat, 63);
                lemma_pow2_strictly_increases((j + 1) as nat, 64);
            }
            lemma2_to64();
        }
        unit = 2 * unit;
        j = j + 1;
    }
    proof {
        lemma_pow2_pos(j as nat);
    }
    let nn: u128 = n as u128;
    let m = round_half_even_exec(nn, unit);
    proof {
        assert(m * unit <= nn + unit) by (nonlinear_arith)
            requires
                m <= nn / unit + 1,
                unit > 0,
        {
            lemma_fundamental_div_mod(nn as int, unit as int);
            lemma_mul_inequality(m as int, (nn / unit + 1) as int, unit as int);
        }
    }
    m * unit
}

/// `t` as "I.F" text, pushed onto `s`.
fn push_tenths(s: &mut String, t: u128)
    ensures
        final(s)@ == old(s)@ + tenths_text(t as nat),
{
    push_decimal(s, t / 10);
    push_str(s, ".");
    push_decimal(s, t % 10);
    proof {
        reveal_strlit(".");
        assert(final(s)@ =~= old(s)@ + tenths_text(t as nat));
    }
}

/// A byte count as a notice shows it: from 10^9 bytes on, gigabytes with one decimal, as
/// `{:.1}` writes `bytes as f64 / 1e9` (the nearest double of the count, divided and rounded
/// to the nearest double, then to tenths with a tie to the even tenth); below, whole megabytes
/// (a tie to the even neighbour), at least 1.
pub open spec fn format_bytes_spec(bytes: nat) -> Seq<char> {
    if bytes >= 1_000_000_000 {
        tenths_text(tenths_of(nearest_double_quotient(nearest_double_int(bytes), 1_000_000_000)))
            + " GB"@
    } else {
        let mb: nat = if bytes < 1_000_000 {
            1
        } else {
            round_half_even(bytes, 1_000_000)
        };
        decimal(mb) + " MB"@
    }
}

/// "4.1 GB" / "512 MB" (decimal units) for notices.
pub fn format_bytes(bytes: u64) -> (s: String)
    ensures
        s@ == format_bytes_spec(bytes as nat),
{
    let mut s = String::new();
    if bytes >= 1_000_000_000 {
        let b = nearest_double_int_exec(bytes);
        let (m, den) = nearest_double_quotient_exec(b, 1_000_000_000);
        let t = round_half_even_exec(m * 10, den);
        push_tenths(&mut s, t);
        push_str(&mut s, " GB");
        proof {
            reveal_strlit(" GB");
            assert(s@ =~= format_bytes_spec(bytes as nat));
        }
    } else {
        let q: u64 = bytes / 1_000_000;
        let r: u64 = bytes % 1_000_000;
        let mb: u64 = if bytes < 1_000_000 {
            1
        } else if 2 * r < 1_000_000 {
            q
        } else if 2 * r > 1_000_000 {
            q + 1
        } else if q % 2 == 0 {
            q
        } else {
            q + 1
        };
        push_decimal(&mut s, mb as u128);
        push_str(&mut s, " MB");
        proof {
            reveal_strlit(" MB");
            assert(s@ =~= format_bytes_spec(bytes as nat));
        }
    }
    s
}

/// A sample rate in kilohertz as a notice shows it: whole kilohertz without a decimal ("48
/// kHz"), anything else with one decimal as `{:.1}` writes `hz as f64 / 1000.0` (the nearest
/// double of the quotient, then tenths with a tie to the even tenth): "44.1 kHz", and 44 150
/// Hz, whose nearest double lies just below 44.15, gives "44.1 kHz".
pub open spec fn khz_label_spec(hz: nat) -> Seq<char> {
    if hz % 1000 == 0 {
        decimal(hz / 1000) + " kHz"@
    } else {
        tenths_text(tenths_of(nearest_double_quotient(hz, 1000))) + " kHz"@
    }
}

/// "‹rate› kHz", e.g. 48 000 -> "48 kHz", 44 100 -> "44.1 kHz".
pub fn khz_label(hz: u32) -> (s: String)
    ensures
        s@ == khz_label_spec(hz as nat),
{
    let mut s = String::new();
    if hz % 1000 == 0 {
        push_decimal(&mut s, (hz / 1000) as u128);
        push_str(&mut s, " kHz");
        proof {
            reveal_strlit(" kHz");
            assert(s@ =~= khz_label_spec(hz as nat));
        }
    } else {
        let (m, den) = nearest_double_quotient_exec(hz as u128, 1000);
        let t = round_half_even_exec(m * 10, den);
        push_tenths(&mut s, t);
        push_str(&mut s, " kHz");
        proof {
            reveal_strlit(" kHz");
            assert(s@ =~= khz_label_spec(hz as nat));
        }
    }
    s
}

} // verus!
