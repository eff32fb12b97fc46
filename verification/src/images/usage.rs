//! The size of an image in gigabytes, as binary64 arithmetic gives it.
//!
//! The size in bytes is turned into the nearest binary64 number, divided by
//! 10^9 as binary64 numbers are divided, and the quotient is rounded to two
//! decimals. On the way a number is never more than an integer over a power
//! of two, so integers are all that the arithmetic below needs.
use crate::text::{digit, magnitude, numeral, push_numeral};
use vstd::prelude::*;

verus! {

/// Below this bound, 2^53, every natural number is a binary64 number.
pub const EXACT: u128 = 0x20_0000_0000_0000;

/// The bytes of a gigabyte.
pub const GIGA: u128 = 1_000_000_000;

/// 2^52 gigabytes: the quotient of a size by [`GIGA`] has 53 binary digits
/// once the size is scaled to at least this.
pub const SCALED: u128 = 4_503_599_627_370_496_000_000_000;

/// The integer nearest to `num / den`, a tie going to the even one.
pub open spec fn nearest(num: nat, den: nat) -> nat {
    let whole = num / den;
    let rest = num % den;
    if 2 * rest > den || (2 * rest == den && whole % 2 == 1) {
        whole + 1
    } else {
        whole
    }
}

/// The power of two that the binary64 numbers around `n` are multiples of:
/// the least one that takes `n` below [`EXACT`] when `n` is divided by it.
pub open spec fn spacing(n: nat) -> nat
    decreases n,
{
    if n < EXACT {
        1
    } else {
        2 * spacing(n / 2)
    }
}

/// The binary64 number nearest to the natural number `n`, a tie going to
/// the one with the even last digit.
pub open spec fn nearest_binary64(n: nat) -> nat {
    nearest(n, spacing(n)) * spacing(n)
}

/// The power of two that scales a positive `n` to at least [`SCALED`]: the
/// least one that does.
pub open spec fn scaling(n: nat) -> nat
    decreases
            if n < SCALED {
                SCALED - n
            } else {
                0
            },
{
    if n == 0 || n >= SCALED {
        1
    } else {
        2 * scaling(2 * n)
    }
}

/// A size in bytes as hundredths of a gigabyte: the binary64 number nearest
/// to the size is divided by 10^9, the quotient is the nearest binary64
/// number again, and that is rounded to the nearest hundredth, a tie going
/// to the even one.
pub open spec fn hundredths_of_gb(bytes: nat) -> nat {
    let size = nearest_binary64(bytes);
    let scale = scaling(size);
    let quotient = nearest(size * scale, GIGA as nat);
    nearest(100 * quotient, scale)
}

/// A number of hundredths with two decimals.
pub open spec fn two_decimals(hundredths: nat) -> Seq<char> {
    numeral(hundredths / 100) + seq![
        '.',
        digit((hundredths % 100 / 10) as int),
        digit((hundredths % 10) as int),
    ]
}

/// The text of a size in bytes: the gigabytes with two decimals, behind a
/// `-` where the size is negative.
pub open spec fn gigabytes(bytes: int) -> Seq<char> {
    if bytes < 0 {
        seq!['-'] + two_decimals(hundredths_of_gb((-bytes) as nat)) + " GB"@
    } else {
        two_decimals(hundredths_of_gb(bytes as nat)) + " GB"@
    }
}

/// The integer nearest to `num / den`.
pub fn nearest_to(num: u128, den: u128) -> (q: u128)
    requires
        den > 0,
        num < u128::MAX,
    ensures
        q == nearest(num as nat, den as nat),
        q <= num / den + 1,
{
    let whole = num / den;
    let rest = num % den;
    if rest > den - rest || (rest == den - rest && whole % 2 == 1) {
        whole + 1
    } else {
        whole
    }
}

/// The binary64 number nearest to `n`.
pub fn to_binary64(n: u64) -> (size: u128)
    ensures
        size == nearest_binary64(n as nat),
        size <= n + 0x1000,
{
    let mut unit: u128 = 1;
    let mut top: u128 = n as u128;
    while top >= EXACT
        invariant
            1 <= unit,
            top * unit <= n,
            unit == 1 || top >= 0x10_0000_0000_0000,
            spacing(n as nat) == unit * spacing(top as nat),
        decreases top,
    {
        proof {
            let half = top / 2;
            assert(unit < 0x800) by (nonlinear_arith)
                requires
                    top >= 0x20_0000_0000_0000,
                    top * unit <= n,
                    n <= 0xffff_ffff_ffff_ffff,
                    unit >= 1,
            ;
            assert(half * (2 * unit) <= top * unit) by (nonlinear_arith)
                requires
                    2 * half <= top,
                    unit >= 1,
            ;
            assert(unit * (2 * spacing(half as nat)) == (2 * unit) * spacing(half as nat))
                by (nonlinear_arith);
        }
        top = top / 2;
        unit = unit * 2;
    }
    proof {
        assert(unit <= 0x1000) by (nonlinear_arith)
            requires
                top * unit <= n,
                n <= 0xffff_ffff_ffff_ffff,
                unit >= 1,
                top >= 0x10_0000_0000_0000 || unit == 1,
        ;
    }
    let whole = nearest_to(n as u128, unit);
    proof {
        assert(spacing(n as nat) == unit) by (nonlinear_arith)
            requires
                spacing(n as nat) == unit * spacing(top as nat),
                spacing(top as nat) == 1,
        ;
        assert((n as u128 / unit) * unit <= n) by (nonlinear_arith)
            requires
                unit >= 1,
        ;
        assert(whole * unit <= n + unit) by (nonlinear_arith)
            requires
                whole <= n as u128 / unit + 1,
                (n as u128 / unit) * unit <= n,
                unit >= 1,
        ;
    }
    whole * unit
}

/// A size in bytes as hundredths of a gigabyte.
pub fn to_hundredths(bytes: u64) -> (hundredths: u128)
    ensures
        hundredths == hundredths_of_gb(bytes as nat),
{
    let size = to_binary64(bytes);
    let mut scale: u128 = 1;
    let mut scaled: u128 = size;
    while scaled != 0 && scaled < SCALED
        invariant
            1 <= scale,
            scaled == size * scale,
            scaled < 2 * SCALED,
            scale <= scaled || scaled == 0,
            scaling(size as nat) == scale * scaling(scaled as nat),
        decreases 2 * SCALED - scaled,
    {
        proof {
            assert(size * (2 * scale) == 2 * (size * scale)) by (nonlinear_arith);
            assert(scale * (2 * scaling((2 * scaled) as nat)) == (2 * scale) * scaling(
                (2 * scaled) as nat,
            )) by (nonlinear_arith);
        }
        scaled = 2 * scaled;
        scale = 2 * scale;
    }
    let quotient = nearest_to(scaled, GIGA);
    proof {
        assert(scaling(size as nat) == scale) by (nonlinear_arith)
            requires
                scaling(size as nat) == scale * scaling(scaled as nat),
                scaling(scaled as nat) == 1,
        ;
    }
    nearest_to(100 * quotient, scale)
}

/// Appends the text of a size in bytes to `out`.
pub fn push_gigabytes(out: &mut String, bytes: i64)
    ensures
        final(out)@ == old(out)@ + gigabytes(bytes as int),
{
    let size = magnitude(bytes);
    let hundredths = to_hundredths(size);
    if bytes < 0 {
        out.push('-');
    }
    push_numeral(out, hundredths / 100);
    out.push('.');
    push_numeral(out, hundredths % 100 / 10);
    push_numeral(out, hundredths % 10);
    out.append(" GB");
}

} // verus!
