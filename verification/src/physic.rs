//! Physical quantities in fixed nano units, and their display strings.
//!
//! Each quantity is an `i64` count of nano units, so that arithmetic stays
//! exact. `nanoAsString` renders such a count with an SI prefix and at most
//! three fractional digits, rounding half up.

#![allow(non_upper_case_globals)]
#![allow(non_snake_case)]

use vstd::prelude::*;
use vstd::string::{StrSliceExecFns, StringExecFns};

verus! {

/// A measurement of a flow of electric charge stored as an int64 nano Ampere.
pub type ElectricCurrent = i64;

/// One nano Ampere.
pub const NanoAmpere: ElectricCurrent = 1;

/// One micro Ampere.
pub const MicroAmpere: ElectricCurrent = 1000 * NanoAmpere;

/// One milli Ampere.
pub const MilliAmpere: ElectricCurrent = 1000 * MicroAmpere;

/// One Ampere.
pub const Ampere: ElectricCurrent = 1000 * MilliAmpere;

/// One kilo Ampere.
pub const KiloAmpere: ElectricCurrent = 1000 * Ampere;

/// One mega Ampere.
pub const MegaAmpere: ElectricCurrent = 1000 * KiloAmpere;

/// One giga Ampere.
pub const GigaAmpere: ElectricCurrent = 1000 * MegaAmpere;

/// A measurement of electric potential stored as an int64 nano Volt.
pub type ElectricPotential = i64;

/// One nano Volt.
pub const NanoVolt: ElectricPotential = 1;

/// One micro Volt.
pub const MicroVolt: ElectricPotential = 1000 * NanoVolt;

/// One milli Volt.
pub const MilliVolt: ElectricPotential = 1000 * MicroVolt;

/// One Volt: W/A, kg⋅m²/s³/A.
pub const Volt: ElectricPotential = 1000 * MilliVolt;

/// One kilo Volt.
pub const KiloVolt: ElectricPotential = 1000 * Volt;

/// One mega Volt.
pub const MegaVolt: ElectricPotential = 1000 * KiloVolt;

/// One giga Volt.
pub const GigaVolt: ElectricPotential = 1000 * MegaVolt;

/// A measurement of the difficulty to pass an electric current through a
/// conductor stored as an int64 nano Ohm.
pub type ElectricResistance = i64;

/// One nano Ohm.
pub const NanoOhm: ElectricResistance = 1;

/// One micro Ohm.
pub const MicroOhm: ElectricResistance = 1000 * NanoOhm;

/// One milli Ohm.
pub const MilliOhm: ElectricResistance = 1000 * MicroOhm;

/// One Ohm: V/A, kg⋅m²/s³/A².
pub const Ohm: ElectricResistance = 1000 * MilliOhm;

/// One kilo Ohm.
pub const KiloOhm: ElectricResistance = 1000 * Ohm;

/// One mega Ohm.
pub const MegaOhm: ElectricResistance = 1000 * KiloOhm;

/// One giga Ohm.
pub const GigaOhm: ElectricResistance = 1000 * MegaOhm;

/// A measurement of power stored as an int64 nano Watt.
pub type Power = i64;

/// One nano Watt.
pub const NanoWatt: Power = 1;

/// One micro Watt.
pub const MicroWatt: Power = 1000 * NanoWatt;

/// One milli Watt.
pub const MilliWatt: Power = 1000 * MicroWatt;

/// One Watt: J/s, kg⋅m²⋅s⁻³.
pub const Watt: Power = 1000 * MilliWatt;

/// One kilo Watt.
pub const KiloWatt: Power = 1000 * Watt;

/// One mega Watt.
pub const MegaWatt: Power = 1000 * KiloWatt;

/// One giga Watt.
pub const GigaWatt: Power = 1000 * MegaWatt;

/// The character for one decimal digit.
pub open spec fn spec_digit_char(d: nat) -> char {
    if d == 0 {
        '0'
    } else if d == 1 {
        '1'
    } else if d == 2 {
        '2'
    } else if d == 3 {
        '3'
    } else if d == 4 {
        '4'
    } else if d == 5 {
        '5'
    } else if d == 6 {
        '6'
    } else if d == 7 {
        '7'
    } else if d == 8 {
        '8'
    } else {
        '9'
    }
}

/// The decimal digits of a number, most significant first.
pub open spec fn spec_dec_digits(n: nat) -> Seq<char>
    decreases n,
{
    if n < 10 {
        seq![spec_digit_char(n)]
    } else {
        spec_dec_digits(n / 10) + seq![spec_digit_char(n % 10)]
    }
}

/// Ten to the k-th power.
pub open spec fn spec_pow10(k: nat) -> nat
    decreases k,
{
    if k == 0 {
        1
    } else {
        10 * spec_pow10((k - 1) as nat)
    }
}

/// A number below the k-th power of ten has at most k decimal digits.
pub proof fn lemma_dec_digits_len(n: nat, k: nat)
    requires
        1 <= k,
        n < spec_pow10(k),
    ensures
        1 <= spec_dec_digits(n).len() <= k,
    decreases n,
{
    if n < 10 {
    } else {
        if k == 1 {
            assert(spec_pow10(1) == 10) by {
                reveal_with_fuel(spec_pow10, 2);
            }
            assert(false);
        }
        let p = spec_pow10((k - 1) as nat);
        assert(spec_pow10(k) == 10 * p);
        vstd::arithmetic::div_mod::lemma_div_is_ordered(n as int, 10 * p - 1, 10);
        vstd::arithmetic::div_mod::lemma_fundamental_div_mod_converse(10 * p - 1, 10, p - 1, 9);
        lemma_dec_digits_len(n / 10, (k - 1) as nat);
    }
}

/// The sequence padded with zeros on the left until it is `digits` long.
pub open spec fn spec_pad_zeros(digits: int, s: Seq<char>) -> Seq<char>
    decreases digits - s.len(),
{
    if s.len() >= digits {
        s
    } else {
        spec_pad_zeros(digits, seq!['0'] + s)
    }
}

/// The decimal string of a 32-bit value, with a leading minus sign when it is
/// negative.
pub open spec fn spec_i32_string(v: i32) -> Seq<char> {
    if v < 0 {
        seq!['-'] + spec_dec_digits((-(v as int)) as nat)
    } else {
        spec_dec_digits(v as nat)
    }
}

/// One decimal digit as a string slice.
fn digit_str(d: u64) -> (s: &'static str)
    requires
        d < 10,
    ensures
        s@ =~= seq![spec_digit_char(d as nat)],
{
    if d == 0 {
        proof {
            reveal_strlit("0");
        }
        "0"
    } else if d == 1 {
        proof {
            reveal_strlit("1");
        }
        "1"
    } else if d == 2 {
        proof {
            reveal_strlit("2");
        }
        "2"
    } else if d == 3 {
        proof {
            reveal_strlit("3");
        }
        "3"
    } else if d == 4 {
        proof {
            reveal_strlit("4");
        }
        "4"
    } else if d == 5 {
        proof {
            reveal_strlit("5");
        }
        "5"
    } else if d == 6 {
        proof {
            reveal_strlit("6");
        }
        "6"
    } else if d == 7 {
        proof {
            reveal_strlit("7");
        }
        "7"
    } else if d == 8 {
        proof {
            reveal_strlit("8");
        }
        "8"
    } else {
        proof {
            reveal_strlit("9");
        }
        "9"
    }
}

/// Append the decimal digits of `n` to the string.
fn append_dec(s: &mut String, n: u64)
    ensures
        final(s)@ == old(s)@ + spec_dec_digits(n as nat),
    decreases n,
{
    if n >= 10 {
        append_dec(s, n / 10);
    }
    s.append(digit_str(n % 10));
    proof {
        if n >= 10 {
            assert(final(s)@ =~= old(s)@ + spec_dec_digits(n as nat));
        } else {
            assert(final(s)@ =~= old(s)@ + spec_dec_digits(n as nat));
        }
    }
}

/// The decimal string of an unsigned 64-bit value.
fn u64_string(n: u64) -> (r: String)
    ensures
        r@ == spec_dec_digits(n as nat),
{
    let mut s = String::new();
    append_dec(&mut s, n);
    proof {
        assert(s@ =~= spec_dec_digits(n as nat));
    }
    s
}

/// The decimal string of a signed 32-bit value.
fn i32_string(v: i32) -> (r: String)
    ensures
        r@ == spec_i32_string(v),
{
    if v < 0 {
        let magnitude: u64 = (-(v as i64)) as u64;
        let mut s = String::new();
        proof {
            reveal_strlit("-");
        }
        s.append("-");
        append_dec(&mut s, magnitude);
        proof {
            assert(s@ =~= spec_i32_string(v));
        }
        s
    } else {
        u64_string(v as u64)
    }
}

/// The decimal string of `v`, padded with zeros on the left until it is at
/// least `digits` characters long.
pub fn prefixZeros(digits: i32, v: i32) -> (r: String)
    ensures
        r@ == spec_pad_zeros(digits as int, spec_i32_string(v)),
{
    let mut s = i32_string(v);
    proof {
        assert(spec_pow10(10) == 10_000_000_000) by {
            reveal_with_fuel(spec_pow10, 11);
        }
        if v < 0 {
            lemma_dec_digits_len((-(v as int)) as nat, 10);
        } else {
            lemma_dec_digits_len(v as nat, 10);
        }
    }
    let mut str_len: i32 = s.as_str().unicode_len() as i32;

    while str_len < digits
        invariant
            str_len as int == s@.len(),
            spec_pad_zeros(digits as int, s@) == spec_pad_zeros(digits as int, spec_i32_string(v)),
        decreases digits - str_len,
    {
        proof {
            reveal_strlit("0");
        }
        let mut padded = String::from_str("0");
        padded.append(s.as_str());
        proof {
            assert(padded@ =~= seq!['0'] + s@);
        }
        s = padded;
        str_len = str_len + 1;
    }
    s
}

/// The rendering of a positive nano count at one SI prefix: the count is
/// divided down to the prefix with round-half-up, and split into an integer
/// part and three fractional digits.
pub open spec fn spec_scaled_string(m: int, div: int, half: int, unit: Seq<char>) -> Seq<char> {
    let base0 = m / div + if m % div > half {
        1int
    } else {
        0int
    };
    let frac = base0 % 1000;
    let base = base0 / 1000;
    if frac == 0 {
        spec_dec_digits(base as nat) + unit
    } else {
        spec_dec_digits(base as nat) + seq!['.'] + spec_pad_zeros(3, spec_dec_digits(frac as nat))
            + unit
    }
}

/// The rendering of a positive nano count: the SI prefix is picked by
/// magnitude, with thresholds placed so that a count rounding up to the next
/// prefix is already rendered there.
pub open spec fn spec_nano_magnitude(m: int) -> Seq<char> {
    if m >= 999_999_500_000_000_001 {
        spec_scaled_string(m, 1_000_000_000_000_000, 500_000_000_000_000, seq!['G'])
    } else if m >= 999_999_500_000_001 {
        spec_scaled_string(m, 1_000_000_000_000, 500_000_000_000, seq!['M'])
    } else if m >= 999_999_500_001 {
        spec_scaled_string(m, 1_000_000_000, 500_000_000, seq!['k'])
    } else if m >= 999_999_501 {
        spec_scaled_string(m, 1_000_000, 500_000, Seq::<char>::empty())
    } else if m >= 1_000_000 {
        spec_scaled_string(m, 1_000, 500, seq!['m'])
    } else if m >= 1_000 {
        let base = m / 1000;
        let frac = m % 1000;
        if frac == 0 {
            spec_dec_digits(base as nat) + seq!['µ']
        } else {
            spec_dec_digits(base as nat) + seq!['.'] + spec_pad_zeros(
                3,
                spec_dec_digits(frac as nat),
            ) + seq!['µ']
        }
    } else {
        spec_dec_digits(m as nat) + seq!['n']
    }
}

/// The rendering of a nano count: "0" for zero, else the magnitude's
/// rendering behind the sign. The most negative count is treated as its
/// neighbour, which the three-digit rounding hides.
pub open spec fn spec_nano_string(v: i64) -> Seq<char> {
    if v == 0 {
        seq!['0']
    } else if v < 0 {
        seq!['-'] + spec_nano_magnitude(
            if v == i64::MIN {
                -((v as int) + 1)
            } else {
                -(v as int)
            },
        )
    } else {
        spec_nano_magnitude(v as int)
    }
}

/// Split a positive nano count at one SI prefix into its integer part and
/// its three fractional digits, rounding half up.
fn scaled_parts(m: i64, div: i64, half: i64) -> (r: (i64, i64))
    requires
        0 < m,
        1000 <= div,
        0 <= half < div,
    ensures
        ({
            let base0 = m as int / div as int + if m as int % div as int > half {
                1int
            } else {
                0int
            };
            r.0 == base0 / 1000 && r.1 == base0 % 1000
        }),
{
    let precision = m % div;
    proof {
        vstd::arithmetic::div_mod::lemma_div_is_ordered_by_denominator(m as int, 1000, div as int);
    }
    let mut base: i64 = m / div;
    if precision > half {
        base = base + 1;
    }
    let frac = base % 1000;
    let base = base / 1000;
    (base, frac)
}

/// Render a nano count with an SI prefix and at most three fractional
/// digits, rounding half up: 1_500_000 nano becomes "1.500m".
#[verifier::rlimit(100)]
pub fn nanoAsString(v: i64) -> (r: String)
    ensures
        r@ == spec_nano_string(v),
{
    if v == 0 {
        proof {
            reveal_strlit("0");
        }
        let r = String::from_str("0");
        proof {
            assert(r@ =~= spec_nano_string(v));
        }
        return r;
    }
    let negative = v < 0;
    let m: i64 = if v < 0 {
        if v == i64::MIN {
            -(v + 1)
        } else {
            -v
        }
    } else {
        v
    };

    let base: i64;
    let frac: i64;
    let unit: &'static str;
    if m >= 999_999_500_000_000_001 {
        let parts = scaled_parts(m, 1_000_000_000_000_000, 500_000_000_000_000);
        base = parts.0;
        frac = parts.1;
        proof {
            reveal_strlit("G");
        }
        unit = "G";
    } else if m >= 999_999_500_000_001 {
        let parts = scaled_parts(m, 1_000_000_000_000, 500_000_000_000);
        base = parts.0;
        frac = parts.1;
        proof {
            reveal_strlit("M");
        }
        unit = "M";
    } else if m >= 999_999_500_001 {
        let parts = scaled_parts(m, 1_000_000_000, 500_000_000);
        base = parts.0;
        frac = parts.1;
        proof {
            reveal_strlit("k");
        }
        unit = "k";
    } else if m >= 999_999_501 {
        let parts = scaled_parts(m, 1_000_000, 500_000);
        base = parts.0;
        frac = parts.1;
        proof {
            reveal_strlit("");
        }
        unit = "";
    } else if m >= 1_000_000 {
        let parts = scaled_parts(m, 1_000, 500);
        base = parts.0;
        frac = parts.1;
        proof {
            reveal_strlit("m");
        }
        unit = "m";
    } else if m >= 1_000 {
        base = m / 1000;
        frac = m % 1000;
        proof {
            reveal_strlit("µ");
        }
        unit = "µ";
    } else {
        base = m;
        frac = 0;
        proof {
            reveal_strlit("n");
        }
        unit = "n";
    }

    let mut out = String::new();
    if negative {
        proof {
            reveal_strlit("-");
        }
        out.append("-");
    }
    append_dec(&mut out, base as u64);
    if frac != 0 {
        proof {
            reveal_strlit(".");
        }
        out.append(".");
        let pad = prefixZeros(3, frac as i32);
        out.append(pad.as_str());
    }
    out.append(unit);
    proof {
        assert(out@ =~= spec_nano_string(v));
    }
    out
}

} // verus!
