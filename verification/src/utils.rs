//! Human-readable sizes and durations.

use vstd::prelude::*;
use vstd::string::*;
use crate::text::{decimal, digit_char, digit_str, push_decimal, push_signed_decimal, signed_decimal};

verus! {

pub const MINUTE: i64 = 60;

pub const HOUR: i64 = 3600;

pub const DAY: i64 = 86400;

pub const KB: i64 = 1024;

pub const MB: i64 = 1048576;

pub const GB: i64 = 1073741824;

pub const TB: i64 = 1099511627776;

/// How far below a unit a size may lie and still be shown in that unit.
pub const UNIT_SLACK: i64 = 25;

/// The integer nearest to `num / den`, the even one of the two where `num`
/// lies half-way between them.
pub open spec fn nearest_even(num: nat, den: nat) -> nat
    recommends
        den > 0,
{
    let q = num / den;
    let r = num % den;
    if 2 * r > den || (2 * r == den && q % 2 == 1) {
        q + 1
    } else {
        q
    }
}

/// The spacing of the numbers with 53 significant bits around `m`: 1 below
/// 2^53, doubling with every further power of two.
pub open spec fn binade_unit(m: nat) -> nat {
    if m < 0x20_0000_0000_0000 {
        1
    } else if m < 0x40_0000_0000_0000 {
        2
    } else if m < 0x80_0000_0000_0000 {
        4
    } else if m < 0x100_0000_0000_0000 {
        8
    } else if m < 0x200_0000_0000_0000 {
        16
    } else if m < 0x400_0000_0000_0000 {
        32
    } else if m < 0x800_0000_0000_0000 {
        64
    } else if m < 0x1000_0000_0000_0000 {
        128
    } else if m < 0x2000_0000_0000_0000 {
        256
    } else if m < 0x4000_0000_0000_0000 {
        512
    } else {
        1024
    }
}

/// `m` rounded to 53 significant bits, ties to even: the magnitude that a
/// double-precision number holds for it. Below 2^53 that is `m` itself.
pub open spec fn in_53_bits(m: nat) -> nat {
    nearest_even(m, binade_unit(m)) * binade_unit(m)
}

/// The unit a size is shown in, as its divisor: 1 for bytes. A size counts
/// for a unit from 25 bytes below it.
pub open spec fn unit_divisor(bytes: int) -> nat {
    if bytes < KB - UNIT_SLACK {
        1
    } else if bytes < MB - UNIT_SLACK {
        KB as nat
    } else if bytes < GB - UNIT_SLACK {
        MB as nat
    } else if bytes < TB - UNIT_SLACK {
        GB as nat
    } else {
        TB as nat
    }
}

/// The name of the unit with the given divisor.
pub open spec fn unit_name(divisor: nat) -> Seq<char> {
    if divisor == 1 {
        seq!['B']
    } else if divisor == KB as nat {
        seq!['K', 'B']
    } else if divisor == MB as nat {
        seq!['M', 'B']
    } else if divisor == GB as nat {
        seq!['G', 'B']
    } else {
        seq!['T', 'B']
    }
}

/// The text for a size: zero is "0 B"; any other size is its 53-bit magnitude
/// divided by its unit, rounded to one decimal (ties to even), then a space
/// and the unit. A negative size is shown in bytes with a minus sign.
pub open spec fn human_bytes(bytes: int) -> Seq<char> {
    if bytes == 0 {
        seq!['0', ' ', 'B']
    } else {
        let magnitude = in_53_bits((if bytes < 0 { -bytes } else { bytes }) as nat);
        let divisor = unit_divisor(bytes);
        let tenths = nearest_even(magnitude * 10, divisor);
        let sign = if bytes < 0 { seq!['-'] } else { Seq::<char>::empty() };
        sign + decimal(tenths / 10) + seq!['.', digit_char((tenths % 10) as int), ' ']
            + unit_name(divisor)
    }
}

/// The text for a duration in seconds. Zero is "0s". Otherwise days are
/// shown above one day, hours above one hour, minutes above one minute, each
/// followed by its letter, and the seconds left over come last. A duration of
/// exactly one unit is still counted in the next smaller one ("60s"), and a
/// negative one is shown as seconds.
pub open spec fn human_seconds(seconds: int) -> Seq<char> {
    if seconds == 0 {
        seq!['0', 's']
    } else {
        let days = if seconds > DAY {
            decimal((seconds / (DAY as int)) as nat).push('d')
        } else {
            Seq::<char>::empty()
        };
        let below_day = if seconds > DAY { seconds % (DAY as int) } else { seconds };
        let hours = if seconds > HOUR {
            decimal((below_day / (HOUR as int)) as nat).push('h')
        } else {
            Seq::<char>::empty()
        };
        let below_hour = if seconds > HOUR { seconds % (HOUR as int) } else { seconds };
        let minutes = if seconds > MINUTE {
            decimal((below_hour / (MINUTE as int)) as nat).push('m')
        } else {
            Seq::<char>::empty()
        };
        let below_minute = if seconds > MINUTE { seconds % (MINUTE as int) } else { seconds };
        days + hours + minutes + signed_decimal(below_minute).push('s')
    }
}

fn round_nearest_even(num: u128, den: u128) -> (r: u128)
    requires
        0 < den <= 0x1_0000_0000_0000_0000,
        num < 0x1_0000_0000_0000_0000_0000,
    ensures
        r == nearest_even(num as nat, den as nat),
{
    let q: u128 = num / den;
    let r: u128 = num % den;
    if 2 * r > den || (2 * r == den && q % 2 == 1) {
        q + 1
    } else {
        q
    }
}

fn binade_unit_of(m: u128) -> (u: u128)
    ensures
        u == binade_unit(m as nat),
        1 <= u <= 1024,
{
    if m < 0x20_0000_0000_0000 {
        1
    } else if m < 0x40_0000_0000_0000 {
        2
    } else if m < 0x80_0000_0000_0000 {
        4
    } else if m < 0x100_0000_0000_0000 {
        8
    } else if m < 0x200_0000_0000_0000 {
        16
    } else if m < 0x400_0000_0000_0000 {
        32
    } else if m < 0x800_0000_0000_0000 {
        64
    } else if m < 0x1000_0000_0000_0000 {
        128
    } else if m < 0x2000_0000_0000_0000 {
        256
    } else if m < 0x4000_0000_0000_0000 {
        512
    } else {
        1024
    }
}

fn unit_of(bytes: i64) -> (r: (u128, &'static str))
    ensures
        r.0 == unit_divisor(bytes as int),
        r.1@ == unit_name(r.0 as nat),
        1 <= r.0 <= TB,
{
    proof {
        reveal_strlit("B");
        reveal_strlit("KB");
        reveal_strlit("MB");
        reveal_strlit("GB");
        reveal_strlit("TB");
    }
    let r: (u128, &'static str) = if bytes < KB - UNIT_SLACK {
        (1, "B")
    } else if bytes < MB - UNIT_SLACK {
        (1024, "KB")
    } else if bytes < GB - UNIT_SLACK {
        (1048576, "MB")
    } else if bytes < TB - UNIT_SLACK {
        (1073741824, "GB")
    } else {
        (1099511627776, "TB")
    };
    assert(r.1@ =~= unit_name(r.0 as nat));
    r
}

/// Formats a size in bytes with one decimal and the unit it fits: B, KB, MB,
/// GB or TB, in steps of 1024.
pub fn bytes_to_human_format(bytes: i64) -> (text: String)
    ensures
        text@ == human_bytes(bytes as int),
{
    if bytes == 0 {
        proof {
            reveal_strlit("0 B");
        }
        let text = String::from_str("0 B");
        assert(text@ =~= human_bytes(0));
        return text;
    }
    let wide: i128 = bytes as i128;
    let size: u128 = if bytes < 0 { (-wide) as u128 } else { wide as u128 };
    let unit: u128 = binade_unit_of(size);
    let kept: u128 = round_nearest_even(size, unit);
    assert(kept * unit <= 0x1_0000_0000_0000_0000) by (nonlinear_arith)
        requires
            kept <= size / unit + 1,
            unit >= 1,
            unit <= 1024,
            size <= 0x8000_0000_0000_0000,
    ;
    let magnitude: u128 = kept * unit;
    let (divisor, name) = unit_of(bytes);
    let tenths: u128 = round_nearest_even(magnitude * 10, divisor);
    let mut text = String::new();
    if bytes < 0 {
        proof {
            reveal_strlit("-");
        }
        text.append("-");
    }
    push_decimal(&mut text, tenths / 10);
    proof {
        reveal_strlit(".");
        reveal_strlit(" ");
    }
    text.append(".");
    let last: u8 = (tenths % 10) as u8;
    text.append(digit_str(last));
    text.append(" ");
    text.append(name);
    assert(text@ =~= human_bytes(bytes as int));
    text
}

/// Formats a duration in seconds as days, hours, minutes and seconds, with
/// the larger units left out while the duration does not exceed them.
pub fn seconds_to_human_format(seconds: i64) -> (text: String)
    ensures
        text@ == human_seconds(seconds as int),
{
    if seconds == 0 {
        proof {
            reveal_strlit("0s");
        }
        let text = String::from_str("0s");
        assert(text@ =~= human_seconds(0));
        return text;
    }
    proof {
        reveal_strlit("d");
        reveal_strlit("h");
        reveal_strlit("m");
        reveal_strlit("s");
    }
    let mut text = String::new();
    let mut rest: i64 = seconds;
    if seconds > DAY {
        let days: i64 = rest / DAY;
        rest = rest % DAY;
        push_decimal(&mut text, days as u128);
        text.append("d");
    }
    let ghost below_day = rest;
    if seconds > HOUR {
        let hours: i64 = rest / HOUR;
        rest = rest % HOUR;
        push_decimal(&mut text, hours as u128);
        text.append("h");
    }
    assert(seconds > HOUR ==> rest == (seconds as int) % (HOUR as int)) by {
        if seconds > DAY {
            vstd::arithmetic::div_mod::lemma_mod_mod(seconds as int, 3600, 24);
        }
    }
    if seconds > MINUTE {
        let minutes: i64 = rest / MINUTE;
        rest = rest % MINUTE;
        push_decimal(&mut text, minutes as u128);
        text.append("m");
    }
    assert(seconds > MINUTE ==> rest == (seconds as int) % (MINUTE as int)) by {
        if seconds > HOUR {
            vstd::arithmetic::div_mod::lemma_mod_mod(seconds as int, 60, 60);
        }
    }
    push_signed_decimal(&mut text, rest);
    text.append("s");
    assert(text@ =~= human_seconds(seconds as int));
    text
}

} // verus!
