//! Unit formatters: token counts, currency amounts and elapsed times
//! rendered as compact human-readable strings with threshold-based scaling.
//!
//! Currency is held in ten-thousandths of a dollar, so the four decimal
//! places of the sub-thousand form are exact; rounding to coarser forms is
//! round-half-up. Elapsed times are held in whole milliseconds.

use vstd::prelude::*;
use vstd::string::StringExecFns;

verus! {

/// The decimal digit `d` as a character; meaningful for `d < 10`.
pub open spec fn digit_char(d: nat) -> char {
    if d == 0 {
        '0'
    } else if d == 1 {
        '1'
    } else if d == 2 {
        '2'
    } else if d == 3 {
        '3'
    } else if d == 4 {
        '4'
    } else if d == 5 {
        '5'
    } else if d == 6 {
        '6'
    } else if d == 7 {
        '7'
    } else if d == 8 {
        '8'
    } else {
        '9'
    }
}

/// The decimal representation of `n`, without leading zeros (except for
/// `n == 0`, which is `"0"`).
pub open spec fn dec_str(n: nat) -> Seq<char>
    decreases n,
{
    if n < 10 {
        seq![digit_char(n)]
    } else {
        dec_str(n / 10) + seq![digit_char(n % 10)]
    }
}

/// The last `width` decimal digits of `n`, zero-padded on the left.
pub open spec fn zero_pad(n: nat, width: nat) -> Seq<char>
    decreases width,
{
    if width <= 1 {
        seq![digit_char(n % 10)]
    } else {
        zero_pad(n / 10, (width - 1) as nat) + seq![digit_char(n % 10)]
    }
}

fn digit_str(d: u64) -> (r: &'static str)
    requires
        d < 10,
    ensures
        r@ == seq![digit_char(d as nat)],
{
    proof {
        reveal_strlit("0");
        reveal_strlit("1");
        reveal_strlit("2");
        reveal_strlit("3");
        reveal_strlit("4");
        reveal_strlit("5");
        reveal_strlit("6");
        reveal_strlit("7");
        reveal_strlit("8");
        reveal_strlit("9");
    }
    if d == 0 {
        proof { assert("0"@ =~= seq![digit_char(0)]); }
        "0"
    } else if d == 1 {
        proof { assert("1"@ =~= seq![digit_char(1)]); }
        "1"
    } else if d == 2 {
        proof { assert("2"@ =~= seq![digit_char(2)]); }
        "2"
    } else if d == 3 {
        proof { assert("3"@ =~= seq![digit_char(3)]); }
        "3"
    } else if d == 4 {
        proof { assert("4"@ =~= seq![digit_char(4)]); }
        "4"
    } else if d == 5 {
        proof { assert("5"@ =~= seq![digit_char(5)]); }
        "5"
    } else if d == 6 {
        proof { assert("6"@ =~= seq![digit_char(6)]); }
        "6"
    } else if d == 7 {
        proof { assert("7"@ =~= seq![digit_char(7)]); }
        "7"
    } else if d == 8 {
        proof { assert("8"@ =~= seq![digit_char(8)]); }
        "8"
    } else {
        proof { assert("9"@ =~= seq![digit_char(9)]); }
        "9"
    }
}

/// Renders `n` in decimal.
pub fn u64_to_dec(n: u64) -> (r: String)
    ensures
        r@ == dec_str(n as nat),
    decreases n,
{
    if n < 10 {
        let mut s = String::new();
        s.append(digit_str(n));
        proof { assert(s@ =~= dec_str(n as nat)); }
        s
    } else {
        let mut s = u64_to_dec(n / 10);
        s.append(digit_str(n % 10));
        s
    }
}

/// Renders the last `width` decimal digits of `n`, zero-padded.
pub fn u64_to_dec_pad(n: u64, width: u64) -> (r: String)
    requires
        1 <= width,
    ensures
        r@ == zero_pad(n as nat, width as nat),
    decreases width,
{
    if width == 1 {
        let mut s = String::new();
        s.append(digit_str(n % 10));
        proof { assert(s@ =~= zero_pad(n as nat, width as nat)); }
        s
    } else {
        let mut s = u64_to_dec_pad(n / 10, width - 1);
        s.append(digit_str(n % 10));
        s
    }
}

/// A token count `t` rendered per the scaling thresholds: below one
/// thousand, the bare integer; below one million, thousands with one
/// decimal place and a `k` suffix; otherwise millions with three decimal
/// places and an `m` suffix. Fractions are rounded half-up.
pub open spec fn spec_format_tokens(t: nat) -> Seq<char> {
    if t < 1000 {
        dec_str(t)
    } else if t < 1000000 {
        let tenths = (t + 50) / 100;
        dec_str(tenths / 10) + seq!['.', digit_char(tenths % 10), 'k']
    } else {
        let thousandths = t / 1000 + if t % 1000 >= 500 {
            1nat
        } else {
            0nat
        };
        dec_str(thousandths / 1000) + seq!['.'] + zero_pad(thousandths % 1000, 3) + seq!['m']
    }
}

/// Renders a token count with threshold-based scaling.
pub fn format_tokens(t: u64) -> (r: String)
    ensures
        r@ == spec_format_tokens(t as nat),
{
    proof {
        reveal_strlit(".");
        reveal_strlit("k");
        reveal_strlit("m");
    }
    if t < 1000 {
        u64_to_dec(t)
    } else if t < 1000000 {
        let tenths = (t + 50) / 100;
        let mut s = u64_to_dec(tenths / 10);
        s.append(".");
        s.append(digit_str(tenths % 10));
        s.append("k");
        proof { assert(s@ =~= spec_format_tokens(t as nat)); }
        s
    } else {
        let thousandths = t / 1000 + if t % 1000 >= 500 {
            1
        } else {
            0
        };
        let mut s = u64_to_dec(thousandths / 1000);
        s.append(".");
        let pad = u64_to_dec_pad(thousandths % 1000, 3);
        s.append(pad.as_str());
        s.append("m");
        proof { assert(s@ =~= spec_format_tokens(t as nat)); }
        s
    }
}

/// A currency amount rendered per the scaling thresholds. `units` is the
/// amount in ten-thousandths of a dollar. Below one thousand dollars the
/// form is `$` + dollars + `.` + four decimal places, exactly; at or above,
/// `$` + thousands of dollars with one decimal place (rounded half-up) +
/// `k`.
pub open spec fn spec_format_dollars(units: nat) -> Seq<char> {
    if units < 10000000 {
        seq!['$'] + dec_str(units / 10000) + seq!['.'] + zero_pad(units % 10000, 4)
    } else {
        let tenths = units / 1000000 + if units % 1000000 >= 500000 {
            1nat
        } else {
            0nat
        };
        seq!['$'] + dec_str(tenths / 10) + seq!['.', digit_char(tenths % 10), 'k']
    }
}

/// Renders a currency amount given in ten-thousandths of a dollar.
pub fn format_dollars(units: u64) -> (r: String)
    ensures
        r@ == spec_format_dollars(units as nat),
{
    proof {
        reveal_strlit("$");
        reveal_strlit(".");
        reveal_strlit("k");
    }
    if units < 10000000 {
        let mut s = String::new();
        s.append("$");
        let d = u64_to_dec(units / 10000);
        s.append(d.as_str());
        s.append(".");
        let pad = u64_to_dec_pad(units % 10000, 4);
        s.append(pad.as_str());
        proof { assert(s@ =~= spec_format_dollars(units as nat)); }
        s
    } else {
        let tenths = units / 1000000 + if units % 1000000 >= 500000 {
            1
        } else {
            0
        };
        let mut s = String::new();
        s.append("$");
        let d = u64_to_dec(tenths / 10);
        s.append(d.as_str());
        s.append(".");
        s.append(digit_str(tenths % 10));
        s.append("k");
        proof { assert(s@ =~= spec_format_dollars(units as nat)); }
        s
    }
}

/// What `humantime::format_duration` renders for a duration of `ms` whole
/// milliseconds: a coarse breakdown into years, days, hours, minutes,
/// seconds and milliseconds. The rendering is a function of the duration
/// alone.
pub uninterp spec fn human_duration_of(ms: nat) -> Seq<char>;

/// Relies on `humantime::format_duration`, whose `Display` output depends
/// only on the `Duration` value handed to it.
#[verifier::external_body]
fn format_long_duration(ms: u64) -> (r: String)
    ensures
        r@ == human_duration_of(ms as nat),
{
    humantime::format_duration(std::time::Duration::from_millis(ms)).to_string()
}

/// An elapsed time of `ms` milliseconds rendered per the scaling
/// thresholds: below one second, whole milliseconds + `ms`; below one
/// minute, seconds with two decimal places (rounded half-up) + `s`;
/// otherwise the coarse human-readable breakdown.
pub open spec fn spec_format_elapsed(ms: nat) -> Seq<char> {
    if ms < 1000 {
        dec_str(ms) + seq!['m', 's']
    } else if ms < 60000 {
        let centi = (ms + 5) / 10;
        dec_str(centi / 100) + seq!['.'] + zero_pad(centi % 100, 2) + seq!['s']
    } else {
        human_duration_of(ms)
    }
}

/// Renders an elapsed time given in whole milliseconds.
pub fn format_elapsed(ms: u64) -> (r: String)
    ensures
        r@ == spec_format_elapsed(ms as nat),
{
    proof {
        reveal_strlit("ms");
        reveal_strlit(".");
        reveal_strlit("s");
    }
    if ms < 1000 {
        let mut s = u64_to_dec(ms);
        s.append("ms");
        proof {
            assert("ms"@ =~= seq!['m', 's']);
            assert(s@ =~= spec_format_elapsed(ms as nat));
        }
        s
    } else if ms < 60000 {
        let centi = (ms + 5) / 10;
        let mut s = u64_to_dec(centi / 100);
        s.append(".");
        let pad = u64_to_dec_pad(centi % 100, 2);
        s.append(pad.as_str());
        s.append("s");
        proof { assert(s@ =~= spec_format_elapsed(ms as nat)); }
        s
    } else {
        format_long_duration(ms)
    }
}

/// Whether `c` is a decimal digit character.
pub open spec fn is_digit_char(c: char) -> bool {
    c == '0' || c == '1' || c == '2' || c == '3' || c == '4' || c == '5' || c == '6' || c == '7'
        || c == '8' || c == '9'
}

pub proof fn lemma_dec_str_digits(n: nat)
    ensures
        dec_str(n).len() >= 1,
        forall|i: int| 0 <= i < dec_str(n).len() ==> is_digit_char(#[trigger] dec_str(n)[i]),
    decreases n,
{
    if n >= 10 {
        lemma_dec_str_digits(n / 10);
    }
}

pub proof fn lemma_zero_pad_digits(n: nat, width: nat)
    requires
        width >= 1,
    ensures
        zero_pad(n, width).len() == width,
        forall|i: int| 0 <= i < width ==> is_digit_char(#[trigger] zero_pad(n, width)[i]),
    decreases width,
{
    if width > 1 {
        lemma_zero_pad_digits(n / 10, (width - 1) as nat);
    }
}

/// Law: every currency amount below one thousand dollars renders as `$`,
/// one or more digits, a point, and exactly four digits; every amount at
/// or above renders as `$`, one or more digits, a point, one digit, `k`.
pub proof fn lemma_dollars_shape(units: nat)
    ensures
        ({
            let s = spec_format_dollars(units);
            &&& s[0] == '$'
            &&& (units < 10000000 ==> {
                &&& s.len() >= 7
                &&& s[s.len() - 5] == '.'
                &&& (forall|i: int| 1 <= i < s.len() - 5 ==> is_digit_char(#[trigger] s[i]))
                &&& (forall|i: int| s.len() - 4 <= i < s.len() ==> is_digit_char(#[trigger] s[i]))
            })
            &&& (units >= 10000000 ==> {
                &&& s.len() >= 5
                &&& s[s.len() - 1] == 'k'
                &&& s[s.len() - 3] == '.'
                &&& is_digit_char(s[s.len() - 2])
                &&& (forall|i: int| 1 <= i < s.len() - 3 ==> is_digit_char(#[trigger] s[i]))
            })
        }),
{
    if units < 10000000 {
        lemma_dec_str_digits(units / 10000);
        lemma_zero_pad_digits(units % 10000, 4);
    } else {
        let tenths = units / 1000000 + if units % 1000000 >= 500000 {
            1nat
        } else {
            0nat
        };
        lemma_dec_str_digits(tenths / 10);
    }
}

/// Law: a token count below one thousand renders as bare digits; below one
/// million as digits, a point, one digit, `k`; at or above one million as
/// digits, a point, exactly three digits, `m`.
pub proof fn lemma_tokens_shape(t: nat)
    ensures
        ({
            let s = spec_format_tokens(t);
            &&& (t < 1000 ==> {
                &&& s.len() >= 1
                &&& (forall|i: int| 0 <= i < s.len() ==> is_digit_char(#[trigger] s[i]))
            })
            &&& (1000 <= t < 1000000 ==> {
                &&& s.len() >= 4
                &&& s[s.len() - 1] == 'k'
                &&& s[s.len() - 3] == '.'
                &&& is_digit_char(s[s.len() - 2])
                &&& (forall|i: int| 0 <= i < s.len() - 3 ==> is_digit_char(#[trigger] s[i]))
            })
            &&& (t >= 1000000 ==> {
                &&& s.len() >= 6
                &&& s[s.len() - 1] == 'm'
                &&& s[s.len() - 5] == '.'
                &&& (forall|i: int| s.len() - 4 <= i < s.len() - 1 ==> is_digit_char(
                    #[trigger] s[i],
                ))
                &&& (forall|i: int| 0 <= i < s.len() - 5 ==> is_digit_char(#[trigger] s[i]))
            })
        }),
{
    if t < 1000 {
        lemma_dec_str_digits(t);
    } else if t < 1000000 {
        let tenths = (t + 50) / 100;
        lemma_dec_str_digits(tenths / 10);
    } else {
        let thousandths = t / 1000 + if t % 1000 >= 500 {
            1nat
        } else {
            0nat
        };
        lemma_dec_str_digits(thousandths / 1000);
        lemma_zero_pad_digits(thousandths % 1000, 3);
    }
}

/// The annualized spending rate implied by spending `cost` (in
/// ten-thousandths of a dollar) over `ms` milliseconds, projected onto a
/// work year of 40 hours per week over 50 weeks: `cost / (ms / 1hr) *
/// 2000hr`, truncated. A zero duration yields a zero rate, and a rate
/// beyond the representable range saturates.
pub open spec fn spec_annualized(cost: nat, ms: nat) -> nat {
    if ms == 0 {
        0
    } else {
        let v = cost * 7200000000 / ms;
        if v > u64::MAX as nat {
            u64::MAX as nat
        } else {
            v
        }
    }
}

/// Computes the annualized spending rate, in ten-thousandths of a dollar
/// per year.
pub fn annualized_rate(cost_units: u64, ms: u64) -> (r: u64)
    ensures
        r as nat == spec_annualized(cost_units as nat, ms as nat),
{
    if ms == 0 {
        0
    } else {
        proof {
            assert((cost_units as u128) * 7200000000 <= (u64::MAX as u128) * 7200000000)
                by (nonlinear_arith)
                requires
                    cost_units <= u64::MAX,
            ;
        }
        let prod: u128 = (cost_units as u128) * 7200000000u128;
        let v: u128 = prod / (ms as u128);
        if v > u64::MAX as u128 {
            u64::MAX
        } else {
            v as u64
        }
    }
}

} // verus!

