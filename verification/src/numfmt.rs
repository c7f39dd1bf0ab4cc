//! Decimal rendering of counters, durations, and token counts.
use vstd::prelude::*;

use crate::text::{push_char, push_str};

verus! {

/// The ASCII digit for `d` (`0 <= d < 10`).
pub open spec fn digit(d: nat) -> char
    recommends
        d < 10,
{
    ((d + 48) as u32) as char
}

/// The decimal representation of `n`, without leading zeros.
pub open spec fn decimal(n: nat) -> Seq<char>
    decreases n,
{
    if n < 10 {
        seq![digit(n)]
    } else {
        decimal(n / 10).push(digit(n % 10))
    }
}

/// The two-digit, zero-padded representation of `n < 100`.
pub open spec fn two_digits(n: nat) -> Seq<char> {
    if n < 10 {
        seq!['0'] + decimal(n)
    } else {
        decimal(n)
    }
}

fn digit_char(d: u64) -> (c: char)
    requires
        d < 10,
    ensures
        c == digit(d as nat),
{
    let b: u8 = (d + 48) as u8;
    b as char
}

/// Appends the decimal representation of `n` to `s`.
pub fn push_decimal(s: &mut String, n: u64)
    ensures
        final(s)@ == old(s)@ + decimal(n as nat),
    decreases n,
{
    if n >= 10 {
        push_decimal(s, n / 10);
    }
    push_char(s, digit_char(n % 10));
    proof {
        if n >= 10 {
            assert(decimal(n as nat) == decimal((n / 10) as nat).push(digit((n % 10) as nat)));
        }
    }
}

/// The decimal representation of `n` (`u64::to_string`).
pub fn decimal_string(n: u64) -> (out: String)
    ensures
        out@ == decimal(n as nat),
{
    let mut s = String::new();
    push_decimal(&mut s, n);
    s
}

/// The elapsed-time readout: `59s` under a minute, `2m 05s` beyond it.
pub open spec fn elapsed_text(secs: nat) -> Seq<char> {
    if secs < 60 {
        decimal(secs) + "s"@
    } else {
        decimal(secs / 60) + "m "@ + two_digits(secs % 60) + "s"@
    }
}

/// `59s` under a minute, `2m 05s` beyond it: the run indicator's elapsed
/// readout.
pub fn format_elapsed_secs(secs: u64) -> (out: String)
    ensures
        out@ == elapsed_text(secs as nat),
{
    let mut s = String::new();
    if secs < 60 {
        push_decimal(&mut s, secs);
        push_str(&mut s, "s");
    } else {
        push_decimal(&mut s, secs / 60);
        push_str(&mut s, "m ");
        let rem = secs % 60;
        if rem < 10 {
            push_char(&mut s, '0');
            proof {
                assert(seq!['0'] + decimal(rem as nat) == seq!['0'].add(decimal(rem as nat)));
            }
        }
        push_decimal(&mut s, rem);
        push_str(&mut s, "s");
        proof {
            if rem < 10 {
                assert(s@ == decimal((secs / 60) as nat) + "m "@ + (seq!['0'] + decimal(rem as nat)) + "s"@);
            }
        }
    }
    s
}

/// The compact token count: `999`, `1K`, `1.2K`, `128K` (one decimal of
/// thousands, dropped when it is zero).
pub open spec fn compact_tokens(tokens: nat) -> Seq<char> {
    if tokens >= 1000 {
        let whole = tokens / 1000;
        let tenth = (tokens % 1000) / 100;
        if tenth == 0 {
            decimal(whole) + "K"@
        } else {
            decimal(whole) + "."@ + decimal(tenth) + "K"@
        }
    } else {
        decimal(tokens)
    }
}

/// Render a token count compactly for the composer's context bar.
pub fn compact_token_count(tokens: usize) -> (out: String)
    ensures
        out@ == compact_tokens(tokens as nat),
{
    let t = tokens as u64;
    let mut s = String::new();
    if t >= 1000 {
        let whole = t / 1000;
        let tenth = (t % 1000) / 100;
        push_decimal(&mut s, whole);
        if tenth != 0 {
            push_str(&mut s, ".");
            push_decimal(&mut s, tenth);
        }
        push_str(&mut s, "K");
    } else {
        push_decimal(&mut s, t);
    }
    s
}

} // verus!
