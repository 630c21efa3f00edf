//! Durations as `days:hours:minutes:seconds`, each field in decimal and padded
//! with a zero to two digits.

use vstd::prelude::*;
use vstd::string::*;

verus! {

pub const SECONDS_PER_MINUTE: u64 = 60;

pub const SECONDS_PER_HOUR: u64 = 3600;

pub const SECONDS_PER_DAY: u64 = 86400;

/// The character of one decimal digit.
pub open spec fn digit_char(d: nat) -> char {
    if d == 0 {
        '0'
    } else if d == 1 {
        '1'
    } else if d == 2 {
        '2'
    } else if d == 3 {
        '3'
    } else if d == 4 {
        '4'
    } else if d == 5 {
        '5'
    } else if d == 6 {
        '6'
    } else if d == 7 {
        '7'
    } else if d == 8 {
        '8'
    } else {
        '9'
    }
}

/// `n` in decimal, most significant digit first, without leading zeros.
pub open spec fn decimal(n: nat) -> Seq<char>
    decreases n,
{
    if n < 10 {
        seq![digit_char(n)]
    } else {
        decimal(n / 10).push(digit_char(n % 10))
    }
}

/// `n` in decimal, with a leading zero where it has one digit only.
pub open spec fn two_digits(n: nat) -> Seq<char> {
    if n < 10 {
        seq!['0'] + decimal(n)
    } else {
        decimal(n)
    }
}

/// Whole days in `seconds`.
pub open spec fn days_of(seconds: nat) -> nat {
    seconds / 86400
}

/// Whole hours in `seconds` beyond the whole days.
pub open spec fn hours_of(seconds: nat) -> nat {
    (seconds % 86400) / 3600
}

/// Whole minutes in `seconds` beyond the whole hours.
pub open spec fn minutes_of(seconds: nat) -> nat {
    (seconds % 3600) / 60
}

/// Seconds beyond the whole minutes.
pub open spec fn seconds_of(seconds: nat) -> nat {
    seconds % 60
}

/// The text of a duration of `seconds` seconds.
pub open spec fn uptime_text(seconds: nat) -> Seq<char> {
    two_digits(days_of(seconds)) + seq![':'] + two_digits(hours_of(seconds)) + seq![':']
        + two_digits(minutes_of(seconds)) + seq![':'] + two_digits(seconds_of(seconds))
}

/// The four fields take `seconds` apart without loss: hours stay below 24,
/// minutes and seconds below 60, and together with the days they give
/// `seconds` back.
pub proof fn lemma_fields_make_up_the_seconds(seconds: nat)
    ensures
        hours_of(seconds) < 24,
        minutes_of(seconds) < 60,
        seconds_of(seconds) < 60,
        days_of(seconds) * 86400 + hours_of(seconds) * 3600 + minutes_of(seconds) * 60
            + seconds_of(seconds) == seconds,
{
}

/// A number in decimal has at least one character, and exactly two where it
/// lies from 10 to 99.
pub proof fn lemma_decimal_len(n: nat)
    ensures
        decimal(n).len() >= 1,
        n >= 10 ==> decimal(n).len() >= 2,
        10 <= n < 100 ==> decimal(n).len() == 2,
    decreases n,
{
    if n >= 10 {
        lemma_decimal_len(n / 10);
    }
}

/// The text of a duration has four fields of two characters with a colon
/// between them, eleven characters in all, as long as the days stay below
/// 100; it is never shorter.
pub proof fn lemma_uptime_text_len(seconds: nat)
    ensures
        uptime_text(seconds).len() >= 11,
        days_of(seconds) < 100 ==> uptime_text(seconds).len() == 11,
        days_of(seconds) < 100 ==> uptime_text(seconds)[2] == ':' && uptime_text(seconds)[5] == ':'
            && uptime_text(seconds)[8] == ':',
{
    lemma_fields_make_up_the_seconds(seconds);
    lemma_decimal_len(days_of(seconds));
    lemma_decimal_len(hours_of(seconds));
    lemma_decimal_len(minutes_of(seconds));
    lemma_decimal_len(seconds_of(seconds));
}

fn digit_str(d: u64) -> (s: &'static str)
    requires
        d < 10,
    ensures
        s@ == seq![digit_char(d as nat)],
{
    proof {
        reveal_strlit("0");
        reveal_strlit("1");
        reveal_strlit("2");
        reveal_strlit("3");
        reveal_strlit("4");
        reveal_strlit("5");
        reveal_strlit("6");
        reveal_strlit("7");
        reveal_strlit("8");
        reveal_strlit("9");
    }
    let s: &'static str = if d == 0 {
        "0"
    } else if d == 1 {
        "1"
    } else if d == 2 {
        "2"
    } else if d == 3 {
        "3"
    } else if d == 4 {
        "4"
    } else if d == 5 {
        "5"
    } else if d == 6 {
        "6"
    } else if d == 7 {
        "7"
    } else if d == 8 {
        "8"
    } else {
        "9"
    };
    assert(s@ =~= seq![digit_char(d as nat)]);
    s
}

fn push_decimal(out: &mut String, n: u64)
    ensures
        final(out)@ == old(out)@ + decimal(n as nat),
    decreases n,
{
    if n >= 10 {
        push_decimal(out, n / 10);
    }
    out.append(digit_str(n % 10));
    assert(out@ =~= old(out)@ + decimal(n as nat));
}

fn push_two_digits(out: &mut String, n: u64)
    ensures
        final(out)@ == old(out)@ + two_digits(n as nat),
{
    if n < 10 {
        out.append("0");
        proof {
            reveal_strlit("0");
        }
        assert("0"@ =~= seq!['0']);
    }
    push_decimal(out, n);
    assert(out@ =~= old(out)@ + two_digits(n as nat));
}

fn push_colon(out: &mut String)
    ensures
        final(out)@ == old(out)@ + seq![':'],
{
    out.append(":");
    proof {
        reveal_strlit(":");
    }
    assert(":"@ =~= seq![':']);
}

/// Writes `seconds` as days, hours, minutes and seconds.
pub fn format_uptime(seconds: u64) -> (text: String)
    ensures
        text@ == uptime_text(seconds as nat),
{
    let days: u64 = seconds / SECONDS_PER_DAY;
    let hours: u64 = (seconds % SECONDS_PER_DAY) / SECONDS_PER_HOUR;
    let minutes: u64 = (seconds % SECONDS_PER_HOUR) / SECONDS_PER_MINUTE;
    let secs: u64 = seconds % SECONDS_PER_MINUTE;

    let mut text = String::new();
    push_two_digits(&mut text, days);
    push_colon(&mut text);
    push_two_digits(&mut text, hours);
    push_colon(&mut text);
    push_two_digits(&mut text, minutes);
    push_colon(&mut text);
    push_two_digits(&mut text, secs);
    assert(text@ =~= uptime_text(seconds as nat));
    text
}

} // verus!
