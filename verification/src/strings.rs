//! Small verified string utilities: equality of string slices, decimal
//! rendering of integers, and the elapsed-time formatter used by run reports.

use vstd::prelude::*;
use vstd::string::StrSliceExecFns;
use vstd::string::StringExecFns;

verus! {

/// Whether two string slices hold the same characters.
pub fn str_eq(a: &str, b: &str) -> (r: bool)
    ensures
        r == (a@ == b@),
{
    let sa = String::from_str(a);
    let sb = String::from_str(b);
    sa == sb
}

/// The character for one decimal digit.
pub open spec fn digit_char(d: nat) -> char {
    if d == 0 {
        '0'
    } else if d == 1 {
        '1'
    } else if d == 2 {
        '2'
    } else if d == 3 {
        '3'
    } else if d == 4 {
        '4'
    } else if d == 5 {
        '5'
    } else if d == 6 {
        '6'
    } else if d == 7 {
        '7'
    } else if d == 8 {
        '8'
    } else {
        '9'
    }
}

/// The decimal rendering of a natural number, most significant digit first,
/// with no leading zeros (a lone zero for 0).
pub open spec fn spec_decimal(n: nat) -> Seq<char>
    decreases n,
{
    if n < 10 {
        seq![digit_char(n)]
    } else {
        spec_decimal(n / 10).push(digit_char(n % 10))
    }
}

fn digit_str(d: u64) -> (r: &'static str)
    requires
        d < 10,
    ensures
        r@ == seq![digit_char(d as nat)],
{
    proof {
        reveal_strlit("0");
        reveal_strlit("1");
        reveal_strlit("2");
        reveal_strlit("3");
        reveal_strlit("4");
        reveal_strlit("5");
        reveal_strlit("6");
        reveal_strlit("7");
        reveal_strlit("8");
        reveal_strlit("9");
    }
    let r: &'static str = if d == 0 {
        "0"
    } else if d == 1 {
        "1"
    } else if d == 2 {
        "2"
    } else if d == 3 {
        "3"
    } else if d == 4 {
        "4"
    } else if d == 5 {
        "5"
    } else if d == 6 {
        "6"
    } else if d == 7 {
        "7"
    } else if d == 8 {
        "8"
    } else {
        "9"
    };
    proof {
        assert(r@ =~= seq![digit_char(d as nat)]);
    }
    r
}

/// Renders an integer in decimal.
pub fn u64_to_decimal(n: u64) -> (r: String)
    ensures
        r@ == spec_decimal(n as nat),
    decreases n,
{
    if n < 10 {
        String::from_str(digit_str(n))
    } else {
        let mut s = u64_to_decimal(n / 10);
        s.append(digit_str(n % 10));
        s
    }
}

/// The decimal rendering of a number below 1000, padded with zeros to
/// exactly three digits.
pub open spec fn spec_pad3(n: nat) -> Seq<char> {
    if n < 10 {
        ("00")@ + spec_decimal(n)
    } else if n < 100 {
        ("0")@ + spec_decimal(n)
    } else {
        spec_decimal(n)
    }
}

fn pad3(n: u64) -> (r: String)
    requires
        n < 1000,
    ensures
        r@ == spec_pad3(n as nat),
{
    if n < 10 {
        let mut s = String::from_str("00");
        let d = u64_to_decimal(n);
        s.append(d.as_str());
        s
    } else if n < 100 {
        let mut s = String::from_str("0");
        let d = u64_to_decimal(n);
        s.append(d.as_str());
        s
    } else {
        u64_to_decimal(n)
    }
}

/// The human-readable form of an elapsed time, given in milliseconds:
/// `"2h 3m 4s"` above an hour, `"3m 4s"` above a minute, `"4.056s"` below.
pub open spec fn spec_format_elapsed(total_millis: nat) -> Seq<char> {
    let seconds = total_millis / 1000;
    let millis = total_millis % 1000;
    let minutes = seconds / 60;
    let hours = minutes / 60;
    let seconds_remainder = seconds % 60;
    let minutes_remainder = minutes % 60;
    if hours > 0 {
        spec_decimal(hours) + ("h ")@ + spec_decimal(minutes_remainder) + ("m ")@ + spec_decimal(
            seconds_remainder,
        ) + ("s")@
    } else if minutes > 0 {
        spec_decimal(minutes) + ("m ")@ + spec_decimal(seconds_remainder) + ("s")@
    } else {
        spec_decimal(seconds) + (".")@ + spec_pad3(millis) + ("s")@
    }
}

/// Formats an elapsed wall-clock time, given in milliseconds, the way run
/// reports print it.
pub fn format_elapsed(total_millis: u64) -> (r: String)
    ensures
        r@ == spec_format_elapsed(total_millis as nat),
{
    let seconds: u64 = total_millis / 1000;
    let millis: u64 = total_millis % 1000;
    let minutes: u64 = seconds / 60;
    let hours: u64 = minutes / 60;
    let seconds_remainder: u64 = seconds % 60;
    let minutes_remainder: u64 = minutes % 60;
    if hours > 0 {
        let mut s = u64_to_decimal(hours);
        s.append("h ");
        let m = u64_to_decimal(minutes_remainder);
        s.append(m.as_str());
        s.append("m ");
        let sec = u64_to_decimal(seconds_remainder);
        s.append(sec.as_str());
        s.append("s");
        s
    } else if minutes > 0 {
        let mut s = u64_to_decimal(minutes);
        s.append("m ");
        let sec = u64_to_decimal(seconds_remainder);
        s.append(sec.as_str());
        s.append("s");
        s
    } else {
        let mut s = u64_to_decimal(seconds);
        s.append(".");
        let p = pad3(millis);
        s.append(p.as_str());
        s.append("s");
        s
    }
}

} // verus!
