//! Rendering a nanosecond total as `"<seconds>.<millis> seconds"`, with
//! the milliseconds zero-padded to three digits.

use vstd::prelude::*;

verus! {

/// The decimal digit character for `d` (`d < 10`).
pub open spec fn digit_char(d: nat) -> char {
    if d == 0 {
        '0'
    } else if d == 1 {
        '1'
    } else if d == 2 {
        '2'
    } else if d == 3 {
        '3'
    } else if d == 4 {
        '4'
    } else if d == 5 {
        '5'
    } else if d == 6 {
        '6'
    } else if d == 7 {
        '7'
    } else if d == 8 {
        '8'
    } else {
        '9'
    }
}

/// The decimal rendering of `n`, without leading zeroes (a single `'0'`
/// for zero itself).
pub open spec fn dec_seq(n: nat) -> Seq<char>
    decreases n,
{
    if n < 10 {
        seq![digit_char(n)]
    } else {
        dec_seq(n / 10) + seq![digit_char(n % 10)]
    }
}

/// The decimal rendering of `n < 1000`, zero-padded to three digits.
pub open spec fn pad3_seq(n: nat) -> Seq<char> {
    if n < 10 {
        seq!['0', '0'] + dec_seq(n)
    } else if n < 100 {
        seq!['0'] + dec_seq(n)
    } else {
        dec_seq(n)
    }
}

/// A nanosecond total as the harness prints it: whole seconds, a dot,
/// the milliseconds of the fractional second padded to three digits, and
/// the word `seconds`.
pub open spec fn spec_render_ns(total: u64) -> Seq<char> {
    dec_seq((total / 1_000_000_000) as nat) + "."@ + pad3_seq(
        (((total % 1_000_000_000) / 1_000_000) as nat),
    ) + " seconds"@
}

fn digit_str(d: u64) -> (r: &'static str)
    requires
        d < 10,
    ensures
        r@ == seq![digit_char(d as nat)],
{
    proof {
        reveal_strlit("0");
        reveal_strlit("1");
        reveal_strlit("2");
        reveal_strlit("3");
        reveal_strlit("4");
        reveal_strlit("5");
        reveal_strlit("6");
        reveal_strlit("7");
        reveal_strlit("8");
        reveal_strlit("9");
        assert("0"@ =~= seq![digit_char(0)]);
        assert("1"@ =~= seq![digit_char(1)]);
        assert("2"@ =~= seq![digit_char(2)]);
        assert("3"@ =~= seq![digit_char(3)]);
        assert("4"@ =~= seq![digit_char(4)]);
        assert("5"@ =~= seq![digit_char(5)]);
        assert("6"@ =~= seq![digit_char(6)]);
        assert("7"@ =~= seq![digit_char(7)]);
        assert("8"@ =~= seq![digit_char(8)]);
        assert("9"@ =~= seq![digit_char(9)]);
    }
    match d {
        0 => "0",
        1 => "1",
        2 => "2",
        3 => "3",
        4 => "4",
        5 => "5",
        6 => "6",
        7 => "7",
        8 => "8",
        _ => "9",
    }
}

/// The decimal rendering of `n`, as `dec_seq` states it.
pub fn u64_to_string(n: u64) -> (r: String)
    ensures
        r@ == dec_seq(n as nat),
    decreases n,
{
    if n < 10 {
        String::from_str(digit_str(n))
    } else {
        proof {
            assert(n / 10 < n) by (nonlinear_arith)
                requires
                    n >= 10,
            ;
        }
        let mut s = u64_to_string(n / 10);
        s.append(digit_str(n % 10));
        s
    }
}

/// The three-digit rendering of `n < 1000`, as `pad3_seq` states it.
pub fn pad3_to_string(n: u64) -> (r: String)
    requires
        n < 1000,
    ensures
        r@ == pad3_seq(n as nat),
{
    proof {
        reveal_strlit("00");
        reveal_strlit("0");
        assert("00"@ =~= seq!['0', '0']);
        assert("0"@ =~= seq!['0']);
    }
    if n < 10 {
        let mut s = String::from_str("00");
        let d = u64_to_string(n);
        s.append(d.as_str());
        s
    } else if n < 100 {
        let mut s = String::from_str("0");
        let d = u64_to_string(n);
        s.append(d.as_str());
        s
    } else {
        u64_to_string(n)
    }
}

/// Renders a nanosecond total as `spec_render_ns` states it.
pub fn render_ns(total: u64) -> (r: String)
    ensures
        r@ == spec_render_ns(total),
{
    let secs = total / 1_000_000_000;
    let sub_millis = (total % 1_000_000_000) / 1_000_000;
    proof {
        assert(sub_millis < 1000) by (nonlinear_arith)
            requires
                sub_millis == (total % 1_000_000_000) / 1_000_000,
                total % 1_000_000_000 < 1_000_000_000,
        ;
    }
    let mut s = u64_to_string(secs);
    s.append(".");
    let m = pad3_to_string(sub_millis);
    s.append(m.as_str());
    s.append(" seconds");
    s
}

} // verus!
