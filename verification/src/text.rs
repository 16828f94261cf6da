//! Decimal rendering of integers and of elapsed-time values, used by the
//! status texts that the dispatcher surfaces to its caller.

use vstd::prelude::*;
use vstd::string::StringExecFns;

verus! {

/// The decimal digit character for `d` (meaningful for `0 <= d <= 9`).
pub open spec fn digit_char(d: int) -> char {
    if d == 0 {
        '0'
    } else if d == 1 {
        '1'
    } else if d == 2 {
        '2'
    } else if d == 3 {
        '3'
    } else if d == 4 {
        '4'
    } else if d == 5 {
        '5'
    } else if d == 6 {
        '6'
    } else if d == 7 {
        '7'
    } else if d == 8 {
        '8'
    } else {
        '9'
    }
}

/// The decimal rendering of `n`, without sign and without leading zeros
/// (a single `0` for zero).
pub open spec fn dec_str(n: nat) -> Seq<char>
    decreases n,
{
    if n < 10 {
        seq![digit_char(n as int)]
    } else {
        dec_str(n / 10).push(digit_char((n % 10) as int))
    }
}

/// The decimal rendering of a signed value: a leading `-` for negatives.
pub open spec fn int_dec_str(i: int) -> Seq<char> {
    if i < 0 {
        seq!['-'] + dec_str((-i) as nat)
    } else {
        dec_str(i as nat)
    }
}

fn digit_str(d: u64) -> (r: &'static str)
    requires
        d < 10,
    ensures
        r@ == seq![digit_char(d as int)],
{
    let r: &'static str = if d == 0 {
        "0"
    } else if d == 1 {
        "1"
    } else if d == 2 {
        "2"
    } else if d == 3 {
        "3"
    } else if d == 4 {
        "4"
    } else if d == 5 {
        "5"
    } else if d == 6 {
        "6"
    } else if d == 7 {
        "7"
    } else if d == 8 {
        "8"
    } else {
        "9"
    };
    proof {
        reveal_strlit("0");
        reveal_strlit("1");
        reveal_strlit("2");
        reveal_strlit("3");
        reveal_strlit("4");
        reveal_strlit("5");
        reveal_strlit("6");
        reveal_strlit("7");
        reveal_strlit("8");
        reveal_strlit("9");
        assert(r@ =~= seq![digit_char(d as int)]);
    }
    r
}

/// Appends the decimal rendering of `n` to `s`.
pub fn push_u64_dec(s: &mut String, n: u64)
    ensures
        final(s)@ == old(s)@ + dec_str(n as nat),
    decreases n,
{
    if n < 10 {
        s.append(digit_str(n));
        proof {
            assert(final(s)@ =~= old(s)@ + dec_str(n as nat));
        }
    } else {
        push_u64_dec(s, n / 10);
        s.append(digit_str(n % 10));
        proof {
            assert(final(s)@ =~= old(s)@ + dec_str(n as nat));
        }
    }
}

/// The decimal rendering of `n` as an owned string.
pub fn u64_dec(n: u64) -> (r: String)
    ensures
        r@ == dec_str(n as nat),
{
    let mut s = String::new();
    push_u64_dec(&mut s, n);
    proof {
        assert(s@ =~= dec_str(n as nat));
    }
    s
}

/// The decimal rendering of `i`, with a `-` sign for negatives.
pub fn i16_dec(i: i16) -> (r: String)
    ensures
        r@ == int_dec_str(i as int),
{
    if i < 0 {
        let mut s = String::new();
        s.append("-");
        let m: i64 = -(i as i64);
        push_u64_dec(&mut s, m as u64);
        proof {
            reveal_strlit("-");
            assert(s@ =~= int_dec_str(i as int));
        }
        s
    } else {
        let mut s = String::new();
        push_u64_dec(&mut s, i as u64);
        proof {
            assert(s@ =~= int_dec_str(i as int));
        }
        s
    }
}

/// How an elapsed time of `t` seconds is rendered: seconds alone under a
/// minute, then minute/second, hour/minute/second and day/hour/minute/second
/// decompositions.
pub open spec fn spent_time_str(t: nat) -> Seq<char> {
    if t < 60 {
        dec_str(t) + " sec"@
    } else if t < 3600 {
        dec_str(t / 60) + "m "@ + dec_str(t % 60) + "s"@
    } else if t < 86400 {
        dec_str(t / 3600) + "h "@ + dec_str((t % 3600) / 60) + "m "@ + dec_str(t % 60) + "s"@
    } else {
        dec_str(t / 86400) + "d "@ + dec_str((t % 86400) / 3600) + "h "@ + dec_str(
            (t % 3600) / 60,
        ) + "m "@ + dec_str(t % 60) + "s"@
    }
}

/// Renders an elapsed time in seconds for status display.
pub fn spent_time(time: u64) -> (r: String)
    ensures
        r@ == spent_time_str(time as nat),
{
    let mut s = String::new();
    if time < 60 {
        push_u64_dec(&mut s, time);
        s.append(" sec");
    } else if time < 3600 {
        push_u64_dec(&mut s, time / 60);
        s.append("m ");
        push_u64_dec(&mut s, time % 60);
        s.append("s");
    } else if time < 86400 {
        push_u64_dec(&mut s, time / 3600);
        s.append("h ");
        push_u64_dec(&mut s, (time % 3600) / 60);
        s.append("m ");
        push_u64_dec(&mut s, time % 60);
        s.append("s");
    } else {
        push_u64_dec(&mut s, time / 86400);
        s.append("d ");
        push_u64_dec(&mut s, (time % 86400) / 3600);
        s.append("h ");
        push_u64_dec(&mut s, (time % 3600) / 60);
        s.append("m ");
        push_u64_dec(&mut s, time % 60);
        s.append("s");
    }
    proof {
        assert(s@ =~= spent_time_str(time as nat));
    }
    s
}

} // verus!
