use vstd::prelude::*;
use vstd::string::StringExecFns;

use crate::elapsed::{Elapsed, NANOS_PER_MILLI, nanos_of};

verus! {

/// The character of a decimal digit.
pub open spec fn digit_char(d: nat) -> char
    recommends
        d < 10,
{
    seq!['0', '1', '2', '3', '4', '5', '6', '7', '8', '9'][d as int]
}

/// The decimal numeral of `n`, most significant digit first, with no leading zeros.
pub open spec fn decimal(n: nat) -> Seq<char>
    decreases n,
{
    if n < 10 {
        seq![digit_char(n)]
    } else {
        decimal(n / 10).push(digit_char(n % 10))
    }
}

/// How an optional span reads as text: its whole milliseconds, or a marker
/// when there is none.
pub open spec fn text_of(d: Option<nat>) -> Seq<char> {
    match d {
        Some(n) => decimal(n / (NANOS_PER_MILLI as nat)),
        None => "<not started>"@,
    }
}

fn digit_str(d: u128) -> (r: &'static str)
    requires
        d < 10,
    ensures
        r@ == seq![digit_char(d as nat)],
{
    proof {
        reveal_strlit("0");
        reveal_strlit("1");
        reveal_strlit("2");
        reveal_strlit("3");
        reveal_strlit("4");
        reveal_strlit("5");
        reveal_strlit("6");
        reveal_strlit("7");
        reveal_strlit("8");
        reveal_strlit("9");
    }
    if d == 0 {
        "0"
    } else if d == 1 {
        "1"
    } else if d == 2 {
        "2"
    } else if d == 3 {
        "3"
    } else if d == 4 {
        "4"
    } else if d == 5 {
        "5"
    } else if d == 6 {
        "6"
    } else if d == 7 {
        "7"
    } else if d == 8 {
        "8"
    } else {
        "9"
    }
}

/// Appends the decimal numeral of `n` to `s`.
fn push_decimal(s: &mut String, n: u128)
    ensures
        final(s)@ == old(s)@ + decimal(n as nat),
    decreases n,
{
    if n >= 10 {
        push_decimal(s, n / 10);
    }
    s.append(digit_str(n % 10));
    assert(final(s)@ =~= old(s)@ + decimal(n as nat));
}

/// Renders an optional span as its whole milliseconds in decimal, or as
/// `<not started>` when there is none.
pub fn render(duration: Option<Elapsed>) -> (r: String)
    ensures
        r@ == text_of(nanos_of(duration)),
{
    match duration {
        Some(d) => {
            let mut s = String::new();
            push_decimal(&mut s, d.as_millis());
            s
        },
        None => String::from_str("<not started>"),
    }
}

} // verus!
