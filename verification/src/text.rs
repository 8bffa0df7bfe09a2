//! Text building: decimal numerals and the concatenations that messages are
//! made of.

use vstd::prelude::*;
use vstd::string::StringExecFns;

verus! {

/// The character of one decimal digit.
pub open spec fn digit_char(d: int) -> char
    recommends
        0 <= d < 10,
{
    ((d + 48) as u8) as char
}

/// The decimal numeral of a natural number, without leading zeros.
pub open spec fn nat_text(n: nat) -> Seq<char>
    decreases n,
{
    if n < 10 {
        seq![digit_char(n as int)]
    } else {
        nat_text(n / 10).push(digit_char((n % 10) as int))
    }
}

/// The decimal numeral of an integer, with a minus sign below zero.
pub open spec fn int_text(n: int) -> Seq<char> {
    if n < 0 {
        seq!['-'] + nat_text((-n) as nat)
    } else {
        nat_text(n as nat)
    }
}

/// `whole` starts with `prefix`.
pub open spec fn starts_with(whole: Seq<char>, prefix: Seq<char>) -> bool {
    prefix.is_prefix_of(whole)
}

/// A text starts with whatever it was concatenated from on the left.
pub proof fn lemma_concat_starts_with(prefix: Seq<char>, rest: Seq<char>)
    ensures
        starts_with(prefix + rest, prefix),
{
    assert((prefix + rest).subrange(0, prefix.len() as int) =~= prefix);
}

fn digit_str(d: u8) -> (s: &'static str)
    requires
        d < 10,
    ensures
        s@ == seq![digit_char(d as int)],
{
    proof {
        reveal_strlit("0");
        reveal_strlit("1");
        reveal_strlit("2");
        reveal_strlit("3");
        reveal_strlit("4");
        reveal_strlit("5");
        reveal_strlit("6");
        reveal_strlit("7");
        reveal_strlit("8");
        reveal_strlit("9");
    }
    let s = match d {
        0 => "0",
        1 => "1",
        2 => "2",
        3 => "3",
        4 => "4",
        5 => "5",
        6 => "6",
        7 => "7",
        8 => "8",
        _ => "9",
    };
    assert(s@ =~= seq![digit_char(d as int)]);
    s
}

fn push_nat(n: u64, out: &mut String)
    ensures
        final(out)@ == old(out)@ + nat_text(n as nat),
    decreases n,
{
    if n >= 10 {
        push_nat(n / 10, out);
    }
    let d: u8 = (n % 10) as u8;
    out.append(digit_str(d));
    assert(out@ =~= old(out)@ + nat_text(n as nat));
}

/// Renders an integer as its decimal numeral.
pub fn decimal(n: i64) -> (s: String)
    ensures
        s@ == int_text(n as int),
{
    if n < 0 {
        let magnitude: u64 = ((-(n + 1)) as u64) + 1;
        let mut s = String::from_str("-");
        proof {
            reveal_strlit("-");
        }
        push_nat(magnitude, &mut s);
        assert(s@ =~= int_text(n as int));
        s
    } else {
        let mut s = String::new();
        push_nat(n as u64, &mut s);
        assert(s@ =~= int_text(n as int));
        s
    }
}

/// Renders a natural number as its decimal numeral.
pub fn natural(n: u64) -> (s: String)
    ensures
        s@ == nat_text(n as nat),
        s@ == int_text(n as int),
{
    let mut s = String::new();
    push_nat(n, &mut s);
    assert(s@ =~= nat_text(n as nat));
    s
}

/// Joins two texts.
pub fn join(left: &str, right: &str) -> (s: String)
    ensures
        s@ == left@ + right@,
{
    String::from_str(left).concat(right)
}

} // verus!
