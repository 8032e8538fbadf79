//! Decimal rendering and the counted status messages that handlers write.

use vstd::prelude::*;
use vstd::string::*;

verus! {

/// The character that writes the decimal digit `d`.
pub open spec fn digit_char(d: nat) -> char {
    if d == 0 {
        '0'
    } else if d == 1 {
        '1'
    } else if d == 2 {
        '2'
    } else if d == 3 {
        '3'
    } else if d == 4 {
        '4'
    } else if d == 5 {
        '5'
    } else if d == 6 {
        '6'
    } else if d == 7 {
        '7'
    } else if d == 8 {
        '8'
    } else {
        '9'
    }
}

/// The decimal numeral of `n`: most significant digit first, no leading
/// zeros, `"0"` for zero.
pub open spec fn decimal(n: nat) -> Seq<char>
    decreases n,
{
    if n < 10 {
        seq![digit_char(n)]
    } else {
        decimal(n / 10) + seq![digit_char(n % 10)]
    }
}

/// A status message that reports a count: `prefix`, the numeral of `n`,
/// `suffix`.
pub open spec fn counted_message(prefix: Seq<char>, n: nat, suffix: Seq<char>) -> Seq<char> {
    prefix + decimal(n) + suffix
}

/// A numeral is never empty.
pub proof fn lemma_decimal_nonempty(n: nat)
    ensures
        decimal(n).len() >= 1,
    decreases n,
{
    if n >= 10 {
        lemma_decimal_nonempty(n / 10);
    }
}

/// A numeral of more than one digit does not start with a zero.
pub proof fn lemma_decimal_no_leading_zero(n: nat)
    requires
        n >= 10,
    ensures
        decimal(n)[0] != '0',
    decreases n,
{
    lemma_decimal_nonempty(n / 10);
    if n / 10 >= 10 {
        lemma_decimal_no_leading_zero(n / 10);
    }
}

fn digit_str(d: u32) -> (s: &'static str)
    requires
        d < 10,
    ensures
        s@ == seq![digit_char(d as nat)],
{
    proof {
        reveal_strlit("0");
        reveal_strlit("1");
        reveal_strlit("2");
        reveal_strlit("3");
        reveal_strlit("4");
        reveal_strlit("5");
        reveal_strlit("6");
        reveal_strlit("7");
        reveal_strlit("8");
        reveal_strlit("9");
    }
    if d == 0 {
        "0"
    } else if d == 1 {
        "1"
    } else if d == 2 {
        "2"
    } else if d == 3 {
        "3"
    } else if d == 4 {
        "4"
    } else if d == 5 {
        "5"
    } else if d == 6 {
        "6"
    } else if d == 7 {
        "7"
    } else if d == 8 {
        "8"
    } else {
        "9"
    }
}

/// Renders `n` as a decimal numeral.
pub fn render_decimal(n: u32) -> (s: String)
    ensures
        s@ == decimal(n as nat),
    decreases n,
{
    if n < 10 {
        String::from_str(digit_str(n))
    } else {
        let mut s = render_decimal(n / 10);
        s.append(digit_str(n % 10));
        s
    }
}

/// Builds the status message `prefix`, numeral of `n`, `suffix`.
pub fn format_count(prefix: &str, n: u32, suffix: &str) -> (s: String)
    ensures
        s@ == counted_message(prefix@, n as nat, suffix@),
{
    let mut s = String::from_str(prefix);
    let digits = render_decimal(n);
    s.append(digits.as_str());
    s.append(suffix);
    s
}

} // verus!
