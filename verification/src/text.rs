//! Decimal digits as text.

use vstd::prelude::*;
use vstd::string::*;

verus! {

/// The character that writes the decimal digit `digit`.
pub open spec fn digit_char(digit: int) -> char {
    if digit == 0 {
        '0'
    } else if digit == 1 {
        '1'
    } else if digit == 2 {
        '2'
    } else if digit == 3 {
        '3'
    } else if digit == 4 {
        '4'
    } else if digit == 5 {
        '5'
    } else if digit == 6 {
        '6'
    } else if digit == 7 {
        '7'
    } else if digit == 8 {
        '8'
    } else {
        '9'
    }
}

/// A number below one hundred in two digits, with a leading zero where needed.
pub open spec fn two_digits(n: int) -> Seq<char> {
    seq![digit_char(n / 10), digit_char(n % 10)]
}

/// The decimal numeral of `n`, without leading zeros.
pub open spec fn decimal(n: nat) -> Seq<char>
    decreases n,
{
    if n < 10 {
        seq![digit_char(n as int)]
    } else {
        decimal(n / 10) + seq![digit_char((n % 10) as int)]
    }
}

/// The one-character text of a decimal digit.
fn digit_text(digit: usize) -> (text: &'static str)
    requires
        digit < 10,
    ensures
        text@ == seq![digit_char(digit as int)],
{
    let text = if digit == 0 {
        proof { reveal_strlit("0"); }
        "0"
    } else if digit == 1 {
        proof { reveal_strlit("1"); }
        "1"
    } else if digit == 2 {
        proof { reveal_strlit("2"); }
        "2"
    } else if digit == 3 {
        proof { reveal_strlit("3"); }
        "3"
    } else if digit == 4 {
        proof { reveal_strlit("4"); }
        "4"
    } else if digit == 5 {
        proof { reveal_strlit("5"); }
        "5"
    } else if digit == 6 {
        proof { reveal_strlit("6"); }
        "6"
    } else if digit == 7 {
        proof { reveal_strlit("7"); }
        "7"
    } else if digit == 8 {
        proof { reveal_strlit("8"); }
        "8"
    } else {
        proof { reveal_strlit("9"); }
        "9"
    };
    assert(text@ =~= seq![digit_char(digit as int)]);
    text
}

/// The decimal numeral of `n`, without leading zeros.
pub fn decimal_text(n: usize) -> (text: String)
    ensures
        text@ == decimal(n as nat),
    decreases n,
{
    if n < 10 {
        String::from_str(digit_text(n))
    } else {
        let mut text = decimal_text(n / 10);
        text.append(digit_text(n % 10));
        text
    }
}

} // verus!
