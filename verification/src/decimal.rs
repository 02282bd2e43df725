//! Decimal text of amounts. Amounts leave the engine as decimal strings,
//! because they do not fit the number types of the formats they travel in.

use vstd::prelude::*;
use vstd::string::*;

verus! {

/// The character of a decimal digit.
pub open spec fn spec_digit_char(digit: nat) -> char {
    if digit == 0 {
        '0'
    } else if digit == 1 {
        '1'
    } else if digit == 2 {
        '2'
    } else if digit == 3 {
        '3'
    } else if digit == 4 {
        '4'
    } else if digit == 5 {
        '5'
    } else if digit == 6 {
        '6'
    } else if digit == 7 {
        '7'
    } else if digit == 8 {
        '8'
    } else {
        '9'
    }
}

/// The decimal text of a number: no sign, no leading zero, "0" for zero.
pub open spec fn spec_decimal(n: nat) -> Seq<char>
    decreases n,
{
    if n < 10 {
        seq![spec_digit_char(n)]
    } else {
        spec_decimal(n / 10).push(spec_digit_char(n % 10))
    }
}

/// The text of digits that are held least significant first.
pub open spec fn spec_reversed_text(digits: Seq<u8>) -> Seq<char>
    decreases digits.len(),
{
    if digits.len() == 0 {
        Seq::<char>::empty()
    } else {
        seq![spec_digit_char(digits.last() as nat)] + spec_reversed_text(digits.drop_last())
    }
}

/// The one-character text of a digit.
fn digit_text(digit: u8) -> (text: &'static str)
    requires
        digit < 10,
    ensures
        text@ == seq![spec_digit_char(digit as nat)],
{
    proof {
        reveal_strlit("0");
        reveal_strlit("1");
        reveal_strlit("2");
        reveal_strlit("3");
        reveal_strlit("4");
        reveal_strlit("5");
        reveal_strlit("6");
        reveal_strlit("7");
        reveal_strlit("8");
        reveal_strlit("9");
    }
    let text = if digit == 0 {
        "0"
    } else if digit == 1 {
        "1"
    } else if digit == 2 {
        "2"
    } else if digit == 3 {
        "3"
    } else if digit == 4 {
        "4"
    } else if digit == 5 {
        "5"
    } else if digit == 6 {
        "6"
    } else if digit == 7 {
        "7"
    } else if digit == 8 {
        "8"
    } else {
        "9"
    };
    assert(text@ =~= seq![spec_digit_char(digit as nat)]);
    text
}

/// Writes an amount of atto-units as decimal text.
pub fn format_amount(amount: u128) -> (text: String)
    ensures
        text@ == spec_decimal(amount as nat),
{
    let mut digits: Vec<u8> = Vec::new();
    let mut rest: u128 = amount;
    while rest >= 10
        invariant
            spec_decimal(amount as nat) == spec_decimal(rest as nat) + spec_reversed_text(
                digits@,
            ),
            forall|m: int| 0 <= m < digits.len() ==> #[trigger] digits[m] < 10,
        decreases rest,
    {
        let ghost before = digits@;
        digits.push((rest % 10) as u8);
        proof {
            assert(digits@.drop_last() =~= before);
            assert(spec_decimal(rest as nat) + spec_reversed_text(before) =~= spec_decimal(
                (rest / 10) as nat,
            ) + spec_reversed_text(digits@));
        }
        rest = rest / 10;
    }
    let mut text = String::from_str(digit_text(rest as u8));
    let mut k: usize = digits.len();
    assert(digits@.subrange(0, k as int) =~= digits@);
    assert(text@ =~= spec_decimal(rest as nat));
    while k > 0
        invariant
            k <= digits.len(),
            forall|m: int| 0 <= m < digits.len() ==> #[trigger] digits[m] < 10,
            text@ + spec_reversed_text(digits@.subrange(0, k as int)) == spec_decimal(
                amount as nat,
            ),
        decreases k,
    {
        let ghost shown = text@;
        let ghost pending = digits@.subrange(0, k as int);
        k -= 1;
        text.append(digit_text(digits[k]));
        proof {
            assert(pending.drop_last() =~= digits@.subrange(0, k as int));
            assert(text@ + spec_reversed_text(digits@.subrange(0, k as int)) =~= shown
                + spec_reversed_text(pending));
        }
    }
    assert(digits@.subrange(0, 0) =~= Seq::<u8>::empty());
    assert(text@ + Seq::<char>::empty() =~= text@);
    text
}

} // verus!
