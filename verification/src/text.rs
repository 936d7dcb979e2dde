//! Decimal text of integers, as it appears in statements and messages.

use vstd::prelude::*;
use vstd::string::StringExecFns;

verus! {

/// The character of a single decimal digit.
pub open spec fn digit_char(d: int) -> char {
    if d == 0 {
        '0'
    } else if d == 1 {
        '1'
    } else if d == 2 {
        '2'
    } else if d == 3 {
        '3'
    } else if d == 4 {
        '4'
    } else if d == 5 {
        '5'
    } else if d == 6 {
        '6'
    } else if d == 7 {
        '7'
    } else if d == 8 {
        '8'
    } else {
        '9'
    }
}

/// The decimal digits of a natural number, without leading zeros.
pub open spec fn decimal_digits(n: nat) -> Seq<char>
    decreases n,
{
    if n < 10 {
        seq![digit_char(n as int)]
    } else {
        decimal_digits(n / 10).push(digit_char((n % 10) as int))
    }
}

/// The decimal text of an integer: a minus sign where it is negative, then
/// the digits of its magnitude.
pub open spec fn decimal(n: int) -> Seq<char> {
    if n < 0 {
        seq!['-'] + decimal_digits((-n) as nat)
    } else {
        decimal_digits(n as nat)
    }
}

/// The text of a single decimal digit.
pub fn digit_str(d: u64) -> (r: &'static str)
    requires
        d < 10,
    ensures
        r@ == seq![digit_char(d as int)],
{
    proof {
        reveal_strlit("0");
        reveal_strlit("1");
        reveal_strlit("2");
        reveal_strlit("3");
        reveal_strlit("4");
        reveal_strlit("5");
        reveal_strlit("6");
        reveal_strlit("7");
        reveal_strlit("8");
        reveal_strlit("9");
    }
    let r = if d == 0 {
        "0"
    } else if d == 1 {
        "1"
    } else if d == 2 {
        "2"
    } else if d == 3 {
        "3"
    } else if d == 4 {
        "4"
    } else if d == 5 {
        "5"
    } else if d == 6 {
        "6"
    } else if d == 7 {
        "7"
    } else if d == 8 {
        "8"
    } else {
        "9"
    };
    assert(r@ =~= seq![digit_char(d as int)]);
    r
}

/// Writes a natural number in decimal.
pub fn u64_to_string(n: u64) -> (r: String)
    ensures
        r@ == decimal_digits(n as nat),
{
    let mut rest: u64 = n / 10;
    let mut text: String = String::from_str(digit_str(n % 10));
    let ghost mut low: Seq<char> = seq![digit_char((n % 10) as int)];
    assert(n < 10 ==> decimal_digits(n as nat) =~= low);
    if n < 10 {
        return text;
    }
    // `text` holds the digits below those of `rest`.
    let ghost mut shown: nat = (n / 10) as nat;
    proof {
        assert(decimal_digits(n as nat) =~= decimal_digits(shown) + low);
    }
    while rest >= 10
        invariant
            text@ == low,
            rest == shown,
            rest > 0,
            decimal_digits(n as nat) == decimal_digits(shown) + low,
        decreases rest,
    {
        let head = String::from_str(digit_str(rest % 10));
        proof {
            let d = seq![digit_char((rest % 10) as int)];
            assert(decimal_digits(shown) =~= decimal_digits(shown / 10) + d);
            assert(decimal_digits(shown) + low =~= decimal_digits(shown / 10) + (d + low));
            low = d + low;
            shown = shown / 10;
        }
        text = head.concat(text.as_str());
        rest = rest / 10;
    }
    let head = String::from_str(digit_str(rest));
    text = head.concat(text.as_str());
    assert(text@ =~= decimal_digits(n as nat));
    text
}

/// Writes a signed number in decimal.
pub fn i64_to_string(n: i64) -> (r: String)
    ensures
        r@ == decimal(n as int),
{
    if n >= 0 {
        u64_to_string(n as u64)
    } else {
        let magnitude: u64 = (-(n + 1)) as u64 + 1;
        proof {
            reveal_strlit("-");
            assert("-"@ =~= seq!['-']);
        }
        let sign = String::from_str("-");
        sign.concat(u64_to_string(magnitude).as_str())
    }
}

} // verus!
