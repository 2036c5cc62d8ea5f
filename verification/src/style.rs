//! Generation of the textual style rule that sets the document
//! surface's font size: `textview { font-size: <N>px; }`, where `<N>`
//! is the live font size written in decimal.

use vstd::prelude::*;

verus! {

/// The character for the decimal digit `d`.
pub open spec fn digit_char(d: nat) -> char {
    if d == 0 {
        '0'
    } else if d == 1 {
        '1'
    } else if d == 2 {
        '2'
    } else if d == 3 {
        '3'
    } else if d == 4 {
        '4'
    } else if d == 5 {
        '5'
    } else if d == 6 {
        '6'
    } else if d == 7 {
        '7'
    } else if d == 8 {
        '8'
    } else {
        '9'
    }
}

/// Decimal digits of `n`, most significant first, with no leading zeros
/// (a lone zero for `n == 0`).
pub open spec fn decimal_chars(n: nat) -> Seq<char>
    decreases n,
{
    if n < 10 {
        seq![digit_char(n)]
    } else {
        decimal_chars(n / 10) + seq![digit_char(n % 10)]
    }
}

/// Textual form of a signed size: the digits of its magnitude,
/// preceded by a minus sign when it is negative.
pub open spec fn int_chars(n: int) -> Seq<char> {
    if n >= 0 {
        decimal_chars(n as nat)
    } else {
        seq!['-'] + decimal_chars((-n) as nat)
    }
}

/// The style rule applied to the document surface for font size `size`.
pub open spec fn style_rule_chars(size: int) -> Seq<char> {
    "textview { font-size: "@ + int_chars(size) + "px; }"@
}

/// A one-character string slice holding the decimal digit `d`.
fn digit_str(d: u32) -> (s: &'static str)
    requires
        d < 10,
    ensures
        s@ == seq![digit_char(d as nat)],
{
    proof {
        reveal_strlit("0");
        reveal_strlit("1");
        reveal_strlit("2");
        reveal_strlit("3");
        reveal_strlit("4");
        reveal_strlit("5");
        reveal_strlit("6");
        reveal_strlit("7");
        reveal_strlit("8");
        reveal_strlit("9");
    }
    let s: &'static str = if d == 0 {
        "0"
    } else if d == 1 {
        "1"
    } else if d == 2 {
        "2"
    } else if d == 3 {
        "3"
    } else if d == 4 {
        "4"
    } else if d == 5 {
        "5"
    } else if d == 6 {
        "6"
    } else if d == 7 {
        "7"
    } else if d == 8 {
        "8"
    } else {
        "9"
    };
    proof {
        assert(s@ =~= seq![digit_char(d as nat)]);
    }
    s
}

/// The decimal digits of `n`, as a freshly built string.
pub fn decimal_string(n: u32) -> (s: String)
    ensures
        s@ == decimal_chars(n as nat),
    decreases n,
{
    if n < 10 {
        String::from_str(digit_str(n))
    } else {
        let mut s = decimal_string(n / 10);
        s.append(digit_str(n % 10));
        s
    }
}

/// The textual form of the signed size `size`.
pub fn size_string(size: i32) -> (s: String)
    ensures
        s@ == int_chars(size as int),
{
    if size >= 0 {
        decimal_string(size as u32)
    } else {
        let mut s = String::from_str("-");
        proof {
            reveal_strlit("-");
            assert(s@ =~= seq!['-']);
        }
        let magnitude: u32 = (-(size as i64)) as u32;
        proof {
            assert(magnitude as int == -(size as int));
        }
        let digits = decimal_string(magnitude);
        s.append(digits.as_str());
        s
    }
}

/// The style rule that sets the document surface's font size to `size`.
pub fn style_rule(size: i32) -> (s: String)
    ensures
        s@ == style_rule_chars(size as int),
{
    let mut s = String::from_str("textview { font-size: ");
    let digits = size_string(size);
    s.append(digits.as_str());
    s.append("px; }");
    s
}

} // verus!
