//! Decimal rendering of unsigned integers, used wherever a port number, an
//! interval or a serial number is embedded in a line of text.

use vstd::prelude::*;
use vstd::string::*;

verus! {

/// The character of one decimal digit.
pub open spec fn decimal_digit_char(digit: nat) -> char
    recommends
        digit < 10,
{
    ((48 + digit) as u8) as char
}

/// The decimal numeral of `n`, most significant digit first, with no leading
/// zeros (a single zero for `n == 0`).
pub open spec fn decimal_string_of(n: nat) -> Seq<char>
    decreases n,
{
    if n < 10 {
        seq![decimal_digit_char(n)]
    } else {
        decimal_string_of(n / 10).push(decimal_digit_char(n % 10))
    }
}

/// One decimal digit as a string slice.
fn digit_str(digit: u64) -> (text: &'static str)
    requires
        digit < 10,
    ensures
        text@ == seq![decimal_digit_char(digit as nat)],
{
    let text: &'static str = if digit == 0 {
        "0"
    } else if digit == 1 {
        "1"
    } else if digit == 2 {
        "2"
    } else if digit == 3 {
        "3"
    } else if digit == 4 {
        "4"
    } else if digit == 5 {
        "5"
    } else if digit == 6 {
        "6"
    } else if digit == 7 {
        "7"
    } else if digit == 8 {
        "8"
    } else {
        "9"
    };
    proof {
        reveal_strlit("0");
        reveal_strlit("1");
        reveal_strlit("2");
        reveal_strlit("3");
        reveal_strlit("4");
        reveal_strlit("5");
        reveal_strlit("6");
        reveal_strlit("7");
        reveal_strlit("8");
        reveal_strlit("9");
        assert(text@ =~= seq![decimal_digit_char(digit as nat)]);
    }
    text
}

/// Renders `n` as its decimal numeral.
pub fn u64_to_string(n: u64) -> (text: String)
    ensures
        text@ == decimal_string_of(n as nat),
    decreases n,
{
    if n < 10 {
        String::from_str(digit_str(n))
    } else {
        let mut text = u64_to_string(n / 10);
        text.append(digit_str(n % 10));
        proof {
            assert(text@ =~= decimal_string_of(n as nat));
        }
        text
    }
}

} // verus!
