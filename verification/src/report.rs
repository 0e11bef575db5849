//! The diagnostic report of a fatal vector: a line of text that names the
//! vector and the error code that the processor supplied.

use vstd::prelude::*;
use vstd::string::StringExecFns;

verus! {

/// The sixteen digits, by value.
pub open spec fn digits() -> Seq<char> {
    seq!['0', '1', '2', '3', '4', '5', '6', '7', '8', '9', 'a', 'b', 'c', 'd', 'e', 'f']
}

/// The decimal numeral of `value`, without leading zeros.
pub open spec fn decimal(value: nat) -> Seq<char>
    decreases value,
{
    if value < 10 {
        seq![digits()[value as int]]
    } else {
        decimal(value / 10).push(digits()[(value % 10) as int])
    }
}

/// The hexadecimal numeral of `value`, in lower case, without leading zeros.
pub open spec fn hexadecimal(value: nat) -> Seq<char>
    decreases value,
{
    if value < 16 {
        seq![digits()[value as int]]
    } else {
        hexadecimal(value / 16).push(digits()[(value % 16) as int])
    }
}

/// The decimal numeral of a signed value: a minus sign before the numeral
/// of the magnitude where the value is negative.
pub open spec fn signed_decimal(value: int) -> Seq<char> {
    if value < 0 {
        seq!['-'] + decimal((-value) as nat)
    } else {
        decimal(value as nat)
    }
}

/// The report of a fatal vector: the vector in decimal and the error code in
/// hexadecimal, the error code read as the unsigned machine word that the
/// processor pushed.
pub open spec fn report_text(vector: isize, error_code: isize) -> Seq<char> {
    "interrupt "@ + signed_decimal(vector as int) + " with error code "@ + hexadecimal(
        (error_code as usize) as nat,
    )
}

/// The one-character string of a digit.
fn digit(value: usize) -> (text: &'static str)
    requires
        value < 16,
    ensures
        text@ == seq![digits()[value as int]],
{
    proof {
        reveal_strlit("0");
        reveal_strlit("1");
        reveal_strlit("2");
        reveal_strlit("3");
        reveal_strlit("4");
        reveal_strlit("5");
        reveal_strlit("6");
        reveal_strlit("7");
        reveal_strlit("8");
        reveal_strlit("9");
        reveal_strlit("a");
        reveal_strlit("b");
        reveal_strlit("c");
        reveal_strlit("d");
        reveal_strlit("e");
        reveal_strlit("f");
    }
    let text = match value {
        0 => "0",
        1 => "1",
        2 => "2",
        3 => "3",
        4 => "4",
        5 => "5",
        6 => "6",
        7 => "7",
        8 => "8",
        9 => "9",
        10 => "a",
        11 => "b",
        12 => "c",
        13 => "d",
        14 => "e",
        _ => "f",
    };
    assert(text@ =~= seq![digits()[value as int]]);
    text
}

/// Appends the decimal numeral of `value` to `text`.
fn append_decimal(text: &mut String, value: usize)
    ensures
        final(text)@ == old(text)@ + decimal(value as nat),
    decreases value,
{
    if value >= 10 {
        append_decimal(text, value / 10);
    }
    text.append(digit(value % 10));
    assert(text@ =~= old(text)@ + decimal(value as nat));
}

/// Appends the hexadecimal numeral of `value` to `text`.
fn append_hexadecimal(text: &mut String, value: usize)
    ensures
        final(text)@ == old(text)@ + hexadecimal(value as nat),
    decreases value,
{
    if value >= 16 {
        append_hexadecimal(text, value / 16);
    }
    text.append(digit(value % 16));
    assert(text@ =~= old(text)@ + hexadecimal(value as nat));
}

/// The diagnostic report for `vector`, delivered with `error_code`.
pub fn report(vector: isize, error_code: isize) -> (text: String)
    ensures
        text@ == report_text(vector, error_code),
{
    let mut text = String::from_str("interrupt ");
    if vector < 0 {
        proof {
            reveal_strlit("-");
        }
        text.append("-");
        let magnitude: usize = (-(vector + 1)) as usize + 1;
        append_decimal(&mut text, magnitude);
        assert(text@ =~= "interrupt "@ + signed_decimal(vector as int));
    } else {
        append_decimal(&mut text, vector as usize);
    }
    text.append(" with error code ");
    append_hexadecimal(&mut text, error_code as usize);
    text
}

} // verus!
