//! Numbers in words: decimal and hexadecimal numerals.

use vstd::prelude::*;
use vstd::string::StringExecFns;

verus! {

/// A digit of a numeral, upper case above nine.
pub open spec fn digit(d: int) -> char {
    if d < 10 { ('0' as int + d) as char } else { ('A' as int + d - 10) as char }
}

/// A number in decimal.
pub open spec fn decimal(n: nat) -> Seq<char>
    decreases n,
{
    if n < 10 { seq![digit(n as int)] } else { decimal(n / 10).push(digit((n % 10) as int)) }
}

/// A number in four hexadecimal digits.
pub open spec fn hex4(n: u16) -> Seq<char> {
    seq![
        digit(n as int / 0x1000),
        digit(n as int / 0x100 % 0x10),
        digit(n as int / 0x10 % 0x10),
        digit(n as int % 0x10),
    ]
}

/// A digit of a numeral.
fn digit_text(d: u64) -> (s: &'static str)
    requires
        d < 16,
    ensures
        s@ == seq![digit(d as int)],
{
    proof {
        reveal_strlit("0");
        reveal_strlit("1");
        reveal_strlit("2");
        reveal_strlit("3");
        reveal_strlit("4");
        reveal_strlit("5");
        reveal_strlit("6");
        reveal_strlit("7");
        reveal_strlit("8");
        reveal_strlit("9");
        reveal_strlit("A");
        reveal_strlit("B");
        reveal_strlit("C");
        reveal_strlit("D");
        reveal_strlit("E");
        reveal_strlit("F");
    }
    let s = match d {
        0 => "0",
        1 => "1",
        2 => "2",
        3 => "3",
        4 => "4",
        5 => "5",
        6 => "6",
        7 => "7",
        8 => "8",
        9 => "9",
        10 => "A",
        11 => "B",
        12 => "C",
        13 => "D",
        14 => "E",
        _ => "F",
    };
    assert(s@ =~= seq![digit(d as int)]);
    s
}

/// Append a number in decimal.
pub fn push_decimal(text: &mut String, n: u64)
    ensures
        final(text)@ == old(text)@ + decimal(n as nat),
    decreases n,
{
    if n >= 10 {
        push_decimal(text, n / 10);
    }
    text.append(digit_text(n % 10));
    assert(text@ =~= old(text)@ + decimal(n as nat));
}

/// Append a number in four hexadecimal digits.
pub fn push_hex4(text: &mut String, n: u16)
    ensures
        final(text)@ == old(text)@ + hex4(n),
{
    text.append(digit_text((n / 0x1000) as u64));
    text.append(digit_text((n / 0x100 % 0x10) as u64));
    text.append(digit_text((n / 0x10 % 0x10) as u64));
    text.append(digit_text((n % 0x10) as u64));
    assert(text@ =~= old(text)@ + hex4(n));
}

} // verus!
