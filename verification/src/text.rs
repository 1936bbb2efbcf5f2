//! Building message text: lower-case hexadecimal bytes and decimal integers.

use vstd::prelude::*;

verus! {

/// The lower-case hexadecimal digit for a value below 16.
pub open spec fn hex_digit(d: int) -> char {
    if d < 10 {
        (48 + d) as char
    } else {
        (87 + d) as char
    }
}

/// The decimal digit for a value below 10.
pub open spec fn decimal_digit(d: int) -> char {
    (48 + d) as char
}

/// A byte as exactly two lower-case hexadecimal digits, as `{:02x}` writes it.
pub open spec fn hex_byte(b: u8) -> Seq<char> {
    seq![hex_digit((b / 16) as int), hex_digit((b % 16) as int)]
}

/// The decimal digits of a natural number, without leading zeros (`0` is `"0"`).
pub open spec fn decimal_digits(n: nat) -> Seq<char>
    decreases n,
{
    if n < 10 {
        seq![decimal_digit(n as int)]
    } else {
        decimal_digits(n / 10) + seq![decimal_digit((n % 10) as int)]
    }
}

/// An integer in decimal, with a leading `-` when negative, as `{}` writes it.
pub open spec fn decimal(i: int) -> Seq<char> {
    if i < 0 {
        seq!['-'] + decimal_digits((-i) as nat)
    } else {
        decimal_digits(i as nat)
    }
}

/// A one-character string holding the hexadecimal digit for `d`.
fn digit_str(d: u32) -> (s: &'static str)
    requires
        d < 16,
    ensures
        s@ == seq![hex_digit(d as int)],
{
    proof {
        reveal_strlit("0");
        reveal_strlit("1");
        reveal_strlit("2");
        reveal_strlit("3");
        reveal_strlit("4");
        reveal_strlit("5");
        reveal_strlit("6");
        reveal_strlit("7");
        reveal_strlit("8");
        reveal_strlit("9");
        reveal_strlit("a");
        reveal_strlit("b");
        reveal_strlit("c");
        reveal_strlit("d");
        reveal_strlit("e");
        reveal_strlit("f");
    }
    match d {
        0 => "0",
        1 => "1",
        2 => "2",
        3 => "3",
        4 => "4",
        5 => "5",
        6 => "6",
        7 => "7",
        8 => "8",
        9 => "9",
        10 => "a",
        11 => "b",
        12 => "c",
        13 => "d",
        14 => "e",
        _ => "f",
    }
}

/// Appends `b` as two lower-case hexadecimal digits.
pub fn push_hex_byte(s: &mut String, b: u8)
    ensures
        final(s)@ == old(s)@ + hex_byte(b),
{
    let hi: u32 = (b / 16) as u32;
    let lo: u32 = (b % 16) as u32;
    s.append(digit_str(hi));
    s.append(digit_str(lo));
}

/// Appends `i` in decimal, with a leading `-` when negative.
pub fn push_decimal(s: &mut String, i: i32)
    ensures
        final(s)@ == old(s)@ + decimal(i as int),
{
    let wide: i64 = i as i64;
    let magnitude: u64 = if wide < 0 { (-wide) as u64 } else { wide as u64 };
    let mut q: u64 = magnitude;
    let mut digits = String::new();
    while q >= 10
        invariant
            decimal_digits(magnitude as nat) == decimal_digits(q as nat) + digits@,
        decreases q,
    {
        let d: u32 = (q % 10) as u32;
        let mut next = String::from_str(digit_str(d));
        next.append(digits.as_str());
        assert(decimal_digits(q as nat) == decimal_digits((q / 10) as nat) + seq![
            decimal_digit((q % 10) as int),
        ]);
        digits = next;
        q = q / 10;
        assert(decimal_digits(magnitude as nat) == decimal_digits(q as nat) + digits@);
    }
    let mut all = String::from_str(digit_str(q as u32));
    all.append(digits.as_str());
    assert(all@ == decimal_digits(magnitude as nat));
    if wide < 0 {
        proof {
            reveal_strlit("-");
        }
        s.append("-");
    }
    s.append(all.as_str());
}

} // verus!
