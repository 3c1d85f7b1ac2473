//! Numbers as text: whole numbers in decimal, and tenths with one decimal
//! place.
use vstd::prelude::*;
use vstd::string::StringExecFns;

verus! {

/// The character of one decimal digit.
pub open spec fn digit(d: int) -> char {
    if d == 0 {
        '0'
    } else if d == 1 {
        '1'
    } else if d == 2 {
        '2'
    } else if d == 3 {
        '3'
    } else if d == 4 {
        '4'
    } else if d == 5 {
        '5'
    } else if d == 6 {
        '6'
    } else if d == 7 {
        '7'
    } else if d == 8 {
        '8'
    } else {
        '9'
    }
}

/// A natural number in decimal, without leading zeros.
pub open spec fn decimal(n: nat) -> Seq<char>
    decreases n,
{
    if n < 10 {
        seq![digit(n as int)]
    } else {
        decimal(n / 10).push(digit((n % 10) as int))
    }
}

/// A whole number in decimal, with a minus sign where it is negative.
pub open spec fn signed_decimal(n: int) -> Seq<char> {
    if n < 0 {
        seq!['-'] + decimal((-n) as nat)
    } else {
        decimal(n as nat)
    }
}

/// A number of tenths with one decimal place: 266 reads `26.6`, -5 reads
/// `-0.5`.
pub open spec fn tenths(n: int) -> Seq<char> {
    if n < 0 {
        seq!['-'] + decimal(((-n) / 10) as nat) + seq!['.', digit((-n) % 10)]
    } else {
        decimal((n / 10) as nat) + seq!['.', digit(n % 10)]
    }
}

/// Appends one decimal digit to a text.
pub fn push_digit(text: &mut String, d: u8)
    requires
        d < 10,
    ensures
        final(text)@ == old(text)@.push(digit(d as int)),
{
    proof {
        reveal_strlit("0");
        reveal_strlit("1");
        reveal_strlit("2");
        reveal_strlit("3");
        reveal_strlit("4");
        reveal_strlit("5");
        reveal_strlit("6");
        reveal_strlit("7");
        reveal_strlit("8");
        reveal_strlit("9");
    }
    let one: &str = if d == 0 {
        "0"
    } else if d == 1 {
        "1"
    } else if d == 2 {
        "2"
    } else if d == 3 {
        "3"
    } else if d == 4 {
        "4"
    } else if d == 5 {
        "5"
    } else if d == 6 {
        "6"
    } else if d == 7 {
        "7"
    } else if d == 8 {
        "8"
    } else {
        "9"
    };
    text.append(one);
    assert(text@ =~= old(text)@.push(digit(d as int)));
}

/// Appends a natural number in decimal to a text.
pub fn push_decimal(text: &mut String, n: u32)
    ensures
        final(text)@ == old(text)@ + decimal(n as nat),
    decreases n,
{
    if n >= 10 {
        push_decimal(text, n / 10);
    }
    push_digit(text, (n % 10) as u8);
    assert(text@ =~= old(text)@ + decimal(n as nat));
}

/// The size of a number, without its sign.
pub fn magnitude(n: i32) -> (size: u32)
    ensures
        size == if n < 0 {
            -n
        } else {
            n as int
        },
{
    if n < 0 {
        (-(n as i64)) as u32
    } else {
        n as u32
    }
}

/// Appends a whole number in decimal to a text.
pub fn push_signed(text: &mut String, n: i32)
    ensures
        final(text)@ == old(text)@ + signed_decimal(n as int),
{
    if n < 0 {
        proof {
            reveal_strlit("-");
        }
        text.append("-");
        push_decimal(text, magnitude(n));
        assert(text@ =~= old(text)@ + signed_decimal(n as int));
    } else {
        push_decimal(text, n as u32);
    }
}

/// Appends a number of tenths, with one decimal place, to a text.
pub fn push_tenths(text: &mut String, n: i32)
    ensures
        final(text)@ == old(text)@ + tenths(n as int),
{
    proof {
        reveal_strlit("-");
        reveal_strlit(".");
    }
    if n < 0 {
        text.append("-");
    }
    let size: u32 = magnitude(n);
    push_decimal(text, size / 10);
    text.append(".");
    push_digit(text, (size % 10) as u8);
    assert(text@ =~= old(text)@ + tenths(n as int));
}

} // verus!
