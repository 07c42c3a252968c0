//! Decimal integers: reading one from a token, within the bounds of a
//! target type, and writing one out.

use vstd::prelude::*;


verus! {

/// Why a token is no integer of the target type.
#[derive(Clone, Copy, PartialEq, Eq, Structural)]
pub enum IntFault {
    /// The token is empty.
    Empty,
    /// A character is no decimal digit, or a sign stands alone.
    InvalidDigit,
    /// The number is above the target type's largest value.
    PosOverflow,
    /// The number is below the target type's smallest value.
    NegOverflow,
}

/// The value of a decimal digit.
pub open spec fn digit_of(c: char) -> Option<int> {
    if '0' <= c <= '9' {
        Some(c as int - '0' as int)
    } else {
        None
    }
}

/// The number that the digits of `s` from index `from` on add to `acc`,
/// read from left to right; each digit counts negatively where `negative`
/// holds. Reading stops with a fault at the first character that is no
/// digit, and at the first digit that takes the number out of `min..=max`.
pub open spec fn read_digits(s: Seq<char>, from: int, acc: int, negative: bool, min: int, max: int) -> Result<
    int,
    IntFault,
>
    decreases s.len() - from,
{
    if from < 0 || from >= s.len() {
        Ok(acc)
    } else {
        match digit_of(s[from]) {
            None => Err(IntFault::InvalidDigit),
            Some(d) => {
                let next = if negative {
                    acc * 10 - d
                } else {
                    acc * 10 + d
                };
                if next > max {
                    Err(IntFault::PosOverflow)
                } else if next < min {
                    Err(IntFault::NegOverflow)
                } else {
                    read_digits(s, from + 1, next, negative, min, max)
                }
            },
        }
    }
}

/// Whether a character opens a number of a type with the smallest value
/// `min` as its sign.
pub open spec fn is_sign(c: char, min: int) -> bool {
    c == '+' || (c == '-' && min < 0)
}

/// The integer in `min..=max` that a token stands for: an optional sign,
/// `+` or, for a type with negative values, `-`, then at least one decimal
/// digit and nothing else.
pub open spec fn read_int(s: Seq<char>, min: int, max: int) -> Result<int, IntFault> {
    if s.len() == 0 {
        Err(IntFault::Empty)
    } else if s.len() == 1 && (s[0] == '+' || s[0] == '-') {
        Err(IntFault::InvalidDigit)
    } else if is_sign(s[0], min) {
        read_digits(s, 1, 0, s[0] == '-', min, max)
    } else {
        read_digits(s, 0, 0, false, min, max)
    }
}

/// The words for a fault.
pub open spec fn fault_text(fault: IntFault) -> Seq<char> {
    match fault {
        IntFault::Empty => "cannot parse integer from empty string"@,
        IntFault::InvalidDigit => "invalid digit found in string"@,
        IntFault::PosOverflow => "number too large to fit in target type"@,
        IntFault::NegOverflow => "number too small to fit in target type"@,
    }
}

/// The reason for which a token is no integer in `min..=max`.
pub open spec fn int_complaint(s: Seq<char>, min: int, max: int) -> Seq<char> {
    match read_int(s, min, max) {
        Ok(_) => Seq::empty(),
        Err(fault) => fault_text(fault),
    }
}

/// The model of a result that holds an integer.
pub open spec fn int_result(r: Result<i128, IntFault>) -> Result<int, IntFault> {
    match r {
        Ok(v) => Ok(v as int),
        Err(fault) => Err(fault),
    }
}

/// The value of a decimal digit.
pub fn digit(c: char) -> (r: Option<u8>)
    ensures
        r matches Some(d) ==> digit_of(c) == Some(d as int),
        r is None ==> digit_of(c) is None,
{
    if '0' <= c && c <= '9' {
        Some((c as u32 - '0' as u32) as u8)
    } else {
        None
    }
}

/// The words for a fault.
pub fn fault_message(fault: IntFault) -> (r: String)
    ensures
        r@ == fault_text(fault),
{
    match fault {
        IntFault::Empty => String::from_str("cannot parse integer from empty string"),
        IntFault::InvalidDigit => String::from_str("invalid digit found in string"),
        IntFault::PosOverflow => String::from_str("number too large to fit in target type"),
        IntFault::NegOverflow => String::from_str("number too small to fit in target type"),
    }
}

/// Reads a decimal integer in `min..=max`.
pub fn parse_int(val: &str, min: i128, max: i128) -> (r: Result<i128, IntFault>)
    requires
        -0x1_0000_0000_0000_0000 <= min <= 0 <= max <= 0x1_0000_0000_0000_0000,
    ensures
        int_result(r) == read_int(val@, min as int, max as int),
        r matches Ok(v) ==> min <= v <= max,
{
    let ghost s = val@;
    let mut acc: i128 = 0;
    let mut negative = false;
    let mut first = true;
    let mut lone_sign = false;
    for ch in it: val.chars()
        invariant
            it.seq() == s,
            s == val@,
            -0x1_0000_0000_0000_0000 <= min <= 0 <= max <= 0x1_0000_0000_0000_0000,
            first == (it.index() == 0),
            min <= acc <= max,
            first ==> acc == 0 && !negative && !lone_sign,
            lone_sign ==> it.index() == 1 && is_sign(s[0], min as int) && acc == 0,
            !first ==> negative == (is_sign(s[0], min as int) && s[0] == '-'),
            !first && !lone_sign ==> read_int(s, min as int, max as int) == read_digits(
                s,
                it.index() as int,
                acc as int,
                negative,
                min as int,
                max as int,
            ),
    {
        if first && (ch == '+' || (ch == '-' && min < 0)) {
            negative = ch == '-';
            lone_sign = true;
        } else {
            assert(lone_sign ==> read_int(s, min as int, max as int) == read_digits(
                s,
                1,
                0,
                negative,
                min as int,
                max as int,
            ));
            lone_sign = false;
            match digit(ch) {
                None => {
                    return Err(IntFault::InvalidDigit);
                },
                Some(d) => {
                    let next = if negative {
                        acc * 10 - d as i128
                    } else {
                        acc * 10 + d as i128
                    };
                    if next > max {
                        return Err(IntFault::PosOverflow);
                    }
                    if next < min {
                        return Err(IntFault::NegOverflow);
                    }
                    acc = next;
                },
            }
        }
        first = false;
    }
    if first {
        return Err(IntFault::Empty);
    }
    if lone_sign {
        return Err(IntFault::InvalidDigit);
    }
    Ok(acc)
}

/// The character of a decimal digit.
pub open spec fn digit_char(d: int) -> char {
    ((d + 48) as u8) as char
}

/// The decimal form of a number, without leading zeros.
pub open spec fn decimal_text(n: nat) -> Seq<char>
    decreases n,
{
    if n < 10 {
        seq![digit_char(n as int)]
    } else {
        decimal_text(n / 10).push(digit_char((n % 10) as int))
    }
}

/// Appends the decimal form of `n`.
pub fn push_decimal(out: &mut String, n: usize)
    ensures
        final(out)@ == old(out)@ + decimal_text(n as nat),
    decreases n,
{
    if n >= 10 {
        push_decimal(out, n / 10);
    }
    out.push(((n % 10) as u8 + 48) as char);
    assert(n >= 10 ==> out@ =~= old(out)@ + decimal_text((n / 10) as nat).push(
        digit_char((n % 10) as int),
    ));
}

/// The decimal form of `n`.
pub fn decimal(n: usize) -> (r: String)
    ensures
        r@ == decimal_text(n as nat),
{
    let mut out = String::new();
    push_decimal(&mut out, n);
    out
}

} // verus!
