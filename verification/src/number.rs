//! The texts of numbers.
//!
//! Amounts and prices are real numbers, computed with in floating point. The
//! library does not compute with them: it carries each number as the text
//! that the store or a request gave, and tells the texts that denote a real
//! number from those that do not. A text denotes a real number when it
//! follows this grammar:
//!
//! ```text
//! Real   ::= Sign? Number
//! Number ::= ( Digit+ | Digit+ '.' Digit* | Digit* '.' Digit+ ) Exp?
//! Exp    ::= 'e' Sign? Digit+
//! Sign   ::= [+-]
//! Digit  ::= [0-9]
//! ```
//!
//! where the `e` may be of either case. These are the texts that the
//! standard library reads a floating-point number from, without the words
//! for infinity and for what is no number, which denote no real number.
use vstd::prelude::*;
use vstd::string::StringSliceAdditionalSpecFns;

verus! {

pub open spec fn is_digit(b: u8) -> bool {
    48 <= b <= 57
}

/// The index after the run of digits that starts at `from`.
pub open spec fn digits_end(s: Seq<u8>, from: int) -> int
    decreases s.len() - from,
{
    if 0 <= from < s.len() && is_digit(s[from]) {
        digits_end(s, from + 1)
    } else {
        from
    }
}

/// 1 where a sign stands at an index, else 0.
pub open spec fn sign_at(s: Seq<u8>, i: int) -> int {
    if 0 <= i < s.len() && (s[i] == 43 || s[i] == 45) {
        1
    } else {
        0
    }
}

/// From `from` to the end stands an exponent: an `e`, a sign or none, and
/// one digit or more.
pub open spec fn is_exponent(s: Seq<u8>, from: int) -> bool {
    let k = from + 1 + sign_at(s, from + 1);
    &&& 0 <= from < s.len()
    &&& (s[from] == 101 || s[from] == 69)
    &&& digits_end(s, k) > k
    &&& digits_end(s, k) == s.len()
}

/// The index after the digits and the point of a number that starts at `from`.
pub open spec fn mantissa_end(s: Seq<u8>, from: int) -> int {
    let a = digits_end(s, from);
    if a < s.len() && s[a] == 46 {
        digits_end(s, a + 1)
    } else {
        a
    }
}

/// How many digits stand among the digits and the point of a number that
/// starts at `from`.
pub open spec fn mantissa_digits(s: Seq<u8>, from: int) -> int {
    let a = digits_end(s, from);
    if a < s.len() && s[a] == 46 {
        mantissa_end(s, from) - from - 1
    } else {
        a - from
    }
}

/// From `from` to the end stands a number: digits with at most one point
/// among them, one digit at least, and an exponent or none.
pub open spec fn is_number(s: Seq<u8>, from: int) -> bool {
    let b = mantissa_end(s, from);
    mantissa_digits(s, from) > 0 && (b == s.len() || is_exponent(s, b))
}

/// Every digit of the number that starts at `from` is a zero: the number
/// is zero, whatever its exponent.
pub open spec fn is_zero_mantissa(s: Seq<u8>, from: int) -> bool {
    forall|i: int| from <= i < mantissa_end(s, from) ==> s[i] == 48 || s[i] == 46
}

/// The bytes are those of a text that denotes a real number.
pub open spec fn is_real_bytes(s: Seq<u8>) -> bool {
    is_number(s, sign_at(s, 0))
}

/// The bytes are those of a text that denotes a real number that is not
/// below zero.
pub open spec fn is_price_bytes(s: Seq<u8>) -> bool {
    &&& is_real_bytes(s)
    &&& s.len() > 0 && s[0] == 45 ==> is_zero_mantissa(s, 1)
}

/// The text denotes a real number: a number of the grammar, neither
/// infinite nor a word for what is no number.
pub open spec fn is_real_text(text: Seq<char>) -> bool {
    is_real_bytes(vstd::utf8::encode_utf8(text))
}

/// The text denotes a real number that is not below zero: a number of the
/// grammar with a minus sign only before a zero.
pub open spec fn is_price_text(text: Seq<char>) -> bool {
    is_price_bytes(vstd::utf8::encode_utf8(text))
}

/// Finds the end of the run of digits that starts at `from`.
fn scan_digits(bytes: &[u8], from: usize) -> (end: usize)
    requires
        from <= bytes@.len(),
    ensures
        end == digits_end(bytes@, from as int),
        from <= end <= bytes@.len(),
{
    let mut i: usize = from;
    while i < bytes.len() && 48 <= bytes[i] && bytes[i] <= 57
        invariant
            from <= i <= bytes@.len(),
            digits_end(bytes@, from as int) == digits_end(bytes@, i as int),
        decreases bytes@.len() - i,
    {
        i += 1;
    }
    i
}

/// Finds the end of the digits and the point of a number that starts at `from`.
fn scan_mantissa(bytes: &[u8], from: usize) -> (end: usize)
    requires
        from <= bytes@.len(),
    ensures
        end == mantissa_end(bytes@, from as int),
        from <= end <= bytes@.len(),
{
    let a: usize = scan_digits(bytes, from);
    if a < bytes.len() && bytes[a] == 46 {
        scan_digits(bytes, a + 1)
    } else {
        a
    }
}

/// Whether a number stands from `from` to the end.
fn scan_number(bytes: &[u8], from: usize) -> (r: bool)
    requires
        from <= bytes@.len(),
    ensures
        r == is_number(bytes@, from as int),
{
    let n: usize = bytes.len();
    let a: usize = scan_digits(bytes, from);
    let pointed: bool = a < n && bytes[a] == 46;
    let b: usize = if pointed {
        scan_digits(bytes, a + 1)
    } else {
        a
    };
    let digits: usize = if pointed {
        b - from - 1
    } else {
        a - from
    };
    if digits == 0 {
        return false;
    }
    if b == n {
        return true;
    }
    if bytes[b] != 101 && bytes[b] != 69 {
        return false;
    }
    let e: usize = if b + 1 < n && (bytes[b + 1] == 43 || bytes[b + 1] == 45) {
        b + 2
    } else {
        b + 1
    };
    let end: usize = scan_digits(bytes, e);
    end > e && end == n
}

/// Whether a text denotes a real number.
pub fn is_real(text: &str) -> (r: bool)
    ensures
        r == is_real_text(text@),
{
    let bytes = text.as_bytes();
    let k: usize = if bytes.len() > 0 && (bytes[0] == 43 || bytes[0] == 45) {
        1
    } else {
        0
    };
    scan_number(bytes, k)
}

/// Whether a text denotes a real number that is not below zero. A number
/// with a minus sign is below zero unless all its digits are zeros.
pub fn is_price(text: &str) -> (r: bool)
    ensures
        r == is_price_text(text@),
{
    if !is_real(text) {
        return false;
    }
    let bytes = text.as_bytes();
    if bytes.len() == 0 || bytes[0] != 45 {
        return true;
    }
    let end: usize = scan_mantissa(bytes, 1);
    let mut i: usize = 1;
    while i < end
        invariant
            1 <= i <= end <= bytes@.len(),
            end == mantissa_end(bytes@, 1),
            bytes@ == vstd::utf8::encode_utf8(text@),
            is_real_bytes(bytes@),
            bytes@[0] == 45,
            forall|j: int| 1 <= j < i ==> bytes@[j] == 48 || bytes@[j] == 46,
        decreases end - i,
    {
        if bytes[i] != 48 && bytes[i] != 46 {
            assert(!(bytes@[i as int] == 48 || bytes@[i as int] == 46));
            return false;
        }
        i += 1;
    }
    true
}

} // verus!
