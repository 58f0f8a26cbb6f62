//! Classes of ASCII bytes.
//!
//! Each class is a spec predicate on one byte; the executable function of the
//! same class computes exactly that predicate.

use vstd::prelude::*;

verus! {

/// The byte of the letter `A`.
pub const UPPER_A: u8 = 0x41;

/// The byte of the letter `Z`.
pub const UPPER_Z: u8 = 0x5a;

/// The byte of the letter `a`.
pub const LOWER_A: u8 = 0x61;

/// The byte of the letter `z`.
pub const LOWER_Z: u8 = 0x7a;

/// The byte of the digit `0`.
pub const DIGIT_0: u8 = 0x30;

/// The byte of the digit `9`.
pub const DIGIT_9: u8 = 0x39;

/// The largest ASCII byte.
pub const ASCII_MAX: u8 = 0x7f;

/// `b` is one of `A`..=`Z`.
pub open spec fn is_uppercase(b: u8) -> bool {
    UPPER_A <= b <= UPPER_Z
}

/// `b` is one of `a`..=`z`.
pub open spec fn is_lowercase(b: u8) -> bool {
    LOWER_A <= b <= LOWER_Z
}

/// `b` is one of `0`..=`9`.
pub open spec fn is_digit(b: u8) -> bool {
    DIGIT_0 <= b <= DIGIT_9
}

/// `b` is a letter or a digit.
pub open spec fn is_alphanumeric(b: u8) -> bool {
    is_uppercase(b) || is_lowercase(b) || is_digit(b)
}

/// `b` lies in the ASCII range.
pub open spec fn is_ascii(b: u8) -> bool {
    b <= ASCII_MAX
}

/// Every byte of `bytes` is a letter or a digit.
pub open spec fn all_alphanumeric(bytes: Seq<u8>) -> bool {
    forall|i: int| 0 <= i < bytes.len() ==> is_alphanumeric(#[trigger] bytes[i])
}

/// Every byte of `bytes` lies in the ASCII range.
pub open spec fn all_ascii(bytes: Seq<u8>) -> bool {
    forall|i: int| 0 <= i < bytes.len() ==> is_ascii(#[trigger] bytes[i])
}

/// Tests whether `b` is an uppercase ASCII letter.
pub fn byte_is_uppercase(b: u8) -> (r: bool)
    ensures
        r == is_uppercase(b),
{
    UPPER_A <= b && b <= UPPER_Z
}

/// Tests whether `b` is a lowercase ASCII letter.
pub fn byte_is_lowercase(b: u8) -> (r: bool)
    ensures
        r == is_lowercase(b),
{
    LOWER_A <= b && b <= LOWER_Z
}

/// Tests whether `b` is an ASCII digit.
pub fn byte_is_digit(b: u8) -> (r: bool)
    ensures
        r == is_digit(b),
{
    DIGIT_0 <= b && b <= DIGIT_9
}

/// Tests whether `b` is an ASCII letter or digit.
pub fn byte_is_alphanumeric(b: u8) -> (r: bool)
    ensures
        r == is_alphanumeric(b),
{
    byte_is_uppercase(b) || byte_is_lowercase(b) || byte_is_digit(b)
}

/// Tests whether every byte of `bytes` is an ASCII letter or digit.
pub fn bytes_all_alphanumeric(bytes: &[u8]) -> (r: bool)
    ensures
        r == all_alphanumeric(bytes@),
{
    let mut i: usize = 0;
    while i < bytes.len()
        invariant
            i <= bytes.len(),
            forall|j: int| 0 <= j < i ==> is_alphanumeric(#[trigger] bytes@[j]),
        decreases bytes.len() - i,
    {
        if !byte_is_alphanumeric(bytes[i]) {
            return false;
        }
        i += 1;
    }
    true
}

/// Letters and digits are ASCII.
pub proof fn lemma_alphanumeric_is_ascii(bytes: Seq<u8>)
    requires
        all_alphanumeric(bytes),
    ensures
        all_ascii(bytes),
{
    assert forall|i: int| 0 <= i < bytes.len() implies is_ascii(#[trigger] bytes[i]) by {
        assert(is_alphanumeric(bytes[i]));
    }
}

} // verus!
