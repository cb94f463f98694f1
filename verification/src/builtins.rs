//! Checked forms of the builtins of `evalexpr` that can panic: `shl` and
//! `shr` shift an integer by any amount, `math::abs` negates any integer,
//! and `str::substring` slices a string at any byte offsets. These give the
//! builtin's result wherever the builtin does not panic, and an error
//! wherever it would.
use vstd::prelude::*;
use vstd::utf8::{
    encode_utf8, is_char_boundary, encode_utf8_valid_utf8, valid_utf8_split,
    is_char_boundary_iff_not_is_continuation_byte, is_char_boundary_start_end_of_seq,
};
use vstd::string::StringSliceAdditionalSpecFns;

verus! {

/// `a` shifted left by `b` bits, where `b` is a bit position of an `i64`;
/// none for any other shift amount.
pub fn checked_shift_left(a: i64, b: i64) -> (r: Option<i64>)
    ensures
        r == (if 0 <= b < 64 { Some(a << (b as u32)) } else { None::<i64> }),
{
    if 0 <= b && b < 64 {
        Some(a << (b as u32))
    } else {
        None
    }
}

/// `a` shifted right (arithmetically) by `b` bits, where `b` is a bit
/// position of an `i64`; none for any other shift amount.
pub fn checked_shift_right(a: i64, b: i64) -> (r: Option<i64>)
    ensures
        r == (if 0 <= b < 64 { Some(a >> (b as u32)) } else { None::<i64> }),
{
    if 0 <= b && b < 64 {
        Some(a >> (b as u32))
    } else {
        None
    }
}

/// The absolute value of `a`; none for `i64::MIN`, whose absolute value is
/// no `i64`.
pub fn checked_abs(a: i64) -> (r: Option<i64>)
    ensures
        a == i64::MIN ==> r is None,
        a != i64::MIN ==> r == Some((if a < 0 { -a } else { a as int }) as i64),
{
    if a == i64::MIN {
        None
    } else if a < 0 {
        Some(-a)
    } else {
        Some(a)
    }
}

/// Why a substring cannot be taken.
#[derive(Clone, Copy, Debug, PartialEq, Eq)]
pub enum SubstringError {
    /// An offset is negative, the start lies after the end, or the end lies
    /// after the string.
    OutOfBounds,
    /// An offset falls inside the UTF-8 encoding of a character.
    NotCharBoundary,
}

/// The byte range that `str::substring(subject, start[, end])` asks for:
/// from `start` to `end`, or to the end of the string where no end is given;
/// none where an offset is negative, the start lies after the end or the
/// end after the string.
pub open spec fn substring_range(subject: Seq<char>, start: i64, end: Option<i64>) -> Option<(int, int)> {
    let len = encode_utf8(subject).len() as int;
    let e: int = match end {
        Some(e) => e as int,
        None => len,
    };
    if start < 0 || e < 0 || start > e || e > len {
        None
    } else {
        Some((start as int, e))
    }
}

/// The bytes from `start` to `end` of `subject` (offsets into its UTF-8
/// encoding). An offset that is negative, a start after the end and an end
/// after the string are out of bounds; an offset inside a character is no
/// boundary.
pub fn checked_substring(subject: &str, start: i64, end: Option<i64>) -> (r: Result<String, SubstringError>)
    requires
        encode_utf8(subject@).len() <= usize::MAX,
    ensures
        match substring_range(subject@, start, end) {
            None => r == Err::<String, SubstringError>(SubstringError::OutOfBounds),
            Some((s, e)) => if is_char_boundary(encode_utf8(subject@), s)
                && is_char_boundary(encode_utf8(subject@), e) {
                r is Ok && encode_utf8(r->Ok_0@) == encode_utf8(subject@).subrange(s, e)
            } else {
                r == Err::<String, SubstringError>(SubstringError::NotCharBoundary)
            },
        },
{
    broadcast use vstd::string::group_string_axioms;

    proof {
        encode_utf8_valid_utf8(subject@);
    }
    let len: usize = subject.len();
    if start < 0 {
        return Err(SubstringError::OutOfBounds);
    }
    let e: usize = match end {
        Some(e) => {
            if e < 0 || e as u64 > len as u64 {
                return Err(SubstringError::OutOfBounds);
            }
            e as usize
        },
        None => len,
    };
    if start as u64 > e as u64 {
        return Err(SubstringError::OutOfBounds);
    }
    let s: usize = start as usize;
    if !subject.is_char_boundary(s) || !subject.is_char_boundary(e) {
        return Err(SubstringError::NotCharBoundary);
    }
    let ghost bytes = subject.spec_bytes();
    let (head, _) = subject.split_at(e);
    let ghost head_bytes = head.spec_bytes();
    assert(head_bytes == bytes.subrange(0, e as int));
    assert(is_char_boundary(head_bytes, s as int)) by {
        valid_utf8_split(bytes, e as int);
        if s < e {
            is_char_boundary_iff_not_is_continuation_byte(bytes, s as int);
            is_char_boundary_iff_not_is_continuation_byte(head_bytes, s as int);
        } else {
            is_char_boundary_start_end_of_seq(head_bytes);
        }
    }
    let (_, piece) = head.split_at(s);
    assert(piece.spec_bytes() == bytes.subrange(s as int, e as int));
    Ok(piece.to_string())
}

} // verus!
