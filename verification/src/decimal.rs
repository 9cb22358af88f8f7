//! Reading and writing unsigned decimal numbers.

use vstd::prelude::*;

verus! {

use crate::json::is_digit;

/// The value of a sequence of decimal digits.
pub open spec fn dec_val(s: Seq<char>) -> int
    decreases s.len(),
{
    if s.len() == 0 {
        0
    } else {
        dec_val(s.drop_last()) * 10 + (s.last() as u32 - '0' as u32)
    }
}

/// A non-empty sequence of decimal digits.
pub open spec fn is_dec_digits(s: Seq<char>) -> bool {
    s.len() > 0 && forall|i: int| 0 <= i < s.len() ==> is_digit(#[trigger] s[i])
}

/// The number a text of decimal digits denotes, if it is one and fits.
pub open spec fn dec_u64_of(s: Seq<char>) -> Option<u64> {
    if is_dec_digits(s) && dec_val(s) <= u64::MAX {
        Some(dec_val(s) as u64)
    } else {
        None
    }
}

/// The value of a digit sequence is no less than the value of any prefix.
proof fn lemma_dec_val_prefix(s: Seq<char>, i: int)
    requires
        0 <= i <= s.len(),
        forall|k: int| 0 <= k < s.len() ==> is_digit(#[trigger] s[k]),
    ensures
        0 <= dec_val(s.take(i)) <= dec_val(s),
    decreases s.len() - i,
{
    lemma_dec_val_nonneg(s.take(i));
    if i < s.len() {
        assert(s.take(i + 1).drop_last() =~= s.take(i));
        assert(s.take(i + 1).last() == s[i]);
        assert(dec_val(s.take(i + 1)) == dec_val(s.take(i)) * 10 + (s[i] as u32 - '0' as u32));
        lemma_dec_val_prefix(s, i + 1);
    } else {
        assert(s.take(i) =~= s);
    }
}

/// The value of a digit sequence is never negative.
proof fn lemma_dec_val_nonneg(s: Seq<char>)
    requires
        forall|k: int| 0 <= k < s.len() ==> is_digit(#[trigger] s[k]),
    ensures
        dec_val(s) >= 0,
    decreases s.len(),
{
    if s.len() > 0 {
        assert(forall|k: int|
            0 <= k < s.drop_last().len() ==> is_digit(#[trigger] s.drop_last()[k]));
        lemma_dec_val_nonneg(s.drop_last());
    }
}

/// Read an unsigned decimal number from a vector of characters, exactly as
/// [`dec_u64_of`] describes: every character must be a digit and the value
/// must fit.
pub fn parse_dec_u64(s: &Vec<char>) -> (r: Option<u64>)
    ensures
        r == dec_u64_of(s@),
{
    if s.len() == 0 {
        return None;
    }
    let mut val: u64 = 0;
    let mut i: usize = 0;
    while i < s.len()
        invariant
            0 <= i <= s@.len(),
            forall|k: int| 0 <= k < i ==> is_digit(#[trigger] s@[k]),
            val == dec_val(s@.take(i as int)),
        decreases s@.len() - i,
    {
        let c = s[i];
        if !('0' <= c && c <= '9') {
            return None;
        }
        let d = c as u32 - '0' as u32;
        proof {
            assert(s@.take(i + 1).drop_last() =~= s@.take(i as int));
            assert(s@.take(i + 1).last() == s@[i as int]);
        }
        if val > (u64::MAX - d as u64) / 10 {
            proof {
                assert(dec_val(s@.take(i + 1)) == val * 10 + d);
                if is_dec_digits(s@) {
                    lemma_dec_val_prefix(s@, i + 1);
                }
            }
            return None;
        }
        val = val * 10 + d as u64;
        i += 1;
    }
    proof {
        assert(s@.take(i as int) =~= s@);
    }
    Some(val)
}

/// The character of a decimal digit given as its code point value.
fn digit_char(d: u32) -> (c: char)
    requires
        '0' as u32 <= d <= '9' as u32,
    ensures
        c == (d as char),
{
    (d as u8) as char
}

/// The decimal digits of a number, most significant first.
pub open spec fn dec_digits(n: int) -> Seq<char>
    decreases n,
{
    if n < 0 {
        Seq::empty()
    } else if n < 10 {
        seq![((n + '0' as u32) as u32) as char]
    } else {
        dec_digits(n / 10).push((((n % 10) + '0' as u32) as u32) as char)
    }
}

/// Write a number as its decimal digits, exactly as [`dec_digits`]
/// describes.
pub fn u64_to_dec(n: u64) -> (r: Vec<char>)
    ensures
        r@ == dec_digits(n as int),
    decreases n,
{
    if n < 10 {
        let d: u32 = n as u32 + '0' as u32;
        let c = digit_char(d);
        let mut v: Vec<char> = Vec::new();
        v.push(c);
        proof {
            assert(v@ =~= seq![((n + '0' as u32) as u32) as char]);
        }
        v
    } else {
        let mut v = u64_to_dec(n / 10);
        let d: u32 = (n % 10) as u32 + '0' as u32;
        let c = digit_char(d);
        v.push(c);
        v
    }
}

/// The decimal digits of a signed number, with a leading minus sign when it
/// is negative.
pub open spec fn dec_digits_signed(n: int) -> Seq<char> {
    if n < 0 {
        seq!['-'] + dec_digits(-n)
    } else {
        dec_digits(n)
    }
}

/// Write a signed number as its decimal digits, exactly as
/// [`dec_digits_signed`] describes.
pub fn i64_to_dec(n: i64) -> (r: Vec<char>)
    ensures
        r@ == dec_digits_signed(n as int),
{
    if n >= 0 {
        u64_to_dec(n as u64)
    } else {
        let m: u64 = ((-(n + 1)) as u64) + 1;
        proof {
            assert(m as int == -(n as int));
        }
        let mut v: Vec<char> = Vec::new();
        v.push('-');
        let mut digits = u64_to_dec(m);
        v.append(&mut digits);
        proof {
            assert(v@ =~= seq!['-'] + dec_digits(-(n as int)));
        }
        v
    }
}

} // verus!
