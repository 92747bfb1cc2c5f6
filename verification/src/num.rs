//! Decimal parsing of the line and column fragments of an argument.
//!
//! A fragment is accepted only when it is non-empty, consists of ASCII
//! digits alone, and its decimal value fits in `usize`. The two ways a
//! fragment can be rejected are distinguished, because the resolver
//! reports them to the caller.

use vstd::prelude::*;

verus! {

/// Why a line or column fragment could not be read as a number.
#[derive(Clone, Copy, Debug, PartialEq, Eq, Structural)]
pub enum NumError {
    /// The fragment is empty or contains a character that is not an
    /// ASCII digit.
    NotNumeric,
    /// The fragment is all digits but its value does not fit in `usize`.
    TooLarge,
}

/// `c` is an ASCII decimal digit.
pub open spec fn is_digit(c: char) -> bool {
    48 <= c as u32 && c as u32 <= 57
}

/// Numeric value of a digit character.
pub open spec fn digit_val(c: char) -> nat {
    (c as u32 - 48) as nat
}

/// Every character of `s` is an ASCII decimal digit.
pub open spec fn all_digits(s: Seq<char>) -> bool {
    forall|i: int| 0 <= i < s.len() ==> is_digit(s[i])
}

/// The value of `s` read as a decimal numeral, most significant digit
/// first. Meaningful when `all_digits(s)` holds.
pub open spec fn dec_value(s: Seq<char>) -> nat
    decreases s.len(),
{
    if s.len() == 0 {
        0
    } else {
        dec_value(s.drop_last()) * 10 + digit_val(s.last())
    }
}

/// What parsing a fragment yields: the number when the fragment is a
/// well-formed decimal numeral that fits in `usize`, otherwise the
/// reason it is rejected.
pub open spec fn spec_parse_number(s: Seq<char>) -> Result<usize, NumError> {
    if !(s.len() > 0 && all_digits(s)) {
        Err(NumError::NotNumeric)
    } else if dec_value(s) > usize::MAX {
        Err(NumError::TooLarge)
    } else {
        Ok(dec_value(s) as usize)
    }
}

proof fn lemma_dec_value_step(s: Seq<char>, i: int)
    requires
        0 <= i < s.len(),
    ensures
        dec_value(s.take(i + 1)) == dec_value(s.take(i)) * 10 + digit_val(s[i]),
{
    assert(s.take(i + 1).drop_last() =~= s.take(i));
    assert(s.take(i + 1).last() == s[i]);
}

/// Parse a fragment as an unsigned decimal number.
pub fn parse_number(s: &str) -> (r: Result<usize, NumError>)
    ensures
        r == spec_parse_number(s@),
{
    let n = s.unicode_len();
    if n == 0 {
        return Err(NumError::NotNumeric);
    }
    let mut acc: usize = 0;
    let mut too_big = false;
    let mut i: usize = 0;
    while i < n
        invariant
            0 <= i <= n,
            n == s@.len(),
            all_digits(s@.take(i as int)),
            !too_big ==> acc as nat == dec_value(s@.take(i as int)),
            too_big ==> dec_value(s@.take(i as int)) > usize::MAX,
        decreases n - i,
    {
        let c = s.get_char(i);
        let u = c as u32;
        if u < 48 || u > 57 {
            assert(!is_digit(s@[i as int]));
            return Err(NumError::NotNumeric);
        }
        let d = (u - 48) as usize;
        proof {
            lemma_dec_value_step(s@, i as int);
            assert(s@.take(i as int + 1)[i as int] == s@[i as int]);
        }
        if too_big {
            proof {
                assert(dec_value(s@.take(i as int + 1)) >= dec_value(s@.take(i as int)) * 10);
            }
        } else {
            match acc.checked_mul(10) {
                Some(t) => match t.checked_add(d) {
                    Some(v) => {
                        acc = v;
                    },
                    None => {
                        too_big = true;
                    },
                },
                None => {
                    too_big = true;
                },
            }
        }
        i = i + 1;
    }
    proof {
        assert(s@.take(n as int) =~= s@);
    }
    if too_big {
        Err(NumError::TooLarge)
    } else {
        Ok(acc)
    }
}

} // verus!
