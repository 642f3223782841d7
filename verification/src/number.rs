//! Plain decimal notation for signed 64-bit integers.
//!
//! A number is an optional sign, `+` or `-`, followed by one or more of the
//! digits `0` to `9`, and its value fits in 64 bits. Nothing else is a
//! number: no decimal point, no separator of thousands, no white space.

use vstd::prelude::*;

verus! {

pub open spec fn is_digit(c: char) -> bool {
    '0' <= c <= '9'
}

pub open spec fn digit_value(c: char) -> int {
    c as u32 as int - 48
}

pub open spec fn all_digits(text: Seq<char>) -> bool {
    forall|i: int| 0 <= i < text.len() ==> is_digit(#[trigger] text[i])
}

/// The value of a run of digits, read in base ten.
pub open spec fn decimal(digits: Seq<char>) -> int
    decreases digits.len(),
{
    if digits.len() == 0 {
        0
    } else {
        10 * decimal(digits.drop_last()) + digit_value(digits.last())
    }
}

pub open spec fn has_sign(text: Seq<char>) -> bool {
    text.len() > 0 && (text[0] == '+' || text[0] == '-')
}

/// What follows the sign, or the whole text where there is none.
pub open spec fn magnitude(text: Seq<char>) -> Seq<char> {
    if has_sign(text) {
        text.subrange(1, text.len() as int)
    } else {
        text
    }
}

/// The integer that `text` denotes, if it denotes one that fits in 64 bits.
pub open spec fn number_value(text: Seq<char>) -> Option<int> {
    let digits = magnitude(text);
    if digits.len() == 0 || !all_digits(digits) {
        None
    } else {
        let value = if text[0] == '-' {
            -decimal(digits)
        } else {
            decimal(digits)
        };
        if i64::MIN <= value <= i64::MAX {
            Some(value)
        } else {
            None
        }
    }
}

/// Whether `text` is a number.
pub open spec fn number_syntax(text: Seq<char>) -> bool {
    number_value(text) is Some
}

proof fn lemma_decimal_grows(digits: Seq<char>, k: int)
    requires
        all_digits(digits),
        0 <= k <= digits.len(),
    ensures
        0 <= decimal(digits.subrange(0, k)) <= decimal(digits),
    decreases digits.len(),
{
    if k == digits.len() {
        assert(digits.subrange(0, k) =~= digits);
        if digits.len() > 0 {
            assert(all_digits(digits.drop_last()));
            lemma_decimal_grows(digits.drop_last(), k - 1);
            assert(is_digit(digits.last()));
        }
    } else {
        assert(all_digits(digits.drop_last()));
        lemma_decimal_grows(digits.drop_last(), k);
        lemma_decimal_grows(digits.drop_last(), digits.len() - 1);
        assert(digits.drop_last().subrange(0, k) =~= digits.subrange(0, k));
        assert(digits.drop_last().subrange(0, digits.len() - 1) =~= digits.drop_last());
        assert(is_digit(digits.last()));
    }
}

proof fn lemma_not_ascii_not_number(text: Seq<char>)
    requires
        !vstd::utf8::is_ascii_chars(text),
    ensures
        number_value(text) is None,
{
    let i = choose|i: int| 0 <= i < text.len() && !('\0' <= #[trigger] text[i] <= '\u{7f}');
    let digits = magnitude(text);
    if has_sign(text) {
        assert(i >= 1);
        assert(digits[i - 1] == text[i]);
        assert(!is_digit(digits[i - 1]));
    } else {
        assert(!is_digit(digits[i]));
    }
}

/// Reads `text` as a number.
pub fn parse_number(text: &str) -> (value: Option<i64>)
    ensures
        match value {
            Some(v) => number_value(text@) == Some(v as int),
            None => number_value(text@) is None,
        },
{
    if !text.is_ascii() {
        proof {
            lemma_not_ascii_not_number(text@);
        }
        return None;
    }
    let bytes = text.as_bytes();
    let n = bytes.len();
    proof {
        vstd::string::is_ascii_spec_bytes(text);
        assert(bytes@.len() == text@.len());
        assert(forall|i: int| 0 <= i < n ==> bytes@[i] == text@[i] as u8);
    }
    let negative = n > 0 && bytes[0] == 45u8;
    let start: usize = if n > 0 && (bytes[0] == 43u8 || bytes[0] == 45u8) {
        1
    } else {
        0
    };
    let ghost digits = magnitude(text@);
    assert(has_sign(text@) == (start == 1));
    assert(digits.len() == n - start);
    assert(forall|i: int| 0 <= i < digits.len() ==> digits[i] == text@[i + start]);
    if start == n {
        return None;
    }
    let mut total: u64 = 0;
    let mut i: usize = start;
    while i < n
        invariant
            start <= i <= n,
            n == bytes@.len(),
            n == text@.len(),
            digits == magnitude(text@),
            digits.len() == n - start,
            forall|j: int| 0 <= j < n ==> bytes@[j] == text@[j] as u8,
            forall|j: int| 0 <= j < n ==> '\0' <= #[trigger] text@[j] <= '\u{7f}',
            forall|j: int| 0 <= j < digits.len() ==> digits[j] == text@[j + start],
            forall|j: int| 0 <= j < i - start ==> is_digit(#[trigger] digits[j]),
            total == decimal(digits.subrange(0, i - start)),
        decreases n - i,
    {
        let byte = bytes[i];
        let ghost c = digits[i - start];
        assert(c == text@[i as int]);
        assert(byte == c as u8);
        if byte < 48u8 || byte > 57u8 {
            assert(!is_digit(c));
            return None;
        }
        assert(is_digit(c));
        let digit: u64 = (byte - 48u8) as u64;
        assert(digit == digit_value(c));
        proof {
            let next = digits.subrange(0, i - start + 1);
            assert(next.drop_last() =~= digits.subrange(0, i - start));
            assert(next.last() == c);
            assert(decimal(next) == 10 * total + digit);
        }
        let grown = match total.checked_mul(10) {
            Some(tenfold) => tenfold.checked_add(digit),
            None => None,
        };
        match grown {
            Some(sum) => {
                total = sum;
            },
            None => {
                proof {
                    if all_digits(digits) {
                        lemma_decimal_grows(digits, i - start + 1);
                    }
                }
                return None;
            },
        }
        i += 1;
    }
    proof {
        assert(digits.subrange(0, n - start) =~= digits);
        assert(all_digits(digits));
        assert(negative == (text@[0] == '-'));
    }
    if negative {
        if total > 0x8000_0000_0000_0000u64 {
            None
        } else if total == 0x8000_0000_0000_0000u64 {
            Some(i64::MIN)
        } else {
            Some(-(total as i64))
        }
    } else {
        if total > 0x7fff_ffff_ffff_ffffu64 {
            None
        } else {
            Some(total as i64)
        }
    }
}

} // verus!
