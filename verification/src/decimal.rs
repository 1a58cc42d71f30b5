//! Decimal numerals as text: an optional sign followed by digits.

use vstd::prelude::*;
use vstd::string::StringSliceAdditionalSpecFns;

verus! {

broadcast use vstd::string::is_ascii_spec_bytes;

/// Whether `c` is one of the ten decimal digits.
pub open spec fn is_digit(c: char) -> bool {
    '0' <= c && c <= '9'
}

/// The number that the digit `c` stands for.
pub open spec fn digit_of(c: char) -> int {
    c as u8 as int - 48
}

/// Whether `s` holds decimal digits only.
pub open spec fn all_digits(s: Seq<char>) -> bool {
    forall|i: int| 0 <= i < s.len() ==> is_digit(#[trigger] s[i])
}

/// The number that the digits of `s` stand for, most significant first.
pub open spec fn digits_value(s: Seq<char>) -> int
    decreases s.len(),
{
    if s.len() == 0 {
        0
    } else {
        10 * digits_value(s.drop_last()) + digit_of(s.last())
    }
}

/// The number that `s` stands for when it is one digit or more.
pub open spec fn unsigned_numeral(s: Seq<char>) -> Option<int> {
    if s.len() > 0 && all_digits(s) {
        Some(digits_value(s))
    } else {
        None
    }
}

/// The number that `s` stands for when it is a numeral: digits after an
/// optional `+`, or after a `-` where `signed` allows one.
pub open spec fn numeral(s: Seq<char>, signed: bool) -> Option<int> {
    if s.len() > 0 && s[0] == '+' {
        unsigned_numeral(s.skip(1))
    } else if s.len() > 0 && s[0] == '-' && signed {
        match unsigned_numeral(s.skip(1)) {
            Some(v) => Some(-v),
            None => None,
        }
    } else {
        unsigned_numeral(s)
    }
}

/// The `i32` that `s` stands for, if it is a signed numeral in range.
pub open spec fn decimal_i32(s: Seq<char>) -> Option<i32> {
    match numeral(s, true) {
        Some(v) => if i32::MIN <= v <= i32::MAX {
            Some(v as i32)
        } else {
            None
        },
        None => None,
    }
}

/// The `u64` that `s` stands for, if it is an unsigned numeral in range.
pub open spec fn decimal_u64(s: Seq<char>) -> Option<u64> {
    match numeral(s, false) {
        Some(v) => if v <= u64::MAX {
            Some(v as u64)
        } else {
            None
        },
        None => None,
    }
}

/// The value of a run of digits is not negative and not below the value of
/// any of its prefixes.
pub proof fn lemma_digits_value_grows(s: Seq<char>, k: int)
    requires
        all_digits(s),
        0 <= k <= s.len(),
    ensures
        0 <= digits_value(s.take(k)) <= digits_value(s),
    decreases s.len() - k,
{
    lemma_digits_value_nonnegative(s.take(k));
    if k < s.len() {
        lemma_digits_value_grows(s, k + 1);
        let t = s.take(k + 1);
        assert(t.drop_last() == s.take(k));
        assert(is_digit(s[k]));
        assert(t.last() == s[k]);
    } else {
        assert(s.take(k) == s);
    }
}

/// The value of a run of digits is not negative.
pub proof fn lemma_digits_value_nonnegative(s: Seq<char>)
    requires
        all_digits(s),
    ensures
        0 <= digits_value(s),
    decreases s.len(),
{
    if s.len() > 0 {
        assert(is_digit(s.last()));
        assert forall|i: int| 0 <= i < s.drop_last().len() implies is_digit(
            #[trigger] s.drop_last()[i],
        ) by {
            assert(s.drop_last()[i] == s[i]);
        }
        lemma_digits_value_nonnegative(s.drop_last());
    }
}

/// Reads the digits of `bytes` from `start` on, up to `limit`.
fn read_digits(text: &str, bytes: &[u8], start: usize, limit: u64) -> (r: Option<u64>)
    requires
        text.is_ascii(),
        bytes@ == text.spec_bytes(),
        start <= text@.len(),
    ensures
        r == match unsigned_numeral(text@.skip(start as int)) {
            Some(v) => if v <= limit {
                Some(v as u64)
            } else {
                None
            },
            None => None,
        },
        unsigned_numeral(text@.skip(start as int)) matches Some(v) ==> 0 <= v,
{
    let n: usize = bytes.len();
    let ghost body = text@.skip(start as int);
    proof {
        if all_digits(body) {
            lemma_digits_value_nonnegative(body);
        }
    }
    if start == n {
        return None;
    }
    let mut acc: u64 = 0;
    let mut i: usize = start;
    while i < n
        invariant
            text.is_ascii(),
            bytes@ == text.spec_bytes(),
            n == text@.len(),
            body == text@.skip(start as int),
            start <= i <= n,
            all_digits(body.take(i - start)),
            acc == digits_value(body.take(i - start)),
            acc <= limit,
        decreases n - i,
    {
        let b: u8 = bytes[i];
        assert(b == text@[i as int] as u8);
        assert(body[i - start] == text@[i as int]);
        if b < 48 || b > 57 {
            assert(!is_digit(body[i - start]));
            return None;
        }
        let d: u64 = (b - 48) as u64;
        let ghost next = body.take(i - start + 1);
        proof {
            assert(next.drop_last() == body.take(i - start));
            assert(next.last() == body[i - start]);
            assert(is_digit(next.last()));
            assert(digits_value(next) == 10 * acc + d);
            assert forall|j: int| 0 <= j < next.len() implies is_digit(#[trigger] next[j]) by {
                if j < i - start {
                    assert(body.take(i - start)[j] == next[j]);
                }
            }
        }
        if d > limit || acc > (limit - d) / 10 {
            proof {
                if all_digits(body) {
                    lemma_digits_value_grows(body, i - start + 1);
                }
            }
            return None;
        }
        acc = acc * 10 + d;
        i = i + 1;
    }
    assert(body.take(i - start) == body);
    Some(acc)
}

/// Parses a signed decimal numeral that fits in an `i32`.
pub fn parse_i32(text: &str) -> (r: Option<i32>)
    ensures
        r == decimal_i32(text@),
{
    if !text.is_ascii() {
        proof {
            lemma_not_ascii_no_numeral(text@, true);
        }
        return None;
    }
    let bytes = text.as_bytes();
    if bytes.len() == 0 {
        return None;
    }
    let first: u8 = bytes[0];
    assert(first == text@[0] as u8);
    if first == 45 {
        assert(text@[0] == '-');
        match read_digits(text, bytes, 1, 2147483648) {
            Some(v) => {
                if v == 2147483648 {
                    Some(i32::MIN)
                } else {
                    Some(-(v as i32))
                }
            },
            None => None,
        }
    } else if first == 43 {
        assert(text@[0] == '+');
        match read_digits(text, bytes, 1, 2147483647) {
            Some(v) => Some(v as i32),
            None => None,
        }
    } else {
        assert(text@.skip(0) == text@);
        match read_digits(text, bytes, 0, 2147483647) {
            Some(v) => Some(v as i32),
            None => None,
        }
    }
}

/// Parses an unsigned decimal numeral that fits in a `u64`.
pub fn parse_u64(text: &str) -> (r: Option<u64>)
    ensures
        r == decimal_u64(text@),
{
    if !text.is_ascii() {
        proof {
            lemma_not_ascii_no_numeral(text@, false);
        }
        return None;
    }
    let bytes = text.as_bytes();
    if bytes.len() == 0 {
        return None;
    }
    let first: u8 = bytes[0];
    assert(first == text@[0] as u8);
    if first == 43 {
        assert(text@[0] == '+');
        read_digits(text, bytes, 1, u64::MAX)
    } else {
        assert(text@[0] != '+');
        assert(text@.skip(0) == text@);
        read_digits(text, bytes, 0, u64::MAX)
    }
}

/// A text with a character outside ASCII is no numeral.
pub proof fn lemma_not_ascii_no_numeral(s: Seq<char>, signed: bool)
    requires
        !vstd::utf8::is_ascii_chars(s),
    ensures
        numeral(s, signed) is None,
{
    let i = choose|i: int| 0 <= i < s.len() && !('\0' <= #[trigger] s[i] <= '\u{7f}');
    assert(!is_digit(s[i]));
    if i > 0 {
        assert(s.skip(1)[i - 1] == s[i]);
    }
}

} // verus!
