//! Decimal integers written as text.
use vstd::prelude::*;

verus! {

/// Why a text does not hold a decimal integer of the wanted type.
#[derive(Debug, Clone, Copy, PartialEq, Eq, Structural)]
pub enum IntErrorKind {
    /// The text is empty.
    Empty,
    /// The text holds a character that is not a digit where one is needed.
    InvalidDigit,
    /// The number is above the type's largest value.
    PosOverflow,
    /// The number is below the type's smallest value.
    NegOverflow,
}

pub open spec fn is_digit(c: char) -> bool {
    '0' <= c && c <= '9'
}

pub open spec fn digit_value(c: char) -> int {
    (c as int) - ('0' as int)
}

pub open spec fn all_digits(s: Seq<char>) -> bool {
    forall|i: int| 0 <= i < s.len() ==> is_digit(#[trigger] s[i])
}

/// The number that a string of decimal digits writes.
pub open spec fn digits_value(s: Seq<char>) -> int
    decreases s.len(),
{
    if s.len() == 0 {
        0
    } else {
        digits_value(s.drop_last()) * 10 + digit_value(s.last())
    }
}

/// The digits that follow an optional leading sign.
pub open spec fn unsigned_body(s: Seq<char>) -> Seq<char> {
    if s.len() > 0 && s[0] == '+' {
        s.skip(1)
    } else {
        s
    }
}

pub open spec fn signed_body(s: Seq<char>) -> Seq<char> {
    if s.len() > 0 && (s[0] == '+' || s[0] == '-') {
        s.skip(1)
    } else {
        s
    }
}

/// What a text reads as an unsigned 64-bit decimal number: an optional `+`,
/// then one or more digits.
pub open spec fn parse_u64_spec(s: Seq<char>) -> Result<u64, IntErrorKind> {
    let body = unsigned_body(s);
    if s.len() == 0 {
        Err(IntErrorKind::Empty)
    } else if body.len() == 0 || !all_digits(body) {
        Err(IntErrorKind::InvalidDigit)
    } else if digits_value(body) > u64::MAX {
        Err(IntErrorKind::PosOverflow)
    } else {
        Ok(digits_value(body) as u64)
    }
}

/// What a text reads as a signed 64-bit decimal number: an optional `+` or
/// `-`, then one or more digits.
pub open spec fn parse_i64_spec(s: Seq<char>) -> Result<i64, IntErrorKind> {
    let body = signed_body(s);
    if s.len() == 0 {
        Err(IntErrorKind::Empty)
    } else if body.len() == 0 || !all_digits(body) {
        Err(IntErrorKind::InvalidDigit)
    } else if s[0] == '-' {
        if -digits_value(body) < i64::MIN {
            Err(IntErrorKind::NegOverflow)
        } else {
            Ok((-digits_value(body)) as i64)
        }
    } else if digits_value(body) > i64::MAX {
        Err(IntErrorKind::PosOverflow)
    } else {
        Ok(digits_value(body) as i64)
    }
}

proof fn lemma_digits_value_nonneg(s: Seq<char>)
    requires
        all_digits(s),
    ensures
        digits_value(s) >= 0,
    decreases s.len(),
{
    if s.len() > 0 {
        assert(is_digit(s[s.len() - 1]));
        lemma_digits_value_nonneg(s.drop_last());
    }
}

proof fn lemma_digits_value_prefix(s: Seq<char>, k: int)
    requires
        all_digits(s),
        0 <= k <= s.len(),
    ensures
        digits_value(s.take(k)) <= digits_value(s),
    decreases s.len() - k,
{
    if k < s.len() {
        lemma_digits_value_prefix(s, k + 1);
        assert(s.take(k + 1).drop_last() =~= s.take(k));
        assert(all_digits(s.take(k)));
        lemma_digits_value_nonneg(s.take(k));
        assert(is_digit(s[k]));
    } else {
        assert(s.take(k) =~= s);
    }
}

/// Reads the digits of `s` from position `start` on as a number no larger
/// than `limit`, or says that they are not all digits, or that the number
/// is larger.
fn read_digits(s: &str, start: usize, limit: u64) -> (r: Result<u64, IntErrorKind>)
    requires
        start < s@.len(),
        limit >= 9,
    ensures
        ({
            let body = s@.skip(start as int);
            match r {
                Ok(v) => all_digits(body) && digits_value(body) <= limit && v == digits_value(body),
                Err(IntErrorKind::InvalidDigit) => !all_digits(body),
                Err(IntErrorKind::PosOverflow) => all_digits(body) && digits_value(body) > limit,
                Err(_) => false,
            }
        }),
{
    let n = s.unicode_len();
    let ghost body = s@.skip(start as int);
    let mut i: usize = start;
    while i < n
        invariant
            n == s@.len(),
            start <= i <= n,
            body == s@.skip(start as int),
            forall|j: int| start <= j < i ==> is_digit(#[trigger] s@[j]),
        decreases n - i,
    {
        let c = s.get_char(i);
        if !('0' <= c && c <= '9') {
            assert(body[i - start] == c);
            return Err(IntErrorKind::InvalidDigit);
        }
        i = i + 1;
    }
    assert(all_digits(body)) by {
        assert forall|j: int| 0 <= j < body.len() implies is_digit(#[trigger] body[j]) by {
            assert(body[j] == s@[j + start]);
        }
    }
    let mut acc: u64 = 0;
    let mut i: usize = start;
    while i < n
        invariant
            n == s@.len(),
            start <= i <= n,
            body == s@.skip(start as int),
            all_digits(body),
            limit >= 9,
            acc <= limit,
            acc == digits_value(body.take(i - start)),
        decreases n - i,
    {
        let c = s.get_char(i);
        let ghost k = i - start;
        assert(body[k] == c);
        assert(body.take(k + 1).drop_last() =~= body.take(k));
        assert(body.take(k + 1).last() == c);
        let d = (c as u32 - '0' as u32) as u64;
        assert(is_digit(body[k]));
        if acc > (limit - d) / 10 {
            assert(digits_value(body.take(k + 1)) > limit) by (nonlinear_arith)
                requires
                    digits_value(body.take(k + 1)) == acc * 10 + d,
                    acc > (limit - d) / 10,
                    d <= 9,
                    d <= limit,
            ;
            proof {
                lemma_digits_value_prefix(body, k + 1);
            }
            return Err(IntErrorKind::PosOverflow);
        }
        acc = acc * 10 + d;
        i = i + 1;
    }
    assert(body.take(n - start) =~= body);
    Ok(acc)
}

/// Reads a text as an unsigned decimal number: an optional `+`, then one
/// or more digits, nothing else.
pub fn decode_unsigned(text: &str) -> (r: Result<u64, IntErrorKind>)
    ensures
        r == parse_u64_spec(text@),
{
    let n = text.unicode_len();
    if n == 0 {
        return Err(IntErrorKind::Empty);
    }
    let start: usize = if text.get_char(0) == '+' { 1 } else { 0 };
    assert(unsigned_body(text@) =~= text@.skip(start as int));
    if start == n {
        return Err(IntErrorKind::InvalidDigit);
    }
    read_digits(text, start, u64::MAX)
}

/// Reads a text as a signed decimal number: an optional `+` or `-`, then
/// one or more digits, nothing else.
pub fn decode_integer(text: &str) -> (r: Result<i64, IntErrorKind>)
    ensures
        r == parse_i64_spec(text@),
{
    let n = text.unicode_len();
    if n == 0 {
        return Err(IntErrorKind::Empty);
    }
    let first = text.get_char(0);
    let negative = first == '-';
    let start: usize = if first == '+' || first == '-' { 1 } else { 0 };
    assert(signed_body(text@) =~= text@.skip(start as int));
    if start == n {
        return Err(IntErrorKind::InvalidDigit);
    }
    if negative {
        match read_digits(text, start, 0x8000_0000_0000_0000u64) {
            Ok(m) => {
                if m == 0x8000_0000_0000_0000u64 {
                    Ok(i64::MIN)
                } else {
                    Ok(-(m as i64))
                }
            },
            Err(IntErrorKind::PosOverflow) => Err(IntErrorKind::NegOverflow),
            Err(e) => Err(e),
        }
    } else {
        match read_digits(text, start, 0x7fff_ffff_ffff_ffffu64) {
            Ok(m) => Ok(m as i64),
            Err(e) => Err(e),
        }
    }
}

} // verus!
