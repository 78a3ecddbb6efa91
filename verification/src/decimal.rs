use vstd::prelude::*;

verus! {

/// The largest magnitude that an `i32` written in decimal can have
/// (that of `i32::MIN`).
pub const I32_MAGNITUDE_LIMIT: i64 = 2147483648;

/// A magnitude that no `i32` reaches; the reader stops counting there.
const MAGNITUDE_CAP: i64 = 2147483649;

pub open spec fn is_decimal_digit(c: char) -> bool {
    '0' <= c && c <= '9'
}

pub open spec fn digit_value(c: char) -> int {
    c as int - '0' as int
}

pub open spec fn all_decimal_digits(s: Seq<char>) -> bool {
    forall|i: int| 0 <= i < s.len() ==> #[trigger] is_decimal_digit(s[i])
}

/// The number that a run of decimal digits denotes, most significant first.
pub open spec fn digits_value(s: Seq<char>) -> int
    decreases s.len(),
{
    if s.len() == 0 {
        0
    } else {
        digits_value(s.drop_last()) * 10 + digit_value(s.last())
    }
}

/// Whether the text starts with a minus sign.
pub open spec fn has_minus_sign(s: Seq<char>) -> bool {
    s.len() > 0 && s[0] == '-'
}

/// The digits of the text: what follows one leading `+` or `-`, or the
/// whole text where there is no sign.
pub open spec fn unsigned_part(s: Seq<char>) -> Seq<char> {
    if s.len() > 0 && (s[0] == '-' || s[0] == '+') {
        s.drop_first()
    } else {
        s
    }
}

/// What reading the text as a decimal `i32` gives: an optional sign, then at
/// least one ASCII digit and nothing else, of a value in the range of `i32`.
/// Any other text, the empty one and a lone sign among them, reads as nothing.
pub open spec fn spec_parse_i32(s: Seq<char>) -> Option<i32> {
    let digits = unsigned_part(s);
    let value = if has_minus_sign(s) {
        -digits_value(digits)
    } else {
        digits_value(digits)
    };
    if digits.len() == 0 || !all_decimal_digits(digits) {
        None
    } else if i32::MIN <= value <= i32::MAX {
        Some(value as i32)
    } else {
        None
    }
}

/// Reads `text` as a decimal `i32`, as `str::parse::<i32>` does: `None` for
/// text that is not one.
pub fn parse_i32(text: &str) -> (parsed: Option<i32>)
    ensures
        parsed == spec_parse_i32(text@),
{
    let len = text.unicode_len();
    let ghost s = text@;
    let mut start: usize = 0;
    let mut negative = false;
    if len > 0 {
        let first = text.get_char(0);
        if first == '-' {
            start = 1;
            negative = true;
        } else if first == '+' {
            start = 1;
        }
    }
    assert(unsigned_part(s) =~= s.subrange(start as int, len as int));
    if start == len {
        return None;
    }
    let mut magnitude: i64 = 0;
    let mut i: usize = start;
    while i < len
        invariant
            s == text@,
            len == s.len(),
            start <= i <= len,
            unsigned_part(s) == s.subrange(start as int, len as int),
            negative == has_minus_sign(s),
            all_decimal_digits(s.subrange(start as int, i as int)),
            digits_value(s.subrange(start as int, i as int)) < MAGNITUDE_CAP ==> magnitude
                == digits_value(s.subrange(start as int, i as int)),
            digits_value(s.subrange(start as int, i as int)) >= MAGNITUDE_CAP ==> magnitude
                == MAGNITUDE_CAP,
            0 <= digits_value(s.subrange(start as int, i as int)),
        decreases len - i,
    {
        let c = text.get_char(i);
        let ghost before = s.subrange(start as int, i as int);
        let ghost after = s.subrange(start as int, i + 1);
        assert(after.drop_last() =~= before);
        if !('0' <= c && c <= '9') {
            assert(!all_decimal_digits(unsigned_part(s))) by {
                assert(!is_decimal_digit(unsigned_part(s)[i - start]));
            }
            return None;
        }
        let d = (c as u32 - '0' as u32) as i64;
        assert(d == digit_value(c));
        if magnitude < MAGNITUDE_CAP {
            let next = magnitude * 10 + d;
            magnitude = if next < MAGNITUDE_CAP { next } else { MAGNITUDE_CAP };
        }
        assert(all_decimal_digits(after)) by {
            assert forall|k: int| 0 <= k < after.len() implies #[trigger] is_decimal_digit(
                after[k],
            ) by {
                if k < before.len() {
                    assert(after[k] == before[k]);
                }
            }
        }
        i = i + 1;
    }
    assert(s.subrange(start as int, len as int) =~= unsigned_part(s));
    if negative {
        if magnitude <= I32_MAGNITUDE_LIMIT {
            Some((0 - magnitude) as i32)
        } else {
            None
        }
    } else {
        if magnitude < I32_MAGNITUDE_LIMIT {
            Some(magnitude as i32)
        } else {
            None
        }
    }
}

/// The character of a decimal digit `d`, for `0 <= d <= 9`.
pub open spec fn digit_char(d: int) -> char {
    (d + '0' as int) as char
}

/// The shortest decimal digits of a natural number, most significant first.
pub open spec fn decimal_digits(n: nat) -> Seq<char>
    decreases n,
{
    if n < 10 {
        seq![digit_char(n as int)]
    } else {
        decimal_digits(n / 10).push(digit_char((n % 10) as int))
    }
}

/// A number written in decimal, with a minus sign where it is negative.
pub open spec fn decimal_text(n: int) -> Seq<char> {
    if n < 0 {
        seq!['-'] + decimal_digits((-n) as nat)
    } else {
        decimal_digits(n as nat)
    }
}

proof fn lemma_decimal_digits(n: nat)
    ensures
        decimal_digits(n).len() > 0,
        all_decimal_digits(decimal_digits(n)),
        digits_value(decimal_digits(n)) == n,
        is_decimal_digit(decimal_digits(n)[0]),
    decreases n,
{
    if n < 10 {
        assert(digit_value(digit_char(n as int)) == n);
        let s = decimal_digits(n);
        assert(s.drop_last() =~= Seq::<char>::empty());
        assert(digits_value(Seq::<char>::empty()) == 0);
        assert(digits_value(s) == digits_value(s.drop_last()) * 10 + digit_value(s.last()));
    } else {
        lemma_decimal_digits(n / 10);
        let s = decimal_digits(n);
        assert(s.drop_last() =~= decimal_digits(n / 10));
        assert(digit_value(digit_char((n % 10) as int)) == n % 10);
        assert(s.last() == digit_char((n % 10) as int));
        assert(digits_value(s) == digits_value(decimal_digits(n / 10)) * 10 + n % 10);
        assert((n / 10) * 10 + n % 10 == n);
        assert(s[0] == decimal_digits(n / 10)[0]);
        assert forall|k: int| 0 <= k < s.len() implies #[trigger] is_decimal_digit(s[k]) by {
            if k < s.len() - 1 {
                assert(s[k] == decimal_digits(n / 10)[k]);
            }
        }
    }
}

/// Every `i32`, written in decimal, reads back as itself.
pub proof fn lemma_parse_reads_back_decimal(n: i32)
    ensures
        spec_parse_i32(decimal_text(n as int)) == Some(n),
{
    if n < 0 {
        let m = (-n) as nat;
        lemma_decimal_digits(m);
        let s = decimal_text(n as int);
        assert(s.drop_first() =~= decimal_digits(m));
        assert(unsigned_part(s) == decimal_digits(m));
    } else {
        let m = n as nat;
        lemma_decimal_digits(m);
        assert(unsigned_part(decimal_text(n as int)) == decimal_digits(m));
    }
}

/// A run of `count` zeros.
pub open spec fn zeros(count: nat) -> Seq<char> {
    Seq::new(count, |i: int| '0')
}

proof fn lemma_zeros_value(count: nat)
    ensures
        digits_value(zeros(count)) == 0,
        all_decimal_digits(zeros(count)),
    decreases count,
{
    if count > 0 {
        lemma_zeros_value((count - 1) as nat);
        assert(zeros(count).drop_last() =~= zeros((count - 1) as nat));
    } else {
        assert(zeros(count) =~= Seq::<char>::empty());
    }
}

proof fn lemma_leading_zeros_value(count: nat, digits: Seq<char>)
    ensures
        digits_value(zeros(count) + digits) == digits_value(digits),
    decreases digits.len(),
{
    if digits.len() == 0 {
        lemma_zeros_value(count);
        assert(zeros(count) + digits =~= zeros(count));
    } else {
        lemma_leading_zeros_value(count, digits.drop_last());
        assert((zeros(count) + digits).drop_last() =~= zeros(count) + digits.drop_last());
    }
}

/// Leading zeros and a leading `+` change nothing: a run of zeros followed
/// by the decimal digits of `m` reads as `m` where `m` fits in an `i32`, with
/// or without a `+` before it, and as `-m` behind a `-` where `-m` fits;
/// otherwise it reads as nothing.
pub proof fn lemma_parse_signs_and_leading_zeros(m: nat, count: nat)
    ensures
        spec_parse_i32(zeros(count) + decimal_digits(m)) == (if m <= i32::MAX {
            Some(m as i32)
        } else {
            None
        }),
        spec_parse_i32(seq!['+'] + zeros(count) + decimal_digits(m)) == (if m <= i32::MAX {
            Some(m as i32)
        } else {
            None
        }),
        spec_parse_i32(seq!['-'] + zeros(count) + decimal_digits(m)) == (if m <= 2147483648 {
            Some((-m) as i32)
        } else {
            None
        }),
{
    let digits = zeros(count) + decimal_digits(m);
    lemma_decimal_digits(m);
    lemma_zeros_value(count);
    lemma_leading_zeros_value(count, decimal_digits(m));
    assert(all_decimal_digits(digits)) by {
        assert forall|k: int| 0 <= k < digits.len() implies #[trigger] is_decimal_digit(
            digits[k],
        ) by {
            if k < count {
                assert(digits[k] == zeros(count)[k]);
            } else {
                assert(digits[k] == decimal_digits(m)[k - count]);
            }
        }
    }
    assert(is_decimal_digit(digits[0]));
    assert(unsigned_part(digits) == digits);
    assert((seq!['+'] + digits).drop_first() =~= digits);
    assert((seq!['-'] + digits).drop_first() =~= digits);
    assert(seq!['+'] + zeros(count) + decimal_digits(m) =~= seq!['+'] + digits);
    assert(seq!['-'] + zeros(count) + decimal_digits(m) =~= seq!['-'] + digits);
}

/// A character that is no ASCII digit, anywhere but as the sign in front,
/// makes the text read as nothing.
pub proof fn lemma_parse_rejects_stray_character(s: Seq<char>, i: int)
    requires
        0 <= i < s.len(),
        !('0' <= s[i] && s[i] <= '9'),
        i > 0 || (s[i] != '-' && s[i] != '+'),
    ensures
        spec_parse_i32(s) is None,
{
    let digits = unsigned_part(s);
    if s[0] == '-' || s[0] == '+' {
        assert(digits[i - 1] == s[i]);
        assert(!is_decimal_digit(digits[i - 1]));
    } else {
        assert(!is_decimal_digit(digits[i]));
    }
}

/// The empty text and a lone sign read as nothing.
pub proof fn lemma_parse_rejects_empty_and_lone_sign()
    ensures
        spec_parse_i32(Seq::<char>::empty()) is None,
        spec_parse_i32(seq!['-']) is None,
        spec_parse_i32(seq!['+']) is None,
{
    assert(seq!['-'].drop_first() =~= Seq::<char>::empty());
    assert(seq!['+'].drop_first() =~= Seq::<char>::empty());
}

/// A number outside the range of `i32`, written in decimal, reads as nothing.
pub proof fn lemma_parse_rejects_out_of_range(n: int)
    requires
        n < i32::MIN || n > i32::MAX,
    ensures
        spec_parse_i32(decimal_text(n)) is None,
{
    if n < 0 {
        let m = (-n) as nat;
        lemma_decimal_digits(m);
        let s = decimal_text(n);
        assert(s.drop_first() =~= decimal_digits(m));
        assert(unsigned_part(s) == decimal_digits(m));
    } else {
        lemma_decimal_digits(n as nat);
        assert(unsigned_part(decimal_text(n)) == decimal_digits(n as nat));
    }
}

} // verus!
