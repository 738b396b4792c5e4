use vstd::prelude::*;

verus! {

/// Why a duration typed by the user was not accepted.
#[derive(Clone, Copy, Debug, PartialEq, Eq, Structural)]
pub enum InputError {
    /// The text is not a decimal integer (empty, a bare sign, or a non-digit).
    NotANumber,
    /// The text is a decimal integer below zero.
    Negative,
    /// The text is a decimal integer above `MAX_MINUTES`.
    TooLarge,
}

/// The largest number of minutes a countdown may be armed with.
pub const MAX_MINUTES: u32 = 2147483647;

pub open spec fn is_digit(c: char) -> bool {
    '0' <= c && c <= '9'
}

pub open spec fn all_digits(s: Seq<char>) -> bool {
    s.len() > 0 && forall|i: int| 0 <= i < s.len() ==> is_digit(#[trigger] s[i])
}

/// The value of a string of decimal digits, most significant first.
pub open spec fn digits_value(s: Seq<char>) -> int
    decreases s.len(),
{
    if s.len() == 0 {
        0
    } else {
        digits_value(s.drop_last()) * 10 + (s.last() as int - '0' as int)
    }
}

/// The integer that `s` denotes: optional sign, then one or more decimal digits.
pub open spec fn signed_value(s: Seq<char>) -> Option<int> {
    if s.len() > 0 && s[0] == '-' && all_digits(s.drop_first()) {
        Some(-digits_value(s.drop_first()))
    } else if s.len() > 0 && s[0] == '+' && all_digits(s.drop_first()) {
        Some(digits_value(s.drop_first()))
    } else if all_digits(s) {
        Some(digits_value(s))
    } else {
        None
    }
}

/// The number of minutes that the text `s` asks for, or why it is refused.
pub open spec fn parse_minutes_spec(s: Seq<char>) -> Result<u32, InputError> {
    match signed_value(s) {
        None => Err(InputError::NotANumber),
        Some(v) => if v < 0 {
            Err(InputError::Negative)
        } else if v > MAX_MINUTES {
            Err(InputError::TooLarge)
        } else {
            Ok(v as u32)
        },
    }
}

proof fn lemma_digits_value_nonneg(s: Seq<char>)
    requires
        forall|i: int| 0 <= i < s.len() ==> is_digit(#[trigger] s[i]),
    ensures
        digits_value(s) >= 0,
    decreases s.len(),
{
    if s.len() > 0 {
        lemma_digits_value_nonneg(s.drop_last());
    }
}

/// Reads the number of minutes from the text of the duration field.
///
/// Accepts an optional `+` or `-` followed by one or more decimal digits and
/// nothing else; a value below zero or above `MAX_MINUTES` is refused.
pub fn parse_minutes(text: &str) -> (r: Result<u32, InputError>)
    ensures
        r == parse_minutes_spec(text@),
{
    let n = text.unicode_len();
    if n == 0 {
        return Err(InputError::NotANumber);
    }
    let first = text.get_char(0);
    let negative = first == '-';
    let start: usize = if first == '-' || first == '+' { 1 } else { 0 };
    if start == n {
        return Err(InputError::NotANumber);
    }
    let ghost s = text@;
    assert(start == 1 ==> !is_digit(s[0]));
    let mut acc: u64 = 0;
    let mut big = false;
    let mut i: usize = start;
    while i < n
        invariant
            s == text@,
            n == s.len(),
            start < n,
            start <= i <= n,
            start == 1 <==> (s[0] == '-' || s[0] == '+'),
            forall|j: int| start <= j < i ==> is_digit(#[trigger] s[j]),
            big ==> digits_value(s.subrange(start as int, i as int)) > MAX_MINUTES,
            !big ==> acc == digits_value(s.subrange(start as int, i as int)),
            !big ==> acc <= MAX_MINUTES,
        decreases n - i,
    {
        let c = text.get_char(i);
        if !('0' <= c && c <= '9') {
            if start == 1 {
                assert(s.drop_first()[i - 1] == c);
                assert(!all_digits(s.drop_first()));
            }
            assert(!all_digits(s)) by {
                if start == 1 {
                    assert(!is_digit(s[0]));
                } else {
                    assert(!is_digit(s[i as int]));
                }
            }
            return Err(InputError::NotANumber);
        }
        let ghost prev = s.subrange(start as int, i as int);
        let ghost next = s.subrange(start as int, i + 1);
        assert(next.drop_last() =~= prev);
        assert(next.last() == c);
        proof {
            lemma_digits_value_nonneg(prev);
        }
        if !big {
            acc = acc * 10 + (c as u64 - '0' as u64);
            if acc > MAX_MINUTES as u64 {
                big = true;
            }
        }
        i = i + 1;
    }
    let ghost digits = s.subrange(start as int, n as int);
    proof {
        lemma_digits_value_nonneg(digits);
        if start == 1 {
            assert(digits =~= s.drop_first());
            assert(all_digits(s.drop_first()));
        } else {
            assert(digits =~= s);
            assert(all_digits(s));
        }
    }
    if big {
        if negative {
            Err(InputError::Negative)
        } else {
            Err(InputError::TooLarge)
        }
    } else if negative && acc > 0 {
        Err(InputError::Negative)
    } else {
        Ok(acc as u32)
    }
}

} // verus!
