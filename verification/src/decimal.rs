//! Unsigned decimal numbers as text.

use vstd::prelude::*;
use vstd::string::*;

verus! {

/// Why a text is not a decimal number within a bound.
#[derive(Debug, Clone, Copy, PartialEq, Eq, Structural)]
pub enum DecimalError {
    /// The text is empty.
    Empty,
    /// A character is no digit and the digits before it stay within the bound.
    InvalidDigit,
    /// The digits at the start make a number above the bound.
    TooLarge,
}

impl DecimalError {
    /// The reason in words.
    pub open spec fn text(self) -> Seq<char> {
        match self {
            DecimalError::Empty => "cannot parse integer from empty string"@,
            DecimalError::InvalidDigit => "invalid digit found in string"@,
            DecimalError::TooLarge => "number too large to fit in target type"@,
        }
    }

    /// The reason in words.
    pub fn as_str(&self) -> (text: &'static str)
        ensures
            text@ == self.text(),
    {
        match self {
            DecimalError::Empty => "cannot parse integer from empty string",
            DecimalError::InvalidDigit => "invalid digit found in string",
            DecimalError::TooLarge => "number too large to fit in target type",
        }
    }
}

/// Whether `c` is one of the ten ASCII digits.
pub open spec fn is_digit(c: char) -> bool {
    0x30 <= c as u32 <= 0x39
}

/// The number that the digit `c` stands for.
pub open spec fn digit_value(c: char) -> nat {
    (c as u32 - 0x30) as nat
}

/// The digit that stands for `d`, for `d` below ten.
pub open spec fn digit_char(d: nat) -> char {
    (0x30 + d) as char
}

/// Whether every character of `text` is a digit.
pub open spec fn all_digits(text: Seq<char>) -> bool {
    forall|i: int| 0 <= i < text.len() ==> is_digit(#[trigger] text[i])
}

/// The number that `digits` spell, most significant digit first.
pub open spec fn decimal_value(digits: Seq<char>) -> nat
    decreases digits.len(),
{
    if digits.len() == 0 {
        0
    } else {
        decimal_value(digits.drop_last()) * 10 + digit_value(digits.last())
    }
}

/// Whether some run of digits at the start of `text` spells a number above `max`.
pub open spec fn exceeds(text: Seq<char>, max: nat) -> bool {
    exists|n: int|
        0 <= n <= text.len() && all_digits(#[trigger] text.take(n)) && decimal_value(text.take(n))
            > max
}

/// The number that `text` spells, if it is an optional `+` and then one or
/// more digits that spell at most `max`. If it is not, the first thing wrong
/// from the left decides: `Empty` for no text at all, `TooLarge` where the
/// digits at the start already spell more than `max`, `InvalidDigit` for a
/// character that is no digit, and for a `+` with nothing behind it.
#[verifier::opaque]
pub open spec fn parse_decimal(text: Seq<char>, max: nat) -> Result<nat, DecimalError> {
    let digits = if text.len() > 0 && text[0] == '+' {
        text.drop_first()
    } else {
        text
    };
    if text.len() == 0 {
        Err(DecimalError::Empty)
    } else if digits.len() == 0 {
        Err(DecimalError::InvalidDigit)
    } else if exceeds(digits, max) {
        Err(DecimalError::TooLarge)
    } else if !all_digits(digits) {
        Err(DecimalError::InvalidDigit)
    } else {
        Ok(decimal_value(digits))
    }
}

/// The decimal digits of `n`, without leading zeros.
pub open spec fn decimal_text(n: nat) -> Seq<char>
    decreases n,
{
    if n < 10 {
        seq![digit_char(n)]
    } else {
        decimal_text(n / 10).push(digit_char(n % 10))
    }
}

/// A run of characters spells no more than a longer run that starts with it.
pub proof fn lemma_decimal_value_grows(text: Seq<char>, shorter: int, longer: int)
    requires
        0 <= shorter <= longer <= text.len(),
    ensures
        decimal_value(text.take(shorter)) <= decimal_value(text.take(longer)),
    decreases longer - shorter,
{
    if shorter < longer {
        lemma_decimal_value_grows(text, shorter, longer - 1);
        assert(text.take(longer).drop_last() =~= text.take(longer - 1));
    }
}

/// The decimal digits of `n` are digits, at least one, and spell `n`.
pub proof fn lemma_decimal_text(n: nat)
    ensures
        decimal_text(n).len() > 0,
        all_digits(decimal_text(n)),
        decimal_value(decimal_text(n)) == n,
    decreases n,
{
    if n < 10 {
        assert(decimal_text(n).drop_last() =~= Seq::<char>::empty());
        assert(decimal_value(decimal_text(n).drop_last()) == 0);
    } else {
        lemma_decimal_text(n / 10);
        assert(decimal_text(n).drop_last() =~= decimal_text(n / 10));
    }
}

/// The decimal digits of a number within the bound parse as that number.
pub proof fn lemma_parse_decimal_text(n: nat, max: nat)
    requires
        n <= max,
    ensures
        parse_decimal(decimal_text(n), max) == Ok::<nat, DecimalError>(n),
{
    reveal(parse_decimal);
    let digits = decimal_text(n);
    lemma_decimal_text(n);
    assert(is_digit(digits[0]));
    assert(!exceeds(digits, max)) by {
        assert forall|k: int| 0 <= k <= digits.len() implies decimal_value(
            #[trigger] digits.take(k),
        ) <= max by {
            lemma_decimal_value_grows(digits, k, digits.len() as int);
            assert(digits.take(digits.len() as int) =~= digits);
        }
    }
}

/// Reads `text` as a decimal number of at most `max`, or says why it is none.
pub fn parse_unsigned(text: &str, max: u64) -> (parsed: Result<u64, DecimalError>)
    ensures
        match parsed {
            Ok(n) => parse_decimal(text@, max as nat) == Ok::<nat, DecimalError>(n as nat),
            Err(e) => parse_decimal(text@, max as nat) == Err::<nat, DecimalError>(e),
        },
{
    reveal(parse_decimal);
    let end: usize = text.unicode_len();
    if end == 0 {
        return Err(DecimalError::Empty);
    }
    let first: usize = if text.get_char(0) == '+' {
        1
    } else {
        0
    };
    let ghost digits = text@.subrange(first as int, end as int);
    proof {
        if first == 1 {
            assert(text@.drop_first() =~= digits);
        } else {
            assert(text@ =~= digits);
        }
    }
    if first == end {
        return Err(DecimalError::InvalidDigit);
    }
    let mut at: usize = first;
    let mut value: u64 = 0;
    proof {
        assert(digits.take(0) =~= Seq::<char>::empty());
    }
    while at < end
        invariant
            first <= at <= end == text@.len(),
            first < end,
            digits == text@.subrange(first as int, end as int),
            digits == if text@[0] == '+' {
                text@.drop_first()
            } else {
                text@
            },
            all_digits(digits.take(at - first)),
            value == decimal_value(digits.take(at - first)),
            value <= max,
            forall|n: int| 0 <= n <= at - first ==> decimal_value(#[trigger] digits.take(n)) <= max,
        decreases end - at,
    {
        let c = text.get_char(at);
        let code: u32 = c as u32;
        let ghost seen = at - first;
        proof {
            reveal(parse_decimal);
            assert(digits[seen] == c);
            assert(digits.take(seen + 1).drop_last() =~= digits.take(seen));
            assert(digits.take(seen + 1).last() == c);
        }
        if code < 0x30 || code > 0x39 {
            proof {
                assert forall|n: int| 0 <= n <= digits.len() && all_digits(
                    #[trigger] digits.take(n),
                ) implies decimal_value(digits.take(n)) <= max by {
                    if n > seen {
                        assert(digits.take(n)[seen] == c);
                    }
                }
                assert(!is_digit(digits[seen]));
            }
            return Err(DecimalError::InvalidDigit);
        }
        let digit: u64 = (code - 0x30) as u64;
        proof {
            assert(all_digits(digits.take(seen + 1))) by {
                assert forall|i: int| 0 <= i < seen + 1 implies is_digit(
                    #[trigger] digits.take(seen + 1)[i],
                ) by {
                    if i < seen {
                        assert(digits.take(seen + 1)[i] == digits.take(seen)[i]);
                    }
                }
            }
            assert(decimal_value(digits.take(seen + 1)) == value * 10 + digit);
        }
        if digit > max || value > (max - digit) / 10 {
            return Err(DecimalError::TooLarge);
        }
        value = value * 10 + digit;
        at = at + 1;
    }
    proof {
        assert(digits.take(digits.len() as int) =~= digits);
    }
    Ok(value)
}

/// The one-character text of the digit `d`.
fn digit_text(d: u64) -> (text: &'static str)
    requires
        d < 10,
    ensures
        text@ == seq![digit_char(d as nat)],
{
    proof {
        reveal_strlit("0");
        reveal_strlit("1");
        reveal_strlit("2");
        reveal_strlit("3");
        reveal_strlit("4");
        reveal_strlit("5");
        reveal_strlit("6");
        reveal_strlit("7");
        reveal_strlit("8");
        reveal_strlit("9");
    }
    let text = if d == 0 {
        "0"
    } else if d == 1 {
        "1"
    } else if d == 2 {
        "2"
    } else if d == 3 {
        "3"
    } else if d == 4 {
        "4"
    } else if d == 5 {
        "5"
    } else if d == 6 {
        "6"
    } else if d == 7 {
        "7"
    } else if d == 8 {
        "8"
    } else {
        "9"
    };
    assert(text@ =~= seq![digit_char(d as nat)]);
    text
}

/// Appends the decimal digits of `n` to `out`.
pub fn push_decimal(out: &mut String, n: u64)
    ensures
        final(out)@ == old(out)@ + decimal_text(n as nat),
    decreases n,
{
    if n >= 10 {
        push_decimal(out, n / 10);
    }
    out.append(digit_text(n % 10));
    proof {
        let lead = old(out)@;
        if n >= 10 {
            assert(lead + decimal_text((n / 10) as nat) + seq![digit_char((n % 10) as nat)]
                =~= lead + decimal_text(n as nat));
        }
    }
}

} // verus!
