//! The values exchanged with the filesystem: flags, counts, durations in
//! nanoseconds and polarities, each as the text the kernel reads and writes.

use vstd::prelude::*;
use vstd::string::*;

use crate::decimal::{
    decimal_text, is_digit, lemma_decimal_text, lemma_parse_decimal_text, parse_decimal,
    parse_unsigned, push_decimal, DecimalError,
};
use crate::error::{outcome, PwmError, PwmErrorView};
use crate::text::{folded, reads_as, trim, trim_end, trimmed, trimmed_end};

verus! {

/// Whether the signal is active high (normal) or active low (inversed).
#[derive(Debug, Clone, Copy, PartialEq, Eq, Structural)]
pub enum Polarity {
    Normal,
    Inversed,
}

/// The flag that `text` spells: trailing whitespace and the case of ASCII
/// letters do not count, and the empty text reads as false.
pub open spec fn flag_of(text: Seq<char>) -> Option<bool> {
    let word = folded(trim_end(text));
    if word == "1"@ || word == "y"@ || word == "yes"@ || word == "true"@ {
        Some(true)
    } else if word == "0"@ || word == "n"@ || word == "no"@ || word == "false"@ || word == ""@ {
        Some(false)
    } else {
        None
    }
}

/// What `parse_bool` makes of `text`.
pub open spec fn parsed_bool(text: Seq<char>) -> Result<bool, PwmErrorView> {
    match flag_of(text) {
        Some(flag) => Ok(flag),
        None => Err(PwmErrorView::NotBoolean(text)),
    }
}

/// What `parse_duration` makes of `text`: trailing whitespace does not count.
pub open spec fn parsed_duration(text: Seq<char>) -> Result<u64, PwmErrorView> {
    match parse_decimal(trim_end(text), u64::MAX as nat) {
        Ok(nanos) => Ok(nanos as u64),
        Err(reason) => Err(PwmErrorView::NotADuration(text, reason)),
    }
}

/// The channel count that `text` spells, or why it spells none: whitespace
/// at either end does not count.
pub open spec fn count_of(text: Seq<char>) -> Result<u32, DecimalError> {
    match parse_decimal(trim(text), u32::MAX as nat) {
        Ok(count) => Ok(count as u32),
        Err(reason) => Err(reason),
    }
}

/// The polarity that `text` names.
pub open spec fn parsed_polarity(text: Seq<char>) -> Result<Polarity, PwmErrorView> {
    if text == "normal"@ {
        Ok(Polarity::Normal)
    } else if text == "inversed"@ {
        Ok(Polarity::Inversed)
    } else {
        Err(PwmErrorView::InvalidPolarity)
    }
}

/// Reads a flag as the kernel writes it. A text that is no flag comes back
/// in the error as it was given.
pub fn parse_bool(s: String) -> (parsed: Result<bool, PwmError>)
    ensures
        outcome(parsed) == parsed_bool(s@),
{
    let word = trimmed_end(s.as_str());
    if reads_as(word, "1", true) || reads_as(word, "y", true) || reads_as(word, "yes", true)
        || reads_as(word, "true", true) {
        Ok(true)
    } else if reads_as(word, "0", true) || reads_as(word, "n", true) || reads_as(word, "no", true)
        || reads_as(word, "false", true) || reads_as(word, "", true) {
        Ok(false)
    } else {
        Err(PwmError::NotBoolean(s))
    }
}

/// Reads a duration in nanoseconds: an unsigned decimal number of 64 bits.
pub fn parse_duration(s: String) -> (parsed: Result<u64, PwmError>)
    ensures
        outcome(parsed) == parsed_duration(s@),
{
    match parse_unsigned(trimmed_end(s.as_str()), u64::MAX) {
        Ok(nanos) => Ok(nanos),
        Err(reason) => Err(PwmError::NotADuration(s, reason)),
    }
}

/// Writes a duration as the kernel reads it: decimal digits, no unit.
pub fn format_duration(nanos: u64) -> (text: String)
    ensures
        text@ == decimal_text(nanos as nat),
{
    let mut text = String::new();
    push_decimal(&mut text, nanos);
    text
}

/// Reads a channel count: an unsigned decimal number of 32 bits.
pub fn parse_count(text: &str) -> (parsed: Result<u32, DecimalError>)
    ensures
        parsed == count_of(text@),
{
    match parse_unsigned(trimmed(text), 0xffff_ffff) {
        Ok(count) => Ok(count as u32),
        Err(reason) => Err(reason),
    }
}

impl Polarity {
    /// The name of the polarity, as the kernel reads and writes it.
    pub open spec fn name(self) -> Seq<char> {
        match self {
            Polarity::Normal => "normal"@,
            Polarity::Inversed => "inversed"@,
        }
    }

    /// Reads a polarity from its name.
    pub fn from_str(s: &str) -> (parsed: Result<Polarity, PwmError>)
        ensures
            outcome(parsed) == parsed_polarity(s@),
    {
        if reads_as(s, "normal", false) {
            Ok(Polarity::Normal)
        } else if reads_as(s, "inversed", false) {
            Ok(Polarity::Inversed)
        } else {
            Err(PwmError::InvalidPolarity)
        }
    }

    /// The name of the polarity.
    pub fn as_str(&self) -> (text: &'static str)
        ensures
            text@ == self.name(),
    {
        match self {
            Polarity::Normal => "normal",
            Polarity::Inversed => "inversed",
        }
    }
}

/// Each of the nine spellings reads as its flag: `1`, `y`, `yes` and `true`
/// as true, and `0`, `n`, `no`, `false` and the empty text as false.
pub proof fn canonical_flags()
    ensures
        flag_of("1"@) == Some(true),
        flag_of("y"@) == Some(true),
        flag_of("yes"@) == Some(true),
        flag_of("true"@) == Some(true),
        flag_of("0"@) == Some(false),
        flag_of("n"@) == Some(false),
        flag_of("no"@) == Some(false),
        flag_of("false"@) == Some(false),
        flag_of(""@) == Some(false),
{
    reveal_strlit("1");
    reveal_strlit("y");
    reveal_strlit("yes");
    reveal_strlit("true");
    reveal_strlit("0");
    reveal_strlit("n");
    reveal_strlit("no");
    reveal_strlit("false");
    reveal_strlit("");
    assert(folded(trim_end("1"@)) =~= "1"@);
    assert(folded(trim_end("y"@)) =~= "y"@);
    assert(folded(trim_end("yes"@)) =~= "yes"@);
    assert(folded(trim_end("true"@)) =~= "true"@);
    assert(folded(trim_end("0"@)) =~= "0"@);
    assert(folded(trim_end("n"@)) =~= "n"@);
    assert(folded(trim_end("no"@)) =~= "no"@);
    assert(folded(trim_end("false"@)) =~= "false"@);
    assert(folded(trim_end(""@)) =~= ""@);
}

/// A text that is no flag comes back in the error as it was given.
pub proof fn not_a_flag_keeps_text(text: Seq<char>)
    requires
        flag_of(text) is None,
    ensures
        parsed_bool(text) == Err::<bool, PwmErrorView>(PwmErrorView::NotBoolean(text)),
{
}

/// A duration that was written reads back as itself.
pub proof fn duration_round_trip(nanos: u64)
    ensures
        parsed_duration(decimal_text(nanos as nat)) == Ok::<u64, PwmErrorView>(nanos),
{
    let digits = decimal_text(nanos as nat);
    lemma_decimal_text(nanos as nat);
    assert(is_digit(digits.last()));
    lemma_parse_decimal_text(nanos as nat, u64::MAX as nat);
}

/// The name of a polarity reads back as that polarity.
pub proof fn polarity_round_trip(polarity: Polarity)
    ensures
        parsed_polarity(polarity.name()) == Ok::<Polarity, PwmErrorView>(polarity),
{
    reveal_strlit("normal");
    reveal_strlit("inversed");
    assert("normal"@.len() != "inversed"@.len());
}

} // verus!
