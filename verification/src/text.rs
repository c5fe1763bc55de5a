//! Characters and text: whitespace, case folding, joining of paths.

use vstd::prelude::*;
use vstd::string::*;

verus! {

/// Whether `c` has the Unicode property White_Space.
pub open spec fn is_whitespace(c: char) -> bool {
    let n = c as u32;
    ||| 0x09 <= n <= 0x0d
    ||| n == 0x20
    ||| n == 0x85
    ||| n == 0xa0
    ||| n == 0x1680
    ||| 0x2000 <= n <= 0x200a
    ||| n == 0x2028
    ||| n == 0x2029
    ||| n == 0x202f
    ||| n == 0x205f
    ||| n == 0x3000
}

/// `text` without the whitespace at its end.
pub open spec fn trim_end(text: Seq<char>) -> Seq<char>
    decreases text.len(),
{
    if text.len() > 0 && is_whitespace(text.last()) {
        trim_end(text.drop_last())
    } else {
        text
    }
}

/// `text` without the whitespace at its start.
pub open spec fn trim_start(text: Seq<char>) -> Seq<char>
    decreases text.len(),
{
    if text.len() > 0 && is_whitespace(text.first()) {
        trim_start(text.drop_first())
    } else {
        text
    }
}

/// `text` without the whitespace at either end.
pub open spec fn trim(text: Seq<char>) -> Seq<char> {
    trim_start(trim_end(text))
}

/// `c` in lower case if it is an ASCII capital letter, else `c`.
pub open spec fn ascii_lower(c: char) -> char {
    if 0x41 <= c as u32 <= 0x5a {
        (c as u32 + 0x20) as char
    } else {
        c
    }
}

/// `text` with its ASCII capital letters in lower case.
pub open spec fn folded(text: Seq<char>) -> Seq<char> {
    Seq::new(text.len(), |i: int| ascii_lower(text[i]))
}

/// `name` below the directory `base`: an absolute `name` stands for itself,
/// another is put behind `base` with one `/` between them.
pub open spec fn join(base: Seq<char>, name: Seq<char>) -> Seq<char> {
    if name.len() > 0 && name.first() == '/' {
        name
    } else if base.len() == 0 || base.last() == '/' {
        base + name
    } else {
        base + seq!['/'] + name
    }
}

/// Tells whether `c` is whitespace.
pub fn char_is_whitespace(c: char) -> (b: bool)
    ensures
        b == is_whitespace(c),
{
    let n: u32 = c as u32;
    (0x09 <= n && n <= 0x0d) || n == 0x20 || n == 0x85 || n == 0xa0 || n == 0x1680 || (0x2000 <= n
        && n <= 0x200a) || n == 0x2028 || n == 0x2029 || n == 0x202f || n == 0x205f || n == 0x3000
}

/// `text` without the whitespace at its end.
pub fn trimmed_end(text: &str) -> (kept: &str)
    ensures
        kept@ == trim_end(text@),
{
    let mut end: usize = text.unicode_len();
    proof {
        assert(text@.take(end as int) =~= text@);
    }
    while end > 0 && char_is_whitespace(text.get_char(end - 1))
        invariant
            end <= text@.len(),
            trim_end(text@) == trim_end(text@.take(end as int)),
        decreases end,
    {
        proof {
            assert(text@.take(end as int).drop_last() =~= text@.take(end - 1));
        }
        end = end - 1;
    }
    proof {
        assert(text@.subrange(0, end as int) =~= text@.take(end as int));
    }
    text.substring_char(0, end)
}

/// `text` without the whitespace at its start.
pub fn trimmed_start(text: &str) -> (kept: &str)
    ensures
        kept@ == trim_start(text@),
{
    let end: usize = text.unicode_len();
    let mut start: usize = 0;
    proof {
        assert(text@.subrange(0, end as int) =~= text@);
    }
    while start < end && char_is_whitespace(text.get_char(start))
        invariant
            start <= end == text@.len(),
            trim_start(text@) == trim_start(text@.subrange(start as int, end as int)),
        decreases end - start,
    {
        proof {
            assert(text@.subrange(start as int, end as int).drop_first() =~= text@.subrange(
                start + 1,
                end as int,
            ));
        }
        start = start + 1;
    }
    text.substring_char(start, end)
}

/// `text` without the whitespace at either end.
pub fn trimmed(text: &str) -> (kept: &str)
    ensures
        kept@ == trim(text@),
{
    trimmed_start(trimmed_end(text))
}

/// `c` in lower case if it is an ASCII capital letter, else `c`.
pub fn char_ascii_lower(c: char) -> (lower: char)
    ensures
        lower == ascii_lower(c),
{
    let n: u32 = c as u32;
    if 0x41 <= n && n <= 0x5a {
        (n as u8 + 0x20) as char
    } else {
        c
    }
}

/// Tells whether `text` is `word`, with the ASCII capital letters of `text`
/// read as lower case if `fold` is set.
pub fn reads_as(text: &str, word: &str, fold: bool) -> (same: bool)
    ensures
        same == if fold {
            folded(text@) == word@
        } else {
            text@ == word@
        },
{
    let end: usize = text.unicode_len();
    if word.unicode_len() != end {
        return false;
    }
    let mut at: usize = 0;
    while at < end
        invariant
            at <= end == text@.len(),
            end == word@.len(),
            forall|i: int|
                0 <= i < at ==> word@[i] == if fold {
                    ascii_lower(#[trigger] text@[i])
                } else {
                    text@[i]
                },
        decreases end - at,
    {
        let c = text.get_char(at);
        let seen = if fold {
            char_ascii_lower(c)
        } else {
            c
        };
        if seen != word.get_char(at) {
            proof {
                assert(folded(text@)[at as int] == ascii_lower(c));
            }
            return false;
        }
        at = at + 1;
    }
    proof {
        if fold {
            assert(folded(text@) =~= word@);
        } else {
            assert(text@ =~= word@);
        }
    }
    true
}

/// The path of `name` below the directory `base`.
pub fn join_path(base: &str, name: &str) -> (path: String)
    ensures
        path@ == join(base@, name@),
{
    if name.unicode_len() > 0 && name.get_char(0) == '/' {
        return name.to_owned();
    }
    let length: usize = base.unicode_len();
    let mut path = base.to_owned();
    if length > 0 && base.get_char(length - 1) != '/' {
        path.append("/");
        proof {
            reveal_strlit("/");
            assert("/"@ =~= seq!['/']);
        }
    }
    path.append(name);
    path
}

} // verus!
