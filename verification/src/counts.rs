//! The four metrics over a text's characters.
//!
//! The byte metric is the file's size and needs no scan; the other three are
//! defined here over the character sequence of the whole content:
//! - lines: newline-terminated records, a trailing unterminated record
//!   counting as one more line;
//! - words: maximal runs of non-whitespace characters;
//! - characters: every character except the line terminators themselves
//!   (each `\n`, and the `\r` of a `\r\n` pair).

use vstd::prelude::*;
use vstd::string::StrSliceExecFns;

verus! {

/// Whether `c` has the Unicode white-space property (the characters that
/// word splitting treats as separators).
pub open spec fn is_space(c: char) -> bool {
    let u = c as u32;
    u == 0x09 || u == 0x0A || u == 0x0B || u == 0x0C || u == 0x0D || u == 0x20 || u == 0x85
        || u == 0xA0 || u == 0x1680 || (0x2000 <= u && u <= 0x200A) || u == 0x2028 || u == 0x2029
        || u == 0x202F || u == 0x205F || u == 0x3000
}

/// Executable form of [`is_space`].
pub fn is_space_char(c: char) -> (r: bool)
    ensures
        r == is_space(c),
{
    let u = c as u32;
    u == 0x09 || u == 0x0A || u == 0x0B || u == 0x0C || u == 0x0D || u == 0x20 || u == 0x85
        || u == 0xA0 || u == 0x1680 || (0x2000 <= u && u <= 0x200A) || u == 0x2028 || u == 0x2029
        || u == 0x202F || u == 0x205F || u == 0x3000
}

/// The number of `\n` characters in `s` at or after index `i`.
pub open spec fn newlines_from(s: Seq<char>, i: int) -> nat
    decreases s.len() - i,
{
    if i < 0 || i >= s.len() {
        0
    } else {
        (if s[i] == '\n' {
            1nat
        } else {
            0nat
        }) + newlines_from(s, i + 1)
    }
}

/// The number of newline-delimited records in `s`: one per `\n`, plus one
/// for a non-empty trailing record without a final `\n`.
pub open spec fn line_count(s: Seq<char>) -> nat {
    if s.len() == 0 {
        0
    } else if s[s.len() - 1] == '\n' {
        newlines_from(s, 0)
    } else {
        newlines_from(s, 0) + 1
    }
}

/// The number of maximal non-whitespace runs in `s` at or after index `i`,
/// where `prev_space` says whether position `i` follows a separator (or the
/// start of the text).
pub open spec fn words_from(s: Seq<char>, i: int, prev_space: bool) -> nat
    decreases s.len() - i,
{
    if i < 0 || i >= s.len() {
        0
    } else {
        (if prev_space && !is_space(s[i]) {
            1nat
        } else {
            0nat
        }) + words_from(s, i + 1, is_space(s[i]))
    }
}

/// The number of maximal whitespace-delimited non-empty tokens in `s`.
pub open spec fn word_count(s: Seq<char>) -> nat {
    words_from(s, 0, true)
}

/// Whether the character at index `i` belongs to a line terminator: a `\n`,
/// or a `\r` immediately followed by `\n`.
pub open spec fn is_terminator_at(s: Seq<char>, i: int) -> bool {
    s[i] == '\n' || (s[i] == '\r' && i + 1 < s.len() && s[i + 1] == '\n')
}

/// The number of non-terminator characters in `s` at or after index `i`.
pub open spec fn chars_from(s: Seq<char>, i: int) -> nat
    decreases s.len() - i,
{
    if i < 0 || i >= s.len() {
        0
    } else {
        (if is_terminator_at(s, i) {
            0nat
        } else {
            1nat
        }) + chars_from(s, i + 1)
    }
}

/// The number of characters of `s` outside line terminators: what remains
/// when the content is split into lines and the lines' characters are summed.
pub open spec fn char_count(s: Seq<char>) -> nat {
    chars_from(s, 0)
}

/// At most one newline per remaining character, and strictly fewer when the
/// text does not end in one.
proof fn lemma_newlines_bound(s: Seq<char>, i: int)
    requires
        0 <= i <= s.len(),
    ensures
        newlines_from(s, i) <= s.len() - i,
        s.len() > 0 && s[s.len() - 1] != '\n' && i < s.len() ==> newlines_from(s, i) < s.len()
            - i,
    decreases s.len() - i,
{
    if i < s.len() {
        lemma_newlines_bound(s, i + 1);
    }
}

/// Counts the newline-delimited records of `content`.
pub fn count_lines(content: &str) -> (r: usize)
    ensures
        r == line_count(content@),
{
    let n = content.unicode_len();
    if n == 0 {
        return 0;
    }
    let mut i: usize = 0;
    let mut newlines: usize = 0;
    while i < n
        invariant
            n == content@.len(),
            0 <= i <= n,
            newlines <= i,
            newlines_from(content@, 0) == newlines + newlines_from(content@, i as int),
        decreases n - i,
    {
        if content.get_char(i) == '\n' {
            newlines += 1;
        }
        i += 1;
    }
    if content.get_char(n - 1) == '\n' {
        newlines
    } else {
        proof {
            lemma_newlines_bound(content@, 0);
        }
        newlines + 1
    }
}

/// Counts the maximal whitespace-delimited non-empty tokens of `content`.
pub fn count_words(content: &str) -> (r: usize)
    ensures
        r == word_count(content@),
{
    let n = content.unicode_len();
    let mut i: usize = 0;
    let mut words: usize = 0;
    let mut prev_space = true;
    while i < n
        invariant
            n == content@.len(),
            0 <= i <= n,
            words <= i,
            word_count(content@) == words + words_from(content@, i as int, prev_space),
        decreases n - i,
    {
        let c = content.get_char(i);
        let space = is_space_char(c);
        if prev_space && !space {
            words += 1;
        }
        prev_space = space;
        i += 1;
    }
    words
}

/// Counts the characters of `content` outside line terminators.
pub fn count_chars(content: &str) -> (r: usize)
    ensures
        r == char_count(content@),
{
    let n = content.unicode_len();
    let mut i: usize = 0;
    let mut chars: usize = 0;
    while i < n
        invariant
            n == content@.len(),
            0 <= i <= n,
            chars <= i,
            char_count(content@) == chars + chars_from(content@, i as int),
        decreases n - i,
    {
        let c = content.get_char(i);
        let terminator = c == '\n' || (c == '\r' && i + 1 < n && content.get_char(i + 1) == '\n');
        if !terminator {
            chars += 1;
        }
        i += 1;
    }
    chars
}

} // verus!
