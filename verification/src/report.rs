//! The reported lines: each metric is shown as `"<count> <basename>"`, and
//! the help action as a fixed block of usage text.
//!
//! The byte metric comes from the file's size, which the caller obtains from
//! filesystem metadata; the other three are computed here from the file's
//! decoded content. The caller only prints the returned strings.

use vstd::prelude::*;
use vstd::string::StringExecFns;
use crate::basename::{basename_of, get_file_name};
use crate::counts::{char_count, count_chars, count_lines, count_words, line_count, word_count};
use crate::decimal::{dec_rep, u64_to_decimal};

verus! {

/// The reported line for a metric: the count in base ten, one space, and the
/// final path component of `path`.
pub open spec fn metric_line(count: nat, path: Seq<char>) -> Seq<char> {
    dec_rep(count) + seq![' '] + basename_of(path)
}

/// Builds `"<count> <basename of path>"`.
pub fn format_metric(count: u64, path: &str) -> (r: String)
    ensures
        r@ == metric_line(count as nat, path@),
{
    let mut s = u64_to_decimal(count);
    s.append(" ");
    let name = get_file_name(path);
    s.append(name.as_str());
    proof {
        reveal_strlit(" ");
        assert(s@ =~= metric_line(count as nat, path@));
    }
    s
}

/// The byte-count report: the file's size in bytes, as metadata gives it,
/// beside the file's label.
pub fn get_bytes(size: u64, path: &str) -> (r: String)
    ensures
        r@ == metric_line(size as nat, path@),
{
    format_metric(size, path)
}

/// The line-count report for a file whose decoded content is `content`.
pub fn get_lines(content: &str, path: &str) -> (r: String)
    ensures
        r@ == metric_line(line_count(content@), path@),
{
    let count = count_lines(content);
    format_metric(count as u64, path)
}

/// The word-count report for a file whose decoded content is `content`.
pub fn get_words(content: &str, path: &str) -> (r: String)
    ensures
        r@ == metric_line(word_count(content@), path@),
{
    let count = count_words(content);
    format_metric(count as u64, path)
}

/// The character-count report for a file whose decoded content is `content`.
pub fn get_chars(content: &str, path: &str) -> (r: String)
    ensures
        r@ == metric_line(char_count(content@), path@),
{
    let count = count_chars(content);
    format_metric(count as u64, path)
}

/// All four reports in their fixed order: bytes, lines, words, characters.
pub fn all_functions(size: u64, content: &str, path: &str) -> (r: Vec<String>)
    ensures
        r@.len() == 4,
        r@[0]@ == metric_line(size as nat, path@),
        r@[1]@ == metric_line(line_count(content@), path@),
        r@[2]@ == metric_line(word_count(content@), path@),
        r@[3]@ == metric_line(char_count(content@), path@),
{
    let mut lines: Vec<String> = Vec::new();
    lines.push(get_bytes(size, path));
    lines.push(get_lines(content, path));
    lines.push(get_words(content, path));
    lines.push(get_chars(content, path));
    lines
}

/// The fixed usage text, one entry per printed line.
pub fn get_help() -> (r: Vec<String>)
    ensures
        r@.len() == 6,
        r@[0]@ == "Usage: lwc [option][file name]"@,
        r@[1]@ == ""@,
        r@[2]@ == "lwc -c [file name] Outputs the number of bytes in a file."@,
        r@[3]@ == "lwc -l [file name] Outputs the number of lines in a file."@,
        r@[4]@ == "lwc -w [file name] Outputs the number of words in a file."@,
        r@[5]@ == "lwc -m [file name] Outputs the number of characters in a file."@,
{
    let mut lines: Vec<String> = Vec::new();
    lines.push(String::from_str("Usage: lwc [option][file name]"));
    lines.push(String::from_str(""));
    lines.push(String::from_str("lwc -c [file name] Outputs the number of bytes in a file."));
    lines.push(String::from_str("lwc -l [file name] Outputs the number of lines in a file."));
    lines.push(String::from_str("lwc -w [file name] Outputs the number of words in a file."));
    lines.push(String::from_str("lwc -m [file name] Outputs the number of characters in a file."));
    lines
}

} // verus!
