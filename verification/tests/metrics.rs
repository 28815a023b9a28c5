use lwc::basename::get_file_name;
use lwc::counts::{count_chars, count_lines, count_words, is_space_char};
use lwc::decimal::u64_to_decimal;
use lwc::report::{all_functions, format_metric, get_bytes, get_chars, get_help, get_lines,
    get_words};

#[test]
fn file_name_of_nested_path() {
    assert_eq!(get_file_name("a/b/c.txt"), "c.txt");
}

#[test]
fn file_name_of_empty_path() {
    assert_eq!(get_file_name(""), "");
}

#[test]
fn file_name_of_bare_name() {
    assert_eq!(get_file_name("file.txt"), "file.txt");
}

#[test]
fn file_name_of_absolute_path() {
    assert_eq!(get_file_name("/var/log/syslog"), "syslog");
}

#[test]
fn decimal_of_zero() {
    assert_eq!(u64_to_decimal(0), "0");
}

#[test]
fn decimal_of_one_digit() {
    assert_eq!(u64_to_decimal(7), "7");
}

#[test]
fn decimal_of_round_number() {
    assert_eq!(u64_to_decimal(1000), "1000");
}

#[test]
fn decimal_of_largest_u64() {
    assert_eq!(u64_to_decimal(u64::MAX), "18446744073709551615");
}

#[test]
fn byte_report_is_exactly_the_size() {
    assert_eq!(get_bytes(9, "hello.txt"), "9 hello.txt");
    assert_eq!(get_bytes(0, "empty.txt"), "0 empty.txt");
    assert_eq!(get_bytes(1234567890, "big.bin"), "1234567890 big.bin");
}

#[test]
fn format_metric_uses_basename() {
    assert_eq!(format_metric(5, "/a/b"), "5 b");
}

#[test]
fn line_count_of_empty_text() {
    assert_eq!(count_lines(""), 0);
}

#[test]
fn line_count_matches_line_splitting() {
    assert_eq!(count_lines("hi there\n"), 1);
    assert_eq!(count_lines("a\nb"), 2);
    assert_eq!(count_lines("a\n"), 1);
    assert_eq!(count_lines("\n\n"), 2);
    assert_eq!(count_lines("one\r\ntwo\r\n"), 2);
    assert_eq!(count_lines("no terminator"), 1);
}

#[test]
fn word_count_is_maximal_tokens() {
    assert_eq!(count_words(""), 0);
    assert_eq!(count_words("hi there\n"), 2);
    assert_eq!(count_words("  \t \n "), 0);
    assert_eq!(count_words("one  two\tthree\nfour"), 4);
    assert_eq!(count_words("a\u{00A0}b"), 2);
}

#[test]
fn char_count_excludes_line_terminators() {
    assert_eq!(count_chars(""), 0);
    assert_eq!(count_chars("hi there\n"), 8);
    assert_eq!(count_chars("a\r\nb"), 2);
    assert_eq!(count_chars("a\r"), 2);
    assert_eq!(count_chars("h\u{00E9}llo\n"), 5);
}

#[test]
fn whitespace_includes_the_usual_separators() {
    assert!(is_space_char(' '));
    assert!(is_space_char('\t'));
    assert!(is_space_char('\n'));
    assert!(is_space_char('\r'));
    assert!(is_space_char('\u{00A0}'));
    assert!(!is_space_char('a'));
    assert!(!is_space_char('-'));
}

#[test]
fn empty_file_reports_zero_everywhere() {
    let lines = all_functions(0, "", "empty.txt");
    assert_eq!(
        lines,
        vec!["0 empty.txt", "0 empty.txt", "0 empty.txt", "0 empty.txt"]
    );
}

#[test]
fn hello_file_reports_all_four_metrics() {
    let lines = all_functions(9, "hi there\n", "hello.txt");
    assert_eq!(
        lines,
        vec!["9 hello.txt", "1 hello.txt", "2 hello.txt", "8 hello.txt"]
    );
}

#[test]
fn scanner_reports_pair_count_with_basename() {
    assert_eq!(get_lines("hi there\n", "dir/hello.txt"), "1 hello.txt");
    assert_eq!(get_words("hi there\n", "dir/hello.txt"), "2 hello.txt");
    assert_eq!(get_chars("hi there\n", "dir/hello.txt"), "8 hello.txt");
}

#[test]
fn help_text_is_fixed() {
    let lines = get_help();
    assert_eq!(
        lines,
        vec![
            "Usage: lwc [option][file name]",
            "",
            "lwc -c [file name] Outputs the number of bytes in a file.",
            "lwc -l [file name] Outputs the number of lines in a file.",
            "lwc -w [file name] Outputs the number of words in a file.",
            "lwc -m [file name] Outputs the number of characters in a file.",
        ]
    );
}
