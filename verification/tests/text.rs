use brainfuck_benchmark::benchmark::{file_stem, Benchmark};
use brainfuck_benchmark::platform::{windows, Platform};
use brainfuck_benchmark::text::{
    decimal, forward_slashes, from_chars, join_path, replace_literal, split_lines, str_le,
    to_chars,
};

#[test]
fn windows_is_told_apart() {
    assert!(windows(Platform::Windows));
    assert!(!windows(Platform::Other));
}

#[test]
fn chars_round_trip() {
    let chars = to_chars("héllo");
    assert_eq!(chars, vec!['h', 'é', 'l', 'l', 'o']);
    assert_eq!(from_chars(&chars, 0, 5), "héllo");
    assert_eq!(from_chars(&chars, 1, 3), "él");
    assert_eq!(from_chars(&chars, 2, 2), "");
}

#[test]
fn names_order_by_code_point() {
    assert!(str_le("a", "b"));
    assert!(!str_le("b", "a"));
    assert!(str_le("a", "a"));
    assert!(str_le("", "a"));
    assert!(!str_le("a", ""));
    assert!(str_le("", ""));
}

#[test]
fn a_prefix_comes_before_its_extensions() {
    assert!(str_le("cwfitzgerald/bfcc", "cwfitzgerald/bfcc-old"));
    assert!(!str_le("cwfitzgerald/bfcc-old", "cwfitzgerald/bfcc"));
}

#[test]
fn upper_case_comes_before_lower_case() {
    assert!(str_le("Z", "a"));
    assert!(!str_le("a", "Z"));
}

#[test]
fn the_order_agrees_with_the_order_of_strings() {
    let names = ["", "a", "ab", "b", "B", "é", "z", "a.bf", "a-b", "日本", "~"];
    for a in names {
        for b in names {
            assert_eq!(str_le(a, b), a <= b, "{a:?} vs {b:?}");
        }
    }
}

#[test]
fn decimal_renders_integers() {
    assert_eq!(decimal(0), "0");
    assert_eq!(decimal(1), "1");
    assert_eq!(decimal(9), "9");
    assert_eq!(decimal(10), "10");
    assert_eq!(decimal(127), "127");
    assert_eq!(decimal(12345), "12345");
    assert_eq!(decimal(-1), "-1");
    assert_eq!(decimal(-60), "-60");
    assert_eq!(decimal(i32::MAX), "2147483647");
    assert_eq!(decimal(i32::MIN), "-2147483648");
}

#[test]
fn paths_are_joined_with_the_platform_separator() {
    assert_eq!(join_path("build/out", "x.c", Platform::Other), "build/out/x.c");
    assert_eq!(join_path("build/out", "x.c", Platform::Windows), "build/out\\x.c");
    assert_eq!(join_path("a", "", Platform::Other), "a/");
}

#[test]
fn backslashes_become_slashes() {
    assert_eq!(forward_slashes("C:\\src\\a.c"), "C:/src/a.c");
    assert_eq!(forward_slashes("no/backslash"), "no/backslash");
    assert_eq!(forward_slashes(""), "");
    assert_eq!(forward_slashes("\\\\"), "//");
}

#[test]
fn stem_is_what_stands_before_the_last_dot() {
    assert_eq!(file_stem("mandelbrot.bf"), "mandelbrot");
    assert_eq!(file_stem("archive.tar.gz"), "archive.tar");
    assert_eq!(file_stem("a."), "a");
}

#[test]
fn stem_of_a_name_without_a_dot_is_the_name() {
    assert_eq!(file_stem("noext"), "noext");
    assert_eq!(file_stem(""), "");
}

#[test]
fn stem_of_a_name_with_only_a_leading_dot_is_the_name() {
    assert_eq!(file_stem(".hidden"), ".hidden");
    assert_eq!(file_stem("."), ".");
    assert_eq!(file_stem(".hidden.bf"), ".hidden");
}

#[test]
fn benchmark_knows_its_stem() {
    let b = Benchmark { file_name: "hanoi.bf".to_string(), path: "/w/benches/hanoi.bf".to_string() };
    assert_eq!(b.file_stem(), "hanoi");
    assert_eq!(b.duplicate(), b);
}

#[test]
fn a_text_splits_into_lines_at_its_line_feeds() {
    assert_eq!(split_lines("a\nb"), vec!["a", "b"]);
    assert_eq!(split_lines("a\nb\n"), vec!["a", "b", ""]);
    assert_eq!(split_lines("\n"), vec!["", ""]);
    assert_eq!(split_lines("\n\nx"), vec!["", "", "x"]);
    assert_eq!(split_lines("no line feed"), vec!["no line feed"]);
    assert_eq!(split_lines(""), vec![""]);
    assert_eq!(split_lines("a\r\nb"), vec!["a\r", "b"]);
}

#[test]
fn lines_joined_by_line_feeds_are_the_text() {
    for text in ["", "a", "a\n", "\na", "a\n\nb\n", "| x |\n| y |\n", "\n\n"] {
        assert_eq!(split_lines(text).join("\n"), text);
    }
}

#[test]
fn every_occurrence_is_replaced_from_left_to_right() {
    assert_eq!(replace_literal("a-b-c", "-", "+"), "a+b+c");
    assert_eq!(replace_literal("aaa", "aa", "b"), "ba");
    assert_eq!(replace_literal("aaaa", "aa", "b"), "bb");
    assert_eq!(replace_literal("abab", "ab", "abab"), "abababab");
    assert_eq!(replace_literal("xay", "a", ""), "xy");
    assert_eq!(replace_literal("needle", "needle", "x"), "x");
}

#[test]
fn a_text_without_the_needle_is_left_alone() {
    assert_eq!(replace_literal("abc", "d", "x"), "abc");
    assert_eq!(replace_literal("ab", "abc", "x"), "ab");
    assert_eq!(replace_literal("", "a", "x"), "");
    assert_eq!(replace_literal("abc", "", "x"), "abc");
    assert_eq!(replace_literal("a.c", "abc", "x"), "a.c");
}

#[test]
fn literal_replacement_agrees_with_the_one_of_strings() {
    let texts = ["", "a", "`x` and `x`", "``x``", "ababab", "aXbXc", "日本語の本"];
    let needles = ["a", "`x`", "ab", "X", "本", "bab", "``"];
    for text in texts {
        for needle in needles {
            assert_eq!(replace_literal(text, needle, "[L]"), text.replace(needle, "[L]"));
        }
    }
}
