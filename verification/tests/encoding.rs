use runas::escape::{escape_arg, escape_args, needs_quotes, push_escaped};
use runas::tokenize::split_args;
use runas::wide::to_wide;

fn owned(items: &[&str]) -> Vec<String> {
    items.iter().map(|s| s.to_string()).collect()
}

#[test]
fn empty_argument_is_two_quotes() {
    assert_eq!(escape_arg(""), "\"\"");
}

#[test]
fn plain_argument_is_unchanged() {
    assert_eq!(escape_arg("abc"), "abc");
    assert_eq!(escape_arg("/tmp/marker"), "/tmp/marker");
    assert_eq!(escape_arg("--flag=1"), "--flag=1");
}

#[test]
fn backslash_alone_does_not_quote() {
    assert_eq!(escape_arg("a\\b"), "a\\b");
    assert_eq!(escape_arg("C:\\Windows\\"), "C:\\Windows\\");
}

#[test]
fn quote_is_escaped() {
    assert_eq!(escape_arg("a\"b"), "\"a\\\"b\"");
}

#[test]
fn backslash_is_doubled_inside_quotes() {
    assert_eq!(escape_arg("a\\ b"), "\"a\\\\ b\"");
}

#[test]
fn space_and_tab_force_quotes() {
    assert_eq!(escape_arg("a b"), "\"a b\"");
    assert_eq!(escape_arg("a\tb"), "\"a\tb\"");
    assert_eq!(escape_arg(" "), "\" \"");
}

#[test]
fn other_shell_characters_pass_through() {
    assert_eq!(escape_arg("50%&x|y"), "50%&x|y");
    assert_eq!(escape_arg("50% &x"), "\"50% &x\"");
}

#[test]
fn characters_beyond_ascii_pass_through() {
    assert_eq!(escape_arg("h\u{e9}llo w\u{f6}rld"), "\"h\u{e9}llo w\u{f6}rld\"");
    assert_eq!(escape_arg("\u{1f600}"), "\u{1f600}");
}

#[test]
fn needs_quotes_finds_each_trigger() {
    assert!(needs_quotes("a b"));
    assert!(needs_quotes("a\tb"));
    assert!(needs_quotes("a\"b"));
    assert!(needs_quotes("ab "));
    assert!(!needs_quotes("a\\b"));
    assert!(!needs_quotes(""));
    assert!(!needs_quotes("abc"));
}

#[test]
fn push_escaped_keeps_what_was_there() {
    let mut out = String::from("cmd ");
    push_escaped(&mut out, "a b");
    assert_eq!(out, "cmd \"a b\"");
    push_escaped(&mut out, "c");
    assert_eq!(out, "cmd \"a b\"c");
}

#[test]
fn arguments_are_joined_with_one_space() {
    assert_eq!(escape_args(&owned(&["a", "b c", "", "d\"e"])), "a \"b c\" \"\" \"d\\\"e\"");
    assert_eq!(escape_args(&owned(&["/C", "echo hello"])), "/C \"echo hello\"");
}

#[test]
fn no_arguments_give_an_empty_line() {
    assert_eq!(escape_args(&Vec::new()), "");
}

#[test]
fn one_argument_has_no_separator() {
    assert_eq!(escape_args(&owned(&["solo"])), "solo");
    assert_eq!(escape_args(&owned(&[""])), "\"\"");
}

#[test]
fn encoding_a_plain_argument_twice_changes_nothing() {
    for s in ["abc", "a\\b", "x=1", "\u{e9}"] {
        let once = escape_arg(s);
        let twice = escape_arg(&once);
        assert_eq!(once, s);
        assert_eq!(twice, once);
    }
}

#[test]
fn encoded_arguments_read_back() {
    let samples = [
        "",
        "abc",
        "a b",
        "a\tb",
        "a\"b",
        "a\\ b",
        "a\\\\ b",
        "\\",
        "\\ ",
        " \\",
        "\"",
        "\"\"",
        "\\\"",
        "a\\b",
        "tr\u{e8}s bien \u{1f600}",
        "C:\\Program Files\\App\\",
    ];
    for s in samples {
        let encoded = escape_arg(s);
        assert_eq!(split_args(&encoded), Some(vec![s.to_string()]), "through {:?}", encoded);
    }
}

#[test]
fn joined_arguments_read_back() {
    let lists: [&[&str]; 6] = [
        &[],
        &[""],
        &["", ""],
        &["a", "b c", "", "d\"e", "f\\ g", "\\"],
        &["/C", "echo hello"],
        &[" ", "\t", "\"", "\\\""],
    ];
    for list in lists {
        let args = owned(list);
        let line = escape_args(&args);
        assert_eq!(split_args(&line), Some(args), "through {:?}", line);
    }
}

#[test]
fn split_reads_the_two_escapes() {
    assert_eq!(split_args("\"a\\\"b\""), Some(owned(&["a\"b"])));
    assert_eq!(split_args("\"a\\\\ b\""), Some(owned(&["a\\ b"])));
    assert_eq!(split_args("\"\""), Some(owned(&[""])));
}

#[test]
fn split_keeps_a_backslash_before_other_characters() {
    assert_eq!(split_args("\"a\\b c\""), Some(owned(&["a\\b c"])));
    assert_eq!(split_args("a\\b"), Some(owned(&["a\\b"])));
    assert_eq!(split_args("a\\ b"), Some(owned(&["a\\", "b"])));
}

#[test]
fn split_skips_runs_of_spaces_and_tabs() {
    assert_eq!(split_args(""), Some(Vec::new()));
    assert_eq!(split_args("  \t "), Some(Vec::new()));
    assert_eq!(split_args(" a  b\tc "), Some(owned(&["a", "b", "c"])));
}

#[test]
fn split_joins_quoted_and_plain_stretches_of_one_word() {
    assert_eq!(split_args("a\"b c\"d e"), Some(owned(&["ab cd", "e"])));
    assert_eq!(split_args("\"a\"\"b\""), Some(owned(&["ab"])));
}

#[test]
fn split_refuses_an_open_quote() {
    assert_eq!(split_args("\"abc"), None);
    assert_eq!(split_args("\""), None);
    assert_eq!(split_args("a \"b"), None);
    assert_eq!(split_args("\"a\\\""), None);
    assert_eq!(split_args("\"a\\"), None);
}

#[test]
fn wide_strings_end_in_zero() {
    assert_eq!(to_wide(""), vec![0u16]);
    assert_eq!(to_wide("a"), vec![0x61u16, 0]);
    assert_eq!(to_wide("runas"), vec![0x72u16, 0x75, 0x6e, 0x61, 0x73, 0]);
}

#[test]
fn wide_strings_use_surrogates_above_the_basic_plane() {
    assert_eq!(to_wide("\u{1f600}"), vec![0xD83Du16, 0xDE00, 0]);
    assert_eq!(to_wide("\u{10000}"), vec![0xD800u16, 0xDC00, 0]);
    assert_eq!(to_wide("\u{10ffff}"), vec![0xDBFFu16, 0xDFFF, 0]);
    assert_eq!(to_wide("\u{ffff}"), vec![0xFFFFu16, 0]);
    assert_eq!(to_wide("\u{e9}"), vec![0xE9u16, 0]);
}

#[test]
fn wide_strings_agree_with_the_standard_encoder() {
    for s in ["", "plain", "C:\\dir\\file.exe", "\u{e9}\u{4e2d}\u{6587}", "a\u{1f600}b\u{10437}"] {
        let mut expected: Vec<u16> = s.encode_utf16().collect();
        expected.push(0);
        assert_eq!(to_wide(s), expected);
    }
}
