use wallpaper_overrider::command_line::{quote_cmd_arg, quote_cmd_args};

fn quoted(arg: &str) -> String {
    let wide: Vec<u16> = arg.encode_utf16().collect();
    String::from_utf16(&quote_cmd_arg(&wide)).unwrap_or_default()
}

#[test]
fn command_line_argument_without_special_chars_is_unchanged() {
    assert_eq!(quoted("--style"), "--style");
    assert_eq!(quoted("FILL"), "FILL");
}

#[test]
fn command_line_argument_with_spaces_is_quoted() {
    assert_eq!(
        quoted(r"C:\My Pictures\wall.jpg"),
        r#""C:\My Pictures\wall.jpg""#
    );
}

#[test]
fn command_line_argument_escapes_quotes_and_trailing_backslashes() {
    assert_eq!(quoted(r"C:\Dir \"), r#""C:\Dir \\""#);
    assert_eq!(quoted(r#"say "hello""#), r#""say \"hello\"""#);
}

#[test]
fn empty_argument_becomes_a_pair_of_quotes() {
    assert_eq!(quoted(""), r#""""#);
    assert_eq!(quoted("a\tb"), "\"a\tb\"");
    assert_eq!(quoted(r#"\\"x"#), r#""\\\\\"x""#);
}

#[test]
fn arguments_are_joined_by_spaces_and_nul_terminated() {
    let args: Vec<Vec<u16>> = ["--wallpaper", r"C:\A B\c.jpg", ""]
        .iter()
        .map(|a| a.encode_utf16().collect())
        .collect();
    let line = quote_cmd_args(&args);
    assert_eq!(line.last(), Some(&0));
    let text = String::from_utf16(&line[..line.len() - 1]).unwrap();
    assert_eq!(text, r#"--wallpaper "C:\A B\c.jpg" """#);
    assert_eq!(quote_cmd_args(&Vec::new()), vec![0]);
}

#[test]
fn quotes_before_a_quote_and_at_the_end_are_doubled() {
    assert_eq!(quoted(r#"a\\"b c\\"#), r#""a\\\\\"b c\\\\""#);
}
