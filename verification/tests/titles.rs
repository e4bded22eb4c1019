use youtube_irc_bot::page::{parse_title, single_line, space, trimmed_lines};
use youtube_irc_bot::stash::get_file_listing;
use youtube_irc_bot::text::split_lines;

#[test]
fn title_is_read_decoded_and_put_on_one_line() {
    assert_eq!(parse_title("<html><title>Hello</title></html>"), Some("Hello".to_string()));
    assert_eq!(parse_title("<TITLE lang=\"en\">\n  Tom &amp; Jerry \n - YouTube\n</TITLE>"), Some("Tom & Jerry - YouTube".to_string()));
    assert_eq!(parse_title("<title>a&#x41;&#66;</title><title>second</title>"), Some("aAB".to_string()));
    assert_eq!(parse_title("<title>  \n </title>"), None);
    assert_eq!(parse_title("<title></title>"), None);
    assert_eq!(parse_title("<title>&nosuchentity;</title>"), None);
    assert_eq!(parse_title("<title>unclosed"), None);
    assert_eq!(parse_title(""), None);
}

#[test]
fn lines_are_trimmed_and_joined() {
    assert_eq!(single_line("a"), Some("a".to_string()));
    assert_eq!(single_line("  a  \r\n\tb\n\n c "), Some("a b  c".to_string()));
    assert_eq!(single_line("\u{a0}a\u{3000}"), Some("a".to_string()));
    assert_eq!(single_line("a\rb"), Some("a\rb".to_string()));
    assert_eq!(single_line(" \n "), None);
    assert_eq!(single_line(""), None);
    let chars: Vec<char> = "x\n y \n".chars().collect();
    let lines = split_lines(&chars, 0, chars.len());
    assert_eq!(lines, vec!["x".to_string(), " y ".to_string()]);
    assert_eq!(trimmed_lines(&lines), vec!["x".to_string(), "y".to_string()]);
    assert_eq!(split_lines(&chars, 1, 2), vec!["".to_string()]);
    assert_eq!(split_lines(&chars, 1, 1), Vec::<String>::new());
}

#[test]
fn listings_are_split_as_the_standard_library_splits_lines() {
    for text in ["", "a", "a\n", "a\nb", "a\r\nb\r\n", "\n", "\n\n", "a\r", "\r\n", "a\n\rb", "a\r\r\n"].iter() {
        let expected: Vec<String> = text.lines().map(String::from).collect();
        assert_eq!(get_file_listing(text), expected, "{:?}", text);
    }
}

#[test]
fn white_space_is_what_the_standard_library_says() {
    let mut code: u32 = 0;
    while code <= 0x10ffff {
        if let Some(c) = char::from_u32(code) {
            assert_eq!(space(c), c.is_whitespace(), "{:x}", code);
        }
        code += 1;
    }
}

#[test]
fn single_line_agrees_with_the_standard_library() {
    for title in ["", " ", "a", " a b ", "a\nb", "a\r\nb\r\n", "\n\na\n\n", "a \n\n b", "\u{2003}x\u{2003}\ny", "a\n \nb", "a\r"].iter() {
        let lines: Vec<&str> = title.trim().lines().map(|line| line.trim()).collect();
        let expected = lines.join(" ");
        let expected = if expected.is_empty() { None } else { Some(expected) };
        assert_eq!(single_line(title), expected, "{:?}", title);
    }
}
