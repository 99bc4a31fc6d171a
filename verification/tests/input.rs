use vps_deploy::command::{parse_unsigned, ChoiceError, Command};
use vps_deploy::text::{is_whitespace, split_words, trim};

const LINES: [&str; 14] = [
    "",
    " ",
    "a",
    " a ",
    "a b",
    "  report.pdf\tnotes.txt \n",
    "one  two   three",
    "\u{3000}wide\u{2003}spaces\u{a0}",
    "tab\tand\u{b}vertical\u{c}feed\r\n",
    "no-break\u{202f}narrow",
    "zero\u{200b}width is no space",
    "/home/me/a.txt /home/me/dir/",
    "\u{85}next line\u{1680}ogham\u{2028}\u{2029}\u{205f}",
    "trailing word",
];

#[test]
fn white_space_is_what_the_standard_library_calls_so() {
    for code in 0..=0x10FFFFu32 {
        if let Some(c) = char::from_u32(code) {
            assert_eq!(is_whitespace(c), c.is_whitespace(), "U+{:04X}", code);
        }
    }
}

#[test]
fn trim_cuts_white_space_at_both_ends() {
    assert_eq!(trim("  /home/admin/uploads \n"), "/home/admin/uploads");
    assert_eq!(trim("a b"), "a b");
    assert_eq!(trim(" \t\r\n"), "");
    assert_eq!(trim(""), "");
    for line in LINES {
        assert_eq!(trim(line), line.trim());
    }
}

#[test]
fn words_are_the_runs_between_white_space() {
    assert_eq!(split_words("  report.pdf\tnotes.txt \n"), vec!["report.pdf", "notes.txt"]);
    assert_eq!(split_words("one"), vec!["one"]);
    assert!(split_words("").is_empty());
    assert!(split_words(" \n ").is_empty());
    for line in LINES {
        let expected: Vec<&str> = line.split_whitespace().collect();
        assert_eq!(split_words(line), expected);
    }
}

#[test]
fn unsigned_numbers() {
    assert_eq!(parse_unsigned("0"), Some(0));
    assert_eq!(parse_unsigned("3"), Some(3));
    assert_eq!(parse_unsigned("+3"), Some(3));
    assert_eq!(parse_unsigned("007"), Some(7));
    assert_eq!(parse_unsigned("4294967295"), Some(u32::MAX));
    assert_eq!(parse_unsigned("4294967296"), None);
    assert_eq!(parse_unsigned("00000000000000000000000000042"), Some(42));
    assert_eq!(parse_unsigned("99999999999999999999999999999"), None);
    assert_eq!(parse_unsigned(""), None);
    assert_eq!(parse_unsigned("+"), None);
    assert_eq!(parse_unsigned("-1"), None);
    assert_eq!(parse_unsigned("-0"), None);
    assert_eq!(parse_unsigned("++1"), None);
    assert_eq!(parse_unsigned("1+"), None);
    assert_eq!(parse_unsigned("1 "), None);
    assert_eq!(parse_unsigned("1.0"), None);
    assert_eq!(parse_unsigned("0x10"), None);
    assert_eq!(parse_unsigned("１"), None);
    for text in ["0", "+0", "12", "+12", "4294967295", "4294967296", "", "+", "-", "a", "1a", "/", ":"]
    {
        assert_eq!(parse_unsigned(text), text.parse::<u32>().ok(), "{:?}", text);
    }
}

#[test]
fn a_line_chooses_a_command() {
    assert_eq!(Command::parse("1\n"), Ok(Command::Upload));
    assert_eq!(Command::parse(" 2 "), Ok(Command::Download));
    assert_eq!(Command::parse("3"), Ok(Command::Deploy));
    assert_eq!(Command::parse("+4\r\n"), Ok(Command::Exit));
    assert_eq!(Command::parse("04"), Ok(Command::Exit));
    assert_eq!(Command::parse("0"), Err(ChoiceError::NoSuchOption));
    assert_eq!(Command::parse("5"), Err(ChoiceError::NoSuchOption));
    assert_eq!(Command::parse("4294967295"), Err(ChoiceError::NoSuchOption));
    assert_eq!(Command::parse("4294967296"), Err(ChoiceError::NotANumber));
    assert_eq!(Command::parse(""), Err(ChoiceError::NotANumber));
    assert_eq!(Command::parse("\n"), Err(ChoiceError::NotANumber));
    assert_eq!(Command::parse("exit"), Err(ChoiceError::NotANumber));
    assert_eq!(Command::parse("1 2"), Err(ChoiceError::NotANumber));
    assert_eq!(Command::parse("-1"), Err(ChoiceError::NotANumber));
}
