use peeksy::decimal::{parse_i32, parse_u32, render_u32};
use peeksy::text::{
    chars_of, followed_by, contains, ends_with, join_rows, leading_word, matches_at, same_chars,
    split_lines, starts_with, text_of, trimmed, trimmed_text,
};

fn cs(s: &str) -> Vec<char> {
    s.chars().collect()
}

fn rows(s: &str) -> Vec<String> {
    split_lines(&cs(s)).iter().map(|r| r.iter().collect()).collect()
}

#[test]
fn chars_and_text_round_trip() {
    assert_eq!(chars_of("héllo"), vec!['h', 'é', 'l', 'l', 'o']);
    assert_eq!(text_of(&cs("héllo")), "héllo");
    assert_eq!(text_of(&[]), "");
    assert_eq!(followed_by("Bearer ", "key"), "Bearer key");
}

#[test]
fn prefix_suffix_and_infix() {
    assert!(starts_with(&cs("screenshot 1.png"), &cs("screenshot")));
    assert!(!starts_with(&cs("a screenshot"), &cs("screenshot")));
    assert!(starts_with(&cs("abc"), &cs("")));
    assert!(!starts_with(&cs("ab"), &cs("abc")));
    assert!(ends_with(&cs("file-ss"), &cs("-ss")));
    assert!(!ends_with(&cs("file-ss.png"), &cs("-ss")));
    assert!(!ends_with(&cs("ss"), &cs("-ss")));
    assert!(contains(&cs("my screen shot 2.png"), &cs("screen shot")));
    assert!(contains(&cs("screen shot"), &cs("screen shot")));
    assert!(!contains(&cs("screenshot"), &cs("screen shot")));
    assert!(contains(&cs("abc"), &cs("")));
    assert!(contains(&cs("xxab"), &cs("ab")));
    assert!(matches_at(&cs("xxab"), &cs("ab"), 2));
    assert!(!matches_at(&cs("xxab"), &cs("ab"), 3));
    assert!(!matches_at(&cs("xxab"), &cs("ab"), 9));
    assert!(same_chars(&cs("abc"), &cs("abc")));
    assert!(!same_chars(&cs("abc"), &cs("abd")));
    assert!(!same_chars(&cs("abc"), &cs("ab")));
}

#[test]
fn trimming_follows_std() {
    for s in ["  a b \n", "\t\r\n", "", "x", " \u{a0}x\u{3000} ", "a\u{b}", "\u{2028}y z\u{85}"] {
        let got: String = trimmed(&cs(s)).iter().collect();
        assert_eq!(got, s.trim(), "trimming {:?}", s);
        assert_eq!(trimmed_text(s), s.trim());
    }
}

#[test]
fn leading_word_follows_std() {
    for s in ["4821\t0\tcom.x", "  -  0 label", "", "   ", "one", "\u{a0}a\u{2003}b"] {
        let got: String = leading_word(&cs(s)).iter().collect();
        assert_eq!(got, s.split_whitespace().next().unwrap_or(""), "first word of {:?}", s);
    }
}

#[test]
fn lines_follow_std() {
    for s in [
        "",
        "\n",
        "a",
        "a\n",
        "a\nb",
        "a\r\nb\r\n",
        "foo\r\nbar\n\nbaz\r",
        "\r\n\r\n",
        "a\rb\nc",
        "\n\na",
        "x\r",
    ] {
        let want: Vec<String> = s.lines().map(|l| l.to_string()).collect();
        assert_eq!(rows(s), want, "lines of {:?}", s);
    }
    assert_eq!(rows("foo\r\nbar\n\nbaz\r"), vec!["foo", "bar", "", "baz\r"]);
}

#[test]
fn rows_are_joined_with_the_separator() {
    let all = split_lines(&cs("a\nbb\n\nccc"));
    let joined: String = join_rows(&all, 0, 4, &cs("\n")).iter().collect();
    assert_eq!(joined, "a\nbb\n\nccc");
    let middle: String = join_rows(&all, 1, 3, &cs(", ")).iter().collect();
    assert_eq!(middle, "bb, ");
    assert_eq!(join_rows(&all, 2, 2, &cs(",")), Vec::<char>::new());
}

#[test]
fn signed_numbers_follow_std() {
    for s in [
        "0", "-0", "+0", "7", "+7", "-7", "007", "2147483647", "2147483648", "-2147483648",
        "-2147483649", "99999999999999999999", "", "+", "-", "--1", "+-1", "1 ", " 1", "1_0", "1a",
        "a1", "١", "4821", "-",
    ] {
        assert_eq!(parse_i32(&cs(s)), s.parse::<i32>().ok(), "reading {:?}", s);
    }
    assert_eq!(parse_i32(&cs("4821")), Some(4821));
    assert_eq!(parse_i32(&cs("-2147483648")), Some(i32::MIN));
    assert_eq!(parse_i32(&cs("2147483648")), None);
}

#[test]
fn unsigned_numbers_follow_std() {
    for s in [
        "0", "-0", "+0", "7", "+7", "-7", "007", "4294967295", "4294967296", "42949672950", "",
        "+", "-", "1 ", " 1", "12x", "00000000000000000001",
    ] {
        assert_eq!(parse_u32(&cs(s)), s.parse::<u32>().ok(), "reading {:?}", s);
    }
    assert_eq!(parse_u32(&cs("4294967295")), Some(u32::MAX));
    assert_eq!(parse_u32(&cs("-1")), None);
}

#[test]
fn numbers_are_written_as_std_writes_them() {
    for n in [0u32, 1, 9, 10, 11, 99, 100, 4821, 65535, 1_000_000, u32::MAX - 1, u32::MAX] {
        let got: String = render_u32(n).iter().collect();
        assert_eq!(got, n.to_string());
        assert_eq!(parse_u32(&render_u32(n)), Some(n));
    }
}
