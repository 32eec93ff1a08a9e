use jobflow::text::{
    chain, decimal_string, join, push_decimal, push_signed_decimal, replace, same_text,
    split_once, trim, white_space,
};

#[test]
fn decimal_string_writes_digits() {
    assert_eq!(decimal_string(0), "0");
    assert_eq!(decimal_string(7), "7");
    assert_eq!(decimal_string(10), "10");
    assert_eq!(decimal_string(4444), "4444");
    assert_eq!(decimal_string(1234567890), "1234567890");
    assert_eq!(decimal_string(u64::MAX), "18446744073709551615");
}

#[test]
fn push_decimal_appends_to_what_is_there() {
    let mut text = String::from("--port=");
    push_decimal(&mut text, 9515);
    assert_eq!(text, "--port=9515");
    push_decimal(&mut text, 0);
    assert_eq!(text, "--port=95150");
}

#[test]
fn push_signed_decimal_writes_the_sign() {
    let mut text = String::new();
    push_signed_decimal(&mut text, -42);
    assert_eq!(text, "-42");
    let mut text = String::new();
    push_signed_decimal(&mut text, 42);
    assert_eq!(text, "42");
    let mut text = String::new();
    push_signed_decimal(&mut text, 0);
    assert_eq!(text, "0");
    let mut text = String::new();
    push_signed_decimal(&mut text, i64::MIN);
    assert_eq!(text, "-9223372036854775808");
    let mut text = String::new();
    push_signed_decimal(&mut text, i64::MAX);
    assert_eq!(text, "9223372036854775807");
}

#[test]
fn chain_puts_second_after_first() {
    assert_eq!(chain("Login failure: ", "wrong password"), "Login failure: wrong password");
    assert_eq!(chain("", ""), "");
    assert_eq!(chain("a", ""), "a");
    assert_eq!(chain("", "b"), "b");
}

#[test]
fn join_puts_the_separator_between_neighbours() {
    let none: Vec<String> = vec![];
    assert_eq!(join(&none, " "), "");
    assert_eq!(join(&vec![String::from("rust")], " "), "rust");
    assert_eq!(
        join(&vec![String::from("rust"), String::from("verification"), String::from("remote")], " "),
        "rust verification remote"
    );
    assert_eq!(join(&vec![String::from("a"), String::new(), String::from("b")], ", "), "a, , b");
}

#[test]
fn join_agrees_with_the_standard_library() {
    let parts = vec![String::from("senior"), String::from("rust"), String::from("engineer")];
    assert_eq!(join(&parts, " "), parts.join(" "));
    assert_eq!(join(&parts, ""), parts.join(""));
}

#[test]
fn same_text_compares_characters() {
    assert!(same_text("linkedin", "linkedin"));
    assert!(!same_text("linkedin", "LinkedIn"));
    assert!(!same_text("linkedin", "linkedi"));
    assert!(same_text("", ""));
}

#[test]
fn split_once_cuts_at_the_first_mark() {
    assert_eq!(split_once("New South Wales, Australia", ','), ("New South Wales", Some(" Australia")));
    assert_eq!(split_once("a,b,c", ','), ("a", Some("b,c")));
    assert_eq!(split_once("no comma", ','), ("no comma", None));
    assert_eq!(split_once("", ','), ("", None));
    assert_eq!(split_once(",", ','), ("", Some("")));
    assert_eq!(split_once("trailing,", ','), ("trailing", Some("")));
    assert_eq!(split_once(",leading", ','), ("", Some("leading")));
}

#[test]
fn split_once_counts_characters_not_bytes() {
    assert_eq!(split_once("Zürich · CH, Schweiz", ','), ("Zürich · CH", Some(" Schweiz")));
    assert_eq!(split_once("東京,日本", ','), ("東京", Some("日本")));
}

const SAMPLES: [&str; 16] = [
    "",
    " ",
    "  \t\n ",
    "a",
    " a",
    "a ",
    "  New South Wales  ",
    "\u{a0}\u{2003}padded with wide blanks\u{3000}\u{85}",
    "inner  blanks   stay",
    "\u{200b}zero width space is no white space\u{200b}",
    "Posted on January 19, 2026, 10:43 AM",
    "Posted on Posted on twice",
    "Posted onPosted on ",
    "aaaa",
    "abababa",
    "東京 ,日本\u{2028}",
];

#[test]
fn white_space_is_what_the_standard_library_calls_white_space() {
    for code in 0..=0x10FFFFu32 {
        if let Some(c) = char::from_u32(code) {
            assert_eq!(white_space(c), c.is_whitespace(), "U+{:04X}", code);
        }
    }
}

#[test]
fn trim_agrees_with_the_standard_library() {
    for sample in SAMPLES {
        assert_eq!(trim(sample), sample.trim(), "{:?}", sample);
    }
}

#[test]
fn trim_takes_the_white_space_from_both_ends_only() {
    assert_eq!(trim("  New South Wales \n"), "New South Wales");
    assert_eq!(trim("\t\u{a0} x  y \u{3000}"), "x  y");
    assert_eq!(trim("   "), "");
    assert_eq!(trim(""), "");
    assert_eq!(trim("untouched"), "untouched");
}

#[test]
fn replace_agrees_with_the_standard_library() {
    let patterns = ["Posted on ", "a", "aa", "aba", "ab", " ", "", "日本", "zzz"];
    let replacements = ["", "-", "ab", "Posted on "];
    for sample in SAMPLES {
        for from in patterns {
            for to in replacements {
                assert_eq!(replace(sample, from, to), sample.replace(from, to), "{:?} {:?} {:?}", sample, from, to);
            }
        }
    }
}

#[test]
fn replace_finds_occurrences_from_left_to_right_without_overlap() {
    assert_eq!(replace("Posted on January 19", "Posted on ", ""), "January 19");
    assert_eq!(replace("aaaa", "aa", "b"), "bb");
    assert_eq!(replace("aaa", "aa", "b"), "ba");
    assert_eq!(replace("abababa", "aba", "x"), "xbx");
    assert_eq!(replace("abc", "", "-"), "-a-b-c-");
    assert_eq!(replace("", "", "-"), "-");
    assert_eq!(replace("", "a", "-"), "");
    assert_eq!(replace("abc", "abcd", "-"), "abc");
}
