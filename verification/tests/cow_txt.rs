use moooodotfarm::domain::cow_txt::normalize;
use moooodotfarm::domain::CowTxt;
use moooodotfarm::errors::Error;

const COW: &str = r#"
 _______________________
< moooo, this is my cow >
 -----------------------
        \   ^__^
         \  (oo)\_______
            (__)\       )\/\
                ||----w |
                ||     ||

This cow grazes here. It is looked after by the farm,
which comes by every now and then to see whether it is
still around. Please do not feed it.
"#;

fn with_trailing_spaces(text: &str, lines: &[usize]) -> String {
    text.lines()
        .enumerate()
        .map(|(i, line)| if lines.contains(&i) { format!("{}   ", line) } else { line.to_string() })
        .collect::<Vec<String>>()
        .join("\n")
}

#[test]
fn cow_validation_works() {
    struct CowValidationTestCase {
        name: &'static str,
        input: String,
        expected_ok: bool,
    }

    let test_cases = vec![
        CowValidationTestCase {
            name: "valid cow",
            input: with_trailing_spaces(COW, &[2, 5, 9]),
            expected_ok: true,
        },
        CowValidationTestCase {
            name: "not a cow",
            input: "not a cow".to_string(),
            expected_ok: false,
        },
        CowValidationTestCase {
            name: "cow with no trailing whitespace",
            input: COW.trim().to_string(),
            expected_ok: true,
        },
    ];

    for test_case in test_cases {
        let actual = CowTxt::new(test_case.input.clone(), COW);
        match actual {
            Ok(_) => {
                assert!(
                    test_case.expected_ok,
                    "Expected test case to fail but it succeeded: {}",
                    test_case.name
                );
            }
            Err(err) => {
                println!("Error: {:?}", err);
                assert!(
                    !test_case.expected_ok,
                    "Expected test case to succeed but it failed: {}",
                    test_case.name
                );
            }
        }
    }
}

#[test]
fn trailing_spaces_on_two_lines_do_not_matter() {
    let body = with_trailing_spaces(COW, &[3, 6]);
    assert_ne!(body, COW);
    assert!(CowTxt::cow_is_present(&body, COW));
    let cow_txt = CowTxt::new(body.clone(), COW).unwrap();
    assert_eq!(cow_txt.content(), body);
    assert!(!CowTxt::cow_is_present("not the marker", COW));
    assert_eq!(
        CowTxt::new("not the marker".to_string(), COW).unwrap_err(),
        Error::CowIsNotPresent("not the marker".to_string())
    );
}

#[test]
fn the_distance_must_be_below_one_hundred() {
    let reference = "a".repeat(300);
    let replaced = |n: usize| format!("{}{}", "b".repeat(n), "a".repeat(300 - n));
    assert!(CowTxt::cow_is_present(&replaced(0), &reference));
    assert!(CowTxt::cow_is_present(&replaced(99), &reference));
    assert!(!CowTxt::cow_is_present(&replaced(100), &reference));
    assert!(!CowTxt::cow_is_present(&replaced(101), &reference));
    assert!(CowTxt::cow_is_present(&"a".repeat(201), &reference));
    assert!(!CowTxt::cow_is_present(&"a".repeat(200), &reference));
    assert!(CowTxt::cow_is_present(&"a".repeat(399), &reference));
    assert!(!CowTxt::cow_is_present(&"a".repeat(400), &reference));
    assert!(CowTxt::cow_is_present("", &"a".repeat(99)));
    assert!(!CowTxt::cow_is_present("", &"a".repeat(100)));
    assert!(CowTxt::cow_is_present("", ""));
}

#[test]
fn the_distance_counts_characters_not_bytes() {
    let reference = "é".repeat(150);
    assert!(CowTxt::cow_is_present(&"é".repeat(51), &reference));
    assert!(!CowTxt::cow_is_present(&"é".repeat(50), &reference));
    assert!(CowTxt::cow_is_present(&format!("{}{}", "e".repeat(99), "é".repeat(51)), &reference));
    assert!(!CowTxt::cow_is_present(&format!("{}{}", "e".repeat(100), "é".repeat(50)), &reference));
}

#[test]
fn the_distance_is_that_of_insertions_deletions_and_replacements() {
    // kitten -> sitting takes three changes; padded so that the threshold decides
    let pad = "x".repeat(96);
    let a = format!("kitten{}", "y".repeat(96));
    let b = format!("sitting{}", pad);
    // 3 changes for the words and 96 for the padding: 99
    assert!(CowTxt::cow_is_present(&a, &b));
    let a = format!("kitten{}", "y".repeat(97));
    let b = format!("sitting{}", "x".repeat(97));
    assert!(!CowTxt::cow_is_present(&a, &b));
}

fn std_trim_lines(s: &str) -> String {
    s.lines().map(|line| line.trim_end()).collect::<Vec<&str>>().join("\n")
}

const TEXTS: [&str; 22] = [
    "",
    "\n",
    "\n\n",
    "a",
    "a\n",
    "a\n\n",
    "\na",
    "a  \nb\t\n c \n",
    "a\r\nb\r\n",
    "a\r",
    "a\r\r\n\rb",
    "  \n  \n  ",
    " leading and trailing \n\n",
    "one\u{a0}\ntwo\u{2003}\u{3000}\nthree\u{85}",
    "no-break\u{feff}\nzero width\u{200b}  ",
    "x\u{b}\u{c}\ny\u{1680}\u{2028}z\u{2029}\n",
    "tabs\t\t\nand\u{202f}\u{205f}\n",
    "\u{1c}\u{1d}\u{1e}\u{1f}not white space \u{180e}",
    "   ",
    "\t\n\r ",
    "a \n\n b\n\n\n",
    "line\n   \nline",
];

#[test]
fn lines_are_trimmed_as_the_standard_library_trims_them() {
    for text in TEXTS {
        assert_eq!(
            CowTxt::trim_trailing_whitespace_from_each_line(text),
            std_trim_lines(text),
            "for {:?}",
            text
        );
    }
    assert_eq!(CowTxt::trim_trailing_whitespace_from_each_line("a  \nb\t\n c \n"), "a\nb\n c");
    assert_eq!(CowTxt::trim_trailing_whitespace_from_each_line("a\n\n"), "a\n");
}

#[test]
fn texts_are_normalized_as_the_standard_library_would() {
    for text in TEXTS {
        assert_eq!(normalize(text), std_trim_lines(text.trim()), "for {:?}", text);
    }
    assert_eq!(normalize("  \n a  \n\n b \t\n\n"), "a\n\n b");
    assert_eq!(normalize(COW), std_trim_lines(COW.trim()));
}

#[test]
fn every_character_is_white_space_or_not_as_the_standard_library_says() {
    for code in 0..=0x10FFFFu32 {
        if let Some(c) = char::from_u32(code) {
            let text = format!("a{}", c);
            let trimmed = CowTxt::trim_trailing_whitespace_from_each_line(&text);
            if c == '\n' {
                assert_eq!(trimmed, "a");
            } else {
                assert_eq!(trimmed == "a", c.is_whitespace(), "for U+{:04X}", code);
            }
        }
    }
}
