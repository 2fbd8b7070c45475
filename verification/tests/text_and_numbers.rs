use androlon::number::{
    decimal, decimal_signed, hexadecimal, is_fraction, megabytes, parse_u32, parse_unsigned,
};
use androlon::text::{
    begins, cat8, ends, find_chars, includes, is_less, is_white, join_texts, text_after,
    text_before, text_lines, text_without, text_words, to_chars, trimmed,
};

fn owned(list: &[&str]) -> Vec<String> {
    list.iter().map(|s| s.to_string()).collect()
}

const TEXTS: [&str; 14] = [
    "",
    " ",
    "a",
    "  a b  ",
    "line\nline\r\n\nlast",
    "ends with\n",
    "ends with\r\n",
    "cr\rinside\r",
    "\u{a0}x\u{2003}y\u{3000}",
    "ünï — code",
    "\n",
    "\r\n",
    "one  two\tthree\u{2028}four",
    "aaaa",
];

#[test]
fn white_space_is_unicode_white_space() {
    for n in 0..=0x10ffffu32 {
        if let Some(c) = char::from_u32(n) {
            assert_eq!(is_white(c), c.is_whitespace(), "{n:#x}");
        }
    }
}

#[test]
fn texts_are_cut_as_std_cuts_them() {
    for s in TEXTS {
        assert_eq!(trimmed(s), s.trim(), "{s:?}");
        let lines: Vec<&str> = s.lines().collect();
        assert_eq!(text_lines(s), owned(&lines), "{s:?}");
        let words: Vec<&str> = s.split_whitespace().collect();
        assert_eq!(text_words(s), owned(&words), "{s:?}");
    }
}

#[test]
fn texts_are_searched_as_std_searches_them() {
    for s in TEXTS {
        for p in ["", "a", "aa", " ", "line", "\n", "ï", "with\r", "zz"] {
            assert_eq!(includes(s, p), s.contains(p), "{s:?} {p:?}");
            assert_eq!(begins(s, p), s.starts_with(p), "{s:?} {p:?}");
            assert_eq!(ends(s, p), s.ends_with(p), "{s:?} {p:?}");
            let cut = s.split_once(p);
            assert_eq!(text_after(s, p), cut.map(|c| c.1.to_string()), "{s:?} {p:?}");
            assert_eq!(text_before(s, p), cut.map(|c| c.0).unwrap_or(s), "{s:?} {p:?}");
            if !p.is_empty() {
                assert_eq!(text_without(s, p), s.replace(p, ""), "{s:?} {p:?}");
            }
        }
    }
}

#[test]
fn a_search_gives_the_first_place_from_where_it_begins() {
    let s = to_chars("abcabc");
    assert_eq!(find_chars(&s, &to_chars("bc"), 0), Some(1));
    assert_eq!(find_chars(&s, &to_chars("bc"), 2), Some(4));
    assert_eq!(find_chars(&s, &to_chars("bc"), 5), None);
    assert_eq!(find_chars(&s, &to_chars(""), 6), Some(6));
}

#[test]
fn the_order_of_texts_is_that_of_std() {
    for a in TEXTS {
        for b in TEXTS {
            assert_eq!(is_less(a, b), a < b, "{a:?} {b:?}");
        }
    }
}

#[test]
fn lists_are_joined() {
    assert_eq!(join_texts(&owned(&["a", "b", "c"]), ", "), "a, b, c");
    assert_eq!(join_texts(&owned(&["a"]), ", "), "a");
    assert_eq!(join_texts(&owned(&[]), ", "), "");
    assert_eq!(cat8("a", "b", "", "c", "d", "e", "f", "g"), "abcdefg");
}

#[test]
fn numbers_read_back() {
    for n in [0u64, 1, 9, 10, 99, 100, 4294967295, 4294967296, u64::MAX] {
        assert_eq!(decimal(n), n.to_string());
        assert_eq!(parse_unsigned(&decimal(n), u64::MAX), Some(n));
    }
    for n in [0i64, -1, 7, i64::MIN, i64::MAX] {
        assert_eq!(decimal_signed(n), n.to_string());
    }
    assert_eq!(hexadecimal(0x1abcdef, 8), "01abcdef");
    assert_eq!(hexadecimal(0x6832_3634, 8), "68323634");
    assert_eq!(hexadecimal(0xabcd, 2), "cd");
}

#[test]
fn whole_numbers_are_read_as_std_reads_them() {
    for s in [
        "", "0", "007", "+5", "-5", "+", " 5", "5 ", "4294967295", "4294967296", "1_0", "٣", "0x1",
        "99999999999999999999999",
    ] {
        assert_eq!(parse_u32(s), s.parse::<u32>().ok(), "{s:?}");
        assert_eq!(parse_unsigned(s, u64::MAX), s.parse::<u64>().ok(), "{s:?}");
    }
}

#[test]
fn fractions_are_told_as_std_tells_them() {
    for s in [
        "", ".", "+", "-", "1", "1.", ".5", "+.5", "-0.25", "1e5", "1e", "1E+5", "1e-5", "e5", "inf",
        "+inf", "-INFINITY", "nan", "NaN", "infinit", "1.5.2", " 1", "1 ", "0x10", "1_0", "--1", ".e1",
        "1.e1", "+-1",
    ] {
        assert_eq!(is_fraction(s), s.parse::<f32>().is_ok(), "{s:?}");
    }
}

#[test]
fn sizes_read_as_megabytes_with_one_digit() {
    assert_eq!(megabytes(0), "0.0");
    assert_eq!(megabytes(1 << 20), "1.0");
    // 0.25 and 0.75 lie halfway between two digits.
    assert_eq!(megabytes(1 << 18), "0.2");
    assert_eq!(megabytes(3 << 18), "0.8");
    assert_eq!(megabytes(5_452_595), "5.2");
    let mut n: u64 = 1;
    for i in 0..4000u64 {
        n = n.wrapping_mul(6364136223846793005).wrapping_add(1442695040888963407 + i);
        for shift in [0, 11, 12, 24, 40] {
            let m = n >> shift;
            assert_eq!(megabytes(m), format!("{:.1}", m as f64 / (1024.0 * 1024.0)), "{m}");
        }
    }
    for m in [u64::MAX, u64::MAX - 1024, (1 << 53) + 1, (1 << 53) + 3, 1 << 53, (1 << 54) + 2] {
        assert_eq!(megabytes(m), format!("{:.1}", m as f64 / (1024.0 * 1024.0)), "{m}");
    }
}
