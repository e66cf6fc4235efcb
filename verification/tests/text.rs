use nuttty::number::{decimal, parse_whole, reads_as_real, two_digits};
use nuttty::text::{
    after_spaces, field, is_white, lines, padded, split_once, starts_with, strip_first, strip_last,
    strip_prefix, trim, trim_end, trim_start, words,
};

const SAMPLES: [&str; 16] = [
    "",
    " ",
    "a",
    "  a b\t c  ",
    "\u{3000}OL\u{a0}CHRG\u{2003}",
    "a\nb",
    "a\r\nb\r\n",
    "\n",
    "\r\n\r",
    "a\n\nb\n",
    "=x=y",
    "é·ü",
    "CMD myups  beeper",
    " lead",
    "trail ",
    "\u{200b}zero width\u{200b}",
];

#[test]
fn white_space_is_the_unicode_property() {
    for n in 0..=0x10ffffu32 {
        if let Some(c) = char::from_u32(n) {
            assert_eq!(is_white(c), c.is_whitespace(), "{n:x}");
        }
    }
}

#[test]
fn trimming_and_splitting_agree_with_std() {
    for s in SAMPLES {
        assert_eq!(trim(s), s.trim());
        assert_eq!(trim_start(s), s.trim_start());
        assert_eq!(trim_end(s), s.trim_end());
        assert_eq!(words(s), s.split_whitespace().collect::<Vec<_>>());
        assert_eq!(lines(s), s.lines().collect::<Vec<_>>(), "{s:?}");
        assert_eq!(split_once(s, '='), s.split_once('='));
        assert_eq!(split_once(s, ' '), s.split_once(' '));
        assert_eq!(strip_first(s, 'a'), s.strip_prefix('a'));
        assert_eq!(strip_last(s, 'b'), s.strip_suffix('b'));
        assert_eq!(starts_with(s, "CMD "), s.starts_with("CMD "));
        assert_eq!(strip_prefix(s, "CMD "), s.strip_prefix("CMD "));
        for n in 0..4 {
            assert_eq!(field(s, n), s.split(' ').nth(n), "{s:?} {n}");
            assert_eq!(after_spaces(s, n), s.splitn(n + 1, ' ').nth(n), "{s:?} {n}");
        }
        assert_eq!(padded(s, 5), format!("{s:<5}"));
    }
}

#[test]
fn decimal_notation() {
    for n in [0u128, 7, 10, 99, 100, 3493, u64::MAX as u128, u128::MAX] {
        assert_eq!(decimal(n), n.to_string());
        assert_eq!(two_digits(n), format!("{n:02}"));
    }
}

#[test]
fn whole_numbers_agree_with_std() {
    for s in [
        "", "0", "7", "+7", "-7", "++7", "007", "65535", "65536", "70000", "12a", " 1", "1 ", "+",
        "18446744073709551615", "18446744073709551616", "99999999999999999999999", "٣",
    ] {
        assert_eq!(parse_whole(s, u16::MAX as u64), s.parse::<u16>().ok().map(u64::from), "{s:?}");
        assert_eq!(parse_whole(s, u64::MAX), s.parse::<u64>().ok(), "{s:?}");
    }
}

#[test]
fn decimal_notation_reads_back() {
    for n in [0u64, 9, 10, 12345, u64::MAX] {
        assert_eq!(parse_whole(&decimal(n as u128), u64::MAX), Some(n));
    }
    assert_eq!(parse_whole(&decimal(251), 250), None);
}

#[test]
fn real_numbers_agree_with_std() {
    for s in [
        "", ".", "+", "-", "e", "e5", ".e5", "1", "-1", "+1", "1.", ".5", "-.5", "1.5", "1.5.5", "1e5",
        "1E5", "1e+5", "1e-5", "1e", "1e+", "1e5e5", "1E5e5", "1e5E5", "1.e5", ".5e1", "e.5", "1 ", " 1",
        "1,5", "0x10", "1_000", "inf", "-inf", "+INF", "Infinity", "-iNfInItY", "infinit", "infinityy",
        "nan", "NaN", "-nan", "+NAN", "nana", "--1", "+-1", "1-", "½", "12V", "230.4", "1e400", "OL",
    ] {
        assert_eq!(reads_as_real(s), s.parse::<f64>().is_ok(), "{s:?}");
    }
}
