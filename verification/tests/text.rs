use xng::arguments::{
    extract_soapysdr_driver, feed_arguments, names_station, parse_elastic_index, parse_listen_host,
    parse_listen_port, parse_number, position_of, MisplacedFeed,
};
use xng::fixed::parse_fixed;
use xng::text::{
    chars_of, decimal_string, eq_ignore_case, list_text, parse_decimal, parse_hexadecimal,
    split_at_char, starts_with, string_of, text_eq_ignore_case, to_lower, trim,
    trim_text,
};
use xng::utils::normalize_tail;

fn chars(s: &str) -> Vec<char> {
    s.chars().collect()
}

fn strings(v: &[&str]) -> Vec<String> {
    v.iter().map(|s| s.to_string()).collect()
}

#[test]
fn chars_and_strings_round_trip() {
    assert_eq!(chars_of("a\u{e9}z"), vec!['a', '\u{e9}', 'z']);
    assert_eq!(string_of(&chars("a\u{e9}z")), "a\u{e9}z");
    assert_eq!(chars_of(""), Vec::<char>::new());
}

#[test]
fn case_of_ascii_letters_only() {
    assert_eq!(string_of(&to_lower(&chars("AbC-xyZ \u{c9}"))), "abc-xyz \u{c9}");
    assert!(eq_ignore_case(&chars("--SoapySDR"), &chars("--soapysdr")));
    assert!(!eq_ignore_case(&chars("abc"), &chars("abd")));
    assert!(!eq_ignore_case(&chars("abc"), &chars("abcd")));
    assert!(text_eq_ignore_case("Ground Station", "ground station"));
    // The Kelvin sign is no letter of ASCII.
    assert!(!text_eq_ignore_case("trac\u{212a}", "track"));
}

#[test]
fn trimming_takes_white_space_at_the_ends() {
    assert_eq!(string_of(&trim(&chars("  \t a b \r\n"))), "a b");
    assert_eq!(trim_text("\u{a0}x\u{3000}"), "x");
    assert_eq!(trim_text("   "), "");
    assert_eq!(trim_text(""), "");
    assert_eq!(trim_text("AB1234"), "AB1234");
}

#[test]
fn splitting_keeps_empty_pieces() {
    let pieces: Vec<String> =
        split_at_char(&chars("a,,b,"), ',').iter().map(|p| string_of(p)).collect();
    assert_eq!(pieces, vec!["a", "", "b", ""]);
    assert_eq!(split_at_char(&chars(""), ','), vec![Vec::<char>::new()]);
    assert!(starts_with(&chars("driver=rtlsdr"), &chars("driver=")));
    assert!(!starts_with(&chars("drive"), &chars("driver=")));
}

#[test]
fn decimal_numbers() {
    assert_eq!(decimal_string(0), "0");
    assert_eq!(decimal_string(10027), "10027");
    assert_eq!(decimal_string(u64::MAX), "18446744073709551615");
    assert_eq!(list_text(&vec![]), "[]");
    assert_eq!(list_text(&vec![10027]), "[10027]");
    assert_eq!(list_text(&vec![10027, 8921, 0]), "[10027, 8921, 0]");
    assert_eq!(parse_decimal(&chars("0"), 10), Some(0));
    assert_eq!(parse_decimal(&chars("+15"), 15), Some(15));
    assert_eq!(parse_decimal(&chars("16"), 15), None);
    assert_eq!(parse_decimal(&chars("18446744073709551615"), u64::MAX), Some(u64::MAX));
    assert_eq!(parse_decimal(&chars("18446744073709551616"), u64::MAX), None);
    assert_eq!(parse_decimal(&chars("000012"), 100), Some(12));
    for bad in ["", "+", "-1", "1 ", " 1", "1x", "++1", "1.0"] {
        assert_eq!(parse_decimal(&chars(bad), u64::MAX), None, "{:?}", bad);
    }
}

#[test]
fn hexadecimal_numbers() {
    assert_eq!(parse_hexadecimal(&chars("4CA8E5"), u32::MAX as u64), Some(0x4ca8e5));
    assert_eq!(parse_hexadecimal(&chars("ffffFFFF"), u32::MAX as u64), Some(0xffff_ffff));
    assert_eq!(parse_hexadecimal(&chars("100000000"), u32::MAX as u64), None);
    assert_eq!(parse_hexadecimal(&chars("+a"), 255), Some(10));
    for bad in ["", "+", "0x10", "g", "-1", " 1"] {
        assert_eq!(parse_hexadecimal(&chars(bad), u64::MAX), None, "{:?}", bad);
    }
}

#[test]
fn fixed_point_numbers() {
    assert_eq!(parse_fixed(&chars("38.384459")), Some(38_384_459));
    assert_eq!(parse_fixed(&chars("-121.759697")), Some(-121_759_697));
    assert_eq!(parse_fixed(&chars("+5")), Some(5_000_000));
    assert_eq!(parse_fixed(&chars("5.")), Some(5_000_000));
    assert_eq!(parse_fixed(&chars("0.1234567")), Some(123_456));
    assert_eq!(parse_fixed(&chars("21934.0")), Some(21_934_000_000));
    assert_eq!(parse_fixed(&chars("1000000000")), Some(1_000_000_000_000_000));
    for bad in ["", "-", ".5", "1.2.3", "1e3", "1,5", " 1", "1000000001", "--1"] {
        assert_eq!(parse_fixed(&chars(bad)), None, "{:?}", bad);
    }
}

#[test]
fn tail_numbers_in_plain_form() {
    assert_eq!(normalize_tail("N-123.AB C"), "N123ABC");
    assert_eq!(normalize_tail(".N12345"), "N12345");
    assert_eq!(normalize_tail("...---   "), "");
    assert_eq!(normalize_tail(""), "");
    assert_eq!(normalize_tail("G_ABC\t"), "G_ABC\t");
}

#[test]
fn tail_normalization_is_idempotent() {
    for tail in ["N-123.AB C", "", "D-AIMA", " . - ", "plain", "\u{e9}-\u{e9}"] {
        let once = normalize_tail(tail);
        assert_eq!(normalize_tail(&once), once);
        assert!(!once.contains(['.', '-', ' ']));
    }
}

#[test]
fn driver_of_the_decoder() {
    let args = strings(&["--gain", "40", "--SoapySDR", "serial=1,Driver=rtlsdr,driver=other", "x"]);
    assert_eq!(extract_soapysdr_driver(&args), Some("Driver=rtlsdr".to_string()));
    assert_eq!(extract_soapysdr_driver(&strings(&["--soapysdr"])), None);
    assert_eq!(extract_soapysdr_driver(&strings(&["--soapysdr", "serial=1"])), None);
    assert_eq!(extract_soapysdr_driver(&strings(&["driver=rtlsdr"])), None);
    assert_eq!(extract_soapysdr_driver(&Vec::new()), None);
    // The first argument of that name counts.
    let twice = strings(&["--soapysdr", "x", "--soapysdr", "driver=a"]);
    assert_eq!(extract_soapysdr_driver(&twice), None);
}

#[test]
fn feed_goes_to_the_end_of_the_arguments() {
    let target = "decoded:json:tcp:address=feed.acars.io,port=5556";
    assert_eq!(
        feed_arguments(&strings(&["--gain", "40"]), target),
        Ok(strings(&["--gain", "40", "--output", target]))
    );
    let named = strings(&["--OUTPUT", "DECODED:json:tcp:address=feed.acars.io,port=5556", "--gain"]);
    assert_eq!(feed_arguments(&named, target), Ok(strings(&named.iter().map(|s| s.as_str()).collect::<Vec<_>>())));
    assert_eq!(
        feed_arguments(&strings(&[target]), target),
        Err(MisplacedFeed { index: 0 })
    );
    assert_eq!(
        feed_arguments(&strings(&["--gain", target]), target),
        Err(MisplacedFeed { index: 1 })
    );
}

#[test]
fn options_with_fallbacks() {
    let given = "8080".to_string();
    let bad = "80800".to_string();
    assert_eq!(parse_listen_port(Some(&given), 7871), 8080);
    assert_eq!(parse_listen_port(Some(&bad), 7871), 7871);
    assert_eq!(parse_listen_port(None, 7871), 7871);
    assert_eq!(parse_number(Some(&bad), u64::MAX, 1), 80800);
    assert_eq!(parse_listen_host(None, "127.0.0.1"), "127.0.0.1");
    assert_eq!(parse_listen_host(Some(&given), "127.0.0.1"), "8080");
    assert_eq!(parse_elastic_index(None), "xng_acars_db");
    assert!(names_station(&strings(&["--Station-ID", "XX-YYYY"])));
    assert!(!names_station(&strings(&["--station", "id"])));
    assert_eq!(position_of(&strings(&["a", "B", "b"]), "b"), Some(1));
}
