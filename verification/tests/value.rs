use spice_parser_core::value::{parse_suffix, split_literal, Suffix, SuffixNumberParser};

fn factor(suffix: Option<Suffix>) -> f64 {
    match suffix {
        Some(Suffix::Tera) => 1e12,
        Some(Suffix::Giga) => 1e9,
        Some(Suffix::Mega) => 1e6,
        Some(Suffix::Kilo) => 1e3,
        Some(Suffix::Mil) => 25.4e-6,
        Some(Suffix::Milli) => 1e-3,
        Some(Suffix::Micro) => 1e-6,
        Some(Suffix::Nano) => 1e-9,
        Some(Suffix::Pico) => 1e-12,
        Some(Suffix::Femto) => 1e-15,
        Some(Suffix::Atto) => 1e-18,
        None => 1.0,
    }
}

/// The value of a literal: its number, times the factor of its suffix.
fn to_number(text: &str) -> Option<f64> {
    let (number, suffix) = SuffixNumberParser.to_number(text)?;
    let written: f64 = number.parse().unwrap();
    Some(match suffix {
        Some(_) => written * factor(suffix),
        None => written,
    })
}

/// The value of a literal that has a suffix.
fn suffix_number(text: &str) -> Option<f64> {
    match SuffixNumberParser.to_number(text)? {
        (number, Some(suffix)) => Some(number.parse::<f64>().unwrap() * factor(Some(suffix))),
        (_, None) => None,
    }
}

#[test]
fn test_suffix_number() {
    let value = suffix_number("32k").unwrap();
    assert!(value == 32000.);

    assert!(suffix_number("32e3m").unwrap() == 32.);

    assert!(suffix_number("1meg").unwrap() == 1e6);
    assert!(suffix_number("1m").unwrap() == 1e-3);
}

#[test]
fn test_number_double() {
    assert!(to_number("1").unwrap() == 1.);
    assert!(to_number(".1").unwrap() == 0.1);
}

#[test]
fn test_number_case_insensitive() {
    assert!(to_number("1.5MEgohM").unwrap() == 1.5e6);
    assert!(to_number("1.5M").unwrap() == 1.5e-3);
}

#[test]
fn test_number_with_garbage() {
    assert!(to_number("1.5mohm").unwrap() == 1.5e-3);
    assert!(to_number("1.5megohm").unwrap() == 1.5e6);
    assert!(to_number("1.5ohm").unwrap() == 1.5);
}

#[test]
fn suffix_precedence() {
    assert_eq!(to_number("1meg"), Some(1e6));
    assert_eq!(to_number("1m"), Some(1e-3));
    assert_eq!(to_number("1mil"), Some(25.4e-6));
    assert_eq!(parse_suffix("meg"), Some(Suffix::Mega));
    assert_eq!(parse_suffix("mil"), Some(Suffix::Mil));
    assert_eq!(parse_suffix("m"), Some(Suffix::Milli));
    assert_eq!(parse_suffix("me"), Some(Suffix::Milli));
    assert_eq!(parse_suffix("mi"), Some(Suffix::Milli));
}

#[test]
fn every_suffix_has_its_factor() {
    assert_eq!(to_number("2t"), Some(2e12));
    assert_eq!(to_number("2g"), Some(2e9));
    assert_eq!(to_number("2meg"), Some(2e6));
    assert_eq!(to_number("2k"), Some(2e3));
    assert_eq!(to_number("2mil"), Some(2.0 * 25.4e-6));
    assert_eq!(to_number("2m"), Some(2e-3));
    assert_eq!(to_number("2u"), Some(2.0 * 1e-6));
    assert_eq!(to_number("2n"), Some(2.0 * 1e-9));
    assert_eq!(to_number("2p"), Some(2.0 * 1e-12));
    assert_eq!(to_number("2f"), Some(2.0 * 1e-15));
    assert_eq!(to_number("2a"), Some(2.0 * 1e-18));
}

#[test]
fn parse_suffix_reads_the_start_only() {
    assert_eq!(parse_suffix("t"), Some(Suffix::Tera));
    assert_eq!(parse_suffix("g"), Some(Suffix::Giga));
    assert_eq!(parse_suffix("k"), Some(Suffix::Kilo));
    assert_eq!(parse_suffix("u"), Some(Suffix::Micro));
    assert_eq!(parse_suffix("n"), Some(Suffix::Nano));
    assert_eq!(parse_suffix("p"), Some(Suffix::Pico));
    assert_eq!(parse_suffix("f"), Some(Suffix::Femto));
    assert_eq!(parse_suffix("a"), Some(Suffix::Atto));
    assert_eq!(parse_suffix("kohm"), Some(Suffix::Kilo));
    assert_eq!(parse_suffix("ohm"), None);
    assert_eq!(parse_suffix(""), None);
    assert_eq!(parse_suffix("hz"), None);
    // Suffixes are looked for in lower case.
    assert_eq!(parse_suffix("K"), None);
}

#[test]
fn to_number_splits_number_and_suffix() {
    let parser = SuffixNumberParser;
    assert_eq!(parser.to_number("10K"), Some(("10".to_string(), Some(Suffix::Kilo))));
    assert_eq!(parser.to_number("1.3E-4"), Some(("1.3e-4".to_string(), None)));
    assert_eq!(parser.to_number("100Hz"), Some(("100".to_string(), None)));
    assert_eq!(parser.to_number("-5V"), Some(("-5".to_string(), None)));
    assert_eq!(parser.to_number("+.5u"), Some(("+.5".to_string(), Some(Suffix::Micro))));
    assert_eq!(parser.to_number("5."), Some(("5.".to_string(), None)));
}

#[test]
fn to_number_rejects_what_begins_with_no_number() {
    let parser = SuffixNumberParser;
    assert_eq!(parser.to_number("n95"), None);
    assert_eq!(parser.to_number(""), None);
    assert_eq!(parser.to_number("k"), None);
    assert_eq!(parser.to_number("."), None);
    assert_eq!(parser.to_number("-"), None);
    assert_eq!(parser.to_number("abc"), None);
    // An exponent needs its digits.
    assert_eq!(parser.to_number("1e"), None);
    assert_eq!(parser.to_number("1e+"), None);
}

#[test]
fn to_number_knows_the_special_floats() {
    let parser = SuffixNumberParser;
    assert_eq!(parser.to_number("inf"), Some(("inf".to_string(), None)));
    assert_eq!(parser.to_number("NaN"), Some(("nan".to_string(), None)));
    assert_eq!(parser.to_number("nano"), Some(("nan".to_string(), None)));
    assert!(to_number("nan").unwrap().is_nan());
    assert_eq!(to_number("inf"), Some(f64::INFINITY));
}

#[test]
fn split_literal_cuts_at_the_rest() {
    assert_eq!(split_literal("1.5megohm", "megohm"), ("1.5".to_string(), Some(Suffix::Mega)));
    assert_eq!(split_literal("42", ""), ("42".to_string(), None));
    assert_eq!(split_literal("3v", "v"), ("3".to_string(), None));
}
