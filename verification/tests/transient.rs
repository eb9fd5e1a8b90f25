use spice_parser_core::ast::expression::{Literal, Number};
use spice_parser_core::ast::transient::{DcSource, Exp, Pulse, Pwl, Sffm, Sin, Vac};
use spice_parser_core::lexer::{SpiceLexer};
use spice_parser_core::parse::{ParseResult, SpiceLineParser, TryParse};
use spice_parser_core::value::Suffix as Scale;

fn factor(suffix: Option<Scale>) -> f64 {
    match suffix {
        Some(Scale::Tera) => 1e12,
        Some(Scale::Giga) => 1e9,
        Some(Scale::Mega) => 1e6,
        Some(Scale::Kilo) => 1e3,
        Some(Scale::Mil) => 25.4e-6,
        Some(Scale::Milli) => 1e-3,
        Some(Scale::Micro) => 1e-6,
        Some(Scale::Nano) => 1e-9,
        Some(Scale::Pico) => 1e-12,
        Some(Scale::Femto) => 1e-15,
        Some(Scale::Atto) => 1e-18,
        None => 1.0,
    }
}

/// The literal written as `number` and `suffix`, whose value is `value`.
fn lit(value: f64, negative: bool, number: &str, suffix: Option<Scale>) -> Literal {
    let written: f64 = number.parse().unwrap();
    let scaled = match suffix {
        Some(_) => written * factor(suffix),
        None => written,
    };
    assert_eq!(if negative { -scaled } else { scaled }, value);
    Literal { negative, number: number.to_string(), suffix }
}

#[allow(dead_code)]
fn num(value: f64, negative: bool, number: &str, suffix: Option<Scale>) -> Number {
    Number::Literal(lit(value, negative, number, suffix))
}

fn ok<T: PartialEq + std::fmt::Debug>(
    input: &str,
    parse: impl for<'a, 'b> Fn(&'a mut SpiceLineParser<'b>) -> ParseResult<T>,
    expected: T,
) {
    let tokens = SpiceLexer::tokenize(input);
    let mut parser = SpiceLineParser::new(&tokens[0]);
    let result = parse(&mut parser);
    assert_eq!(result, Ok(expected));
    assert!(parser.is_eof());
}

fn err<T: PartialEq + std::fmt::Debug>(
    input: &str,
    parse: impl for<'a, 'b> Fn(&'a mut SpiceLineParser<'b>) -> ParseResult<T>,
) {
    let tokens = SpiceLexer::tokenize(input);
    let mut parser = SpiceLineParser::new(&tokens[0]);
    let result = parse(&mut parser);
    assert!(result.is_err());
}

#[test]
fn test_parse_dc() {
        ok("DC 2", |p| p.try_parse(), DcSource {
                dc: true,
                value: num(2.0, false, "2", None)
            });
        ok("2", |p| p.try_parse(), DcSource {
                dc: false,
                value: num(2.0, false, "2", None)
            });
    }

#[test]
fn test_parse_transient_pluse() {
        ok("PULSE ( 1 2 3 4 5 6 7 )", |p| p.try_parse(), Pulse {
                v1: num(1.0, false, "1", None),
                v2: num(2.0, false, "2", None),
                td: Some(num(3.0, false, "3", None)),
                tr: Some(num(4.0, false, "4", None)),
                tf: Some(num(5.0, false, "5", None)),
                pw: Some(num(6.0, false, "6", None)),
                per: Some(num(7.0, false, "7", None)),
            });
    }

#[test]
fn test_parse_transient_pwl() {
        ok("PWL ( 0 1 2 3 )", |p| p.try_parse(), Pwl {
                points: vec![
                    (num(0.0, false, "0", None), num(1.0, false, "1", None)),
                    (num(2.0, false, "2", None), num(3.0, false, "3", None)),
                ],
            });
        err::<Pwl>("PWL ( 2 )", |p| p.try_parse());
        err::<Pwl>("PWL ( 2 3", |p| p.try_parse());
    }

#[test]
fn test_parse_transient_sin() {
        ok("SIN ( 1 2 3 4 5 6 )", |p| p.try_parse(), Sin {
                v0: num(1.0, false, "1", None),
                vampl: num(2.0, false, "2", None),
                freq: Some(num(3.0, false, "3", None)),
                td: Some(num(4.0, false, "4", None)),
                alpha: Some(num(5.0, false, "5", None)),
                theta: Some(num(6.0, false, "6", None)),
            });
        err::<Sin>("SIN ( 1 )", |p| p.try_parse());
    }

#[test]
fn test_parse_transient_exp() {
        ok("EXP ( 1 2 3 4 5 6 )", |p| p.try_parse(), Exp {
                v1: num(1.0, false, "1", None),
                v2: num(2.0, false, "2", None),
                td1: Some(num(3.0, false, "3", None)),
                tc1: Some(num(4.0, false, "4", None)),
                td2: Some(num(5.0, false, "5", None)),
                tc2: Some(num(6.0, false, "6", None)),
            });
        err::<Exp>("EXP ( 2 )", |p| p.try_parse());
    }

#[test]
fn test_parse_transient_sffm() {
        ok("SFFM ( 1 2 3 4 5 )", |p| p.try_parse(), Sffm {
                v0: num(1.0, false, "1", None),
                va: num(2.0, false, "2", None),
                fc: Some(num(3.0, false, "3", None)),
                md: Some(num(4.0, false, "4", None)),
                fs: Some(num(5.0, false, "5", None)),
            });
        err::<Sffm>("SFFM ( 2 )", |p| p.try_parse());
    }

#[test]
fn test_parse_transient_vac() {
        ok("VAC ( 1 2 3 )", |p| p.try_parse(), Vac {
                dc: num(1.0, false, "1", None),
                ac_mag: num(2.0, false, "2", None),
                ac_phase: num(3.0, false, "3", None),
            });
    }

#[test]
fn test_parse_transient_sin_less() {
        ok("SIN ( 1 2 3 )", |p| p.try_parse(), Sin {
                v0: num(1.0, false, "1", None),
                vampl: num(2.0, false, "2", None),
                freq: Some(num(3.0, false, "3", None)),
                td: None,
                alpha: None,
                theta: None,
            });
    }
