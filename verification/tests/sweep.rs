use spice_parser_core::ast::expression::{Literal, Number};
use spice_parser_core::ast::sweep::{Dec, Lin, List, Oct, Sweep, SweepName};
use spice_parser_core::lexer::{SpiceLexer};
use spice_parser_core::parse::{ParseResult, SpiceLineParser, TryParse};
use spice_parser_core::value::Suffix as Scale;

fn factor(suffix: Option<Scale>) -> f64 {
    match suffix {
        Some(Scale::Tera) => 1e12,
        Some(Scale::Giga) => 1e9,
        Some(Scale::Mega) => 1e6,
        Some(Scale::Kilo) => 1e3,
        Some(Scale::Mil) => 25.4e-6,
        Some(Scale::Milli) => 1e-3,
        Some(Scale::Micro) => 1e-6,
        Some(Scale::Nano) => 1e-9,
        Some(Scale::Pico) => 1e-12,
        Some(Scale::Femto) => 1e-15,
        Some(Scale::Atto) => 1e-18,
        None => 1.0,
    }
}

/// The literal written as `number` and `suffix`, whose value is `value`.
fn lit(value: f64, negative: bool, number: &str, suffix: Option<Scale>) -> Literal {
    let written: f64 = number.parse().unwrap();
    let scaled = match suffix {
        Some(_) => written * factor(suffix),
        None => written,
    };
    assert_eq!(if negative { -scaled } else { scaled }, value);
    Literal { negative, number: number.to_string(), suffix }
}

#[allow(dead_code)]
fn num(value: f64, negative: bool, number: &str, suffix: Option<Scale>) -> Number {
    Number::Literal(lit(value, negative, number, suffix))
}

fn ok<T: PartialEq + std::fmt::Debug>(
    input: &str,
    parse: impl for<'a, 'b> Fn(&'a mut SpiceLineParser<'b>) -> ParseResult<T>,
    expected: T,
) {
    let tokens = SpiceLexer::tokenize(input);
    let mut parser = SpiceLineParser::new(&tokens[0]);
    let result = parse(&mut parser);
    assert_eq!(result, Ok(expected));
    assert!(parser.is_eof());
}

#[test]
fn test_parse_sweep_lin() {
        ok("LIN TEMP 0 100 10", |p| p.try_parse(), Sweep::Lin(Lin {
                swname: SweepName::Temp,
                sstart: num(0.0, false, "0", None),
                send: num(100.0, false, "100", None),
                sinc: num(10.0, false, "10", None),
            }));
    }

#[test]
fn test_parse_sweep_oct() {
        ok("OCT TEMP 0 100 10", |p| p.try_parse(), Sweep::Oct(Oct {
                swname: SweepName::Temp,
                sstart: num(0.0, false, "0", None),
                send: num(100.0, false, "100", None),
                np: num(10.0, false, "10", None),
            }));
    }

#[test]
fn test_parse_sweep_dec() {
        ok("DEC TEMP 0 100 10", |p| p.try_parse(), Sweep::Dec(Dec {
                swname: SweepName::Temp,
                sstart: num(0.0, false, "0", None),
                send: num(100.0, false, "100", None),
                np: num(10.0, false, "10", None),
            }));
    }

#[test]
fn test_parse_sweep_temp_lin() {
        ok("TEMP 0 100 10", |p| p.try_parse(), Sweep::Lin(Lin {
                swname: SweepName::Temp,
                sstart: num(0.0, false, "0", None),
                send: num(100.0, false, "100", None),
                sinc: num(10.0, false, "10", None),
            }));
    }

#[test]
fn test_parse_sweep_temp_list() {
        ok("TEMP LIST 100 10 20 30 40", |p| p.try_parse(), Sweep::List(List {
                swname: SweepName::Temp,
                values: vec![
                    num(100.0, false, "100", None),
                    num(10.0, false, "10", None),
                    num(20.0, false, "20", None),
                    num(30.0, false, "30", None),
                    num(40.0, false, "40", None),
                ],
            }));
    }
