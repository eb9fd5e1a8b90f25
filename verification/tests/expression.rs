use spice_parser_core::ast::{Atom, Name};
use spice_parser_core::ast::expression::{Expr, Factor1, Factor10, Factor11, Factor2, Factor3, Factor4, Factor5, Factor6, Factor7, Factor8, Factor9, Ident, Literal, Number};
use spice_parser_core::lexer::{SpiceLexer};
use spice_parser_core::parse::{ParseResult, SpiceLineParser, TryParse};
use spice_parser_core::value::Suffix as Scale;

fn atom(text: &str) -> Atom {
    Atom::new(text, (0, 0), 0)
}

fn ident(text: &str) -> Ident {
    Ident(Name(atom(text)))
}

fn factor(suffix: Option<Scale>) -> f64 {
    match suffix {
        Some(Scale::Tera) => 1e12,
        Some(Scale::Giga) => 1e9,
        Some(Scale::Mega) => 1e6,
        Some(Scale::Kilo) => 1e3,
        Some(Scale::Mil) => 25.4e-6,
        Some(Scale::Milli) => 1e-3,
        Some(Scale::Micro) => 1e-6,
        Some(Scale::Nano) => 1e-9,
        Some(Scale::Pico) => 1e-12,
        Some(Scale::Femto) => 1e-15,
        Some(Scale::Atto) => 1e-18,
        None => 1.0,
    }
}

/// The literal written as `number` and `suffix`, whose value is `value`.
fn lit(value: f64, negative: bool, number: &str, suffix: Option<Scale>) -> Literal {
    let written: f64 = number.parse().unwrap();
    let scaled = match suffix {
        Some(_) => written * factor(suffix),
        None => written,
    };
    assert_eq!(if negative { -scaled } else { scaled }, value);
    Literal { negative, number: number.to_string(), suffix }
}

#[allow(dead_code)]
fn num(value: f64, negative: bool, number: &str, suffix: Option<Scale>) -> Number {
    Number::Literal(lit(value, negative, number, suffix))
}

fn ok<T: PartialEq + std::fmt::Debug>(
    input: &str,
    parse: impl for<'a, 'b> Fn(&'a mut SpiceLineParser<'b>) -> ParseResult<T>,
    expected: T,
) {
    let tokens = SpiceLexer::tokenize(input);
    let mut parser = SpiceLineParser::new(&tokens[0]);
    let result = parse(&mut parser);
    assert_eq!(result, Ok(expected));
    assert!(parser.is_eof());
}

fn err<T: PartialEq + std::fmt::Debug>(
    input: &str,
    parse: impl for<'a, 'b> Fn(&'a mut SpiceLineParser<'b>) -> ParseResult<T>,
) {
    let tokens = SpiceLexer::tokenize(input);
    let mut parser = SpiceLineParser::new(&tokens[0]);
    let result = parse(&mut parser);
    assert!(result.is_err());
}

#[test]
fn test_parse_number() {
        ok("114514", |p| p.try_parse(), num(114514.0, false, "114514", None));
        ok("12e40", |p| p.try_parse(), num(12e40, false, "12e40", None));
        ok("{alice}", |p| p.try_parse(), Number::Expr(Expr(Factor11::Base(Factor10::Base(Factor9::Base(
                Factor8::Base(Factor7::Base(Factor6::Base(Factor5::Base(Factor4::Base(
                    Factor3::Base(Factor2::Base(Factor1::Ident(ident("alice"))))
                )))))
            ))))));
        ok("{bob}", |p| p.try_parse(), Number::Expr(Expr(Factor11::Base(Factor10::Base(Factor9::Base(
                Factor8::Base(Factor7::Base(Factor6::Base(Factor5::Base(Factor4::Base(
                    Factor3::Base(Factor2::Base(Factor1::Ident(ident("bob"))))
                )))))
            ))))));
        err::<Number>("{alice", |p| p.try_parse());
        err::<Number>("n95", |p| p.try_parse());
    }

#[test]
fn test_expression() {
        ok("2*3-4/5", |p| p.try_parse(), Expr(Factor11::Base(Factor10::Base(Factor9::Base(
                Factor8::Base(Factor7::Base(Factor6::Base(Factor5::Sub(
                    Box::new(Factor5::Base(Factor4::Mul(
                        Box::new(Factor4::Base(Factor3::Base(Factor2::Base(
                            Factor1::Literal(lit(2.0, false, "2", None))
                        )))),
                        Box::new(Factor3::Base(Factor2::Base(Factor1::Literal(
                            lit(3.0, false, "3", None)
                        ))))
                    ))),
                    Box::new(Factor4::Div(
                        Box::new(Factor4::Base(Factor3::Base(Factor2::Base(
                            Factor1::Literal(lit(4.0, false, "4", None))
                        )))),
                        Box::new(Factor3::Base(Factor2::Base(Factor1::Literal(
                            lit(5.0, false, "5", None)
                        ))))
                    ))
                ))))
            )))));
    }
