use spice_parser_core::ast::{Atom, Name, Node, OptionParenthesis};
use spice_parser_core::ast::expression::{Expr, Factor1, Factor10, Factor11, Factor2, Factor3, Factor4, Factor5, Factor6, Factor7, Factor8, Factor9, Ident, Literal, Number};
use spice_parser_core::ast::gain::{ChebyshevGain, ChebyshevGainParams, CurrentGain, FreqGain, FreqGainParams, FreqKeyword, LaplaceGain, PolyCurrentGain, PolyVoltageGain, SimpleCurrentGain, SimpleVoltageGain, TableGain, ValueGain, VoltageGain};
use spice_parser_core::parse::{SpiceLineParser, TryParse};
use spice_parser_core::value::Suffix as Scale;

fn atom(text: &str) -> Atom {
    Atom::new(text, (0, 0), 0)
}

fn ident(text: &str) -> Ident {
    Ident(Name(atom(text)))
}

fn factor(suffix: Option<Scale>) -> f64 {
    match suffix {
        Some(Scale::Tera) => 1e12,
        Some(Scale::Giga) => 1e9,
        Some(Scale::Mega) => 1e6,
        Some(Scale::Kilo) => 1e3,
        Some(Scale::Mil) => 25.4e-6,
        Some(Scale::Milli) => 1e-3,
        Some(Scale::Micro) => 1e-6,
        Some(Scale::Nano) => 1e-9,
        Some(Scale::Pico) => 1e-12,
        Some(Scale::Femto) => 1e-15,
        Some(Scale::Atto) => 1e-18,
        None => 1.0,
    }
}

/// The literal written as `number` and `suffix`, whose value is `value`.
fn lit(value: f64, negative: bool, number: &str, suffix: Option<Scale>) -> Literal {
    let written: f64 = number.parse().unwrap();
    let scaled = match suffix {
        Some(_) => written * factor(suffix),
        None => written,
    };
    assert_eq!(if negative { -scaled } else { scaled }, value);
    Literal { negative, number: number.to_string(), suffix }
}

#[allow(dead_code)]
fn num(value: f64, negative: bool, number: &str, suffix: Option<Scale>) -> Number {
    Number::Literal(lit(value, negative, number, suffix))
}

#[test]
fn test_simple_voltage_gain() {
        let tokens = vec![atom("3"), atom("4"), atom("5")];
        let mut parser = SpiceLineParser::new(&tokens);
        assert_eq!(
            parser.try_parse(),
            Ok(VoltageGain::Simple(SimpleVoltageGain {
                node1: Node(atom("3")),
                node2: Node(atom("4")),
                gain: num(5.0, false, "5", None),
            }))
        );
        assert!(parser.is_eof());
    }

#[test]
fn test_simple_current_gain() {
        let tokens = vec![atom("VSENSE"), atom("10.0")];
        let mut parser = SpiceLineParser::new(&tokens);
        assert_eq!(
            parser.try_parse(),
            Ok(CurrentGain::Simple(SimpleCurrentGain {
                vdevice: Name(atom("VSENSE")),
                gain: num(10.0, false, "10.0", None),
            }))
        );
        assert!(parser.is_eof());
    }

#[test]
fn test_poly_voltage_gain() {
        let tokens = vec![
            atom("POLY"),
            atom("("),
            atom("2"),
            atom(")"),
            atom("3"),
            atom("4"),
            atom("5"),
            atom("6"),
            atom("7"),
        ];
        let mut parser = SpiceLineParser::new(&tokens);
        assert_eq!(
            parser.try_parse(),
            Ok(VoltageGain::Poly(PolyVoltageGain {
                n: 2,
                nodes: vec![
                    (Node(atom("3")), Node(atom("4"))),
                    (Node(atom("5")), Node(atom("6"))),
                ],
                coefficients: vec![num(7.0, false, "7", None)],
            }))
        );
        assert!(parser.is_eof());
    }

#[test]
fn test_poly_current_gain() {
        let tokens = vec![
            atom("POLY"),
            atom("("),
            atom("2"),
            atom(")"),
            atom("VSENSE"),
            atom("VJOHN"),
            atom("10.0"),
            atom("20.0"),
            atom("30.0"),
        ];
        let mut parser = SpiceLineParser::new(&tokens);
        assert_eq!(
            parser.try_parse(),
            Ok(CurrentGain::Poly(PolyCurrentGain {
                n: 2,
                vdevices: vec![Name(atom("VSENSE")), Name(atom("VJOHN"))],
                coefficients: vec![num(10.0, false, "10.0", None), num(20.0, false, "20.0", None), num(30.0, false, "30.0", None)],
            }))
        );
        assert!(parser.is_eof());
    }

#[test]
fn test_value_gain() {
        let tokens = vec![
            atom("VALUE"),
            atom("="),
            atom("{"),
            atom("5"),
            atom("}"),
        ];
        let mut parser = SpiceLineParser::new(&tokens);
        assert_eq!(
            parser.try_parse(),
            Ok(VoltageGain::Value(ValueGain {
                value: Expr(Factor11::Base(Factor10::Base(Factor9::Base(
                    Factor8::Base(Factor7::Base(Factor6::Base(Factor5::Base(Factor4::Base(
                        Factor3::Base(Factor2::Base(Factor1::Literal(lit(5.0, false, "5", None))))
                    )))))
                )))),
            }))
        );
        assert!(parser.is_eof());
    }

#[test]
fn test_table_gain() {
        let tokens = vec![
            atom("TABLE"),
            atom("{"),
            atom("5"),
            atom("}"),
            atom("="),
            atom("("),
            atom("1"),
            atom("2"),
            atom(")"),
            atom("3"),
            atom("4"),
        ];
        let mut parser = SpiceLineParser::new(&tokens);
        assert_eq!(
            parser.try_parse(),
            Ok(VoltageGain::Table(TableGain {
                expression: Expr(Factor11::Base(Factor10::Base(Factor9::Base(
                    Factor8::Base(Factor7::Base(Factor6::Base(Factor5::Base(Factor4::Base(
                        Factor3::Base(Factor2::Base(Factor1::Literal(lit(5.0, false, "5", None))))
                    )))))
                )))),
                values: vec![
                    OptionParenthesis((num(1.0, false, "1", None), num(2.0, false, "2", None))),
                    OptionParenthesis((num(3.0, false, "3", None), num(4.0, false, "4", None)))
                ],
            }))
        );
        assert!(parser.is_eof());
    }

#[test]
fn test_laplace_gain() {
        let tokens = "LAPLACE { V ( 10 ) } = { 1 / ( 1 + .001 * s ) }"
            .split_ascii_whitespace()
            .map(|x| atom(x))
            .collect();
        let mut parser = SpiceLineParser::new(&tokens);
        assert_eq!(
            parser.try_parse(),
            Ok(VoltageGain::Laplace(LaplaceGain {
                expression: Expr(Factor11::Base(Factor10::Base(Factor9::Base(
                    Factor8::Base(Factor7::Base(Factor6::Base(Factor5::Base(Factor4::Base(
                        Factor3::Base(Factor2::Base(Factor1::Call {
                            name: ident("V"),
                            args: vec![Expr(Factor11::Base(Factor10::Base(Factor9::Base(
                                Factor8::Base(Factor7::Base(Factor6::Base(Factor5::Base(
                                    Factor4::Base(Factor3::Base(Factor2::Base(Factor1::Literal(
                                        lit(10.0, false, "10", None)
                                    ))))
                                ))))
                            ))))]
                        }))
                    )))))
                )))),
                transform: Expr(Factor11::Base(Factor10::Base(Factor9::Base(
                    Factor8::Base(Factor7::Base(Factor6::Base(Factor5::Base(Factor4::Div(
                        Box::new(Factor4::Base(Factor3::Base(Factor2::Base(
                            Factor1::Literal(lit(1.0, false, "1", None))
                        )))),
                        Box::new(Factor3::Base(Factor2::Base(Factor1::Parenthesis(
                            Box::new(Expr(Factor11::Base(Factor10::Base(Factor9::Base(
                                Factor8::Base(Factor7::Base(Factor6::Base(Factor5::Add(
                                    Box::new(Factor5::Base(Factor4::Base(Factor3::Base(
                                        Factor2::Base(Factor1::Literal(lit(1.0, false, "1", None)))
                                    )))),
                                    Box::new(Factor4::Mul(
                                        Box::new(Factor4::Base(Factor3::Base(Factor2::Base(
                                            Factor1::Literal(lit(0.001, false, ".001", None))
                                        )))),
                                        Box::new(Factor3::Base(Factor2::Base(Factor1::Ident(
                                            ident("s")
                                        ))))
                                    ))
                                ))))
                            )))))
                        ))))
                    )))))
                )))),
            }))
        );
        assert!(parser.is_eof());
    }

#[test]
fn test_freq_gain() {
        let tokens = vec![
            atom("FREQ"),
            atom("{"),
            atom("V"),
            atom("("),
            atom("10"),
            atom(")"),
            atom("}"),
            atom("="),
            atom("MAG"),
            atom("("),
            atom("1"),
            atom("2"),
            atom("3"),
            atom(")"),
            atom("4"),
            atom("5"),
            atom("6"),
            atom("("),
            atom("7"),
            atom("8"),
            atom("9"),
            atom(")"),
            atom("DELAY"),
            atom("="),
            atom("16"),
        ];
        let mut parser = SpiceLineParser::new(&tokens);
        assert_eq!(
            parser.try_parse(),
            Ok(VoltageGain::Freq(FreqGain {
                expression: Expr(Factor11::Base(Factor10::Base(Factor9::Base(
                    Factor8::Base(Factor7::Base(Factor6::Base(Factor5::Base(Factor4::Base(
                        Factor3::Base(Factor2::Base(Factor1::Call {
                            name: ident("V"),
                            args: vec![Expr(Factor11::Base(Factor10::Base(Factor9::Base(
                                Factor8::Base(Factor7::Base(Factor6::Base(Factor5::Base(
                                    Factor4::Base(Factor3::Base(Factor2::Base(Factor1::Literal(
                                        lit(10.0, false, "10", None)
                                    ))))
                                ))))
                            ))))]
                        }))
                    )))))
                )))),
                keyword: Some(FreqKeyword::Mag),
                values: vec![
                    OptionParenthesis((num(1.0, false, "1", None), num(2.0, false, "2", None), num(3.0, false, "3", None))),
                    OptionParenthesis((num(4.0, false, "4", None), num(5.0, false, "5", None), num(6.0, false, "6", None))),
                    OptionParenthesis((num(7.0, false, "7", None), num(8.0, false, "8", None), num(9.0, false, "9", None))),
                ],
                params: FreqGainParams {
                    delay: Some(num(16.0, false, "16", None)),
                }
            }))
        );
        assert!(parser.is_eof());
    }

#[test]
fn test_freq_keyword() {
        let tokens = vec![
            atom("MAG"),
            atom("DB"),
            atom("RAD"),
            atom("DEG"),
            atom("R_I"),
        ];
        let mut parser = SpiceLineParser::new(&tokens);
        assert_eq!(parser.try_parse(), Ok(FreqKeyword::Mag));
        assert_eq!(parser.try_parse(), Ok(FreqKeyword::Db));
        assert_eq!(parser.try_parse(), Ok(FreqKeyword::Rad));
        assert_eq!(parser.try_parse(), Ok(FreqKeyword::Deg));
        assert_eq!(parser.try_parse(), Ok(FreqKeyword::Ri));
        assert!(parser.is_eof());
    }

#[test]
fn test_chebyshev_gain() {
        let tokens = vec![
            atom("CHEBYSHEV"),
            atom("{"),
            atom("5"),
            atom("}"),
            atom("="),
            atom("LP"),
            atom("HP"),
            atom("BP"),
            atom("BR"),
            atom("1"),
            atom("2"),
            atom("3"),
            atom("4"),
            atom("5"),
            atom("6"),
        ];
        let mut parser = SpiceLineParser::new(&tokens);
        assert_eq!(
            parser.try_parse(),
            Ok(VoltageGain::Chebyshev(ChebyshevGain {
                expression: Expr(Factor11::Base(Factor10::Base(Factor9::Base(
                    Factor8::Base(Factor7::Base(Factor6::Base(Factor5::Base(Factor4::Base(
                        Factor3::Base(Factor2::Base(Factor1::Literal(lit(5.0, false, "5", None))))
                    )))))
                )))),
                params: ChebyshevGainParams {
                    lp: true,
                    hp: true,
                    bp: true,
                    br: true,
                },
                cutoffs: vec![num(1.0, false, "1", None), num(2.0, false, "2", None), num(3.0, false, "3", None)],
                attenuations: vec![num(4.0, false, "4", None), num(5.0, false, "5", None), num(6.0, false, "6", None)],
            }))
        );
        assert!(parser.is_eof());
    }
