use spice_parser_core::ast::{Atom, ExplicitNode, Name, Node, Param};
use spice_parser_core::ast::expression::{Expr, Factor1, Factor10, Factor11, Factor2, Factor3, Factor4, Factor5, Factor6, Factor7, Factor8, Factor9, Ident, Literal, Number};
use spice_parser_core::lexer::{SpiceLexer};
use spice_parser_core::parse::{ParseError, ParseResult, SpiceLineParser, TokenStream, TryParse};
use spice_parser_core::value::Suffix as Scale;

fn atom(text: &str) -> Atom {
    Atom::new(text, (0, 0), 0)
}

fn ident(text: &str) -> Ident {
    Ident(Name(atom(text)))
}

fn factor(suffix: Option<Scale>) -> f64 {
    match suffix {
        Some(Scale::Tera) => 1e12,
        Some(Scale::Giga) => 1e9,
        Some(Scale::Mega) => 1e6,
        Some(Scale::Kilo) => 1e3,
        Some(Scale::Mil) => 25.4e-6,
        Some(Scale::Milli) => 1e-3,
        Some(Scale::Micro) => 1e-6,
        Some(Scale::Nano) => 1e-9,
        Some(Scale::Pico) => 1e-12,
        Some(Scale::Femto) => 1e-15,
        Some(Scale::Atto) => 1e-18,
        None => 1.0,
    }
}

/// The literal written as `number` and `suffix`, whose value is `value`.
fn lit(value: f64, negative: bool, number: &str, suffix: Option<Scale>) -> Literal {
    let written: f64 = number.parse().unwrap();
    let scaled = match suffix {
        Some(_) => written * factor(suffix),
        None => written,
    };
    assert_eq!(if negative { -scaled } else { scaled }, value);
    Literal { negative, number: number.to_string(), suffix }
}

#[allow(dead_code)]
fn num(value: f64, negative: bool, number: &str, suffix: Option<Scale>) -> Number {
    Number::Literal(lit(value, negative, number, suffix))
}

fn ok<T: PartialEq + std::fmt::Debug>(
    input: &str,
    parse: impl for<'a, 'b> Fn(&'a mut SpiceLineParser<'b>) -> ParseResult<T>,
    expected: T,
) {
    let tokens = SpiceLexer::tokenize(input);
    let mut parser = SpiceLineParser::new(&tokens[0]);
    let result = parse(&mut parser);
    assert_eq!(result, Ok(expected));
    assert!(parser.is_eof());
}

fn err<T: PartialEq + std::fmt::Debug>(
    input: &str,
    parse: impl for<'a, 'b> Fn(&'a mut SpiceLineParser<'b>) -> ParseResult<T>,
) {
    let tokens = SpiceLexer::tokenize(input);
    let mut parser = SpiceLineParser::new(&tokens[0]);
    let result = parse(&mut parser);
    assert!(result.is_err());
}

#[test]
fn test_parse_node() {
        ok("1", |p| p.try_parse(), Node(atom("1")));
        ok("a", |p| p.try_parse(), Node(atom("a")));
        ok("[1]", |p| p.try_parse(), Node(atom("1")));
        ok("[a]", |p| p.try_parse(), Node(atom("a")));
    }

#[test]
fn test_parse_node_weird() {
        ok("$G", |p| p.try_parse(), Node(atom("$G")));
        err::<Node>("@b", |p| p.try_parse());
    }

#[test]
fn test_parse_explicit_node() {
        ok("1", |p| p.try_parse(), ExplicitNode(Node(atom("1"))));
        err::<ExplicitNode>("a", |p| p.try_parse());
        ok("[1]", |p| p.try_parse(), ExplicitNode(Node(atom("1"))));
        ok("[a]", |p| p.try_parse(), ExplicitNode(Node(atom("a"))));
    }

#[test]
fn test_parse_param_value() {
        ok("alice=1919810E0", |p| p.try_parse(), Param {
                name: Name(atom("alice")),
                value: num(1919810.0, false, "1919810e0", None),
            });
        err::<Param<Number>>("alice=", |p| p.try_parse());
        err::<Param<Number>>("alice 1", |p| p.try_parse());
        err::<Param<Number>>("=1", |p| p.try_parse());
        err::<Param<Number>>("1=1", |p| p.try_parse());
    }

#[test]
fn test_parse_param_number_expression() {
        ok("alice={bob}", |p| p.try_parse(), Param {
                name: Name(atom("alice")),
                value: Number::Expr(Expr(Factor11::Base(Factor10::Base(Factor9::Base(
                    Factor8::Base(Factor7::Base(Factor6::Base(Factor5::Base(Factor4::Base(
                        Factor3::Base(Factor2::Base(Factor1::Ident(ident("bob"))))
                    )))))
                ))))),
            });
    }

#[test]
fn options_lists_tuples_and_counts_are_rules_too() {
    let line = |text: &str| SpiceLexer::tokenize(text).remove(0);
    let tokens = line("a b 3 4x x");
    let mut p = SpiceLineParser::new(&tokens);
    let names: Vec<Name> = p.try_parse().unwrap();
    assert_eq!(names, vec![Name(Atom::from("a")), Name(Atom::from("b"))]);
    let count: usize = p.try_parse().unwrap();
    assert_eq!(count, 3);
    let none: Option<Name> = p.try_parse().unwrap();
    assert_eq!((none, p.position), (None, 3));
    let count: ParseResult<usize> = p.try_parse();
    assert_eq!(
        count,
        Err(ParseError { reason: "Expect `<usize>', found `4x'".to_string(), position: Some((0, 6)) })
    );
    p.consume();
    let some: Option<Name> = p.try_parse().unwrap();
    assert_eq!((some, p.position), (Some(Name(Atom::from("x"))), 5));
    let empty: Vec<Node> = p.try_parse().unwrap();
    assert!(empty.is_empty() && p.is_eof());

    let tokens = line("1 2 3");
    let mut p = SpiceLineParser::new(&tokens);
    let pair: (Node, Node) = p.try_parse().unwrap();
    assert_eq!(pair, (Node(Atom::from("1")), Node(Atom::from("2"))));
    let pair: ParseResult<(Node, Node)> = p.try_parse();
    assert_eq!(pair, Err(ParseError { reason: "Unexpected EOF".to_string(), position: None }));

    let tokens = line("3 4 05 6k 7");
    let mut p = SpiceLineParser::new(&tokens);
    let counts: Vec<usize> = p.try_parse().unwrap();
    assert_eq!((counts, p.position), (vec![3, 4, 5], 3));
    let numbers: Vec<Number> = p.parse_list().unwrap();
    assert_eq!((numbers.len(), p.is_eof()), (2, true));
    let absent: Option<Node> = p.parse_optional().unwrap();
    assert_eq!(absent, None);

    assert_eq!(Atom::from("R1"), Atom::new("R1", (0, 0), 0));
    assert_eq!((Atom::from("R1").column, Atom::from("R1").line), ((0, 0), 0));
    assert_eq!(Atom::new("R1", (4, 6), 7).place(), (7, 4));
    assert_eq!(Ident::from("x"), Ident::from(Atom::from("x")));
    assert_eq!(Ident::from("x").0, Name(Atom::from("x")));
}
