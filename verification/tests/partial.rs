use spice_parser_core::ast::command::{AcCommandPartial, FourCommandPartial};
use spice_parser_core::ast::component::{
    BComponentPartial, CComponentPartial, ComponentPartial, KComponentPartial, MComponentPartial,
    RComponentPartial, VComponentPartial,
};
use spice_parser_core::ast::expression::{Literal, Number};
use spice_parser_core::ast::{AcType, Atom, Name, Node};
use spice_parser_core::lexer::SpiceLexer;
use spice_parser_core::parse::{ParseError, ParseResult, PartialParse, SpiceLineParser};

fn atom(text: &str) -> Atom {
    Atom::new(text, (0, 0), 0)
}

fn plain(number: &str) -> Number {
    Number::Literal(Literal { negative: false, number: number.to_string(), suffix: None })
}

fn partial<T>(
    line: &str,
    parse: impl for<'a, 'b> Fn(&'a mut SpiceLineParser<'b>) -> ParseResult<T>,
) -> ParseResult<T> {
    let tokens = SpiceLexer::tokenize(line);
    let mut parser = SpiceLineParser::new(&tokens[0]);
    parse(&mut parser)
}

#[test]
fn test_partial_parse_resistor() {
    let tokens = vec![atom("R1"), atom("N1"), atom("N2")];

    let mut parser = SpiceLineParser::new(&tokens);

    let result = PartialParse::<ComponentPartial>::info(&mut parser);
    assert!(result.is_ok());
    println!("result {:?}", result);
}

#[test]
fn partial_resistor_stops_at_the_missing_value() {
    let r: RComponentPartial = partial("R1 1 2", |p| p.try_partial()).unwrap();
    assert_eq!(r.name, Some(Name(atom("R1"))));
    assert_eq!(r.node1, Some(Node(atom("1"))));
    assert_eq!(r.node2, Some(Node(atom("2"))));
    // The model is optional: it was tried, and is absent.
    assert_eq!(r.model, Some(None));
    assert_eq!(r.value, None);
    assert!(r.params.is_none());
    assert_eq!(r.position, 5);
}

#[test]
fn partial_resistor_of_a_whole_line() {
    let r: RComponentPartial = partial("R1 1 2 RMOD 10k", |p| p.try_partial()).unwrap();
    assert_eq!(r.model, Some(Some(Name(atom("RMOD")))));
    assert!(r.value.is_some());
    assert!(r.params.is_some());
    assert_eq!(r.position, 6);
}

#[test]
fn partial_counts_the_fields_tried() {
    let b: BComponentPartial = partial("B2", |p| p.try_partial()).unwrap();
    assert_eq!(b.position, 2);
    assert!(b.name.is_some() && b.drain.is_none() && b.gate.is_none());
    let b: BComponentPartial = partial("B2 1", |p| p.try_partial()).unwrap();
    assert_eq!(b.position, 3);
    let b: BComponentPartial = partial("B2 1 2 3", |p| p.try_partial()).unwrap();
    assert_eq!(b.position, 5);
    assert!(b.source.is_some() && b.model.is_none() && b.area.is_none());
    let b: BComponentPartial = partial("B2 1 2 3 GFAST", |p| p.try_partial()).unwrap();
    assert_eq!(b.position, 6);
    assert_eq!(b.area, Some(None));
    let b: BComponentPartial = partial("B2 1 2 3 GFAST 2.0", |p| p.try_partial()).unwrap();
    assert_eq!(b.area, Some(Some(plain("2.0"))));
}

fn some_then_none(present: &[bool]) -> bool {
    let first_absent = present.iter().position(|p| !p).unwrap_or(present.len());
    present[first_absent..].iter().all(|p| !p)
}

#[test]
fn partial_fields_are_present_in_order_for_every_prefix() {
    let line = ["M1", "14", "2", "13", "0", "PNOM", "L", "=", "25u", "W", "=", "12u"];
    for n in 1..=line.len() {
        let tokens: Vec<Atom> = line[..n].iter().map(|t| atom(t)).collect();
        let mut parser = SpiceLineParser::new(&tokens);
        let r: ParseResult<MComponentPartial> = parser.try_partial();
        if let Ok(m) = r {
            assert!(some_then_none(&[
                m.name.is_some(),
                m.drain.is_some(),
                m.gate.is_some(),
                m.source.is_some(),
                m.bulk.is_some(),
                m.model.is_some(),
                m.params.is_some(),
            ]));
        }
    }
    let line = ["V1", "1", "0", "DC", "5", "AC", "1", "SIN", "(", "0", "1", "1k", ")"];
    for n in 1..=line.len() {
        let tokens: Vec<Atom> = line[..n].iter().map(|t| atom(t)).collect();
        let mut parser = SpiceLineParser::new(&tokens);
        let r: ParseResult<VComponentPartial> = parser.try_partial();
        if let Ok(v) = r {
            assert!(some_then_none(&[
                v.name.is_some(),
                v.node1.is_some(),
                v.node2.is_some(),
                v.dc.is_some(),
                v.ac.is_some(),
                v.transient.is_some(),
            ]));
        }
    }
}

#[test]
fn partial_rejects_what_is_wrong_before_the_end() {
    // `@` is no node, and the line does not end there.
    let r: ParseResult<RComponentPartial> = partial("R1 @ 2", |p| p.try_partial());
    assert!(r.is_err());
    let r: ParseResult<CComponentPartial> = partial("C1 1 2 @", |p| p.try_partial());
    assert!(r.is_err());
}

#[test]
fn partial_rejects_a_token_that_holds_eof() {
    // `@EOF` is a token that is there, and no node: the line is not cut
    // short, whatever the rejection quotes.
    let r: ParseResult<RComponentPartial> = partial("R1 @EOF 2", |p| p.try_partial());
    assert_eq!(
        r.unwrap_err(),
        ParseError { reason: "Expect `@EOF' to be a node".to_string(), position: Some((0, 3)) }
    );
    let r: ParseResult<RComponentPartial> = partial("R1 @EOF", |p| p.try_partial());
    assert!(r.is_err());
    let r: ParseResult<RComponentPartial> = partial("R1 1 EOF", |p| p.try_partial());
    assert_eq!(r.unwrap().node2, Some(Node(atom("EOF"))));
    // Only the end of the line leaves a field out.
    let r: RComponentPartial = partial("R1", |p| p.try_partial()).unwrap();
    assert_eq!((r.name, r.node1, r.position), (Some(Name(atom("R1"))), None, 2));
}

#[test]
fn partial_component_goes_by_the_first_letter() {
    let c: ComponentPartial = partial("c1 1", |p| p.try_partial()).unwrap();
    match c {
        ComponentPartial::C(c) => {
            assert_eq!(c.node1, Some(Node(atom("1"))));
            assert_eq!(c.node2, None);
        },
        other => panic!("not a capacitor: {:?}", other),
    }
    let k: ComponentPartial = partial("K1 L1 L2", |p| p.try_partial()).unwrap();
    assert!(matches!(k, ComponentPartial::K(KComponentPartial { k: None, .. })));
    // A call of a subcircuit has no partial form.
    let x: ParseResult<ComponentPartial> = partial("X1 1 2 OPAMP", |p| p.try_partial());
    assert!(x.is_err());
    let x: ParseResult<ComponentPartial> = partial("1R 1 2", |p| p.try_partial());
    assert!(x.is_err());
}

#[test]
fn partial_ac_command() {
    let ac: AcCommandPartial = partial(".AC LIN 101", |p| p.try_partial()).unwrap();
    assert_eq!(ac.ty, Some(AcType::Lin));
    assert_eq!(ac.np, Some(plain("101")));
    assert_eq!(ac.fstart, None);
    assert_eq!(ac.fend, None);
    assert_eq!(ac.position, 3);
    // The keyword itself is required.
    let ac: ParseResult<AcCommandPartial> = partial(".DC LIN", |p| p.try_partial());
    assert!(ac.is_err());
}

#[test]
fn partial_four_command() {
    let four: FourCommandPartial = partial(".FOUR 10kHz", |p| p.try_partial()).unwrap();
    assert!(four.freq.is_some());
    assert_eq!(four.np, Some(None));
    assert_eq!(four.variables, Some(vec![]));
    assert_eq!(four.position, 3);
    let four: FourCommandPartial = partial(".FOUR", |p| p.try_partial()).unwrap();
    assert_eq!(four.freq, None);
    assert_eq!(four.np, None);
    assert_eq!(four.variables, None);
    assert_eq!(four.position, 1);
}

#[test]
fn info_lists_no_element() {
    let tokens = vec![atom("R1"), atom("1"), atom("2")];
    let mut parser = SpiceLineParser::new(&tokens);
    let (partial, elements): (RComponentPartial, _) = parser.info().unwrap();
    assert!(elements.is_empty());
    assert_eq!(partial.node2, Some(Node(atom("2"))));
    assert_eq!(partial.value, None);
}

#[test]
fn a_field_is_left_out_only_where_the_tokens_run_out() {
    let tokens = vec![Atom::from("R1"), Atom::from("@EOF")];
    let mut p = SpiceLineParser::new(&tokens);
    let r: ParseResult<RComponentPartial> = p.try_partial();
    assert_eq!(
        r.unwrap_err(),
        ParseError { reason: "Expect `@EOF' to be a node".to_string(), position: Some((0, 0)) }
    );
    let tokens = vec![Atom::from("R1"), Atom::from("EOF")];
    let mut p = SpiceLineParser::new(&tokens);
    let r: RComponentPartial = p.try_partial().unwrap();
    assert_eq!((r.node1, r.node2, r.position), (Some(Node(Atom::from("EOF"))), None, 3));
    let tokens = vec![Atom::from("R1"), Atom::from("1"), Atom::from("2"), Atom::from("{")];
    let mut p = SpiceLineParser::new(&tokens);
    let r: RComponentPartial = p.try_partial().unwrap();
    // An expression that the end of the line cuts short is the end of input.
    assert_eq!((r.node2, r.model, r.value), (Some(Node(Atom::from("2"))), Some(None), None));
}
