use spice_parser_core::ast::command::{Command, FourCommand, NoiseCommand};
use spice_parser_core::ast::component::Component;
use spice_parser_core::ast::expression::{Number, Text};
use spice_parser_core::ast::variable::OutputVariable;
use spice_parser_core::ast::{AcType, Atom, ExplicitNode, Name, Node};
use spice_parser_core::lexer::SpiceLexer;
use spice_parser_core::parse::{
    ParseError, ParseResult, Snapshot, SpiceLineParser, TokenStream, TryParse,
};
use spice_parser_core::try_parse_program;

fn atom(text: &str) -> Atom {
    Atom::new(text, (0, 0), 0)
}

fn reject<T: std::fmt::Debug>(
    line: &str,
    parse: impl for<'a, 'b> Fn(&'a mut SpiceLineParser<'b>) -> ParseResult<T>,
) -> ParseError {
    let tokens = SpiceLexer::tokenize(line);
    let mut parser = SpiceLineParser::new(&tokens[0]);
    parse(&mut parser).unwrap_err()
}

fn error(reason: &str, position: Option<(usize, usize)>) -> ParseError {
    ParseError { reason: reason.to_string(), position }
}

#[test]
fn constructors_of_errors() {
    assert_eq!(ParseError::unexpected_eof(None), error("Unexpected EOF", None));
    assert_eq!(ParseError::unexpected_eof(Some((1, 2))), error("Unexpected EOF", Some((1, 2))));
    assert_eq!(
        ParseError::unexpected("a", "b", Some((3, 4))),
        error("Expect `a', found `b'", Some((3, 4)))
    );
    assert_eq!(
        ParseError::unknown_suffix("X", "`A' or `B'", None),
        error("Unknown suffix: `X', only accepts `A' or `B'", None)
    );
    assert_eq!(
        ParseError::unexpected_eof(None).fallback_position((5, 9)),
        error("Unexpected EOF", Some((5, 9)))
    );
    assert_eq!(
        ParseError::unexpected_eof(Some((1, 2))).fallback_position((5, 9)),
        error("Unexpected EOF", Some((1, 2)))
    );
}

#[test]
fn errors_as_text() {
    assert_eq!(error("Unexpected EOF", None).to_string(), "Parse error: Unexpected EOF");
    assert_eq!(
        error("Unmatched .ENDS", Some((12, 0))).to_string(),
        "Parse error at line 12, column 0: Unmatched .ENDS"
    );
    assert_eq!(
        error("x", Some((1234567890, 907))).to_string(),
        "Parse error at line 1234567890, column 907: x"
    );
}

#[test]
fn the_end_of_input_is_told_by_the_rejection_itself() {
    assert!(ParseError::unexpected_eof(None).is_end_of_input());
    assert!(error("Unexpected EOF", None).is_end_of_input());
    // A rejection of a token that is there is none, whatever it quotes.
    assert!(!error("Unexpected EOF", Some((0, 3))).is_end_of_input());
    assert!(!error("Expect `<EOF>', found `1'", Some((0, 3))).is_end_of_input());
    assert!(!error("Expect `@EOF' to be a node", Some((0, 3))).is_end_of_input());
    assert!(!error("Expect `<EOF>', found `1'", None).is_end_of_input());
    assert!(!error("EOF", None).is_end_of_input());
    assert!(!error("", None).is_end_of_input());
    let e = reject::<Node>("@EOF", |p| p.try_parse());
    assert_eq!(e, error("Expect `@EOF' to be a node", Some((0, 0))));
    assert!(!e.is_end_of_input());
}

#[test]
fn rejections_of_names_and_nodes() {
    assert_eq!(
        reject::<Node>("@b", |p| p.try_parse()),
        error("Expect `@b' to be a node", Some((0, 0)))
    );
    assert_eq!(
        reject::<Node>("[ @ ]", |p| p.try_parse()),
        error("Expect `@' to be a node", Some((0, 2)))
    );
    assert_eq!(reject::<Node>("[", |p| p.try_parse()), error("Unexpected EOF", None));
    assert_eq!(reject::<Node>("[1", |p| p.try_parse()), error("Unexpected EOF", None));
    assert_eq!(
        reject::<Node>("[1 2", |p| p.try_parse()),
        error("Expect `]', found `2'", Some((0, 3)))
    );
    assert_eq!(
        reject::<ExplicitNode>("a", |p| p.try_parse()),
        error(
            "Expect `a' to be an explicit node (only contains digits, or contained in `[]')",
            Some((0, 0))
        )
    );
    assert_eq!(
        reject::<Name>("1a", |p| p.try_parse()),
        error("Expect `1a' to be a name", Some((0, 0)))
    );
    assert_eq!(
        reject::<Name>("a$", |p| p.try_parse()),
        error("Expect `a$' to be a name", Some((0, 0)))
    );
}

#[test]
fn rejections_of_values() {
    assert_eq!(
        reject::<Number>("n95", |p| p.try_parse()),
        error("Expect `<string>', found `n95'", Some((0, 0)))
    );
    assert_eq!(reject::<Number>("-", |p| p.try_parse()), error("Unexpected EOF", None));
    assert_eq!(reject::<Number>("{alice", |p| p.try_parse()), error("Unexpected EOF", None));
    assert_eq!(
        reject::<Number>("{1+}", |p| p.try_parse()),
        error("Expect `<string>', found `}'", Some((0, 3)))
    );
    assert_eq!(
        reject::<Text>("SETUP", |p| p.try_parse()),
        error("Expect a string, found `SETUP'", Some((0, 0)))
    );
    assert_eq!(
        reject::<AcType>("HEX", |p| p.try_parse()),
        error("Unknown varient: 'HEX', valid options are [\"LIN\", \"OCT\", \"DEC\"]", Some((0, 0)))
    );
    {
        let tokens = SpiceLexer::tokenize(".NOISE V(4) VIN x");
        let mut parser = SpiceLineParser::new(&tokens[0]);
        let noise: ParseResult<NoiseCommand> = parser.try_parse();
        assert!(noise.is_ok());
        assert_eq!(parser.expect_eof(), Err(error("Expect `<EOF>', found `x'", Some((0, 16)))));
    }
    // A count is a `usize` in decimal.
    let four: FourCommand = {
        let tokens = SpiceLexer::tokenize(".FOUR 60Hz 20 V(17)");
        SpiceLineParser::new(&tokens[0]).try_parse().unwrap()
    };
    assert_eq!(four.np, Some(20));
    let four: FourCommand = {
        let tokens = SpiceLexer::tokenize(".FOUR 60Hz +007 V(17)");
        SpiceLineParser::new(&tokens[0]).try_parse().unwrap()
    };
    assert_eq!(four.np, None);
    let noise: NoiseCommand = {
        let tokens = SpiceLexer::tokenize(".NOISE V(10) V1 99999999999999999999999999");
        let mut parser = SpiceLineParser::new(&tokens[0]);
        let noise = parser.try_parse().unwrap();
        assert!(!parser.is_eof());
        noise
    };
    assert_eq!(noise.m, None);
}

#[test]
fn rejections_of_output_variables() {
    let accepts = "<None>, `DB', `G', `I', `M', `P' or `R'";
    assert_eq!(
        reject::<OutputVariable>("VX(1)", |p| p.try_parse()),
        error(&format!("Unknown suffix: `X', only accepts {}", accepts), Some((0, 0)))
    );
    assert_eq!(
        reject::<OutputVariable>("V(Q1)", |p| p.try_parse()),
        error("Voltage of Element must provide at least one terminal", Some((0, 0)))
    );
    assert_eq!(
        reject::<OutputVariable>("VBEX(Q1)", |p| p.try_parse()),
        error(&format!("Unknown suffix: `X', only accepts {}", accepts), Some((0, 0)))
    );
    assert_eq!(
        reject::<OutputVariable>("VC(T1)", |p| p.try_parse()),
        error("Voltage of Transmission Line must provide A or B end", Some((0, 0)))
    );
    assert_eq!(
        reject::<OutputVariable>("I(Q1)", |p| p.try_parse()),
        error("Current of Element must provide at least one terminal", Some((0, 0)))
    );
    assert_eq!(
        reject::<OutputVariable>("I(T1)", |p| p.try_parse()),
        error("Current of Transmission Line must provide A or B end", Some((0, 0)))
    );
    assert_eq!(
        reject::<OutputVariable>("V(X1)", |p| p.try_parse()),
        error("Unsupported element type: `X'", Some((0, 0)))
    );
    assert_eq!(
        reject::<OutputVariable>("i(k1)", |p| p.try_parse()),
        error("Unsupported element type: `K'", Some((0, 0)))
    );
    assert_eq!(
        reject::<OutputVariable>("DB(V)", |p| p.try_parse()),
        error("Expect `INOISE' or `ONOISE', found `V'", Some((0, 3)))
    );
    assert_eq!(
        reject::<OutputVariable>("Q(1)", |p| p.try_parse()),
        error("Expect `Q' to be an output variable", Some((0, 0)))
    );
    assert_eq!(
        reject::<OutputVariable>("WQ(R1)", |p| p.try_parse()),
        error(&format!("Unknown suffix: `Q', only accepts {}", accepts), Some((0, 0)))
    );
}

#[test]
fn rejections_of_lines() {
    assert_eq!(
        reject::<Command>(".FOO 1", |p| p.try_parse()),
        error("Unknown command `.FOO'", Some((0, 0)))
    );
    assert_eq!(
        reject::<Command>("FOO 1", |p| p.try_parse()),
        error("Expect `FOO' to be a Command name", Some((0, 0)))
    );
    assert_eq!(
        reject::<Command>(".func E(x) {exp(x)}", |p| p.try_parse()),
        error("Unsupported command `.func'", Some((0, 0)))
    );
    assert_eq!(
        reject::<Command>(".MC 10 TRAN V(5) YMAX", |p| p.try_parse()),
        error("Unsupported command `.MC'", Some((0, 0)))
    );
    assert_eq!(
        reject::<Component>("A1 1 2", |p| p.try_parse()),
        error("Expect `A1' to be a Component name", Some((0, 0)))
    );
    assert_eq!(
        reject::<Component>("(", |p| p.try_parse()),
        error("Expect `(' to be a Component name", Some((0, 0)))
    );
    assert_eq!(
        reject::<Component>("transient", |p| p.try_parse()),
        error("Unexpected EOF", None)
    );
}

#[test]
fn a_rejection_is_placed_by_line_and_column() {
    // The line ends where a node is needed: the rejection itself has no
    // place, and gets that at which the line begins.
    let e = try_parse_program("title\n  R1 1\n").unwrap_err();
    assert_eq!(e, error("Unexpected EOF", Some((1, 2))));
    // A rejection with a place of its own keeps it.
    let e = try_parse_program("title\nR1 1 @ 2\n").unwrap_err();
    assert_eq!(e, error("Expect `@' to be a node", Some((1, 5))));
    // What is left of a line is rejected where it begins.
    let e = try_parse_program("R1 1 2 10 20\n").unwrap_err();
    assert_eq!(e, error("Expect `<EOF>', found `20'", Some((0, 10))));
    // An unknown command on the second line.
    let e = try_parse_program("R1 1 2 1k\n.bug").unwrap_err();
    assert_eq!(e, error("Unknown command `.bug'", Some((1, 0))));
    assert_eq!(e.to_string(), "Parse error at line 1, column 0: Unknown command `.bug'");
    // An atom of a continuation line keeps its own line.
    let e = try_parse_program("title\nR1 1\n\n+ 2 @\n").unwrap_err();
    assert_eq!(e.position, Some((3, 4)));
    // Lines are rejected before subcircuits are.
    let e = try_parse_program(".ENDS\nR1 1\n").unwrap_err();
    assert_eq!(e.reason, "Unexpected EOF");
}

#[test]
fn the_title_is_a_single_atom_without_a_dot() {
    let program = try_parse_program("RCL\nR1 1 2 3\n").unwrap();
    assert_eq!(program.name, Some(Name(atom("RCL"))));
    assert_eq!(program.instructions.len(), 1);
    let program = try_parse_program(".OP\nR1 1 2 3\n").unwrap();
    assert_eq!(program.name, None);
    assert_eq!(program.instructions.len(), 2);
    let program = try_parse_program("R1 1 2 3\n").unwrap();
    assert_eq!(program.name, None);
    let program = try_parse_program("").unwrap();
    assert_eq!(program.name, None);
    assert!(program.instructions.is_empty());
    // The title need not be a name.
    let program = try_parse_program("12V\n").unwrap();
    assert_eq!(program.name, Some(Name(atom("12V"))));
}

#[test]
fn the_cursor() {
    let tokens = vec![atom("a"), atom("B"), atom("c")];
    let mut p = SpiceLineParser::new(&tokens);
    assert_eq!(TokenStream::len(&p), 3);
    assert_eq!(p.position(), 0);
    assert_eq!(p.token(), Ok(atom("a")));
    assert_eq!(p.next_token(), Ok(atom("B")));
    assert!(p.matches("A") && !p.matches("b"));
    assert!(p.next_matches("b") && !p.next_eof() && !p.is_eof());
    assert_eq!(p.get(2), Some(&atom("c")));
    assert_eq!(p.get(3), None);
    assert!(!p.matches_consume("b"));
    assert_eq!(p.position(), 0);
    assert!(p.matches_consume("a"));
    assert_eq!(p.position(), 1);
    let saved = p.snapshot();
    assert_eq!(p.expect("b"), Ok(atom("B")));
    assert_eq!(p.expect("x"), Err(error("Expect `x', found `c'", Some((0, 0)))));
    assert_eq!(p.position(), 2);
    assert!(p.next_eof() && !p.is_eof());
    assert_eq!(p.next_token(), Err(error("Unexpected EOF", None)));
    assert_eq!(p.expect_eof(), Err(error("Expect `<EOF>', found `c'", Some((0, 0)))));
    p.consume();
    assert!(p.is_eof());
    assert_eq!(p.expect_eof(), Ok(()));
    assert_eq!(p.token(), Err(error("Unexpected EOF", None)));
    assert_eq!(p.expect("c"), Err(error("Unexpected EOF", None)));
    assert!(!p.matches("c") && !p.matches_consume("c"));
    p.restore(saved);
    assert_eq!(p.position(), 1);
    assert_eq!(p.token(), Ok(atom("B")));
}

#[test]
fn atoms() {
    let a = Atom::new("\"x y\"", (3, 8), 2);
    assert_eq!(a.to_string(), "\"x y\"");
    assert!(a.is_string());
    assert_eq!(Text(a).to_string(), "x y");
    assert!(!atom("\"x").is_string());
    assert!(!atom("").is_string());
    assert!(atom("\"").is_string());
    assert_eq!(Text(atom("\"")).to_string(), "");
    assert_eq!(Text(atom("\"\"")).to_string(), "");
    assert_eq!(atom("aBc.d1é").to_uppercase(), "ABC.D1é");
    // Atoms are equal where their texts are.
    assert_eq!(Atom::new("R1", (0, 2), 0), Atom::new("R1", (7, 9), 3));
    assert_ne!(atom("R1"), atom("r1"));
}
