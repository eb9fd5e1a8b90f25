use spice_parser_core::ast::command::{
    AcCommand, Command, EndsCommand, Instruction, Program, SubcktCommand,
};
use spice_parser_core::ast::component::{Component, RComponent, RComponentParams, RComponentPartial};
use spice_parser_core::ast::expression::{Literal, Number};
use spice_parser_core::ast::{AcType, Atom, Name, Node};
use spice_parser_core::lexer::{tokenize_line, SpiceLexer};
use spice_parser_core::parse::{ParseResult, PartialParse, SpiceLineParser, TryParse};
use spice_parser_core::program::assemble;
use spice_parser_core::try_parse_program;
use spice_parser_core::value::Suffix;

fn atom(text: &str) -> Atom {
    Atom::new(text, (0, 0), 0)
}

fn plain(number: &str) -> Number {
    Number::Literal(Literal { negative: false, number: number.to_string(), suffix: None })
}

fn raws(line: &[Atom]) -> Vec<String> {
    line.iter().map(|a| a.raw.clone()).collect()
}

fn texts(code: &str) -> Vec<Vec<String>> {
    SpiceLexer::tokenize(code).iter().map(|l| raws(l)).collect()
}

#[test]
fn continuation_lines_are_merged() {
    assert_eq!(texts("R1 1 2\n+ 1k"), texts("R1 1 2 1k"));
    assert_eq!(texts("R1 1 2\n+ 1k\n+ TC=1\nC1 1 2 3"), texts("R1 1 2 1k TC=1\nC1 1 2 3"));
    assert_eq!(texts("R1 1 2\n\n* comment\n+ 1k"), texts("R1 1 2 1k"));
    // The first line continues nothing.
    assert_eq!(texts("+ 1k"), vec![vec!["+".to_string(), "1k".to_string()]]);
}

#[test]
fn continuation_keeps_the_places_of_its_atoms() {
    let lines = SpiceLexer::tokenize("R1 1 2\n+ 1k");
    assert_eq!(lines.len(), 1);
    let last = &lines[0][3];
    assert_eq!(last.raw, "1k");
    assert_eq!(last.line, 1);
    assert_eq!(last.column, (2, 4));
    assert_eq!(lines[0][0].line, 0);
    assert_eq!(lines[0][0].column, (0, 2));
}

#[test]
fn signs_within_scientific_notation() {
    assert_eq!(texts("1.3e-4"), vec![vec!["1.3e-4"]]);
    assert_eq!(texts("a-4"), vec![vec!["a", "-", "4"]]);
    assert_eq!(texts("e-4"), vec![vec!["e", "-", "4"]]);
    assert_eq!(texts("1e+x"), vec![vec!["1e", "+", "x"]]);
    assert_eq!(texts("1e-"), vec![vec!["1e", "-"]]);
    assert_eq!(texts("R1 1 2 1k+1"), vec![vec!["R1", "1", "2", "1k", "+", "1"]]);
    // Only the start and the end of the run are looked at.
    assert_eq!(texts("1xe-4"), vec![vec!["1xe-4"]]);
    assert_eq!(texts("1e-4-5"), vec![vec!["1e-4", "-", "5"]]);
}

#[test]
fn tokens_joined_by_spaces_are_the_same_tokens() {
    for line in [
        "R1   1,2 ,, 10k",
        "V1 N1 0 AC 0.0 SIN(0.0 5.0 1.0E3)",
        ".PRINT/DGTLCHG TRAN V(3) V([RESET])",
        "X1 1 2 SUB PARAM: A=1e-3 TEXT: name=\"a b\"",
        "a<<=>>==b!=c**d",
        "  \t padded\twith tabs ; and a comment",
    ] {
        let chars: Vec<char> = line.chars().collect();
        let first = raws(&tokenize_line(&chars, 0));
        let joined: Vec<char> = first.join(" ").chars().collect();
        let second = raws(&tokenize_line(&joined, 0));
        assert_eq!(first, second);
    }
}

#[test]
fn joining_changes_lines_with_an_open_quote_or_a_leading_star() {
    let relex = |line: &str| {
        let chars: Vec<char> = line.chars().collect();
        let first = raws(&tokenize_line(&chars, 0));
        let joined: Vec<char> = first.join(" ").chars().collect();
        (first, raws(&tokenize_line(&joined, 0)))
    };
    // What follows an open quote is one atom, and joined it is two.
    let (first, second) = relex("a \"b c");
    assert_eq!(first, vec!["a", "b c"]);
    assert_eq!(second, vec!["a", "b", "c"]);
    // A line that begins with a comma is no comment, and joined it is one.
    let (first, second) = relex(",* x");
    assert_eq!(first, vec!["*", "x"]);
    assert!(second.is_empty());
    // A word before a quote is dropped, and stays away.
    let (first, second) = relex("a\"b\"c");
    assert_eq!(first, vec!["\"b\"", "c"]);
    assert_eq!(second, first);
}

#[test]
fn columns_are_byte_offsets() {
    let chars: Vec<char> = "né=1".chars().collect();
    let atoms = tokenize_line(&chars, 7);
    assert_eq!(raws(&atoms), vec!["né", "=", "1"]);
    assert_eq!(atoms[0].column, (0, 3));
    assert_eq!(atoms[1].column, (3, 4));
    assert_eq!(atoms[2].column, (4, 5));
    assert_eq!(atoms[2].line, 7);
}

#[test]
fn comments_and_line_ends() {
    assert_eq!(texts("* all of it\nR1 1 2 ; the rest\r\n   * indented\nC1"), vec![vec!["R1", "1", "2"], vec!["C1"]]);
    // A semicolon ends the line even within quotes.
    assert_eq!(texts("a \"b;c\""), vec![vec!["a", "b"]]);
    // A space that is wider than a byte separates like any other.
    assert_eq!(texts("a\u{3000}b\u{a0}c"), vec![vec!["a", "b", "c"]]);
}

#[test]
fn resistor_example() {
    let tokens = SpiceLexer::tokenize("R1 N2 N3 10.0");
    let mut parser = SpiceLineParser::new(&tokens[0]);
    let component: ParseResult<Component> = parser.try_parse();
    assert_eq!(
        component,
        Ok(Component::R(RComponent {
            name: Name(atom("R1")),
            node1: Node(atom("N2")),
            node2: Node(atom("N3")),
            model: None,
            value: plain("10.0"),
            params: RComponentParams { tc: None },
        }))
    );

    let tokens = SpiceLexer::tokenize("R1 1 2");
    let mut parser = SpiceLineParser::new(&tokens[0]);
    let partial: RComponentPartial = parser.try_partial().unwrap();
    assert_eq!(partial.name, Some(Name(atom("R1"))));
    assert_eq!(partial.node1, Some(Node(atom("1"))));
    assert_eq!(partial.node2, Some(Node(atom("2"))));
    assert_eq!(partial.value, None);
}

#[test]
fn ac_example() {
    let tokens = SpiceLexer::tokenize(".AC LIN 101 100Hz 200Hz");
    let mut parser = SpiceLineParser::new(&tokens[0]);
    let command: ParseResult<AcCommand> = parser.try_parse();
    assert_eq!(
        command,
        Ok(AcCommand {
            ty: AcType::Lin,
            np: plain("101"),
            fstart: plain("100"),
            fend: plain("200"),
        })
    );
    assert!(parser.is_eof());
    let tokens = SpiceLexer::tokenize(".ac dec 20 1MEG 100MEG");
    let mut parser = SpiceLineParser::new(&tokens[0]);
    let command: ParseResult<AcCommand> = parser.try_parse();
    let meg = |n: &str| {
        Number::Literal(Literal { negative: false, number: n.to_string(), suffix: Some(Suffix::Mega) })
    };
    assert_eq!(
        command,
        Ok(AcCommand { ty: AcType::Dec, np: plain("20"), fstart: meg("1"), fend: meg("100") })
    );
}

fn subckt_of(program: &Program) -> &SubcktCommand {
    assert_eq!(program.instructions.len(), 1);
    match &program.instructions[0] {
        Instruction::Command(Command::Subckt(s)) => s,
        other => panic!("not a subcircuit: {:?}", other),
    }
}

#[test]
fn a_subckt_takes_the_lines_up_to_its_ends() {
    let body = "R1 1 2 1k\nC1 2 0 1u\n.OP\n";
    for ends in [".ENDS", ".ENDS x", ".ends"] {
        let source = format!(".SUBCKT x 1 2\n{}{}\n", body, ends);
        let program = try_parse_program(&source).unwrap();
        let inner = try_parse_program(body).unwrap();
        let subckt = subckt_of(&program);
        assert_eq!(subckt.name, Name(atom("x")));
        assert_eq!(subckt.pins, vec![Node(atom("1")), Node(atom("2"))]);
        assert_eq!(subckt.instructions, inner.instructions);
    }
}

#[test]
fn an_unbalanced_subckt_is_rejected() {
    let unmatched = try_parse_program("R1 1 2 1k\n.ENDS\n").unwrap_err();
    assert_eq!(unmatched.reason, "Unmatched .ENDS");
    assert_eq!(unmatched.position, None);
    let other_name = try_parse_program(".SUBCKT x\nR1 1 2 1k\n.ENDS y\n").unwrap_err();
    assert_eq!(other_name.reason, "Unmatched .ENDS");
    // Names are compared as they are written.
    assert!(try_parse_program(".SUBCKT x\n.ENDS X\n").is_err());
    let missing = try_parse_program(".SUBCKT x\nR1 1 2 1k\n").unwrap_err();
    assert_eq!(missing.reason, "Missing .ENDS for .SUBCKT");
    assert_eq!(missing.position, None);
    let twice = try_parse_program(".SUBCKT x\n.ENDS\n.ENDS\n").unwrap_err();
    assert_eq!(twice.reason, "Unmatched .ENDS");
    let inner_only = try_parse_program(".SUBCKT x\n.SUBCKT y\n.ENDS y\n").unwrap_err();
    assert_eq!(inner_only.reason, "Missing .ENDS for .SUBCKT");
}

#[test]
fn assemble_folds_what_is_given() {
    let ends = |name: Option<&str>| {
        Instruction::Command(Command::Ends(EndsCommand { name: name.map(|n| Name(atom(n))) }))
    };
    let subckt = |name: &str| {
        Instruction::Command(Command::Subckt(SubcktCommand {
            name: Name(atom(name)),
            pins: vec![],
            optionals: vec![],
            params: vec![],
            texts: vec![],
            instructions: vec![],
        }))
    };
    assert_eq!(assemble(vec![]), Ok(vec![]));
    let folded = assemble(vec![subckt("a"), subckt("b"), ends(Some("b")), ends(None)]).unwrap();
    assert_eq!(folded.len(), 1);
    match &folded[0] {
        Instruction::Command(Command::Subckt(a)) => {
            assert_eq!(a.name, Name(atom("a")));
            assert_eq!(a.instructions, vec![subckt("b")]);
        },
        other => panic!("not a subcircuit: {:?}", other),
    }
    assert!(assemble(vec![subckt("a"), ends(Some("b"))]).is_err());
    assert!(assemble(vec![ends(None)]).is_err());
    assert!(assemble(vec![subckt("a")]).is_err());
}

fn canonical(code: &str) -> String {
    texts(code).iter().map(|line| line.join(" ")).collect::<Vec<_>>().join("\n")
}

#[test]
fn the_canonical_text_is_read_as_the_text_is() {
    let source = "Filter\r\n  R1  in,out   1.3e-4 ; series\n* a comment\n\nC1 out 0\n+ {2*c}  IC = 0\n\
                  .SUBCKT amp a b PARAM: g=1\nE1 b 0 a 0 {g}\n.ENDS amp\n.PRINT DC V(1)  I(R1)\n\
                  .TEXT n=\"a b, c\"\n.END";
    let written = canonical(source);
    assert_eq!(
        written,
        "Filter\nR1 in out 1.3e-4\nC1 out 0 { 2 * c } IC = 0\n.SUBCKT amp a b PARAM : g = 1\n\
         E1 b 0 a 0 { g }\n.ENDS amp\n.PRINT DC V ( 1 ) I ( R1 )\n.TEXT n = \"a b, c\"\n.END"
    );
    assert_eq!(texts(&written), texts(source));
    assert_eq!(canonical(&written), written);
    let program = try_parse_program(source).unwrap();
    assert_eq!(try_parse_program(&written).unwrap(), program);
    assert_eq!(program.instructions.len(), 6);
}

#[test]
fn joined_atoms_of_a_line_are_its_atoms() {
    for line in ["R1\t1,,2   1k", "  .AC  LIN 101 100Hz,200Hz ; sweep", "a-4 e-4 1.3e-4 x**2>=\"q r\""] {
        let tokens = SpiceLexer::tokenize(line);
        assert_eq!(tokens.len(), 1);
        let joined = raws(&tokens[0]).join(" ");
        let again = SpiceLexer::tokenize(&joined);
        assert_eq!(again.len(), 1);
        assert_eq!(raws(&again[0]), raws(&tokens[0]));
        assert_eq!(again, tokens);
    }
}
