use spice_parser_core::ast::{Atom, ExplicitNode, Name, Node};
use spice_parser_core::ast::variable::{CurrentVariable, NoiseVariable, OutputVariable, PowerVariable, Suffix, Terminal, TransmissionEnd, VoltageVariable};
use spice_parser_core::lexer::{SpiceLexer};
use spice_parser_core::parse::{ParseResult, SpiceLineParser, TryParse};

fn atom(text: &str) -> Atom {
    Atom::new(text, (0, 0), 0)
}

fn ok<T: PartialEq + std::fmt::Debug>(
    input: &str,
    parse: impl for<'a, 'b> Fn(&'a mut SpiceLineParser<'b>) -> ParseResult<T>,
    expected: T,
) {
    let tokens = SpiceLexer::tokenize(input);
    let mut parser = SpiceLineParser::new(&tokens[0]);
    let result = parse(&mut parser);
    assert_eq!(result, Ok(expected));
    assert!(parser.is_eof());
}

#[test]
fn test_parse_output_variable() {
        ok("INOISE", |p| p.try_parse(), OutputVariable::Noise(NoiseVariable::Inoise));
        ok("ONOISE", |p| p.try_parse(), OutputVariable::Noise(NoiseVariable::Onoise));
        ok("DB(INOISE)", |p| p.try_parse(), OutputVariable::Noise(NoiseVariable::DbInoise));
        ok("DB(ONOISE)", |p| p.try_parse(), OutputVariable::Noise(NoiseVariable::DbOnoise));

        ok("V(10)", |p| p.try_parse(), OutputVariable::Voltage(VoltageVariable::Node {
                node: ExplicitNode(Node(atom("10"))),
                suffix: Suffix::Bare
            }));

        ok("II(R13)", |p| p.try_parse(), OutputVariable::Current(CurrentVariable::Name {
                name: Name(atom("R13")),
                suffix: Suffix::I
            }));
        ok("IGG(M3)", |p| p.try_parse(), OutputVariable::Current(CurrentVariable::NameX {
                name: Name(atom("M3")),
                x: Terminal::G,
                suffix: Suffix::G
            }));
        ok("IR(VIN)", |p| p.try_parse(), OutputVariable::Current(CurrentVariable::Name {
                name: Name(atom("VIN")),
                suffix: Suffix::R
            }));
        ok("IAG(T2)", |p| p.try_parse(), OutputVariable::Current(CurrentVariable::NameZ {
                name: Name(atom("T2")),
                z: TransmissionEnd::A,
                suffix: Suffix::G
            }));
        ok("V(2,3)", |p| p.try_parse(), OutputVariable::Voltage(VoltageVariable::Node2 {
                node1: ExplicitNode(Node(atom("2"))),
                node2: ExplicitNode(Node(atom("3"))),
                suffix: Suffix::Bare,
            }));
        ok("VDB(R1)", |p| p.try_parse(), OutputVariable::Voltage(VoltageVariable::Name {
                name: Name(atom("R1")),
                suffix: Suffix::Db
            }));
        ok("VBEP(Q3)", |p| p.try_parse(), OutputVariable::Voltage(VoltageVariable::NameXY {
                name: Name(atom("Q3")),
                x: Terminal::B,
                y: Terminal::E,
                suffix: Suffix::P
            }));
        ok("VM(2)", |p| p.try_parse(), OutputVariable::Voltage(VoltageVariable::Node {
                node: ExplicitNode(Node(atom("2"))),
                suffix: Suffix::M
            }));
        ok("WM(U7)", |p| p.try_parse(), OutputVariable::Power(PowerVariable {
                name: Name(atom("U7")),
                suffix: Suffix::M,
            }));
    }
