use spice_parser_core::ast::{Atom, ExplicitNode, Name, Node, Pairs};
use spice_parser_core::ast::command::{Command, EndCommand, IcCommand, Instruction, LibCommand, Program, SubcktCommand, TranCommand, TranCommandParams};
use spice_parser_core::ast::component::{CComponent, CComponentParams, Component, LComponent, LComponentParams, RComponent, RComponentParams, VComponent};
use spice_parser_core::ast::expression::{Literal, Number};
use spice_parser_core::ast::transient::{AcSource, Sin, Transient};
use spice_parser_core::ast::variable::{OutputVariable, Suffix, VoltageVariable};
use spice_parser_core::lexer::{SpiceLexer};
use spice_parser_core::program::{SpiceFileParser};
use spice_parser_core::value::Suffix as Scale;

fn atom(text: &str) -> Atom {
    Atom::new(text, (0, 0), 0)
}

fn factor(suffix: Option<Scale>) -> f64 {
    match suffix {
        Some(Scale::Tera) => 1e12,
        Some(Scale::Giga) => 1e9,
        Some(Scale::Mega) => 1e6,
        Some(Scale::Kilo) => 1e3,
        Some(Scale::Mil) => 25.4e-6,
        Some(Scale::Milli) => 1e-3,
        Some(Scale::Micro) => 1e-6,
        Some(Scale::Nano) => 1e-9,
        Some(Scale::Pico) => 1e-12,
        Some(Scale::Femto) => 1e-15,
        Some(Scale::Atto) => 1e-18,
        None => 1.0,
    }
}

/// The literal written as `number` and `suffix`, whose value is `value`.
fn lit(value: f64, negative: bool, number: &str, suffix: Option<Scale>) -> Literal {
    let written: f64 = number.parse().unwrap();
    let scaled = match suffix {
        Some(_) => written * factor(suffix),
        None => written,
    };
    assert_eq!(if negative { -scaled } else { scaled }, value);
    Literal { negative, number: number.to_string(), suffix }
}

#[allow(dead_code)]
fn num(value: f64, negative: bool, number: &str, suffix: Option<Scale>) -> Number {
    Number::Literal(lit(value, negative, number, suffix))
}

#[test]
fn test_recursive_subckt() {
        let tokens = SpiceLexer::tokenize(".SUBCKT one
\
         R1 1 1 1
\
         .SUBCKT two
\
         R2 1 1 1
\
         .ENDS
\
         .SUBCKT one
\
         R3 1 1 1
\
         .ENDS
\
         R4 1 1 1
\
         .ENDS
\
         ");
        let mut parser = SpiceFileParser::new(&tokens);
        assert_eq!(
            parser.parse(),
            Ok(Program {
                name: None,
                instructions: vec![
                    Instruction::Command(Command::Subckt(SubcktCommand {
                        name: Name(atom("one")),
                        pins: vec![],
                        optionals: vec![],
                        params: vec![],
                        texts: vec![],
                        instructions: vec![
                            Instruction::Component(Component::R(RComponent {
                                name: Name(atom("R1")),
                                node1: Node(atom("1")),
                                node2: Node(atom("1")),
                                model: None,
                                value: num(1.0, false, "1", None),
                                params: RComponentParams { tc: None },
                            })),
                            Instruction::Command(Command::Subckt(SubcktCommand {
                                name: Name(atom("two")),
                                pins: vec![],
                                optionals: vec![],
                                params: vec![],
                                texts: vec![],
                                instructions: vec![
                                    Instruction::Component(Component::R(RComponent {
                                        name: Name(atom("R2")),
                                        node1: Node(atom("1")),
                                        node2: Node(atom("1")),
                                        model: None,
                                        value: num(1.0, false, "1", None),
                                        params: RComponentParams { tc: None },
                                    })),
                                ]
                            })),
                            Instruction::Command(Command::Subckt(SubcktCommand {
                                name: Name(atom("one")),
                                pins: vec![],
                                optionals: vec![],
                                params: vec![],
                                texts: vec![],
                                instructions: vec![
                                    Instruction::Component(Component::R(RComponent {
                                        name: Name(atom("R3")),
                                        node1: Node(atom("1")),
                                        node2: Node(atom("1")),
                                        model: None,
                                        value: num(1.0, false, "1", None),
                                        params: RComponentParams { tc: None },
                                    })),
                                ]
                            })),
                            Instruction::Component(Component::R(RComponent {
                                name: Name(atom("R4")),
                                node1: Node(atom("1")),
                                node2: Node(atom("1")),
                                model: None,
                                value: num(1.0, false, "1", None),
                                params: RComponentParams { tc: None },
                            })),
                        ]
                    }))
                ]
            })
        );
    }

#[test]
fn test_parse_file_rcl() {
        let tokens = SpiceLexer::tokenize("RCL
\
         R1 N2 N3 10.0
\
         L1 N2 N1 10.0E-3
\
         L2 N3 N4 10.0E-3
\
         V1I95 N1 0 AC 0.0 SIN ( 0.0 5.0 1.0E3 0.0 0.0 0.0 )
\
         R2 0 N4 10.0
\
         C1 N2 N4 10.0E-6
\
         .TRAN 0.1M 10M
\
         .LIB
\
         .IC V(2)=3 V(2)=4
\
         .END
\
         ");
        let mut parser = SpiceFileParser::new(&tokens);
        assert_eq!(
            parser.parse(),
            Ok(Program {
                name: Some(Name(atom("RCL"))),
                instructions: vec![
                    Instruction::Component(Component::R(RComponent {
                        name: Name(atom("R1")),
                        node1: Node(atom("N2")),
                        node2: Node(atom("N3")),
                        model: None,
                        value: num(10.0, false, "10.0", None),
                        params: RComponentParams { tc: None },
                    })),
                    Instruction::Component(Component::L(LComponent {
                        name: Name(atom("L1")),
                        node1: Node(atom("N2")),
                        node2: Node(atom("N1")),
                        model: None,
                        value: num(10.0e-3, false, "10.0e-3", None),
                        params: LComponentParams { ic: None },
                    })),
                    Instruction::Component(Component::L(LComponent {
                        name: Name(atom("L2")),
                        node1: Node(atom("N3")),
                        node2: Node(atom("N4")),
                        model: None,
                        value: num(10.0e-3, false, "10.0e-3", None),
                        params: LComponentParams { ic: None },
                    })),
                    Instruction::Component(Component::V(VComponent {
                        name: Name(atom("V1I95")),
                        node1: Node(atom("N1")),
                        node2: Node(atom("0")),
                        dc: None,
                        ac: Some(AcSource {
                            magnitude: num(0.0, false, "0.0", None),
                            phase: None
                        }),
                        transient: Some(Transient::Sin(Sin {
                            v0: num(0.0, false, "0.0", None),
                            vampl: num(5.0, false, "5.0", None),
                            freq: Some(num(1.0e3, false, "1.0e3", None)),
                            td: Some(num(0.0, false, "0.0", None)),
                            alpha: Some(num(0.0, false, "0.0", None)),
                            theta: Some(num(0.0, false, "0.0", None))
                        })),
                    })),
                    Instruction::Component(Component::R(RComponent {
                        name: Name(atom("R2")),
                        node1: Node(atom("0")),
                        node2: Node(atom("N4")),
                        model: None,
                        value: num(10.0, false, "10.0", None),
                        params: RComponentParams { tc: None },
                    })),
                    Instruction::Component(Component::C(CComponent {
                        name: Name(atom("C1")),
                        node1: Node(atom("N2")),
                        node2: Node(atom("N4")),
                        model: None,
                        value: num(10.0e-6, false, "10.0e-6", None),
                        params: CComponentParams { ic: None },
                    })),
                    Instruction::Command(Command::Tran(TranCommand {
                        op: false,
                        tstep: num(1.0e-4, false, "0.1", Some(Scale::Milli)),
                        tstop: num(1.0e-2, false, "10", Some(Scale::Milli)),
                        tstart: None,
                        tmax: None,
                        params: TranCommandParams {
                            uic: false,
                            skipbp: false,
                        }
                    })),
                    Instruction::Command(Command::Lib(LibCommand { filename: None })),
                    Instruction::Command(Command::Ic(IcCommand {
                        ics: vec![
                            Pairs {
                                name: OutputVariable::Voltage(VoltageVariable::Node {
                                    node: ExplicitNode(Node(atom("2"))),
                                    suffix: Suffix::Bare,
                                }),
                                value: num(3.0, false, "3", None),
                            },
                            Pairs {
                                name: OutputVariable::Voltage(VoltageVariable::Node {
                                    node: ExplicitNode(Node(atom("2"))),
                                    suffix: Suffix::Bare,
                                }),
                                value: num(4.0, false, "4", None),
                            }
                        ]
                    })),
                    Instruction::Command(Command::End(EndCommand {})),
                ]
            })
        );
    }
