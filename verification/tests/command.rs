use spice_parser_core::ast::{AcType, Atom, ExplicitNode, Limits, Name, Node, Options, Pairs, Param, PrintVariable};
use spice_parser_core::ast::command::{AcCommand, DcCommand, EndCommand, EndsCommand, FourCommand, GlobalCommand, IcCommand, IncCommand, LibCommand, ModelCommand, NodeSetCommand, NoiseCommand, OpCommand, OptionsCommand, ParamCommand, PlotCommand, PrintCommand, ProbeCommand, ProbeSource, SensCommand, StepCommand, SubcktCommand, TempCommand, TextCommand, TfCommand, TranCommand, TranCommandParams, WatchCommand, WidthCommand};
use spice_parser_core::ast::expression::{Literal, Number, Text};
use spice_parser_core::ast::sweep::{Dec, Lin, List, Oct, Sweep, SweepName};
use spice_parser_core::ast::variable::{NoiseVariable, OutputVariable, Suffix, VoltageVariable};
use spice_parser_core::lexer::{SpiceLexer};
use spice_parser_core::parse::{ParseResult, SpiceLineParser, TryParse};
use spice_parser_core::value::Suffix as Scale;

fn atom(text: &str) -> Atom {
    Atom::new(text, (0, 0), 0)
}

fn factor(suffix: Option<Scale>) -> f64 {
    match suffix {
        Some(Scale::Tera) => 1e12,
        Some(Scale::Giga) => 1e9,
        Some(Scale::Mega) => 1e6,
        Some(Scale::Kilo) => 1e3,
        Some(Scale::Mil) => 25.4e-6,
        Some(Scale::Milli) => 1e-3,
        Some(Scale::Micro) => 1e-6,
        Some(Scale::Nano) => 1e-9,
        Some(Scale::Pico) => 1e-12,
        Some(Scale::Femto) => 1e-15,
        Some(Scale::Atto) => 1e-18,
        None => 1.0,
    }
}

/// The literal written as `number` and `suffix`, whose value is `value`.
fn lit(value: f64, negative: bool, number: &str, suffix: Option<Scale>) -> Literal {
    let written: f64 = number.parse().unwrap();
    let scaled = match suffix {
        Some(_) => written * factor(suffix),
        None => written,
    };
    assert_eq!(if negative { -scaled } else { scaled }, value);
    Literal { negative, number: number.to_string(), suffix }
}

#[allow(dead_code)]
fn num(value: f64, negative: bool, number: &str, suffix: Option<Scale>) -> Number {
    Number::Literal(lit(value, negative, number, suffix))
}

fn ok<T: PartialEq + std::fmt::Debug>(
    input: &str,
    parse: impl for<'a, 'b> Fn(&'a mut SpiceLineParser<'b>) -> ParseResult<T>,
    expected: T,
) {
    let tokens = SpiceLexer::tokenize(input);
    let mut parser = SpiceLineParser::new(&tokens[0]);
    let result = parse(&mut parser);
    assert_eq!(result, Ok(expected));
    assert!(parser.is_eof());
}

fn err<T: PartialEq + std::fmt::Debug>(
    input: &str,
    parse: impl for<'a, 'b> Fn(&'a mut SpiceLineParser<'b>) -> ParseResult<T>,
) {
    let tokens = SpiceLexer::tokenize(input);
    let mut parser = SpiceLineParser::new(&tokens[0]);
    let result = parse(&mut parser);
    assert!(result.is_err());
}

#[test]
fn test_parse_command_ac() {
        ok(".AC LIN 101 100Hz 200Hz", |p| p.try_parse(), AcCommand {
                ty: AcType::Lin,
                np: num(101.0, false, "101", None),
                fstart: num(100.0, false, "100", None),
                fend: num(200.0, false, "200", None),
            });
        ok(".AC OCT 10 1kHz 16kHz", |p| p.try_parse(), AcCommand {
                ty: AcType::Oct,
                np: num(10.0, false, "10", None),
                fstart: num(1000.0, false, "1", Some(Scale::Kilo)),
                fend: num(16000.0, false, "16", Some(Scale::Kilo)),
            });
        ok(".AC DEC 20 1MEG 100MEG", |p| p.try_parse(), AcCommand {
                ty: AcType::Dec,
                np: num(20.0, false, "20", None),
                fstart: num(1e6, false, "1", Some(Scale::Mega)),
                fend: num(1e8, false, "100", Some(Scale::Mega)),
            });
    }

#[test]
fn test_error_field() {
        err::<AcCommand>(".AC HEX 10 40 40", |p| p.try_parse());
    }

#[test]
fn test_parse_command_dc() {
        ok(".DC V2 LIST 1 2 3", |p| p.try_parse(), DcCommand {
                sweeps: vec![Sweep::List(List {
                    swname: SweepName::Power {
                        name: Name(atom("V2"))
                    },
                    values: vec![num(1.0, false, "1", None), num(2.0, false, "2", None), num(3.0, false, "3", None),]
                })]
            })
    }

#[test]
fn test_parse_command_end() {
        ok(".END", |p| p.try_parse(), EndCommand {});
        err::<EndCommand>(".ENDX", |p| p.try_parse());
    }

#[test]
fn test_parse_command_four() {
        ok(".FOUR 60Hz 20 V(17)", |p| p.try_parse(), FourCommand {
                freq: num(60.0, false, "60", None),
                np: Some(20),
                variables: vec![OutputVariable::Voltage(VoltageVariable::Node {
                    node: ExplicitNode(Node(atom("17"))),
                    suffix: Suffix::Bare
                })],
            });
        ok(".FOUR 10kHz V([OUT1],[OUT2])", |p| p.try_parse(), FourCommand {
                freq: num(10e3, false, "10", Some(Scale::Kilo)),
                np: None,
                variables: vec![OutputVariable::Voltage(VoltageVariable::Node2 {
                    node1: ExplicitNode(Node(atom("OUT1"))),
                    node2: ExplicitNode(Node(atom("OUT2"))),
                    suffix: Suffix::Bare
                })],
            });
    }

#[test]
fn test_parse_command_global() {
        ok(".GLOBAL V1", |p| p.try_parse(), GlobalCommand {
                node: Node(atom("V1"))
            });
        err::<GlobalCommand>(".GLOBAL", |p| p.try_parse());
        err::<GlobalCommand>(".GLOBALX V2", |p| p.try_parse());
    }

#[test]
fn test_parse_command_ic() {
        ok(".IC V(3)=4", |p| p.try_parse(), IcCommand {
                ics: vec![Pairs {
                    name: OutputVariable::Voltage(VoltageVariable::Node {
                        node: ExplicitNode(Node(atom("3"))),
                        suffix: Suffix::Bare
                    }),
                    value: num(4.0, false, "4", None),
                }]
            })
    }

#[test]
fn test_parse_command_inc() {
        ok(r#".inc "test.lib""#, |p| p.try_parse(), IncCommand {
                filename: Text(atom("\"test.lib\""))
            });
    }

#[test]
fn test_parse_command_lib() {
        ok(r#".lib "test.lib""#, |p| p.try_parse(), LibCommand {
                filename: Some(Text(atom("\"test.lib\"")))
            });
        ok(".lib", |p| p.try_parse(), LibCommand { filename: None });
    }

#[test]
fn test_parse_command_model() {
        ok(".MODEL QDR2 AKO:QDRIV NPN (BF=50 IKF=50m)", |p| p.try_parse(), ModelCommand {
                name: Name(atom("QDR2")),
                reference: Some(Name(atom("QDRIV"))),
                ty: Name(atom("NPN")),
                params: vec![
                    Param {
                        name: Name(atom("BF")),
                        value: num(50.0, false, "50", None),
                    },
                    Param {
                        name: Name(atom("IKF")),
                        value: num(50.0e-3, false, "50", Some(Scale::Milli)),
                    },
                ]
            })
    }

#[test]
fn test_parse_command_nodeset() {
        ok(".NODESET V(10)=10", |p| p.try_parse(), NodeSetCommand {
                nodesets: vec![Pairs {
                    name: OutputVariable::Voltage(VoltageVariable::Node {
                        node: ExplicitNode(Node(atom("10"))),
                        suffix: Suffix::Bare
                    }),
                    value: num(10.0, false, "10", None),
                }]
            });
    }

#[test]
fn test_parse_command_noise() {
        ok(".NOISE V(10) V1 10", |p| p.try_parse(), NoiseCommand {
                variable: OutputVariable::Voltage(VoltageVariable::Node {
                    node: ExplicitNode(Node(atom("10"))),
                    suffix: Suffix::Bare
                }),
                source: Name(atom("V1")),
                m: Some(10),
            });
    }

#[test]
fn test_parse_command_op() {
        ok(".OP", |p| p.try_parse(), OpCommand {});
    }

#[test]
fn test_parse_command_options() {
        ok(".OPTIONS A B=2.3 C=2.3 D E=33.3", |p| p.try_parse(), OptionsCommand {
                options: vec![
                    Options {
                        name: Name(atom("A")),
                        value: None,
                    },
                    Options {
                        name: Name(atom("B")),
                        value: Some(num(2.3, false, "2.3", None)),
                    },
                    Options {
                        name: Name(atom("C")),
                        value: Some(num(2.3, false, "2.3", None)),
                    },
                    Options {
                        name: Name(atom("D")),
                        value: None,
                    },
                    Options {
                        name: Name(atom("E")),
                        value: Some(num(33.3, false, "33.3", None)),
                    },
                ]
            });
    }

#[test]
fn test_parse_command_param() {
        ok(".PARAM v=22 d=4.3", |p| p.try_parse(), ParamCommand {
                params: vec![
                    Param {
                        name: Name(atom("v")),
                        value: num(22.0, false, "22", None),
                    },
                    Param {
                        name: Name(atom("d")),
                        value: num(4.3, false, "4.3", None),
                    }
                ]
            })
    }

#[test]
fn test_parse_command_plot() {
        ok(".PLOT DC V(2) V(4) (2, 4)", |p| p.try_parse(), PlotCommand {
                source: ProbeSource::Dc,
                variables: vec![
                    PrintVariable {
                        variable: OutputVariable::Voltage(VoltageVariable::Node {
                            node: ExplicitNode(Node(atom("2"))),
                            suffix: Suffix::Bare
                        }),
                        limits: None,
                    },
                    PrintVariable {
                        variable: OutputVariable::Voltage(VoltageVariable::Node {
                            node: ExplicitNode(Node(atom("4"))),
                            suffix: Suffix::Bare
                        }),
                        limits: Some(Limits {
                            lower: num(2.0, false, "2", None),
                            upper: num(4.0, false, "4", None),
                        }),
                    },
                ]
            })
    }

#[test]
fn test_parse_command_print() {
        ok(".PRINT NOISE INOISE ONOISE DB(INOISE) DB(ONOISE)", |p| p.try_parse(), PrintCommand {
                dgtlchg: false,
                source: ProbeSource::Noise,
                variables: vec![
                    PrintVariable {
                        variable: OutputVariable::Noise(NoiseVariable::Inoise),
                        limits: None
                    },
                    PrintVariable {
                        variable: OutputVariable::Noise(NoiseVariable::Onoise),
                        limits: None
                    },
                    PrintVariable {
                        variable: OutputVariable::Noise(NoiseVariable::DbInoise),
                        limits: None
                    },
                    PrintVariable {
                        variable: OutputVariable::Noise(NoiseVariable::DbOnoise),
                        limits: None
                    },
                ],
            })
    }

#[test]
fn test_parse_command_probe() {
        ok(".PROBE", |p| p.try_parse(), ProbeCommand {
                csdf: false,
                variables: vec![]
            });
        ok(".PROBE/CSDF", |p| p.try_parse(), ProbeCommand {
                csdf: true,
                variables: vec![]
            });
    }

#[test]
fn test_parse_command_sens() {
        ok(".SENS V(2)", |p| p.try_parse(), SensCommand {
                variables: vec![OutputVariable::Voltage(VoltageVariable::Node {
                    node: ExplicitNode(Node(atom("2"))),
                    suffix: Suffix::Bare
                })],
            })
    }

#[test]
fn test_parse_command_step() {
        ok(".STEP PARAM CenterFreq 9.5kHz 10.5kHz 50Hz", |p| p.try_parse(), StepCommand {
                sweeps: vec![Sweep::Lin(Lin {
                    swname: SweepName::Param {
                        name: Name(atom("CenterFreq")),
                    },
                    sstart: num(9.5e3, false, "9.5", Some(Scale::Kilo)),
                    send: num(10.5e3, false, "10.5", Some(Scale::Kilo)),
                    sinc: num(50.0, false, "50", None),
                })]
            })
    }

#[test]
fn test_parse_command_subckt() {
        ok(".SUBCKT john 3 2 4 5 PARAM: v=2 b=3 f=5", |p| p.try_parse(), SubcktCommand {
                name: Name(atom("john")),
                pins: vec![
                    Node(atom("3")),
                    Node(atom("2")),
                    Node(atom("4")),
                    Node(atom("5")),
                ],
                optionals: vec![],
                params: vec![
                    Param {
                        name: Name(atom("v")),
                        value: num(2.0, false, "2", None),
                    },
                    Param {
                        name: Name(atom("b")),
                        value: num(3.0, false, "3", None),
                    },
                    Param {
                        name: Name(atom("f")),
                        value: num(5.0, false, "5", None),
                    }
                ],
                texts: vec![],
                instructions: vec![],
            });

        ok(".SUBCKT name 1 2 3 4 OPTIONAL: GND=0 PARAM: v=2 TEXT: name=\"texts\"", |p| p.try_parse(), SubcktCommand {
                name: Name(atom("name")),
                pins: vec![
                    Node(atom("1")),
                    Node(atom("2")),
                    Node(atom("3")),
                    Node(atom("4")),
                ],
                optionals: vec![Pairs {
                    name: Node(atom("GND")),
                    value: Node(atom("0")),
                }],
                params: vec![Param {
                    name: Name(atom("v")),
                    value: num(2.0, false, "2", None),
                }],
                texts: vec![Param {
                    name: Name(atom("name")),
                    value: Text(atom("\"texts\"")),
                }],
                instructions: vec![]
            })
    }

#[test]
fn test_parse_command_ends() {
        ok(".ENDS", |p| p.try_parse(), EndsCommand { name: None });

        ok(".ENDS subckt", |p| p.try_parse(), EndsCommand {
                name: Some(Name(atom("subckt")))
            });

        err::<EndsCommand>(".ENDX", |p| p.try_parse());
    }

#[test]
fn test_parse_command_temp() {
        ok(".TEMP 2 3 4", |p| p.try_parse(), TempCommand {
                temps: vec![num(2.0, false, "2", None), num(3.0, false, "3", None), num(4.0, false, "4", None),]
            })
    }

#[test]
fn test_parse_command_text() {
        ok(r#".TEXT a="233" b="tanaka""#, |p| p.try_parse(), TextCommand {
                texts: vec![
                    Param {
                        name: Name(atom("a")),
                        value: Text(atom("\"233\""))
                    },
                    Param {
                        name: Name(atom("b")),
                        value: Text(atom("\"tanaka\""))
                    },
                ]
            })
    }

#[test]
fn test_parse_command_tf() {
        ok(".TF V(10) VIN", |p| p.try_parse(), TfCommand {
                output: OutputVariable::Voltage(VoltageVariable::Node {
                    node: ExplicitNode(Node(atom("10"))),
                    suffix: Suffix::Bare
                }),
                input: Name(atom("VIN")),
            });
    }

#[test]
fn test_parse_command_tran() {
        ok(".TRAN 5 10 200 0.1 UIC", |p| p.try_parse(), TranCommand {
                op: false,
                tstep: num(5.0, false, "5", None),
                tstop: num(10.0, false, "10", None),
                tstart: Some(num(200.0, false, "200", None)),
                tmax: Some(num(0.1, false, "0.1", None)),
                params: TranCommandParams {
                    uic: true,
                    skipbp: false
                },
            })
    }

#[test]
fn test_parse_command_watch() {
        ok(".WATCH DC V([RESET]) (2.5V,10V)", |p| p.try_parse(), WatchCommand {
                source: ProbeSource::Dc,
                variables: vec![PrintVariable {
                    variable: OutputVariable::Voltage(VoltageVariable::Node {
                        node: ExplicitNode(Node(atom("RESET"))),
                        suffix: Suffix::Bare
                    }),
                    limits: Some(Limits {
                        lower: num(2.5, false, "2.5", None),
                        upper: num(10.0, false, "10", None)
                    }),
                }]
            })
    }

#[test]
fn test_parse_command_width() {
        ok(".WIDTH OUT=114", |p| p.try_parse(), WidthCommand {
                width: num(114.0, false, "114", None)
            })
    }
