use spice_parser_core::ast::{Atom, ExplicitNode, Name, Node, Param};
use spice_parser_core::ast::component::{BComponent, CComponent, CComponentParams, CComponentPartial, Component, DComponent, EComponent, FComponent, GComponent, HComponent, IComponent, JComponent, JComponentPartial, KComponent, LComponent, LComponentParams, MComponent, MComponentParams, QComponent, RComponent, RComponentParams, SComponent, VComponent, WComponent, XComponent, ZComponent, ZComponentParams};
use spice_parser_core::ast::expression::{Literal, Number, Text};
use spice_parser_core::ast::gain::{CurrentGain, PolyCurrentGain, PolyVoltageGain, SimpleCurrentGain, SimpleVoltageGain, VoltageGain};
use spice_parser_core::ast::transient::{AcSource, DcSource, Sin, Transient};
use spice_parser_core::parse::{PartialParse, SpiceLineParser, TryParse};
use spice_parser_core::value::Suffix as Scale;

fn atom(text: &str) -> Atom {
    Atom::new(text, (0, 0), 0)
}

fn factor(suffix: Option<Scale>) -> f64 {
    match suffix {
        Some(Scale::Tera) => 1e12,
        Some(Scale::Giga) => 1e9,
        Some(Scale::Mega) => 1e6,
        Some(Scale::Kilo) => 1e3,
        Some(Scale::Mil) => 25.4e-6,
        Some(Scale::Milli) => 1e-3,
        Some(Scale::Micro) => 1e-6,
        Some(Scale::Nano) => 1e-9,
        Some(Scale::Pico) => 1e-12,
        Some(Scale::Femto) => 1e-15,
        Some(Scale::Atto) => 1e-18,
        None => 1.0,
    }
}

/// The literal written as `number` and `suffix`, whose value is `value`.
fn lit(value: f64, negative: bool, number: &str, suffix: Option<Scale>) -> Literal {
    let written: f64 = number.parse().unwrap();
    let scaled = match suffix {
        Some(_) => written * factor(suffix),
        None => written,
    };
    assert_eq!(if negative { -scaled } else { scaled }, value);
    Literal { negative, number: number.to_string(), suffix }
}

#[allow(dead_code)]
fn num(value: f64, negative: bool, number: &str, suffix: Option<Scale>) -> Number {
    Number::Literal(lit(value, negative, number, suffix))
}

#[test]
fn test_parse_component_b() {
        let tokens = vec![
            atom("B2"),
            atom("1"),
            atom("2"),
            atom("3"),
            atom("BBSS"),
            atom("114.514"),
        ];
        let mut parser = SpiceLineParser::new(&tokens);
        assert_eq!(
            parser.try_parse(),
            Ok(Component::B(BComponent {
                name: Name(atom("B2")),
                drain: Node(atom("1")),
                gate: Node(atom("2")),
                source: Node(atom("3")),
                model: Name(atom("BBSS")),
                area: Some(num(114.514, false, "114.514", None)),
            }))
        );
        assert!(parser.is_eof());
    }

#[test]
fn test_partparse_component_b() {
        let tokens = vec![atom("B2")];
        let mut parser = SpiceLineParser::new(&tokens);
        let partial: CComponentPartial = parser.try_partial().unwrap();
        assert_eq!(partial.name, Some(Name(atom("B2"))));
    }

#[test]
fn test_parse_component_c() {
        let tokens = vec![
            atom("C1"),
            atom("1"),
            atom("2"),
            atom("1.0"),
        ];
        let mut parser = SpiceLineParser::new(&tokens);
        assert_eq!(
            parser.try_parse(),
            Ok(Component::C(CComponent {
                name: Name(atom("C1")),
                node1: Node(atom("1")),
                node2: Node(atom("2")),
                model: None,
                value: num(1.0, false, "1.0", None),
                params: CComponentParams { ic: None },
            }))
        );
        assert!(parser.is_eof());

        let tokens = vec![
            atom("C9"),
            atom("1"),
            atom("2"),
            atom("COC"),
            atom("1.0"),
            atom("IC"),
            atom("="),
            atom("2.0"),
        ];
        let mut parser = SpiceLineParser::new(&tokens);
        let a = parser.try_parse();
        assert_eq!(
            a,
            Ok(Component::C(CComponent {
                name: Name(atom("C9")),
                node1: Node(atom("1")),
                node2: Node(atom("2")),
                model: Some(Name(atom("COC"))),
                value: num(1.0, false, "1.0", None),
                params: CComponentParams {
                    ic: Some(num(2.0, false, "2.0", None))
                },
            }))
        );
        assert!(parser.is_eof());
        println!("{:#?}",a);
    }

#[test]
fn test_parse_component_d() {
        let tokens = vec![
            atom("D3"),
            atom("1"),
            atom("2"),
            atom("DBUS"),
            atom("114.514"),
        ];
        let mut parser = SpiceLineParser::new(&tokens);
        assert_eq!(
            parser.try_parse(),
            Ok(Component::D(DComponent {
                name: Name(atom("D3")),
                node1: Node(atom("1")),
                node2: Node(atom("2")),
                model: Name(atom("DBUS")),
                area: Some(num(114.514, false, "114.514", None)),
            }))
        );
        assert!(parser.is_eof());
    }

#[test]
fn test_parse_component_e() {
        let tokens = vec![
            atom("E1"),
            atom("1"),
            atom("2"),
            atom("5"),
            atom("9"),
            atom("10"),
        ];
        let mut parser = SpiceLineParser::new(&tokens);
        assert_eq!(
            parser.try_parse(),
            Ok(Component::E(EComponent {
                name: Name(atom("E1")),
                node1: Node(atom("1")),
                node2: Node(atom("2")),
                gain: VoltageGain::Simple(SimpleVoltageGain {
                    node1: Node(atom("5")),
                    node2: Node(atom("9")),
                    gain: num(10.0, false, "10", None),
                }),
            }))
        );
        assert!(parser.is_eof());
    }

#[test]
fn test_parse_component_f() {
        let tokens = vec![
            atom("F1"),
            atom("1"),
            atom("2"),
            atom("V1"),
            atom("10"),
        ];
        let mut parser = SpiceLineParser::new(&tokens);
        assert_eq!(
            parser.try_parse(),
            Ok(Component::F(FComponent {
                name: Name(atom("F1")),
                node1: Node(atom("1")),
                node2: Node(atom("2")),
                gain: CurrentGain::Simple(SimpleCurrentGain {
                    vdevice: Name(atom("V1")),
                    gain: num(10.0, false, "10", None),
                }),
            }))
        );
        assert!(parser.is_eof());
    }

#[test]
fn test_parse_component_g() {
        let tokens = vec![
            atom("G1"),
            atom("1"),
            atom("2"),
            atom("POLY"),
            atom("("),
            atom("1"),
            atom(")"),
            atom("3"),
            atom("4"),
            atom("5"),
        ];
        let mut parser = SpiceLineParser::new(&tokens);
        assert_eq!(
            parser.try_parse(),
            Ok(Component::G(GComponent {
                name: Name(atom("G1")),
                node1: Node(atom("1")),
                node2: Node(atom("2")),
                gain: VoltageGain::Poly(PolyVoltageGain {
                    n: 1,
                    nodes: vec![(Node(atom("3")), Node(atom("4")))],
                    coefficients: vec![num(5.0, false, "5", None)],
                }),
            }))
        );
        assert!(parser.is_eof());
    }

#[test]
fn test_parse_component_h() {
        let tokens = vec![
            atom("H1"),
            atom("1"),
            atom("2"),
            atom("POLY"),
            atom("("),
            atom("1"),
            atom(")"),
            atom("V2"),
            atom("4"),
            atom("5"),
        ];
        let mut parser = SpiceLineParser::new(&tokens);
        assert_eq!(
            parser.try_parse(),
            Ok(Component::H(HComponent {
                name: Name(atom("H1")),
                node1: Node(atom("1")),
                node2: Node(atom("2")),
                gain: CurrentGain::Poly(PolyCurrentGain {
                    n: 1,
                    vdevices: vec![Name(atom("V2"))],
                    coefficients: vec![num(4.0, false, "4", None), num(5.0, false, "5", None)],
                }),
            }))
        );
        assert!(parser.is_eof());
    }

#[test]
fn test_parse_component_i() {
        let tokens = vec![
            atom("I1"),
            atom("1"),
            atom("2"),
            atom("DC"),
            atom("114514"),
        ];
        let mut parser = SpiceLineParser::new(&tokens);
        assert_eq!(
            parser.try_parse(),
            Ok(Component::I(IComponent {
                name: Name(atom("I1")),
                node1: Node(atom("1")),
                node2: Node(atom("2")),
                dc: Some(DcSource {
                    dc: true,
                    value: num(114514.0, false, "114514", None)
                }),
                ac: None,
                transient: None,
            }))
        );
        assert!(parser.is_eof());

        let tokens = vec![
            atom("I9"),
            atom("1"),
            atom("3"),
            atom("DC"),
            atom("114514"),
            atom("AC"),
            atom("1919"),
            atom("810"),
            atom("SIN"),
            atom("("),
            atom("1"),
            atom("1"),
            atom("4"),
            atom(")"),
        ];
        let mut parser = SpiceLineParser::new(&tokens);
        assert_eq!(
            parser.try_parse(),
            Ok(Component::I(IComponent {
                name: Name(atom("I9")),
                node1: Node(atom("1")),
                node2: Node(atom("3")),
                dc: Some(DcSource {
                    dc: true,
                    value: num(114514.0, false, "114514", None)
                }),
                ac: Some(AcSource {
                    magnitude: num(1919.0, false, "1919", None),
                    phase: Some(num(810.0, false, "810", None)),
                }),
                transient: Some(Transient::Sin(Sin {
                    v0: num(1.0, false, "1", None),
                    vampl: num(1.0, false, "1", None),
                    freq: Some(num(4.0, false, "4", None)),
                    td: None,
                    alpha: None,
                    theta: None,
                })),
            }))
        );
        assert!(parser.is_eof());
    }

#[test]
fn test_parse_component_j() {
        let tokens = vec![
            atom("J3"),
            atom("1"),
            atom("2"),
            atom("3"),
            atom("JetBrains"),
            atom("114.514"),
        ];
        let mut parser = SpiceLineParser::new(&tokens);
        assert_eq!(
            parser.try_parse(),
            Ok(Component::J(JComponent {
                name: Name(atom("J3")),
                drain: Node(atom("1")),
                gate: Node(atom("2")),
                source: Node(atom("3")),
                model: Name(atom("JetBrains")),
                area: Some(num(114.514, false, "114.514", None)),
            }))
        );
        assert!(parser.is_eof());
    }

#[test]
fn test_partparse_component_j() {
        let tokens = vec![atom("JON"), atom("2"), atom("21")];
        let mut parser = SpiceLineParser::new(&tokens);
        let partial: JComponentPartial = parser.try_partial().unwrap();
        assert_eq!(partial.name, Some(Name(atom("JON"))));
        println!("{:#?}", partial);
    }

#[test]
fn test_parse_component_k() {
        let tokens = vec![
            atom("K3"),
            atom("I3"),
            atom("I9"),
            atom("3"),
            atom("KOP"),
        ];
        let mut parser = SpiceLineParser::new(&tokens);
        assert_eq!(
            parser.try_parse(),
            Ok(Component::K(KComponent {
                name: Name(atom("K3")),
                inducts: vec![Name(atom("I3")), Name(atom("I9"))],
                k: num(3.0, false, "3", None),
                model: Some((Name(atom("KOP")), None)),
            }))
        );
        assert!(parser.is_eof());
    }

#[test]
fn test_parse_component_l() {
        let tokens = vec![
            atom("L1"),
            atom("1"),
            atom("2"),
            atom("1.0"),
        ];
        let mut parser = SpiceLineParser::new(&tokens);
        assert_eq!(
            parser.try_parse(),
            Ok(Component::L(LComponent {
                name: Name(atom("L1")),
                node1: Node(atom("1")),
                node2: Node(atom("2")),
                model: None,
                value: num(1.0, false, "1.0", None),
                params: LComponentParams { ic: None }
            }))
        );
        assert!(parser.is_eof());

        let tokens = vec![
            atom("L9"),
            atom("1"),
            atom("2"),
            atom("LOC"),
            atom("1.0"),
            atom("IC"),
            atom("="),
            atom("2.0"),
        ];
        let mut parser = SpiceLineParser::new(&tokens);
        assert_eq!(
            parser.try_parse(),
            Ok(Component::L(LComponent {
                name: Name(atom("L9")),
                node1: Node(atom("1")),
                node2: Node(atom("2")),
                model: Some(Name(atom("LOC"))),
                value: num(1.0, false, "1.0", None),
                params: LComponentParams {
                    ic: Some(num(2.0, false, "2.0", None)),
                }
            }))
        );
        assert!(parser.is_eof());
    }

#[test]
fn test_parse_component_m() {
        let tokens = vec![
            atom("M3"),
            atom("2"),
            atom("3"),
            atom("5"),
            atom("0"),
            atom("MMM"),
        ];
        let mut parser = SpiceLineParser::new(&tokens);
        assert_eq!(
            parser.try_parse(),
            Ok(Component::M(MComponent {
                name: Name(atom("M3")),
                drain: Node(atom("2")),
                gate: Node(atom("3")),
                source: Node(atom("5")),
                bulk: Node(atom("0")),
                model: Name(atom("MMM")),
                params: MComponentParams {
                    l: None,
                    w: None,
                    ad: None,
                    as_: None,
                    pd: None,
                    ps: None,
                    nrd: None,
                    nrs: None,
                    nrg: None,
                    nrb: None,
                    m: None,
                    n: None,
                }
            }))
        );
        assert!(parser.is_eof());
    }

#[test]
fn test_parse_component_q() {
        let tokens = "Q7 VC 5 12 [ SUB ] LATPNP"
            .split_ascii_whitespace()
            .map(|x| atom(x))
            .collect();
        let mut parser = SpiceLineParser::new(&tokens);
        assert_eq!(
            parser.try_parse(),
            Ok(Component::Q(QComponent {
                name: Name(atom("Q7")),
                collector: Node(atom("VC")),
                base: Node(atom("5")),
                emitter: Node(atom("12")),
                substrate: Some(ExplicitNode(Node(atom("SUB")))),
                model: Name(atom("LATPNP")),
                area: None,
            }))
        );
        assert!(parser.is_eof());
    }

#[test]
fn test_parse_component_r() {
        let tokens = vec![
            atom("R1"),
            atom("1"),
            atom("2"),
            atom("1.0M"),
        ];
        let mut parser = SpiceLineParser::new(&tokens);
        assert_eq!(
            parser.try_parse(),
            Ok(Component::R(RComponent {
                name: Name(atom("R1")),
                node1: Node(atom("1")),
                node2: Node(atom("2")),
                model: None,
                value: num(1e-3, false, "1.0", Some(Scale::Milli)),
                params: RComponentParams { tc: None }
            }))
        );
        assert!(parser.is_eof());

        let tokens = vec![
            atom("R2"),
            atom("1"),
            atom("2"),
            atom("ROC"),
            atom("1.0"),
        ];
        let mut parser = SpiceLineParser::new(&tokens);
        assert_eq!(
            parser.try_parse(),
            Ok(Component::R(RComponent {
                name: Name(atom("R2")),
                node1: Node(atom("1")),
                node2: Node(atom("2")),
                model: Some(Name(atom("ROC"))),
                value: num(1.0, false, "1.0", None),
                params: RComponentParams { tc: None }
            }))
        );
        assert!(parser.is_eof());
    }

#[test]
fn test_partparse_component_r() {
        let tokens = vec![atom("R1"), atom("1"), atom("2")];
        let mut parser = SpiceLineParser::new(&tokens);
        let partial: CComponentPartial = parser.try_partial().unwrap();
        println!("{}\n\n{:#?}", "R1 1 2", partial);
        assert_eq!(partial.name, Some(Name(atom("R1"))));
    }

#[test]
fn test_info_component_r() {
        let tokens = vec![atom("R1"), atom("1"), atom("2")];
        let mut parser = SpiceLineParser::new(&tokens);
        let (partial, tokens): (CComponentPartial,_) = parser.info().unwrap();
        println!("{:#?} {:#?}",partial, tokens);
    }

#[test]
fn test_parse_component_s() {
        let tokens = vec![
            atom("S3"),
            atom("1"),
            atom("2"),
            atom("3"),
            atom("4"),
            atom("SOP"),
        ];
        let mut parser = SpiceLineParser::new(&tokens);
        assert_eq!(
            parser.try_parse(),
            Ok(Component::S(SComponent {
                name: Name(atom("S3")),
                snode1: Node(atom("1")),
                snode2: Node(atom("2")),
                cnode1: Node(atom("3")),
                cnode2: Node(atom("4")),
                model: Name(atom("SOP")),
            }))
        );
        assert!(parser.is_eof());
    }

#[test]
fn test_parse_component_v() {
        let tokens = vec![
            atom("V1"),
            atom("1"),
            atom("2"),
            atom("DC"),
            atom("1.0"),
        ];
        let mut parser = SpiceLineParser::new(&tokens);
        assert_eq!(
            parser.try_parse(),
            Ok(Component::V(VComponent {
                name: Name(atom("V1")),
                node1: Node(atom("1")),
                node2: Node(atom("2")),
                dc: Some(DcSource {
                    dc: true,
                    value: num(1.0, false, "1.0", None)
                }),
                ac: None,
                transient: None,
            }))
        );
        assert!(parser.is_eof());

        let tokens = vec![
            atom("V9"),
            atom("1"),
            atom("3"),
            atom("DC"),
            atom("1.0"),
            atom("AC"),
            atom("2.0"),
            atom("3.0"),
            atom("SIN"),
            atom("("),
            atom("1"),
            atom("2"),
            atom("4"),
            atom(")"),
        ];
        let mut parser = SpiceLineParser::new(&tokens);
        assert_eq!(
            parser.try_parse(),
            Ok(Component::V(VComponent {
                name: Name(atom("V9")),
                node1: Node(atom("1")),
                node2: Node(atom("3")),
                dc: Some(DcSource {
                    dc: true,
                    value: num(1.0, false, "1.0", None)
                }),
                ac: Some(AcSource {
                    magnitude: num(2.0, false, "2.0", None),
                    phase: Some(num(3.0, false, "3.0", None)),
                }),
                transient: Some(Transient::Sin(Sin {
                    v0: num(1.0, false, "1", None),
                    vampl: num(2.0, false, "2", None),
                    freq: Some(num(4.0, false, "4", None)),
                    td: None,
                    alpha: None,
                    theta: None,
                })),
            }))
        );
        assert!(parser.is_eof());
    }

#[test]
fn test_parse_component_w() {
        let tokens = vec![
            atom("W1"),
            atom("1"),
            atom("2"),
            atom("V22"),
            atom("WOP"),
        ];
        let mut parser = SpiceLineParser::new(&tokens);
        assert_eq!(
            parser.try_parse(),
            Ok(Component::W(WComponent {
                name: Name(atom("W1")),
                snode1: Node(atom("1")),
                snode2: Node(atom("2")),
                vdevice: Name(atom("V22")),
                model: Name(atom("WOP")),
            }))
        );
        assert!(parser.is_eof());
    }

#[test]
fn test_parse_component_x_1() {
        let tokens = vec![
            atom("X1"),
            atom("1"),
            atom("2"),
            atom("3"),
            atom("4"),
            atom("5"),
            atom("6"),
            atom("7"),
            atom("8"),
            atom("9"),
            atom("10"),
            atom("JOHN"),
        ];
        let mut parser = SpiceLineParser::new(&tokens);
        assert_eq!(
            parser.try_parse(),
            Ok(Component::X(XComponent {
                name: Name(atom("X1")),
                pins: vec![
                    Node(atom("1")),
                    Node(atom("2")),
                    Node(atom("3")),
                    Node(atom("4")),
                    Node(atom("5")),
                    Node(atom("6")),
                    Node(atom("7")),
                    Node(atom("8")),
                    Node(atom("9")),
                    Node(atom("10")),
                ],
                sname: Name(atom("JOHN")),
                params: vec![],
                texts: vec![],
            }))
        );
        assert!(parser.is_eof());
    }

#[test]
fn test_parse_component_x_2() {
        let tokens = vec![
            atom("X1"),
            atom("1"),
            atom("2"),
            atom("3"),
            atom("4"),
            atom("5"),
            atom("6"),
            atom("7"),
            atom("8"),
            atom("9"),
            atom("10"),
            atom("MICAH"),
            atom("PARAM"),
            atom(":"),
            atom("V1"),
            atom("="),
            atom("2.30"),
            atom("V3"),
            atom("="),
            atom("4.2"),
            atom("TEXT"),
            atom(":"),
            atom("name"),
            atom("="),
            atom("\"Marston\""),
        ];
        let mut parser = SpiceLineParser::new(&tokens);
        assert_eq!(
            parser.try_parse(),
            Ok(Component::X(XComponent {
                name: Name(atom("X1")),
                pins: vec![
                    Node(atom("1")),
                    Node(atom("2")),
                    Node(atom("3")),
                    Node(atom("4")),
                    Node(atom("5")),
                    Node(atom("6")),
                    Node(atom("7")),
                    Node(atom("8")),
                    Node(atom("9")),
                    Node(atom("10")),
                ],
                sname: Name(atom("MICAH")),
                params: vec![
                    Param {
                        name: Name(atom("V1")),
                        value: num(2.30, false, "2.30", None),
                    },
                    Param {
                        name: Name(atom("V3")),
                        value: num(4.2, false, "4.2", None),
                    },
                ],
                texts: vec![Param {
                    name: Name(atom("name")),
                    value: Text(atom("\"Marston\"")),
                }],
            }))
        );
        assert!(parser.is_eof());
    }

#[test]
fn test_parse_component_z() {
        let tokens = "ZDRIVE 1 4 2 IGBTA AREA = 10.1u WB = 9u AGD = 4.0u KP = 0.381"
            .split_ascii_whitespace()
            .map(|x| atom(x))
            .collect();
        let mut parser = SpiceLineParser::new(&tokens);
        assert_eq!(
            parser.try_parse(),
            Ok(Component::Z(ZComponent {
                name: Name(atom("ZDRIVE")),
                collector: Node(atom("1")),
                gate: Node(atom("4")),
                emitter: Node(atom("2")),
                model: Name(atom("IGBTA")),
                params: ZComponentParams {
                    area: Some(num(10.1e-6, false, "10.1", Some(Scale::Micro))),
                    wb: Some(num(9e-6, false, "9", Some(Scale::Micro))),
                    agd: Some(num(4e-6, false, "4.0", Some(Scale::Micro))),
                    kp: Some(num(0.381, false, "0.381", None)),
                    tau: None,
                }
            }))
        );
        assert!(parser.is_eof());
    }
