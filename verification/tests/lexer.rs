use spice_parser_core::ast::{Atom};
use spice_parser_core::lexer::{SpiceLexer, merge_lines};

fn atom(text: &str) -> Atom {
    Atom::new(text, (0, 0), 0)
}

#[test]
fn test_merge_lines_no_merge() {
        let lines = vec![
            vec![atom("a")],
            vec![atom("b")],
            vec![atom("c")],
        ];
        let result: Vec<Vec<Atom>> = merge_lines(lines);

        assert_eq!(
            result,
            vec![
                vec![atom("a")],
                vec![atom("b")],
                vec![atom("c")],
            ]
        );
    }

#[test]
fn test_merge_lines_with_merge() {
        let lines = vec![
            vec![atom("a")],
            vec![atom("+"), atom("b")],
            vec![atom("+"), atom("c")],
            vec![atom("d")],
        ];
        let result: Vec<Vec<Atom>> = merge_lines(lines);

        assert_eq!(
            result,
            vec![
                vec![atom("a"), atom("b"), atom("c")],
                vec![atom("d")],
            ]
        );
    }

#[test]
fn test_merge_lines_multiple_merge_blocks() {
        let lines = vec![
            vec![atom("a")],
            vec![atom("+"), atom("b")],
            vec![atom("c")],
            vec![atom("+"), atom("d")],
            vec![atom("e")],
        ];
        let result: Vec<Vec<Atom>> = merge_lines(lines);

        assert_eq!(
            result,
            vec![
                vec![atom("a"), atom("b")],
                vec![atom("c"), atom("d")],
                vec![atom("e")],
            ]
        );
    }

#[test]
fn test_merge_lines_single_line() {
        let lines = vec![vec![atom("a")]];
        let result: Vec<Vec<Atom>> = merge_lines(lines);

        assert_eq!(result, vec![vec![atom("a")]]);
    }

#[test]
fn test_merge_lines_empty_input() {
        let lines: Vec<Vec<Atom>> = vec![];
        let result: Vec<Vec<Atom>> = merge_lines(lines);

        assert_eq!(result, Vec::<Vec<Atom>>::new());
    }

#[test]
fn test_tokenize_basic_input() {
        let input = String::from("Hello (World), test {example} = 123");
        let expected = vec![vec![
            atom("Hello"),
            atom("("),
            atom("World"),
            atom(")"),
            atom("test"),
            atom("{"),
            atom("example"),
            atom("}"),
            atom("="),
            atom("123"),
        ]];

        let result = SpiceLexer::tokenize(&input);
        assert_eq!(result, expected);
    }

#[test]
fn test_tokenize_only_special_characters() {
        let input = String::from("()=[] {}:");
        let expected = vec![vec![
            atom("("),
            atom(")"),
            atom("="),
            atom("["),
            atom("]"),
            atom("{"),
            atom("}"),
            atom(":"),
        ]];

        let result = SpiceLexer::tokenize(&input);
        assert_eq!(result, expected);
    }

#[test]
fn test_tokenize_empty_string() {
        let input = String::from("");
        let result = SpiceLexer::tokenize(&input);
        assert_eq!(result, Vec::<Vec<Atom>>::new());
    }

#[test]
fn test_tokenize_utf_8() {
        let input = String::from(r#"你好 你所热爱+👍*就是你的生活//🇨🇿"#);
        let result = SpiceLexer::tokenize(&input);
        assert_eq!(
            result,
            vec![vec![
                atom("你好"),
                atom("你所热爱"),
                atom("+"),
                atom("👍"),
                atom("*"),
                atom("就是你的生活"),
                atom("/"),
                atom("/"),
                atom("🇨🇿"),
            ],]
        );
    }

#[test]
fn test_tokenize_no_special_characters() {
        let input = String::from("This is a test string");
        let expected = vec![vec![
            atom("This"),
            atom("is"),
            atom("a"),
            atom("test"),
            atom("string"),
        ]];

        let result = SpiceLexer::tokenize(&input);
        assert_eq!(result, expected);
    }

#[test]
fn test_tokenize_hyphen_and_spaces() {
        let input = String::from("Hello -World, test {example} = 123");
        let expected = vec![vec![
            atom("Hello"),
            atom("-"),
            atom("World"),
            atom("test"),
            atom("{"),
            atom("example"),
            atom("}"),
            atom("="),
            atom("123"),
        ]];

        let result = SpiceLexer::tokenize(&input);
        assert_eq!(result, expected);
    }

#[test]
fn test_tokenize_long_operator() {
        let input = String::from("Hello!=World");
        let expected = vec![vec![
            atom("Hello"),
            atom("!="),
            atom("World"),
        ]];

        let result = SpiceLexer::tokenize(&input);
        assert_eq!(result, expected);
    }

#[test]
fn test_tokenize_long_operator_half() {
        let input = String::from("Hello!");
        let expected = vec![vec![atom("Hello"), atom("!")]];

        let result = SpiceLexer::tokenize(&input);
        assert_eq!(result, expected);
    }

#[test]
fn test_tokenize_long_operator_chaos() {
        let input = String::from("a<<=>>==b");
        let expected = vec![vec![
            atom("a"),
            atom("<"),
            atom("<="),
            atom(">"),
            atom(">="),
            atom("="),
            atom("b"),
        ]];

        let result = SpiceLexer::tokenize(&input);
        assert_eq!(result, expected);
    }

#[test]
fn test_tokenize_smart_split_on_science_numbers() {
        let input = String::from("10e-2 e-4 .3e-4 1.3E-4 1.3e+4 1.3E4 ee+3");
        let expected = vec![vec![
            atom("10e-2"),
            atom("e"),
            atom("-"),
            atom("4"),
            atom(".3e-4"),
            atom("1.3E-4"),
            atom("1.3e+4"),
            atom("1.3E4"),
            atom("ee"),
            atom("+"),
            atom("3"),
        ]];

        let result = SpiceLexer::tokenize(&input);
        assert_eq!(result, expected);
    }

#[test]
fn test_tokenize_quotes() {
        let input = String::from(r#" "233" "114514 1919810" "" "\" "#);
        let expected = vec![vec![
            atom("\"233\""),
            atom("\"114514 1919810\""),
            atom("\"\""),
            atom("\"\\\""),
        ]];

        let result = SpiceLexer::tokenize(&input);
        assert_eq!(result, expected);
    }

#[test]
fn test_tokenize_lines_models_collector() {
        let input = ".subckt Collector SA_HOp SA_HOn TrigenOut TR_HOp TR_HOn PWMp PWMn VCOp VCOn PEAK_p PEAK_n gnd
\
         YSA_HO SA_HO TrigenOut gnd SA_HOp SA_HOn PARAM : FS = 5meg TACQ = 1E-9 DV = 0.05
\
         VCTR CTR gnd DC 3.3
\
         YTR_HO TR_HO TrigenOut gnd TR_HOp TR_HOn CTR PARAM : VTH = 1
\
         YTRIGEN TRIGEN TrigenOut gnd PARAM : rdu = 1.0e-3 tdel = 0.0001 v0 = 1.0
\
         YPWM PWM TrigenOut gnd PWMp PWMn PARAM : PVMAX = 5.0 PVMIN = 1.0
\
         YVCO VCO TrigenOut gnd VCOp VCOn PARAM : V1 = 3.3 VOFF = 0
\
         YPEAK_D PEAK_D TrigenOut gnd PEAK_p PEAK_n CTR PARAM : VTH = 1 SLR = 10 RSLR = 1
\
         YLEV_D LEV_D PWMout gnd LEV_p LEV_n PARAM : V0 = 1 V1 = 5 VRL = 2.4 VRU = 2.6 TR = 1us TF = 1us
\
         Vpwm PWMout gnd AC 0.0 PULSE ( 0.0 5.0 0.0 0.01E-3 0.01E-3 0.1E-3 0.2E-3 )
\
         .ends";
        let expected = vec![
            vec![
                atom(".subckt"),
                atom("Collector"),
                atom("SA_HOp"),
                atom("SA_HOn"),
                atom("TrigenOut"),
                atom("TR_HOp"),
                atom("TR_HOn"),
                atom("PWMp"),
                atom("PWMn"),
                atom("VCOp"),
                atom("VCOn"),
                atom("PEAK_p"),
                atom("PEAK_n"),
                atom("gnd"),
            ],
            vec![
                atom("YSA_HO"),
                atom("SA_HO"),
                atom("TrigenOut"),
                atom("gnd"),
                atom("SA_HOp"),
                atom("SA_HOn"),
                atom("PARAM"),
                atom(":"),
                atom("FS"),
                atom("="),
                atom("5meg"),
                atom("TACQ"),
                atom("="),
                atom("1E-9"),
                atom("DV"),
                atom("="),
                atom("0.05"),
            ],
            vec![
                atom("VCTR"),
                atom("CTR"),
                atom("gnd"),
                atom("DC"),
                atom("3.3"),
            ],
            vec![
                atom("YTR_HO"),
                atom("TR_HO"),
                atom("TrigenOut"),
                atom("gnd"),
                atom("TR_HOp"),
                atom("TR_HOn"),
                atom("CTR"),
                atom("PARAM"),
                atom(":"),
                atom("VTH"),
                atom("="),
                atom("1"),
            ],
            vec![
                atom("YTRIGEN"),
                atom("TRIGEN"),
                atom("TrigenOut"),
                atom("gnd"),
                atom("PARAM"),
                atom(":"),
                atom("rdu"),
                atom("="),
                atom("1.0e-3"),
                atom("tdel"),
                atom("="),
                atom("0.0001"),
                atom("v0"),
                atom("="),
                atom("1.0"),
            ],
            vec![
                atom("YPWM"),
                atom("PWM"),
                atom("TrigenOut"),
                atom("gnd"),
                atom("PWMp"),
                atom("PWMn"),
                atom("PARAM"),
                atom(":"),
                atom("PVMAX"),
                atom("="),
                atom("5.0"),
                atom("PVMIN"),
                atom("="),
                atom("1.0"),
            ],
            vec![
                atom("YVCO"),
                atom("VCO"),
                atom("TrigenOut"),
                atom("gnd"),
                atom("VCOp"),
                atom("VCOn"),
                atom("PARAM"),
                atom(":"),
                atom("V1"),
                atom("="),
                atom("3.3"),
                atom("VOFF"),
                atom("="),
                atom("0"),
            ],
            vec![
                atom("YPEAK_D"),
                atom("PEAK_D"),
                atom("TrigenOut"),
                atom("gnd"),
                atom("PEAK_p"),
                atom("PEAK_n"),
                atom("CTR"),
                atom("PARAM"),
                atom(":"),
                atom("VTH"),
                atom("="),
                atom("1"),
                atom("SLR"),
                atom("="),
                atom("10"),
                atom("RSLR"),
                atom("="),
                atom("1"),
            ],
            vec![
                atom("YLEV_D"),
                atom("LEV_D"),
                atom("PWMout"),
                atom("gnd"),
                atom("LEV_p"),
                atom("LEV_n"),
                atom("PARAM"),
                atom(":"),
                atom("V0"),
                atom("="),
                atom("1"),
                atom("V1"),
                atom("="),
                atom("5"),
                atom("VRL"),
                atom("="),
                atom("2.4"),
                atom("VRU"),
                atom("="),
                atom("2.6"),
                atom("TR"),
                atom("="),
                atom("1us"),
                atom("TF"),
                atom("="),
                atom("1us"),
            ],
            vec![
                atom("Vpwm"),
                atom("PWMout"),
                atom("gnd"),
                atom("AC"),
                atom("0.0"),
                atom("PULSE"),
                atom("("),
                atom("0.0"),
                atom("5.0"),
                atom("0.0"),
                atom("0.01E-3"),
                atom("0.01E-3"),
                atom("0.1E-3"),
                atom("0.2E-3"),
                atom(")"),
            ],
            vec![atom(".ends")],
        ];

        let result = SpiceLexer::tokenize(input);
        assert_eq!(result, expected);
    }

#[test]
fn test_tokenize_lines_models_ctr_sourse() {
        let input = ".option uselastdef
\
         .MODEL 1N4001 D ( IS = 11.4956P RS = 0.114 N = 1.321 CJO = 36.1697P VJ = 0.583 M = 0.464 BV = 50 IBV = 50N )
\
         .model a2d_eldo a2d mode = std_logic
\
         .model d2a_eldo d2a mode = std_logic TRISE = 50e-12 TFALL = 50e-12
\
         .defhook a2d_eldo
\
         .defhook d2a_eldo
\
         V1I251 VIN 0 DC 5.0 AC 0.0 0.0
\
         V1I175 VCTR 0 AC 0.0 SIN ( 1.0 1.0 1.0E3 0.0 0.0 0.0 )
\
         E1I242 VIN VOUT VCTR 0 1.0
\
         G1I266 IIN IOUT VCTR 0 1.0
\
         R1I176 VOUT 0 1.0E3
\
         R1I313 VIN IIN 1.0E3
\
         Dd1 0 IOUT 1N4001
\
         H1I321 VIN VOUT2 Vsin 1.0
\
         Vsin ICTR 0 AC 0.0 SIN ( 0.0 1.0 1.0E3 0.0 0.0 0.0 )
\
         R1I347 VOUT2 0 1.0E3
\
         Rr1 0 ICTR 1.0E3
\
         F1I452 IIN2 IOUT2 Vsin 1.0
\
         Rout IOUT2 0 1.0E3
\
         I1I506 IIN2 N1N492 DC 5.0 AC 1.0
\
         R1I493 IIN2 N1N492 1.0E3";
        let expected = vec![
            vec![atom(".option"), atom("uselastdef")],
            vec![
                atom(".MODEL"),
                atom("1N4001"),
                atom("D"),
                atom("("),
                atom("IS"),
                atom("="),
                atom("11.4956P"),
                atom("RS"),
                atom("="),
                atom("0.114"),
                atom("N"),
                atom("="),
                atom("1.321"),
                atom("CJO"),
                atom("="),
                atom("36.1697P"),
                atom("VJ"),
                atom("="),
                atom("0.583"),
                atom("M"),
                atom("="),
                atom("0.464"),
                atom("BV"),
                atom("="),
                atom("50"),
                atom("IBV"),
                atom("="),
                atom("50N"),
                atom(")"),
            ],
            vec![
                atom(".model"),
                atom("a2d_eldo"),
                atom("a2d"),
                atom("mode"),
                atom("="),
                atom("std_logic"),
            ],
            vec![
                atom(".model"),
                atom("d2a_eldo"),
                atom("d2a"),
                atom("mode"),
                atom("="),
                atom("std_logic"),
                atom("TRISE"),
                atom("="),
                atom("50e-12"),
                atom("TFALL"),
                atom("="),
                atom("50e-12"),
            ],
            vec![atom(".defhook"), atom("a2d_eldo")],
            vec![atom(".defhook"), atom("d2a_eldo")],
            vec![
                atom("V1I251"),
                atom("VIN"),
                atom("0"),
                atom("DC"),
                atom("5.0"),
                atom("AC"),
                atom("0.0"),
                atom("0.0"),
            ],
            vec![
                atom("V1I175"),
                atom("VCTR"),
                atom("0"),
                atom("AC"),
                atom("0.0"),
                atom("SIN"),
                atom("("),
                atom("1.0"),
                atom("1.0"),
                atom("1.0E3"),
                atom("0.0"),
                atom("0.0"),
                atom("0.0"),
                atom(")"),
            ],
            vec![
                atom("E1I242"),
                atom("VIN"),
                atom("VOUT"),
                atom("VCTR"),
                atom("0"),
                atom("1.0"),
            ],
            vec![
                atom("G1I266"),
                atom("IIN"),
                atom("IOUT"),
                atom("VCTR"),
                atom("0"),
                atom("1.0"),
            ],
            vec![
                atom("R1I176"),
                atom("VOUT"),
                atom("0"),
                atom("1.0E3"),
            ],
            vec![
                atom("R1I313"),
                atom("VIN"),
                atom("IIN"),
                atom("1.0E3"),
            ],
            vec![
                atom("Dd1"),
                atom("0"),
                atom("IOUT"),
                atom("1N4001"),
            ],
            vec![
                atom("H1I321"),
                atom("VIN"),
                atom("VOUT2"),
                atom("Vsin"),
                atom("1.0"),
            ],
            vec![
                atom("Vsin"),
                atom("ICTR"),
                atom("0"),
                atom("AC"),
                atom("0.0"),
                atom("SIN"),
                atom("("),
                atom("0.0"),
                atom("1.0"),
                atom("1.0E3"),
                atom("0.0"),
                atom("0.0"),
                atom("0.0"),
                atom(")"),
            ],
            vec![
                atom("R1I347"),
                atom("VOUT2"),
                atom("0"),
                atom("1.0E3"),
            ],
            vec![
                atom("Rr1"),
                atom("0"),
                atom("ICTR"),
                atom("1.0E3"),
            ],
            vec![
                atom("F1I452"),
                atom("IIN2"),
                atom("IOUT2"),
                atom("Vsin"),
                atom("1.0"),
            ],
            vec![
                atom("Rout"),
                atom("IOUT2"),
                atom("0"),
                atom("1.0E3"),
            ],
            vec![
                atom("I1I506"),
                atom("IIN2"),
                atom("N1N492"),
                atom("DC"),
                atom("5.0"),
                atom("AC"),
                atom("1.0"),
            ],
            vec![
                atom("R1I493"),
                atom("IIN2"),
                atom("N1N492"),
                atom("1.0E3"),
            ],
        ];

        let result = SpiceLexer::tokenize(input);
        assert_eq!(result, expected);
    }
