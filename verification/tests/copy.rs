use spice_parser_core::ast::command::{Command, Instruction};
use spice_parser_core::ast::copy::Duplicate;
use spice_parser_core::ast::expression::Number;
use spice_parser_core::ast::{Atom, Name, Param};
use spice_parser_core::try_parse_program;

const SOURCE: &str = "Title
R1 1 2 10k TC=1,2
.SUBCKT f a b PARAM: x=1
C1 a b {x*2}
.SUBCKT g c
L1 c 0 1m
.ENDS
.ENDS f
V1 1 0 DC 5 AC 1 SIN(0 1 1k)
E1 3 0 POLY(2) 1 0 2 0 0 1 1
.AC LIN 10 1 100
.PRINT DC V(1) I(R1)
.END
";

fn shown<T: std::fmt::Debug>(value: &T) -> String {
    format!("{:?}", value)
}

#[test]
fn a_copy_of_an_instruction_is_the_instruction() {
    let program = try_parse_program(SOURCE).unwrap();
    assert_eq!(program.instructions.len(), 7);
    for instruction in &program.instructions {
        assert_eq!(&instruction.clone(), instruction);
        assert_eq!(shown(&instruction.clone()), shown(instruction));
        match instruction {
            Instruction::Component(component) => {
                assert_eq!(&component.duplicate(), component);
                assert_eq!(shown(&component.duplicate()), shown(component));
            },
            Instruction::Command(command) => {
                assert_eq!(&command.clone(), command);
                assert_eq!(shown(&command.clone()), shown(command));
            },
        }
    }
    assert_eq!(program.clone(), program);
    assert_eq!(shown(&program.clone()), shown(&program));
}

#[test]
fn a_copy_of_a_subcircuit_holds_its_instructions() {
    let program = try_parse_program(SOURCE).unwrap();
    let subckt = match &program.instructions[1] {
        Instruction::Command(Command::Subckt(subckt)) => subckt,
        other => panic!("{:?}", other),
    };
    let copy = subckt.clone();
    assert_eq!(copy.name.0.raw, "f");
    assert_eq!(copy.instructions.len(), 2);
    assert_eq!(shown(&copy), shown(subckt));
    match &copy.instructions[1] {
        Instruction::Command(Command::Subckt(inner)) => {
            assert_eq!(inner.name.0.raw, "g");
            assert_eq!(inner.instructions.len(), 1);
        },
        other => panic!("{:?}", other),
    }
}

#[test]
fn copies_of_lists_options_and_tuples() {
    let name = |text: &str| Name(Atom { raw: text.to_string(), column: (3, 5), line: 7 });
    let names = vec![name("a"), name("b")];
    assert_eq!(shown(&names.duplicate()), shown(&names));
    assert_eq!(Vec::<Name>::new().duplicate(), vec![]);
    let pair = (name("a"), Some(true), 4usize);
    assert_eq!(shown(&pair.duplicate()), shown(&pair));
    let absent: Option<(Name, Name)> = None;
    assert_eq!(absent.duplicate(), None);
    assert_eq!(Some((name("x"), name("y"))).duplicate(), Some((name("x"), name("y"))));
    let program = try_parse_program(".PARAM v=22 d={a+1}\n").unwrap();
    let params: Vec<Param<Number>> = match &program.instructions[0] {
        Instruction::Command(Command::Param(p)) => p.params.duplicate(),
        other => panic!("{:?}", other),
    };
    assert_eq!(params.len(), 2);
    assert_eq!(params[1].name.0.raw, "d");
    assert_eq!(shown(&params[0].duplicate()), shown(&params[0]));
}
