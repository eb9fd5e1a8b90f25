use spice_parser_core::ast::command::{Command, Instruction, Program};
use spice_parser_core::ast::component::Component;
use spice_parser_core::grammar::{inclusion, Expansion, Inclusion, PSpice, Request};
use spice_parser_core::parse::ParseError;
use spice_parser_core::try_parse_program;

fn error(reason: &str) -> ParseError {
    ParseError { reason: reason.to_string(), position: None }
}

#[test]
fn a_circuit_is_its_components_and_commands() {
    let circuit = PSpice::try_parse_from_stdin(
        "RCL\nR1 N2 N3 10.0\n.TRAN 0.1M 10M\nL1 N2 N1 10.0E-3\n.SUBCKT x\nC1 1 2 3\n.ENDS\n.END\n",
    )
    .unwrap();
    assert_eq!(circuit.components.len(), 2);
    assert!(matches!(circuit.components[0], Component::R(_)));
    assert!(matches!(circuit.components[1], Component::L(_)));
    assert_eq!(circuit.commands.len(), 3);
    assert!(matches!(circuit.commands[0], Command::Tran(_)));
    assert!(matches!(circuit.commands[1], Command::Subckt(_)));
    assert!(matches!(circuit.commands[2], Command::End(_)));
    assert_eq!(circuit.name, "");
    assert!(circuit.nodes.is_empty() && circuit.subckt.is_empty());
}

#[test]
fn a_text_from_no_file_includes_nothing() {
    assert_eq!(
        PSpice::try_parse_from_stdin("R1 1 2 3\n.INC \"SETUP.CIR\"\n").unwrap_err(),
        error("Requested INC SETUP.CIR, but from stdin.")
    );
    assert_eq!(
        PSpice::try_parse_from_stdin(".LIB \"C:\\lib\\bipolar.lib\"\n.INC \"a\"\n").unwrap_err(),
        error("Requested LIB C:\\lib\\bipolar.lib, but from stdin.")
    );
    assert_eq!(
        PSpice::try_parse_from_stdin("R1 1 2 3\n.LIB\n").unwrap_err(),
        error("Requested LIB ?, but from stdin.")
    );
    // An inclusion within a subcircuit stays where it is.
    let circuit = PSpice::try_parse_from_stdin(".SUBCKT x\n.LIB\n.ENDS\n").unwrap();
    assert_eq!(circuit.commands.len(), 1);
    assert_eq!(
        PSpice::try_parse_from_stdin("R1 1\n").unwrap_err(),
        ParseError { reason: "Unexpected EOF".to_string(), position: Some((0, 0)) }
    );
}

#[test]
fn the_file_an_instruction_asks_for() {
    let program = try_parse_program(".INC \"a.cir\"\n.LIB\n.LIB \"b.lib\"\n.OP\nR1 1 2 3\n").unwrap();
    let asked: Vec<Option<Inclusion>> = program.instructions.iter().map(inclusion).collect();
    assert_eq!(
        asked,
        vec![
            Some(Inclusion::File("a.cir".to_string())),
            Some(Inclusion::Library(None)),
            Some(Inclusion::Library(Some("b.lib".to_string()))),
            None,
            None,
        ]
    );
    assert!(matches!(program.instructions[3], Instruction::Command(Command::Op(_))));
}

/// Expands `root` over files that are held as pairs of a name and a text.
/// An inclusion is looked up under its own name, a library without a name
/// under the name of the including file and `.lib`.
fn expand(files: &[(&str, &str)], root: &str) -> Result<Program, ParseError> {
    let text = |name: &str| files.iter().find(|f| f.0 == name).expect("a file of that name").1;
    let mut expansion = Expansion::new();
    expansion.enter(root, text(root))?;
    loop {
        match expansion.advance() {
            Request::Read { from, asked } => {
                let name = match asked {
                    Inclusion::File(name) => name,
                    Inclusion::Library(Some(name)) => name,
                    Inclusion::Library(None) => format!("{from}.lib"),
                };
                expansion.enter(&name, text(&name))?
            },
            Request::Finished => {
                assert!(expansion.open.is_empty());
                return Ok(expansion.finish());
            },
        }
    }
}

fn names(program: &Program) -> Vec<String> {
    program
        .instructions
        .iter()
        .map(|i| match i {
            Instruction::Component(c) => c.name().0.raw.clone(),
            Instruction::Command(Command::Op(_)) => ".OP".to_string(),
            Instruction::Command(Command::End(_)) => ".END".to_string(),
            Instruction::Command(_) => "?".to_string(),
        })
        .collect()
}

#[test]
fn included_instructions_stand_in_the_place_of_the_inclusion() {
    let files = [
        ("main", "Main\nR1 1 2 3\n.INC \"a\"\nR2 1 2 3\n.LIB\n.LIB \"b\"\n.END\n"),
        ("a", "A\nC1 1 2 3\n.INC \"b\"\nC2 1 2 3\n"),
        ("b", "B\nL1 1 2 3\n.OP\n"),
        ("main.lib", "* nothing but a comment\n"),
    ];
    let program = expand(&files, "main").unwrap();
    assert_eq!(names(&program), ["R1", "C1", "L1", ".OP", "C2", "R2", "L1", ".OP", ".END"]);
    assert_eq!(program.name.unwrap().0.raw, "Main");
}

#[test]
fn a_program_without_inclusions_expands_to_itself() {
    let text = "Title\nR1 1 2 3\n.SUBCKT x\n.INC \"inner\"\n.ENDS\n.OP\n";
    let program = expand(&[("main", text)], "main").unwrap();
    assert_eq!(program, try_parse_program(text).unwrap());
    let empty = expand(&[("main", "")], "main").unwrap();
    assert_eq!(empty, Program { name: None, instructions: vec![] });
}

#[test]
fn a_file_on_the_inclusion_path_is_rejected() {
    let me = [("main", "Main\nR1 1 2 3\n.INC \"main\"\n")];
    assert_eq!(expand(&me, "main"), Err(error("Recursive include detected: main")));
    let round = [
        ("main", "Main\n.INC \"a\"\n"),
        ("a", "A\n.LIB \"b\"\n"),
        ("b", "B\nR1 1 2 3\n.INC \"a\""),
    ];
    assert_eq!(expand(&round, "main"), Err(error("Recursive include detected: a")));
    assert_eq!(expand(&round, "b"), Err(error("Recursive include detected: b")));
}

#[test]
fn a_rejected_file_leaves_the_expansion_as_it_was() {
    let mut expansion = Expansion::new();
    assert_eq!(expansion.enter("main", "Main\nR1 1 2 3\n.INC \"a\"\nR2 1 2 3\n"), Ok(()));
    assert!(expansion.is_open("main") && !expansion.is_open("a") && !expansion.is_open("Main"));
    assert_eq!(
        expansion.advance(),
        Request::Read { from: "main".to_string(), asked: Inclusion::File("a".to_string()) }
    );
    let before = expansion.clone();
    assert_eq!(
        expansion.enter("a", "A\nR1 1\n"),
        Err(ParseError { reason: "Unexpected EOF".to_string(), position: Some((1, 0)) })
    );
    assert_eq!(expansion, before);
    assert_eq!(expansion.enter("main", "R1 1 2 3\n"), Err(error("Recursive include detected: main")));
    assert_eq!(expansion, before);
    assert_eq!(expansion.enter("a", "A\nC1 1 2 3\n"), Ok(()));
    assert_eq!(expansion.advance(), Request::Finished);
    assert_eq!(names(&expansion.finish()), ["R1", "C1", "R2"]);
}

#[test]
fn an_expanded_program_has_a_circuit() {
    let files = [("main", "Main\nR1 1 2 3\n.INC \"a\"\n.OP\n"), ("a", "A\nC1 1 2 3\n.LIB\n"), ("a.lib", "")];
    let circuit = PSpice::from_program(expand(&files, "main").unwrap()).unwrap();
    assert_eq!(circuit.components.len(), 2);
    assert_eq!(circuit.commands.len(), 1);
}
