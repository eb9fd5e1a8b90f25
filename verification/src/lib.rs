//! Parsing engine for a SPICE-family netlist dialect.
//!
//! A source text is cut into atoms by the [`lexer`], the atoms of a line
//! are read by the rules of the grammar in [`ast`], and the instructions of
//! the lines are assembled into a [`Program`](ast::command::Program) by
//! [`program`]. Every rule is stated as a spec function, and its parser is
//! proved to compute it.
//!
//! [`grammar`] expands the files that a program includes, and [`editor`],
//! [`completion`] and [`symbol`] hold what an editor asks of a document:
//! the range of a rejection, what to offer at the cursor, and the symbols
//! that the document names.

use vstd::prelude::*;

pub mod ast;
pub mod completion;
pub mod editor;
pub mod grammar;
pub mod lexer;
pub mod parse;
pub mod program;
pub mod relex;
pub mod symbol;
pub mod text;
pub mod value;

verus! {

/// Parses a source text into its program.
pub fn try_parse_program(content: &str) -> (r: parse::ParseResult<ast::command::Program>)
    ensures
        parse::outcome_of(r) == program::program_of(lexer::lex(content@)),
{
    let tokens = lexer::SpiceLexer::tokenize(content);
    let mut parser = program::SpiceFileParser::new(&tokens);
    parser.parse()
}

} // verus!
