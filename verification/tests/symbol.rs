use spice_parser_core::ast::command::Program;
use spice_parser_core::editor::{Position, Range};
use spice_parser_core::symbol::{OrderedRange, SpiceSymbolKind, Symbol, SymbolTable};
use spice_parser_core::try_parse_program;

fn range(line: u32, start: u32, end: u32) -> Range {
    Range { start: Position::new(line, start), end: Position::new(line, end) }
}

fn key(line: u32, start: u32, end: u32) -> OrderedRange {
    OrderedRange::from(range(line, start, end))
}

fn symbol(name: &str, at: Range, kind: SpiceSymbolKind) -> Symbol {
    Symbol { name: name.to_string(), range: at, kind, container: None, refcnt: 0 }
}

fn table(text: &str) -> SymbolTable {
    SymbolTable::build_from_ast(&try_parse_program(text).unwrap())
}

#[test]
fn a_program_names_its_title_and_its_components() {
    let t = table("RCL\nR1 N2 N3 10.0\n.TRAN 0.1M 10M\nL1 N2 N1 10.0E-3\nC1 N1 0 1u\n");
    assert_eq!(
        t.table,
        vec![
            symbol("RCL", range(0, 0, 3), SpiceSymbolKind::CircuitName),
            symbol("R1", range(1, 0, 2), SpiceSymbolKind::Component),
            symbol("L1", range(3, 0, 2), SpiceSymbolKind::Component),
            symbol("C1", range(4, 0, 2), SpiceSymbolKind::Component),
        ]
    );
    assert_eq!(
        t.range,
        vec![
            (key(0, 0, 3), "RCL".to_string()),
            (key(1, 0, 2), "R1".to_string()),
            (key(3, 0, 2), "L1".to_string()),
            (key(4, 0, 2), "C1".to_string()),
        ]
    );
    assert_eq!(t.get_node_names(), ["N2", "N3", "N1", "0"]);
}

#[test]
fn a_name_that_comes_again_takes_the_place_of_the_first() {
    let t = table("Title\nR1 a b 1\nC1 b c 1\nR1 c d 2\n");
    assert_eq!(
        t.table,
        vec![
            symbol("Title", range(0, 0, 5), SpiceSymbolKind::CircuitName),
            symbol("R1", range(3, 0, 2), SpiceSymbolKind::Component),
            symbol("C1", range(2, 0, 2), SpiceSymbolKind::Component),
        ]
    );
    // Each range keeps the name that was found there.
    assert_eq!(t.range.len(), 4);
    assert_eq!(t.range[1], (key(1, 0, 2), "R1".to_string()));
    assert_eq!(t.range[3], (key(3, 0, 2), "R1".to_string()));
    assert_eq!(t.get_node_names(), ["a", "b", "c", "d"]);
    // The symbol at a place is the one that its name has now.
    assert_eq!(t.symbol_at_position(Position::new(1, 1)), Some(&t.table[1]));
    assert_eq!(t.symbol_at_position(Position::new(1, 1)).unwrap().range, range(3, 0, 2));
}

#[test]
fn the_symbol_at_a_place() {
    let t = table("Main\n  R1 N2 N3 10.0\nC12 N1 0 1u\n");
    assert_eq!(t.symbol_name_at_position(Position::new(0, 0)), Some("Main".to_string()));
    assert_eq!(t.symbol_name_at_position(Position::new(0, 3)), Some("Main".to_string()));
    assert_eq!(t.symbol_name_at_position(Position::new(0, 4)), None);
    assert_eq!(t.symbol_name_at_position(Position::new(1, 1)), None);
    assert_eq!(t.symbol_name_at_position(Position::new(1, 2)), Some("R1".to_string()));
    assert_eq!(t.symbol_name_at_position(Position::new(1, 3)), Some("R1".to_string()));
    assert_eq!(t.symbol_name_at_position(Position::new(1, 4)), None);
    assert_eq!(t.symbol_name_at_position(Position::new(2, 2)), Some("C12".to_string()));
    assert_eq!(t.symbol_name_at_position(Position::new(3, 0)), None);
    assert_eq!(
        t.symbol_at_position(Position::new(2, 0)),
        Some(&symbol("C12", range(2, 0, 3), SpiceSymbolKind::Component))
    );
    assert_eq!(t.symbol_at_position(Position::new(2, 3)), None);
}

#[test]
fn commands_and_the_insides_of_subcircuits_name_nothing() {
    let t = table(".SUBCKT filter in out\nR1 in out 1k\n.ENDS\n.OP\n.END\n");
    assert_eq!(t, SymbolTable::new());
    assert!(t.table.is_empty() && t.range.is_empty() && t.get_node_names().is_empty());
    let empty = SymbolTable::build_from_ast(&Program { name: None, instructions: vec![] });
    assert_eq!(empty, SymbolTable::new());
}

#[test]
fn ranges_go_by_their_start_and_then_by_their_end() {
    let a = key(1, 4, 9);
    assert!(key(0, 9, 9).precedes(&a));
    assert!(key(1, 3, 20).precedes(&a));
    assert!(key(1, 4, 8).precedes(&a));
    assert!(!a.precedes(&a));
    assert!(!key(1, 4, 10).precedes(&a));
    assert!(!key(1, 5, 0).precedes(&a));
    assert!(!key(2, 0, 0).precedes(&a));
    let wide = OrderedRange { start: Position::new(1, 4), end: Position::new(3, 2) };
    assert!(a.precedes(&wide) && !wide.precedes(&a));
    assert!(wide.contains(Position::new(1, 4)) && wide.contains(Position::new(2, 70)));
    assert!(wide.contains(Position::new(3, 1)) && !wide.contains(Position::new(3, 2)));
    assert!(!wide.contains(Position::new(1, 3)) && !a.contains(Position::new(1, 9)));
}
