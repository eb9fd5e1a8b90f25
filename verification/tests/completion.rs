use spice_parser_core::ast::component::ComponentPartial;
use spice_parser_core::completion::{
    generate_completions_from_partial, generate_component_completions, generate_snippet,
    suggestions, Suggestion,
};
use spice_parser_core::lexer::SpiceLexer;
use spice_parser_core::parse::{PartialParse, SpiceLineParser};

fn partial(line: &str) -> ComponentPartial {
    let tokens = SpiceLexer::tokenize(line);
    let mut parser = SpiceLineParser::new(&tokens[0]);
    parser.try_partial().unwrap()
}

fn names(items: &[&str]) -> Vec<String> {
    items.iter().map(|s| s.to_string()).collect()
}

#[test]
fn names_for_a_line_that_has_begun() {
    assert_eq!(generate_component_completions("R"), names(&["R1", "R2", "R3"]));
    assert_eq!(generate_component_completions("C1"), names(&["C1", "C2", "C3"]));
    assert_eq!(generate_component_completions("L"), names(&["L1", "L2", "L3"]));
    assert_eq!(generate_component_completions(""), names(&["R", "C", "L", "V", "I"]));
    assert_eq!(generate_component_completions("r"), names(&["R", "C", "L", "V", "I"]));
    assert_eq!(generate_component_completions("V1"), names(&["R", "C", "L", "V", "I"]));
}

#[test]
fn offers_for_a_resistor() {
    let none = Vec::new();
    let r = partial("R1 1");
    assert!(generate_completions_from_partial(&r, 0, &none).is_empty());
    assert!(generate_completions_from_partial(&r, 4, &none).is_empty());
    assert_eq!(generate_completions_from_partial(&r, 6, &none), names(&["1", "IN", "VCC"]));
    assert_eq!(generate_completions_from_partial(&r, 8, &names(&["a", "b"])), names(&["a", "b"]));
    assert_eq!(generate_completions_from_partial(&r, 9, &none), names(&["1k", "10k", "100"]));
    let r = partial("R1 1 2 10k");
    assert!(generate_completions_from_partial(&r, 7, &none).is_empty());
    assert!(generate_completions_from_partial(&r, 20, &none).is_empty());
}

#[test]
fn offers_for_a_capacitor_and_an_inductor() {
    let none = Vec::new();
    let c = partial("C1");
    assert_eq!(generate_completions_from_partial(&c, 3, &none), names(&["n1", "n2", "n3"]));
    assert_eq!(generate_completions_from_partial(&c, 12, &none), names(&["1uF", "10uF"]));
    let l = partial("L1 1 2");
    assert_eq!(
        generate_completions_from_partial(&l, 9, &none),
        names(&["LMOD", "LMODEL", "1uH", "10uH", "100nH", "1mH"])
    );
    assert_eq!(generate_completions_from_partial(&l, 13, &none), names(&["IC=0", "IC=1A"]));
    let l = partial("L1 1 2 LMOD");
    assert_eq!(
        generate_completions_from_partial(&l, 12, &none),
        names(&["1uH", "10uH", "100nH", "1mH"])
    );
    let l = partial("L1 1 2 LMOD 1mH");
    assert!(generate_completions_from_partial(&l, 10, &none).is_empty());
    assert!(generate_completions_from_partial(&l, 14, &none).is_empty());
}

#[test]
fn offers_for_other_components() {
    let none = Vec::new();
    let v = partial("V1 1");
    assert_eq!(generate_completions_from_partial(&v, 1, &none), names(&["R", "C", "L", "V", "I"]));
    assert_eq!(
        generate_completions_from_partial(&v, 2, &names(&["a"])),
        names(&["1", "2", "0", "GND", "VCC", "IN", "OUT"])
    );
    assert_eq!(
        generate_completions_from_partial(&ComponentPartial::Unknown, 0, &none),
        names(&["R", "C", "L", "V", "I"])
    );
}

#[test]
fn templates() {
    let none = Vec::new();
    let (label, snippet) = generate_snippet("R1 ", &none).unwrap();
    assert!(label.starts_with("R "));
    assert!(label.ends_with("R<name> <(+) node> <(-) node> [model name] <value> [TC = <TC1> [,<TC2>]]"));
    assert_eq!(
        snippet,
        "${2|N1,N2,N3|} ${3|N1,N2,N3|} ${5:[model]} ${6:value} ${7:[TC1]} ${8:[TC2]}"
    );
    let (_, snippet) = generate_snippet("E", &names(&["in", "out", "0"])).unwrap();
    assert_eq!(snippet, "${2|in,out,0|} ${3|in,out,0|} ${4:gain value}");
    let (_, snippet) = generate_snippet("Q7", &names(&["vc"])).unwrap();
    assert_eq!(snippet, "${2|vc|} ${3|vc|} ${3|vc|} ");
    let (label, snippet) = generate_snippet("W", &none).unwrap();
    assert!(label.ends_with(
        "W<name> <(+) switch node> <(-) switch node> <controlling V device name> <model name>"
    ));
    assert_eq!(snippet, "${2|N1,N2,N3|} ${3|N1,N2,N3|}  ${4:Vctrl} ${5:model}");
    assert_eq!(generate_snippet("", &none), None);
    assert_eq!(generate_snippet("Z1", &none), None);
    assert_eq!(generate_snippet("r1", &none), None);
    assert_eq!(generate_snippet(".AC", &none), None);
    for letter in "RCLBDEFGHIJKMQSTVWX".chars() {
        assert!(generate_snippet(&letter.to_string(), &none).is_some());
    }
}

fn fields(items: &[&str]) -> Vec<Suggestion> {
    items.iter().map(|s| Suggestion::Field(s.to_string())).collect()
}

fn components(items: &[&str]) -> Vec<Suggestion> {
    items.iter().map(|s| Suggestion::Component(s.to_string())).collect()
}

#[test]
fn what_is_offered_goes_by_the_line_and_the_column() {
    let text = "Title\nR\nR1 \nR1 1\r\nC1 1 2\n";
    let none = Vec::new();
    // A line shorter than three bytes: names of components.
    assert_eq!(suggestions(text, 1, 1, &none), components(&["R1", "R2", "R3"]));
    assert_eq!(suggestions(text, 1, 3, &none), components(&["R1", "R2", "R3"]));
    // Column 3 of a longer line: the template of its component.
    let (label, snippet) = generate_snippet("R1 ", &none).unwrap();
    assert_eq!(suggestions(text, 2, 3, &none), vec![Suggestion::Template(label, snippet)]);
    assert_eq!(generate_snippet("?1 1", &none), None);
    assert_eq!(suggestions("Title\n?1 1", 1, 3, &none), vec![]);
    // Elsewhere: what the field at the cursor may hold.
    assert_eq!(suggestions(text, 3, 6, &none), fields(&["1", "IN", "VCC"]));
    assert_eq!(suggestions(text, 3, 6, &names(&["a", "b"])), fields(&["a", "b"]));
    assert_eq!(suggestions(text, 3, 9, &none), fields(&["1k", "10k", "100"]));
    assert_eq!(suggestions(text, 3, 4, &none), vec![]);
    // A line that is no component as far as it goes is offered nothing.
    assert_eq!(suggestions("R1 1 {", 0, 6, &none), vec![]);
    assert_eq!(suggestions("* a comment", 0, 6, &none), vec![]);
}

#[test]
fn the_last_line_stands_for_the_lines_after_it() {
    let text = "Title\nR1 1\nC1 1 2\n";
    let none = Vec::new();
    assert_eq!(suggestions(text, 2, 9, &none), fields(&["1uF", "10uF"]));
    assert_eq!(suggestions(text, 3, 9, &none), suggestions(text, 2, 9, &none));
    assert_eq!(suggestions(text, 700, 9, &none), suggestions(text, 2, 9, &none));
    assert_eq!(suggestions("R", 5, 0, &none), components(&["R1", "R2", "R3"]));
}

#[test]
fn a_blank_document_is_offered_nothing() {
    let none = Vec::new();
    assert_eq!(suggestions("", 0, 0, &none), vec![]);
    assert_eq!(suggestions(" \n\t\r\n \u{3000}\n", 0, 0, &none), vec![]);
    assert_eq!(suggestions("\n", 0, 0, &none), vec![]);
    // A line of two bytes is short, one of two characters in three bytes is not.
    assert_eq!(suggestions("\nab", 0, 0, &none), components(&["R", "C", "L", "V", "I"]));
    assert_eq!(suggestions("R\u{e9}", 0, 0, &none), vec![]);
}
