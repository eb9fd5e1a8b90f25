//! Completion: what an editor may offer while a line is typed.
//!
//! A line that has begun is offered names of components; a line of three
//! characters is offered a template of the component that its first letter
//! names; and a component that is typed further is offered what the field
//! at the cursor may hold.

use crate::ast::component::{component_partial_at, ComponentPartial, ComponentPartialView};
use crate::editor::{bytes_of, lemma_bytes_at_least};
use crate::lexer::{lex, lines_of, split_lines, SpiceLexer};
use crate::parse::SpiceLineParser;
use crate::text::{chars_of, is_space, is_white_space, string_of, width_of};
use vstd::prelude::*;

verus! {

/// The texts of a list of strings.
pub open spec fn texts(items: Seq<String>) -> Seq<Seq<char>> {
    items.map_values(|s: String| s@)
}

/// Adds a text to a list.
fn offer(items: &mut Vec<String>, text: &str)
    ensures
        texts(final(items)@) == texts(old(items)@).push(text@),
{
    let ghost before = items@;
    items.push(text.to_owned());
    assert(texts(items@) =~= texts(before).push(text@));
}

/// Adds copies of texts to a list.
fn offer_all(items: &mut Vec<String>, more: &Vec<String>)
    ensures
        texts(final(items)@) == texts(old(items)@) + texts(more@),
{
    let ghost before = texts(items@);
    let mut i: usize = 0;
    assert(texts(more@).subrange(0, 0) =~= Seq::empty());
    assert(before + Seq::<Seq<char>>::empty() =~= before);
    while i < more.len()
        invariant
            i <= more.len(),
            texts(items@) == before + texts(more@).subrange(0, i as int),
        decreases more.len() - i,
    {
        let ghost was = texts(items@);
        offer(items, more[i].as_str());
        i += 1;
        assert(texts(items@) =~= before + texts(more@).subrange(0, i as int));
    }
    assert(texts(more@).subrange(0, i as int) =~= texts(more@));
}

/// The names offered for a line that has just begun: names of resistors,
/// capacitors or inductors after their letter, and the letters of the
/// commonest components otherwise.
pub open spec fn component_names(line: Seq<char>) -> Seq<Seq<char>> {
    if line.len() > 0 && line[0] == 'R' {
        seq!["R1"@, "R2"@, "R3"@]
    } else if line.len() > 0 && line[0] == 'C' {
        seq!["C1"@, "C2"@, "C3"@]
    } else if line.len() > 0 && line[0] == 'L' {
        seq!["L1"@, "L2"@, "L3"@]
    } else {
        seq!["R"@, "C"@, "L"@, "V"@, "I"@]
    }
}

/// The names to offer for a line that has just begun.
pub fn generate_component_completions(line: &str) -> (r: Vec<String>)
    ensures
        texts(r@) == component_names(line@),
{
    let chars = chars_of(line);
    let mut completions: Vec<String> = Vec::new();
    assert(texts(completions@) =~= Seq::empty());
    if chars.len() > 0 && chars[0] == 'R' {
        offer(&mut completions, "R1");
        offer(&mut completions, "R2");
        offer(&mut completions, "R3");
    } else if chars.len() > 0 && chars[0] == 'C' {
        offer(&mut completions, "C1");
        offer(&mut completions, "C2");
        offer(&mut completions, "C3");
    } else if chars.len() > 0 && chars[0] == 'L' {
        offer(&mut completions, "L1");
        offer(&mut completions, "L2");
        offer(&mut completions, "L3");
    } else {
        offer(&mut completions, "R");
        offer(&mut completions, "C");
        offer(&mut completions, "L");
        offer(&mut completions, "V");
        offer(&mut completions, "I");
    }
    completions
}

/// The nodes to offer: those that the document names, or `fallback` where
/// it names none.
pub open spec fn nodes_or(names: Seq<Seq<char>>, fallback: Seq<Seq<char>>) -> Seq<Seq<char>> {
    if names.len() == 0 {
        fallback
    } else {
        names
    }
}

/// What to offer for a resistor at the cursor: a name, a node for either
/// end, then a value, each only while the field is not there.
pub open spec fn resistor_offers(
    name: bool,
    node1: bool,
    node2: bool,
    value: bool,
    cursor: nat,
    names: Seq<Seq<char>>,
) -> Seq<Seq<char>> {
    if cursor <= 2 {
        if !name {
            seq!["R1"@, "R2"@, "R3"@]
        } else {
            Seq::empty()
        }
    } else if cursor <= 5 {
        if !node1 {
            nodes_or(names, seq!["1"@, "IN"@, "VCC"@])
        } else {
            Seq::empty()
        }
    } else if cursor <= 8 {
        if !node2 {
            nodes_or(names, seq!["1"@, "IN"@, "VCC"@])
        } else {
            Seq::empty()
        }
    } else {
        if !value {
            seq!["1k"@, "10k"@, "100"@]
        } else {
            Seq::empty()
        }
    }
}

/// What to offer for a capacitor at the cursor.
pub open spec fn capacitor_offers(
    name: bool,
    node1: bool,
    node2: bool,
    value: bool,
    cursor: nat,
    names: Seq<Seq<char>>,
) -> Seq<Seq<char>> {
    if cursor <= 2 {
        if !name {
            seq!["C1"@, "C2"@]
        } else {
            Seq::empty()
        }
    } else if cursor <= 5 {
        if !node1 {
            nodes_or(names, seq!["n1"@, "n2"@, "n3"@])
        } else {
            Seq::empty()
        }
    } else if cursor <= 8 {
        if !node2 {
            nodes_or(names, seq!["n1"@, "n2"@, "n3"@])
        } else {
            Seq::empty()
        }
    } else {
        if !value {
            seq!["1uF"@, "10uF"@]
        } else {
            Seq::empty()
        }
    }
}

/// The models to offer for an inductor that has none.
pub open spec fn inductor_models(model: bool) -> Seq<Seq<char>> {
    if !model {
        seq!["LMOD"@, "LMODEL"@]
    } else {
        Seq::empty()
    }
}

/// The values to offer for an inductor that has none.
pub open spec fn inductor_values(value: bool) -> Seq<Seq<char>> {
    if !value {
        seq!["1uH"@, "10uH"@, "100nH"@, "1mH"@]
    } else {
        Seq::empty()
    }
}

/// What to offer for an inductor at the cursor: `model` is whether a model
/// was read, `value` and `params` whether those fields are there.
pub open spec fn inductor_offers(
    name: bool,
    node1: bool,
    node2: bool,
    model: bool,
    value: bool,
    params: bool,
    cursor: nat,
    names: Seq<Seq<char>>,
) -> Seq<Seq<char>> {
    if cursor <= 2 {
        if !name {
            seq!["L1"@, "L2"@, "L3"@]
        } else {
            Seq::empty()
        }
    } else if cursor <= 5 {
        if !node1 {
            nodes_or(names, seq!["n1"@, "n2"@, "n3"@])
        } else {
            Seq::empty()
        }
    } else if cursor <= 8 {
        if !node2 {
            nodes_or(names, seq!["n1"@, "n2"@, "n3"@])
        } else {
            Seq::empty()
        }
    } else if cursor <= 12 {
        inductor_models(model) + inductor_values(value)
    } else {
        if !params {
            seq!["IC=0"@, "IC=1A"@]
        } else {
            Seq::empty()
        }
    }
}

/// What to offer where the component is none of these: the letters of the
/// commonest components at the start of the line, and common nodes after
/// it.
pub open spec fn common_offers(cursor: nat) -> Seq<Seq<char>> {
    if cursor <= 1 {
        seq!["R"@, "C"@, "L"@, "V"@, "I"@]
    } else {
        seq!["1"@, "2"@, "0"@, "GND"@, "VCC"@, "IN"@, "OUT"@]
    }
}

/// What to offer for a component that is typed as far as `partial`, the
/// cursor standing at column `cursor`; `names` are the nodes of the
/// document.
pub open spec fn offers(partial: ComponentPartialView, cursor: nat, names: Seq<Seq<char>>) -> Seq<
    Seq<char>,
> {
    match partial {
        ComponentPartialView::R(r) => resistor_offers(
            r.name is Some,
            r.node1 is Some,
            r.node2 is Some,
            r.value is Some,
            cursor,
            names,
        ),
        ComponentPartialView::C(c) => capacitor_offers(
            c.name is Some,
            c.node1 is Some,
            c.node2 is Some,
            c.value is Some,
            cursor,
            names,
        ),
        ComponentPartialView::L(l) => inductor_offers(
            l.name is Some,
            l.node1 is Some,
            l.node2 is Some,
            l.model matches Some(Some(_)),
            l.value is Some,
            l.params is Some,
            cursor,
            names,
        ),
        _ => common_offers(cursor),
    }
}

/// Offers the nodes of the document, or the three given where it names
/// none.
fn offer_nodes(items: &mut Vec<String>, names: &Vec<String>, a: &str, b: &str, c: &str)
    requires
        old(items)@.len() == 0,
    ensures
        texts(final(items)@) == nodes_or(texts(names@), seq![a@, b@, c@]),
{
    assert(texts(items@) =~= Seq::empty());
    if names.len() == 0 {
        offer(items, a);
        offer(items, b);
        offer(items, c);
    } else {
        offer_all(items, names);
        assert(Seq::<Seq<char>>::empty() + texts(names@) =~= texts(names@));
    }
}

/// What to offer for a component that is typed as far as `partial`.
pub fn generate_completions_from_partial(
    partial: &ComponentPartial,
    cursor_pos: usize,
    names: &Vec<String>,
) -> (r: Vec<String>)
    ensures
        texts(r@) == offers(partial.deep_view(), cursor_pos as nat, texts(names@)),
{
    let mut completions: Vec<String> = Vec::new();
    assert(texts(completions@) =~= Seq::empty());
    match partial {
        ComponentPartial::R(r) => {
            if cursor_pos <= 2 {
                if r.name.is_none() {
                    offer(&mut completions, "R1");
                    offer(&mut completions, "R2");
                    offer(&mut completions, "R3");
                }
            } else if cursor_pos <= 5 {
                if r.node1.is_none() {
                    offer_nodes(&mut completions, names, "1", "IN", "VCC");
                }
            } else if cursor_pos <= 8 {
                if r.node2.is_none() {
                    offer_nodes(&mut completions, names, "1", "IN", "VCC");
                }
            } else {
                if r.value.is_none() {
                    offer(&mut completions, "1k");
                    offer(&mut completions, "10k");
                    offer(&mut completions, "100");
                }
            }
        },
        ComponentPartial::C(c) => {
            if cursor_pos <= 2 {
                if c.name.is_none() {
                    offer(&mut completions, "C1");
                    offer(&mut completions, "C2");
                }
            } else if cursor_pos <= 5 {
                if c.node1.is_none() {
                    offer_nodes(&mut completions, names, "n1", "n2", "n3");
                }
            } else if cursor_pos <= 8 {
                if c.node2.is_none() {
                    offer_nodes(&mut completions, names, "n1", "n2", "n3");
                }
            } else {
                if c.value.is_none() {
                    offer(&mut completions, "1uF");
                    offer(&mut completions, "10uF");
                }
            }
        },
        ComponentPartial::L(l) => {
            if cursor_pos <= 2 {
                if l.name.is_none() {
                    offer(&mut completions, "L1");
                    offer(&mut completions, "L2");
                    offer(&mut completions, "L3");
                }
            } else if cursor_pos <= 5 {
                if l.node1.is_none() {
                    offer_nodes(&mut completions, names, "n1", "n2", "n3");
                }
            } else if cursor_pos <= 8 {
                if l.node2.is_none() {
                    offer_nodes(&mut completions, names, "n1", "n2", "n3");
                }
            } else if cursor_pos <= 12 {
                let has_model = match &l.model {
                    Some(Some(_)) => true,
                    _ => false,
                };
                if !has_model {
                    offer(&mut completions, "LMOD");
                    offer(&mut completions, "LMODEL");
                }
                let ghost models = texts(completions@);
                assert(models =~= inductor_models(has_model));
                if l.value.is_none() {
                    offer(&mut completions, "1uH");
                    offer(&mut completions, "10uH");
                    offer(&mut completions, "100nH");
                    offer(&mut completions, "1mH");
                }
                assert(texts(completions@) =~= models + inductor_values(l.value is Some));
            } else {
                if l.params.is_none() {
                    offer(&mut completions, "IC=0");
                    offer(&mut completions, "IC=1A");
                }
            }
        },
        _ => {
            if cursor_pos <= 1 {
                offer(&mut completions, "R");
                offer(&mut completions, "C");
                offer(&mut completions, "L");
                offer(&mut completions, "V");
                offer(&mut completions, "I");
            } else {
                offer(&mut completions, "1");
                offer(&mut completions, "2");
                offer(&mut completions, "0");
                offer(&mut completions, "GND");
                offer(&mut completions, "VCC");
                offer(&mut completions, "IN");
                offer(&mut completions, "OUT");
            }
        },
    }
    completions
}

/// Texts written one after the other, a comma between them.
pub open spec fn listed(names: Seq<Seq<char>>) -> Seq<char>
    decreases names.len(),
{
    if names.len() == 0 {
        Seq::empty()
    } else if names.len() == 1 {
        names[0]
    } else {
        listed(names.drop_last()) + ","@ + names.last()
    }
}

/// The choice of a node at the place `place` of a template: the nodes of
/// the document, or `N1`, `N2` and `N3` where it names none.
pub open spec fn node_choice(place: Seq<char>, names: Seq<Seq<char>>) -> Seq<char> {
    if names.len() == 0 {
        "${"@ + place + "|N1,N2,N3|}"@
    } else {
        "${"@ + place + "|"@ + listed(names) + "|}"@
    }
}

/// The names of a list, a comma between them.
fn list(names: &Vec<String>) -> (r: String)
    ensures
        r@ == listed(texts(names@)),
{
    let mut r = String::new();
    let mut i: usize = 0;
    assert(texts(names@).subrange(0, 0) =~= Seq::empty());
    while i < names.len()
        invariant
            i <= names.len(),
            r@ == listed(texts(names@).subrange(0, i as int)),
        decreases names.len() - i,
    {
        let ghost before = texts(names@).subrange(0, i as int);
        let ghost after = texts(names@).subrange(0, i + 1);
        assert(after.drop_last() =~= before);
        assert(after.last() == names[i as int]@);
        if i > 0 {
            r.append(",");
        } else {
            assert(r@ =~= Seq::empty());
            assert(r@ + names[i as int]@ =~= names[i as int]@);
        }
        r.append(names[i].as_str());
        i += 1;
    }
    assert(texts(names@).subrange(0, i as int) =~= texts(names@));
    r
}

/// The choice of a node at a place of a template.
fn choose_node(place: &str, names: &Vec<String>) -> (r: String)
    ensures
        r@ == node_choice(place@, texts(names@)),
{
    let mut r = "${".to_owned();
    r.append(place);
    if names.len() == 0 {
        r.append("|N1,N2,N3|}");
    } else {
        r.append("|");
        r.append(list(names).as_str());
        r.append("|}");
    }
    r
}

/// The template of the component that a line names by its first letter:
/// what the template is called, and its text, in which `choices2` and
/// `choices3` are the choices of a node at the places 2 and 3.
pub open spec fn template_of(letter: char, choices2: Seq<char>, choices3: Seq<char>) -> Option<
    (Seq<char>, Seq<char>),
> {
    if letter == 'R' {
        Some(("R 模板:R<name> <(+) node> <(-) node> [model name] <value> [TC = <TC1> [,<TC2>]]"@, choices2 + " "@ + choices3 + " ${5:[model]} ${6:value} ${7:[TC1]} ${8:[TC2]}"@))
    } else if letter == 'C' {
        Some(("C 模板:C<name> <(+) node> <(-) node> [model name] <value> [IC=<initial value>]"@, choices2 + " "@ + choices3 + " ${5:[model]} ${6:value} ${7:[IC=<initial value>]}"@))
    } else if letter == 'L' {
        Some(("L 模板: L<name> <(+) node> <(-) node> [model name] <value> [IC=<initial value>]"@, choices2 + " "@ + choices3 + " ${5:[model]} ${6:value} ${7:[IC=<initial value>]}"@))
    } else if letter == 'B' {
        Some(("砷化镓 MES 场效应晶体管: <name> <drain node> <gate node> <source node> <model name> [area value]"@, choices2 + " "@ + choices3 + " "@ + choices3 + " ${6:model} [${7:}]"@))
    } else if letter == 'D' {
        Some(("二极管: D<name> <(+) node> <(-) node> <model name> [area value]"@, choices2 + " "@ + choices3 + " ${6:model} [${7:area value}]"@))
    } else if letter == 'E' {
        Some(("电压源: E<name> <(+) node> <(-) node> <gain>"@, choices2 + " "@ + choices3 + " ${4:gain value}"@))
    } else if letter == 'F' {
        Some(("电流控制电流源: F<name> <(+) node> <(-) node> <gain>"@, choices2 + " "@ + choices3 + " ${4:gain value}"@))
    } else if letter == 'G' {
        Some(("电流控制电流源: G<name> <(+) node> <(-) node> <gain>"@, choices2 + " "@ + choices3 + " ${4:gain value}"@))
    } else if letter == 'H' {
        Some(("电流控制电压源: H<name> <(+) node> <(-) node> <gain>"@, choices2 + " "@ + choices3 + " ${4:gain value}"@))
    } else if letter == 'I' {
        Some(("独立电流源: I<name> <node1> <node2> [<dc>] [<ac>] [<transient>]"@, choices2 + " "@ + choices3 + " ${3:[dc]} ${4:[ac]} ${5:[transient]}"@))
    } else if letter == 'J' {
        Some(("结型场效应晶体管: J<name> <drain node> <gate node> <source node> <model name> [area value]"@, choices2 + " "@ + choices3 + " "@ + choices3 + " ${3:model} ${4:[area value]} "@))
    } else if letter == 'K' {
        Some(("互感器(L 的智能补全还未完成): K<name> <induct1> <induct2> ... <k> [<model> [<size>]]"@, choices2 + " "@ + choices3 + " "@ + choices3 + " ${3:model} ${4:[area value]} "@))
    } else if letter == 'M' {
        Some(("MOS 场效应晶体管: M<name> <drain node> <gate node> <source node>`
                + <bulk/substrate node> <model name>`
                + [L=<value>] [W=<value>]`
                + [AD=<value>] [AS=<value>]`
                + [PD=<value>] [PS=<value>]`
                + [NRD=<value>] [NRS=<value>]`
                + [NRG=<value>] [NRB=<value>]`Q
                + [M=<value>] [N=<value>]`"@, choices2 + " "@ + choices3 + " "@ + choices3 + " "@ + choices3 + " ${3:model}  [L=${7}] [W=${8}] [AD=${9}] [AS=${10}] [PD=${11}] [PS=${12}] [NRD=${13}] [NRS=${14}] [NRG=${15}] [NRB=${16}] [M=${17}] [N=${18}]"@))
    } else if letter == 'Q' {
        Some(("双极结型晶体管:Q<name> <collector node> <base node> <emitter node>"@, choices2 + " "@ + choices3 + " "@ + choices3 + " "@))
    } else if letter == 'S' {
        Some(("电压控制开关:S<name> <(+) switch node> <(-) switch node>`
                    <(+) controlling node> <(-) controlling node>`
                    <model name>`"@, choices2 + " "@ + choices3 + " "@ + choices3 + " "@ + choices3 + " ${3:model} "@))
    } else if letter == 'T' {
        Some(("输电线路:T<name> <A port (+) node> <A port (-) node>`
                     <B port (+) node> <B port (-) node>`
                     [model name]`
                     Z0=<value> [TD=<value>] [F=<value> [NL=<value>]]`
                     IC= <near voltage> <near current> <far voltage> <far current>`"@, choices2 + " "@ + choices3 + " "@ + choices3 + " "@ + choices3 + " ${3:model}  Z0=${7:value} [TD=${8:value}] [F=${9:value} [NL=${10:value}]] IC=${11:Vnear} ${12:Inear} ${13:Vfar} ${14:Ifar}"@))
    } else if letter == 'V' {
        Some(("独立电压源:V<name> <node1> <node2> [<dc>] [<ac>] [<transient>]"@, choices2 + " "@ + choices3 + " ${3:[dc]} ${4:[ac]} ${5:[transient]}"@))
    } else if letter == 'W' {
        Some(("电流控制开关:W<name> <(+) switch node> <(-) switch node> <controlling V device name> <model name>"@, choices2 + " "@ + choices3 + "  ${4:Vctrl} ${5:model}"@))
    } else if letter == 'X' {
        Some(("调用子电路:X<name> [node]* <subcircuit name> [PARAM: <<name> = <value>>*]"@, choices2 + " "@ + choices3 + "  ${4:Vctrl} ${5:model}"@))
    } else {
        None
    }
}

/// The template to offer for a line: that of the component that its first
/// letter names, with the nodes `names` of the document as choices.
pub open spec fn snippet_of(line: Seq<char>, names: Seq<Seq<char>>) -> Option<
    (Seq<char>, Seq<char>),
> {
    if line.len() == 0 {
        None
    } else {
        template_of(line[0], node_choice("2"@, names), node_choice("3"@, names))
    }
}

/// The template to offer for a line, as its name and its text.
pub fn generate_snippet(line: &str, names: &Vec<String>) -> (r: Option<(String, String)>)
    ensures
        match r {
            Some((label, snippet)) => snippet_of(line@, texts(names@)) == Some((label@, snippet@)),
            None => snippet_of(line@, texts(names@)) is None,
        },
{
    let chars = chars_of(line);
    if chars.len() == 0 {
        return None;
    }
    let letter = chars[0];
    let choices2 = choose_node("2", names);
    let choices3 = choose_node("3", names);
    if letter == 'R' {
        let mut snippet = String::new();
        snippet.append(choices2.as_str());
        assert(snippet@ =~= choices2@);
        snippet.append(" ");
        snippet.append(choices3.as_str());
        snippet.append(" ${5:[model]} ${6:value} ${7:[TC1]} ${8:[TC2]}");
        return Some(("R 模板:R<name> <(+) node> <(-) node> [model name] <value> [TC = <TC1> [,<TC2>]]".to_owned(), snippet));
    }
    if letter == 'C' {
        let mut snippet = String::new();
        snippet.append(choices2.as_str());
        assert(snippet@ =~= choices2@);
        snippet.append(" ");
        snippet.append(choices3.as_str());
        snippet.append(" ${5:[model]} ${6:value} ${7:[IC=<initial value>]}");
        return Some(("C 模板:C<name> <(+) node> <(-) node> [model name] <value> [IC=<initial value>]".to_owned(), snippet));
    }
    if letter == 'L' {
        let mut snippet = String::new();
        snippet.append(choices2.as_str());
        assert(snippet@ =~= choices2@);
        snippet.append(" ");
        snippet.append(choices3.as_str());
        snippet.append(" ${5:[model]} ${6:value} ${7:[IC=<initial value>]}");
        return Some(("L 模板: L<name> <(+) node> <(-) node> [model name] <value> [IC=<initial value>]".to_owned(), snippet));
    }
    if letter == 'B' {
        let mut snippet = String::new();
        snippet.append(choices2.as_str());
        assert(snippet@ =~= choices2@);
        snippet.append(" ");
        snippet.append(choices3.as_str());
        snippet.append(" ");
        snippet.append(choices3.as_str());
        snippet.append(" ${6:model} [${7:}]");
        return Some(("砷化镓 MES 场效应晶体管: <name> <drain node> <gate node> <source node> <model name> [area value]".to_owned(), snippet));
    }
    if letter == 'D' {
        let mut snippet = String::new();
        snippet.append(choices2.as_str());
        assert(snippet@ =~= choices2@);
        snippet.append(" ");
        snippet.append(choices3.as_str());
        snippet.append(" ${6:model} [${7:area value}]");
        return Some(("二极管: D<name> <(+) node> <(-) node> <model name> [area value]".to_owned(), snippet));
    }
    if letter == 'E' {
        let mut snippet = String::new();
        snippet.append(choices2.as_str());
        assert(snippet@ =~= choices2@);
        snippet.append(" ");
        snippet.append(choices3.as_str());
        snippet.append(" ${4:gain value}");
        return Some(("电压源: E<name> <(+) node> <(-) node> <gain>".to_owned(), snippet));
    }
    if letter == 'F' {
        let mut snippet = String::new();
        snippet.append(choices2.as_str());
        assert(snippet@ =~= choices2@);
        snippet.append(" ");
        snippet.append(choices3.as_str());
        snippet.append(" ${4:gain value}");
        return Some(("电流控制电流源: F<name> <(+) node> <(-) node> <gain>".to_owned(), snippet));
    }
    if letter == 'G' {
        let mut snippet = String::new();
        snippet.append(choices2.as_str());
        assert(snippet@ =~= choices2@);
        snippet.append(" ");
        snippet.append(choices3.as_str());
        snippet.append(" ${4:gain value}");
        return Some(("电流控制电流源: G<name> <(+) node> <(-) node> <gain>".to_owned(), snippet));
    }
    if letter == 'H' {
        let mut snippet = String::new();
        snippet.append(choices2.as_str());
        assert(snippet@ =~= choices2@);
        snippet.append(" ");
        snippet.append(choices3.as_str());
        snippet.append(" ${4:gain value}");
        return Some(("电流控制电压源: H<name> <(+) node> <(-) node> <gain>".to_owned(), snippet));
    }
    if letter == 'I' {
        let mut snippet = String::new();
        snippet.append(choices2.as_str());
        assert(snippet@ =~= choices2@);
        snippet.append(" ");
        snippet.append(choices3.as_str());
        snippet.append(" ${3:[dc]} ${4:[ac]} ${5:[transient]}");
        return Some(("独立电流源: I<name> <node1> <node2> [<dc>] [<ac>] [<transient>]".to_owned(), snippet));
    }
    if letter == 'J' {
        let mut snippet = String::new();
        snippet.append(choices2.as_str());
        assert(snippet@ =~= choices2@);
        snippet.append(" ");
        snippet.append(choices3.as_str());
        snippet.append(" ");
        snippet.append(choices3.as_str());
        snippet.append(" ${3:model} ${4:[area value]} ");
        return Some(("结型场效应晶体管: J<name> <drain node> <gate node> <source node> <model name> [area value]".to_owned(), snippet));
    }
    if letter == 'K' {
        let mut snippet = String::new();
        snippet.append(choices2.as_str());
        assert(snippet@ =~= choices2@);
        snippet.append(" ");
        snippet.append(choices3.as_str());
        snippet.append(" ");
        snippet.append(choices3.as_str());
        snippet.append(" ${3:model} ${4:[area value]} ");
        return Some(("互感器(L 的智能补全还未完成): K<name> <induct1> <induct2> ... <k> [<model> [<size>]]".to_owned(), snippet));
    }
    if letter == 'M' {
        let mut snippet = String::new();
        snippet.append(choices2.as_str());
        assert(snippet@ =~= choices2@);
        snippet.append(" ");
        snippet.append(choices3.as_str());
        snippet.append(" ");
        snippet.append(choices3.as_str());
        snippet.append(" ");
        snippet.append(choices3.as_str());
        snippet.append(" ${3:model}  [L=${7}] [W=${8}] [AD=${9}] [AS=${10}] [PD=${11}] [PS=${12}] [NRD=${13}] [NRS=${14}] [NRG=${15}] [NRB=${16}] [M=${17}] [N=${18}]");
        return Some(("MOS 场效应晶体管: M<name> <drain node> <gate node> <source node>`
                + <bulk/substrate node> <model name>`
                + [L=<value>] [W=<value>]`
                + [AD=<value>] [AS=<value>]`
                + [PD=<value>] [PS=<value>]`
                + [NRD=<value>] [NRS=<value>]`
                + [NRG=<value>] [NRB=<value>]`Q
                + [M=<value>] [N=<value>]`".to_owned(), snippet));
    }
    if letter == 'Q' {
        let mut snippet = String::new();
        snippet.append(choices2.as_str());
        assert(snippet@ =~= choices2@);
        snippet.append(" ");
        snippet.append(choices3.as_str());
        snippet.append(" ");
        snippet.append(choices3.as_str());
        snippet.append(" ");
        return Some(("双极结型晶体管:Q<name> <collector node> <base node> <emitter node>".to_owned(), snippet));
    }
    if letter == 'S' {
        let mut snippet = String::new();
        snippet.append(choices2.as_str());
        assert(snippet@ =~= choices2@);
        snippet.append(" ");
        snippet.append(choices3.as_str());
        snippet.append(" ");
        snippet.append(choices3.as_str());
        snippet.append(" ");
        snippet.append(choices3.as_str());
        snippet.append(" ${3:model} ");
        return Some(("电压控制开关:S<name> <(+) switch node> <(-) switch node>`
                    <(+) controlling node> <(-) controlling node>`
                    <model name>`".to_owned(), snippet));
    }
    if letter == 'T' {
        let mut snippet = String::new();
        snippet.append(choices2.as_str());
        assert(snippet@ =~= choices2@);
        snippet.append(" ");
        snippet.append(choices3.as_str());
        snippet.append(" ");
        snippet.append(choices3.as_str());
        snippet.append(" ");
        snippet.append(choices3.as_str());
        snippet.append(" ${3:model}  Z0=${7:value} [TD=${8:value}] [F=${9:value} [NL=${10:value}]] IC=${11:Vnear} ${12:Inear} ${13:Vfar} ${14:Ifar}");
        return Some(("输电线路:T<name> <A port (+) node> <A port (-) node>`
                     <B port (+) node> <B port (-) node>`
                     [model name]`
                     Z0=<value> [TD=<value>] [F=<value> [NL=<value>]]`
                     IC= <near voltage> <near current> <far voltage> <far current>`".to_owned(), snippet));
    }
    if letter == 'V' {
        let mut snippet = String::new();
        snippet.append(choices2.as_str());
        assert(snippet@ =~= choices2@);
        snippet.append(" ");
        snippet.append(choices3.as_str());
        snippet.append(" ${3:[dc]} ${4:[ac]} ${5:[transient]}");
        return Some(("独立电压源:V<name> <node1> <node2> [<dc>] [<ac>] [<transient>]".to_owned(), snippet));
    }
    if letter == 'W' {
        let mut snippet = String::new();
        snippet.append(choices2.as_str());
        assert(snippet@ =~= choices2@);
        snippet.append(" ");
        snippet.append(choices3.as_str());
        snippet.append("  ${4:Vctrl} ${5:model}");
        return Some(("电流控制开关:W<name> <(+) switch node> <(-) switch node> <controlling V device name> <model name>".to_owned(), snippet));
    }
    if letter == 'X' {
        let mut snippet = String::new();
        snippet.append(choices2.as_str());
        assert(snippet@ =~= choices2@);
        snippet.append(" ");
        snippet.append(choices3.as_str());
        snippet.append("  ${4:Vctrl} ${5:model}");
        return Some(("调用子电路:X<name> [node]* <subcircuit name> [PARAM: <<name> = <value>>*]".to_owned(), snippet));
    }
    None
}

/// Something to offer at the cursor.
#[derive(Debug, Clone, PartialEq)]
pub enum Suggestion {
    /// The name of a component, for a line that has just begun
    Component(String),
    /// The template of a component: its name and its text
    Template(String, String),
    /// What the field at the cursor may hold
    Field(String),
}

/// Mathematical content of a [`Suggestion`].
pub enum SuggestionView {
    Component(Seq<char>),
    Template(Seq<char>, Seq<char>),
    Field(Seq<char>),
}

impl DeepView for Suggestion {
    type V = SuggestionView;

    open spec fn deep_view(&self) -> SuggestionView {
        match self {
            Suggestion::Component(name) => SuggestionView::Component(name@),
            Suggestion::Template(name, text) => SuggestionView::Template(name@, text@),
            Suggestion::Field(text) => SuggestionView::Field(text@),
        }
    }
}

/// Texts as names of components.
pub open spec fn as_components(names: Seq<Seq<char>>) -> Seq<SuggestionView> {
    names.map_values(|n: Seq<char>| SuggestionView::Component(n))
}

/// Texts as contents of a field.
pub open spec fn as_fields(names: Seq<Seq<char>>) -> Seq<SuggestionView> {
    names.map_values(|n: Seq<char>| SuggestionView::Field(n))
}

/// What to offer for a line with the cursor at column `col`: names of
/// components while the line is shorter than three bytes; the template of
/// its component at column 3; and else, where the line is a component as
/// far as it goes, what the field at the cursor may hold.
pub open spec fn line_suggestions(line: Seq<char>, col: nat, names: Seq<Seq<char>>) -> Seq<
    SuggestionView,
> {
    if bytes_of(line, line.len()) < 3 {
        as_components(component_names(line))
    } else if col == 3 {
        match snippet_of(line, names) {
            Some((name, text)) => seq![SuggestionView::Template(name, text)],
            None => Seq::empty(),
        }
    } else if lex(line).len() == 0 {
        Seq::empty()
    } else {
        match component_partial_at(lex(line)[0], 0).0 {
            Ok(partial) => as_fields(offers(partial, col, names)),
            Err(_) => Seq::empty(),
        }
    }
}

/// Whether a text holds nothing but white space.
pub open spec fn is_blank_text(text: Seq<char>) -> bool {
    forall|i: int| 0 <= i < text.len() ==> is_white_space(#[trigger] text[i])
}

/// What to offer in a document with the cursor at `line` and `col`: what
/// its line is offered, the last line standing for every line after it;
/// nothing in a document that holds only white space.
pub open spec fn suggestions_of(text: Seq<char>, line: nat, col: nat, names: Seq<Seq<char>>) -> Seq<
    SuggestionView,
> {
    let lines = lines_of(text);
    if is_blank_text(text) || lines.len() == 0 {
        Seq::empty()
    } else if line >= lines.len() {
        line_suggestions(lines.last(), col, names)
    } else {
        line_suggestions(lines[line as int], col, names)
    }
}

/// Whether a text holds nothing but white space.
fn blank(chars: &Vec<char>) -> (r: bool)
    ensures
        r == is_blank_text(chars@),
{
    let mut i: usize = 0;
    while i < chars.len()
        invariant
            i <= chars.len(),
            forall|k: int| 0 <= k < i ==> is_white_space(#[trigger] chars[k]),
        decreases chars.len() - i,
    {
        if !is_space(chars[i]) {
            return false;
        }
        i += 1;
    }
    true
}

/// Whether a line takes less than three bytes.
fn under_three_bytes(line: &Vec<char>) -> (r: bool)
    ensures
        r == (bytes_of(line@, line@.len()) < 3),
{
    proof {
        lemma_bytes_at_least(line@, line@.len());
    }
    if line.len() >= 3 {
        return false;
    }
    let mut total: usize = 0;
    let mut i: usize = 0;
    while i < line.len()
        invariant
            i <= line.len() < 3,
            total == bytes_of(line@, i as nat),
            total <= 4 * i,
        decreases line.len() - i,
    {
        total += width_of(line[i]);
        i += 1;
    }
    total < 3
}

/// Texts as suggestions of one kind: names of components, or contents of a
/// field.
fn wrap(texts: Vec<String>, components: bool) -> (r: Vec<Suggestion>)
    ensures
        r.deep_view() == if components {
            as_components(self::texts(texts@))
        } else {
            as_fields(self::texts(texts@))
        },
{
    let mut texts = texts;
    let ghost all = self::texts(texts@);
    let mut back: Vec<Suggestion> = Vec::new();
    while texts.len() > 0
        invariant
            texts.len() + back.len() == all.len(),
            self::texts(texts@) == all.subrange(0, texts.len() as int),
            forall|k: int|
                0 <= k < back.len() ==> (#[trigger] back[k]).deep_view() == if components {
                    SuggestionView::Component(all[all.len() - 1 - k])
                } else {
                    SuggestionView::Field(all[all.len() - 1 - k])
                },
        decreases texts.len(),
    {
        let ghost before = self::texts(texts@);
        let text = texts.pop().unwrap();
        assert(text@ == before[before.len() - 1]);
        assert(self::texts(texts@) =~= all.subrange(0, texts.len() as int));
        if components {
            back.push(Suggestion::Component(text));
        } else {
            back.push(Suggestion::Field(text));
        }
    }
    let mut r: Vec<Suggestion> = Vec::new();
    while back.len() > 0
        invariant
            r.len() + back.len() == all.len(),
            forall|k: int|
                0 <= k < back.len() ==> (#[trigger] back[k]).deep_view() == if components {
                    SuggestionView::Component(all[all.len() - 1 - k])
                } else {
                    SuggestionView::Field(all[all.len() - 1 - k])
                },
            forall|k: int|
                0 <= k < r.len() ==> (#[trigger] r[k]).deep_view() == if components {
                    SuggestionView::Component(all[k])
                } else {
                    SuggestionView::Field(all[k])
                },
        decreases back.len(),
    {
        let s = back.pop().unwrap();
        r.push(s);
    }
    assert(r.deep_view() =~= if components {
        as_components(all)
    } else {
        as_fields(all)
    });
    r
}

/// What to offer for a line with the cursor at column `col`.
fn suggest_for_line(line: &Vec<char>, col: usize, names: &Vec<String>) -> (r: Vec<Suggestion>)
    ensures
        r.deep_view() == line_suggestions(line@, col as nat, texts(names@)),
{
    let text = string_of(line, 0, line.len());
    assert(text@ =~= line@);
    let mut none: Vec<Suggestion> = Vec::new();
    assert(none.deep_view() =~= Seq::empty());
    if under_three_bytes(line) {
        wrap(generate_component_completions(text.as_str()), true)
    } else if col == 3 {
        match generate_snippet(text.as_str(), names) {
            Some((name, snippet)) => {
                none.push(Suggestion::Template(name, snippet));
                assert(none.deep_view() =~= seq![SuggestionView::Template(name@, snippet@)]);
                none
            },
            None => none,
        }
    } else {
        let lines = SpiceLexer::tokenize(text.as_str());
        if lines.len() == 0 {
            return none;
        }
        assert(lines.deep_view()[0] == lines[0].deep_view());
        let mut parser = SpiceLineParser::new(&lines[0]);
        match parser.parse_component_partial() {
            Ok(partial) => wrap(generate_completions_from_partial(&partial, col, names), false),
            Err(_) => none,
        }
    }
}

/// What to offer in a document with the cursor at `line` and `col`, where
/// `names` are the nodes that the document names.
pub fn suggestions(text: &str, line: usize, col: usize, names: &Vec<String>) -> (r: Vec<
    Suggestion,
>)
    ensures
        r.deep_view() == suggestions_of(text@, line as nat, col as nat, texts(names@)),
{
    let chars = chars_of(text);
    let lines = split_lines(&chars);
    if blank(&chars) || lines.len() == 0 {
        let none: Vec<Suggestion> = Vec::new();
        assert(none.deep_view() =~= Seq::empty());
        return none;
    }
    let at = if line >= lines.len() {
        lines.len() - 1
    } else {
        line
    };
    assert(crate::lexer::texts(lines@)[at as int] == lines[at as int]@);
    suggest_for_line(&lines[at], col, names)
}

} // verus!
