//! The symbols of a program: what it names and where, and the nodes that
//! its components connect.

use crate::ast::command::{Instruction, Program};
use crate::ast::component::Component;
use crate::ast::{AtomView, Name};
use crate::editor::{clip, clipped, Position, Range};
use crate::parse::ExposeNodes;
use crate::text::same_text;
use vstd::prelude::*;
use vstd::std_specs::convert::FromSpecImpl;

verus! {

/// The kind of a symbol.
#[derive(Debug, Clone, Copy, PartialEq, Eq, Hash, Structural)]
pub enum SpiceSymbolKind {
    /// A component, such as a resistor
    Component,
    /// A command, such as `.AC`
    Command,
    /// A subcircuit that a call refers to
    SubCircuit,
    /// A model
    Model,
    /// The name of the circuit
    CircuitName,
}

/// A symbol and where it stands.
#[derive(Debug, Clone, PartialEq)]
pub struct Symbol {
    pub name: String,
    pub range: Range,
    pub kind: SpiceSymbolKind,
    /// The subcircuit that holds the symbol
    pub container: Option<String>,
    /// How often the symbol is referred to
    pub refcnt: usize,
}

/// Mathematical content of a [`Symbol`].
pub struct SymbolView {
    pub name: Seq<char>,
    pub range: Range,
    pub kind: SpiceSymbolKind,
    pub container: Option<Seq<char>>,
    pub refcnt: usize,
}

impl DeepView for Symbol {
    type V = SymbolView;

    open spec fn deep_view(&self) -> SymbolView {
        SymbolView {
            name: self.name@,
            range: self.range,
            kind: self.kind,
            container: match self.container {
                Some(c) => Some(c@),
                None => None,
            },
            refcnt: self.refcnt,
        }
    }
}

/// Whether the place `a` comes before the place `b` in a document.
pub open spec fn comes_before(a: Position, b: Position) -> bool {
    a.line < b.line || (a.line == b.line && a.character < b.character)
}

/// Whether the place `a` comes before the place `b` in a document.
pub fn is_before(a: Position, b: Position) -> (r: bool)
    ensures
        r == comes_before(a, b),
{
    a.line < b.line || (a.line == b.line && a.character < b.character)
}

/// A range that is ordered by its start, then by its end.
#[derive(Debug, Clone, Copy, PartialEq, Eq, Hash, Structural)]
pub struct OrderedRange {
    pub start: Position,
    pub end: Position,
}

impl From<Range> for OrderedRange {
    fn from(value: Range) -> (r: Self) {
        OrderedRange { start: value.start, end: value.end }
    }
}

impl FromSpecImpl<Range> for OrderedRange {
    open spec fn obeys_from_spec() -> bool {
        true
    }

    open spec fn from_spec(v: Range) -> Self {
        OrderedRange { start: v.start, end: v.end }
    }
}

impl OrderedRange {
    /// Whether this range comes before `other`: by its start, then by its
    /// end.
    pub open spec fn before(self, other: OrderedRange) -> bool {
        comes_before(self.start, other.start) || (self.start == other.start && comes_before(
            self.end,
            other.end,
        ))
    }

    /// Whether the place `p` lies in this range: at its start or after it,
    /// and before its end.
    pub open spec fn holds(self, p: Position) -> bool {
        !comes_before(p, self.start) && comes_before(p, self.end)
    }

    /// Whether this range comes before `other`.
    pub fn precedes(&self, other: &OrderedRange) -> (r: bool)
        ensures
            r == self.before(*other),
    {
        is_before(self.start, other.start) || (self.start == other.start && is_before(
            self.end,
            other.end,
        ))
    }

    /// Whether the place `p` lies in this range.
    pub fn contains(&self, p: Position) -> (r: bool)
        ensures
            r == self.holds(p),
    {
        !is_before(p, self.start) && is_before(p, self.end)
    }
}

/// The symbols of a document.
#[derive(Debug, Clone, PartialEq)]
pub struct SymbolTable {
    /// The symbols, one of each name
    pub table: Vec<Symbol>,
    /// The names of the symbols by their ranges, in the order of the ranges
    /// and one for each range
    pub range: Vec<(OrderedRange, String)>,
    /// The nodes of the components, each once, in the order they appear
    pub nodes: Vec<String>,
}

/// Mathematical content of a [`SymbolTable`].
pub struct SymbolTableView {
    pub table: Seq<SymbolView>,
    pub range: Seq<(OrderedRange, Seq<char>)>,
    pub nodes: Seq<Seq<char>>,
}

/// The contents of a list of symbols.
pub open spec fn symbol_views(table: Seq<Symbol>) -> Seq<SymbolView> {
    table.map_values(|s: Symbol| s.deep_view())
}

/// The contents of a list of named ranges.
pub open spec fn range_views(range: Seq<(OrderedRange, String)>) -> Seq<(OrderedRange, Seq<char>)> {
    range.map_values(|e: (OrderedRange, String)| (e.0, e.1@))
}

/// The contents of a list of names.
pub open spec fn name_views(names: Seq<String>) -> Seq<Seq<char>> {
    names.map_values(|n: String| n@)
}

impl DeepView for SymbolTable {
    type V = SymbolTableView;

    open spec fn deep_view(&self) -> SymbolTableView {
        SymbolTableView {
            table: symbol_views(self.table@),
            range: range_views(self.range@),
            nodes: name_views(self.nodes@),
        }
    }
}

/// The table of no symbol.
pub open spec fn no_symbols() -> SymbolTableView {
    SymbolTableView { table: Seq::empty(), range: Seq::empty(), nodes: Seq::empty() }
}

/// Where an atom stands, as a range of its line. A number that is no
/// `u32` is held at the greatest.
pub open spec fn range_of(a: AtomView) -> Range {
    Range {
        start: Position { line: clipped(a.line as int), character: clipped(a.column.0 as int) },
        end: Position { line: clipped(a.line as int), character: clipped(a.column.1 as int) },
    }
}

/// The symbol that a name stands for.
pub open spec fn symbol_of(
    name: AtomView,
    kind: SpiceSymbolKind,
    container: Option<Seq<char>>,
) -> SymbolView {
    SymbolView { name: name.raw, range: range_of(name), kind, container, refcnt: 0 }
}

/// The first place from `i` on of a symbol with the name `name`.
pub open spec fn first_named(table: Seq<SymbolView>, name: Seq<char>, i: nat) -> Option<nat>
    decreases table.len() - i,
{
    if i >= table.len() {
        None
    } else if table[i as int].name == name {
        Some(i)
    } else {
        first_named(table, name, i + 1)
    }
}

/// A list of symbols with one more: it takes the place of the symbol of
/// its name, or the last place where there is none.
pub open spec fn table_with(table: Seq<SymbolView>, symbol: SymbolView) -> Seq<SymbolView> {
    match first_named(table, symbol.name, 0) {
        Some(i) => table.update(i as int, symbol),
        None => table.push(symbol),
    }
}

/// The first place from `i` on whose range does not come before `key`.
pub open spec fn slot(range: Seq<(OrderedRange, Seq<char>)>, key: OrderedRange, i: nat) -> nat
    decreases range.len() - i,
{
    if i >= range.len() || !range[i as int].0.before(key) {
        i
    } else {
        slot(range, key, i + 1)
    }
}

/// A list of named ranges with one more: the name takes the place of the
/// name of the same range, or stands before the first range that comes
/// after its own.
pub open spec fn range_with(
    range: Seq<(OrderedRange, Seq<char>)>,
    key: OrderedRange,
    name: Seq<char>,
) -> Seq<(OrderedRange, Seq<char>)> {
    let i = slot(range, key, 0) as int;
    if i < range.len() && range[i].0 == key {
        range.update(i, (key, name))
    } else {
        range.insert(i, (key, name))
    }
}

/// A table with one more symbol.
pub open spec fn with_symbol(t: SymbolTableView, symbol: SymbolView) -> SymbolTableView {
    SymbolTableView {
        table: table_with(t.table, symbol),
        range: range_with(
            t.range,
            OrderedRange { start: symbol.range.start, end: symbol.range.end },
            symbol.name,
        ),
        nodes: t.nodes,
    }
}

/// A list of nodes with one more, unless it is there already.
pub open spec fn nodes_with(nodes: Seq<Seq<char>>, node: Seq<char>) -> Seq<Seq<char>> {
    if nodes.contains(node) {
        nodes
    } else {
        nodes.push(node)
    }
}

/// A list of nodes with the first `n` of `more`.
pub open spec fn nodes_with_all(nodes: Seq<Seq<char>>, more: Seq<crate::ast::Node>, n: nat) -> Seq<
    Seq<char>,
>
    decreases n,
{
    if n == 0 || n > more.len() {
        nodes
    } else {
        nodes_with(nodes_with_all(nodes, more, (n - 1) as nat), more[n - 1].deep_view().raw)
    }
}

/// A table with what an instruction adds: a component adds its symbol and
/// its nodes, a command nothing.
pub open spec fn collected(
    t: SymbolTableView,
    instruction: Instruction,
    container: Option<Seq<char>>,
) -> SymbolTableView {
    match instruction {
        Instruction::Component(c) => {
            let named = with_symbol(
                t,
                symbol_of(c.name_view(), SpiceSymbolKind::Component, container),
            );
            SymbolTableView {
                table: named.table,
                range: named.range,
                nodes: nodes_with_all(named.nodes, c.exposed(), c.exposed().len()),
            }
        },
        Instruction::Command(_) => t,
    }
}

/// The table of a program's name.
pub open spec fn titled(name: Option<AtomView>) -> SymbolTableView {
    match name {
        Some(n) => with_symbol(no_symbols(), symbol_of(n, SpiceSymbolKind::CircuitName, None)),
        None => no_symbols(),
    }
}

/// The table of a program's name and its first `n` instructions.
pub open spec fn built(program: Program, n: nat) -> SymbolTableView
    decreases n,
{
    if n == 0 || n > program.instructions@.len() {
        titled(program.name.deep_view())
    } else {
        collected(built(program, (n - 1) as nat), program.instructions@[n - 1], None)
    }
}

/// The name of the first range from `i` on that holds the place `p`.
pub open spec fn holder(range: Seq<(OrderedRange, Seq<char>)>, p: Position, i: nat) -> Option<
    Seq<char>,
>
    decreases range.len() - i,
{
    if i >= range.len() {
        None
    } else if range[i as int].0.holds(p) {
        Some(range[i as int].1)
    } else {
        holder(range, p, i + 1)
    }
}

/// The symbol of a name.
pub open spec fn named(table: Seq<SymbolView>, name: Seq<char>) -> Option<SymbolView> {
    match first_named(table, name, 0) {
        Some(i) => Some(table[i as int]),
        None => None,
    }
}

/// The symbol at a place: that of the name of the first range that holds
/// the place.
pub open spec fn symbol_at(t: SymbolTableView, p: Position) -> Option<SymbolView> {
    match holder(t.range, p, 0) {
        Some(name) => named(t.table, name),
        None => None,
    }
}

/// Whether the ranges of a list stand in their order, each once.
pub open spec fn in_order(range: Seq<(OrderedRange, Seq<char>)>) -> bool {
    forall|i: int, j: int| 0 <= i < j < range.len() ==> (#[trigger] range[i]).0.before(
        (#[trigger] range[j]).0,
    )
}

/// Whether no two symbols of a list have the same name.
pub open spec fn one_of_each_name(table: Seq<SymbolView>) -> bool {
    forall|i: int, j: int|
        0 <= i < j < table.len() ==> (#[trigger] table[i]).name != (#[trigger] table[j]).name
}

/// Whether no node stands twice in a list.
pub open spec fn each_once(nodes: Seq<Seq<char>>) -> bool {
    forall|i: int, j: int| 0 <= i < j < nodes.len() ==> #[trigger] nodes[i] != #[trigger] nodes[j]
}

impl SymbolTableView {
    /// Whether the table is one of a program: the ranges stand in their
    /// order, no two symbols have the same name, and no node stands twice.
    pub open spec fn well_formed(self) -> bool {
        in_order(self.range) && one_of_each_name(self.table) && each_once(self.nodes)
    }
}

impl SymbolTable {
    /// The table of no symbol.
    pub fn new() -> (r: Self)
        ensures
            r.deep_view() == no_symbols(),
    {
        let r = SymbolTable { table: Vec::new(), range: Vec::new(), nodes: Vec::new() };
        assert(r.deep_view().table =~= Seq::empty());
        assert(r.deep_view().range =~= Seq::empty());
        assert(r.deep_view().nodes =~= Seq::empty());
        r
    }

    /// Adds a symbol under its name and under its range.
    fn insert(&mut self, symbol: Symbol)
        ensures
            final(self).deep_view() == with_symbol(old(self).deep_view(), symbol.deep_view()),
    {
        let key = OrderedRange { start: symbol.range.start, end: symbol.range.end };
        let ghost ranges = range_views(self.range@);
        let mut i: usize = 0;
        while i < self.range.len() && self.range[i].0.precedes(&key)
            invariant
                i <= self.range.len(),
                self.range@ == old(self).range@,
                slot(ranges, key, i as nat) == slot(ranges, key, 0),
                ranges == range_views(self.range@),
            decreases self.range.len() - i,
        {
            i += 1;
        }
        if i < self.range.len() && self.range[i].0 == key {
            self.range.set(i, (key, symbol.name.clone()));
            assert(range_views(self.range@) =~= ranges.update(i as int, (key, symbol.name@)));
        } else {
            self.range.insert(i, (key, symbol.name.clone()));
            assert(range_views(self.range@) =~= ranges.insert(i as int, (key, symbol.name@)));
        }
        let ghost table = symbol_views(self.table@);
        let mut k: usize = 0;
        while k < self.table.len() && !same_text(self.table[k].name.as_str(), symbol.name.as_str())
            invariant
                k <= self.table.len(),
                self.table@ == old(self).table@,
                self.nodes@ == old(self).nodes@,
                table == symbol_views(self.table@),
                first_named(table, symbol.name@, k as nat) == first_named(table, symbol.name@, 0),
                range_views(self.range@) == range_with(ranges, key, symbol.name@),
                ranges == range_views(old(self).range@),
            decreases self.table.len() - k,
        {
            k += 1;
        }
        if k < self.table.len() {
            self.table.set(k, symbol);
            assert(symbol_views(self.table@) =~= table.update(k as int, symbol.deep_view()));
        } else {
            self.table.push(symbol);
            assert(symbol_views(self.table@) =~= table.push(symbol.deep_view()));
        }
    }

    /// Adds a node, unless it is there already.
    fn add_node(&mut self, node: &str)
        ensures
            final(self).table == old(self).table,
            final(self).range == old(self).range,
            name_views(final(self).nodes@) == nodes_with(name_views(old(self).nodes@), node@),
    {
        let ghost nodes = name_views(self.nodes@);
        let mut i: usize = 0;
        while i < self.nodes.len()
            invariant
                i <= self.nodes.len(),
                *self == *old(self),
                nodes == name_views(self.nodes@),
                forall|k: int| 0 <= k < i ==> nodes[k] != node@,
            decreases self.nodes.len() - i,
        {
            if same_text(self.nodes[i].as_str(), node) {
                assert(nodes[i as int] == node@);
                return ;
            }
            i += 1;
        }
        self.nodes.push(node.to_owned());
        assert(name_views(self.nodes@) =~= nodes.push(node@));
    }

    /// Where a name stands, as a range of its line.
    fn name_to_range(name: &Name) -> (r: Range)
        ensures
            r == range_of(name.deep_view()),
    {
        let atom = &name.0;
        let line = clip(atom.line);
        Range {
            start: Position { line, character: clip(atom.column.0) },
            end: Position { line, character: clip(atom.column.1) },
        }
    }

    /// The symbol of a name.
    fn symbol_from_name(name: &Name, kind: SpiceSymbolKind) -> (r: Symbol)
        ensures
            r.deep_view() == symbol_of(name.deep_view(), kind, None),
    {
        Symbol {
            name: name.0.to_string(),
            range: Self::name_to_range(name),
            kind,
            container: None,
            refcnt: 0,
        }
    }

    /// The symbol of a component.
    fn symbol_from_component(cmp: &Component, container: Option<String>) -> (r: Symbol)
        ensures
            r.deep_view() == symbol_of(
                cmp.name_view(),
                SpiceSymbolKind::Component,
                match container {
                    Some(c) => Some(c@),
                    None => None,
                },
            ),
    {
        let name = cmp.name();
        Symbol {
            name: name.0.to_string(),
            range: Self::name_to_range(name),
            kind: SpiceSymbolKind::Component,
            container,
            refcnt: 0,
        }
    }

    /// Adds what an instruction names: the symbol and the nodes of a
    /// component.
    fn collect_node(ins: &Instruction, table: &mut SymbolTable, container: Option<String>)
        ensures
            final(table).deep_view() == collected(
                old(table).deep_view(),
                *ins,
                match container {
                    Some(c) => Some(c@),
                    None => None,
                },
            ),
    {
        match ins {
            Instruction::Component(c) => {
                let sym = Self::symbol_from_component(c, container);
                table.insert(sym);
                let nodes = c.nodes();
                let ghost before = name_views(table.nodes@);
                let mut i: usize = 0;
                while i < nodes.len()
                    invariant
                        i <= nodes.len(),
                        nodes@ == c.exposed(),
                        symbol_views(table.table@) == with_symbol(
                            old(table).deep_view(),
                            sym.deep_view(),
                        ).table,
                        range_views(table.range@) == with_symbol(
                            old(table).deep_view(),
                            sym.deep_view(),
                        ).range,
                        name_views(table.nodes@) == nodes_with_all(before, nodes@, i as nat),
                    decreases nodes.len() - i,
                {
                    table.add_node(nodes[i].0.raw.as_str());
                    i += 1;
                }
            },
            Instruction::Command(_) => {},
        }
    }

    /// The symbols of a program: its name, and its components with the
    /// nodes that they connect.
    pub fn build_from_ast(program: &Program) -> (r: Self)
        ensures
            r.deep_view() == built(*program, program.instructions@.len()),
            r.deep_view().well_formed(),
    {
        let mut table = SymbolTable::new();
        if let Some(name) = &program.name {
            let symbol = Self::symbol_from_name(name, SpiceSymbolKind::CircuitName);
            table.insert(symbol);
        }
        let mut i: usize = 0;
        while i < program.instructions.len()
            invariant
                i <= program.instructions.len(),
                table.deep_view() == built(*program, i as nat),
            decreases program.instructions.len() - i,
        {
            Self::collect_node(&program.instructions[i], &mut table, None);
            i += 1;
        }
        proof {
            lemma_built_well_formed(*program, program.instructions@.len());
        }
        table
    }

    /// The names of the nodes of the document.
    pub fn get_node_names(&self) -> (r: Vec<String>)
        ensures
            name_views(r@) == self.deep_view().nodes,
    {
        let mut r: Vec<String> = Vec::new();
        let mut i: usize = 0;
        while i < self.nodes.len()
            invariant
                i <= self.nodes.len(),
                name_views(r@) == name_views(self.nodes@).subrange(0, i as int),
            decreases self.nodes.len() - i,
        {
            let ghost before = name_views(r@);
            let node = self.nodes[i].clone();
            assert(node@ == name_views(self.nodes@)[i as int]);
            r.push(node);
            i += 1;
            assert(name_views(r@) =~= before.push(node@));
            assert(name_views(r@) =~= name_views(self.nodes@).subrange(0, i as int));
        }
        assert(name_views(self.nodes@).subrange(0, i as int) =~= name_views(self.nodes@));
        r
    }

    /// The name of the symbol at a place: that of the first range that
    /// holds the place.
    pub fn symbol_name_at_position(&self, position: Position) -> (r: Option<String>)
        ensures
            match r {
                Some(name) => holder(self.deep_view().range, position, 0) == Some(name@),
                None => holder(self.deep_view().range, position, 0) is None,
            },
    {
        let ghost range = range_views(self.range@);
        let mut i: usize = 0;
        while i < self.range.len()
            invariant
                i <= self.range.len(),
                range == range_views(self.range@),
                holder(range, position, i as nat) == holder(range, position, 0),
            decreases self.range.len() - i,
        {
            if self.range[i].0.contains(position) {
                return Some(self.range[i].1.clone());
            }
            i += 1;
        }
        None
    }

    /// The symbol at a place.
    pub fn symbol_at_position(&self, position: Position) -> (r: Option<&Symbol>)
        ensures
            match r {
                Some(symbol) => symbol_at(self.deep_view(), position) == Some(symbol.deep_view()),
                None => symbol_at(self.deep_view(), position) is None,
            },
    {
        match self.symbol_name_at_position(position) {
            Some(name) => {
                let ghost table = symbol_views(self.table@);
                let mut k: usize = 0;
                while k < self.table.len()
                    invariant
                        k <= self.table.len(),
                        table == symbol_views(self.table@),
                        first_named(table, name@, k as nat) == first_named(table, name@, 0),
                        holder(self.deep_view().range, position, 0) == Some(name@),
                    decreases self.table.len() - k,
                {
                    if same_text(self.table[k].name.as_str(), name.as_str()) {
                        assert(table[k as int] == self.table[k as int].deep_view());
                        return Some(&self.table[k]);
                    }
                    k += 1;
                }
                None
            },
            None => None,
        }
    }
}

/// Before the slot of a range stand the ranges that come before it, and
/// at the slot stands none of them.
pub proof fn lemma_slot(range: Seq<(OrderedRange, Seq<char>)>, key: OrderedRange, i: nat)
    requires
        i <= range.len(),
    ensures
        i <= slot(range, key, i) <= range.len(),
        forall|k: int| i <= k < slot(range, key, i) ==> (#[trigger] range[k]).0.before(key),
        slot(range, key, i) < range.len() ==> !range[slot(range, key, i) as int].0.before(key),
    decreases range.len() - i,
{
    if !(i >= range.len() || !range[i as int].0.before(key)) {
        lemma_slot(range, key, i + 1);
    }
}

/// A list of ranges that stands in its order stays so with one more.
pub proof fn lemma_range_with_in_order(
    range: Seq<(OrderedRange, Seq<char>)>,
    key: OrderedRange,
    name: Seq<char>,
)
    requires
        in_order(range),
    ensures
        in_order(range_with(range, key, name)),
{
    lemma_slot(range, key, 0);
    let i = slot(range, key, 0) as int;
    let after = range_with(range, key, name);
    if i < range.len() && range[i].0 == key {
        assert forall|a: int, b: int| 0 <= a < b < after.len() implies (#[trigger] after[a]).0.before(
            (#[trigger] after[b]).0,
        ) by {
            assert(after[a].0 == range[a].0);
            assert(after[b].0 == range[b].0);
        }
    } else {
        assert forall|a: int, b: int| 0 <= a < b < after.len() implies (#[trigger] after[a]).0.before(
            (#[trigger] after[b]).0,
        ) by {
            if b < i {
                assert(after[a] == range[a] && after[b] == range[b]);
            } else if b == i {
                assert(after[a] == range[a]);
            } else if a == i {
                assert(after[b] == range[b - 1]);
                if i < b - 1 {
                    assert(range[i].0.before(range[b - 1].0));
                }
            } else if a < i {
                assert(after[a] == range[a] && after[b] == range[b - 1]);
            } else {
                assert(after[a] == range[a - 1] && after[b] == range[b - 1]);
            }
        }
    }
}

/// The first symbol of a name bears that name, and none before it does.
pub proof fn lemma_first_named(table: Seq<SymbolView>, name: Seq<char>, i: nat)
    requires
        i <= table.len(),
    ensures
        match first_named(table, name, i) {
            Some(k) => i <= k < table.len() && table[k as int].name == name,
            None => forall|j: int| i <= j < table.len() ==> (#[trigger] table[j]).name != name,
        },
    decreases table.len() - i,
{
    if i < table.len() && table[i as int].name != name {
        lemma_first_named(table, name, i + 1);
    }
}

/// A list with one symbol of each name stays so with one more.
pub proof fn lemma_table_with_names(table: Seq<SymbolView>, symbol: SymbolView)
    requires
        one_of_each_name(table),
    ensures
        one_of_each_name(table_with(table, symbol)),
{
    lemma_first_named(table, symbol.name, 0);
    let after = table_with(table, symbol);
    assert forall|i: int, j: int| 0 <= i < j < after.len() implies (#[trigger] after[i]).name != (
    #[trigger] after[j]).name by {
        match first_named(table, symbol.name, 0) {
            Some(k) => {
                assert(after[i].name == table[i].name);
                assert(after[j].name == table[j].name);
            },
            None => {
                if j < table.len() {
                    assert(after[i] == table[i] && after[j] == table[j]);
                } else {
                    assert(after[i] == table[i]);
                }
            },
        }
    }
}

/// A list in which no node stands twice stays so with more nodes.
pub proof fn lemma_nodes_with_all_once(nodes: Seq<Seq<char>>, more: Seq<crate::ast::Node>, n: nat)
    requires
        each_once(nodes),
    ensures
        each_once(nodes_with_all(nodes, more, n)),
    decreases n,
{
    if !(n == 0 || n > more.len()) {
        lemma_nodes_with_all_once(nodes, more, (n - 1) as nat);
        let before = nodes_with_all(nodes, more, (n - 1) as nat);
        let node = more[n - 1].deep_view().raw;
        if !before.contains(node) {
            let after = before.push(node);
            assert forall|i: int, j: int| 0 <= i < j < after.len() implies #[trigger] after[i]
                != #[trigger] after[j] by {
                if j < before.len() {
                    assert(after[i] == before[i] && after[j] == before[j]);
                } else {
                    assert(after[i] == before[i]);
                    assert(before.contains(before[i]));
                }
            }
        }
    }
}

/// A well-formed table stays so with one more symbol.
pub proof fn lemma_with_symbol_well_formed(t: SymbolTableView, symbol: SymbolView)
    requires
        t.well_formed(),
    ensures
        with_symbol(t, symbol).well_formed(),
{
    lemma_table_with_names(t.table, symbol);
    lemma_range_with_in_order(
        t.range,
        OrderedRange { start: symbol.range.start, end: symbol.range.end },
        symbol.name,
    );
}

/// The table of a program is well formed.
pub proof fn lemma_built_well_formed(program: Program, n: nat)
    ensures
        built(program, n).well_formed(),
    decreases n,
{
    if n == 0 || n > program.instructions@.len() {
        match program.name.deep_view() {
            Some(name) => {
                lemma_with_symbol_well_formed(
                    no_symbols(),
                    symbol_of(name, SpiceSymbolKind::CircuitName, None),
                );
            },
            None => {},
        }
    } else {
        lemma_built_well_formed(program, (n - 1) as nat);
        let t = built(program, (n - 1) as nat);
        match program.instructions@[n - 1] {
            Instruction::Component(c) => {
                let named = with_symbol(
                    t,
                    symbol_of(c.name_view(), SpiceSymbolKind::Component, None),
                );
                lemma_with_symbol_well_formed(
                    t,
                    symbol_of(c.name_view(), SpiceSymbolKind::Component, None),
                );
                lemma_nodes_with_all_once(named.nodes, c.exposed(), c.exposed().len());
            },
            Instruction::Command(_) => {},
        }
    }
}

} // verus!
