//! Printing of operations, selection sets, directives and arguments.

use vstd::prelude::*;

use crate::ast::base::Ident;
use crate::ast::directive::Directive;
use crate::ast::operation::{ExecutableDefinition, OperationDefinition, OperationDocument};
use crate::ast::selection_set::{Field, Selection, SelectionSet};
use crate::ast::value::{Arguments, Value};
use crate::ast::variable::{VariableDefinition, VariablesDefinition};

use super::base::{
    all_printed, each_printed, lemma_empty_literal, marked, opt_printed, opt_text, print_each, print_opt, print_separated, separated_printed,
    GraphQLPrinter,
};
use super::type_system::{lemma_one_text, lemma_printed_text_add, printed_text};
use super::writer::{text, ChunkView, GraphQLWriter};

verus! {

/// The output of printing the first `n` arguments, each as `name: value` followed by a
/// suffix.
pub open spec fn argument_pairs_printed<'a>(
    ps: Seq<(Ident<'a>, Value<'a>)>,
    suffix: Seq<ChunkView>,
    n: nat,
) -> Seq<ChunkView>
    decreases n,
{
    if n == 0 || n > ps.len() {
        Seq::empty()
    } else {
        argument_pairs_printed(ps, suffix, (n - 1) as nat) + ps[n - 1].0.printed() + text(": "@)
            + ps[n - 1].1.printed() + suffix
    }
}

impl<'a> GraphQLPrinter for Arguments<'a> {
    /// Up to one argument on the same line; more, one per line, indented.
    open spec fn printed(&self) -> Seq<ChunkView> {
        let ps = self.arguments@;
        text("("@) + (if ps.len() < 2 {
            argument_pairs_printed(ps, Seq::empty(), ps.len())
        } else {
            text("\n"@) + seq![ChunkView::Indent] + argument_pairs_printed(ps, text("\n"@), ps.len())
                + seq![ChunkView::Dedent]
        }) + text(")"@)
    }

    fn print_graphql(&self, writer: &mut GraphQLWriter) {
        let ghost w0 = writer@;
        let ps = &self.arguments;
        writer.write("(");
        let multiline = ps.len() >= 2;
        if multiline {
            writer.write("\n");
            writer.indent();
        }
        let ghost w1 = writer@;
        let ghost suffix = if multiline {
            text("\n"@)
        } else {
            Seq::empty()
        };
        let mut i: usize = 0;
        while i < ps.len()
            invariant
                i <= ps@.len(),
                ps == &self.arguments,
                suffix == (if multiline {
                    text("\n"@)
                } else {
                    Seq::<ChunkView>::empty()
                }),
                writer@ == w1 + argument_pairs_printed(ps@, suffix, i as nat),
            decreases ps@.len() - i,
        {
            ps[i].0.print_graphql(writer);
            writer.write(": ");
            ps[i].1.print_graphql(writer);
            if multiline {
                writer.write("\n");
            }
            assert(writer@ =~= w1 + argument_pairs_printed(ps@, suffix, (i + 1) as nat));
            i += 1;
        }
        if multiline {
            writer.dedent();
        }
        writer.write(")");
        assert(writer@ =~= w0 + self.printed());
    }
}

impl<'a> GraphQLPrinter for Directive<'a> {
    open spec fn printed(&self) -> Seq<ChunkView> {
        text("@"@) + self.name.printed() + opt_printed(self.arguments)
    }

    fn print_graphql(&self, writer: &mut GraphQLWriter) {
        let ghost w0 = writer@;
        writer.write("@");
        self.name.print_graphql(writer);
        print_opt(&self.arguments, writer);
        assert(writer@ =~= w0 + self.printed());
    }
}

impl<'a> GraphQLPrinter for VariableDefinition<'a> {
    open spec fn printed(&self) -> Seq<ChunkView> {
        self.name.printed() + text(": "@) + self.ty.printed()
    }

    fn print_graphql(&self, writer: &mut GraphQLWriter) {
        let ghost w0 = writer@;
        self.name.print_graphql(writer);
        writer.write(": ");
        self.ty.print_graphql(writer);
        assert(writer@ =~= w0 + self.printed());
    }
}

impl<'a> GraphQLPrinter for VariablesDefinition<'a> {
    /// Up to one variable on the same line; more, one per line, indented.
    open spec fn printed(&self) -> Seq<ChunkView> {
        let ds = self.definitions@;
        text("("@) + (if ds.len() < 2 {
            all_printed(ds, Seq::empty(), Seq::empty())
        } else {
            text("\n"@) + seq![ChunkView::Indent] + separated_printed(ds, ",\n"@, ds.len()) + seq![
                ChunkView::Dedent,
            ] + text("\n"@)
        }) + text(")"@)
    }

    fn print_graphql(&self, writer: &mut GraphQLWriter) {
        let ghost w0 = writer@;
        writer.write("(");
        if self.definitions.len() < 2 {
            print_each(self.definitions.as_slice(), "", "", writer);
            proof {
                lemma_empty_literal();
            }
        } else {
            writer.write("\n");
            writer.indent();
            print_separated(self.definitions.as_slice(), ",\n", writer);
            writer.dedent();
            writer.write("\n");
        }
        writer.write(")");
        assert(writer@ =~= w0 + self.printed());
    }
}

/// The output of printing a selection set: its selections one per line, indented, in
/// braces.
pub open spec fn selection_set_printed<'a>(ss: SelectionSet<'a>) -> Seq<ChunkView>
    decreases ss, 1nat, 0nat,
{
    text("{\n"@) + seq![ChunkView::Indent] + selections_printed(ss, ss.selections@.len()) + seq![
        ChunkView::Dedent,
    ] + text("}"@)
}

/// The output of printing the first `n` selections of a selection set, each followed by a
/// line break.
pub open spec fn selections_printed<'a>(ss: SelectionSet<'a>, n: nat) -> Seq<ChunkView>
    decreases ss, 0nat, n,
{
    if n == 0 || n > ss.selections@.len() {
        Seq::empty()
    } else {
        proof {
            assert(decreases_to!(ss => ss.selections));
            assert(decreases_to!(ss.selections => ss.selections@));
            assert(decreases_to!(ss.selections@ => ss.selections@[n - 1]));
        }
        selections_printed(ss, (n - 1) as nat) + selection_printed(ss.selections@[n - 1]) + text(
            "\n"@,
        )
    }
}

/// The output of printing a selection.
pub open spec fn selection_printed<'a>(sel: Selection<'a>) -> Seq<ChunkView>
    decreases sel, 0nat, 0nat,
{
    match sel {
        Selection::Field(f) => (match f.alias {
            Some(a) => a.printed() + text(": "@),
            None => Seq::empty(),
        }) + f.name.printed() + opt_printed(f.arguments) + all_printed(
            f.directives@,
            " "@,
            Seq::empty(),
        ) + match f.selection_set {
            Some(ss) => text(" "@) + selection_set_printed(ss),
            None => Seq::empty(),
        },
        Selection::FragmentSpread(s) => text("... "@) + s.fragment_name.printed() + all_printed(
            s.directives@,
            " "@,
            Seq::empty(),
        ),
        Selection::InlineFragment(i) => text("... "@) + (match i.type_condition {
            Some(tc) => text("on "@) + tc.printed() + text(" "@),
            None => Seq::empty(),
        }) + all_printed(i.directives@, " "@, Seq::empty()) + selection_set_printed(i.selection_set),
    }
}

/// Prints a selection set.
pub fn print_selection_set<'a>(ss: &SelectionSet<'a>, writer: &mut GraphQLWriter)
    ensures
        final(writer)@ == old(writer)@ + selection_set_printed(*ss),
    decreases *ss, 2nat,
{
    let ghost w0 = writer@;
    writer.write("{\n");
    writer.indent();
    let ghost w1 = writer@;
    let mut i: usize = 0;
    while i < ss.selections.len()
        invariant
            i <= ss.selections@.len(),
            writer@ == w1 + selections_printed(*ss, i as nat),
        decreases ss.selections@.len() - i,
    {
        proof {
            assert(decreases_to!(*ss => ss.selections));
            assert(decreases_to!(ss.selections => ss.selections@));
            assert(decreases_to!(ss.selections@ => ss.selections@[i as int]));
        }
        print_selection(&ss.selections[i], writer);
        writer.write("\n");
        assert(writer@ =~= w1 + selections_printed(*ss, (i + 1) as nat));
        i += 1;
    }
    writer.dedent();
    writer.write("}");
    assert(writer@ =~= w0 + selection_set_printed(*ss));
}

/// Prints a selection.
pub fn print_selection<'a>(sel: &Selection<'a>, writer: &mut GraphQLWriter)
    ensures
        final(writer)@ == old(writer)@ + selection_printed(*sel),
    decreases *sel, 1nat,
{
    match sel {
        Selection::Field(_) => print_field_selection(sel, writer),
        Selection::FragmentSpread(_) => print_spread_selection(sel, writer),
        Selection::InlineFragment(_) => print_inline_selection(sel, writer),
    }
}

/// Prints a selection that is a field.
fn print_field_selection<'a>(sel: &Selection<'a>, writer: &mut GraphQLWriter)
    requires
        sel is Field,
    ensures
        final(writer)@ == old(writer)@ + selection_printed(*sel),
    decreases *sel, 0nat,
{
    let ghost w0 = writer@;
    if let Selection::Field(field) = sel {
        if let Some(name) = &field.alias {
            name.print_graphql(writer);
            writer.write(": ");
        }
        field.name.print_graphql(writer);
        print_opt(&field.arguments, writer);
        print_each(field.directives.as_slice(), " ", "", writer);
        proof {
            lemma_empty_literal();
        }
        let ghost w1 = writer@;
        if let Some(selection_set) = &field.selection_set {
            writer.write(" ");
            print_selection_set(selection_set, writer);
        }
        assert(writer@ =~= w1 + match field.selection_set {
            Some(ss) => text(" "@) + selection_set_printed(ss),
            None => Seq::empty(),
        });
        assert(writer@ =~= w0 + selection_printed(*sel));
    }
}

/// Prints a selection that is a fragment spread.
fn print_spread_selection<'a>(sel: &Selection<'a>, writer: &mut GraphQLWriter)
    requires
        sel is FragmentSpread,
    ensures
        final(writer)@ == old(writer)@ + selection_printed(*sel),
    decreases *sel, 0nat,
{
    let ghost w0 = writer@;
    if let Selection::FragmentSpread(spread) = sel {
        writer.write("... ");
        spread.fragment_name.print_graphql(writer);
        print_each(spread.directives.as_slice(), " ", "", writer);
        proof {
            lemma_empty_literal();
        }
        assert(writer@ =~= w0 + selection_printed(*sel));
    }
}

/// Prints a selection that is an inline fragment.
fn print_inline_selection<'a>(sel: &Selection<'a>, writer: &mut GraphQLWriter)
    requires
        sel is InlineFragment,
    ensures
        final(writer)@ == old(writer)@ + selection_printed(*sel),
    decreases *sel, 0nat,
{
    let ghost w0 = writer@;
    if let Selection::InlineFragment(fragment) = sel {
        writer.write("... ");
        let ghost w1 = writer@;
        if let Some(type_condition) = &fragment.type_condition {
            writer.write("on ");
            type_condition.print_graphql(writer);
            writer.write(" ");
        }
        assert(writer@ =~= w1 + match fragment.type_condition {
            Some(tc) => text("on "@) + tc.printed() + text(" "@),
            None => Seq::empty(),
        });
        print_each(fragment.directives.as_slice(), " ", "", writer);
        proof {
            lemma_empty_literal();
        }
        print_selection_set(&fragment.selection_set, writer);
        assert(writer@ =~= w0 + selection_printed(*sel));
    }
}

impl<'a> GraphQLPrinter for SelectionSet<'a> {
    open spec fn printed(&self) -> Seq<ChunkView> {
        selection_set_printed(*self)
    }

    fn print_graphql(&self, writer: &mut GraphQLWriter) {
        print_selection_set(self, writer);
    }
}

impl<'a> GraphQLPrinter for Selection<'a> {
    open spec fn printed(&self) -> Seq<ChunkView> {
        selection_printed(*self)
    }

    fn print_graphql(&self, writer: &mut GraphQLWriter) {
        print_selection(self, writer);
    }
}

impl<'a> GraphQLPrinter for OperationDefinition<'a> {
    open spec fn printed(&self) -> Seq<ChunkView> {
        text(self.operation_type.spec_str()) + (match self.name {
            Some(n) => text(" "@) + n.printed(),
            None => Seq::empty(),
        }) + opt_printed(self.variables_definition) + all_printed(
            self.directives@,
            " "@,
            Seq::empty(),
        ) + text(" "@) + selection_set_printed(self.selection_set)
    }

    fn print_graphql(&self, writer: &mut GraphQLWriter) {
        let ghost w0 = writer@;
        writer.write(self.operation_type.as_str());
        if let Some(name) = &self.name {
            writer.write(" ");
            name.print_graphql(writer);
        }
        print_opt(&self.variables_definition, writer);
        print_each(self.directives.as_slice(), " ", "", writer);
        proof {
            lemma_empty_literal();
        }
        writer.write(" ");
        print_selection_set(&self.selection_set, writer);
        assert(writer@ =~= w0 + self.printed());
    }
}

impl<'a> ExecutableDefinition<'a> {
    /// The output of printing an operation definition. Printing fragment definitions is not
    /// supported.
    pub open spec fn printed(self) -> Seq<ChunkView> {
        match self {
            ExecutableDefinition::OperationDefinition(op) => op.printed(),
            ExecutableDefinition::FragmentDefinition(_) => Seq::empty(),
        }
    }

    /// Prints an operation definition.
    pub fn print_graphql(&self, writer: &mut GraphQLWriter)
        requires
            *self is OperationDefinition,
        ensures
            final(writer)@ == old(writer)@ + self.printed(),
    {
        match self {
            ExecutableDefinition::OperationDefinition(op) => {
                op.print_graphql(writer);
            },
            ExecutableDefinition::FragmentDefinition(_) => {},
        }
    }
}

/// The output of printing the first `n` definitions of an operation document, each
/// followed by a line break.
pub open spec fn executable_definitions_printed<'a>(defs: Seq<ExecutableDefinition<'a>>, n: nat) -> Seq<
    ChunkView,
>
    decreases n,
{
    if n == 0 || n > defs.len() {
        Seq::empty()
    } else {
        executable_definitions_printed(defs, (n - 1) as nat) + defs[n - 1].printed() + text("\n"@)
    }
}

impl<'a> OperationDocument<'a> {
    /// Prints the operations of a document, each followed by a line break. Printing
    /// fragment definitions is not supported.
    pub fn print_graphql(&self, writer: &mut GraphQLWriter)
        requires
            forall|i: int|
                0 <= i < self.definitions@.len() ==> #[trigger] self.definitions@[i] is OperationDefinition,
        ensures
            final(writer)@ == old(writer)@ + executable_definitions_printed(
                self.definitions@,
                self.definitions@.len(),
            ),
    {
        let mut i: usize = 0;
        while i < self.definitions.len()
            invariant
                i <= self.definitions@.len(),
                forall|k: int|
                    0 <= k < self.definitions@.len() ==> #[trigger] self.definitions@[k] is OperationDefinition,
                writer@ == old(writer)@ + executable_definitions_printed(
                    self.definitions@,
                    i as nat,
                ),
            decreases self.definitions@.len() - i,
        {
            self.definitions[i].print_graphql(writer);
            writer.write("\n");
            assert(writer@ =~= old(writer)@ + executable_definitions_printed(
                self.definitions@,
                (i + 1) as nat,
            ));
            i += 1;
        }
    }
}


/// The text of a list of directives as printed after a node: each in order as a space,
/// `@`, its name and its arguments.
pub open spec fn directives_text<'a>(ds: Seq<Directive<'a>>) -> Seq<char>
    decreases ds.len(),
{
    if ds.len() == 0 {
        Seq::empty()
    } else {
        let d = ds.last();
        directives_text(ds.drop_last()) + seq![' ', '@'] + d.name.name@ + printed_text(
            opt_printed(d.arguments),
        )
    }
}

/// The text of a field selection before its selection set: the alias and `: ` where
/// there is one, the name, the arguments and the directives.
pub open spec fn field_head_text<'a>(f: Field<'a>) -> Seq<char> {
    (match f.alias {
        Some(a) => a.name@ + seq![':', ' '],
        None => Seq::empty(),
    }) + f.name.name@ + printed_text(opt_printed(f.arguments)) + directives_text(f.directives@)
}

/// The text of a field's selection set as printed after its head: a space and the set,
/// or nothing where the field has none.
pub open spec fn field_tail_text<'a>(f: Field<'a>) -> Seq<char> {
    match f.selection_set {
        Some(ss) => seq![' '] + printed_text(selection_set_printed(ss)),
        None => Seq::empty(),
    }
}

proof fn lemma_marked_text(p: crate::ast::base::Pos, s: Seq<char>)
    ensures
        printed_text(marked(p, s)) == s,
{
    let m = marked(p, s);
    assert(m.drop_last() =~= seq![ChunkView::Mark(p)]);
    assert(m.drop_last().drop_last() =~= Seq::<ChunkView>::empty());
    assert(printed_text(m.drop_last().drop_last()) == Seq::<char>::empty());
    assert(m.drop_last().last() == ChunkView::Mark(p));
    assert(printed_text(m.drop_last()) =~= Seq::<char>::empty());
    assert(Seq::<char>::empty() + s =~= s);
}

proof fn lemma_directives_text<'a>(ds: Seq<Directive<'a>>, n: nat)
    requires
        n <= ds.len(),
    ensures
        printed_text(each_printed(ds, " "@, Seq::empty(), n)) == directives_text(ds.take(n as int)),
    decreases n,
{
    reveal_strlit(" ");
    reveal_strlit("@");
    if n == 0 {
        assert(ds.take(0) =~= Seq::<Directive<'a>>::empty());
    } else {
        lemma_directives_text(ds, (n - 1) as nat);
        let d = ds[n - 1];
        let prev = each_printed(ds, " "@, Seq::empty(), (n - 1) as nat);
        assert(opt_text(" "@) == text(" "@));
        assert(opt_text(Seq::empty()) == Seq::<ChunkView>::empty());
        assert(each_printed(ds, " "@, Seq::empty(), n) =~= prev + text(" "@) + text("@"@)
            + d.name.printed() + opt_printed(d.arguments));
        lemma_printed_text_add(prev + text(" "@) + text("@"@) + d.name.printed(), opt_printed(d.arguments));
        lemma_printed_text_add(prev + text(" "@) + text("@"@), d.name.printed());
        lemma_printed_text_add(prev + text(" "@), text("@"@));
        lemma_printed_text_add(prev, text(" "@));
        lemma_one_text(" "@);
        lemma_one_text("@"@);
        lemma_marked_text(d.name.position, d.name.name@);
        assert(ds.take(n as int).drop_last() =~= ds.take((n - 1) as int));
        assert(ds.take(n as int).last() == d);
        assert(" "@ + "@"@ =~= seq![' ', '@']);
        assert(printed_text(each_printed(ds, " "@, Seq::empty(), n)) =~= directives_text(ds.take(n as int)));
    }
}

/// A printed field selection reads, in order: its alias and `: ` where there is one, its
/// name, its arguments, each of its directives as a space, `@`, the directive's name and
/// arguments, and then its selection set after a space where it has one.
pub proof fn law_field_selection_prints_directives<'a>(f: Field<'a>)
    ensures
        printed_text(selection_printed(Selection::Field(f))) == field_head_text(f) + field_tail_text(f),
{
    reveal_strlit(" ");
    reveal_strlit(": ");
    let a = match f.alias {
        Some(al) => al.printed() + text(": "@),
        None => Seq::empty(),
    };
    let nm = f.name.printed();
    let args = opt_printed(f.arguments);
    let ds = all_printed(f.directives@, " "@, Seq::empty());
    let tail = match f.selection_set {
        Some(ss) => text(" "@) + selection_set_printed(ss),
        None => Seq::empty(),
    };
    assert(selection_printed(Selection::Field(f)) == a + nm + args + ds + tail);
    lemma_printed_text_add(a + nm + args + ds, tail);
    lemma_printed_text_add(a + nm + args, ds);
    lemma_printed_text_add(a + nm, args);
    lemma_printed_text_add(a, nm);
    lemma_marked_text(f.name.position, f.name.name@);
    lemma_directives_text(f.directives@, f.directives@.len());
    assert(f.directives@.take(f.directives@.len() as int) =~= f.directives@);
    match f.alias {
        Some(al) => {
            lemma_printed_text_add(al.printed(), text(": "@));
            lemma_marked_text(al.position, al.name@);
            lemma_one_text(": "@);
            assert(": "@ =~= seq![':', ' ']);
        },
        None => {
            assert(printed_text(a) =~= Seq::<char>::empty());
        },
    }
    match f.selection_set {
        Some(ss) => {
            lemma_printed_text_add(text(" "@), selection_set_printed(ss));
            lemma_one_text(" "@);
            assert(" "@ =~= seq![' ']);
        },
        None => {
            assert(printed_text(tail) =~= Seq::<char>::empty());
        },
    }
    assert(printed_text(selection_printed(Selection::Field(f))) =~= field_head_text(f) + field_tail_text(f));
}

} // verus!
