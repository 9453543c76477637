//! Printing of the basic nodes, and of lists of nodes.

use vstd::prelude::*;

use crate::ast::base::{Ident, Keyword};
use crate::ast::types::Type;
use crate::ast::value::{value_text, StringValue, Value};
use crate::ast::variable::Variable;

use super::writer::{text, ChunkView, GraphQLWriter};

verus! {

/// Prints a node as GraphQL.
pub trait GraphQLPrinter {
    /// The output that printing the node writes.
    spec fn printed(&self) -> Seq<ChunkView>;

    /// Prints the node.
    fn print_graphql(&self, writer: &mut GraphQLWriter)
        ensures
            final(writer)@ == old(writer)@ + self.printed(),
    ;
}

/// Text that starts a node at its position.
pub open spec fn marked(position: crate::ast::base::Pos, s: Seq<char>) -> Seq<ChunkView> {
    seq![ChunkView::Mark(position), ChunkView::Text(s)]
}

impl<'a> GraphQLPrinter for Ident<'a> {
    open spec fn printed(&self) -> Seq<ChunkView> {
        marked(self.position, self.name@)
    }

    fn print_graphql(&self, writer: &mut GraphQLWriter) {
        writer.write_for(self.name, self.position);
    }
}

impl<'a> GraphQLPrinter for Keyword<'a> {
    open spec fn printed(&self) -> Seq<ChunkView> {
        marked(self.position, self.name@)
    }

    fn print_graphql(&self, writer: &mut GraphQLWriter) {
        writer.write_for(self.name, self.position);
    }
}

impl<'a> GraphQLPrinter for Variable<'a> {
    open spec fn printed(&self) -> Seq<ChunkView> {
        marked(self.position, "$"@) + text(self.name@)
    }

    fn print_graphql(&self, writer: &mut GraphQLWriter) {
        writer.write_for("$", self.position);
        writer.write(self.name);
    }
}

impl GraphQLPrinter for StringValue {
    open spec fn printed(&self) -> Seq<ChunkView> {
        marked(self.position, "\""@ + self.value@ + "\""@)
    }

    fn print_graphql(&self, writer: &mut GraphQLWriter) {
        let mut s = String::new();
        vstd::string::StringExecFns::append(&mut s, "\"");
        vstd::string::StringExecFns::append(&mut s, self.value.as_str());
        vstd::string::StringExecFns::append(&mut s, "\"");
        writer.write_for(s.as_str(), self.position);
    }
}

impl<'a> GraphQLPrinter for Value<'a> {
    open spec fn printed(&self) -> Seq<ChunkView> {
        marked(self.spec_position(), value_text(*self))
    }

    fn print_graphql(&self, writer: &mut GraphQLWriter) {
        let s = self.to_string();
        writer.write_for(s.as_str(), *crate::ast::base::HasPos::position(self));
    }
}

/// The output of printing a type reference: `[T]` for lists and `T!` for non-null types.
pub open spec fn type_printed<'a>(t: Type<'a>) -> Seq<ChunkView>
    decreases t,
{
    match t {
        Type::Named(n) => marked(n.name.position, n.name.name@),
        Type::List(l) => text("["@) + type_printed(l.ty) + text("]"@),
        Type::NonNull(n) => type_printed(n.ty) + text("!"@),
    }
}

/// Prints a type reference.
pub fn print_type<'a>(t: &Type<'a>, writer: &mut GraphQLWriter)
    ensures
        final(writer)@ == old(writer)@ + type_printed(*t),
    decreases t,
{
    match t {
        Type::Named(n) => {
            n.name.print_graphql(writer);
        },
        Type::List(l) => {
            writer.write("[");
            print_type(&l.ty, writer);
            writer.write("]");
            assert(final(writer)@ =~= old(writer)@ + type_printed(*t));
        },
        Type::NonNull(n) => {
            print_type(&n.ty, writer);
            writer.write("!");
        },
    }
}

impl<'a> GraphQLPrinter for Type<'a> {
    open spec fn printed(&self) -> Seq<ChunkView> {
        type_printed(*self)
    }

    fn print_graphql(&self, writer: &mut GraphQLWriter) {
        print_type(self, writer);
    }
}

/// The empty string literal has no characters.
pub proof fn lemma_empty_literal()
    ensures
        ""@ == Seq::<char>::empty(),
{
    reveal_strlit("");
    assert(""@ =~= Seq::<char>::empty());
}

/// Text, where it is not empty.
pub open spec fn opt_text(s: Seq<char>) -> Seq<ChunkView> {
    if s.len() == 0 {
        Seq::empty()
    } else {
        text(s)
    }
}

/// The output of printing the first `n` nodes of a list, each between a prefix and a
/// suffix.
pub open spec fn each_printed<T: GraphQLPrinter>(
    s: Seq<T>,
    prefix: Seq<char>,
    suffix: Seq<char>,
    n: nat,
) -> Seq<ChunkView>
    decreases n,
{
    if n == 0 || n > s.len() {
        Seq::empty()
    } else {
        each_printed(s, prefix, suffix, (n - 1) as nat) + opt_text(prefix) + s[n - 1].printed()
            + opt_text(suffix)
    }
}

/// The output of printing a list of nodes, each between a prefix and a suffix.
pub open spec fn all_printed<T: GraphQLPrinter>(s: Seq<T>, prefix: Seq<char>, suffix: Seq<char>) -> Seq<
    ChunkView,
> {
    each_printed(s, prefix, suffix, s.len())
}

fn write_nonempty(writer: &mut GraphQLWriter, s: &str)
    ensures
        final(writer)@ == old(writer)@ + opt_text(s@),
{
    if !s.is_empty() {
        writer.write(s);
    } else {
        assert(final(writer)@ =~= old(writer)@ + opt_text(s@));
    }
}

/// Prints each node of a list between a prefix and a suffix.
pub fn print_each<T: GraphQLPrinter>(items: &[T], prefix: &str, suffix: &str, writer: &mut GraphQLWriter)
    ensures
        final(writer)@ == old(writer)@ + all_printed(items@, prefix@, suffix@),
{
    let mut i: usize = 0;
    while i < items.len()
        invariant
            i <= items@.len(),
            writer@ == old(writer)@ + each_printed(items@, prefix@, suffix@, i as nat),
        decreases items@.len() - i,
    {
        write_nonempty(writer, prefix);
        items[i].print_graphql(writer);
        write_nonempty(writer, suffix);
        assert(writer@ =~= old(writer)@ + each_printed(items@, prefix@, suffix@, (i + 1) as nat));
        i += 1;
    }
}

/// The output of printing the first `n` nodes of a list with a separator between them.
pub open spec fn separated_printed<T: GraphQLPrinter>(s: Seq<T>, separator: Seq<char>, n: nat) -> Seq<
    ChunkView,
>
    decreases n,
{
    if n == 0 || n > s.len() {
        Seq::empty()
    } else {
        separated_printed(s, separator, (n - 1) as nat) + (if n > 1 {
            text(separator)
        } else {
            Seq::empty()
        }) + s[n - 1].printed()
    }
}

/// Prints the nodes of a list with a separator between them.
pub fn print_separated<T: GraphQLPrinter>(items: &[T], separator: &str, writer: &mut GraphQLWriter)
    ensures
        final(writer)@ == old(writer)@ + separated_printed(items@, separator@, items@.len()),
{
    let mut i: usize = 0;
    while i < items.len()
        invariant
            i <= items@.len(),
            writer@ == old(writer)@ + separated_printed(items@, separator@, i as nat),
        decreases items@.len() - i,
    {
        if i > 0 {
            writer.write(separator);
        }
        items[i].print_graphql(writer);
        assert(writer@ =~= old(writer)@ + separated_printed(items@, separator@, (i + 1) as nat));
        i += 1;
    }
}

/// The output of printing an optional node: nothing where there is none.
pub open spec fn opt_printed<T: GraphQLPrinter>(o: Option<T>) -> Seq<ChunkView> {
    match o {
        Some(x) => x.printed(),
        None => Seq::empty(),
    }
}

/// Prints an optional node.
pub fn print_opt<T: GraphQLPrinter>(o: &Option<T>, writer: &mut GraphQLWriter)
    ensures
        final(writer)@ == old(writer)@ + opt_printed(*o),
{
    match o {
        Some(x) => x.print_graphql(writer),
        None => {
            assert(final(writer)@ =~= old(writer)@ + opt_printed(*o));
        },
    }
}

/// The output of printing an optional description: the description on a line of its own.
pub open spec fn description_printed(d: Option<StringValue>) -> Seq<ChunkView> {
    match d {
        Some(s) => s.printed() + text("\n"@),
        None => Seq::empty(),
    }
}

/// Prints an optional description on a line of its own.
pub fn print_description(d: &Option<StringValue>, writer: &mut GraphQLWriter)
    ensures
        final(writer)@ == old(writer)@ + description_printed(*d),
{
    match d {
        Some(s) => {
            s.print_graphql(writer);
            writer.write("\n");
            assert(final(writer)@ =~= old(writer)@ + description_printed(*d));
        },
        None => {
            assert(final(writer)@ =~= old(writer)@ + description_printed(*d));
        },
    }
}

} // verus!
