//! Printed type definitions leave the indentation as they found it.

use vstd::prelude::*;

use crate::ast::base::{Ident, Pos};
use crate::ast::directive::Directive;
use crate::ast::type_system::{
    ArgumentsDefinition, EnumValueDefinition, FieldDefinition, InputValueDefinition, TypeDefinition,
};
use crate::ast::types::Type;
use crate::ast::value::{Arguments, StringValue, Value};

use super::base::{
    all_printed, description_printed, each_printed, marked, opt_printed, opt_text,
    separated_printed, type_printed, GraphQLPrinter,
};
use super::operation::argument_pairs_printed;
use super::type_system::{
    block_printed, directives_printed, enum_definition_printed, implements_printed,
    input_object_definition_printed, interface_definition_printed, object_definition_printed,
    scalar_definition_printed, union_definition_printed,
};
use super::writer::{text, ChunkView};

verus! {

/// How a piece changes the indentation level.
pub open spec fn level_change(c: ChunkView) -> int {
    match c {
        ChunkView::Indent => 1,
        ChunkView::Dedent => -1,
        _ => 0,
    }
}

/// The indentation level after printed output, starting from zero.
pub open spec fn level(s: Seq<ChunkView>) -> int
    decreases s.len(),
{
    if s.len() == 0 {
        0
    } else {
        level(s.drop_last()) + level_change(s.last())
    }
}

/// Whether printed output has as many indents as dedents and, read from its start, never
/// has more dedents than indents.
pub open spec fn balanced(s: Seq<ChunkView>) -> bool {
    &&& level(s) == 0
    &&& forall|k: int| 0 <= k <= s.len() ==> level(#[trigger] s.take(k)) >= 0
}

proof fn lemma_level_add(a: Seq<ChunkView>, b: Seq<ChunkView>)
    ensures
        level(a + b) == level(a) + level(b),
    decreases b.len(),
{
    if b.len() == 0 {
        assert(a + b =~= a);
    } else {
        lemma_level_add(a, b.drop_last());
        assert((a + b).drop_last() =~= a + b.drop_last());
    }
}

proof fn lemma_level_one(c: ChunkView)
    ensures
        level(seq![c]) == level_change(c),
{
    assert(seq![c].drop_last() =~= Seq::<ChunkView>::empty());
    assert(level(Seq::<ChunkView>::empty()) == 0);
}

proof fn lemma_text_balanced(s: Seq<char>)
    ensures
        balanced(text(s)),
{
    let t = text(s);
    lemma_level_one(ChunkView::Text(s));
    assert(level(Seq::<ChunkView>::empty()) == 0);
    assert forall|k: int| 0 <= k <= t.len() implies level(#[trigger] t.take(k)) >= 0 by {
        if k == 0 {
            assert(t.take(k) =~= Seq::<ChunkView>::empty());
        } else {
            assert(t.take(k) =~= t);
        }
    }
}

proof fn lemma_marked_balanced(p: Pos, s: Seq<char>)
    ensures
        balanced(marked(p, s)),
{
    let t = marked(p, s);
    assert(t.drop_last() =~= seq![ChunkView::Mark(p)]);
    lemma_level_one(ChunkView::Mark(p));
    assert(level(t) == level(t.drop_last()) + level_change(t.last()));
    assert(level(Seq::<ChunkView>::empty()) == 0);
    assert forall|k: int| 0 <= k <= t.len() implies level(#[trigger] t.take(k)) >= 0 by {
        if k == 0 {
            assert(t.take(k) =~= Seq::<ChunkView>::empty());
        } else if k == 1 {
            assert(t.take(k) =~= t.drop_last());
        } else {
            assert(t.take(k) =~= t);
        }
    }
}

proof fn lemma_empty_balanced()
    ensures
        balanced(Seq::<ChunkView>::empty()),
{
    assert forall|k: int| 0 <= k <= 0 implies level(
        #[trigger] Seq::<ChunkView>::empty().take(k),
    ) >= 0 by {
        assert(Seq::<ChunkView>::empty().take(k) =~= Seq::<ChunkView>::empty());
    }
}

/// Balanced output followed by balanced output is balanced.
proof fn lemma_concat_balanced(a: Seq<ChunkView>, b: Seq<ChunkView>)
    requires
        balanced(a),
        balanced(b),
    ensures
        balanced(a + b),
{
    lemma_level_add(a, b);
    assert forall|k: int| 0 <= k <= (a + b).len() implies level(#[trigger] (a + b).take(k)) >= 0 by {
        if k <= a.len() {
            assert((a + b).take(k) =~= a.take(k));
        } else {
            assert((a + b).take(k) =~= a + b.take(k - a.len()));
            lemma_level_add(a, b.take(k - a.len()));
            assert(level(b.take(k - a.len())) >= 0);
        }
    }
}

/// Balanced output between an indent and a dedent is balanced.
proof fn lemma_indented_balanced(s: Seq<ChunkView>)
    requires
        balanced(s),
    ensures
        balanced(seq![ChunkView::Indent] + s + seq![ChunkView::Dedent]),
{
    let i = seq![ChunkView::Indent];
    let d = seq![ChunkView::Dedent];
    let t = i + s + d;
    lemma_level_one(ChunkView::Indent);
    lemma_level_one(ChunkView::Dedent);
    assert(level(Seq::<ChunkView>::empty()) == 0);
    lemma_level_add(i, s);
    lemma_level_add(i + s, d);
    assert forall|k: int| 0 <= k <= t.len() implies level(#[trigger] t.take(k)) >= 0 by {
        if k == 0 {
            assert(t.take(k) =~= Seq::<ChunkView>::empty());
        } else if k <= s.len() + 1 {
            assert(t.take(k) =~= i + s.take(k - 1));
            lemma_level_add(i, s.take(k - 1));
            assert(level(s.take(k - 1)) >= 0);
        } else {
            assert(t.take(k) =~= t);
        }
    }
}

proof fn lemma_opt_text_balanced(s: Seq<char>)
    ensures
        balanced(opt_text(s)),
{
    if s.len() == 0 {
        lemma_empty_balanced();
    } else {
        lemma_text_balanced(s);
    }
}

proof fn lemma_type_balanced<'a>(t: Type<'a>)
    ensures
        balanced(type_printed(t)),
    decreases t,
{
    match t {
        Type::Named(n) => lemma_marked_balanced(n.name.position, n.name.name@),
        Type::List(l) => {
            lemma_type_balanced(l.ty);
            lemma_text_balanced("["@);
            lemma_text_balanced("]"@);
            lemma_concat_balanced(text("["@), type_printed(l.ty));
            lemma_concat_balanced(text("["@) + type_printed(l.ty), text("]"@));
        },
        Type::NonNull(n) => {
            lemma_type_balanced(n.ty);
            lemma_text_balanced("!"@);
            lemma_concat_balanced(type_printed(n.ty), text("!"@));
        },
    }
}

proof fn lemma_each_balanced<T: GraphQLPrinter>(s: Seq<T>, prefix: Seq<char>, suffix: Seq<char>, n: nat)
    requires
        forall|i: int| 0 <= i < s.len() ==> balanced(#[trigger] s[i].printed()),
    ensures
        balanced(each_printed(s, prefix, suffix, n)),
    decreases n,
{
    if n == 0 || n > s.len() {
        lemma_empty_balanced();
    } else {
        lemma_each_balanced(s, prefix, suffix, (n - 1) as nat);
        lemma_opt_text_balanced(prefix);
        lemma_opt_text_balanced(suffix);
        let a = each_printed(s, prefix, suffix, (n - 1) as nat);
        lemma_concat_balanced(a, opt_text(prefix));
        lemma_concat_balanced(a + opt_text(prefix), s[n - 1].printed());
        lemma_concat_balanced(a + opt_text(prefix) + s[n - 1].printed(), opt_text(suffix));
    }
}

proof fn lemma_separated_balanced<T: GraphQLPrinter>(s: Seq<T>, separator: Seq<char>, n: nat)
    requires
        forall|i: int| 0 <= i < s.len() ==> balanced(#[trigger] s[i].printed()),
    ensures
        balanced(separated_printed(s, separator, n)),
    decreases n,
{
    if n == 0 || n > s.len() {
        lemma_empty_balanced();
    } else {
        lemma_separated_balanced(s, separator, (n - 1) as nat);
        let a = separated_printed(s, separator, (n - 1) as nat);
        let sep = if n > 1 {
            text(separator)
        } else {
            Seq::empty()
        };
        if n > 1 {
            lemma_text_balanced(separator);
        } else {
            lemma_empty_balanced();
        }
        lemma_concat_balanced(a, sep);
        lemma_concat_balanced(a + sep, s[n - 1].printed());
    }
}

proof fn lemma_description_balanced(d: Option<StringValue>)
    ensures
        balanced(description_printed(d)),
{
    match d {
        Some(s) => {
            lemma_marked_balanced(s.position, "\""@ + s.value@ + "\""@);
            lemma_text_balanced("\n"@);
            lemma_concat_balanced(s.printed(), text("\n"@));
        },
        None => lemma_empty_balanced(),
    }
}

proof fn lemma_argument_pairs_balanced<'a>(ps: Seq<(Ident<'a>, Value<'a>)>, suffix: Seq<ChunkView>, n: nat)
    requires
        balanced(suffix),
    ensures
        balanced(argument_pairs_printed(ps, suffix, n)),
    decreases n,
{
    if n == 0 || n > ps.len() {
        lemma_empty_balanced();
    } else {
        lemma_argument_pairs_balanced(ps, suffix, (n - 1) as nat);
        let a = argument_pairs_printed(ps, suffix, (n - 1) as nat);
        let p = ps[n - 1];
        lemma_marked_balanced(p.0.position, p.0.name@);
        lemma_text_balanced(": "@);
        lemma_marked_balanced(p.1.spec_position(), crate::ast::value::value_text(p.1));
        lemma_concat_balanced(a, p.0.printed());
        lemma_concat_balanced(a + p.0.printed(), text(": "@));
        lemma_concat_balanced(a + p.0.printed() + text(": "@), p.1.printed());
        lemma_concat_balanced(a + p.0.printed() + text(": "@) + p.1.printed(), suffix);
    }
}

proof fn lemma_arguments_balanced<'a>(args: Arguments<'a>)
    ensures
        balanced(args.printed()),
{
    let ps = args.arguments@;
    lemma_text_balanced("("@);
    lemma_text_balanced(")"@);
    let inner = if ps.len() < 2 {
        argument_pairs_printed(ps, Seq::empty(), ps.len())
    } else {
        text("\n"@) + seq![ChunkView::Indent] + argument_pairs_printed(ps, text("\n"@), ps.len())
            + seq![ChunkView::Dedent]
    };
    if ps.len() < 2 {
        lemma_empty_balanced();
        lemma_argument_pairs_balanced(ps, Seq::empty(), ps.len());
    } else {
        lemma_text_balanced("\n"@);
        lemma_argument_pairs_balanced(ps, text("\n"@), ps.len());
        let body = argument_pairs_printed(ps, text("\n"@), ps.len());
        lemma_indented_balanced(body);
        lemma_concat_balanced(text("\n"@), seq![ChunkView::Indent] + body + seq![ChunkView::Dedent]);
        assert(inner =~= text("\n"@) + (seq![ChunkView::Indent] + body + seq![ChunkView::Dedent]));
    }
    lemma_concat_balanced(text("("@), inner);
    lemma_concat_balanced(text("("@) + inner, text(")"@));
}

proof fn lemma_directive_balanced<'a>(d: Directive<'a>)
    ensures
        balanced(d.printed()),
{
    lemma_text_balanced("@"@);
    lemma_marked_balanced(d.name.position, d.name.name@);
    match d.arguments {
        Some(a) => lemma_arguments_balanced(a),
        None => lemma_empty_balanced(),
    }
    lemma_concat_balanced(text("@"@), d.name.printed());
    lemma_concat_balanced(text("@"@) + d.name.printed(), opt_printed(d.arguments));
}

proof fn lemma_directives_balanced<'a>(ds: Seq<Directive<'a>>)
    ensures
        balanced(directives_printed(ds)),
{
    assert forall|i: int| 0 <= i < ds.len() implies balanced(#[trigger] ds[i].printed()) by {
        lemma_directive_balanced(ds[i]);
    }
    lemma_each_balanced(ds, " "@, Seq::empty(), ds.len());
}

proof fn lemma_idents_balanced<'a>(ids: Seq<Ident<'a>>)
    ensures
        forall|i: int| 0 <= i < ids.len() ==> balanced(#[trigger] ids[i].printed()),
{
    assert forall|i: int| 0 <= i < ids.len() implies balanced(#[trigger] ids[i].printed()) by {
        lemma_marked_balanced(ids[i].position, ids[i].name@);
    }
}

proof fn lemma_input_value_balanced<'a>(v: InputValueDefinition<'a>)
    ensures
        balanced(v.printed()),
{
    lemma_description_balanced(v.description);
    lemma_marked_balanced(v.name.position, v.name.name@);
    lemma_text_balanced(": "@);
    lemma_type_balanced(v.ty);
    let dv = match v.default_value {
        Some(x) => text(" = "@) + x.printed(),
        None => Seq::empty(),
    };
    match v.default_value {
        Some(x) => {
            lemma_text_balanced(" = "@);
            lemma_marked_balanced(x.spec_position(), crate::ast::value::value_text(x));
            lemma_concat_balanced(text(" = "@), x.printed());
        },
        None => lemma_empty_balanced(),
    }
    lemma_directives_balanced(v.directives@);
    let a = description_printed(v.description);
    lemma_concat_balanced(a, v.name.printed());
    lemma_concat_balanced(a + v.name.printed(), text(": "@));
    lemma_concat_balanced(a + v.name.printed() + text(": "@), v.ty.printed());
    lemma_concat_balanced(a + v.name.printed() + text(": "@) + v.ty.printed(), dv);
    lemma_concat_balanced(
        a + v.name.printed() + text(": "@) + v.ty.printed() + dv,
        directives_printed(v.directives@),
    );
}

proof fn lemma_input_values_balanced<'a>(vs: Seq<InputValueDefinition<'a>>)
    ensures
        forall|i: int| 0 <= i < vs.len() ==> balanced(#[trigger] vs[i].printed()),
{
    assert forall|i: int| 0 <= i < vs.len() implies balanced(#[trigger] vs[i].printed()) by {
        lemma_input_value_balanced(vs[i]);
    }
}

proof fn lemma_arguments_definition_balanced<'a>(a: ArgumentsDefinition<'a>)
    ensures
        balanced(a.printed()),
{
    lemma_input_values_balanced(a.input_values@);
    lemma_separated_balanced(a.input_values@, ", "@, a.input_values@.len());
    lemma_text_balanced("("@);
    lemma_text_balanced(")"@);
    let m = separated_printed(a.input_values@, ", "@, a.input_values@.len());
    lemma_concat_balanced(text("("@), m);
    lemma_concat_balanced(text("("@) + m, text(")"@));
}

proof fn lemma_field_balanced<'a>(f: FieldDefinition<'a>)
    ensures
        balanced(f.printed()),
{
    lemma_description_balanced(f.description);
    lemma_marked_balanced(f.name.position, f.name.name@);
    match f.arguments {
        Some(a) => lemma_arguments_definition_balanced(a),
        None => lemma_empty_balanced(),
    }
    lemma_text_balanced(": "@);
    lemma_type_balanced(f.ty);
    lemma_directives_balanced(f.directives@);
    let a = description_printed(f.description);
    lemma_concat_balanced(a, f.name.printed());
    lemma_concat_balanced(a + f.name.printed(), opt_printed(f.arguments));
    lemma_concat_balanced(a + f.name.printed() + opt_printed(f.arguments), text(": "@));
    lemma_concat_balanced(a + f.name.printed() + opt_printed(f.arguments) + text(": "@), f.ty.printed());
    lemma_concat_balanced(
        a + f.name.printed() + opt_printed(f.arguments) + text(": "@) + f.ty.printed(),
        directives_printed(f.directives@),
    );
}

proof fn lemma_enum_value_balanced<'a>(v: EnumValueDefinition<'a>)
    ensures
        balanced(v.printed()),
{
    lemma_description_balanced(v.description);
    lemma_marked_balanced(v.name.position, v.name.name@);
    lemma_directives_balanced(v.directives@);
    lemma_concat_balanced(description_printed(v.description), v.name.printed());
    lemma_concat_balanced(
        description_printed(v.description) + v.name.printed(),
        directives_printed(v.directives@),
    );
}

proof fn lemma_block_balanced<T: GraphQLPrinter>(items: Seq<T>)
    requires
        forall|i: int| 0 <= i < items.len() ==> balanced(#[trigger] items[i].printed()),
    ensures
        balanced(block_printed(items)),
{
    if items.len() == 0 {
        lemma_empty_balanced();
    } else {
        let body = all_printed(items, Seq::empty(), "\n"@);
        lemma_each_balanced(items, Seq::empty(), "\n"@, items.len());
        lemma_indented_balanced(body);
        lemma_text_balanced(" {\n"@);
        lemma_text_balanced("}"@);
        let ind = seq![ChunkView::Indent] + body + seq![ChunkView::Dedent];
        lemma_concat_balanced(text(" {\n"@), ind);
        lemma_concat_balanced(text(" {\n"@) + ind, text("}"@));
        assert(block_printed(items) =~= text(" {\n"@) + ind + text("}"@));
    }
}

proof fn lemma_implements_balanced<'a>(ids: Seq<Ident<'a>>)
    ensures
        balanced(implements_printed(ids)),
{
    lemma_idents_balanced(ids);
    lemma_each_balanced(ids, " & "@, Seq::empty(), ids.len());
    lemma_text_balanced(" implements"@);
    lemma_empty_balanced();
    if ids.len() > 0 {
        lemma_concat_balanced(text(" implements"@), all_printed(ids, " & "@, Seq::empty()));
    }
}

/// The chunks that every printed type definition starts with: its description, if any.
proof fn lemma_head_balanced<'a>(d: Option<StringValue>, keyword: Seq<ChunkView>, name: Ident<'a>)
    requires
        balanced(keyword),
    ensures
        balanced(description_printed(d) + keyword + name.printed()),
{
    lemma_description_balanced(d);
    lemma_marked_balanced(name.position, name.name@);
    lemma_concat_balanced(description_printed(d), keyword);
    lemma_concat_balanced(description_printed(d) + keyword, name.printed());
}

/// A printed type definition has as many indents as dedents and never dedents below the
/// level where it starts, and it ends with a line break.
pub proof fn law_type_definition_balanced<'a>(d: TypeDefinition<'a>)
    ensures
        balanced(d.printed()),
        d.printed().last() == ChunkView::Text("\n"@),
{
    lemma_text_balanced("\n"@);
    match d {
        TypeDefinition::Scalar(x) => {
            lemma_text_balanced("scalar "@);
            lemma_head_balanced(x.description, text("scalar "@), x.name);
            lemma_directives_balanced(x.directives@);
            let h = description_printed(x.description) + text("scalar "@) + x.name.printed();
            lemma_concat_balanced(h, directives_printed(x.directives@));
            lemma_concat_balanced(h + directives_printed(x.directives@), text("\n"@));
            assert(scalar_definition_printed(x) =~= h + directives_printed(x.directives@) + text(
                "\n"@,
            ));
        },
        TypeDefinition::Object(x) => {
            lemma_marked_balanced(x.type_keyword.position, "type "@);
            lemma_head_balanced(x.description, marked(x.type_keyword.position, "type "@), x.name);
            lemma_implements_balanced(x.implements@);
            lemma_directives_balanced(x.directives@);
            assert forall|i: int| 0 <= i < x.fields@.len() implies balanced(
                #[trigger] x.fields@[i].printed(),
            ) by {
                lemma_field_balanced(x.fields@[i]);
            }
            lemma_block_balanced(x.fields@);
            let h = description_printed(x.description) + marked(x.type_keyword.position, "type "@)
                + x.name.printed();
            let a = implements_printed(x.implements@);
            let b = directives_printed(x.directives@);
            let c = block_printed(x.fields@);
            lemma_concat_balanced(h, a);
            lemma_concat_balanced(h + a, b);
            lemma_concat_balanced(h + a + b, c);
            lemma_concat_balanced(h + a + b + c, text("\n"@));
            assert(object_definition_printed(x) =~= h + a + b + c + text("\n"@));
        },
        TypeDefinition::Interface(x) => {
            lemma_text_balanced("interface "@);
            lemma_head_balanced(x.description, text("interface "@), x.name);
            lemma_implements_balanced(x.implements@);
            lemma_directives_balanced(x.directives@);
            assert forall|i: int| 0 <= i < x.fields@.len() implies balanced(
                #[trigger] x.fields@[i].printed(),
            ) by {
                lemma_field_balanced(x.fields@[i]);
            }
            lemma_block_balanced(x.fields@);
            let h = description_printed(x.description) + text("interface "@) + x.name.printed();
            let a = implements_printed(x.implements@);
            let b = directives_printed(x.directives@);
            let c = block_printed(x.fields@);
            lemma_concat_balanced(h, a);
            lemma_concat_balanced(h + a, b);
            lemma_concat_balanced(h + a + b, c);
            lemma_concat_balanced(h + a + b + c, text("\n"@));
            assert(interface_definition_printed(x) =~= h + a + b + c + text("\n"@));
        },
        TypeDefinition::Union(x) => {
            lemma_text_balanced("union "@);
            lemma_head_balanced(x.description, text("union "@), x.name);
            lemma_directives_balanced(x.directives@);
            lemma_text_balanced(" ="@);
            lemma_idents_balanced(x.members@);
            lemma_each_balanced(x.members@, " | "@, Seq::empty(), x.members@.len());
            let h = description_printed(x.description) + text("union "@) + x.name.printed();
            let b = directives_printed(x.directives@);
            let m = all_printed(x.members@, " | "@, Seq::empty());
            lemma_concat_balanced(h, b);
            lemma_concat_balanced(h + b, text(" ="@));
            lemma_concat_balanced(h + b + text(" ="@), m);
            lemma_concat_balanced(h + b + text(" ="@) + m, text("\n"@));
            assert(union_definition_printed(x) =~= h + b + text(" ="@) + m + text("\n"@));
        },
        TypeDefinition::Enum(x) => {
            lemma_text_balanced("enum "@);
            lemma_head_balanced(x.description, text("enum "@), x.name);
            lemma_directives_balanced(x.directives@);
            assert forall|i: int| 0 <= i < x.values@.len() implies balanced(
                #[trigger] x.values@[i].printed(),
            ) by {
                lemma_enum_value_balanced(x.values@[i]);
            }
            lemma_block_balanced(x.values@);
            let h = description_printed(x.description) + text("enum "@) + x.name.printed();
            let b = directives_printed(x.directives@);
            let c = block_printed(x.values@);
            lemma_concat_balanced(h, b);
            lemma_concat_balanced(h + b, c);
            lemma_concat_balanced(h + b + c, text("\n"@));
            assert(enum_definition_printed(x) =~= h + b + c + text("\n"@));
        },
        TypeDefinition::InputObject(x) => {
            lemma_text_balanced("input "@);
            lemma_head_balanced(x.description, text("input "@), x.name);
            lemma_directives_balanced(x.directives@);
            lemma_input_values_balanced(x.fields@);
            lemma_block_balanced(x.fields@);
            let h = description_printed(x.description) + text("input "@) + x.name.printed();
            let b = directives_printed(x.directives@);
            let c = block_printed(x.fields@);
            lemma_concat_balanced(h, b);
            lemma_concat_balanced(h + b, c);
            lemma_concat_balanced(h + b + c, text("\n"@));
            assert(input_object_definition_printed(x) =~= h + b + c + text("\n"@));
        },
    }
}

} // verus!
