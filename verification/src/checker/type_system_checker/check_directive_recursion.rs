//! Directives whose definitions use themselves, through the directives on their arguments
//! or on the types of their arguments.

use vstd::prelude::*;

use crate::ast::directive::Directive;
use crate::ast::type_system::{
    DirectiveDefinition, EnumValueDefinition, FieldDefinition, InputValueDefinition,
    TypeDefinition, TypeSystemDefinition,
};

use crate::checker::common::{argument_definitions, defined_arguments, str_vec_contains, strs_contain};
use crate::checker::definitions::{find_directive, find_type, spec_find_directive, spec_find_type};
use crate::checker::error::{err, push_error, views, CheckError, CheckErrorMessage, CheckErrorView};

verus! {

/// A node that carries applied directives.
pub trait WithDirectives<'a> {
    /// The directives applied to the node.
    spec fn spec_directives(&self) -> Seq<Directive<'a>>;

    /// Returns the directives applied to the node.
    fn directive_list(&self) -> (r: &[Directive<'a>])
        ensures
            r@ == self.spec_directives(),
    ;
}

impl<'a> WithDirectives<'a> for FieldDefinition<'a> {
    open spec fn spec_directives(&self) -> Seq<Directive<'a>> {
        self.directives@
    }

    fn directive_list(&self) -> (r: &[Directive<'a>]) {
        self.directives.as_slice()
    }
}

impl<'a> WithDirectives<'a> for EnumValueDefinition<'a> {
    open spec fn spec_directives(&self) -> Seq<Directive<'a>> {
        self.directives@
    }

    fn directive_list(&self) -> (r: &[Directive<'a>]) {
        self.directives.as_slice()
    }
}

impl<'a> WithDirectives<'a> for InputValueDefinition<'a> {
    open spec fn spec_directives(&self) -> Seq<Directive<'a>> {
        self.directives@
    }

    fn directive_list(&self) -> (r: &[Directive<'a>]) {
        self.directives.as_slice()
    }
}

/// The directives of the first `n` nodes of a list, in order.
pub open spec fn nested_directives_upto<'a, T: WithDirectives<'a>>(s: Seq<T>, n: nat) -> Seq<
    Directive<'a>,
>
    decreases n,
{
    if n == 0 {
        Seq::empty()
    } else {
        nested_directives_upto(s, (n - 1) as nat) + s[n - 1].spec_directives()
    }
}

/// The directives of all nodes of a list, in order.
pub open spec fn nested_directives<'a, T: WithDirectives<'a>>(s: Seq<T>) -> Seq<Directive<'a>> {
    nested_directives_upto(s, s.len())
}

/// The directives that references point to.
pub open spec fn deref_directives<'a>(s: Seq<&'a Directive<'a>>) -> Seq<Directive<'a>> {
    s.map_values(|d: &'a Directive<'a>| *d)
}

/// The directive definitions that references point to.
pub open spec fn deref_definitions<'a>(s: Seq<&'a DirectiveDefinition<'a>>) -> Seq<
    DirectiveDefinition<'a>,
> {
    s.map_values(|d: &'a DirectiveDefinition<'a>| *d)
}

/// Directives applied within a type definition: those on the type, then those on its
/// fields or values, in order.
pub open spec fn spec_directives_in_type<'a>(def: TypeDefinition<'a>) -> Seq<Directive<'a>> {
    match def {
        TypeDefinition::Scalar(d) => d.directives@,
        TypeDefinition::Object(d) => d.directives@ + nested_directives(d.fields@),
        TypeDefinition::Interface(d) => d.directives@ + nested_directives(d.fields@),
        TypeDefinition::Union(d) => d.directives@,
        TypeDefinition::Enum(d) => d.directives@ + nested_directives(d.values@),
        TypeDefinition::InputObject(d) => d.directives@ + nested_directives(d.fields@),
    }
}

fn push_directive_refs<'a>(v: &mut Vec<&'a Directive<'a>>, ds: &'a [Directive<'a>])
    ensures
        deref_directives(final(v)@) == deref_directives(old(v)@) + ds@,
{
    let mut i: usize = 0;
    while i < ds.len()
        invariant
            i <= ds@.len(),
            deref_directives(v@) == deref_directives(old(v)@) + ds@.take(i as int),
        decreases ds@.len() - i,
    {
        let ghost before = v@;
        v.push(&ds[i]);
        assert(deref_directives(v@) =~= deref_directives(before).push(ds@[i as int]));
        assert(ds@.take(i + 1) =~= ds@.take(i as int).push(ds@[i as int]));
        assert(deref_directives(v@) =~= deref_directives(old(v)@) + ds@.take(i + 1));
        i += 1;
    }
    assert(ds@.take(i as int) =~= ds@);
}

fn push_nested_directives<'a, T: WithDirectives<'a>>(v: &mut Vec<&'a Directive<'a>>, s: &'a [T])
    ensures
        deref_directives(final(v)@) == deref_directives(old(v)@) + nested_directives(s@),
{
    let mut i: usize = 0;
    while i < s.len()
        invariant
            i <= s@.len(),
            deref_directives(v@) == deref_directives(old(v)@) + nested_directives_upto(
                s@,
                i as nat,
            ),
        decreases s@.len() - i,
    {
        push_directive_refs(v, s[i].directive_list());
        assert(deref_directives(v@) =~= deref_directives(old(v)@) + nested_directives_upto(
            s@,
            (i + 1) as nat,
        ));
        i += 1;
    }
}

/// Collects the directives applied within a type definition.
pub fn directives_in_type<'a>(def: &'a TypeDefinition<'a>) -> (r: Vec<&'a Directive<'a>>)
    ensures
        deref_directives(r@) == spec_directives_in_type(*def),
{
    let mut v: Vec<&'a Directive<'a>> = Vec::new();
    assert(deref_directives(v@) =~= Seq::empty());
    match def {
        TypeDefinition::Scalar(d) => {
            push_directive_refs(&mut v, d.directives.as_slice());
        },
        TypeDefinition::Object(d) => {
            push_directive_refs(&mut v, d.directives.as_slice());
            push_nested_directives(&mut v, d.fields.as_slice());
        },
        TypeDefinition::Interface(d) => {
            push_directive_refs(&mut v, d.directives.as_slice());
            push_nested_directives(&mut v, d.fields.as_slice());
        },
        TypeDefinition::Union(d) => {
            push_directive_refs(&mut v, d.directives.as_slice());
        },
        TypeDefinition::Enum(d) => {
            push_directive_refs(&mut v, d.directives.as_slice());
            push_nested_directives(&mut v, d.values.as_slice());
        },
        TypeDefinition::InputObject(d) => {
            push_directive_refs(&mut v, d.directives.as_slice());
            push_nested_directives(&mut v, d.fields.as_slice());
        },
    }
    v
}

/// Directives that an argument definition uses: those applied to it, then those applied
/// within the definition of its type, where that type is defined.
pub open spec fn argument_directives<'a>(
    defs: Seq<TypeSystemDefinition<'a>>,
    a: InputValueDefinition<'a>,
) -> Seq<Directive<'a>> {
    a.directives@ + match spec_find_type(defs, a.ty.spec_unwrapped().name.name@) {
        Some(t) => spec_directives_in_type(t),
        None => Seq::empty(),
    }
}

/// The definitions of the first `n` applied directives, skipping those not defined.
pub open spec fn found_directives_upto<'a>(
    defs: Seq<TypeSystemDefinition<'a>>,
    ds: Seq<Directive<'a>>,
    n: nat,
) -> Seq<DirectiveDefinition<'a>>
    decreases n,
{
    if n == 0 {
        Seq::empty()
    } else {
        found_directives_upto(defs, ds, (n - 1) as nat) + match spec_find_directive(
            defs,
            ds[n - 1].name.name@,
        ) {
            Some(d) => seq![d],
            None => Seq::empty(),
        }
    }
}

/// Definitions of the directives used by the first `n` arguments, in order.
pub open spec fn used_directives_upto<'a>(
    defs: Seq<TypeSystemDefinition<'a>>,
    args: Seq<InputValueDefinition<'a>>,
    n: nat,
) -> Seq<DirectiveDefinition<'a>>
    decreases n,
{
    if n == 0 {
        Seq::empty()
    } else {
        let ds = argument_directives(defs, args[n - 1]);
        used_directives_upto(defs, args, (n - 1) as nat) + found_directives_upto(defs, ds, ds.len())
    }
}

/// Definitions of the directives that a directive definition uses through its arguments.
pub open spec fn used_directives<'a>(
    defs: Seq<TypeSystemDefinition<'a>>,
    d: DirectiveDefinition<'a>,
) -> Seq<DirectiveDefinition<'a>> {
    let args = defined_arguments(d.arguments);
    used_directives_upto(defs, args, args.len())
}

/// Whether a directive definition is one of the definitions of a document.
pub open spec fn defined_in<'a>(defs: Seq<TypeSystemDefinition<'a>>, d: DirectiveDefinition<'a>) -> bool {
    exists|j: int| 0 <= j < defs.len() && defs[j] == TypeSystemDefinition::DirectiveDefinition(d)
}

proof fn lemma_found_directive_defined<'a>(defs: Seq<TypeSystemDefinition<'a>>, name: Seq<char>)
    requires
        spec_find_directive(defs, name) is Some,
    ensures
        defined_in(defs, spec_find_directive(defs, name)->0),
        spec_find_directive(defs, name)->0.name.name@ == name,
    decreases defs.len(),
{
    let d = spec_find_directive(defs, name)->0;
    match defs[0] {
        TypeSystemDefinition::DirectiveDefinition(x) => {
            if x.name.name@ == name {
                assert(defs[0] == TypeSystemDefinition::DirectiveDefinition(d));
            } else {
                lemma_found_directive_defined(defs.drop_first(), name);
                let j = choose|j: int|
                    0 <= j < defs.drop_first().len() && defs.drop_first()[j]
                        == TypeSystemDefinition::DirectiveDefinition(d);
                assert(defs[j + 1] == defs.drop_first()[j]);
            }
        },
        _ => {
            lemma_found_directive_defined(defs.drop_first(), name);
            let j = choose|j: int|
                0 <= j < defs.drop_first().len() && defs.drop_first()[j]
                    == TypeSystemDefinition::DirectiveDefinition(d);
            assert(defs[j + 1] == defs.drop_first()[j]);
        },
    }
}

/// Looks up the definitions of directives applied within an argument definition and adds
/// those found.
fn push_used_directives<'a>(
    definitions: &'a Vec<TypeSystemDefinition<'a>>,
    arg: &'a InputValueDefinition<'a>,
    out: &mut Vec<&'a DirectiveDefinition<'a>>,
)
    requires
        forall|k: int| 0 <= k < old(out)@.len() ==> defined_in(definitions@, *#[trigger] old(out)@[k]),
    ensures
        deref_definitions(final(out)@) == deref_definitions(old(out)@) + found_directives_upto(
            definitions@,
            argument_directives(definitions@, *arg),
            argument_directives(definitions@, *arg).len(),
        ),
        forall|k: int| 0 <= k < final(out)@.len() ==> defined_in(definitions@, *#[trigger] final(out)@[k]),
{
    let mut used: Vec<&'a Directive<'a>> = Vec::new();
    assert(deref_directives(used@) =~= Seq::empty());
    push_directive_refs(&mut used, arg.directives.as_slice());
    match find_type(definitions, arg.ty.unwrapped_type().name.name) {
        Some(t) => {
            let mut in_type = directives_in_type(t);
            let ghost u = used@;
            used.append(&mut in_type);
            assert(deref_directives(used@) =~= deref_directives(u) + spec_directives_in_type(*t));
        },
        None => {
            assert(deref_directives(used@) =~= deref_directives(used@) + Seq::empty());
        },
    }
    let ghost ds = argument_directives(definitions@, *arg);
    assert(deref_directives(used@) =~= ds);
    let ghost o0 = deref_definitions(out@);
    let mut i: usize = 0;
    while i < used.len()
        invariant
            i <= used@.len(),
            deref_directives(used@) == ds,
            deref_definitions(out@) == o0 + found_directives_upto(definitions@, ds, i as nat),
            forall|k: int| 0 <= k < out@.len() ==> defined_in(definitions@, *#[trigger] out@[k]),
        decreases used@.len() - i,
    {
        let d = used[i];
        assert(ds[i as int] == *d);
        match find_directive(definitions, d.name.name) {
            Some(def) => {
                proof {
                    lemma_found_directive_defined(definitions@, d.name.name@);
                }
                let ghost before = out@;
                out.push(def);
                assert(deref_definitions(out@) =~= deref_definitions(before).push(*def));
                assert(deref_definitions(out@) =~= o0 + found_directives_upto(
                    definitions@,
                    ds,
                    (i + 1) as nat,
                ));
            },
            None => {
                assert(deref_definitions(out@) =~= o0 + found_directives_upto(
                    definitions@,
                    ds,
                    (i + 1) as nat,
                ));
            },
        }
        i += 1;
    }
}

/// Collects the definitions of the directives that a directive definition uses.
fn used_directive_definitions<'a>(
    definitions: &'a Vec<TypeSystemDefinition<'a>>,
    directive: &'a DirectiveDefinition<'a>,
) -> (r: Vec<&'a DirectiveDefinition<'a>>)
    ensures
        deref_definitions(r@) == used_directives(definitions@, *directive),
        forall|k: int| 0 <= k < r@.len() ==> defined_in(definitions@, *#[trigger] r@[k]),
{
    let args = argument_definitions(&directive.arguments);
    let mut out: Vec<&'a DirectiveDefinition<'a>> = Vec::new();
    assert(deref_definitions(out@) =~= Seq::empty());
    let mut i: usize = 0;
    while i < args.len()
        invariant
            i <= args@.len(),
            args@ == defined_arguments(directive.arguments),
            deref_definitions(out@) == used_directives_upto(definitions@, args@, i as nat),
            forall|k: int| 0 <= k < out@.len() ==> defined_in(definitions@, *#[trigger] out@[k]),
        decreases args@.len() - i,
    {
        push_used_directives(definitions, &args[i], &mut out);
        i += 1;
    }
    out
}

/// The names of a list of string slices.
pub open spec fn str_views(s: Seq<&str>) -> Seq<Seq<char>> {
    s.map_values(|x: &str| x@)
}

pub proof fn lemma_strs_contain_set(v: Seq<&str>, n: Seq<char>)
    ensures
        strs_contain(v, n) <==> str_views(v).to_set().contains(n),
{
    if strs_contain(v, n) {
        let k = choose|k: int| 0 <= k < v.len() && #[trigger] v[k]@ == n;
        assert(str_views(v)[k] == n);
    }
    if str_views(v).to_set().contains(n) {
        let k = choose|k: int| 0 <= k < str_views(v).len() && str_views(v)[k] == n;
        assert(v[k]@ == n);
    }
}

proof fn lemma_strs_contain_seq(v: Seq<&str>, n: Seq<char>)
    ensures
        strs_contain(v, n) <==> str_views(v).contains(n),
{
    if strs_contain(v, n) {
        let k = choose|k: int| 0 <= k < v.len() && #[trigger] v[k]@ == n;
        assert(str_views(v)[k] == n);
    }
    if str_views(v).contains(n) {
        let k = choose|k: int| 0 <= k < str_views(v).len() && str_views(v)[k] == n;
        assert(v[k]@ == n);
    }
}

/// The search from a directive definition, depth first. `path` holds the names of the
/// directives being followed, from the root down; `finished` the names whose uses were all
/// followed already. A directive found again on the path is reached through a cycle and is
/// reported as recursing; a finished one is not followed again; any other is followed
/// through the directives it uses, and then finished. `fuel` bounds the depth. Gives the
/// finished names and the diagnostics.
pub open spec fn visit<'a>(
    defs: Seq<TypeSystemDefinition<'a>>,
    path: Seq<Seq<char>>,
    finished: Set<Seq<char>>,
    d: DirectiveDefinition<'a>,
    fuel: nat,
) -> (Set<Seq<char>>, Seq<CheckErrorView<'a>>)
    decreases fuel, 0nat,
{
    let name = d.name.name@;
    if path.contains(name) {
        (finished, seq![err(d.position, CheckErrorMessage::RecursingDirective { name: d.name.name })])
    } else if finished.contains(name) || fuel == 0 {
        (finished, Seq::empty())
    } else {
        let used = used_directives(defs, d);
        let t = visit_list(defs, path.push(name), finished, used, used.len(), (fuel - 1) as nat);
        (t.0.insert(name), t.1)
    }
}

/// The search from each of the first `n` directive definitions of a list in turn, with the
/// same path; the names finished by one are finished for the next.
pub open spec fn visit_list<'a>(
    defs: Seq<TypeSystemDefinition<'a>>,
    path: Seq<Seq<char>>,
    finished: Set<Seq<char>>,
    list: Seq<DirectiveDefinition<'a>>,
    n: nat,
    fuel: nat,
) -> (Set<Seq<char>>, Seq<CheckErrorView<'a>>)
    decreases fuel, n + 1,
{
    if n == 0 || n > list.len() {
        (finished, Seq::empty())
    } else {
        let t = visit_list(defs, path, finished, list, (n - 1) as nat, fuel);
        let u = visit(defs, path, t.0, list[n - 1], fuel);
        (u.0, t.1 + u.1)
    }
}

/// Diagnostics of the directives that are reached again through a cycle when searching
/// from a directive definition. The depth bound is one more than the number of
/// definitions, which is as many different names as a path can hold: the names on a path
/// differ from each other and are the root's or those of directive definitions of the
/// document.
pub open spec fn spec_recursion_errors<'a>(
    defs: Seq<TypeSystemDefinition<'a>>,
    directive: DirectiveDefinition<'a>,
) -> Seq<CheckErrorView<'a>> {
    visit(defs, Seq::empty(), Set::empty(), directive, defs.len() + 1).1
}

/// Follows a directive definition in the search.
fn visit_directive<'a>(
    definitions: &'a Vec<TypeSystemDefinition<'a>>,
    d: &'a DirectiveDefinition<'a>,
    path: &mut Vec<&'a str>,
    finished: &mut Vec<&'a str>,
    result: &mut Vec<CheckError<'a>>,
    fuel: u128,
)
    ensures
        final(path)@ == old(path)@,
        str_views(final(finished)@).to_set() == visit(
            definitions@,
            str_views(old(path)@),
            str_views(old(finished)@).to_set(),
            *d,
            fuel as nat,
        ).0,
        views(final(result)@) == views(old(result)@) + visit(
            definitions@,
            str_views(old(path)@),
            str_views(old(finished)@).to_set(),
            *d,
            fuel as nat,
        ).1,
    decreases fuel, 0nat,
{
    let ghost p0 = str_views(path@);
    let ghost f0 = str_views(finished@).to_set();
    let on_path = str_vec_contains(path.as_slice(), d.name.name);
    proof {
        lemma_strs_contain_seq(path@, d.name.name@);
    }
    if on_path {
        push_error(result, CheckErrorMessage::RecursingDirective { name: d.name.name }.with_pos(d.position));
        return;
    }
    let done = str_vec_contains(finished.as_slice(), d.name.name);
    proof {
        lemma_strs_contain_set(finished@, d.name.name@);
    }
    if done || fuel == 0 {
        assert(views(result@) =~= views(old(result)@) + Seq::<CheckErrorView<'a>>::empty());
        return;
    }
    let ghost pv = path@;
    path.push(d.name.name);
    assert(str_views(path@) =~= p0.push(d.name.name@));
    let used = used_directive_definitions(definitions, d);
    visit_each(definitions, &used, path, finished, result, fuel - 1);
    path.pop();
    assert(path@ =~= pv);
    let ghost fv = finished@;
    finished.push(d.name.name);
    proof {
        assert(str_views(finished@) =~= str_views(fv).push(d.name.name@));
        str_views(fv).lemma_push_to_set_commute(d.name.name@);
    }
}

/// Follows each directive definition of a list in turn.
fn visit_each<'a>(
    definitions: &'a Vec<TypeSystemDefinition<'a>>,
    list: &Vec<&'a DirectiveDefinition<'a>>,
    path: &mut Vec<&'a str>,
    finished: &mut Vec<&'a str>,
    result: &mut Vec<CheckError<'a>>,
    fuel: u128,
)
    ensures
        final(path)@ == old(path)@,
        str_views(final(finished)@).to_set() == visit_list(
            definitions@,
            str_views(old(path)@),
            str_views(old(finished)@).to_set(),
            deref_definitions(list@),
            list@.len(),
            fuel as nat,
        ).0,
        views(final(result)@) == views(old(result)@) + visit_list(
            definitions@,
            str_views(old(path)@),
            str_views(old(finished)@).to_set(),
            deref_definitions(list@),
            list@.len(),
            fuel as nat,
        ).1,
    decreases fuel, 1nat,
{
    let ghost p0 = str_views(path@);
    let ghost f0 = str_views(finished@).to_set();
    let ghost r0 = views(result@);
    let ghost l = deref_definitions(list@);
    let mut i: usize = 0;
    while i < list.len()
        invariant
            i <= list@.len(),
            l == deref_definitions(list@),
            str_views(path@) == p0,
            path@ == old(path)@,
            str_views(finished@).to_set() == visit_list(definitions@, p0, f0, l, i as nat, fuel as nat).0,
            views(result@) == r0 + visit_list(definitions@, p0, f0, l, i as nat, fuel as nat).1,
        decreases list@.len() - i,
    {
        assert(l[i as int] == *list@[i as int]);
        let ghost t = visit_list(definitions@, p0, f0, l, i as nat, fuel as nat);
        visit_directive(definitions, list[i], path, finished, result, fuel);
        assert(views(result@) =~= r0 + visit_list(definitions@, p0, f0, l, (i + 1) as nat, fuel as nat).1);
        i += 1;
    }
}

/// Checks and generates diagnostics for recursed directives.
pub fn check_directive_recursion<'a>(
    definitions: &'a Vec<TypeSystemDefinition<'a>>,
    directive: &'a DirectiveDefinition<'a>,
    result: &mut Vec<CheckError<'a>>,
)
    ensures
        views(final(result)@) == views(old(result)@) + spec_recursion_errors(
            definitions@,
            *directive,
        ),
{
    let mut path: Vec<&'a str> = Vec::new();
    let mut finished: Vec<&'a str> = Vec::new();
    assert(str_views(path@) =~= Seq::empty());
    assert(str_views(finished@).to_set() =~= Set::empty());
    let fuel: u128 = definitions.len() as u128 + 1;
    visit_directive(definitions, directive, &mut path, &mut finished, result, fuel);
}


/// Whether a list of directive definitions starts at `root` and each definition in it uses
/// the next, through its arguments.
pub open spec fn is_use_chain<'a>(
    defs: Seq<TypeSystemDefinition<'a>>,
    root: DirectiveDefinition<'a>,
    c: Seq<DirectiveDefinition<'a>>,
) -> bool {
    &&& c.len() >= 1
    &&& c[0] == root
    &&& forall|j: int|
        0 <= j < c.len() - 1 ==> used_directives(defs, #[trigger] c[j]).contains(c[j + 1])
}

/// Whether a diagnostic reports a directive that is reached again through a cycle: some
/// chain of uses from `root` ends at a directive named as one before it on the chain, and
/// the diagnostic is about that last directive.
pub open spec fn reached_again<'a>(
    defs: Seq<TypeSystemDefinition<'a>>,
    root: DirectiveDefinition<'a>,
    e: CheckErrorView<'a>,
) -> bool {
    exists|c: Seq<DirectiveDefinition<'a>>|
        #[trigger] is_use_chain(defs, root, c) && (exists|i: int|
            0 <= i < c.len() - 1 && c[i].name.name@ == c.last().name.name@) && e == err(
            c.last().position,
            CheckErrorMessage::RecursingDirective { name: c.last().name.name },
        )
}

proof fn lemma_visit_reports_cycles<'a>(
    defs: Seq<TypeSystemDefinition<'a>>,
    root: DirectiveDefinition<'a>,
    path: Seq<Seq<char>>,
    finished: Set<Seq<char>>,
    d: DirectiveDefinition<'a>,
    fuel: nat,
    c: Seq<DirectiveDefinition<'a>>,
)
    requires
        is_use_chain(defs, root, c),
        c.last() == d,
        c.len() == path.len() + 1,
        forall|j: int| 0 <= j < path.len() ==> path[j] == (#[trigger] c[j]).name.name@,
    ensures
        forall|k: int|
            0 <= k < visit(defs, path, finished, d, fuel).1.len() ==> reached_again(
                defs,
                root,
                #[trigger] visit(defs, path, finished, d, fuel).1[k],
            ),
    decreases fuel, 0nat,
{
    let name = d.name.name@;
    let r = visit(defs, path, finished, d, fuel).1;
    if path.contains(name) {
        let i = choose|i: int| 0 <= i < path.len() && path[i] == name;
        assert(c[i].name.name@ == c.last().name.name@);
        assert(r =~= seq![err(d.position, CheckErrorMessage::RecursingDirective { name: d.name.name })]);
        assert forall|k: int| 0 <= k < r.len() implies reached_again(defs, root, #[trigger] r[k]) by {
            assert(is_use_chain(defs, root, c));
            assert(0 <= i < c.len() - 1 && c[i].name.name@ == c.last().name.name@);
            assert(r[k] == err(c.last().position, CheckErrorMessage::RecursingDirective { name: c.last().name.name }));
        }
    } else if finished.contains(name) || fuel == 0 {
    } else {
        let used = used_directives(defs, d);
        let p2 = path.push(name);
        assert forall|j: int| 0 <= j < p2.len() implies p2[j] == (#[trigger] c[j]).name.name@ by {
            if j < path.len() {
                assert(p2[j] == path[j]);
            }
        }
        lemma_visit_list_reports_cycles(defs, root, p2, finished, used, used.len(), (fuel - 1) as nat, c);
        assert(r == visit_list(defs, p2, finished, used, used.len(), (fuel - 1) as nat).1);
    }
}

proof fn lemma_visit_list_reports_cycles<'a>(
    defs: Seq<TypeSystemDefinition<'a>>,
    root: DirectiveDefinition<'a>,
    path: Seq<Seq<char>>,
    finished: Set<Seq<char>>,
    list: Seq<DirectiveDefinition<'a>>,
    n: nat,
    fuel: nat,
    c: Seq<DirectiveDefinition<'a>>,
)
    requires
        is_use_chain(defs, root, c),
        c.len() == path.len(),
        forall|j: int| 0 <= j < path.len() ==> path[j] == (#[trigger] c[j]).name.name@,
        list == used_directives(defs, c.last()),
    ensures
        forall|k: int|
            0 <= k < visit_list(defs, path, finished, list, n, fuel).1.len() ==> reached_again(
                defs,
                root,
                #[trigger] visit_list(defs, path, finished, list, n, fuel).1[k],
            ),
    decreases fuel, n + 1,
{
    if n == 0 || n > list.len() {
    } else {
        let t = visit_list(defs, path, finished, list, (n - 1) as nat, fuel);
        lemma_visit_list_reports_cycles(defs, root, path, finished, list, (n - 1) as nat, fuel, c);
        let item = list[n - 1];
        let c2 = c.push(item);
        assert(used_directives(defs, c.last()).contains(item));
        assert forall|j: int| 0 <= j < c2.len() - 1 implies used_directives(
            defs,
            #[trigger] c2[j],
        ).contains(c2[j + 1]) by {
            if j < c.len() - 1 {
                assert(c2[j] == c[j] && c2[j + 1] == c[j + 1]);
            } else {
                assert(c2[j] == c.last() && c2[j + 1] == item);
            }
        }
        assert(is_use_chain(defs, root, c2));
        assert forall|j: int| 0 <= j < path.len() implies path[j] == (#[trigger] c2[j]).name.name@ by {
            assert(c2[j] == c[j]);
        }
        lemma_visit_reports_cycles(defs, root, path, t.0, item, fuel, c2);
        let u = visit(defs, path, t.0, item, fuel);
        let all = visit_list(defs, path, finished, list, n, fuel).1;
        assert(all == t.1 + u.1);
        assert forall|k: int| 0 <= k < all.len() implies reached_again(defs, root, #[trigger] all[k]) by {
            if k < t.1.len() {
                assert(all[k] == t.1[k]);
            } else {
                assert(all[k] == u.1[k - t.1.len()]);
            }
        }
    }
}

/// Every directive reported as recursing is reached again through a cycle of uses that
/// starts at the checked directive: a directive used twice without a cycle is not reported.
pub proof fn law_recursion_reports_only_cycles<'a>(
    defs: Seq<TypeSystemDefinition<'a>>,
    root: DirectiveDefinition<'a>,
)
    ensures
        forall|k: int|
            0 <= k < spec_recursion_errors(defs, root).len() ==> reached_again(
                defs,
                root,
                #[trigger] spec_recursion_errors(defs, root)[k],
            ),
{
    let c = seq![root];
    assert(is_use_chain(defs, root, c));
    lemma_visit_reports_cycles(defs, root, Seq::empty(), Set::empty(), root, defs.len() + 1, c);
}

} // verus!
