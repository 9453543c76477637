//! Checks of directive applications and of arguments, shared by both checkers.

use vstd::prelude::*;

use crate::ast::base::{str_eq, Ident, Pos};
use crate::ast::directive::Directive;
use crate::ast::type_system::{
    ArgumentsDefinition, DirectiveDefinition, InputValueDefinition, TypeSystemDefinition,
};
use crate::ast::value::{Arguments, Value};
use crate::ast::variable::VariablesDefinition;

use super::definitions::{find_directive, spec_find_directive};
use super::error::{
    err, err_if, err_info, one_info, push_error, views, CheckError, CheckErrorMessage,
    CheckErrorView,
};
use super::types::{idents_contain, names_contain};
use super::values::{
    all_value_messages, check_value, find_field_index, is_required, lemma_find_field_index,
    is_value_message, lemma_value_messages, opt_deref, spec_find_field_index, spec_value_errors,
};

verus! {

/// Whether a list of strings holds one equal to a given string.
pub open spec fn strs_contain(v: Seq<&str>, s: Seq<char>) -> bool {
    exists|k: int| 0 <= k < v.len() && #[trigger] v[k]@ == s
}

/// Whether a list of strings holds one equal to the given string.
pub fn str_vec_contains(v: &[&str], s: &str) -> (r: bool)
    ensures
        r == strs_contain(v@, s@),
{
    let mut i: usize = 0;
    while i < v.len()
        invariant
            i <= v@.len(),
            forall|k: int| 0 <= k < i ==> #[trigger] v@[k]@ != s@,
        decreases v@.len() - i,
    {
        if str_eq(v[i], s) {
            return true;
        }
        i += 1;
    }
    false
}

/// The argument values given, none when there are no arguments.
pub open spec fn given_arguments<'a>(arguments: Option<Arguments<'a>>) -> Seq<(Ident<'a>, Value<'a>)> {
    match arguments {
        Some(a) => a.arguments@,
        None => Seq::empty(),
    }
}

/// The argument definitions of a definition, none when it declares no arguments.
pub open spec fn defined_arguments<'a>(d: Option<ArgumentsDefinition<'a>>) -> Seq<
    InputValueDefinition<'a>,
> {
    match d {
        Some(a) => a.input_values@,
        None => Seq::empty(),
    }
}

/// Going through the argument definitions in order: the number of them that are given,
/// and the diagnostics of missing required arguments and of the given values.
pub open spec fn spec_defined_argument_errors<'a>(
    defs: Seq<TypeSystemDefinition<'a>>,
    vars: Option<VariablesDefinition<'a>>,
    argument_pos: Pos,
    given: Seq<(Ident<'a>, Value<'a>)>,
    arg_defs: Seq<InputValueDefinition<'a>>,
) -> (nat, Seq<CheckErrorView<'a>>)
    decreases arg_defs.len(),
{
    if arg_defs.len() == 0 {
        (0, Seq::empty())
    } else {
        let prev = spec_defined_argument_errors(defs, vars, argument_pos, given, arg_defs.drop_last());
        let d = arg_defs.last();
        match spec_find_field_index(given, d.name.name@) {
            None => (
                prev.0,
                prev.1 + err_if(
                    is_required(d),
                    err_info(
                        argument_pos,
                        CheckErrorMessage::RequiredArgumentNotSpecified { name: d.name.name },
                        seq![(d.name.position, CheckErrorMessage::DefinitionPos { name: d.name.name })],
                    ),
                ),
            ),
            Some(k) => (prev.0 + 1, prev.1 + spec_value_errors(defs, vars, given[k].1, d.ty)),
        }
    }
}

/// Diagnostics of given arguments that no definition declares, in order.
pub open spec fn spec_unknown_argument_errors<'a>(
    given: Seq<(Ident<'a>, Value<'a>)>,
    arg_defs: Seq<InputValueDefinition<'a>>,
) -> Seq<CheckErrorView<'a>>
    decreases given.len(),
{
    if given.len() == 0 {
        Seq::empty()
    } else {
        let name = given.last().0;
        spec_unknown_argument_errors(given.drop_last(), arg_defs) + err_if(
            !(exists|i: int| 0 <= i < arg_defs.len() && #[trigger] arg_defs[i].name.name@ == name.name@),
            err(name.position, CheckErrorMessage::UnknownArgument { name: name.name }),
        )
    }
}

/// Diagnostics of the arguments given to a field or directive: arguments where none are
/// declared; missing required arguments; values that do not fit their argument;
/// and, when not every given argument was matched, the unknown ones.
pub open spec fn spec_argument_errors<'a>(
    defs: Seq<TypeSystemDefinition<'a>>,
    vars: Option<VariablesDefinition<'a>>,
    parent_pos: Pos,
    parent_name: &'a str,
    parent_kind: &'static str,
    arguments: Option<Arguments<'a>>,
    arg_defs: Seq<InputValueDefinition<'a>>,
) -> Seq<CheckErrorView<'a>> {
    if arg_defs.len() == 0 {
        match arguments {
            None => Seq::empty(),
            Some(args) => seq![
                err_info(
                    args.position,
                    CheckErrorMessage::ArgumentsNotNeeded { kind: parent_kind },
                    seq![(parent_pos, CheckErrorMessage::DefinitionPos { name: parent_name })],
                ),
            ],
        }
    } else {
        let argument_pos = match arguments {
            Some(a) => a.position,
            None => parent_pos,
        };
        let given = given_arguments(arguments);
        let r = spec_defined_argument_errors(defs, vars, argument_pos, given, arg_defs);
        r.1 + if r.0 < given.len() {
            spec_unknown_argument_errors(given, arg_defs)
        } else {
            Seq::empty()
        }
    }
}

/// Whether some argument definition has the given name.
fn arg_defs_contain(arg_defs: &[InputValueDefinition], name: &str) -> (r: bool)
    ensures
        r == (exists|i: int| 0 <= i < arg_defs@.len() && #[trigger] arg_defs@[i].name.name@ == name@),
{
    let mut i: usize = 0;
    while i < arg_defs.len()
        invariant
            i <= arg_defs@.len(),
            forall|j: int| 0 <= j < i ==> #[trigger] arg_defs@[j].name.name@ != name@,
        decreases arg_defs@.len() - i,
    {
        if str_eq(arg_defs[i].name.name, name) {
            return true;
        }
        i += 1;
    }
    false
}

/// Checks the arguments given to a field or directive against its argument definitions.
pub fn check_arguments<'a>(
    definitions: &'a Vec<TypeSystemDefinition<'a>>,
    variables: Option<&'a VariablesDefinition<'a>>,
    parent_pos: Pos,
    parent_name: &'a str,
    parent_kind: &'static str,
    arguments: Option<&'a Arguments<'a>>,
    arguments_definition: &'a [InputValueDefinition<'a>],
    result: &mut Vec<CheckError<'a>>,
)
    ensures
        views(final(result)@) == views(old(result)@) + spec_argument_errors(
            definitions@,
            opt_deref(variables),
            parent_pos,
            parent_name,
            parent_kind,
            opt_deref(arguments),
            arguments_definition@,
        ),
{
    let ghost r0 = views(result@);
    if arguments_definition.len() == 0 {
        match arguments {
            None => {
                assert(views(result@) =~= r0 + Seq::empty());
            },
            Some(args) => {
                let e = CheckErrorMessage::ArgumentsNotNeeded { kind: parent_kind }.with_pos(
                    args.position,
                ).with_additional_info(
                    one_info(parent_pos, CheckErrorMessage::DefinitionPos { name: parent_name }),
                );
                push_error(result, e);
            },
        }
        return ;
    }
    let argument_pos = match arguments {
        Some(a) => a.position,
        None => parent_pos,
    };
    let given: &'a [(Ident<'a>, Value<'a>)] = match arguments {
        Some(a) => a.arguments.as_slice(),
        None => &[],
    };
    assert(given@ == super::common::given_arguments(opt_deref(arguments)));
    let mut seen_args: usize = 0;
    let mut i: usize = 0;
    assert(arguments_definition@.take(0) =~= Seq::<InputValueDefinition<'a>>::empty());
    while i < arguments_definition.len()
        invariant
            i <= arguments_definition@.len(),
            seen_args <= i,
            ({
                let st = spec_defined_argument_errors(
                    definitions@,
                    opt_deref(variables),
                    argument_pos,
                    given@,
                    arguments_definition@.take(i as int),
                );
                &&& seen_args == st.0
                &&& views(result@) == r0 + st.1
            }),
        decreases arguments_definition@.len() - i,
    {
        let arg_def = &arguments_definition[i];
        assert(arguments_definition@.take(i + 1).drop_last() =~= arguments_definition@.take(
            i as int,
        ));
        match find_field_index(given, arg_def.name.name) {
            None => {
                if arg_def.ty.is_nonnull() && arg_def.default_value.is_none() {
                    let e = CheckErrorMessage::RequiredArgumentNotSpecified {
                        name: arg_def.name.name,
                    }.with_pos(argument_pos).with_additional_info(
                        one_info(
                            arg_def.name.position,
                            CheckErrorMessage::DefinitionPos { name: arg_def.name.name },
                        ),
                    );
                    push_error(result, e);
                } else {
                    assert(views(result@) =~= views(result@) + Seq::empty());
                }
            },
            Some(k) => {
                check_value(definitions, variables, &given[k].1, &arg_def.ty, result);
                seen_args += 1;
            },
        }
        i += 1;
    }
    assert(arguments_definition@.take(i as int) =~= arguments_definition@);
    if seen_args < given.len() {
        let ghost r1 = views(result@);
        let mut j: usize = 0;
        assert(given@.take(0) =~= Seq::<(Ident<'a>, Value<'a>)>::empty());
        while j < given.len()
            invariant
                j <= given@.len(),
                views(result@) == r1 + spec_unknown_argument_errors(
                    given@.take(j as int),
                    arguments_definition@,
                ),
            decreases given@.len() - j,
        {
            assert(given@.take(j + 1).drop_last() =~= given@.take(j as int));
            let arg_name = given[j].0;
            if !arg_defs_contain(arguments_definition, arg_name.name) {
                push_error(
                    result,
                    CheckErrorMessage::UnknownArgument { name: arg_name.name }.with_pos(
                        arg_name.position,
                    ),
                );
            } else {
                assert(views(result@) =~= views(result@) + Seq::empty());
            }
            j += 1;
        }
        assert(given@.take(j as int) =~= given@);
    } else {
        assert(views(result@) =~= views(result@) + Seq::empty());
    }
}

/// Whether a directive with a given name occurs in a list.
pub open spec fn directive_named(ds: Seq<Directive>, name: Seq<char>) -> bool {
    exists|j: int| 0 <= j < ds.len() && #[trigger] ds[j].name.name@ == name
}

/// The argument definitions of a directive definition.
pub open spec fn directive_arguments<'a>(def: DirectiveDefinition<'a>) -> Seq<InputValueDefinition<'a>> {
    defined_arguments(def.arguments)
}

/// Diagnostics of one directive application, given the directives before it:
/// an unknown directive; a directive not allowed at this location; a repetition of a
/// directive that is not repeatable; and the diagnostics of its arguments.
pub open spec fn spec_one_directive_errors<'a>(
    defs: Seq<TypeSystemDefinition<'a>>,
    vars: Option<VariablesDefinition<'a>>,
    earlier: Seq<Directive<'a>>,
    d: Directive<'a>,
    location: Seq<char>,
) -> Seq<CheckErrorView<'a>> {
    match spec_find_directive(defs, d.name.name@) {
        None => seq![err(d.name.position, CheckErrorMessage::UnknownDirective { name: d.name.name })],
        Some(def) => err_if(
            !names_contain(def.locations@, location),
            err(d.position, CheckErrorMessage::DirectiveLocationNotAllowed { name: d.name.name }),
        ) + err_if(
            directive_named(earlier, d.name.name@) && def.repeatable is None,
            err(d.position, CheckErrorMessage::RepeatedDirective { name: d.name.name }),
        ) + spec_argument_errors(
            defs,
            vars,
            d.position,
            d.name.name,
            "directive",
            d.arguments,
            directive_arguments(def),
        ),
    }
}

/// Diagnostics of a list of directive applications at a location, in order.
pub open spec fn spec_directive_errors<'a>(
    defs: Seq<TypeSystemDefinition<'a>>,
    vars: Option<VariablesDefinition<'a>>,
    ds: Seq<Directive<'a>>,
    location: Seq<char>,
) -> Seq<CheckErrorView<'a>>
    decreases ds.len(),
{
    if ds.len() == 0 {
        Seq::empty()
    } else {
        spec_directive_errors(defs, vars, ds.drop_last(), location) + spec_one_directive_errors(
            defs,
            vars,
            ds.drop_last(),
            ds.last(),
            location,
        )
    }
}

/// The argument definitions of a field or directive as a slice, empty where it declares none.
pub fn argument_definitions<'a>(arguments: &'a Option<ArgumentsDefinition<'a>>) -> (r: &'a [InputValueDefinition<'a>])
    ensures
        r@ == defined_arguments(*arguments),
{
    match arguments {
        Some(a) => a.input_values.as_slice(),
        None => &[],
    }
}

proof fn lemma_directive_named_take<'a>(ds: Seq<Directive<'a>>, i: int, n: Seq<char>)
    requires
        0 <= i < ds.len(),
    ensures
        directive_named(ds.take(i + 1), n) <==> (directive_named(ds.take(i), n) || ds[i].name.name@
            == n),
{
    if directive_named(ds.take(i + 1), n) {
        let j = choose|j: int| 0 <= j < i + 1 && #[trigger] ds.take(i + 1)[j].name.name@ == n;
        if j < i {
            assert(ds.take(i)[j] == ds.take(i + 1)[j]);
            assert(ds.take(i)[j].name.name@ == n);
        }
    }
    if directive_named(ds.take(i), n) {
        let j = choose|j: int| 0 <= j < i && #[trigger] ds.take(i)[j].name.name@ == n;
        assert(ds.take(i)[j] == ds.take(i + 1)[j]);
        assert(ds.take(i + 1)[j].name.name@ == n);
    }
    if ds[i].name.name@ == n {
        assert(ds.take(i + 1)[i] == ds[i]);
        assert(ds.take(i + 1)[i].name.name@ == n);
    }
}

proof fn lemma_strs_contain_push(v: Seq<&str>, x: &str, n: Seq<char>)
    ensures
        strs_contain(v.push(x), n) <==> (strs_contain(v, n) || x@ == n),
{
    if strs_contain(v.push(x), n) {
        let k = choose|k: int| 0 <= k < v.len() + 1 && #[trigger] v.push(x)[k]@ == n;
        if k < v.len() {
            assert(v[k] == v.push(x)[k]);
            assert(v[k]@ == n);
        }
    }
    if strs_contain(v, n) {
        let k = choose|k: int| 0 <= k < v.len() && #[trigger] v[k]@ == n;
        assert(v[k] == v.push(x)[k]);
        assert(v.push(x)[k]@ == n);
    }
    if x@ == n {
        assert(v.push(x)[v.len() as int] == x);
        assert(v.push(x)[v.len() as int]@ == n);
    }
}

/// Checks directives applied at a location (such as `FIELD` or `SCALAR`).
pub fn check_directives<'a>(
    definitions: &'a Vec<TypeSystemDefinition<'a>>,
    variables: Option<&'a VariablesDefinition<'a>>,
    directives: &'a [Directive<'a>],
    current_position: &str,
    result: &mut Vec<CheckError<'a>>,
)
    ensures
        views(final(result)@) == views(old(result)@) + spec_directive_errors(
            definitions@,
            opt_deref(variables),
            directives@,
            current_position@,
        ),
{
    let ghost r0 = views(result@);
    let mut seen_directives: Vec<&str> = Vec::new();
    let mut i: usize = 0;
    assert(directives@.take(0) =~= Seq::<Directive<'a>>::empty());
    while i < directives.len()
        invariant
            i <= directives@.len(),
            views(result@) == r0 + spec_directive_errors(
                definitions@,
                opt_deref(variables),
                directives@.take(i as int),
                current_position@,
            ),
            forall|n: Seq<char>|
                #![trigger strs_contain(seen_directives@, n)]
                strs_contain(seen_directives@, n) <==> (directive_named(
                    directives@.take(i as int),
                    n,
                ) && spec_find_directive(definitions@, n) is Some),
        decreases directives@.len() - i,
    {
        let d = &directives[i];
        let ghost earlier = directives@.take(i as int);
        assert(directives@.take(i + 1).drop_last() =~= earlier);
        assert(directives@.take(i + 1).last() == *d);
        let ghost before = views(result@);
        match find_directive(definitions, d.name.name) {
            None => {
                push_error(
                    result,
                    CheckErrorMessage::UnknownDirective { name: d.name.name }.with_pos(d.name.position),
                );
                assert forall|n: Seq<char>|
                    #![trigger strs_contain(seen_directives@, n)]
                    strs_contain(seen_directives@, n) <==> (directive_named(
                        directives@.take(i + 1),
                        n,
                    ) && spec_find_directive(definitions@, n) is Some) by {
                    lemma_directive_named_take(directives@, i as int, n);
                }
            },
            Some(def) => {
                if !idents_contain(&def.locations, current_position) {
                    push_error(
                        result,
                        CheckErrorMessage::DirectiveLocationNotAllowed { name: d.name.name }.with_pos(
                            d.position,
                        ),
                    );
                } else {
                    assert(views(result@) =~= views(result@) + Seq::empty());
                }
                let ghost mid = views(result@);
                let ghost seen_before = seen_directives@;
                let seen = str_vec_contains(seen_directives.as_slice(), d.name.name);
                assert(seen == directive_named(earlier, d.name.name@));
                if seen {
                    if def.repeatable.is_none() {
                        push_error(
                            result,
                            CheckErrorMessage::RepeatedDirective { name: d.name.name }.with_pos(
                                d.position,
                            ),
                        );
                    } else {
                        assert(views(result@) =~= views(result@) + Seq::empty());
                    }
                } else {
                    seen_directives.push(d.name.name);
                    assert(views(result@) =~= views(result@) + Seq::empty());
                }
                let ghost mid2 = views(result@);
                check_arguments(
                    definitions,
                    variables,
                    d.position,
                    d.name.name,
                    "directive",
                    d.arguments.as_ref(),
                    argument_definitions(&def.arguments),
                    result,
                );
                assert forall|n: Seq<char>|
                    #![trigger strs_contain(seen_directives@, n)]
                    strs_contain(seen_directives@, n) <==> (directive_named(
                        directives@.take(i + 1),
                        n,
                    ) && spec_find_directive(definitions@, n) is Some) by {
                    lemma_directive_named_take(directives@, i as int, n);
                    lemma_strs_contain_push(seen_before, d.name.name, n);
                    assert(strs_contain(seen_before, n) <==> (directive_named(earlier, n)
                        && spec_find_directive(definitions@, n) is Some));
                }
            },
        }
        assert(views(result@) =~= r0 + spec_directive_errors(
            definitions@,
            opt_deref(variables),
            directives@.take(i + 1),
            current_position@,
        ));
        i += 1;
    }
    assert(directives@.take(i as int) =~= directives@);
}


/// Whether no given argument has a name.
pub open spec fn not_given<'a>(given: Seq<(Ident<'a>, Value<'a>)>, name: Seq<char>) -> bool {
    forall|j: int| 0 <= j < given.len() ==> (#[trigger] given[j]).0.name@ != name
}

/// Whether an argument definition must be given: its type is non-null and it has no
/// default value.
pub open spec fn must_be_given<'a>(d: InputValueDefinition<'a>) -> bool {
    d.ty is NonNull && d.default_value is None
}

/// Whether a diagnostic says that an argument is required and was not given.
pub open spec fn says_required<'a>(e: CheckErrorView<'a>) -> bool {
    e.message is RequiredArgumentNotSpecified
}

proof fn lemma_unknown_argument_messages<'a>(
    given: Seq<(Ident<'a>, Value<'a>)>,
    arg_defs: Seq<InputValueDefinition<'a>>,
)
    ensures
        forall|k: int|
            0 <= k < spec_unknown_argument_errors(given, arg_defs).len() ==> !says_required(
                #[trigger] spec_unknown_argument_errors(given, arg_defs)[k],
            ),
    decreases given.len(),
{
    if given.len() > 0 {
        lemma_unknown_argument_messages(given.drop_last(), arg_defs);
        let a = spec_unknown_argument_errors(given.drop_last(), arg_defs);
        let all = spec_unknown_argument_errors(given, arg_defs);
        assert forall|k: int| 0 <= k < all.len() implies !says_required(#[trigger] all[k]) by {
            if k < a.len() {
                assert(all[k] == a[k]);
            }
        }
    }
}

proof fn lemma_defined_required<'a>(
    defs: Seq<TypeSystemDefinition<'a>>,
    vars: Option<VariablesDefinition<'a>>,
    argument_pos: Pos,
    given: Seq<(Ident<'a>, Value<'a>)>,
    arg_defs: Seq<InputValueDefinition<'a>>,
)
    ensures
        ({
            let errs = spec_defined_argument_errors(defs, vars, argument_pos, given, arg_defs).1;
            &&& forall|k: int|
                0 <= k < errs.len() && says_required(#[trigger] errs[k]) ==> exists|i: int|
                    0 <= i < arg_defs.len() && errs[k].message
                        == CheckErrorMessage::RequiredArgumentNotSpecified {
                        name: (#[trigger] arg_defs[i]).name.name,
                    } && must_be_given(arg_defs[i]) && not_given(given, arg_defs[i].name.name@)
            &&& forall|i: int|
                0 <= i < arg_defs.len() && must_be_given(#[trigger] arg_defs[i]) && not_given(
                    given,
                    arg_defs[i].name.name@,
                ) ==> exists|k: int|
                    0 <= k < errs.len() && (#[trigger] errs[k]).message
                        == CheckErrorMessage::RequiredArgumentNotSpecified {
                        name: arg_defs[i].name.name,
                    }
        }),
    decreases arg_defs.len(),
{
    if arg_defs.len() > 0 {
        let pre = arg_defs.drop_last();
        lemma_defined_required(defs, vars, argument_pos, given, pre);
        let prev = spec_defined_argument_errors(defs, vars, argument_pos, given, pre);
        let errs = spec_defined_argument_errors(defs, vars, argument_pos, given, arg_defs).1;
        let d = arg_defs.last();
        let last = arg_defs.len() - 1;
        assert(d == arg_defs[last]);
        lemma_find_field_index(given, d.name.name@);
        assert forall|i: int| 0 <= i < pre.len() implies #[trigger] pre[i] == arg_defs[i] by {}
        match spec_find_field_index(given, d.name.name@) {
            None => {
                let x = err_if(
                    is_required(d),
                    err_info(
                        argument_pos,
                        CheckErrorMessage::RequiredArgumentNotSpecified { name: d.name.name },
                        seq![(d.name.position, CheckErrorMessage::DefinitionPos { name: d.name.name })],
                    ),
                );
                assert(errs == prev.1 + x);
                assert forall|k: int| 0 <= k < errs.len() && says_required(#[trigger] errs[k]) implies exists|i: int|
                    0 <= i < arg_defs.len() && errs[k].message
                        == CheckErrorMessage::RequiredArgumentNotSpecified {
                        name: (#[trigger] arg_defs[i]).name.name,
                    } && must_be_given(arg_defs[i]) && not_given(given, arg_defs[i].name.name@) by {
                    if k < prev.1.len() {
                        assert(errs[k] == prev.1[k]);
                        assert(says_required(prev.1[k]));
                        let i = choose|i: int|
                            0 <= i < pre.len() && prev.1[k].message
                                == CheckErrorMessage::RequiredArgumentNotSpecified {
                                name: (#[trigger] pre[i]).name.name,
                            } && must_be_given(pre[i]) && not_given(given, pre[i].name.name@);
                        assert(arg_defs[i] == pre[i]);
                    } else {
                        assert(errs[k] == x[k - prev.1.len()]);
                        assert(arg_defs[last] == d);
                    }
                }
                assert forall|i: int|
                    0 <= i < arg_defs.len() && must_be_given(#[trigger] arg_defs[i]) && not_given(
                        given,
                        arg_defs[i].name.name@,
                    ) implies exists|k: int|
                    0 <= k < errs.len() && (#[trigger] errs[k]).message
                        == CheckErrorMessage::RequiredArgumentNotSpecified {
                        name: arg_defs[i].name.name,
                    } by {
                    if i < pre.len() {
                        assert(pre[i] == arg_defs[i]);
                        assert(must_be_given(pre[i]));
                        let k = choose|k: int|
                            0 <= k < prev.1.len() && (#[trigger] prev.1[k]).message
                                == CheckErrorMessage::RequiredArgumentNotSpecified {
                                name: pre[i].name.name,
                            };
                        assert(errs[k] == prev.1[k]);
                    } else {
                        assert(errs[prev.1.len() as int] == x[0]);
                    }
                }
            },
            Some(kk) => {
                let x = spec_value_errors(defs, vars, given[kk].1, d.ty);
                lemma_value_messages(defs, vars, given[kk].1, d.ty);
                assert(errs == prev.1 + x);
                assert forall|k: int| 0 <= k < errs.len() && says_required(#[trigger] errs[k]) implies exists|i: int|
                    0 <= i < arg_defs.len() && errs[k].message
                        == CheckErrorMessage::RequiredArgumentNotSpecified {
                        name: (#[trigger] arg_defs[i]).name.name,
                    } && must_be_given(arg_defs[i]) && not_given(given, arg_defs[i].name.name@) by {
                    if k < prev.1.len() {
                        assert(errs[k] == prev.1[k]);
                        assert(says_required(prev.1[k]));
                        let i = choose|i: int|
                            0 <= i < pre.len() && prev.1[k].message
                                == CheckErrorMessage::RequiredArgumentNotSpecified {
                                name: (#[trigger] pre[i]).name.name,
                            } && must_be_given(pre[i]) && not_given(given, pre[i].name.name@);
                        assert(arg_defs[i] == pre[i]);
                    } else {
                        assert(errs[k] == x[k - prev.1.len()]);
                        assert(all_value_messages(x));
                        assert(crate::checker::values::is_value_message(x[k - prev.1.len()].message));
                    }
                }
                assert forall|i: int|
                    0 <= i < arg_defs.len() && must_be_given(#[trigger] arg_defs[i]) && not_given(
                        given,
                        arg_defs[i].name.name@,
                    ) implies exists|k: int|
                    0 <= k < errs.len() && (#[trigger] errs[k]).message
                        == CheckErrorMessage::RequiredArgumentNotSpecified {
                        name: arg_defs[i].name.name,
                    } by {
                    if i < pre.len() {
                        assert(pre[i] == arg_defs[i]);
                        assert(must_be_given(pre[i]));
                        let k = choose|k: int|
                            0 <= k < prev.1.len() && (#[trigger] prev.1[k]).message
                                == CheckErrorMessage::RequiredArgumentNotSpecified {
                                name: pre[i].name.name,
                            };
                        assert(errs[k] == prev.1[k]);
                    } else {
                        assert(given[kk].0.name@ == d.name.name@);
                    }
                }
            },
        }
    }
}

/// A missing argument is reported as required exactly when its type is non-null and it has
/// no default value: every such diagnostic names an argument definition that is non-null,
/// has no default and is not given, and every such definition gets one.
pub proof fn law_required_arguments<'a>(
    defs: Seq<TypeSystemDefinition<'a>>,
    vars: Option<VariablesDefinition<'a>>,
    parent_pos: Pos,
    parent_name: &'a str,
    parent_kind: &'static str,
    arguments: Option<Arguments<'a>>,
    arg_defs: Seq<InputValueDefinition<'a>>,
)
    ensures
        ({
            let errs = spec_argument_errors(
                defs,
                vars,
                parent_pos,
                parent_name,
                parent_kind,
                arguments,
                arg_defs,
            );
            let given = given_arguments(arguments);
            &&& forall|k: int|
                0 <= k < errs.len() && (#[trigger] errs[k]).message is RequiredArgumentNotSpecified
                    ==> exists|i: int|
                    0 <= i < arg_defs.len() && errs[k].message
                        == CheckErrorMessage::RequiredArgumentNotSpecified {
                        name: (#[trigger] arg_defs[i]).name.name,
                    } && arg_defs[i].ty is NonNull && arg_defs[i].default_value is None
                        && not_given(given, arg_defs[i].name.name@)
            &&& forall|i: int|
                0 <= i < arg_defs.len() && (#[trigger] arg_defs[i]).ty is NonNull
                    && arg_defs[i].default_value is None && not_given(given, arg_defs[i].name.name@)
                    ==> exists|k: int|
                    0 <= k < errs.len() && (#[trigger] errs[k]).message
                        == CheckErrorMessage::RequiredArgumentNotSpecified {
                        name: arg_defs[i].name.name,
                    }
        }),
{
    let errs = spec_argument_errors(defs, vars, parent_pos, parent_name, parent_kind, arguments, arg_defs);
    if arg_defs.len() > 0 {
        let argument_pos = match arguments {
            Some(a) => a.position,
            None => parent_pos,
        };
        let given = given_arguments(arguments);
        let r = spec_defined_argument_errors(defs, vars, argument_pos, given, arg_defs);
        lemma_defined_required(defs, vars, argument_pos, given, arg_defs);
        lemma_unknown_argument_messages(given, arg_defs);
        let u = if r.0 < given.len() {
            spec_unknown_argument_errors(given, arg_defs)
        } else {
            Seq::empty()
        };
        assert(errs == r.1 + u);
        assert forall|k: int|
            0 <= k < errs.len() && (#[trigger] errs[k]).message is RequiredArgumentNotSpecified
                implies exists|i: int|
                0 <= i < arg_defs.len() && errs[k].message
                    == CheckErrorMessage::RequiredArgumentNotSpecified {
                    name: (#[trigger] arg_defs[i]).name.name,
                } && arg_defs[i].ty is NonNull && arg_defs[i].default_value is None
                    && not_given(given, arg_defs[i].name.name@) by {
            if k < r.1.len() {
                assert(errs[k] == r.1[k]);
                assert(says_required(r.1[k]));
                let i = choose|i: int|
                    0 <= i < arg_defs.len() && r.1[k].message
                        == CheckErrorMessage::RequiredArgumentNotSpecified {
                        name: (#[trigger] arg_defs[i]).name.name,
                    } && must_be_given(arg_defs[i]) && not_given(given, arg_defs[i].name.name@);
            } else {
                assert(errs[k] == u[k - r.1.len()]);
                assert(!says_required(u[k - r.1.len()]));
            }
        }
        assert forall|i: int|
            0 <= i < arg_defs.len() && (#[trigger] arg_defs[i]).ty is NonNull
                && arg_defs[i].default_value is None && not_given(given, arg_defs[i].name.name@)
                implies exists|k: int|
                0 <= k < errs.len() && (#[trigger] errs[k]).message
                    == CheckErrorMessage::RequiredArgumentNotSpecified {
                    name: arg_defs[i].name.name,
                } by {
            assert(must_be_given(arg_defs[i]));
            let k = choose|k: int|
                0 <= k < r.1.len() && (#[trigger] r.1[k]).message
                    == CheckErrorMessage::RequiredArgumentNotSpecified {
                    name: arg_defs[i].name.name,
                };
            assert(errs[k] == r.1[k]);
        }
    }
}


/// Whether a message is one that checking directive applications can give.
pub open spec fn is_directive_message(m: CheckErrorMessage) -> bool {
    m is UnknownDirective || m is DirectiveLocationNotAllowed || m is RepeatedDirective
        || m is ArgumentsNotNeeded || m is RequiredArgumentNotSpecified || m is UnknownArgument
        || is_value_message(m)
}

/// Whether every diagnostic of a list has a message that checking directives can give.
pub open spec fn all_directive_messages<'a>(s: Seq<CheckErrorView<'a>>) -> bool {
    forall|i: int| 0 <= i < s.len() ==> is_directive_message(#[trigger] s[i].message)
}

proof fn lemma_directive_messages_concat<'a>(a: Seq<CheckErrorView<'a>>, b: Seq<CheckErrorView<'a>>)
    requires
        all_directive_messages(a),
        all_directive_messages(b),
    ensures
        all_directive_messages(a + b),
{
    assert forall|i: int| 0 <= i < (a + b).len() implies is_directive_message(#[trigger] (a + b)[i].message) by {
        if i < a.len() {
            assert((a + b)[i] == a[i]);
        } else {
            assert((a + b)[i] == b[i - a.len()]);
        }
    }
}

proof fn lemma_defined_argument_messages<'a>(
    defs: Seq<TypeSystemDefinition<'a>>,
    vars: Option<VariablesDefinition<'a>>,
    argument_pos: Pos,
    given: Seq<(Ident<'a>, Value<'a>)>,
    arg_defs: Seq<InputValueDefinition<'a>>,
)
    ensures
        all_directive_messages(spec_defined_argument_errors(defs, vars, argument_pos, given, arg_defs).1),
    decreases arg_defs.len(),
{
    if arg_defs.len() > 0 {
        let pre = arg_defs.drop_last();
        lemma_defined_argument_messages(defs, vars, argument_pos, given, pre);
        let prev = spec_defined_argument_errors(defs, vars, argument_pos, given, pre);
        let d = arg_defs.last();
        match spec_find_field_index(given, d.name.name@) {
            None => {
                let x = err_if(
                    is_required(d),
                    err_info(
                        argument_pos,
                        CheckErrorMessage::RequiredArgumentNotSpecified { name: d.name.name },
                        seq![(d.name.position, CheckErrorMessage::DefinitionPos { name: d.name.name })],
                    ),
                );
                lemma_directive_messages_concat(prev.1, x);
            },
            Some(k) => {
                let x = spec_value_errors(defs, vars, given[k].1, d.ty);
                lemma_value_messages(defs, vars, given[k].1, d.ty);
                assert(all_directive_messages(x));
                lemma_directive_messages_concat(prev.1, x);
            },
        }
    }
}

proof fn lemma_argument_messages<'a>(
    defs: Seq<TypeSystemDefinition<'a>>,
    vars: Option<VariablesDefinition<'a>>,
    parent_pos: Pos,
    parent_name: &'a str,
    parent_kind: &'static str,
    arguments: Option<Arguments<'a>>,
    arg_defs: Seq<InputValueDefinition<'a>>,
)
    ensures
        all_directive_messages(
            spec_argument_errors(defs, vars, parent_pos, parent_name, parent_kind, arguments, arg_defs),
        ),
{
    if arg_defs.len() > 0 {
        let argument_pos = match arguments {
            Some(a) => a.position,
            None => parent_pos,
        };
        let given = given_arguments(arguments);
        let r = spec_defined_argument_errors(defs, vars, argument_pos, given, arg_defs);
        lemma_defined_argument_messages(defs, vars, argument_pos, given, arg_defs);
        lemma_unknown_argument_messages(given, arg_defs);
        let u = if r.0 < given.len() {
            spec_unknown_argument_errors(given, arg_defs)
        } else {
            Seq::empty()
        };
        assert(all_directive_messages(u)) by {
            lemma_unknown_are_unknown(given, arg_defs);
        }
        lemma_directive_messages_concat(r.1, u);
    }
}

proof fn lemma_unknown_are_unknown<'a>(given: Seq<(Ident<'a>, Value<'a>)>, arg_defs: Seq<InputValueDefinition<'a>>)
    ensures
        forall|k: int|
            0 <= k < spec_unknown_argument_errors(given, arg_defs).len() ==> (#[trigger] spec_unknown_argument_errors(
                given,
                arg_defs,
            )[k]).message is UnknownArgument,
    decreases given.len(),
{
    if given.len() > 0 {
        lemma_unknown_are_unknown(given.drop_last(), arg_defs);
        let a = spec_unknown_argument_errors(given.drop_last(), arg_defs);
        let all = spec_unknown_argument_errors(given, arg_defs);
        assert forall|k: int| 0 <= k < all.len() implies (#[trigger] all[k]).message is UnknownArgument by {
            if k < a.len() {
                assert(all[k] == a[k]);
            }
        }
    }
}

/// Checking directive applications gives only diagnostics about directives, their
/// arguments and the argument values.
pub proof fn lemma_directive_messages<'a>(
    defs: Seq<TypeSystemDefinition<'a>>,
    vars: Option<VariablesDefinition<'a>>,
    ds: Seq<Directive<'a>>,
    location: Seq<char>,
)
    ensures
        all_directive_messages(spec_directive_errors(defs, vars, ds, location)),
    decreases ds.len(),
{
    if ds.len() > 0 {
        lemma_directive_messages(defs, vars, ds.drop_last(), location);
        let d = ds.last();
        let one = spec_one_directive_errors(defs, vars, ds.drop_last(), d, location);
        match spec_find_directive(defs, d.name.name@) {
            None => {},
            Some(def) => {
                let a = err_if(
                    !names_contain(def.locations@, location),
                    err(d.position, CheckErrorMessage::DirectiveLocationNotAllowed { name: d.name.name }),
                );
                let b = err_if(
                    directive_named(ds.drop_last(), d.name.name@) && def.repeatable is None,
                    err(d.position, CheckErrorMessage::RepeatedDirective { name: d.name.name }),
                );
                let c = spec_argument_errors(
                    defs,
                    vars,
                    d.position,
                    d.name.name,
                    "directive",
                    d.arguments,
                    directive_arguments(def),
                );
                lemma_argument_messages(defs, vars, d.position, d.name.name, "directive", d.arguments, directive_arguments(def));
                lemma_directive_messages_concat(a, b);
                lemma_directive_messages_concat(a + b, c);
            },
        }
        lemma_directive_messages_concat(spec_directive_errors(defs, vars, ds.drop_last(), location), one);
    }
}

} // verus!
