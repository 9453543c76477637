//! Whether a fragment's type condition can ever match in the scope where it is spread.

use vstd::prelude::*;

use crate::ast::base::{str_eq, Ident, Pos};
use crate::ast::type_system::{
    InterfaceTypeDefinition, TypeDefinition, TypeSystemDefinition, UnionTypeDefinition,
};

use crate::checker::definitions::{find_type, spec_find_type};
use crate::checker::error::{
    err, err_if, err_info, push_error, push_error_if, views, CheckError, CheckErrorMessage,
    CheckErrorView,
};
use crate::checker::named::{contains_named, has_named, Named};

verus! {

/// The diagnostic of a fragment condition that never matches in a scope, with the places
/// of the two definitions.
pub open spec fn never_matches<'a>(
    spread_pos: Pos,
    root_pos: Pos,
    cond_pos: Pos,
    condition: &'a str,
    scope: &'a str,
    root_info: &'a str,
    cond_info: &'a str,
) -> CheckErrorView<'a> {
    err_info(
        spread_pos,
        CheckErrorMessage::FragmentConditionNeverMatches { condition, scope },
        seq![
            (root_pos, CheckErrorMessage::DefinitionPos { name: root_info }),
            (cond_pos, CheckErrorMessage::DefinitionPos { name: cond_info }),
        ],
    )
}

fn never_matches_error<'a>(
    spread_pos: Pos,
    root_pos: Pos,
    cond_pos: Pos,
    condition: &'a str,
    scope: &'a str,
    root_info: &'a str,
    cond_info: &'a str,
) -> (r: CheckError<'a>)
    ensures
        r@ == never_matches(spread_pos, root_pos, cond_pos, condition, scope, root_info, cond_info),
{
    let mut info = Vec::new();
    info.push((root_pos, CheckErrorMessage::DefinitionPos { name: root_info }));
    info.push((cond_pos, CheckErrorMessage::DefinitionPos { name: cond_info }));
    let r = CheckErrorMessage::FragmentConditionNeverMatches { condition, scope }.with_pos(
        spread_pos,
    ).with_additional_info(info);
    assert(r@.additional_info =~= seq![
        (root_pos, CheckErrorMessage::DefinitionPos { name: root_info }),
        (cond_pos, CheckErrorMessage::DefinitionPos { name: cond_info }),
    ]);
    r
}

/// Whether a definition is an object type that implements both interfaces.
pub open spec fn object_implements_both<'a>(
    d: TypeSystemDefinition<'a>,
    first: Seq<char>,
    second: Seq<char>,
) -> bool {
    match d {
        TypeSystemDefinition::TypeDefinition(TypeDefinition::Object(o)) => has_named(
            o.implements@,
            first,
        ) && has_named(o.implements@, second),
        _ => false,
    }
}

/// Whether some object type of the document implements both interfaces.
pub open spec fn some_object_implements_both<'a>(
    defs: Seq<TypeSystemDefinition<'a>>,
    first: Seq<char>,
    second: Seq<char>,
) -> bool {
    exists|j: int| 0 <= j < defs.len() && #[trigger] object_implements_both(defs[j], first, second)
}

fn any_object_implements_both<'a>(
    definitions: &'a Vec<TypeSystemDefinition<'a>>,
    first: &str,
    second: &str,
) -> (r: bool)
    ensures
        r == some_object_implements_both(definitions@, first@, second@),
{
    let mut i: usize = 0;
    while i < definitions.len()
        invariant
            i <= definitions@.len(),
            forall|j: int|
                0 <= j < i ==> !#[trigger] object_implements_both(definitions@[j], first@, second@),
        decreases definitions@.len() - i,
    {
        match &definitions[i] {
            TypeSystemDefinition::TypeDefinition(TypeDefinition::Object(o)) => {
                if contains_named(o.implements.as_slice(), first) && contains_named(
                    o.implements.as_slice(),
                    second,
                ) {
                    assert(object_implements_both(definitions@[i as int], first@, second@));
                    return true;
                }
            },
            _ => {},
        }
        i += 1;
    }
    false
}

/// Going through the first `n` members of a union until one decides: an object member
/// decides by whether it implements the interface; a member that is not a known object
/// is a type system error and counts as a match. Gives whether some member matched and
/// the errors met.
pub open spec fn members_scan<'a>(
    defs: Seq<TypeSystemDefinition<'a>>,
    interface_name: Seq<char>,
    members: Seq<Ident<'a>>,
    n: nat,
) -> (bool, Seq<CheckErrorView<'a>>)
    decreases n,
{
    if n == 0 {
        (false, Seq::empty())
    } else {
        let prev = members_scan(defs, interface_name, members, (n - 1) as nat);
        if prev.0 {
            prev
        } else {
            let m = members[n - 1];
            match spec_find_type(defs, m.name@) {
                Some(TypeDefinition::Object(o)) => (has_named(o.implements@, interface_name), prev.1),
                _ => (true, prev.1.push(err(m.position, CheckErrorMessage::TypeSystemError))),
            }
        }
    }
}

/// Whether some member of the second union is a member of the first.
pub open spec fn unions_overlap<'a>(first: Seq<Ident<'a>>, second: Seq<Ident<'a>>) -> bool {
    exists|k: int| 0 <= k < second.len() && has_named(first, #[trigger] second[k].name@)
}

fn unions_share_member<'a>(first: &[Ident<'a>], second: &[Ident<'a>]) -> (r: bool)
    ensures
        r == unions_overlap(first@, second@),
{
    let mut k: usize = 0;
    while k < second.len()
        invariant
            k <= second@.len(),
            forall|j: int| 0 <= j < k ==> !has_named(first@, #[trigger] second@[j].name@),
        decreases second@.len() - k,
    {
        if contains_named(first, second[k].name) {
            return true;
        }
        k += 1;
    }
    false
}

/// Diagnostics of a fragment with condition `cond` spread at `spread_pos` in the scope of
/// type `root`, on whether the two can ever match. Scopes that are not output types are
/// left to other checks, as are pairs that are not of two output types.
pub open spec fn spec_condition_errors<'a>(
    defs: Seq<TypeSystemDefinition<'a>>,
    root: TypeDefinition<'a>,
    spread_pos: Pos,
    cond: TypeDefinition<'a>,
) -> Seq<CheckErrorView<'a>> {
    let rp = root.spec_position();
    let cp = cond.spec_position();
    match (root, cond) {
        (TypeDefinition::Object(o), TypeDefinition::Object(c)) => err_if(
            o.name.name@ != c.name.name@,
            never_matches(spread_pos, rp, cp, c.name.name, o.name.name, c.name.name, o.name.name),
        ),
        (TypeDefinition::Object(o), TypeDefinition::Interface(i)) => err_if(
            !has_named(o.implements@, i.name.name@),
            never_matches(spread_pos, rp, cp, i.name.name, o.name.name, i.name.name, o.name.name),
        ),
        (TypeDefinition::Interface(i), TypeDefinition::Object(o)) => err_if(
            !has_named(o.implements@, i.name.name@),
            never_matches(spread_pos, rp, cp, i.name.name, o.name.name, i.name.name, o.name.name),
        ),
        (TypeDefinition::Object(o), TypeDefinition::Union(u)) => err_if(
            !has_named(u.members@, o.name.name@),
            never_matches(spread_pos, rp, cp, u.name.name, o.name.name, u.name.name, o.name.name),
        ),
        (TypeDefinition::Union(u), TypeDefinition::Object(o)) => err_if(
            !has_named(u.members@, o.name.name@),
            never_matches(spread_pos, rp, cp, u.name.name, o.name.name, u.name.name, o.name.name),
        ),
        (TypeDefinition::Interface(i1), TypeDefinition::Interface(i2)) => err_if(
            i1.name.name@ != i2.name.name@ && !some_object_implements_both(
                defs,
                i1.name.name@,
                i2.name.name@,
            ),
            never_matches(spread_pos, rp, cp, i2.name.name, i2.name.name, i2.name.name, i1.name.name),
        ),
        (TypeDefinition::Interface(i), TypeDefinition::Union(u)) => {
            let scan = members_scan(defs, i.name.name@, u.members@, u.members@.len());
            scan.1 + err_if(
                !scan.0,
                never_matches(spread_pos, rp, cp, u.name.name, i.name.name, i.name.name, u.name.name),
            )
        },
        (TypeDefinition::Union(u), TypeDefinition::Interface(i)) => {
            let scan = members_scan(defs, i.name.name@, u.members@, u.members@.len());
            scan.1 + err_if(
                !scan.0,
                never_matches(spread_pos, rp, cp, u.name.name, i.name.name, i.name.name, u.name.name),
            )
        },
        (TypeDefinition::Union(u1), TypeDefinition::Union(u2)) => err_if(
            !unions_overlap(u1.members@, u2.members@),
            never_matches(spread_pos, rp, cp, u2.name.name, u1.name.name, u1.name.name, u2.name.name),
        ),
        _ => Seq::empty(),
    }
}

fn check_interface_union<'a>(
    definitions: &'a Vec<TypeSystemDefinition<'a>>,
    interface: &'a InterfaceTypeDefinition<'a>,
    union: &'a UnionTypeDefinition<'a>,
    spread_pos: Pos,
    root_pos: Pos,
    cond_pos: Pos,
    result: &mut Vec<CheckError<'a>>,
)
    ensures
        ({
            let scan = members_scan(
                definitions@,
                interface.name.name@,
                union.members@,
                union.members@.len(),
            );
            views(final(result)@) == views(old(result)@) + scan.1 + err_if(
                !scan.0,
                never_matches(
                    spread_pos,
                    root_pos,
                    cond_pos,
                    union.name.name,
                    interface.name.name,
                    interface.name.name,
                    union.name.name,
                ),
            )
        }),
{
    let ghost r0 = views(result@);
    let members = union.members.as_slice();
    let mut found = false;
    let mut k: usize = 0;
    while k < members.len()
        invariant
            k <= members@.len(),
            members@ == union.members@,
            found == members_scan(definitions@, interface.name.name@, members@, k as nat).0,
            views(result@) == r0 + members_scan(definitions@, interface.name.name@, members@, k as nat).1,
        decreases members@.len() - k,
    {
        if !found {
            let m = &members[k];
            match find_type(definitions, m.name) {
                Some(TypeDefinition::Object(o)) => {
                    found = contains_named(o.implements.as_slice(), interface.name.name);
                },
                _ => {
                    push_error(result, CheckErrorMessage::TypeSystemError.with_pos(m.position));
                    found = true;
                },
            }
        }
        k += 1;
    }
    push_error_if(
        result,
        !found,
        never_matches_error(
            spread_pos,
            root_pos,
            cond_pos,
            union.name.name,
            interface.name.name,
            interface.name.name,
            union.name.name,
        ),
    );
}

/// Checks whether a fragment with condition `cond` spread in the scope of type `root` can
/// ever match.
pub fn check_fragment_condition<'a>(
    definitions: &'a Vec<TypeSystemDefinition<'a>>,
    root: &'a TypeDefinition<'a>,
    spread_pos: Pos,
    cond: &'a TypeDefinition<'a>,
    result: &mut Vec<CheckError<'a>>,
)
    ensures
        views(final(result)@) == views(old(result)@) + spec_condition_errors(
            definitions@,
            *root,
            spread_pos,
            *cond,
        ),
{
    let ghost r0 = views(result@);
    let rp = *crate::ast::base::HasPos::position(root);
    let cp = *crate::ast::base::HasPos::position(cond);
    match (root, cond) {
        (TypeDefinition::Object(o), TypeDefinition::Object(c)) => {
            push_error_if(
                result,
                !str_eq(o.name.name, c.name.name),
                never_matches_error(
                    spread_pos,
                    rp,
                    cp,
                    c.name.name,
                    o.name.name,
                    c.name.name,
                    o.name.name,
                ),
            );
        },
        (TypeDefinition::Object(o), TypeDefinition::Interface(i)) | (
            TypeDefinition::Interface(i),
            TypeDefinition::Object(o),
        ) => {
            push_error_if(
                result,
                !contains_named(o.implements.as_slice(), i.name.name),
                never_matches_error(
                    spread_pos,
                    rp,
                    cp,
                    i.name.name,
                    o.name.name,
                    i.name.name,
                    o.name.name,
                ),
            );
        },
        (TypeDefinition::Object(o), TypeDefinition::Union(u)) | (
            TypeDefinition::Union(u),
            TypeDefinition::Object(o),
        ) => {
            push_error_if(
                result,
                !contains_named(u.members.as_slice(), o.name.name),
                never_matches_error(
                    spread_pos,
                    rp,
                    cp,
                    u.name.name,
                    o.name.name,
                    u.name.name,
                    o.name.name,
                ),
            );
        },
        (TypeDefinition::Interface(i1), TypeDefinition::Interface(i2)) => {
            let never = !str_eq(i1.name.name, i2.name.name) && !any_object_implements_both(
                definitions,
                i1.name.name,
                i2.name.name,
            );
            push_error_if(
                result,
                never,
                never_matches_error(
                    spread_pos,
                    rp,
                    cp,
                    i2.name.name,
                    i2.name.name,
                    i2.name.name,
                    i1.name.name,
                ),
            );
        },
        (TypeDefinition::Interface(i), TypeDefinition::Union(u)) | (
            TypeDefinition::Union(u),
            TypeDefinition::Interface(i),
        ) => {
            check_interface_union(definitions, i, u, spread_pos, rp, cp, result);
            assert(views(result@) =~= r0 + spec_condition_errors(
                definitions@,
                *root,
                spread_pos,
                *cond,
            ));
        },
        (TypeDefinition::Union(u1), TypeDefinition::Union(u2)) => {
            push_error_if(
                result,
                !unions_share_member(u1.members.as_slice(), u2.members.as_slice()),
                never_matches_error(
                    spread_pos,
                    rp,
                    cp,
                    u2.name.name,
                    u1.name.name,
                    u1.name.name,
                    u2.name.name,
                ),
            );
        },
        _ => {
            assert(views(result@) =~= r0 + Seq::empty());
        },
    }
}


/// Whether a member of a union is a defined object type that does not implement an
/// interface.
pub open spec fn member_excludes<'a>(
    defs: Seq<TypeSystemDefinition<'a>>,
    interface_name: Seq<char>,
    m: Ident<'a>,
) -> bool {
    match spec_find_type(defs, m.name@) {
        Some(TypeDefinition::Object(o)) => !(exists|k: int|
            0 <= k < o.implements@.len() && (#[trigger] o.implements@[k]).name@ == interface_name),
        _ => false,
    }
}

proof fn lemma_members_scan<'a>(
    defs: Seq<TypeSystemDefinition<'a>>,
    interface_name: Seq<char>,
    members: Seq<Ident<'a>>,
    n: nat,
)
    requires
        n <= members.len(),
    ensures
        members_scan(defs, interface_name, members, n).0 <==> exists|j: int|
            0 <= j < n && !member_excludes(defs, interface_name, #[trigger] members[j]),
        forall|k: int|
            0 <= k < members_scan(defs, interface_name, members, n).1.len() ==> (
            #[trigger] members_scan(defs, interface_name, members, n).1[k]).message is TypeSystemError,
    decreases n,
{
    if n > 0 {
        lemma_members_scan(defs, interface_name, members, (n - 1) as nat);
        let prev = members_scan(defs, interface_name, members, (n - 1) as nat);
        let cur = members_scan(defs, interface_name, members, n);
        let m = members[n - 1];
        if prev.0 {
            let j = choose|j: int| 0 <= j < n - 1 && !member_excludes(defs, interface_name, #[trigger] members[j]);
            assert(0 <= j < n && !member_excludes(defs, interface_name, members[j]));
        } else {
            match spec_find_type(defs, m.name@) {
                Some(TypeDefinition::Object(o)) => {
                    assert(has_named(o.implements@, interface_name) <==> exists|k: int|
                        0 <= k < o.implements@.len() && (#[trigger] o.implements@[k]).name@ == interface_name) by {
                        if has_named(o.implements@, interface_name) {
                            let k = choose|k: int| 0 <= k < o.implements@.len() && k < o.implements@.len()
                                && #[trigger] o.implements@[k].key() == interface_name;
                            assert(o.implements@[k].name@ == interface_name);
                        }
                        if exists|k: int| 0 <= k < o.implements@.len() && (#[trigger] o.implements@[k]).name@ == interface_name {
                            let k = choose|k: int| 0 <= k < o.implements@.len() && (#[trigger] o.implements@[k]).name@ == interface_name;
                            assert(o.implements@[k].key() == interface_name);
                        }
                    }
                    if cur.0 {
                        assert(!member_excludes(defs, interface_name, members[n - 1]));
                    } else {
                        assert forall|j: int| 0 <= j < n implies member_excludes(defs, interface_name, #[trigger] members[j]) by {
                            if j < n - 1 {
                                assert(!(0 <= j < n - 1 && !member_excludes(defs, interface_name, members[j])));
                            }
                        }
                    }
                },
                _ => {
                    assert(!member_excludes(defs, interface_name, members[n - 1]));
                    let e = err(m.position, CheckErrorMessage::TypeSystemError);
                    assert(cur.1 == prev.1.push(e));
                    assert forall|k: int| 0 <= k < cur.1.len() implies (#[trigger] cur.1[k]).message is TypeSystemError by {
                        if k < prev.1.len() {
                            assert(cur.1[k] == prev.1[k]);
                        }
                    }
                },
            }
        }
    }
}

/// Whether every member of a union is a defined object type that does not implement an
/// interface: then no object can be both.
pub open spec fn no_member_implements<'a>(
    defs: Seq<TypeSystemDefinition<'a>>,
    members: Seq<Ident<'a>>,
    interface_name: Seq<char>,
) -> bool {
    forall|m: int| 0 <= m < members.len() ==> member_excludes(defs, interface_name, #[trigger] members[m])
}

/// Whether a list of diagnostics reports a fragment condition that never matches.
pub open spec fn reports_never_matches<'a>(errs: Seq<CheckErrorView<'a>>) -> bool {
    exists|j: int| 0 <= j < errs.len() && (#[trigger] errs[j]).message is FragmentConditionNeverMatches
}

/// The diagnostics of a union and an interface, one spread as the condition in the scope
/// of the other: the union is the scope when `union_is_scope` holds.
pub open spec fn union_interface_errors<'a>(
    defs: Seq<TypeSystemDefinition<'a>>,
    u: UnionTypeDefinition<'a>,
    i: InterfaceTypeDefinition<'a>,
    spread_pos: Pos,
    union_is_scope: bool,
) -> Seq<CheckErrorView<'a>> {
    if union_is_scope {
        spec_condition_errors(defs, TypeDefinition::Union(u), spread_pos, TypeDefinition::Interface(i))
    } else {
        spec_condition_errors(defs, TypeDefinition::Interface(i), spread_pos, TypeDefinition::Union(u))
    }
}

/// A fragment whose condition is an interface spread in the scope of a union, or a union
/// condition spread in the scope of an interface, is reported as never matching exactly
/// when every member of the union is a defined object type that does not implement the
/// interface; the report names the union as the condition and the interface as the scope,
/// whichever of the two is the scope.
pub proof fn law_union_interface_condition<'a>(
    defs: Seq<TypeSystemDefinition<'a>>,
    u: UnionTypeDefinition<'a>,
    i: InterfaceTypeDefinition<'a>,
    spread_pos: Pos,
    union_is_scope: bool,
)
    ensures
        reports_never_matches(union_interface_errors(defs, u, i, spread_pos, union_is_scope))
            <==> no_member_implements(defs, u.members@, i.name.name@),
        forall|j: int|
            0 <= j < union_interface_errors(defs, u, i, spread_pos, union_is_scope).len()
                && (#[trigger] union_interface_errors(defs, u, i, spread_pos, union_is_scope)[j]).message
                is FragmentConditionNeverMatches ==> union_interface_errors(
                defs,
                u,
                i,
                spread_pos,
                union_is_scope,
            )[j].message == (CheckErrorMessage::FragmentConditionNeverMatches {
                condition: u.name.name,
                scope: i.name.name,
            }),
{
    let errs = union_interface_errors(defs, u, i, spread_pos, union_is_scope);
    lemma_members_scan(defs, i.name.name@, u.members@, u.members@.len());
    let scan = members_scan(defs, i.name.name@, u.members@, u.members@.len());
    let rp = if union_is_scope { u.position } else { i.position };
    let cp = if union_is_scope { i.position } else { u.position };
    let nm = never_matches(spread_pos, rp, cp, u.name.name, i.name.name, i.name.name, u.name.name);
    assert(TypeDefinition::Union(u).spec_position() == u.position);
    assert(TypeDefinition::Interface(i).spec_position() == i.position);
    assert(errs == scan.1 + err_if(!scan.0, nm));
    assert(no_member_implements(defs, u.members@, i.name.name@) <==> !scan.0);
    if !scan.0 {
        assert(errs[scan.1.len() as int] == nm);
        assert(reports_never_matches(errs));
    } else {
        assert forall|j: int| 0 <= j < errs.len() implies !((#[trigger] errs[j]).message is FragmentConditionNeverMatches) by {
            assert(errs[j] == scan.1[j]);
        }
    }
    assert forall|j: int|
        0 <= j < errs.len() && (#[trigger] errs[j]).message is FragmentConditionNeverMatches implies errs[j].message
            == (CheckErrorMessage::FragmentConditionNeverMatches { condition: u.name.name, scope: i.name.name }) by {
        if j < scan.1.len() {
            assert(errs[j] == scan.1[j]);
        } else {
            assert(errs[j] == nm);
        }
    }
}

} // verus!
