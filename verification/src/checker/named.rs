//! Lookups by name in lists of named AST nodes: the first node with a name, and whether
//! a node repeats the name of an earlier one.

use vstd::prelude::*;

use crate::ast::base::{str_eq, Ident};
use crate::ast::directive::Directive;
use crate::ast::type_system::{EnumValueDefinition, FieldDefinition, InputValueDefinition};
use crate::ast::variable::VariableDefinition;

verus! {

/// A node that is looked up by a name.
pub trait Named {
    /// The name of the node.
    spec fn key(&self) -> Seq<char>;

    /// Returns the name of the node.
    fn name_str(&self) -> (r: &str)
        ensures
            r@ == self.key(),
    ;
}

impl<'a> Named for Ident<'a> {
    open spec fn key(&self) -> Seq<char> {
        self.name@
    }

    fn name_str(&self) -> (r: &str) {
        self.name
    }
}

impl<'a> Named for FieldDefinition<'a> {
    open spec fn key(&self) -> Seq<char> {
        self.name.name@
    }

    fn name_str(&self) -> (r: &str) {
        self.name.name
    }
}

impl<'a> Named for InputValueDefinition<'a> {
    open spec fn key(&self) -> Seq<char> {
        self.name.name@
    }

    fn name_str(&self) -> (r: &str) {
        self.name.name
    }
}

impl<'a> Named for EnumValueDefinition<'a> {
    open spec fn key(&self) -> Seq<char> {
        self.name.name@
    }

    fn name_str(&self) -> (r: &str) {
        self.name.name
    }
}

impl<'a> Named for Directive<'a> {
    open spec fn key(&self) -> Seq<char> {
        self.name.name@
    }

    fn name_str(&self) -> (r: &str) {
        self.name.name
    }
}

impl<'a> Named for VariableDefinition<'a> {
    open spec fn key(&self) -> Seq<char> {
        self.name.name@
    }

    fn name_str(&self) -> (r: &str) {
        self.name.name
    }
}

/// Whether one of the first `n` nodes has a given name.
pub open spec fn named_within<T: Named>(s: Seq<T>, n: int, name: Seq<char>) -> bool {
    exists|j: int| 0 <= j < n && j < s.len() && #[trigger] s[j].key() == name
}

/// Whether some node of a list has a given name.
pub open spec fn has_named<T: Named>(s: Seq<T>, name: Seq<char>) -> bool {
    named_within(s, s.len() as int, name)
}

/// Whether the node at index `k` repeats the name of a node before it.
pub open spec fn repeats_earlier<T: Named>(s: Seq<T>, k: int) -> bool {
    named_within(s, k, s[k].key())
}

/// Index of the first of the first `n` nodes with a given name.
pub open spec fn first_named_within<T: Named>(s: Seq<T>, name: Seq<char>, n: nat) -> Option<int>
    decreases n,
{
    if n == 0 {
        None
    } else {
        match first_named_within(s, name, (n - 1) as nat) {
            Some(j) => Some(j),
            None => if s[n - 1].key() == name {
                Some(n - 1)
            } else {
                None
            },
        }
    }
}

/// Index of the first node of a list with a given name.
pub open spec fn first_named<T: Named>(s: Seq<T>, name: Seq<char>) -> Option<int> {
    first_named_within(s, name, s.len())
}

/// The first index found is the least index with the name.
pub proof fn lemma_first_named_within<T: Named>(s: Seq<T>, name: Seq<char>, n: nat)
    requires
        n <= s.len(),
    ensures
        match first_named_within(s, name, n) {
            Some(j) => 0 <= j < n && s[j].key() == name && !named_within(s, j, name),
            None => !named_within(s, n as int, name),
        },
    decreases n,
{
    if n > 0 {
        lemma_first_named_within(s, name, (n - 1) as nat);
        match first_named_within(s, name, (n - 1) as nat) {
            Some(j) => {},
            None => {
                if s[n - 1].key() != name {
                    assert forall|j: int| 0 <= j < n && j < s.len() implies #[trigger] s[j].key()
                        != name by {
                        if j < n - 1 {
                            assert(!named_within(s, n - 1, name));
                        }
                    }
                }
            },
        }
    }
}

/// Once found among the first `m` nodes, the first index stays the same for longer prefixes.
pub proof fn lemma_first_named_stable<T: Named>(s: Seq<T>, name: Seq<char>, m: nat, n: nat)
    requires
        m <= n,
        first_named_within(s, name, m) is Some,
    ensures
        first_named_within(s, name, n) == first_named_within(s, name, m),
    decreases n,
{
    if n > m {
        lemma_first_named_stable(s, name, m, (n - 1) as nat);
    }
}

/// Finds the index of the first node with the given name.
pub fn find_named<T: Named>(s: &[T], name: &str) -> (r: Option<usize>)
    ensures
        r matches Some(j) ==> first_named(s@, name@) == Some(j as int),
        r is None ==> first_named(s@, name@) is None,
        r matches Some(j) ==> j < s@.len() && s@[j as int].key() == name@,
        r is None <==> !has_named(s@, name@),
{
    let mut i: usize = 0;
    while i < s.len()
        invariant
            i <= s@.len(),
            first_named_within(s@, name@, i as nat) is None,
        decreases s@.len() - i,
    {
        if str_eq(s[i].name_str(), name) {
            proof {
                lemma_first_named_within(s@, name@, (i + 1) as nat);
                lemma_first_named_stable(s@, name@, (i + 1) as nat, s@.len());
            }
            return Some(i);
        }
        i += 1;
    }
    proof {
        lemma_first_named_within(s@, name@, s@.len());
    }
    None
}

/// Whether the node at the given index repeats the name of a node before it.
pub fn occurs_before<T: Named>(s: &[T], k: usize) -> (r: bool)
    requires
        k < s@.len(),
    ensures
        r == repeats_earlier(s@, k as int),
{
    let name = s[k].name_str();
    let mut i: usize = 0;
    while i < k
        invariant
            i <= k < s@.len(),
            name@ == s@[k as int].key(),
            !named_within(s@, i as int, name@),
        decreases k - i,
    {
        if str_eq(s[i].name_str(), name) {
            return true;
        }
        i += 1;
    }
    false
}

/// Whether some node of a list has the given name.
pub fn contains_named<T: Named>(s: &[T], name: &str) -> (r: bool)
    ensures
        r == has_named(s@, name@),
{
    find_named(s, name).is_some()
}

/// Whether a name starts with two underscores, which GraphQL reserves for introspection.
pub open spec fn reserved_name(name: Seq<char>) -> bool {
    name.len() >= 2 && name[0] == '_' && name[1] == '_'
}

/// Whether the name of an identifier starts with `__`.
pub fn name_starts_with_unscounsco(name: &Ident) -> (r: bool)
    ensures
        r == reserved_name(name.name@),
{
    broadcast use vstd::string::next_postcondition;

    let mut chars = name.name.chars();
    proof {
        vstd::string::axiom_spec_iter(name.name);
    }
    let first = chars.next();
    let second = chars.next();
    match (first, second) {
        (Some('_'), Some('_')) => true,
        _ => false,
    }
}

} // verus!
