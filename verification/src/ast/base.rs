//! AST nodes for the basic components of GraphQL documents.

use vstd::prelude::*;

verus! {

/// Position in source file.
#[derive(Copy, Clone, Debug, Hash, PartialEq, Eq, Structural)]
pub struct Pos {
    /// 0-based line
    pub line: usize,
    /// 0-based column
    pub column: usize,
    /// file (specified by index)
    pub file: usize,
    /// Flag that indicates that this Pos is not from a parsed document, but is a built-in structure.
    pub builtin: bool,
}

impl Pos {
    /// Generates a non-built-in Pos in the given file.
    pub fn new(line: usize, column: usize, file: usize) -> (p: Self)
        ensures
            p == (Pos { line, column, file, builtin: false }),
    {
        Pos { line, column, file, builtin: false }
    }

    /// The position given to built-in structures.
    pub open spec fn builtin_spec() -> Pos {
        Pos { line: 0, column: 0, file: 0, builtin: true }
    }

    /// Generates a built-in Pos.
    pub fn builtin() -> (p: Self)
        ensures
            p == Pos::builtin_spec(),
    {
        Pos { line: 0, column: 0, file: 0, builtin: true }
    }
}

/// The order of positions: by line, then by column. The file and the built-in flag are
/// not compared.
pub open spec fn position_order(a: Pos, b: Pos) -> Option<core::cmp::Ordering> {
    if a.line < b.line {
        Some(core::cmp::Ordering::Less)
    } else if a.line > b.line {
        Some(core::cmp::Ordering::Greater)
    } else if a.column < b.column {
        Some(core::cmp::Ordering::Less)
    } else if a.column > b.column {
        Some(core::cmp::Ordering::Greater)
    } else {
        Some(core::cmp::Ordering::Equal)
    }
}

impl PartialOrd for Pos {
    fn partial_cmp(&self, other: &Self) -> (r: Option<core::cmp::Ordering>) {
        if self.line < other.line {
            Some(core::cmp::Ordering::Less)
        } else if self.line > other.line {
            Some(core::cmp::Ordering::Greater)
        } else if self.column < other.column {
            Some(core::cmp::Ordering::Less)
        } else if self.column > other.column {
            Some(core::cmp::Ordering::Greater)
        } else {
            Some(core::cmp::Ordering::Equal)
        }
    }
}

impl vstd::std_specs::cmp::PartialOrdSpecImpl for Pos {
    open spec fn obeys_partial_cmp_spec() -> bool {
        true
    }

    open spec fn partial_cmp_spec(&self, other: &Self) -> Option<core::cmp::Ordering> {
        position_order(*self, *other)
    }
}

/// Positions are always comparable; swapping two positions swaps "earlier" and "later";
/// two positions compare equal exactly when they share line and column; and being earlier
/// is transitive.
pub proof fn law_position_order(a: Pos, b: Pos, c: Pos)
    ensures
        position_order(a, b) is Some,
        position_order(a, b) == Some(core::cmp::Ordering::Less) <==> position_order(b, a) == Some(
            core::cmp::Ordering::Greater,
        ),
        position_order(a, b) == Some(core::cmp::Ordering::Equal) <==> (a.line == b.line
            && a.column == b.column),
        position_order(a, b) == Some(core::cmp::Ordering::Less) && position_order(b, c) == Some(
            core::cmp::Ordering::Less,
        ) ==> position_order(a, c) == Some(core::cmp::Ordering::Less),
{
}

/// View of an optional string slice as an optional character sequence.
pub open spec fn opt_str_view(o: Option<&str>) -> Option<Seq<char>> {
    match o {
        Some(s) => Some(s@),
        None => None,
    }
}

/// Knows its start position.
pub trait HasPos {
    fn position(&self) -> &Pos;

    fn name(&self) -> Option<&str>;
}

/// Carrier of name and pos
pub struct NamePos<'a> {
    pub name: Option<&'a str>,
    pub pos: Pos,
}

impl HasPos for NamePos<'_> {
    fn name(&self) -> (r: Option<&str>)
        ensures
            opt_str_view(r) == opt_str_view(self.name),
    {
        self.name
    }

    fn position(&self) -> (r: &Pos)
        ensures
            *r == self.pos,
    {
        &self.pos
    }
}

/// Punctuation token.
#[derive(Copy, Clone, Debug)]
pub struct Punc<'a> {
    pub position: Pos,
    pub token: &'a str,
}

impl HasPos for Punc<'_> {
    fn name(&self) -> (r: Option<&str>)
        ensures
            r is None,
    {
        None
    }

    fn position(&self) -> (r: &Pos)
        ensures
            *r == self.position,
    {
        &self.position
    }
}

/// Keyword token.
#[derive(Copy, Clone, Debug, Hash)]
pub struct Keyword<'a> {
    pub name: &'a str,
    pub position: Pos,
}

impl HasPos for Keyword<'_> {
    fn position(&self) -> (r: &Pos)
        ensures
            *r == self.position,
    {
        &self.position
    }

    fn name(&self) -> (r: Option<&str>)
        ensures
            opt_str_view(r) == Some(self.name@),
    {
        Some(self.name)
    }
}

/// Identifier token.
#[derive(Copy, Clone, Debug, Hash)]
pub struct Ident<'a> {
    pub name: &'a str,
    pub position: Pos,
}

impl HasPos for Ident<'_> {
    fn position(&self) -> (r: &Pos)
        ensures
            *r == self.position,
    {
        &self.position
    }

    fn name(&self) -> (r: Option<&str>)
        ensures
            opt_str_view(r) == Some(self.name@),
    {
        Some(self.name)
    }
}

/// Equality of two string slices by their characters.
pub fn str_eq(a: &str, b: &str) -> (r: bool)
    ensures
        r == (a@ == b@),
{
    let x: String = a.to_owned();
    let y: String = b.to_owned();
    x == y
}

} // verus!
