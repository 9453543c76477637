//! Diagnostics produced by the checkers.

use vstd::prelude::*;

use crate::ast::base::Pos;
use crate::ast::operation::OperationType;
use crate::ast::types::Type;

verus! {

/// Kind of a type definition, as named in diagnostics.
#[derive(Copy, Clone, Debug, PartialEq, Eq, Structural)]
pub enum TypeKind {
    Scalar,
    Object,
    Interface,
    Union,
    Enum,
    InputObject,
}

/// What a diagnostic says. Names are borrowed from the checked documents.
#[derive(Copy, Clone, Debug)]
pub enum CheckErrorMessage<'a> {
    // type system
    UnscoUnsco,
    DuplicatedName { name: &'a str },
    UnknownType { name: &'a str },
    NoInputType { name: &'a str },
    NoOutputType { name: &'a str },
    NotInterface { name: &'a str },
    NoImplementSelf,
    NonObjectTypeUnionMember { member_name: &'a str },
    RecursingDirective { name: &'a str },
    InterfaceNotImplemented { name: &'a str },
    InterfaceFieldNotImplemented { field_name: &'a str, interface_name: &'a str },
    InterfaceArgumentNotImplemented { argument_name: &'a str, interface_name: &'a str },
    ArgumentTypeMisMatchWithInterface { interface_name: &'a str },
    ArgumentTypeNonNullAgainstInterface { interface_name: &'a str },
    FieldTypeMisMatchWithInterface { interface_name: &'a str },
    // directives and arguments
    UnknownDirective { name: &'a str },
    DirectiveLocationNotAllowed { name: &'a str },
    RepeatedDirective { name: &'a str },
    ArgumentsNotNeeded { kind: &'static str },
    DefinitionPos { name: &'a str },
    RequiredArgumentNotSpecified { name: &'a str },
    UnknownArgument { name: &'a str },
    // values
    UnknownVariable { name: &'a str },
    TypeSystemError,
    TypeMismatch { ty: &'a Type<'a> },
    UnknownEnumMember { member: &'a str, enum_name: &'a str },
    RequiredFieldNotSpecified { name: &'a str },
    UnknownField { name: &'a str },
    // operations
    UnNamedOperationMustBeSingle,
    DuplicateOperationName { operation_type: OperationType },
    AnotherDefinitionPos { name: &'a str },
    DuplicateFragmentName { other_position: Pos },
    NoRootType { operation_type: OperationType },
    RootTypesAreDefinedHere,
    InvalidFragmentTarget { name: &'a str },
    DuplicatedVariableName { name: &'a str },
    SubscriptionMustHaveExactlyOneRootField,
    SelectionOnInvalidType { kind: TypeKind, name: &'a str },
    FieldNotFound { field_name: &'a str, owner_name: &'a str },
    MustSpecifySelectionSet { name: &'a str },
    RecursingFragmentSpread { name: &'a str },
    UnknownFragment { name: &'a str },
    FragmentConditionNeverMatches { condition: &'a str, scope: &'a str },
}

/// A diagnostic: where, what, and related places.
#[derive(Debug)]
pub struct CheckError<'a> {
    pub position: Pos,
    pub message: CheckErrorMessage<'a>,
    pub additional_info: Vec<(Pos, CheckErrorMessage<'a>)>,
}

/// The mathematical content of a diagnostic.
pub struct CheckErrorView<'a> {
    pub position: Pos,
    pub message: CheckErrorMessage<'a>,
    pub additional_info: Seq<(Pos, CheckErrorMessage<'a>)>,
}

impl<'a> View for CheckError<'a> {
    type V = CheckErrorView<'a>;

    open spec fn view(&self) -> CheckErrorView<'a> {
        CheckErrorView {
            position: self.position,
            message: self.message,
            additional_info: self.additional_info@,
        }
    }
}

/// A diagnostic without related places.
pub open spec fn err<'a>(position: Pos, message: CheckErrorMessage<'a>) -> CheckErrorView<'a> {
    CheckErrorView { position, message, additional_info: Seq::empty() }
}

/// A diagnostic with related places.
pub open spec fn err_info<'a>(
    position: Pos,
    message: CheckErrorMessage<'a>,
    additional_info: Seq<(Pos, CheckErrorMessage<'a>)>,
) -> CheckErrorView<'a> {
    CheckErrorView { position, message, additional_info }
}

/// The contents of a list of diagnostics.
pub open spec fn views<'a>(s: Seq<CheckError<'a>>) -> Seq<CheckErrorView<'a>> {
    s.map_values(|e: CheckError<'a>| e@)
}

/// One diagnostic if a condition holds, none otherwise.
pub open spec fn err_if<'a>(c: bool, e: CheckErrorView<'a>) -> Seq<CheckErrorView<'a>> {
    if c {
        seq![e]
    } else {
        Seq::empty()
    }
}

impl<'a> CheckErrorMessage<'a> {
    /// Attaches a position to a message.
    pub fn with_pos(self, position: Pos) -> (r: CheckError<'a>)
        ensures
            r@ == err(position, self),
    {
        CheckError { position, message: self, additional_info: Vec::new() }
    }
}

impl<'a> CheckError<'a> {
    /// Replaces the related places of a diagnostic.
    pub fn with_additional_info(self, additional_info: Vec<(Pos, CheckErrorMessage<'a>)>) -> (r:
        CheckError<'a>)
        ensures
            r@ == err_info(self.position, self.message, additional_info@),
    {
        CheckError { position: self.position, message: self.message, additional_info }
    }
}

/// Adds one diagnostic to a list.
pub fn push_error<'a>(result: &mut Vec<CheckError<'a>>, e: CheckError<'a>)
    ensures
        views(final(result)@) == views(old(result)@).push(e@),
{
    result.push(e);
    assert(views(result@) =~= views(old(result)@).push(e@));
}

/// Adds a diagnostic to a list where a condition holds.
pub fn push_error_if<'a>(result: &mut Vec<CheckError<'a>>, cond: bool, e: CheckError<'a>)
    ensures
        views(final(result)@) == views(old(result)@) + err_if(cond, e@),
{
    if cond {
        push_error(result, e);
    } else {
        assert(views(result@) =~= views(old(result)@) + err_if(cond, e@));
    }
}

/// A list of related places with one entry.
pub fn one_info<'a>(pos: Pos, message: CheckErrorMessage<'a>) -> (r: Vec<(Pos, CheckErrorMessage<'a>)>)
    ensures
        r@ == seq![(pos, message)],
{
    let mut v = Vec::new();
    v.push((pos, message));
    assert(v@ =~= seq![(pos, message)]);
    v
}

} // verus!
