//! The `check` command: the schema is checked first, and the operations only against a
//! schema that passed.

use vstd::prelude::*;

use crate::ast::operation::OperationDocument;
use crate::ast::type_system::TypeSystemDocument;
use crate::checker::error::{views, CheckError, CheckErrorView};
use crate::checker::operation_checker::{check_operation_document, spec_operation_document_errors};
use crate::checker::type_system_checker::{check_type_system_document, spec_type_system_errors};
use crate::cli::output::InputFileKind;

verus! {

/// Diagnostics, each tagged with the kind of file it is about.
pub open spec fn tagged<'a>(kind: InputFileKind, errors: Seq<CheckErrorView<'a>>) -> Seq<
    (InputFileKind, CheckErrorView<'a>),
> {
    errors.map_values(|e: CheckErrorView<'a>| (kind, e))
}

/// The contents of a list of tagged diagnostics.
pub open spec fn tagged_views<'a>(s: Seq<(InputFileKind, CheckError<'a>)>) -> Seq<
    (InputFileKind, CheckErrorView<'a>),
> {
    s.map_values(|p: (InputFileKind, CheckError<'a>)| (p.0, p.1@))
}

/// The diagnostics of the first `n` operation documents, in order.
pub open spec fn operations_errors_upto<'a>(
    schema: TypeSystemDocument<'a>,
    operations: Seq<OperationDocument<'a>>,
    n: nat,
) -> Seq<CheckErrorView<'a>>
    decreases n,
{
    if n == 0 || n > operations.len() {
        Seq::empty()
    } else {
        operations_errors_upto(schema, operations, (n - 1) as nat)
            + spec_operation_document_errors(schema.definitions@, operations[n - 1])
    }
}

/// What the check reports: the schema's own diagnostics where there are any; otherwise
/// those of every operation document, in order.
pub open spec fn spec_check_errors<'a>(
    schema: TypeSystemDocument<'a>,
    operations: Seq<OperationDocument<'a>>,
) -> Seq<(InputFileKind, CheckErrorView<'a>)> {
    let schema_errors = spec_type_system_errors(schema);
    if schema_errors.len() > 0 {
        tagged(InputFileKind::Schema, schema_errors)
    } else {
        tagged(
            InputFileKind::Operation,
            operations_errors_upto(schema, operations, operations.len()),
        )
    }
}

/// Moves the diagnostics of `errors` to the end of `out`, tagged with `kind`.
fn append_tagged<'a>(
    out: &mut Vec<(InputFileKind, CheckError<'a>)>,
    kind: InputFileKind,
    errors: Vec<CheckError<'a>>,
)
    ensures
        tagged_views(final(out)@) == tagged_views(old(out)@) + tagged(kind, views(errors@)),
{
    let ghost all = views(errors@);
    let total: usize = errors.len();
    let mut rest = errors;
    let mut taken: usize = 0;
    while rest.len() > 0
        invariant
            taken + rest@.len() == all.len(),
            all.len() == total,
            views(rest@) == all.subrange(taken as int, all.len() as int),
            tagged_views(out@) == tagged_views(old(out)@) + tagged(
                kind,
                all.subrange(0, taken as int),
            ),
        decreases rest@.len(),
    {
        let ghost before = rest@;
        let e = rest.remove(0);
        assert(e@ == all[taken as int]) by {
            assert(views(before)[0] == before[0]@);
        }
        assert(views(rest@) =~= all.subrange(taken + 1, all.len() as int)) by {
            assert(rest@ =~= before.subrange(1, before.len() as int));
            assert forall|k: int| 0 <= k < rest@.len() implies views(rest@)[k] == all[taken + 1 + k] by {
                assert(views(before)[k + 1] == before[k + 1]@);
            }
        }
        let ghost prev = out@;
        out.push((kind, e));
        assert(tagged_views(out@) =~= tagged_views(prev).push((kind, e@)));
        assert(all.subrange(0, taken + 1) =~= all.subrange(0, taken as int).push(all[taken as int]));
        assert(tagged(kind, all.subrange(0, taken + 1)) =~= tagged(kind, all.subrange(0, taken as int)).push((kind, e@)));
        taken = taken + 1;
    }
    assert(all.subrange(0, taken as int) =~= all);
}

/// Checks a schema and then the operation documents against it.
///
/// Where the schema has diagnostics of its own, the operations are not checked and those
/// are returned. Otherwise the diagnostics of every operation document are returned, in
/// order. `Ok` comes exactly when there are none.
pub fn check_documents<'a>(
    schema: &'a TypeSystemDocument<'a>,
    operations: &'a Vec<OperationDocument<'a>>,
) -> (r: Result<(), Vec<(InputFileKind, CheckError<'a>)>>)
    ensures
        r is Ok <==> spec_check_errors(*schema, operations@).len() == 0,
        r matches Err(errors) ==> tagged_views(errors@) == spec_check_errors(
            *schema,
            operations@,
        ),
{
    let mut result: Vec<(InputFileKind, CheckError<'a>)> = Vec::new();
    let schema_errors = check_type_system_document(schema);
    if schema_errors.len() > 0 {
        append_tagged(&mut result, InputFileKind::Schema, schema_errors);
        assert(tagged_views(result@) =~= spec_check_errors(*schema, operations@));
        return Err(result);
    }
    let mut i: usize = 0;
    while i < operations.len()
        invariant
            i <= operations@.len(),
            spec_type_system_errors(*schema).len() == 0,
            tagged_views(result@) == tagged(
                InputFileKind::Operation,
                operations_errors_upto(*schema, operations@, i as nat),
            ),
        decreases operations@.len() - i,
    {
        let errors = check_operation_document(&schema.definitions, &operations[i]);
        let ghost prev = operations_errors_upto(*schema, operations@, i as nat);
        append_tagged(&mut result, InputFileKind::Operation, errors);
        assert(tagged(InputFileKind::Operation, prev + views(errors@)) =~= tagged(
            InputFileKind::Operation,
            prev,
        ) + tagged(InputFileKind::Operation, views(errors@)));
        i = i + 1;
    }
    if result.len() > 0 {
        Err(result)
    } else {
        Ok(())
    }
}

} // verus!
