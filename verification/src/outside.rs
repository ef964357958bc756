//! What this library takes from outside crates. Nothing here is proved: each
//! contract is a claim about code that Verus does not read.

use std::sync::Arc;
use vstd::prelude::*;

verus! {

/// The schema of a service, as apollo_compiler holds it. The library hands
/// such a schema on and never looks into it.
#[verifier::external_type_specification]
#[verifier::external_body]
pub struct ExSchema(apollo_compiler::Schema);

/// An executable document of apollo_compiler. The library hands it on and
/// has its text written.
#[verifier::external_type_specification]
#[verifier::external_body]
pub struct ExExecutableDocument(apollo_compiler::ExecutableDocument);

/// The mark of apollo_compiler that a schema or document has been validated.
#[verifier::external_type_specification]
#[verifier::external_body]
#[verifier::reject_recursive_types(T)]
pub struct ExValid<T>(apollo_compiler::validation::Valid<T>);

/// `Arc::clone`: the new pointer shares the allocation of the old one, so
/// both hold the same value.
#[verifier::external_body]
pub(crate) fn share<T>(shared: &Arc<T>) -> (res: Arc<T>)
    ensures
        res == *shared,
{
    shared.clone()
}

/// The text of a valid executable document, as `serialize` of apollo_compiler
/// writes it with `no_indent`. Nothing is claimed of the text.
#[verifier::external_body]
pub(crate) fn serialize_operation(
    document: &apollo_compiler::validation::Valid<apollo_compiler::ExecutableDocument>,
) -> (text: String) {
    document.serialize().no_indent().to_string()
}

} // verus!
