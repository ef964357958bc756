//! The structural defects that validation reports.

use crate::schema::CompositeTypePosition;
use crate::schema::FieldPosition;
use crate::schema::SchemaId;
use vstd::prelude::*;

verus! {

/// A structural defect of an operation tree. Each names the invariant that is
/// violated and carries the value that was expected and the one that was found.
/// Such a defect comes from an earlier stage, not from user input.
#[derive(Debug)]
#[allow(inconsistent_fields)]
pub enum StructuralError {
    /// A node belongs to another schema than the one it is checked against.
    SchemaMismatch { expected: SchemaId, actual: SchemaId },
    /// The schema does not declare the field at its position.
    FieldNotFound { position: FieldPosition },
    /// A field has selections below it, and its output base type is not a
    /// composite type of the schema.
    OutputTypeNotComposite { name: String },
    /// The type position of a field's selection set is not the field's output
    /// base type.
    SelectionSetTypeMismatch { expected: CompositeTypePosition, actual: CompositeTypePosition },
    /// The type condition of a fragment spread is not the type position of
    /// its selection set.
    FragmentTypeMismatch {
        type_condition: CompositeTypePosition,
        selection_set_type: CompositeTypePosition,
    },
    /// The fragment table has no fragment of the name that a spread uses.
    FragmentNotFound { name: String },
    /// The definition of a fragment belongs to another schema.
    FragmentDefinitionSchemaMismatch { expected: SchemaId, actual: SchemaId },
    /// The definition of a fragment has another type condition than the spread.
    FragmentDefinitionTypeMismatch {
        expected: CompositeTypePosition,
        actual: CompositeTypePosition,
    },
    /// An inline fragment expects another parent type than the one in force.
    ParentTypeMismatch { expected: CompositeTypePosition, actual: CompositeTypePosition },
    /// The type an inline fragment casts to is not the type position of its
    /// selection set.
    InlineFragmentTypeMismatch {
        casted_type: CompositeTypePosition,
        selection_set_type: CompositeTypePosition,
    },
}

impl StructuralError {
    /// The name of the invariant that is violated.
    pub open spec fn violated_name(&self) -> Seq<char> {
        match self {
            StructuralError::SchemaMismatch { .. } => "Schema mismatch"@,
            StructuralError::FieldNotFound { .. } => "Field not found"@,
            StructuralError::OutputTypeNotComposite { .. } => "Output type is not composite"@,
            StructuralError::SelectionSetTypeMismatch { .. } => "Selection set type position mismatch"@,
            StructuralError::FragmentTypeMismatch { .. } => "Fragment type-condition mismatch"@,
            StructuralError::FragmentNotFound { .. } => "Fragment name not found"@,
            StructuralError::FragmentDefinitionSchemaMismatch { .. } => "Fragment definition schema mismatch"@,
            StructuralError::FragmentDefinitionTypeMismatch { .. } => "Fragment definition type-condition mismatch"@,
            StructuralError::ParentTypeMismatch { .. } => "Parent type mismatch"@,
            StructuralError::InlineFragmentTypeMismatch { .. } => "Inline fragment casted-type mismatch"@,
        }
    }

    /// Computes `violated_name`.
    pub fn violated(&self) -> (res: &'static str)
        ensures
            res@ == self.violated_name(),
    {
        match self {
            StructuralError::SchemaMismatch { .. } => "Schema mismatch",
            StructuralError::FieldNotFound { .. } => "Field not found",
            StructuralError::OutputTypeNotComposite { .. } => "Output type is not composite",
            StructuralError::SelectionSetTypeMismatch { .. } => "Selection set type position mismatch",
            StructuralError::FragmentTypeMismatch { .. } => "Fragment type-condition mismatch",
            StructuralError::FragmentNotFound { .. } => "Fragment name not found",
            StructuralError::FragmentDefinitionSchemaMismatch { .. } => "Fragment definition schema mismatch",
            StructuralError::FragmentDefinitionTypeMismatch { .. } => "Fragment definition type-condition mismatch",
            StructuralError::ParentTypeMismatch { .. } => "Parent type mismatch",
            StructuralError::InlineFragmentTypeMismatch { .. } => "Inline fragment casted-type mismatch",
        }
    }
}

/// A defect that stops a fetch: the plan names what the configuration lacks.
#[derive(Debug)]
pub enum FetchError {
    /// The configuration holds no address for the service.
    MissingServiceAddress { service: String },
}

} // verus!
