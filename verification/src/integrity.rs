//! Structural validation of operation trees against a schema and a fragment
//! table.

use crate::error::StructuralError;
use crate::operation::NamedFragments;
use crate::operation::Operation;
use crate::operation::Selection;
use crate::operation::SelectionSet;
use crate::schema::CompositeTypePosition;
use crate::schema::FederationSchema;
use vstd::prelude::*;

verus! {

impl Selection {
    /// What validating this selection yields: success, or the first defect met
    /// when the tree is walked top-down, each selection set in order.
    pub open spec fn validation(
        &self,
        schema: &FederationSchema,
        named_fragments: &NamedFragments,
        parent_type: &CompositeTypePosition,
    ) -> Result<(), StructuralError>
        decreases self, 0nat,
    {
        match self {
            Selection::Field(selection) => {
                if selection.field.schema != schema.id {
                    Err(
                        StructuralError::SchemaMismatch {
                            expected: schema.id,
                            actual: selection.field.schema,
                        },
                    )
                } else {
                    match schema.field_output_type(&selection.field.field_position) {
                        None => Err(
                            StructuralError::FieldNotFound {
                                position: selection.field.field_position,
                            },
                        ),
                        Some(output) => match selection.selection_set {
                            None => Ok(()),
                            Some(set) => match schema.composite_position(&output) {
                                None => Err(StructuralError::OutputTypeNotComposite { name: output }),
                                Some(base) => {
                                    if !set.type_position.same(&base) {
                                        Err(
                                            StructuralError::SelectionSetTypeMismatch {
                                                expected: base,
                                                actual: set.type_position,
                                            },
                                        )
                                    } else {
                                        set.validation(schema, named_fragments)
                                    }
                                },
                            },
                        },
                    }
                }
            },
            Selection::FragmentSpread(selection) => {
                let spread = selection.spread;
                let set = selection.selection_set;
                if spread.schema != schema.id {
                    Err(StructuralError::SchemaMismatch { expected: schema.id, actual: spread.schema })
                } else if !spread.type_condition_position.same(&set.type_position) {
                    Err(
                        StructuralError::FragmentTypeMismatch {
                            type_condition: spread.type_condition_position,
                            selection_set_type: set.type_position,
                        },
                    )
                } else {
                    match selection.selection_set.validation(schema, named_fragments) {
                        Err(defect) => Err(defect),
                        Ok(()) => match named_fragments@.get(spread.fragment_name@) {
                            None => Err(
                                StructuralError::FragmentNotFound { name: spread.fragment_name },
                            ),
                            Some(definition) => {
                                if definition.schema != schema.id {
                                    Err(
                                        StructuralError::FragmentDefinitionSchemaMismatch {
                                            expected: schema.id,
                                            actual: definition.schema,
                                        },
                                    )
                                } else if !definition.type_condition_position.same(
                                    &spread.type_condition_position,
                                ) {
                                    Err(
                                        StructuralError::FragmentDefinitionTypeMismatch {
                                            expected: spread.type_condition_position,
                                            actual: definition.type_condition_position,
                                        },
                                    )
                                } else {
                                    Ok(())
                                }
                            },
                        },
                    }
                }
            },
            Selection::InlineFragment(selection) => {
                let fragment = selection.inline_fragment;
                let set = selection.selection_set;
                if fragment.schema != schema.id {
                    Err(
                        StructuralError::SchemaMismatch {
                            expected: schema.id,
                            actual: fragment.schema,
                        },
                    )
                } else if !fragment.parent_type_position.same(parent_type) {
                    Err(
                        StructuralError::ParentTypeMismatch {
                            expected: *parent_type,
                            actual: fragment.parent_type_position,
                        },
                    )
                } else if !fragment.casted().same(&set.type_position) {
                    Err(
                        StructuralError::InlineFragmentTypeMismatch {
                            casted_type: fragment.casted(),
                            selection_set_type: set.type_position,
                        },
                    )
                } else {
                    selection.selection_set.validation(schema, named_fragments)
                }
            },
        }
    }

    /// Checks this selection against `schema` and `named_fragments`, at a
    /// place of the tree where `parent_type` is the type position in force.
    pub fn is_well_formed(
        &self,
        schema: &FederationSchema,
        named_fragments: &NamedFragments,
        parent_type: &CompositeTypePosition,
    ) -> (res: Result<(), StructuralError>)
        ensures
            res == self.validation(schema, named_fragments, parent_type),
            res is Ok <==> self.consistent(schema, named_fragments, parent_type),
        decreases self, 0nat,
    {
        proof {
            self.validation_accepts_the_consistent(schema, named_fragments, parent_type);
        }
        match self {
            Selection::Field(selection) => {
                if selection.field.schema != schema.id {
                    return Err(
                        StructuralError::SchemaMismatch {
                            expected: schema.id,
                            actual: selection.field.schema,
                        },
                    );
                }
                let output = match schema.try_get(&selection.field.field_position) {
                    Some(output) => output,
                    None => {
                        return Err(
                            StructuralError::FieldNotFound {
                                position: selection.field.field_position.clone(),
                            },
                        );
                    },
                };
                match &selection.selection_set {
                    None => Ok(()),
                    Some(set) => {
                        let base = match schema.composite_type(output) {
                            Some(base) => base,
                            None => {
                                return Err(
                                    StructuralError::OutputTypeNotComposite { name: output.clone() },
                                );
                            },
                        };
                        if !set.type_position.same_as(&base) {
                            return Err(
                                StructuralError::SelectionSetTypeMismatch {
                                    expected: base,
                                    actual: set.type_position.clone(),
                                },
                            );
                        }
                        set.is_well_formed(schema, named_fragments)
                    },
                }
            },
            Selection::FragmentSpread(selection) => {
                let spread = &selection.spread;
                let set = &selection.selection_set;
                if spread.schema != schema.id {
                    return Err(
                        StructuralError::SchemaMismatch {
                            expected: schema.id,
                            actual: spread.schema,
                        },
                    );
                }
                if !spread.type_condition_position.same_as(&set.type_position) {
                    return Err(
                        StructuralError::FragmentTypeMismatch {
                            type_condition: spread.type_condition_position.clone(),
                            selection_set_type: set.type_position.clone(),
                        },
                    );
                }
                match set.is_well_formed(schema, named_fragments) {
                    Err(defect) => {
                        return Err(defect);
                    },
                    Ok(()) => {},
                }
                let definition = match named_fragments.get(&spread.fragment_name) {
                    Some(definition) => definition,
                    None => {
                        return Err(
                            StructuralError::FragmentNotFound { name: spread.fragment_name.clone() },
                        );
                    },
                };
                if definition.schema != schema.id {
                    return Err(
                        StructuralError::FragmentDefinitionSchemaMismatch {
                            expected: schema.id,
                            actual: definition.schema,
                        },
                    );
                }
                if !definition.type_condition_position.same_as(&spread.type_condition_position) {
                    return Err(
                        StructuralError::FragmentDefinitionTypeMismatch {
                            expected: spread.type_condition_position.clone(),
                            actual: definition.type_condition_position.clone(),
                        },
                    );
                }
                Ok(())
            },
            Selection::InlineFragment(selection) => {
                let fragment = &selection.inline_fragment;
                let set = &selection.selection_set;
                if fragment.schema != schema.id {
                    return Err(
                        StructuralError::SchemaMismatch {
                            expected: schema.id,
                            actual: fragment.schema,
                        },
                    );
                }
                if !fragment.parent_type_position.same_as(parent_type) {
                    return Err(
                        StructuralError::ParentTypeMismatch {
                            expected: parent_type.clone(),
                            actual: fragment.parent_type_position.clone(),
                        },
                    );
                }
                if !fragment.casted_type().same_as(&set.type_position) {
                    return Err(
                        StructuralError::InlineFragmentTypeMismatch {
                            casted_type: fragment.casted_type().clone(),
                            selection_set_type: set.type_position.clone(),
                        },
                    );
                }
                set.is_well_formed(schema, named_fragments)
            },
        }
    }
}

impl SelectionSet {
    /// What validating the selections from index `from` on yields, each with
    /// this set's type position as its parent type.
    pub open spec fn children_validation(
        &self,
        schema: &FederationSchema,
        named_fragments: &NamedFragments,
        from: int,
    ) -> Result<(), StructuralError>
        decreases self, 0nat, self.selections@.len() - from,
    {
        if from < 0 || from >= self.selections@.len() {
            Ok(())
        } else {
            match self.selections@[from].validation(schema, named_fragments, &self.type_position) {
                Err(defect) => Err(defect),
                Ok(()) => self.children_validation(schema, named_fragments, from + 1),
            }
        }
    }

    /// What validating this selection set yields: a schema mismatch of its
    /// own, or else the first defect among its selections.
    pub open spec fn validation(&self, schema: &FederationSchema, named_fragments: &NamedFragments) -> Result<
        (),
        StructuralError,
    >
        decreases self, 1nat,
    {
        if self.schema != schema.id {
            Err(StructuralError::SchemaMismatch { expected: schema.id, actual: self.schema })
        } else {
            self.children_validation(schema, named_fragments, 0)
        }
    }

    /// Checks this selection set and all below it against `schema` and
    /// `named_fragments`.
    pub fn is_well_formed(&self, schema: &FederationSchema, named_fragments: &NamedFragments) -> (res: Result<
        (),
        StructuralError,
    >)
        ensures
            res == self.validation(schema, named_fragments),
            res is Ok <==> self.consistent(schema, named_fragments),
        decreases self, 1nat,
    {
        proof {
            self.validation_accepts_the_consistent(schema, named_fragments);
        }
        if self.schema != schema.id {
            return Err(StructuralError::SchemaMismatch { expected: schema.id, actual: self.schema });
        }
        let mut i: usize = 0;
        while i < self.selections.len()
            invariant
                i <= self.selections.len(),
                self.schema == schema.id,
                self.children_validation(schema, named_fragments, 0) == self.children_validation(
                    schema,
                    named_fragments,
                    i as int,
                ),
            decreases self.selections.len() - i,
        {
            match self.selections[i].is_well_formed(schema, named_fragments, &self.type_position) {
                Err(defect) => {
                    return Err(defect);
                },
                Ok(()) => {},
            }
            i = i + 1;
        }
        Ok(())
    }
}

impl Operation {
    /// What validating this operation yields: a schema mismatch of its own, or
    /// else what validating its root selection set against its own fragments
    /// yields.
    pub open spec fn validation(&self, schema: &FederationSchema) -> Result<(), StructuralError> {
        if self.schema != schema.id {
            Err(StructuralError::SchemaMismatch { expected: schema.id, actual: self.schema })
        } else {
            self.selection_set.validation(schema, &self.named_fragments)
        }
    }

    /// Checks this operation against `schema`.
    pub fn is_well_formed(&self, schema: &FederationSchema) -> (res: Result<(), StructuralError>)
        ensures
            res == self.validation(schema),
            res is Ok <==> self.consistent(schema),
    {
        proof {
            self.validation_accepts_the_consistent(schema);
        }
        if self.schema != schema.id {
            return Err(StructuralError::SchemaMismatch { expected: schema.id, actual: self.schema });
        }
        self.selection_set.is_well_formed(schema, &self.named_fragments)
    }
}

} // verus!
