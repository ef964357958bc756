//! The invariants of a schema-consistent operation tree, and what validation
//! has to do with them.

use crate::error::StructuralError;
use crate::operation::NamedFragments;
use crate::operation::Operation;
use crate::operation::Selection;
use crate::operation::SelectionSet;
use crate::schema::CompositeTypePosition;
use crate::schema::FederationSchema;
use vstd::prelude::*;

verus! {

impl Selection {
    /// The selection and all below it are consistent with `schema` and
    /// `named_fragments`, where `parent_type` is the type position in force:
    /// - every node belongs to `schema`;
    /// - a field resolves at its position, and what is selected below it
    ///   selects against the field's output base type;
    /// - a fragment spread's selections select against its type condition,
    ///   and the fragment table defines the fragment, in `schema` and with the
    ///   same type condition;
    /// - an inline fragment expects `parent_type` around it, and its
    ///   selections select against the type it casts to.
    pub open spec fn consistent(
        &self,
        schema: &FederationSchema,
        named_fragments: &NamedFragments,
        parent_type: &CompositeTypePosition,
    ) -> bool
        decreases self, 0nat,
    {
        match self {
            Selection::Field(selection) => {
                &&& selection.field.schema == schema.id
                &&& schema.field_output_type(&selection.field.field_position) is Some
                &&& match selection.selection_set {
                    None => true,
                    Some(set) => {
                        let output = schema.field_output_type(&selection.field.field_position)->0;
                        &&& schema.composite_position(&output) is Some
                        &&& set.type_position.same(&schema.composite_position(&output)->0)
                        &&& set.consistent(schema, named_fragments)
                    },
                }
            },
            Selection::FragmentSpread(selection) => {
                let spread = selection.spread;
                &&& spread.schema == schema.id
                &&& spread.type_condition_position.same(&selection.selection_set.type_position)
                &&& selection.selection_set.consistent(schema, named_fragments)
                &&& named_fragments@.contains_key(spread.fragment_name@)
                &&& named_fragments@[spread.fragment_name@].schema == schema.id
                &&& named_fragments@[spread.fragment_name@].type_condition_position.same(
                    &spread.type_condition_position,
                )
            },
            Selection::InlineFragment(selection) => {
                let fragment = selection.inline_fragment;
                &&& fragment.schema == schema.id
                &&& fragment.parent_type_position.same(parent_type)
                &&& fragment.casted().same(&selection.selection_set.type_position)
                &&& selection.selection_set.consistent(schema, named_fragments)
            },
        }
    }

    /// Validation succeeds exactly on the consistent selections.
    pub proof fn validation_accepts_the_consistent(
        &self,
        schema: &FederationSchema,
        named_fragments: &NamedFragments,
        parent_type: &CompositeTypePosition,
    )
        ensures
            self.validation(schema, named_fragments, parent_type) is Ok <==> self.consistent(
                schema,
                named_fragments,
                parent_type,
            ),
        decreases self, 0nat,
    {
        match self {
            Selection::Field(selection) => {
                match selection.selection_set {
                    None => {},
                    Some(set) => {
                        set.validation_accepts_the_consistent(schema, named_fragments);
                    },
                }
            },
            Selection::FragmentSpread(selection) => {
                selection.selection_set.validation_accepts_the_consistent(schema, named_fragments);
            },
            Selection::InlineFragment(selection) => {
                selection.selection_set.validation_accepts_the_consistent(schema, named_fragments);
            },
        }
    }
}

impl SelectionSet {
    /// The selection set belongs to `schema`, and each of its selections is
    /// consistent with this set's type position as its parent type.
    pub open spec fn consistent(&self, schema: &FederationSchema, named_fragments: &NamedFragments) -> bool
        decreases self, 1nat,
    {
        &&& self.schema == schema.id
        &&& forall|i: int|
            0 <= i < self.selections@.len() ==> (#[trigger] self.selections@[i]).consistent(
                schema,
                named_fragments,
                &self.type_position,
            )
    }

    /// The selections from index `from` on validate exactly when each of them
    /// is consistent.
    pub proof fn children_validation_accepts_the_consistent(
        &self,
        schema: &FederationSchema,
        named_fragments: &NamedFragments,
        from: int,
    )
        requires
            0 <= from,
        ensures
            self.children_validation(schema, named_fragments, from) is Ok <==> forall|i: int|
                from <= i < self.selections@.len() ==> (#[trigger] self.selections@[i]).consistent(
                    schema,
                    named_fragments,
                    &self.type_position,
                ),
        decreases self, 0nat, self.selections@.len() - from,
    {
        if from < self.selections@.len() {
            self.selections@[from].validation_accepts_the_consistent(
                schema,
                named_fragments,
                &self.type_position,
            );
            self.children_validation_accepts_the_consistent(schema, named_fragments, from + 1);
        }
    }

    /// Validation succeeds exactly on the consistent selection sets.
    pub proof fn validation_accepts_the_consistent(
        &self,
        schema: &FederationSchema,
        named_fragments: &NamedFragments,
    )
        ensures
            self.validation(schema, named_fragments) is Ok <==> self.consistent(
                schema,
                named_fragments,
            ),
        decreases self, 1nat,
    {
        self.children_validation_accepts_the_consistent(schema, named_fragments, 0);
    }
}

impl Operation {
    /// The operation belongs to `schema`, and its root selection set is
    /// consistent with `schema` and the operation's own fragments.
    pub open spec fn consistent(&self, schema: &FederationSchema) -> bool {
        &&& self.schema == schema.id
        &&& self.selection_set.consistent(schema, &self.named_fragments)
    }

    /// Validation succeeds exactly on the consistent operations.
    pub proof fn validation_accepts_the_consistent(&self, schema: &FederationSchema)
        ensures
            self.validation(schema) is Ok <==> self.consistent(schema),
    {
        self.selection_set.validation_accepts_the_consistent(schema, &self.named_fragments);
    }
}

impl Selection {
    /// What validation checks on this selection itself before it goes down
    /// into the selection set below it.
    pub open spec fn passes_own_checks(
        &self,
        schema: &FederationSchema,
        parent_type: &CompositeTypePosition,
    ) -> bool {
        match self {
            Selection::Field(selection) => {
                &&& selection.field.schema == schema.id
                &&& schema.field_output_type(&selection.field.field_position) is Some
                &&& match selection.selection_set {
                    None => true,
                    Some(set) => {
                        let output = schema.field_output_type(&selection.field.field_position)->0;
                        &&& schema.composite_position(&output) is Some
                        &&& set.type_position.same(&schema.composite_position(&output)->0)
                    },
                }
            },
            Selection::FragmentSpread(selection) => {
                &&& selection.spread.schema == schema.id
                &&& selection.spread.type_condition_position.same(
                    &selection.selection_set.type_position,
                )
            },
            Selection::InlineFragment(selection) => {
                &&& selection.inline_fragment.schema == schema.id
                &&& selection.inline_fragment.parent_type_position.same(parent_type)
                &&& selection.inline_fragment.casted().same(&selection.selection_set.type_position)
            },
        }
    }

    /// The selection set below this selection, if it has one.
    pub open spec fn sub_selection_set(&self) -> Option<SelectionSet> {
        match self {
            Selection::Field(selection) => selection.selection_set,
            Selection::FragmentSpread(selection) => Some(selection.selection_set),
            Selection::InlineFragment(selection) => Some(selection.selection_set),
        }
    }
}

impl SelectionSet {
    /// Validation, walking down from this selection set along the child
    /// indices of `path`, arrives at `target` with `parent_type` in force and
    /// has found no defect before: each selection set on the way belongs to
    /// `schema`, the selections before the one taken are consistent, and each
    /// selection taken passes its own checks.
    pub open spec fn descends_to(
        &self,
        schema: &FederationSchema,
        named_fragments: &NamedFragments,
        path: Seq<int>,
        target: &Selection,
        parent_type: &CompositeTypePosition,
    ) -> bool
        decreases path.len(),
    {
        &&& path.len() > 0
        &&& self.schema == schema.id
        &&& 0 <= path[0] < self.selections@.len()
        &&& forall|j: int|
            0 <= j < path[0] ==> (#[trigger] self.selections@[j]).consistent(
                schema,
                named_fragments,
                &self.type_position,
            )
        &&& if path.len() == 1 {
            self.selections@[path[0]] == *target && self.type_position == *parent_type
        } else {
            let child = self.selections@[path[0]];
            &&& child.passes_own_checks(schema, &self.type_position)
            &&& child.sub_selection_set() is Some
            &&& child.sub_selection_set()->0.descends_to(
                schema,
                named_fragments,
                path.drop_first(),
                target,
                parent_type,
            )
        }
    }

    /// Consistent selections are passed over: where those from `from` up to
    /// `to` are consistent, validating from `from` on yields what validating
    /// from `to` on yields.
    pub proof fn children_validation_passes_over_the_consistent(
        &self,
        schema: &FederationSchema,
        named_fragments: &NamedFragments,
        from: int,
        to: int,
    )
        requires
            0 <= from <= to <= self.selections@.len(),
            forall|j: int|
                from <= j < to ==> (#[trigger] self.selections@[j]).consistent(
                    schema,
                    named_fragments,
                    &self.type_position,
                ),
        ensures
            self.children_validation(schema, named_fragments, from) == self.children_validation(
                schema,
                named_fragments,
                to,
            ),
        decreases to - from,
    {
        if from < to {
            self.selections@[from].validation_accepts_the_consistent(
                schema,
                named_fragments,
                &self.type_position,
            );
            self.children_validation_passes_over_the_consistent(
                schema,
                named_fragments,
                from + 1,
                to,
            );
        }
    }

    /// A defect at any depth is reported: where validation descends to
    /// `target` and `target` has a defect, validating this selection set
    /// yields that defect.
    pub proof fn validation_reports_the_defect_reached(
        &self,
        schema: &FederationSchema,
        named_fragments: &NamedFragments,
        path: Seq<int>,
        target: &Selection,
        parent_type: &CompositeTypePosition,
    )
        requires
            self.descends_to(schema, named_fragments, path, target, parent_type),
            target.validation(schema, named_fragments, parent_type) is Err,
        ensures
            self.validation(schema, named_fragments) == target.validation(
                schema,
                named_fragments,
                parent_type,
            ),
        decreases path.len(),
    {
        self.children_validation_passes_over_the_consistent(schema, named_fragments, 0, path[0]);
        let child = self.selections@[path[0]];
        let defect = target.validation(schema, named_fragments, parent_type);
        if path.len() > 1 {
            let below = child.sub_selection_set()->0;
            below.validation_reports_the_defect_reached(
                schema,
                named_fragments,
                path.drop_first(),
                target,
                parent_type,
            );
            assert(below.validation(schema, named_fragments) == defect);
            assert(child.validation(schema, named_fragments, &self.type_position) == defect) by {
                match child {
                    Selection::Field(selection) => {},
                    Selection::FragmentSpread(selection) => {},
                    Selection::InlineFragment(selection) => {},
                }
            }
        }
        assert(child.validation(schema, named_fragments, &self.type_position) == defect);
        assert(self.children_validation(schema, named_fragments, path[0]) == defect);
    }
}

impl Operation {
    /// A field of another schema, at any depth, is reported as a schema
    /// mismatch that names both schemas.
    pub proof fn validation_reports_a_foreign_field(
        &self,
        schema: &FederationSchema,
        path: Seq<int>,
        target: &Selection,
        parent_type: &CompositeTypePosition,
    )
        requires
            self.schema == schema.id,
            self.selection_set.descends_to(
                schema,
                &self.named_fragments,
                path,
                target,
                parent_type,
            ),
            target is Field,
            target->Field_0.field.schema != schema.id,
        ensures
            self.validation(schema) == Err::<(), StructuralError>(
                StructuralError::SchemaMismatch {
                    expected: schema.id,
                    actual: target->Field_0.field.schema,
                },
            ),
    {
        self.selection_set.validation_reports_the_defect_reached(
            schema,
            &self.named_fragments,
            path,
            target,
            parent_type,
        );
    }

    /// A fragment spread, at any depth, whose type condition is not the type
    /// position of its selection set is reported with both.
    pub proof fn validation_reports_a_spread_on_another_type(
        &self,
        schema: &FederationSchema,
        path: Seq<int>,
        target: &Selection,
        parent_type: &CompositeTypePosition,
    )
        requires
            self.schema == schema.id,
            self.selection_set.descends_to(
                schema,
                &self.named_fragments,
                path,
                target,
                parent_type,
            ),
            target is FragmentSpread,
            target->FragmentSpread_0.spread.schema == schema.id,
            !target->FragmentSpread_0.spread.type_condition_position.same(
                &target->FragmentSpread_0.selection_set.type_position,
            ),
        ensures
            self.validation(schema) == Err::<(), StructuralError>(
                StructuralError::FragmentTypeMismatch {
                    type_condition: target->FragmentSpread_0.spread.type_condition_position,
                    selection_set_type: target->FragmentSpread_0.selection_set.type_position,
                },
            ),
    {
        self.selection_set.validation_reports_the_defect_reached(
            schema,
            &self.named_fragments,
            path,
            target,
            parent_type,
        );
    }

    /// An inline fragment, at any depth, that expects another parent type
    /// than the type position around it is reported with both.
    pub proof fn validation_reports_a_misplaced_inline_fragment(
        &self,
        schema: &FederationSchema,
        path: Seq<int>,
        target: &Selection,
        parent_type: &CompositeTypePosition,
    )
        requires
            self.schema == schema.id,
            self.selection_set.descends_to(
                schema,
                &self.named_fragments,
                path,
                target,
                parent_type,
            ),
            target is InlineFragment,
            target->InlineFragment_0.inline_fragment.schema == schema.id,
            !target->InlineFragment_0.inline_fragment.parent_type_position.same(parent_type),
        ensures
            self.validation(schema) == Err::<(), StructuralError>(
                StructuralError::ParentTypeMismatch {
                    expected: *parent_type,
                    actual: target->InlineFragment_0.inline_fragment.parent_type_position,
                },
            ),
    {
        self.selection_set.validation_reports_the_defect_reached(
            schema,
            &self.named_fragments,
            path,
            target,
            parent_type,
        );
    }
}

} // verus!
