//! Operations: selection trees, the fragments they name, and the schema
//! reference that each node carries.

use crate::name_map::NameMap;
use crate::schema::CompositeTypePosition;
use crate::schema::FieldPosition;
use crate::schema::SchemaId;
use vstd::prelude::*;

verus! {

/// A field of a selection: the schema it belongs to and where that schema
/// declares it.
#[derive(Debug)]
pub struct Field {
    pub schema: SchemaId,
    pub field_position: FieldPosition,
}

/// A selected field, with what is selected below it.
#[derive(Debug)]
pub struct FieldSelection {
    pub field: Field,
    pub selection_set: Option<SelectionSet>,
}

/// The use of a named fragment.
#[derive(Debug)]
pub struct FragmentSpread {
    pub schema: SchemaId,
    pub fragment_name: String,
    pub type_condition_position: CompositeTypePosition,
}

/// A fragment spread, with the fragment's selections as they apply at the
/// spread site.
#[derive(Debug)]
pub struct FragmentSpreadSelection {
    pub spread: FragmentSpread,
    pub selection_set: SelectionSet,
}

/// An inline fragment: the type it expects around it and the type it casts to.
#[derive(Debug)]
pub struct InlineFragment {
    pub schema: SchemaId,
    pub parent_type_position: CompositeTypePosition,
    pub type_condition_position: Option<CompositeTypePosition>,
}

impl InlineFragment {
    /// The type that the fragment's selections apply to: its type condition,
    /// or the parent type where it has none.
    pub open spec fn casted(&self) -> CompositeTypePosition {
        match self.type_condition_position {
            Some(condition) => condition,
            None => self.parent_type_position,
        }
    }

    /// Computes `casted`.
    pub fn casted_type(&self) -> (res: &CompositeTypePosition)
        ensures
            *res == self.casted(),
    {
        match &self.type_condition_position {
            Some(condition) => condition,
            None => &self.parent_type_position,
        }
    }
}

/// An inline fragment with its selections.
#[derive(Debug)]
pub struct InlineFragmentSelection {
    pub inline_fragment: InlineFragment,
    pub selection_set: SelectionSet,
}

/// One selection of a selection set.
#[derive(Debug)]
pub enum Selection {
    Field(FieldSelection),
    FragmentSpread(FragmentSpreadSelection),
    InlineFragment(InlineFragmentSelection),
}

/// What is selected at one type position: the selections in order, the
/// composite type they select against, and the schema they belong to.
#[derive(Debug)]
pub struct SelectionSet {
    pub schema: SchemaId,
    pub type_position: CompositeTypePosition,
    pub selections: Vec<Selection>,
}

/// The definition of a named fragment.
#[derive(Debug)]
pub struct Fragment {
    pub schema: SchemaId,
    pub name: String,
    pub type_condition_position: CompositeTypePosition,
    pub selection_set: SelectionSet,
}

/// The fragment definitions of an operation, by name.
#[derive(Debug)]
pub struct NamedFragments {
    pub fragments: NameMap<Fragment>,
}

impl View for NamedFragments {
    type V = Map<Seq<char>, Fragment>;

    open spec fn view(&self) -> Map<Seq<char>, Fragment> {
        self.fragments@
    }
}

impl NamedFragments {
    /// No fragments.
    pub fn new() -> (res: Self)
        ensures
            res@ == Map::<Seq<char>, Fragment>::empty(),
    {
        NamedFragments { fragments: NameMap::new() }
    }

    /// Adds `fragment` under its name, replacing an earlier definition of
    /// that name.
    pub fn insert(&mut self, fragment: Fragment)
        ensures
            final(self)@ == old(self)@.insert(fragment.name@, fragment),
    {
        let name = fragment.name.clone();
        self.fragments.insert(name, fragment);
    }

    /// The definition named `name`, if there is one.
    pub fn get(&self, name: &String) -> (res: Option<&Fragment>)
        ensures
            match res {
                Some(fragment) => self@.contains_key(name@) && *fragment == self@[name@],
                None => !self@.contains_key(name@),
            },
    {
        self.fragments.get(name)
    }
}

/// An operation: its root selection set, its fragments, and the schema it is
/// valid against.
#[derive(Debug)]
pub struct Operation {
    pub schema: SchemaId,
    pub selection_set: SelectionSet,
    pub named_fragments: NamedFragments,
}

} // verus!
