//! Schemas, and the positions in a schema that an operation refers to.

use crate::name_map::NameMap;
use vstd::prelude::*;

verus! {

/// The identity of a schema: a token stamped on it when it is composed. Two
/// schema references denote the same schema exactly when their tokens are equal.
#[derive(Clone, Copy, Debug, PartialEq, Eq, Structural)]
pub struct SchemaId(pub u64);

/// The kinds of type that a schema defines.
#[derive(Clone, Copy, Debug, PartialEq, Eq, Structural)]
pub enum TypeKind {
    Scalar,
    Object,
    Interface,
    Union,
    Enum,
    InputObject,
}

/// The kinds of type that a selection set can select against.
#[derive(Clone, Copy, Debug, PartialEq, Eq, Structural)]
pub enum CompositeKind {
    Object,
    Interface,
    Union,
}

/// The composite kind that a type kind is, if it is one.
pub open spec fn composite_kind_of(kind: TypeKind) -> Option<CompositeKind> {
    match kind {
        TypeKind::Object => Some(CompositeKind::Object),
        TypeKind::Interface => Some(CompositeKind::Interface),
        TypeKind::Union => Some(CompositeKind::Union),
        _ => None,
    }
}

/// Computes `composite_kind_of`.
pub fn composite_kind(kind: TypeKind) -> (res: Option<CompositeKind>)
    ensures
        res == composite_kind_of(kind),
{
    match kind {
        TypeKind::Object => Some(CompositeKind::Object),
        TypeKind::Interface => Some(CompositeKind::Interface),
        TypeKind::Union => Some(CompositeKind::Union),
        _ => None,
    }
}

/// The position of a composite type in a schema: its kind and its name.
#[derive(Debug)]
pub struct CompositeTypePosition {
    pub kind: CompositeKind,
    pub name: String,
}

impl CompositeTypePosition {
    /// Two positions are the same when kind and name agree.
    pub open spec fn same(&self, other: &CompositeTypePosition) -> bool {
        self.kind == other.kind && self.name@ == other.name@
    }

    /// Decides `same`.
    pub fn same_as(&self, other: &CompositeTypePosition) -> (res: bool)
        ensures
            res == self.same(other),
    {
        self.kind == other.kind && self.name == other.name
    }
}

impl Clone for CompositeTypePosition {
    fn clone(&self) -> (res: Self)
        ensures
            res == *self,
    {
        CompositeTypePosition { kind: self.kind, name: self.name.clone() }
    }
}

/// The position of a field in a schema: the type that declares it and its name.
#[derive(Debug)]
pub struct FieldPosition {
    pub parent: CompositeTypePosition,
    pub field_name: String,
}

impl Clone for FieldPosition {
    fn clone(&self) -> (res: Self)
        ensures
            res == *self,
    {
        FieldPosition { parent: self.parent.clone(), field_name: self.field_name.clone() }
    }
}

/// A type as a schema defines it: its kind and, for each of its fields, the
/// name of the field's output base type.
#[derive(Debug)]
pub struct TypeDefinition {
    pub kind: TypeKind,
    pub fields: NameMap<String>,
}

/// A schema: its identity and its type definitions by name.
#[derive(Debug)]
pub struct FederationSchema {
    pub id: SchemaId,
    pub types: NameMap<TypeDefinition>,
}

impl FederationSchema {
    /// A schema with the given identity and no types.
    pub fn new(id: SchemaId) -> (res: Self)
        ensures
            res.id == id,
            res.types@ == Map::<Seq<char>, TypeDefinition>::empty(),
    {
        FederationSchema { id, types: NameMap::new() }
    }

    /// Defines the type `name`, replacing an earlier definition of that name.
    pub fn add_type(&mut self, name: String, definition: TypeDefinition)
        ensures
            final(self).id == old(self).id,
            final(self).types@ == old(self).types@.insert(name@, definition),
    {
        self.types.insert(name, definition);
    }

    /// The name of the output base type of the field at `position`. The field
    /// resolves when the schema defines the declaring type with the kind that
    /// the position gives, and that type has the field.
    pub open spec fn field_output_type(&self, position: &FieldPosition) -> Option<String> {
        match self.types@.get(position.parent.name@) {
            Some(definition) => {
                if composite_kind_of(definition.kind) == Some(position.parent.kind)
                    && definition.fields@.contains_key(position.field_name@) {
                    Some(definition.fields@[position.field_name@])
                } else {
                    None
                }
            },
            None => None,
        }
    }

    /// Resolves the field at `position` to the name of its output base type.
    pub fn try_get(&self, position: &FieldPosition) -> (res: Option<&String>)
        ensures
            match res {
                Some(output) => self.field_output_type(position) == Some(*output),
                None => self.field_output_type(position) is None,
            },
    {
        match self.types.get(&position.parent.name) {
            Some(definition) => {
                match composite_kind(definition.kind) {
                    Some(kind) => {
                        if kind == position.parent.kind {
                            definition.fields.get(&position.field_name)
                        } else {
                            None
                        }
                    },
                    None => None,
                }
            },
            None => None,
        }
    }

    /// The composite position of the type `name`: present when the schema
    /// defines the type and it is an object, an interface or a union.
    pub open spec fn composite_position(&self, name: &String) -> Option<
        CompositeTypePosition,
    > {
        match self.types@.get(name@) {
            Some(definition) => match composite_kind_of(definition.kind) {
                Some(kind) => Some(CompositeTypePosition { kind, name: *name }),
                None => None,
            },
            None => None,
        }
    }

    /// Computes `composite_position`.
    pub fn composite_type(&self, name: &String) -> (res: Option<CompositeTypePosition>)
        ensures
            res == self.composite_position(name),
    {
        match self.types.get(name) {
            Some(definition) => match composite_kind(definition.kind) {
                Some(kind) => Some(CompositeTypePosition { kind, name: name.clone() }),
                None => None,
            },
            None => None,
        }
    }
}

} // verus!
