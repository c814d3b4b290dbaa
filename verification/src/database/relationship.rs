//! Relationships between parts, such as assemblies.

use vstd::prelude::*;
use crate::text::{str_eq, owned};

verus! {

/// Type of a relationship between parts.
#[derive(Debug, Clone, PartialEq, Eq)]
pub enum RelationshipType {
    /// The parent contains the child.
    Assembly,
    /// The parent refers to the child.
    Reference,
    /// The parent is a variant of the child.
    Variant,
    /// The parent is an alternate for the child.
    Alternate,
    /// Any other relationship, by name.
    Custom(String),
}

/// The text under which a relationship type is stored.
pub open spec fn relationship_type_text(t: RelationshipType) -> Seq<char> {
    match t {
        RelationshipType::Assembly => "Assembly"@,
        RelationshipType::Reference => "Reference"@,
        RelationshipType::Variant => "Variant"@,
        RelationshipType::Alternate => "Alternate"@,
        RelationshipType::Custom(s) => s@,
    }
}

/// The text names one of the predefined relationship types.
pub open spec fn names_predefined_relationship(t: Seq<char>) -> bool {
    t == "Assembly"@ || t == "Reference"@ || t == "Variant"@ || t == "Alternate"@
}

impl RelationshipType {
    /// Reads a stored relationship type: a predefined type when the text names one, and a
    /// custom type of that name otherwise.
    pub fn from_str(type_str: &str) -> (r: RelationshipType)
        ensures
            relationship_type_text(r) == type_str@,
            r is Custom <==> !names_predefined_relationship(type_str@),
    {
        if str_eq(type_str, "Assembly") {
            RelationshipType::Assembly
        } else if str_eq(type_str, "Reference") {
            RelationshipType::Reference
        } else if str_eq(type_str, "Variant") {
            RelationshipType::Variant
        } else if str_eq(type_str, "Alternate") {
            RelationshipType::Alternate
        } else {
            RelationshipType::Custom(owned(type_str))
        }
    }

    /// The text under which this type is stored.
    pub fn to_str(&self) -> (r: String)
        ensures
            r@ == relationship_type_text(*self),
    {
        match self {
            RelationshipType::Assembly => owned("Assembly"),
            RelationshipType::Reference => owned("Reference"),
            RelationshipType::Variant => owned("Variant"),
            RelationshipType::Alternate => owned("Alternate"),
            RelationshipType::Custom(s) => s.clone(),
        }
    }
}

/// A relationship between two parts.
#[derive(Debug, Clone)]
pub struct Relationship {
    /// Unique identifier for the relationship.
    pub relationship_id: Option<i64>,
    /// The parent part.
    pub parent_part_id: i64,
    /// The child part.
    pub child_part_id: i64,
    /// Type of the relationship.
    pub relationship_type: RelationshipType,
    /// Quantity of the child in the parent.
    pub quantity: i64,
}

impl Relationship {
    /// Creates a relationship, not stored yet.
    pub fn new(parent_part_id: i64, child_part_id: i64, relationship_type: RelationshipType, quantity: i64) -> (r: Relationship)
        ensures
            r.relationship_id is None,
            r.parent_part_id == parent_part_id,
            r.child_part_id == child_part_id,
            r.relationship_type == relationship_type,
            r.quantity == quantity,
    {
        Relationship { relationship_id: None, parent_part_id, child_part_id, relationship_type, quantity }
    }
}

} // verus!
