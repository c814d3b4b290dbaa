//! Relationships between parts as the user interface sees them.

use vstd::prelude::*;
use crate::text::{owned, push_str, str_eq};
use crate::database::relationship::{Relationship, RelationshipType, relationship_type_text};

verus! {

/// A relationship as the user interface shows it.
#[derive(Debug, Clone)]
pub struct RelationshipDto {
    /// Relationship ID.
    pub relationship_id: i64,
    /// Parent part.
    pub parent_id: i64,
    /// Child part.
    pub child_id: i64,
    /// Type, by name.
    pub relationship_type: String,
    /// Quantity of the child in the parent.
    pub quantity: i64,
    /// Unit of the quantity.
    pub unit: Option<String>,
    /// Description.
    pub description: Option<String>,
}

/// What the user interface sends to create or change a relationship.
#[derive(Debug, Clone)]
pub struct RelationshipCreationData {
    /// Parent part.
    pub parent_id: i64,
    /// Child part.
    pub child_id: i64,
    /// Type, by name.
    pub relationship_type: String,
    /// Quantity of the child in the parent.
    pub quantity: i64,
    /// Unit of the quantity.
    pub unit: Option<String>,
    /// Description.
    pub description: Option<String>,
}

impl RelationshipDto {
    /// The relationship as the user interface shows it: a stored one's ID (zero for one not
    /// stored) and its type by name; the stored record keeps no unit or description.
    pub fn from(relationship: Relationship) -> (r: RelationshipDto)
        ensures
            r.relationship_id == match relationship.relationship_id { Some(i) => i, None => 0 },
            r.parent_id == relationship.parent_part_id,
            r.child_id == relationship.child_part_id,
            r.relationship_type@ == relationship_type_text(relationship.relationship_type),
            r.quantity == relationship.quantity,
            r.unit is None,
            r.description is None,
    {
        RelationshipDto {
            relationship_id: match relationship.relationship_id {
                Some(i) => i,
                None => 0,
            },
            parent_id: relationship.parent_part_id,
            child_id: relationship.child_part_id,
            relationship_type: relationship.relationship_type.to_str(),
            quantity: relationship.quantity,
            unit: None,
            description: None,
        }
    }
}

/// The type the user interface names, or the error that names the text it sent; it offers
/// assemblies, references and alternates.
pub open spec fn command_relationship_type(t: Seq<char>) -> Result<RelationshipType, Seq<char>> {
    if t == "Assembly"@ {
        Ok(RelationshipType::Assembly)
    } else if t == "Reference"@ {
        Ok(RelationshipType::Reference)
    } else if t == "Alternate"@ {
        Ok(RelationshipType::Alternate)
    } else {
        Err("Invalid relationship type: "@ + t)
    }
}

/// The relationship that `data` describes, with the given identifier (none for a new one),
/// or the error for a type that the user interface does not offer.
pub fn relationship_from_data(relationship_id: Option<i64>, data: RelationshipCreationData) -> (r: Result<Relationship, String>)
    ensures
        match command_relationship_type(data.relationship_type@) {
            Ok(t) => r matches Ok(x) && x.relationship_id == relationship_id && x.parent_part_id == data.parent_id
                && x.child_part_id == data.child_id && x.relationship_type == t && x.quantity == data.quantity,
            Err(e) => r matches Err(m) && m@ == e,
        },
{
    let t = data.relationship_type.as_str();
    let kind = if str_eq(t, "Assembly") {
        RelationshipType::Assembly
    } else if str_eq(t, "Reference") {
        RelationshipType::Reference
    } else if str_eq(t, "Alternate") {
        RelationshipType::Alternate
    } else {
        let mut m = owned("Invalid relationship type: ");
        push_str(&mut m, t);
        return Err(m);
    };
    let mut x = Relationship::new(data.parent_id, data.child_id, kind, data.quantity);
    x.relationship_id = relationship_id;
    Ok(x)
}

} // verus!
