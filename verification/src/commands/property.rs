//! Properties as the user interface sees them.

use vstd::prelude::*;
use crate::text::{owned, push_str};
use crate::database::property::{Property, PropertyType, property_type_text, property_type_parse};

verus! {

/// A property as the user interface shows it.
#[derive(Debug, Clone)]
pub struct PropertyDto {
    /// Property ID.
    pub property_id: i64,
    /// Part it belongs to, if any.
    pub part_id: Option<i64>,
    /// Revision it belongs to, if any.
    pub revision_id: Option<i64>,
    /// Key.
    pub key: String,
    /// Value.
    pub value: Option<String>,
    /// Type of the value, by name.
    pub property_type: String,
}

/// What the user interface sends to create or change a property.
#[derive(Debug, Clone)]
pub struct PropertyCreationData {
    /// Part it belongs to, if any.
    pub part_id: Option<i64>,
    /// Revision it belongs to, if any.
    pub revision_id: Option<i64>,
    /// Key.
    pub key: String,
    /// Value.
    pub value: Option<String>,
    /// Type of the value, by name.
    pub property_type: String,
}

impl PropertyDto {
    /// The property as the user interface shows it: a stored one's ID (zero for one not
    /// stored) and its type by name.
    pub fn from(property: Property) -> (r: PropertyDto)
        ensures
            r.property_id == match property.property_id { Some(i) => i, None => 0 },
            r.part_id == property.part_id,
            r.revision_id == property.revision_id,
            r.key == property.key,
            r.value == property.value,
            r.property_type@ == property_type_text(property.property_type),
    {
        PropertyDto {
            property_id: match property.property_id {
                Some(i) => i,
                None => 0,
            },
            part_id: property.part_id,
            revision_id: property.revision_id,
            key: property.key,
            value: property.value,
            property_type: owned(property.property_type.to_str()),
        }
    }
}

/// The type a property's data names, or the error that names the text sent.
pub fn property_type_of(data: &PropertyCreationData) -> (r: Result<PropertyType, String>)
    ensures
        match property_type_parse(data.property_type@) {
            Some(t) => r == Ok::<PropertyType, String>(t),
            None => r matches Err(m) && m@ == "Invalid property type: "@ + data.property_type@,
        },
{
    match PropertyType::from_str(data.property_type.as_str()) {
        Some(t) => Ok(t),
        None => {
            let mut m = owned("Invalid property type: ");
            push_str(&mut m, data.property_type.as_str());
            Err(m)
        },
    }
}

/// A stored property changed as `data` says: its part, revision, key, value and type are
/// replaced; refused where the type is not known.
pub fn updated_property(existing: Property, data: PropertyCreationData) -> (r: Result<Property, String>)
    ensures
        match property_type_parse(data.property_type@) {
            None => r matches Err(m) && m@ == "Invalid property type: "@ + data.property_type@,
            Some(t) => r matches Ok(x) && x.property_id == existing.property_id && x.part_id == data.part_id
                && x.revision_id == data.revision_id && x.key == data.key && x.value == data.value
                && x.property_type == t,
        },
{
    let t = match property_type_of(&data) {
        Ok(t) => t,
        Err(m) => return Err(m),
    };
    Ok(Property {
        property_id: existing.property_id,
        part_id: data.part_id,
        revision_id: data.revision_id,
        key: data.key,
        value: data.value,
        property_type: t,
    })
}

/// The property that `data` describes, not stored yet: of its part where it names one, else
/// of its revision; refused where it names neither or its type is not known.
pub fn property_from_data(data: PropertyCreationData) -> (r: Result<Property, String>)
    ensures
        match property_type_parse(data.property_type@) {
            None => r matches Err(m) && m@ == "Invalid property type: "@ + data.property_type@,
            Some(t) => match (data.part_id, data.revision_id) {
                (Some(p), _) => r matches Ok(x) && x.property_id is None && x.part_id == Some(p)
                    && x.revision_id is None && x.key == data.key && x.value == data.value && x.property_type == t,
                (None, Some(v)) => r matches Ok(x) && x.property_id is None && x.part_id is None
                    && x.revision_id == Some(v) && x.key == data.key && x.value == data.value && x.property_type == t,
                (None, None) => r matches Err(m) && m@ == "Either part_id or revision_id must be provided"@,
            },
        },
{
    let t = match property_type_of(&data) {
        Ok(t) => t,
        Err(m) => return Err(m),
    };
    match data.part_id {
        Some(p) => Ok(Property::new_part_property(p, data.key, data.value, t)),
        None => match data.revision_id {
            Some(v) => Ok(Property::new_revision_property(v, data.key, data.value, t)),
            None => Err(owned("Either part_id or revision_id must be provided")),
        },
    }
}

} // verus!
