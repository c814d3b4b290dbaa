//! Properties of parts and revisions.

use vstd::prelude::*;
use crate::text::str_eq;

verus! {

/// Type of a property value.
#[derive(Debug, Clone, Copy, PartialEq, Eq, Structural)]
pub enum PropertyType {
    /// Text.
    String,
    /// Integer.
    Integer,
    /// Floating-point number.
    Float,
    /// Truth value.
    Boolean,
    /// Date.
    Date,
    /// Address on the web.
    Url,
    /// JSON document.
    Json,
}

/// The text under which a property type is stored.
pub open spec fn property_type_text(t: PropertyType) -> Seq<char> {
    match t {
        PropertyType::String => "string"@,
        PropertyType::Integer => "integer"@,
        PropertyType::Float => "float"@,
        PropertyType::Boolean => "boolean"@,
        PropertyType::Date => "date"@,
        PropertyType::Url => "url"@,
        PropertyType::Json => "json"@,
    }
}

/// The property type stored under a text, if any.
pub open spec fn property_type_parse(t: Seq<char>) -> Option<PropertyType> {
    if t == "string"@ {
        Some(PropertyType::String)
    } else if t == "integer"@ {
        Some(PropertyType::Integer)
    } else if t == "float"@ {
        Some(PropertyType::Float)
    } else if t == "boolean"@ {
        Some(PropertyType::Boolean)
    } else if t == "date"@ {
        Some(PropertyType::Date)
    } else if t == "url"@ {
        Some(PropertyType::Url)
    } else if t == "json"@ {
        Some(PropertyType::Json)
    } else {
        None
    }
}

/// Reading back the text of a property type gives the type; a text that reads as a type is
/// that type's text.
pub proof fn law_property_type_round_trip(p: PropertyType, t: Seq<char>)
    ensures
        property_type_parse(property_type_text(p)) == Some(p),
        property_type_parse(t) matches Some(x) ==> property_type_text(x) == t,
{
    reveal_strlit("string");
    reveal_strlit("integer");
    reveal_strlit("float");
    reveal_strlit("boolean");
    reveal_strlit("date");
    reveal_strlit("url");
    reveal_strlit("json");
    assert("string"@[0] != "integer"@[0]);
    assert("string"@[0] != "float"@[0]);
    assert("string"@[0] != "boolean"@[0]);
    assert("string"@[0] != "date"@[0]);
    assert("string"@[0] != "url"@[0]);
    assert("string"@[0] != "json"@[0]);
    assert("integer"@[0] != "float"@[0]);
    assert("integer"@[0] != "boolean"@[0]);
    assert("integer"@[0] != "date"@[0]);
    assert("integer"@[0] != "url"@[0]);
    assert("integer"@[0] != "json"@[0]);
    assert("float"@[0] != "boolean"@[0]);
    assert("float"@[0] != "date"@[0]);
    assert("float"@[0] != "url"@[0]);
    assert("float"@[0] != "json"@[0]);
    assert("boolean"@[0] != "date"@[0]);
    assert("boolean"@[0] != "url"@[0]);
    assert("boolean"@[0] != "json"@[0]);
    assert("date"@[0] != "url"@[0]);
    assert("date"@[0] != "json"@[0]);
    assert("url"@[0] != "json"@[0]);
}

impl PropertyType {
    /// Parses the stored text of a property type; `None` for any other text.
    pub fn from_str(type_str: &str) -> (r: Option<PropertyType>)
        ensures
            r == property_type_parse(type_str@),
    {
        if str_eq(type_str, "string") {
            Some(PropertyType::String)
        } else if str_eq(type_str, "integer") {
            Some(PropertyType::Integer)
        } else if str_eq(type_str, "float") {
            Some(PropertyType::Float)
        } else if str_eq(type_str, "boolean") {
            Some(PropertyType::Boolean)
        } else if str_eq(type_str, "date") {
            Some(PropertyType::Date)
        } else if str_eq(type_str, "url") {
            Some(PropertyType::Url)
        } else if str_eq(type_str, "json") {
            Some(PropertyType::Json)
        } else {
            None
        }
    }

    /// The stored text of this property type.
    pub fn to_str(&self) -> (r: &'static str)
        ensures
            r@ == property_type_text(*self),
    {
        match self {
            PropertyType::String => "string",
            PropertyType::Integer => "integer",
            PropertyType::Float => "float",
            PropertyType::Boolean => "boolean",
            PropertyType::Date => "date",
            PropertyType::Url => "url",
            PropertyType::Json => "json",
        }
    }
}

/// The property type stored under a text, read as text when the stored text names none.
pub fn stored_property_type(t: &str) -> (r: PropertyType)
    ensures
        r == match property_type_parse(t@) {
            Some(p) => p,
            None => PropertyType::String,
        },
{
    match PropertyType::from_str(t) {
        Some(p) => p,
        None => PropertyType::String,
    }
}

/// A property of a part or a revision.
#[derive(Debug, Clone)]
pub struct Property {
    /// Unique identifier for the property.
    pub property_id: Option<i64>,
    /// Part the property belongs to, if any.
    pub part_id: Option<i64>,
    /// Revision the property belongs to, if any.
    pub revision_id: Option<i64>,
    /// Key of the property.
    pub key: String,
    /// Value of the property.
    pub value: Option<String>,
    /// Type of the value.
    pub property_type: PropertyType,
}

impl Property {
    /// Creates a property of a part, not stored yet.
    pub fn new_part_property(part_id: i64, key: String, value: Option<String>, property_type: PropertyType) -> (r: Property)
        ensures
            r.property_id is None,
            r.part_id == Some(part_id),
            r.revision_id is None,
            r.key == key,
            r.value == value,
            r.property_type == property_type,
    {
        Property { property_id: None, part_id: Some(part_id), revision_id: None, key, value, property_type }
    }

    /// Creates a property of a revision, not stored yet.
    pub fn new_revision_property(revision_id: i64, key: String, value: Option<String>, property_type: PropertyType) -> (r: Property)
        ensures
            r.property_id is None,
            r.part_id is None,
            r.revision_id == Some(revision_id),
            r.key == key,
            r.value == value,
            r.property_type == property_type,
    {
        Property { property_id: None, part_id: None, revision_id: Some(revision_id), key, value, property_type }
    }
}

} // verus!
