//! Parts as the user interface sees them.

use vstd::prelude::*;
use crate::text::{owned, push_str, i64_to_decimal, signed_decimal};
use crate::database::part::{Part, fallback_code, fallback_code_of};

verus! {

/// A part as the user interface shows it.
#[derive(Debug, Clone)]
pub struct PartDto {
    /// Part ID.
    pub id: i64,
    /// Part number, as displayed.
    pub part_number: String,
    /// Name.
    pub name: String,
    /// Description.
    pub description: Option<String>,
    /// Status.
    pub status: String,
    /// Category.
    pub category: String,
    /// Subcategory.
    pub subcategory: String,
}

/// What the user interface sends to create or change a part.
#[derive(Debug, Clone)]
pub struct PartCreateDto {
    /// Name.
    pub name: String,
    /// Description.
    pub description: Option<String>,
    /// Category.
    pub category: String,
    /// Subcategory.
    pub subcategory: String,
}

/// The part number the user interface shows for a part: the first two characters of its
/// category and the first three of its subcategory, in upper case, and its ID, joined by
/// hyphens.
pub open spec fn shown_part_number(category: Seq<char>, subcategory: Seq<char>, id: i64) -> Seq<char> {
    fallback_code(category, 2) + "-"@ + fallback_code(subcategory, 3) + "-"@ + signed_decimal(id as int)
}

impl PartDto {
    /// The part as the user interface shows it, in status `Draft`.
    pub fn from(part: Part) -> (r: PartDto)
        ensures
            r.id == part.part_id,
            r.part_number@ == shown_part_number(part.category@, part.subcategory@, part.part_id),
            r.name == part.name,
            r.description == part.description,
            r.status@ == "Draft"@,
            r.category == part.category,
            r.subcategory == part.subcategory,
    {
        let mut part_number = fallback_code_of(part.category.as_str(), 2);
        push_str(&mut part_number, "-");
        let sub = fallback_code_of(part.subcategory.as_str(), 3);
        push_str(&mut part_number, sub.as_str());
        push_str(&mut part_number, "-");
        let n = i64_to_decimal(part.part_id);
        push_str(&mut part_number, n.as_str());
        PartDto {
            id: part.part_id,
            part_number,
            name: part.name,
            description: part.description,
            status: owned("Draft"),
            category: part.category,
            subcategory: part.subcategory,
        }
    }
}

/// The part that `data` describes, under the ID `part_id`.
pub fn part_from_data(part_id: i64, data: PartCreateDto) -> (r: Part)
    ensures
        r.part_id == part_id,
        r.category == data.category,
        r.subcategory == data.subcategory,
        r.name == data.name,
        r.description == data.description,
        r.created_date == r.modified_date,
{
    Part::new(part_id, data.category, data.subcategory, data.name, data.description)
}

} // verus!
