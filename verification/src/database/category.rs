//! Categories and subcategories, whose codes make up part numbers.

use vstd::prelude::*;
use crate::text::{chars_of};

verus! {

/// A category of parts.
#[derive(Debug, Clone)]
pub struct Category {
    /// Unique identifier for the category.
    pub category_id: Option<i64>,
    /// Name of the category.
    pub name: String,
    /// Code of the category, used in part numbers.
    pub code: String,
    /// Description of the category.
    pub description: Option<String>,
}

impl Category {
    /// Creates a category that is not stored yet.
    pub fn new(name: String, code: String, description: Option<String>) -> (r: Category)
        ensures
            r.category_id is None,
            r.name == name,
            r.code == code,
            r.description == description,
    {
        Category { category_id: None, name, code, description }
    }
}

/// A subcategory of parts, within a category.
#[derive(Debug, Clone)]
pub struct Subcategory {
    /// Unique identifier for the subcategory.
    pub subcategory_id: Option<i64>,
    /// Category the subcategory belongs to.
    pub category_id: i64,
    /// Name of the subcategory.
    pub name: String,
    /// Code of the subcategory, used in part numbers.
    pub code: String,
    /// Description of the subcategory.
    pub description: Option<String>,
}

impl Subcategory {
    /// Creates a subcategory that is not stored yet.
    pub fn new(category_id: i64, name: String, code: String, description: Option<String>) -> (r: Subcategory)
        ensures
            r.subcategory_id is None,
            r.category_id == category_id,
            r.name == name,
            r.code == code,
            r.description == description,
    {
        Subcategory { subcategory_id: None, category_id, name, code, description }
    }
}

/// The text is a run of at least `min` and at most `max` ASCII upper-case letters.
pub open spec fn is_upper_code(s: Seq<char>, min: nat, max: nat) -> bool {
    min <= s.len() <= max && forall|i: int| 0 <= i < s.len() ==> 'A' <= #[trigger] s[i] <= 'Z'
}

/// Whether `code` is a run of at least `min` and at most `max` ASCII upper-case letters.
pub fn is_upper_code_of(code: &str, min: usize, max: usize) -> (r: bool)
    ensures
        r == is_upper_code(code@, min as nat, max as nat),
{
    let v = chars_of(code);
    if v.len() < min || v.len() > max {
        return false;
    }
    for i in 0..v.len()
        invariant
            v@ == code@,
            min <= v.len() <= max,
            forall|k: int| 0 <= k < i ==> 'A' <= #[trigger] v@[k] <= 'Z',
    {
        if !('A' <= v[i] && v[i] <= 'Z') {
            assert(!('A' <= code@[i as int] <= 'Z'));
            return false;
        }
    }
    true
}

} // verus!
