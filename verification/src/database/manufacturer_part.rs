//! Manufacturer parts: the catalogue numbers under which a part can be bought.

use vstd::prelude::*;
use crate::text::str_eq;

verus! {

/// Status of a manufacturer part.
#[derive(Debug, Clone, Copy, PartialEq, Eq, Structural)]
pub enum ManufacturerPartStatus {
    /// Can be used.
    Active,
    /// Recommended for use.
    Preferred,
    /// Can be used as an alternative.
    Alternate,
    /// Not to be used in new designs.
    Obsolete,
}

/// The text under which a status is stored.
pub open spec fn mpn_status_text(s: ManufacturerPartStatus) -> Seq<char> {
    match s {
        ManufacturerPartStatus::Active => "Active"@,
        ManufacturerPartStatus::Preferred => "Preferred"@,
        ManufacturerPartStatus::Alternate => "Alternate"@,
        ManufacturerPartStatus::Obsolete => "Obsolete"@,
    }
}

/// The status stored under a text, if any.
pub open spec fn mpn_status_parse(t: Seq<char>) -> Option<ManufacturerPartStatus> {
    if t == "Active"@ {
        Some(ManufacturerPartStatus::Active)
    } else if t == "Preferred"@ {
        Some(ManufacturerPartStatus::Preferred)
    } else if t == "Alternate"@ {
        Some(ManufacturerPartStatus::Alternate)
    } else if t == "Obsolete"@ {
        Some(ManufacturerPartStatus::Obsolete)
    } else {
        None
    }
}

/// Reading back the text of a status gives the status; a text that reads as a status is that
/// status's text.
pub proof fn law_mpn_status_round_trip(s: ManufacturerPartStatus, t: Seq<char>)
    ensures
        mpn_status_parse(mpn_status_text(s)) == Some(s),
        mpn_status_parse(t) matches Some(x) ==> mpn_status_text(x) == t,
{
    reveal_strlit("Active");
    reveal_strlit("Preferred");
    reveal_strlit("Alternate");
    reveal_strlit("Obsolete");
    assert("Active"@.len() != "Preferred"@.len());
    assert("Active"@.len() != "Alternate"@.len());
    assert("Active"@.len() != "Obsolete"@.len());
    assert("Preferred"@.len() != "Obsolete"@.len());
    assert("Alternate"@.len() != "Obsolete"@.len());
    assert("Preferred"@[0] != "Alternate"@[0]);
}

impl ManufacturerPartStatus {
    /// Parses the stored text of a status; `None` for any other text.
    pub fn from_str(status: &str) -> (r: Option<ManufacturerPartStatus>)
        ensures
            r == mpn_status_parse(status@),
    {
        if str_eq(status, "Active") {
            Some(ManufacturerPartStatus::Active)
        } else if str_eq(status, "Preferred") {
            Some(ManufacturerPartStatus::Preferred)
        } else if str_eq(status, "Alternate") {
            Some(ManufacturerPartStatus::Alternate)
        } else if str_eq(status, "Obsolete") {
            Some(ManufacturerPartStatus::Obsolete)
        } else {
            None
        }
    }

    /// The stored text of this status.
    pub fn to_str(&self) -> (r: &'static str)
        ensures
            r@ == mpn_status_text(*self),
    {
        match self {
            ManufacturerPartStatus::Active => "Active",
            ManufacturerPartStatus::Preferred => "Preferred",
            ManufacturerPartStatus::Alternate => "Alternate",
            ManufacturerPartStatus::Obsolete => "Obsolete",
        }
    }
}

/// The status stored under a text, read as active when the text names none.
pub fn stored_mpn_status(t: &str) -> (r: ManufacturerPartStatus)
    ensures
        r == match mpn_status_parse(t@) {
            Some(s) => s,
            None => ManufacturerPartStatus::Active,
        },
{
    match ManufacturerPartStatus::from_str(t) {
        Some(s) => s,
        None => ManufacturerPartStatus::Active,
    }
}

/// A manufacturer part.
#[derive(Debug, Clone)]
pub struct ManufacturerPart {
    /// Unique identifier for the manufacturer part.
    pub mpn_id: Option<i64>,
    /// Part it is a source for.
    pub part_id: i64,
    /// Name of the manufacturer.
    pub manufacturer: String,
    /// The manufacturer's part number.
    pub mpn: String,
    /// Description of the manufacturer part.
    pub description: Option<String>,
    /// Status of the manufacturer part.
    pub status: ManufacturerPartStatus,
}

impl ManufacturerPart {
    /// Creates a manufacturer part, not stored yet.
    pub fn new(
        part_id: i64,
        manufacturer: String,
        mpn: String,
        description: Option<String>,
        status: ManufacturerPartStatus,
    ) -> (r: ManufacturerPart)
        ensures
            r.mpn_id is None,
            r.part_id == part_id,
            r.manufacturer == manufacturer,
            r.mpn == mpn,
            r.description == description,
            r.status == status,
    {
        ManufacturerPart { mpn_id: None, part_id, manufacturer, mpn, description, status }
    }
}

} // verus!
