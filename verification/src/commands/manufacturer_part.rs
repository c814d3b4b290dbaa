//! Manufacturer parts as the user interface sees them.

use vstd::prelude::*;
use crate::text::{owned, push_str, str_eq};
use crate::database::manufacturer_part::{ManufacturerPart, ManufacturerPartStatus, mpn_status_text};

verus! {

/// A manufacturer part as the user interface shows it.
#[derive(Debug, Clone)]
pub struct ManufacturerPartDto {
    /// Manufacturer part ID.
    pub mpn_id: i64,
    /// Part it is a source for.
    pub part_id: i64,
    /// Manufacturer name.
    pub manufacturer: String,
    /// Manufacturer part number.
    pub mpn: String,
    /// Description.
    pub description: Option<String>,
    /// Status: `Active`, `Preferred`, `Alternate` or `Obsolete`.
    pub status: String,
}

/// What the user interface sends to create or change a manufacturer part.
#[derive(Debug, Clone)]
pub struct ManufacturerPartCreationData {
    /// Part it is a source for.
    pub part_id: i64,
    /// Manufacturer name.
    pub manufacturer: String,
    /// Manufacturer part number.
    pub mpn: String,
    /// Description.
    pub description: Option<String>,
    /// Status.
    pub status: String,
}

impl ManufacturerPartDto {
    /// The manufacturer part as the user interface shows it: a stored one's ID (zero for one
    /// not stored) and its status by name.
    pub fn from(mpn: ManufacturerPart) -> (r: ManufacturerPartDto)
        ensures
            r.mpn_id == match mpn.mpn_id { Some(i) => i, None => 0 },
            r.part_id == mpn.part_id,
            r.manufacturer == mpn.manufacturer,
            r.mpn == mpn.mpn,
            r.description == mpn.description,
            r.status@ == mpn_status_text(mpn.status),
    {
        ManufacturerPartDto {
            mpn_id: match mpn.mpn_id {
                Some(i) => i,
                None => 0,
            },
            part_id: mpn.part_id,
            manufacturer: mpn.manufacturer,
            mpn: mpn.mpn,
            description: mpn.description,
            status: owned(mpn.status.to_str()),
        }
    }
}

/// The status the user interface names, or the error that names the text it sent.
pub open spec fn command_mpn_status(t: Seq<char>) -> Result<ManufacturerPartStatus, Seq<char>> {
    if t == "Active"@ {
        Ok(ManufacturerPartStatus::Active)
    } else if t == "Preferred"@ {
        Ok(ManufacturerPartStatus::Preferred)
    } else if t == "Alternate"@ {
        Ok(ManufacturerPartStatus::Alternate)
    } else if t == "Obsolete"@ {
        Ok(ManufacturerPartStatus::Obsolete)
    } else {
        Err("Invalid manufacturer part status: "@ + t)
    }
}

/// The manufacturer part that `data` describes, not stored yet, or the error for a status
/// that names none.
pub fn manufacturer_part_from_data(data: ManufacturerPartCreationData) -> (r: Result<ManufacturerPart, String>)
    ensures
        match command_mpn_status(data.status@) {
            Ok(s) => r matches Ok(m) && m.mpn_id is None && m.part_id == data.part_id
                && m.manufacturer == data.manufacturer && m.mpn == data.mpn
                && m.description == data.description && m.status == s,
            Err(e) => r matches Err(m) && m@ == e,
        },
{
    let t = data.status.as_str();
    let status = if str_eq(t, "Active") {
        ManufacturerPartStatus::Active
    } else if str_eq(t, "Preferred") {
        ManufacturerPartStatus::Preferred
    } else if str_eq(t, "Alternate") {
        ManufacturerPartStatus::Alternate
    } else if str_eq(t, "Obsolete") {
        ManufacturerPartStatus::Obsolete
    } else {
        let mut m = owned("Invalid manufacturer part status: ");
        push_str(&mut m, t);
        return Err(m);
    };
    Ok(ManufacturerPart::new(data.part_id, data.manufacturer, data.mpn, data.description, status))
}

} // verus!
