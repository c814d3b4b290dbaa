//! Revisions as the user interface sees them.

use vstd::prelude::*;
use crate::text::owned;
use crate::database::revision::{
    Revision, RevisionStatus, command_status_name, command_status_text, command_revision_status,
    parse_command_revision_status,
};

verus! {

/// A revision as the user interface shows it.
#[derive(Debug, Clone)]
pub struct RevisionDto {
    /// Revision ID.
    pub revision_id: i64,
    /// Part it is a revision of.
    pub part_id: i64,
    /// Version.
    pub version: String,
    /// Status, by name.
    pub status: String,
    /// User who created it.
    pub created_by: String,
    /// Git commit of the revision.
    pub commit_hash: Option<String>,
}

/// What the user interface sends to create or change a revision.
#[derive(Debug, Clone)]
pub struct RevisionCreationData {
    /// Part it is a revision of.
    pub part_id: i64,
    /// Version.
    pub version: String,
    /// Status, by name.
    pub status: String,
    /// User who creates it.
    pub created_by: String,
    /// Git commit of the revision.
    pub commit_hash: Option<String>,
}

impl RevisionDto {
    /// The revision as the user interface shows it: a stored one's ID (zero for one not
    /// stored) and its status by the name the command interface reads (`InReview`, not
    /// `In Review`).
    pub fn from(revision: Revision) -> (r: RevisionDto)
        ensures
            r.revision_id == match revision.revision_id { Some(i) => i, None => 0 },
            r.part_id == revision.part_id,
            r.version == revision.version,
            r.status@ == command_status_name(revision.status),
            r.created_by == revision.created_by,
            r.commit_hash == revision.commit_hash,
    {
        RevisionDto {
            revision_id: match revision.revision_id {
                Some(i) => i,
                None => 0,
            },
            part_id: revision.part_id,
            version: revision.version,
            status: owned(command_status_text(revision.status)),
            created_by: revision.created_by,
            commit_hash: revision.commit_hash,
        }
    }
}

/// The revision that `data` describes, not stored yet, or the error for a status that names
/// none.
pub fn revision_from_data(data: RevisionCreationData) -> (r: Result<Revision, String>)
    ensures
        match command_revision_status(data.status@) {
            Ok(s) => r matches Ok(x) && x.revision_id is None && x.part_id == data.part_id
                && x.version == data.version && x.status == s && x.created_by == data.created_by
                && x.commit_hash == data.commit_hash,
            Err(e) => r matches Err(m) && m@ == e,
        },
{
    let status = match parse_command_revision_status(data.status.as_str()) {
        Ok(s) => s,
        Err(m) => return Err(m),
    };
    Ok(Revision::new(data.part_id, data.version, status, data.created_by, data.commit_hash))
}

} // verus!
