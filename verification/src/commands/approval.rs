//! Approvals as the user interface sees them.

use vstd::prelude::*;
use crate::text::{owned, push_str, str_eq};
use crate::clock::{timestamp_rfc3339, utc_timestamp_rfc3339, Timestamp};
use crate::database::approval::{Approval, ApprovalStatus, approval_status_text};

verus! {

/// An approval as the user interface shows it.
#[derive(Debug, Clone)]
pub struct ApprovalDto {
    /// Approval ID.
    pub approval_id: i64,
    /// Revision the approval is for.
    pub revision_id: i64,
    /// User who approves.
    pub approver: String,
    /// Status: `Pending`, `Approved` or `Rejected`.
    pub status: String,
    /// When the decision was made, as RFC 3339 text.
    pub date: Option<String>,
    /// Comments of the approver.
    pub comments: Option<String>,
}

/// What the user interface sends to ask for an approval.
#[derive(Debug, Clone)]
pub struct ApprovalCreationData {
    /// Revision the approval is for.
    pub revision_id: i64,
    /// User who is to approve.
    pub approver: String,
    /// Comments.
    pub comments: Option<String>,
}

/// What the user interface sends to decide an approval.
#[derive(Debug, Clone)]
pub struct ApprovalUpdateData {
    /// New status.
    pub status: String,
    /// Comments.
    pub comments: Option<String>,
}

/// The text shown for an instant given as whole seconds and milliseconds after the Unix
/// epoch (none for an instant before it): its RFC 3339 text, or `Invalid date` where the
/// instant cannot be represented.
pub open spec fn date_text(since: Option<(u64, u32)>) -> Seq<char> {
    match since {
        None => "Invalid date"@,
        Some((secs, millis)) => match utc_timestamp_rfc3339(secs as i64, (millis * 1_000_000) as u32) {
            Some(t) => t,
            None => "Invalid date"@,
        },
    }
}

/// The text shown for an instant given as whole seconds and milliseconds after the Unix epoch.
pub fn date_text_of(since: Option<(u64, u32)>) -> (r: String)
    requires
        since matches Some((_, millis)) ==> millis * 1_000_000 <= u32::MAX,
    ensures
        r@ == date_text(since),
{
    match since {
        None => owned("Invalid date"),
        Some((secs, millis)) => {
            let nanos: u32 = millis * 1_000_000;
            match timestamp_rfc3339(secs as i64, nanos) {
                Some(t) => t,
                None => owned("Invalid date"),
            }
        },
    }
}

/// The whole seconds and milliseconds after the Unix epoch that a timestamp is shown by.
pub open spec fn shown_instant(t: Timestamp) -> Option<(u64, u32)> {
    match t.since_epoch {
        Some((secs, nanos)) => Some((secs, (nanos / 1_000_000) as u32)),
        None => None,
    }
}

/// The text shown for an instant: its whole seconds and milliseconds after the Unix epoch,
/// shown by `date_text`.
pub fn approval_date_text(date: Timestamp) -> (r: String)
    ensures
        r@ == date_text(shown_instant(date)),
{
    let since = match date.since_epoch {
        Some((secs, nanos)) => Some((secs, nanos / 1_000_000)),
        None => None,
    };
    date_text_of(since)
}

impl ApprovalDto {
    /// The approval as the user interface shows it: a stored approval's ID (zero for one not
    /// stored), its status by name, and its date as text.
    pub fn from(approval: Approval) -> (r: ApprovalDto)
        ensures
            r.approval_id == match approval.approval_id { Some(i) => i, None => 0 },
            r.revision_id == approval.revision_id,
            r.approver == approval.approver,
            r.status@ == approval_status_text(approval.status),
            r.date is Some <==> approval.date is Some,
            r.date matches Some(d) ==> d@ == date_text(shown_instant(approval.date->0)),
            r.comments == approval.comments,
    {
        let date = match &approval.date {
            Some(t) => Some(approval_date_text(*t)),
            None => None,
        };
        ApprovalDto {
            approval_id: match approval.approval_id {
                Some(i) => i,
                None => 0,
            },
            revision_id: approval.revision_id,
            approver: approval.approver,
            status: owned(approval.status.to_str()),
            date,
            comments: approval.comments,
        }
    }
}

/// The status the user interface names, or the error that names the text it sent.
pub open spec fn command_approval_status(t: Seq<char>) -> Result<ApprovalStatus, Seq<char>> {
    if t == "Approved"@ {
        Ok(ApprovalStatus::Approved)
    } else if t == "Rejected"@ {
        Ok(ApprovalStatus::Rejected)
    } else if t == "Pending"@ {
        Ok(ApprovalStatus::Pending)
    } else {
        Err("Invalid approval status: "@ + t)
    }
}

/// Reads the status that the user interface sends to decide an approval.
pub fn parse_command_approval_status(t: &str) -> (r: Result<ApprovalStatus, String>)
    ensures
        match r {
            Ok(s) => command_approval_status(t@) == Ok::<ApprovalStatus, Seq<char>>(s),
            Err(m) => command_approval_status(t@) == Err::<ApprovalStatus, Seq<char>>(m@),
        },
{
    if str_eq(t, "Approved") {
        Ok(ApprovalStatus::Approved)
    } else if str_eq(t, "Rejected") {
        Ok(ApprovalStatus::Rejected)
    } else if str_eq(t, "Pending") {
        Ok(ApprovalStatus::Pending)
    } else {
        let mut m = owned("Invalid approval status: ");
        push_str(&mut m, t);
        Err(m)
    }
}

/// The approval that `data` asks for: pending, for its revision and approver, with its
/// comments.
pub fn requested_approval(data: ApprovalCreationData) -> (r: Approval)
    ensures
        r.approval_id is None,
        r.revision_id == data.revision_id,
        r.approver == data.approver,
        r.status == ApprovalStatus::Pending,
        r.date is None,
        r.comments == data.comments,
{
    Approval::new(data.revision_id, data.approver, ApprovalStatus::Pending, data.comments)
}

} // verus!
