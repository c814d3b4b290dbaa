//! Approvals of revisions.

use vstd::prelude::*;
use crate::text::str_eq;
use crate::clock::{timestamp_now, Timestamp};

verus! {

/// Status of an approval.
#[derive(Debug, Clone, Copy, PartialEq, Eq, Structural)]
pub enum ApprovalStatus {
    /// Waiting for the approver.
    Pending,
    /// Approved by the approver.
    Approved,
    /// Rejected by the approver.
    Rejected,
}

/// The text under which each approval status is stored.
pub open spec fn approval_status_text(s: ApprovalStatus) -> Seq<char> {
    match s {
        ApprovalStatus::Pending => "Pending"@,
        ApprovalStatus::Approved => "Approved"@,
        ApprovalStatus::Rejected => "Rejected"@,
    }
}

/// The status stored under a text, if any.
pub open spec fn approval_status_parse(t: Seq<char>) -> Option<ApprovalStatus> {
    if t == "Pending"@ {
        Some(ApprovalStatus::Pending)
    } else if t == "Approved"@ {
        Some(ApprovalStatus::Approved)
    } else if t == "Rejected"@ {
        Some(ApprovalStatus::Rejected)
    } else {
        None
    }
}

/// Reading back the text of a status gives the status; a text that reads as a status is that
/// status's text.
pub proof fn law_approval_status_round_trip(s: ApprovalStatus, t: Seq<char>)
    ensures
        approval_status_parse(approval_status_text(s)) == Some(s),
        approval_status_parse(t) matches Some(x) ==> approval_status_text(x) == t,
{
    reveal_strlit("Pending");
    reveal_strlit("Approved");
    reveal_strlit("Rejected");
    assert("Pending"@.len() != "Approved"@.len());
    assert("Pending"@.len() != "Rejected"@.len());
    assert("Approved"@[0] != "Rejected"@[0]);
}

impl ApprovalStatus {
    /// Parses the stored text of a status; `None` for any other text.
    pub fn from_str(status: &str) -> (r: Option<ApprovalStatus>)
        ensures
            r == approval_status_parse(status@),
    {
        if str_eq(status, "Pending") {
            Some(ApprovalStatus::Pending)
        } else if str_eq(status, "Approved") {
            Some(ApprovalStatus::Approved)
        } else if str_eq(status, "Rejected") {
            Some(ApprovalStatus::Rejected)
        } else {
            None
        }
    }

    /// The stored text of this status.
    pub fn to_str(&self) -> (r: &'static str)
        ensures
            r@ == approval_status_text(*self),
    {
        match self {
            ApprovalStatus::Pending => "Pending",
            ApprovalStatus::Approved => "Approved",
            ApprovalStatus::Rejected => "Rejected",
        }
    }
}

/// Represents an approval of a revision.
#[derive(Debug, Clone)]
pub struct Approval {
    /// Unique identifier for the approval.
    pub approval_id: Option<i64>,
    /// Revision this approval is for.
    pub revision_id: i64,
    /// User who approves the revision.
    pub approver: String,
    /// Status of the approval.
    pub status: ApprovalStatus,
    /// When the decision was made.
    pub date: Option<Timestamp>,
    /// Comments from the approver.
    pub comments: Option<String>,
}

impl Approval {
    /// Creates an approval; a decided status is stamped with the current time.
    pub fn new(revision_id: i64, approver: String, status: ApprovalStatus, comments: Option<String>) -> (r: Approval)
        ensures
            r.approval_id is None,
            r.revision_id == revision_id,
            r.approver == approver,
            r.status == status,
            r.date is None <==> status == ApprovalStatus::Pending,
            r.date matches Some(t) ==> t.valid(),
            r.comments == comments,
    {
        let date = decision_date(status);
        Approval { approval_id: None, revision_id, approver, status, date, comments }
    }
}

/// When a decision with the given status is recorded: a pending status carries no date, a
/// decided one is stamped with the current time.
pub fn decision_date(status: ApprovalStatus) -> (r: Option<Timestamp>)
    ensures
        r is None <==> status == ApprovalStatus::Pending,
        r matches Some(t) ==> t.valid(),
{
    if status == ApprovalStatus::Pending { None } else { Some(timestamp_now()) }
}

/// Every approval is approved, and there is at least one.
pub open spec fn fully_approved(approvals: Seq<Approval>) -> bool {
    approvals.len() > 0 && forall|i: int| 0 <= i < approvals.len() ==> #[trigger] approvals[i].status == ApprovalStatus::Approved
}

/// Whether the approvals of a revision make it fully approved: there is at least one, and all
/// of them are approved.
pub fn is_revision_approved(approvals: &Vec<Approval>) -> (r: bool)
    ensures
        r == fully_approved(approvals@),
{
    if approvals.len() == 0 {
        return false;
    }
    for i in 0..approvals.len()
        invariant
            forall|k: int| 0 <= k < i ==> #[trigger] approvals@[k].status == ApprovalStatus::Approved,
    {
        if approvals[i].status != ApprovalStatus::Approved {
            return false;
        }
    }
    true
}

/// The status stored under a text, read as pending when the text names none.
pub fn stored_approval_status(t: &str) -> (r: ApprovalStatus)
    ensures
        r == match approval_status_parse(t@) {
            Some(s) => s,
            None => ApprovalStatus::Pending,
        },
{
    match ApprovalStatus::from_str(t) {
        Some(s) => s,
        None => ApprovalStatus::Pending,
    }
}

/// A revision counts as fully approved only when it has approvals and every one of them, the
/// first as much as the last, is approved: one pending or rejected approval anywhere in the
/// list, or no approval at all, keeps it from being approved.
pub proof fn law_every_approval_counts(approvals: Seq<Approval>, i: int)
    ensures
        approvals.len() == 0 ==> !fully_approved(approvals),
        0 <= i < approvals.len() && approvals[i].status != ApprovalStatus::Approved ==> !fully_approved(approvals),
        fully_approved(approvals) && 0 <= i < approvals.len() ==> approvals[i].status == ApprovalStatus::Approved,
        approvals.len() > 0 && (forall|k: int| 0 <= k < approvals.len() ==> #[trigger] approvals[k].status == ApprovalStatus::Approved)
            ==> fully_approved(approvals),
{
}

} // verus!

