//! Part management: who may do what to a part, and how a revision moves through its lifecycle
//! (draft, in review, released, obsolete).

use vstd::prelude::*;
use crate::text::{str_eq, owned, push_str};
use super::revision::{Revision, RevisionStatus, revision_status_text};
use super::approval::{Approval, ApprovalStatus};
use super::schema::DatabaseError;
use crate::git_backend::GitBackendError;

verus! {

/// Errors of part management.
#[derive(Debug, Clone)]
pub enum PartManagementError {
    /// A database error.
    DatabaseError(DatabaseError),
    /// A Git backend error.
    GitBackendError(GitBackendError),
    /// An error reported by SQLite, by its message.
    SqliteError(String),
    /// The revision is not in a state that allows the operation.
    InvalidStateTransition(String),
    /// The revision needs approval first.
    ApprovalRequired(String),
    /// The user may not perform the operation.
    PermissionDenied(String),
    /// Any other error.
    Other(String),
}

/// Roles of users.
#[derive(Debug, Clone, Copy, PartialEq, Eq, Structural)]
pub enum UserRole {
    /// Creates and edits parts.
    Designer,
    /// Only views parts.
    Viewer,
    /// May do anything.
    Admin,
}

/// A user of the system.
#[derive(Debug, Clone)]
pub struct User {
    /// Name of the user.
    pub username: String,
    /// Role of the user.
    pub role: UserRole,
}

/// A user in this role may create parts and revisions.
pub open spec fn may_create(role: UserRole) -> bool {
    role == UserRole::Designer || role == UserRole::Admin
}

/// A user may edit a part: an administrator always, a designer only a part of their own.
pub open spec fn may_edit(role: UserRole, username: Seq<char>, author: Seq<char>) -> bool {
    match role {
        UserRole::Designer => username == author,
        UserRole::Admin => true,
        UserRole::Viewer => false,
    }
}

/// A user may approve a part: an administrator always, a designer only a part of someone else.
pub open spec fn may_approve(role: UserRole, username: Seq<char>, author: Seq<char>) -> bool {
    match role {
        UserRole::Designer => username != author,
        UserRole::Admin => true,
        UserRole::Viewer => false,
    }
}

impl User {
    /// Creates a user.
    pub fn new(username: String, role: UserRole) -> (r: User)
        ensures
            r.username == username,
            r.role == role,
    {
        User { username, role }
    }

    /// Whether the user may create parts.
    pub fn can_create_parts(&self) -> (r: bool)
        ensures
            r == may_create(self.role),
    {
        match self.role {
            UserRole::Designer | UserRole::Admin => true,
            UserRole::Viewer => false,
        }
    }

    /// Whether the user may edit a part created by `part_author`.
    pub fn can_edit_part(&self, part_author: &str) -> (r: bool)
        ensures
            r == may_edit(self.role, self.username@, part_author@),
    {
        match self.role {
            UserRole::Designer => str_eq(self.username.as_str(), part_author),
            UserRole::Admin => true,
            UserRole::Viewer => false,
        }
    }

    /// Whether the user may approve a part created by `part_author`.
    pub fn can_approve_part(&self, part_author: &str) -> (r: bool)
        ensures
            r == may_approve(self.role, self.username@, part_author@),
    {
        match self.role {
            UserRole::Designer => !str_eq(self.username.as_str(), part_author),
            UserRole::Admin => true,
            UserRole::Viewer => false,
        }
    }
}

/// The operations on a revision.
#[derive(Debug, Clone, Copy, PartialEq, Eq, Structural)]
pub enum LifecycleAction {
    /// Send a draft for review.
    SubmitForReview,
    /// Approve a revision under review.
    Approve,
    /// Reject a revision under review, returning it to draft.
    Reject,
    /// Release a fully approved revision.
    Release,
    /// Retire a released revision.
    MarkObsolete,
    /// Record the commit of a revision.
    UpdateCommitHash,
}

/// Why an operation on a revision is refused.
#[derive(Debug, Clone, Copy, PartialEq, Eq, Structural)]
pub enum Refusal {
    /// The user may not perform it.
    PermissionDenied,
    /// The revision's status does not allow it.
    InvalidState,
    /// The revision is not fully approved.
    NotApproved,
}

/// The operation needs the right to edit the part (the others need the right to approve it).
pub open spec fn needs_edit_right(action: LifecycleAction) -> bool {
    action == LifecycleAction::SubmitForReview || action == LifecycleAction::UpdateCommitHash
}

/// The status that the operation starts from, if it needs one.
pub open spec fn required_status(action: LifecycleAction) -> Option<RevisionStatus> {
    match action {
        LifecycleAction::SubmitForReview => Some(RevisionStatus::Draft),
        LifecycleAction::Approve => Some(RevisionStatus::InReview),
        LifecycleAction::Reject => Some(RevisionStatus::InReview),
        LifecycleAction::Release => Some(RevisionStatus::InReview),
        LifecycleAction::MarkObsolete => Some(RevisionStatus::Released),
        LifecycleAction::UpdateCommitHash => None,
    }
}

/// The status that a revision has after the operation succeeds.
pub open spec fn status_after(action: LifecycleAction, status: RevisionStatus) -> RevisionStatus {
    match action {
        LifecycleAction::SubmitForReview => RevisionStatus::InReview,
        LifecycleAction::Approve => RevisionStatus::InReview,
        LifecycleAction::Reject => RevisionStatus::Draft,
        LifecycleAction::Release => RevisionStatus::Released,
        LifecycleAction::MarkObsolete => RevisionStatus::Obsolete,
        LifecycleAction::UpdateCommitHash => status,
    }
}

/// The outcome of an operation on a revision with the given status and author, by a user with
/// the given role and name, where `approved` tells whether the revision is fully approved: the
/// new status, or why it is refused. Rights are checked first, then the status, then approval.
pub open spec fn lifecycle_outcome(
    role: UserRole,
    username: Seq<char>,
    author: Seq<char>,
    status: RevisionStatus,
    action: LifecycleAction,
    approved: bool,
) -> Result<RevisionStatus, Refusal> {
    let allowed = if needs_edit_right(action) {
        may_edit(role, username, author)
    } else {
        may_approve(role, username, author)
    };
    if !allowed {
        Err(Refusal::PermissionDenied)
    } else if required_status(action) matches Some(s) && s != status {
        Err(Refusal::InvalidState)
    } else if action == LifecycleAction::Release && !approved {
        Err(Refusal::NotApproved)
    } else {
        Ok(status_after(action, status))
    }
}

/// The message of a refusal for lack of rights.
pub open spec fn permission_message(action: LifecycleAction) -> Seq<char> {
    match action {
        LifecycleAction::SubmitForReview => "User does not have permission to submit this part for review"@,
        LifecycleAction::Approve => "User does not have permission to approve this revision"@,
        LifecycleAction::Reject => "User does not have permission to reject this revision"@,
        LifecycleAction::Release => "User does not have permission to release this revision"@,
        LifecycleAction::MarkObsolete => "User does not have permission to mark this revision as obsolete"@,
        LifecycleAction::UpdateCommitHash => "User does not have permission to update this revision"@,
    }
}

/// The start of the message of a refusal for the revision's status.
pub open spec fn state_message_prefix(action: LifecycleAction) -> Seq<char> {
    match action {
        LifecycleAction::SubmitForReview => "Cannot submit revision for review: current status is "@,
        LifecycleAction::Approve => "Cannot approve revision: current status is "@,
        LifecycleAction::Reject => "Cannot reject revision: current status is "@,
        LifecycleAction::Release => "Cannot release revision: current status is "@,
        _ => "Cannot mark revision as obsolete: current status is "@,
    }
}

/// The error reports the refusal, with the message the operation gives for it.
pub open spec fn reports_refusal(
    e: PartManagementError,
    k: Refusal,
    action: LifecycleAction,
    status: RevisionStatus,
) -> bool {
    match k {
        Refusal::PermissionDenied => e matches PartManagementError::PermissionDenied(m) && m@ == permission_message(action),
        Refusal::InvalidState => e matches PartManagementError::InvalidStateTransition(m)
            && m@ == state_message_prefix(action) + revision_status_text(status),
        Refusal::NotApproved => e matches PartManagementError::ApprovalRequired(m)
            && m@ == "Revision must be fully approved before release"@,
    }
}

fn permission_text(action: LifecycleAction) -> (r: String)
    ensures
        r@ == permission_message(action),
{
    match action {
        LifecycleAction::SubmitForReview => owned("User does not have permission to submit this part for review"),
        LifecycleAction::Approve => owned("User does not have permission to approve this revision"),
        LifecycleAction::Reject => owned("User does not have permission to reject this revision"),
        LifecycleAction::Release => owned("User does not have permission to release this revision"),
        LifecycleAction::MarkObsolete => owned("User does not have permission to mark this revision as obsolete"),
        LifecycleAction::UpdateCommitHash => owned("User does not have permission to update this revision"),
    }
}

fn state_text(action: LifecycleAction, status: RevisionStatus) -> (r: String)
    ensures
        r@ == state_message_prefix(action) + revision_status_text(status),
{
    let mut m = match action {
        LifecycleAction::SubmitForReview => owned("Cannot submit revision for review: current status is "),
        LifecycleAction::Approve => owned("Cannot approve revision: current status is "),
        LifecycleAction::Reject => owned("Cannot reject revision: current status is "),
        LifecycleAction::Release => owned("Cannot release revision: current status is "),
        _ => owned("Cannot mark revision as obsolete: current status is "),
    };
    push_str(&mut m, status.to_str());
    m
}

/// Decides an operation on `revision` by `user`; `fully_approved` tells whether all of the
/// revision's approvals are approved (it matters only for a release). Gives the status the
/// revision is to have, or the error that refuses the operation.
pub fn lifecycle_transition(
    user: &User,
    revision: &Revision,
    action: LifecycleAction,
    fully_approved: bool,
) -> (r: Result<RevisionStatus, PartManagementError>)
    ensures
        ({
            let o = lifecycle_outcome(user.role, user.username@, revision.created_by@, revision.status, action, fully_approved);
            match r {
                Ok(s) => o == Ok::<RevisionStatus, Refusal>(s),
                Err(e) => o matches Err(k) && reports_refusal(e, k, action, revision.status),
            }
        }),
{
    let allowed = if action == LifecycleAction::SubmitForReview || action == LifecycleAction::UpdateCommitHash {
        user.can_edit_part(revision.created_by.as_str())
    } else {
        user.can_approve_part(revision.created_by.as_str())
    };
    if !allowed {
        return Err(PartManagementError::PermissionDenied(permission_text(action)));
    }
    let required = match action {
        LifecycleAction::SubmitForReview => Some(RevisionStatus::Draft),
        LifecycleAction::Approve => Some(RevisionStatus::InReview),
        LifecycleAction::Reject => Some(RevisionStatus::InReview),
        LifecycleAction::Release => Some(RevisionStatus::InReview),
        LifecycleAction::MarkObsolete => Some(RevisionStatus::Released),
        LifecycleAction::UpdateCommitHash => None,
    };
    match required {
        Some(s) => {
            if s != revision.status {
                return Err(PartManagementError::InvalidStateTransition(state_text(action, revision.status)));
            }
        },
        None => {},
    }
    if action == LifecycleAction::Release && !fully_approved {
        return Err(PartManagementError::ApprovalRequired(owned("Revision must be fully approved before release")));
    }
    Ok(match action {
        LifecycleAction::SubmitForReview => RevisionStatus::InReview,
        LifecycleAction::Approve => RevisionStatus::InReview,
        LifecycleAction::Reject => RevisionStatus::Draft,
        LifecycleAction::Release => RevisionStatus::Released,
        LifecycleAction::MarkObsolete => RevisionStatus::Obsolete,
        LifecycleAction::UpdateCommitHash => revision.status,
    })
}

/// Decides whether `user` may create a part.
pub fn check_create_part(user: &User) -> (r: Result<(), PartManagementError>)
    ensures
        r is Ok <==> may_create(user.role),
        r matches Err(e) ==> e matches PartManagementError::PermissionDenied(m)
            && m@ == "User does not have permission to create parts"@,
{
    if !user.can_create_parts() {
        return Err(PartManagementError::PermissionDenied(owned("User does not have permission to create parts")));
    }
    Ok(())
}

/// Decides whether `user` may start a new revision of a part whose latest revision is
/// `latest`: the user must be allowed to create parts, and the latest revision released.
pub fn check_new_revision(user: &User, latest: &Revision) -> (r: Result<(), PartManagementError>)
    ensures
        r is Ok <==> (may_create(user.role) && latest.status == RevisionStatus::Released),
        r matches Err(e) ==> if !may_create(user.role) {
            e matches PartManagementError::PermissionDenied(m) && m@ == "User does not have permission to create revisions"@
        } else {
            e matches PartManagementError::InvalidStateTransition(m)
                && m@ == "Cannot create new revision: latest revision status is "@ + revision_status_text(latest.status)
        },
{
    if !user.can_create_parts() {
        return Err(PartManagementError::PermissionDenied(owned("User does not have permission to create revisions")));
    }
    if latest.status != RevisionStatus::Released {
        let mut m = owned("Cannot create new revision: latest revision status is ");
        push_str(&mut m, latest.status.to_str());
        return Err(PartManagementError::InvalidStateTransition(m));
    }
    Ok(())
}

/// The first revision of a new part: version `1`, a draft, created by `user`, with no commit.
pub fn initial_revision(part_id: i64, user: &User) -> (r: Revision)
    ensures
        r.revision_id is None,
        r.part_id == part_id,
        r.version@ == "1"@,
        r.status == RevisionStatus::Draft,
        r.created_by == user.username,
        r.commit_hash is None,
{
    Revision::new(part_id, owned("1"), RevisionStatus::Draft, user.username.clone(), None)
}

/// A new draft revision with the given version, created by `user`, with no commit.
pub fn draft_revision(part_id: i64, version: String, user: &User) -> (r: Revision)
    ensures
        r.revision_id is None,
        r.part_id == part_id,
        r.version == version,
        r.status == RevisionStatus::Draft,
        r.created_by == user.username,
        r.commit_hash is None,
{
    Revision::new(part_id, version, RevisionStatus::Draft, user.username.clone(), None)
}

/// The approval is a fresh pending request to `approver` for the revision.
pub open spec fn is_pending_approval(a: Approval, revision_id: i64, approver: String) -> bool {
    &&& a.revision_id == revision_id
    &&& a.approver == approver
    &&& a.status == ApprovalStatus::Pending
    &&& a.approval_id is None
    &&& a.date is None
    &&& a.comments is None
}

/// The pending approvals, one per approver in order, that a revision sent for review needs.
pub fn pending_approvals(revision_id: i64, approvers: Vec<String>) -> (r: Vec<Approval>)
    ensures
        r@.len() == approvers@.len(),
        forall|i: int| 0 <= i < r@.len() ==> is_pending_approval(#[trigger] r@[i], revision_id, approvers@[i]),
{
    let mut r: Vec<Approval> = Vec::new();
    for i in 0..approvers.len()
        invariant
            r@.len() == i,
            forall|k: int| 0 <= k < i ==> is_pending_approval(#[trigger] r@[k], revision_id, approvers@[k]),
    {
        let name = approvers[i].clone();
        let a = Approval::new(revision_id, name, ApprovalStatus::Pending, None);
        r.push(a);
    }
    r
}

/// The branch on which the first draft of a part is worked on.
pub fn draft_branch_name(display_part_number: &str) -> (r: String)
    ensures
        r@ == "part/"@ + display_part_number@ + "/draft"@,
{
    let mut r = owned("part/");
    push_str(&mut r, display_part_number);
    push_str(&mut r, "/draft");
    r
}

/// The branch on which a part is reviewed.
pub fn review_branch_name(display_part_number: &str) -> (r: String)
    ensures
        r@ == "part/"@ + display_part_number@ + "/review"@,
{
    let mut r = owned("part/");
    push_str(&mut r, display_part_number);
    push_str(&mut r, "/review");
    r
}

/// The branch on which a later version of a part is drafted.
pub fn version_branch_name(display_part_number: &str, version: &str) -> (r: String)
    ensures
        r@ == "part/"@ + display_part_number@ + "/v"@ + version@ + "/draft"@,
{
    let mut r = owned("part/");
    push_str(&mut r, display_part_number);
    push_str(&mut r, "/v");
    push_str(&mut r, version);
    push_str(&mut r, "/draft");
    r
}

/// A step between two statuses that the lifecycle allows: submitting a draft, keeping a
/// revision under review, rejecting it back to draft, releasing it, retiring a released one, or
/// staying where it is.
pub open spec fn lifecycle_edge(from: RevisionStatus, to: RevisionStatus) -> bool {
    ||| from == to
    ||| (from == RevisionStatus::Draft && to == RevisionStatus::InReview)
    ||| (from == RevisionStatus::InReview && to == RevisionStatus::Draft)
    ||| (from == RevisionStatus::InReview && to == RevisionStatus::Released)
    ||| (from == RevisionStatus::Released && to == RevisionStatus::Obsolete)
}

/// Every operation that succeeds moves a revision along the lifecycle: draft to review, review
/// back to draft or on to released, released to obsolete, or not at all.
pub proof fn law_transitions_follow_lifecycle(
    role: UserRole,
    username: Seq<char>,
    author: Seq<char>,
    status: RevisionStatus,
    action: LifecycleAction,
    approved: bool,
)
    ensures
        lifecycle_outcome(role, username, author, status, action, approved) matches Ok(s) ==> lifecycle_edge(status, s),
{
}

/// An obsolete revision stays obsolete: the only operation that succeeds on it records a
/// commit and leaves the status as it is.
pub proof fn law_obsolete_is_final(
    role: UserRole,
    username: Seq<char>,
    author: Seq<char>,
    action: LifecycleAction,
    approved: bool,
)
    ensures
        lifecycle_outcome(role, username, author, RevisionStatus::Obsolete, action, approved) matches Ok(s)
            ==> s == RevisionStatus::Obsolete && action == LifecycleAction::UpdateCommitHash,
{
}

/// A viewer can change nothing.
pub proof fn law_viewer_changes_nothing(
    username: Seq<char>,
    author: Seq<char>,
    status: RevisionStatus,
    action: LifecycleAction,
    approved: bool,
)
    ensures
        lifecycle_outcome(UserRole::Viewer, username, author, status, action, approved)
            == Err::<RevisionStatus, Refusal>(Refusal::PermissionDenied),
{
}

/// A designer cannot approve, reject, release or retire a revision of their own, and cannot
/// submit or update a revision of someone else.
pub proof fn law_designer_duties(
    username: Seq<char>,
    author: Seq<char>,
    status: RevisionStatus,
    action: LifecycleAction,
    approved: bool,
)
    ensures
        (username == author) != needs_edit_right(action) ==> lifecycle_outcome(
            UserRole::Designer,
            username,
            author,
            status,
            action,
            approved,
        ) == Err::<RevisionStatus, Refusal>(Refusal::PermissionDenied),
{
}

/// Only a designer who is not the author, or an administrator, can approve a revision that the
/// same person could submit: one designer never both submits and approves the same revision.
pub proof fn law_separation_of_duties(
    role: UserRole,
    username: Seq<char>,
    author: Seq<char>,
    approved: bool,
)
    ensures
        lifecycle_outcome(role, username, author, RevisionStatus::Draft, LifecycleAction::SubmitForReview, approved) is Ok
            && lifecycle_outcome(role, username, author, RevisionStatus::InReview, LifecycleAction::Approve, approved) is Ok
            ==> role == UserRole::Admin,
{
}

/// A revision is released only when it is fully approved, and only from review.
pub proof fn law_release_needs_approval(
    role: UserRole,
    username: Seq<char>,
    author: Seq<char>,
    status: RevisionStatus,
    action: LifecycleAction,
    approved: bool,
)
    ensures
        lifecycle_outcome(role, username, author, status, action, approved) == Ok::<RevisionStatus, Refusal>(RevisionStatus::Released)
            && status != RevisionStatus::Released ==> action == LifecycleAction::Release && approved && status == RevisionStatus::InReview,
{
}

/// Each operation that succeeds leaves the revision where it leads: a submission puts it under
/// review, a rejection sends it back to draft, a release releases it and a retirement makes
/// it obsolete, so each of these changes the status; an approval and the recording of a
/// commit leave the status as it was.
pub proof fn law_each_operation_reaches_its_status(
    role: UserRole,
    username: Seq<char>,
    author: Seq<char>,
    status: RevisionStatus,
    action: LifecycleAction,
    approved: bool,
)
    ensures
        lifecycle_outcome(role, username, author, status, action, approved) matches Ok(s) ==> {
            &&& action == LifecycleAction::SubmitForReview ==> s == RevisionStatus::InReview
            &&& action == LifecycleAction::Reject ==> s == RevisionStatus::Draft
            &&& action == LifecycleAction::Release ==> s == RevisionStatus::Released
            &&& action == LifecycleAction::MarkObsolete ==> s == RevisionStatus::Obsolete
            &&& (action == LifecycleAction::Approve || action == LifecycleAction::UpdateCommitHash) ==> s == status
            &&& (action != LifecycleAction::Approve && action != LifecycleAction::UpdateCommitHash) ==> s != status
        },
{
}

} // verus!
