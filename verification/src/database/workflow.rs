//! Workflows: named sets of states and of the transitions between them.

use vstd::prelude::*;
use crate::text::owned;

verus! {

/// A workflow.
#[derive(Debug, Clone)]
pub struct Workflow {
    /// Unique identifier for the workflow.
    pub workflow_id: Option<i64>,
    /// Name of the workflow.
    pub name: String,
    /// Description of the workflow.
    pub description: Option<String>,
    /// Whether the workflow is active.
    pub active: bool,
}

impl Workflow {
    /// Creates a workflow that is not stored yet.
    pub fn new(name: String, description: Option<String>, active: bool) -> (r: Workflow)
        ensures
            r.workflow_id is None,
            r.name == name,
            r.description == description,
            r.active == active,
    {
        Workflow { workflow_id: None, name, description, active }
    }
}

/// A state of a workflow.
#[derive(Debug, Clone)]
pub struct WorkflowState {
    /// Unique identifier for the state.
    pub state_id: Option<i64>,
    /// Workflow the state belongs to.
    pub workflow_id: i64,
    /// Name of the state.
    pub name: String,
    /// Description of the state.
    pub description: Option<String>,
    /// Whether a new item starts in this state.
    pub is_initial: bool,
    /// Whether no transition leaves this state.
    pub is_terminal: bool,
}

impl WorkflowState {
    /// Creates a state that is not stored yet.
    pub fn new(
        workflow_id: i64,
        name: String,
        description: Option<String>,
        is_initial: bool,
        is_terminal: bool,
    ) -> (r: WorkflowState)
        ensures
            r.state_id is None,
            r.workflow_id == workflow_id,
            r.name == name,
            r.description == description,
            r.is_initial == is_initial,
            r.is_terminal == is_terminal,
    {
        WorkflowState { state_id: None, workflow_id, name, description, is_initial, is_terminal }
    }
}

/// A transition between two states of a workflow.
#[derive(Debug, Clone)]
pub struct WorkflowTransition {
    /// Unique identifier for the transition.
    pub transition_id: Option<i64>,
    /// Workflow the transition belongs to.
    pub workflow_id: i64,
    /// State the transition leaves.
    pub from_state_id: i64,
    /// State the transition enters.
    pub to_state_id: i64,
    /// Name of the transition.
    pub name: String,
    /// Description of the transition.
    pub description: Option<String>,
    /// Whether the transition needs an approval.
    pub requires_approval: bool,
}

impl WorkflowTransition {
    /// Creates a transition that is not stored yet.
    pub fn new(
        workflow_id: i64,
        from_state_id: i64,
        to_state_id: i64,
        name: String,
        description: Option<String>,
        requires_approval: bool,
    ) -> (r: WorkflowTransition)
        ensures
            r.transition_id is None,
            r.workflow_id == workflow_id,
            r.from_state_id == from_state_id,
            r.to_state_id == to_state_id,
            r.name == name,
            r.description == description,
            r.requires_approval == requires_approval,
    {
        WorkflowTransition {
            transition_id: None,
            workflow_id,
            from_state_id,
            to_state_id,
            name,
            description,
            requires_approval,
        }
    }
}

/// The workflow, by its name, description and whether it is active, that parts follow by
/// default.
pub fn default_part_workflow() -> (r: Workflow)
    ensures
        r.workflow_id is None,
        r.name@ == "Part Workflow"@,
        r.description matches Some(d) && d@ == "Default workflow for parts"@,
        r.active,
{
    Workflow::new(owned("Part Workflow"), Some(owned("Default workflow for parts")), true)
}

/// The states of the default part workflow, as (name, description, initial, terminal),
/// in the order they are stored.
pub open spec fn default_part_states_spec() -> Seq<(Seq<char>, Seq<char>, bool, bool)> {
    seq![
        ("Draft"@, "Initial state for new parts"@, true, false),
        ("In Review"@, "Part is being reviewed"@, false, false),
        ("Released"@, "Part has been approved and released"@, false, false),
        ("Obsolete"@, "Part is no longer active"@, false, true),
    ]
}

/// The view of a state that is not stored yet, as (name, description, initial, terminal).
pub open spec fn state_view(s: WorkflowState) -> (Seq<char>, Seq<char>, bool, bool) {
    (s.name@, match s.description { Some(d) => d@, None => Seq::empty() }, s.is_initial, s.is_terminal)
}

/// The states of the default part workflow, for the workflow `workflow_id`, in the order
/// they are stored: Draft, In Review, Released, Obsolete.
pub fn default_part_workflow_states(workflow_id: i64) -> (r: Vec<WorkflowState>)
    ensures
        r.len() == 4,
        forall|i: int| 0 <= i < 4 ==> {
            &&& (#[trigger] r@[i]).workflow_id == workflow_id
            &&& r@[i].state_id is None
            &&& r@[i].description is Some
            &&& state_view(r@[i]) == default_part_states_spec()[i]
        },
{
    let mut r: Vec<WorkflowState> = Vec::new();
    r.push(WorkflowState::new(workflow_id, owned("Draft"), Some(owned("Initial state for new parts")), true, false));
    r.push(WorkflowState::new(workflow_id, owned("In Review"), Some(owned("Part is being reviewed")), false, false));
    r.push(WorkflowState::new(
        workflow_id,
        owned("Released"),
        Some(owned("Part has been approved and released")),
        false,
        false,
    ));
    r.push(WorkflowState::new(workflow_id, owned("Obsolete"), Some(owned("Part is no longer active")), false, true));
    r
}

/// The transitions of the default part workflow, as (name, description, index of the state
/// left, index of the state entered, approval needed), where a state's index is its place
/// in `default_part_states_spec`.
pub open spec fn default_part_transitions_spec() -> Seq<(Seq<char>, Seq<char>, int, int, bool)> {
    seq![
        ("Submit for Review"@, "Submit the part for review"@, 0, 1, false),
        ("Approve"@, "Approve the part for release"@, 1, 2, true),
        ("Reject"@, "Reject the part and return to draft"@, 1, 0, true),
        ("Obsolete"@, "Mark the part as obsolete"@, 2, 3, true),
        ("Revise"@, "Create a new revision of the part"@, 2, 0, false),
    ]
}

/// Whether a transition that is not stored yet is the one that `default_part_transitions_spec`
/// describes by `t`, given the identifiers that the four states were stored under.
pub open spec fn is_default_transition(
    r: WorkflowTransition,
    workflow_id: i64,
    state_ids: Seq<i64>,
    t: (Seq<char>, Seq<char>, int, int, bool),
) -> bool {
    &&& r.transition_id is None
    &&& r.workflow_id == workflow_id
    &&& r.name@ == t.0
    &&& r.description matches Some(d) && d@ == t.1
    &&& r.from_state_id == state_ids[t.2]
    &&& r.to_state_id == state_ids[t.3]
    &&& r.requires_approval == t.4
}

/// The transitions of the default part workflow, for the workflow `workflow_id` whose states
/// Draft, In Review, Released and Obsolete were stored under the four given identifiers.
pub fn default_part_workflow_transitions(
    workflow_id: i64,
    draft_id: i64,
    in_review_id: i64,
    released_id: i64,
    obsolete_id: i64,
) -> (r: Vec<WorkflowTransition>)
    ensures
        r.len() == 5,
        forall|i: int| 0 <= i < 5 ==> is_default_transition(
            #[trigger] r@[i],
            workflow_id,
            seq![draft_id, in_review_id, released_id, obsolete_id],
            default_part_transitions_spec()[i],
        ),
{
    let mut r: Vec<WorkflowTransition> = Vec::new();
    r.push(WorkflowTransition::new(
        workflow_id,
        draft_id,
        in_review_id,
        owned("Submit for Review"),
        Some(owned("Submit the part for review")),
        false,
    ));
    r.push(WorkflowTransition::new(
        workflow_id,
        in_review_id,
        released_id,
        owned("Approve"),
        Some(owned("Approve the part for release")),
        true,
    ));
    r.push(WorkflowTransition::new(
        workflow_id,
        in_review_id,
        draft_id,
        owned("Reject"),
        Some(owned("Reject the part and return to draft")),
        true,
    ));
    r.push(WorkflowTransition::new(
        workflow_id,
        released_id,
        obsolete_id,
        owned("Obsolete"),
        Some(owned("Mark the part as obsolete")),
        true,
    ));
    r.push(WorkflowTransition::new(
        workflow_id,
        released_id,
        draft_id,
        owned("Revise"),
        Some(owned("Create a new revision of the part")),
        false,
    ));
    let ghost ids = seq![draft_id, in_review_id, released_id, obsolete_id];
    assert(ids[0] == draft_id && ids[1] == in_review_id && ids[2] == released_id && ids[3] == obsolete_id);
    r
}

/// In the default part workflow exactly one state is initial, the first, and no
/// transition leaves a terminal state; every transition joins two of its states.
pub proof fn law_default_workflow_well_formed()
    ensures
        forall|i: int| 0 <= i < 4 ==> (#[trigger] default_part_states_spec()[i].2 <==> i == 0),
        forall|j: int| 0 <= j < 5 ==> {
            let t = #[trigger] default_part_transitions_spec()[j];
            &&& 0 <= t.2 < 4
            &&& 0 <= t.3 < 4
            &&& !default_part_states_spec()[t.2].3
        },
{
    assert(default_part_states_spec().len() == 4);
}

} // verus!
