//! Workflows, their states and their transitions as the user interface sees them.

use vstd::prelude::*;
use crate::database::workflow::{Workflow, WorkflowState, WorkflowTransition};

verus! {

/// A workflow as the user interface shows it.
#[derive(Debug, Clone)]
pub struct WorkflowDto {
    /// Workflow ID.
    pub workflow_id: i64,
    /// Name.
    pub name: String,
    /// Description.
    pub description: Option<String>,
    /// Whether it is the default workflow for parts; the database does not record this.
    pub is_default: bool,
    /// Whether it is active.
    pub is_active: bool,
}

/// A state of a workflow as the user interface shows it.
#[derive(Debug, Clone)]
pub struct WorkflowStateDto {
    /// State ID.
    pub state_id: i64,
    /// Workflow it belongs to.
    pub workflow_id: i64,
    /// Name.
    pub name: String,
    /// Description.
    pub description: Option<String>,
    /// Whether items start in it.
    pub is_initial: bool,
    /// Whether no transition leaves it.
    pub is_terminal: bool,
}

/// A transition of a workflow as the user interface shows it.
#[derive(Debug, Clone)]
pub struct WorkflowTransitionDto {
    /// Transition ID.
    pub transition_id: i64,
    /// Workflow it belongs to.
    pub workflow_id: i64,
    /// State it leaves.
    pub from_state_id: i64,
    /// State it enters.
    pub to_state_id: i64,
    /// Name.
    pub name: String,
    /// Description.
    pub description: Option<String>,
    /// Whether it needs an approval.
    pub requires_approval: bool,
}

/// What the user interface sends to create or change a workflow.
#[derive(Debug, Clone)]
pub struct WorkflowCreationData {
    /// Name.
    pub name: String,
    /// Description.
    pub description: Option<String>,
    /// Whether it is to be the default for parts.
    pub is_default: bool,
    /// Whether it is active.
    pub is_active: bool,
}

/// What the user interface sends to create or change a state.
#[derive(Debug, Clone)]
pub struct WorkflowStateCreationData {
    /// Workflow it belongs to.
    pub workflow_id: i64,
    /// Name.
    pub name: String,
    /// Description.
    pub description: Option<String>,
    /// Whether items start in it.
    pub is_initial: bool,
    /// Whether no transition leaves it.
    pub is_terminal: bool,
}

/// What the user interface sends to create or change a transition.
#[derive(Debug, Clone)]
pub struct WorkflowTransitionCreationData {
    /// Workflow it belongs to.
    pub workflow_id: i64,
    /// State it leaves.
    pub from_state_id: i64,
    /// State it enters.
    pub to_state_id: i64,
    /// Name.
    pub name: String,
    /// Description.
    pub description: Option<String>,
    /// Whether it needs an approval.
    pub requires_approval: bool,
}

impl WorkflowDto {
    /// The workflow as the user interface shows it: a stored one's ID (zero for one not
    /// stored), never marked as the default.
    pub fn from(workflow: Workflow) -> (r: WorkflowDto)
        ensures
            r.workflow_id == match workflow.workflow_id { Some(i) => i, None => 0 },
            r.name == workflow.name,
            r.description == workflow.description,
            !r.is_default,
            r.is_active == workflow.active,
    {
        WorkflowDto {
            workflow_id: match workflow.workflow_id {
                Some(i) => i,
                None => 0,
            },
            name: workflow.name,
            description: workflow.description,
            is_default: false,
            is_active: workflow.active,
        }
    }
}

impl WorkflowStateDto {
    /// The state as the user interface shows it: a stored one's ID (zero for one not stored).
    pub fn from(state: WorkflowState) -> (r: WorkflowStateDto)
        ensures
            r.state_id == match state.state_id { Some(i) => i, None => 0 },
            r.workflow_id == state.workflow_id,
            r.name == state.name,
            r.description == state.description,
            r.is_initial == state.is_initial,
            r.is_terminal == state.is_terminal,
    {
        WorkflowStateDto {
            state_id: match state.state_id {
                Some(i) => i,
                None => 0,
            },
            workflow_id: state.workflow_id,
            name: state.name,
            description: state.description,
            is_initial: state.is_initial,
            is_terminal: state.is_terminal,
        }
    }
}

impl WorkflowTransitionDto {
    /// The transition as the user interface shows it: a stored one's ID (zero for one not
    /// stored).
    pub fn from(transition: WorkflowTransition) -> (r: WorkflowTransitionDto)
        ensures
            r.transition_id == match transition.transition_id { Some(i) => i, None => 0 },
            r.workflow_id == transition.workflow_id,
            r.from_state_id == transition.from_state_id,
            r.to_state_id == transition.to_state_id,
            r.name == transition.name,
            r.description == transition.description,
            r.requires_approval == transition.requires_approval,
    {
        WorkflowTransitionDto {
            transition_id: match transition.transition_id {
                Some(i) => i,
                None => 0,
            },
            workflow_id: transition.workflow_id,
            from_state_id: transition.from_state_id,
            to_state_id: transition.to_state_id,
            name: transition.name,
            description: transition.description,
            requires_approval: transition.requires_approval,
        }
    }
}

/// The workflow that `data` describes, with the given identifier (none for a new one).
pub fn workflow_from_data(workflow_id: Option<i64>, data: WorkflowCreationData) -> (r: Workflow)
    ensures
        r.workflow_id == workflow_id,
        r.name == data.name,
        r.description == data.description,
        r.active == data.is_active,
{
    Workflow { workflow_id, name: data.name, description: data.description, active: data.is_active }
}

/// The state that `data` describes, with the given identifier (none for a new one).
pub fn workflow_state_from_data(state_id: Option<i64>, data: WorkflowStateCreationData) -> (r: WorkflowState)
    ensures
        r.state_id == state_id,
        r.workflow_id == data.workflow_id,
        r.name == data.name,
        r.description == data.description,
        r.is_initial == data.is_initial,
        r.is_terminal == data.is_terminal,
{
    WorkflowState {
        state_id,
        workflow_id: data.workflow_id,
        name: data.name,
        description: data.description,
        is_initial: data.is_initial,
        is_terminal: data.is_terminal,
    }
}

/// The transition that `data` describes, with the given identifier (none for a new one).
pub fn workflow_transition_from_data(transition_id: Option<i64>, data: WorkflowTransitionCreationData) -> (r: WorkflowTransition)
    ensures
        r.transition_id == transition_id,
        r.workflow_id == data.workflow_id,
        r.from_state_id == data.from_state_id,
        r.to_state_id == data.to_state_id,
        r.name == data.name,
        r.description == data.description,
        r.requires_approval == data.requires_approval,
{
    WorkflowTransition {
        transition_id,
        workflow_id: data.workflow_id,
        from_state_id: data.from_state_id,
        to_state_id: data.to_state_id,
        name: data.name,
        description: data.description,
        requires_approval: data.requires_approval,
    }
}

} // verus!
