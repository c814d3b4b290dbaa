use implexa::workspace::{WorkspaceState, WorkspaceCreationData, WorkspaceUpdateData, init_workspace_state};

fn data(name: &str) -> WorkspaceCreationData {
    WorkspaceCreationData { name: name.to_string(), description: format!("{} description", name) }
}

#[test]
fn workspaces_are_numbered_from_one() {
    let mut state = init_workspace_state();
    let a = state.create_workspace_at(data("A"), "t0".to_string());
    let b = state.create_workspace_at(data("B"), "t1".to_string());
    assert_eq!(a.id, "ws-1");
    assert_eq!(b.id, "ws-2");
    assert_eq!(a.created_at, "t0");
    assert_eq!(a.updated_at, "t0");
    assert!(a.parts.is_empty());
    let all = state.get_workspaces();
    assert_eq!(all.len(), 2);
    assert_eq!(all[1].name, "B");
}

#[test]
fn a_created_workspace_is_found() {
    let mut state = WorkspaceState::new();
    let w = state.create_workspace(data("Main")).unwrap();
    let got = state.get_workspace(&w.id).unwrap();
    assert_eq!(got.name, "Main");
    assert_eq!(got.description, "Main description");
    assert_eq!(got.created_at, got.updated_at);
    assert!(got.created_at.ends_with("+00:00"));
    assert!(state.add_part_to_workspace(&w.id, 3).is_ok());
    assert_eq!(state.add_part_to_workspace(&w.id, 3).unwrap_err(), format!("Part 3 is already in workspace {}", w.id));
    assert!(state.remove_part_from_workspace(&w.id, 3).is_ok());
    assert_eq!(state.remove_part_from_workspace(&w.id, 3).unwrap_err(), format!("Part 3 not found in workspace {}", w.id));
}

#[test]
fn missing_workspaces_are_reported() {
    let mut state = WorkspaceState::new();
    assert_eq!(state.get_workspace("ws-9").unwrap_err(), "Workspace not found: ws-9");
    assert_eq!(state.delete_workspace("ws-9").unwrap_err(), "Workspace not found: ws-9");
    assert_eq!(state.add_part_to_workspace("ws-9", 1).unwrap_err(), "Workspace not found: ws-9");
}

#[test]
fn updates_change_only_what_is_given() {
    let mut state = WorkspaceState::new();
    state.create_workspace_at(data("A"), "t0".to_string());
    let u = state
        .update_workspace_at("ws-1", WorkspaceUpdateData { name: Some("Renamed".to_string()), description: None }, "t5".to_string())
        .unwrap();
    assert_eq!(u.name, "Renamed");
    assert_eq!(u.description, "A description");
    assert_eq!(u.created_at, "t0");
    assert_eq!(u.updated_at, "t5");
    assert_eq!(state.get_workspace("ws-1").unwrap().name, "Renamed");
}

#[test]
fn deleted_workspaces_are_gone() {
    let mut state = WorkspaceState::new();
    state.create_workspace_at(data("A"), "t".to_string());
    state.create_workspace_at(data("B"), "t".to_string());
    assert!(state.delete_workspace("ws-1").is_ok());
    assert!(state.get_workspace("ws-1").is_err());
    assert_eq!(state.get_workspace("ws-2").unwrap().name, "B");
    let c = state.create_workspace_at(data("C"), "t".to_string());
    assert_eq!(c.id, "ws-3");
}

#[test]
fn parts_are_listed_once() {
    let mut state = WorkspaceState::new();
    state.create_workspace_at(data("A"), "t0".to_string());
    assert!(state.add_part_to_workspace_at("ws-1", 5, "t1".to_string()).is_ok());
    assert_eq!(
        state.add_part_to_workspace_at("ws-1", 5, "t2".to_string()).unwrap_err(),
        "Part 5 is already in workspace ws-1"
    );
    let w = state.get_workspace("ws-1").unwrap();
    assert_eq!(w.parts.len(), 1);
    assert_eq!(w.parts[0].part_number, "PART-5");
    assert_eq!(w.parts[0].name, "Part 5");
    assert_eq!(w.parts[0].status, "Draft");
    assert_eq!(w.updated_at, "t1");
}

#[test]
fn adding_then_removing_a_part_restores_the_list() {
    let mut state = WorkspaceState::new();
    state.create_workspace_at(data("A"), "t0".to_string());
    state.add_part_to_workspace_at("ws-1", 1, "t1".to_string()).unwrap();
    state.add_part_to_workspace_at("ws-1", -2, "t2".to_string()).unwrap();
    assert_eq!(state.get_workspace("ws-1").unwrap().parts[1].part_number, "PART--2");
    state.remove_part_from_workspace_at("ws-1", -2, "t3".to_string()).unwrap();
    let w = state.get_workspace("ws-1").unwrap();
    assert_eq!(w.parts.len(), 1);
    assert_eq!(w.parts[0].id, 1);
    assert_eq!(
        state.remove_part_from_workspace("ws-1", 7).unwrap_err(),
        "Part 7 not found in workspace ws-1"
    );
}

#[test]
fn identifiers_are_handed_out_in_turn() {
    let mut state = WorkspaceState::new();
    assert_eq!(state.get_next_id(), "ws-1");
    assert_eq!(state.get_next_id(), "ws-2");
    assert_eq!(state.next_number(), 3);
    assert!(state.get_workspaces().is_empty());
}
