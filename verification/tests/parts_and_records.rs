use implexa::database::part::Part;
use implexa::clock::instant_rfc3339;
use implexa::database::revision::next_version_among;
use implexa::database::approval::decision_date;
use implexa::database::approval::{Approval, ApprovalStatus, is_revision_approved};
use implexa::database::revision::{Revision, RevisionStatus, next_version, parse_command_revision_status};
use implexa::database::schema::{id_for_update, DatabaseError, default_categories, default_electronic_subcategories};
use implexa::database::workflow::{default_part_workflow, default_part_workflow_states, default_part_workflow_transitions};
use implexa::database::part_management::{User, UserRole, LifecycleAction, lifecycle_transition, PartManagementError, check_create_part};
use implexa::commands::approval::{ApprovalDto, date_text_of, parse_command_approval_status};
use implexa::commands::part::{PartDto, part_from_data, PartCreateDto};
use implexa::commands::property::{property_from_data, PropertyCreationData};
use implexa::commands::relationship::{relationship_from_data, RelationshipCreationData, RelationshipDto};
use implexa::commands::repository::{RepositoryDto, hex_of, init_git_backend};
use implexa::commands::manufacturer_part::{manufacturer_part_from_data, ManufacturerPartCreationData, ManufacturerPartDto};
use implexa::commands::file::{file_from_data, FileCreationData, FileDto};
use implexa::commands::workflow::WorkflowDto;
use implexa::git_backend::RepositoryInfo;
use implexa::clock::Timestamp;

#[test]
fn test_display_part_number_generation() {
    let display_number = Part::generate_display_part_number(
        Some("EL".to_string()),
        Some("RES".to_string()),
        "Electronic",
        "Resistor",
        10001,
    );
    assert_eq!(display_number, "EL-RES-10001");

    let display_number = Part::generate_display_part_number(None, None, "Custom Category", "Custom Subcategory", 10042);
    assert_eq!(display_number, "CU-CUS-10042");
}

#[test]
fn part_numbers_for_the_user_interface() {
    let part = Part::new(7, "Electronic".to_string(), "resistor".to_string(), "R".to_string(), None);
    let dto = PartDto::from(part);
    assert_eq!(dto.part_number, "EL-RES-7");
    assert_eq!(dto.status, "Draft");
    let p = part_from_data(3, PartCreateDto {
        name: "Cap".to_string(),
        description: None,
        category: "Electronic".to_string(),
        subcategory: "Capacitor".to_string(),
    });
    assert_eq!(p.part_id, 3);
    assert_eq!(p.display_part_number(None, Some("CAP".to_string())), "EL-CAP-3");
}

#[test]
fn default_categories_are_listed() {
    let c = default_categories();
    assert_eq!(c.len(), 5);
    assert_eq!(c[0], ("Electronic", "EL", "Electronic components and PCBAs"));
    let s = default_electronic_subcategories();
    assert_eq!(s[3], ("Resistor", "RES", "Resistors"));
}

#[test]
fn records_need_an_id_to_be_updated() {
    assert_eq!(id_for_update(Some(4), "Workflow").ok(), Some(4));
    match id_for_update(None, "Workflow") {
        Err(e) => assert_eq!(e.to_string(), "Failed to initialize database: Workflow ID is required for update"),
        Ok(_) => panic!("an unstored record was accepted"),
    }
    assert_eq!(DatabaseError::Sqlite("busy".to_string()).to_string(), "SQLite error: busy");
}

#[test]
fn versions_count_up() {
    assert_eq!(next_version(None), "1");
    assert_eq!(next_version(Some("3".to_string())), "4");
    assert_eq!(next_version(Some("+9".to_string())), "10");
    assert_eq!(next_version(Some("v2".to_string())), "1");
}

#[test]
fn the_default_part_workflow() {
    let w = default_part_workflow();
    assert_eq!(w.name, "Part Workflow");
    assert!(w.active);
    let states = default_part_workflow_states(9);
    let names: Vec<&str> = states.iter().map(|s| s.name.as_str()).collect();
    assert_eq!(names, vec!["Draft", "In Review", "Released", "Obsolete"]);
    assert!(states[0].is_initial && states[3].is_terminal);
    let t = default_part_workflow_transitions(9, 1, 2, 3, 4);
    assert_eq!(t.len(), 5);
    assert_eq!(t[0].name, "Submit for Review");
    assert_eq!((t[0].from_state_id, t[0].to_state_id), (1, 2));
    assert_eq!((t[2].from_state_id, t[2].to_state_id), (2, 1));
    assert_eq!((t[4].name.as_str(), t[4].from_state_id, t[4].to_state_id), ("Revise", 3, 1));
    assert!(t[1].requires_approval && !t[4].requires_approval);
}

fn revision(status: RevisionStatus, author: &str) -> Revision {
    Revision::new(1, "1".to_string(), status, author.to_string(), None)
}

#[test]
fn lifecycle_decisions() {
    let alice = User::new("alice".to_string(), UserRole::Designer);
    let bob = User::new("bob".to_string(), UserRole::Designer);
    let viewer = User::new("val".to_string(), UserRole::Viewer);
    let draft = revision(RevisionStatus::Draft, "alice");
    let review = revision(RevisionStatus::InReview, "alice");
    assert_eq!(lifecycle_transition(&alice, &draft, LifecycleAction::SubmitForReview, false).unwrap(), RevisionStatus::InReview);
    match lifecycle_transition(&alice, &review, LifecycleAction::Approve, true) {
        Err(PartManagementError::PermissionDenied(m)) => assert_eq!(m, "User does not have permission to approve this revision"),
        _ => panic!("an author approved their own revision"),
    }
    match lifecycle_transition(&bob, &review, LifecycleAction::Release, false) {
        Err(PartManagementError::ApprovalRequired(m)) => assert_eq!(m, "Revision must be fully approved before release"),
        _ => panic!("an unapproved revision was released"),
    }
    assert_eq!(lifecycle_transition(&bob, &review, LifecycleAction::Release, true).unwrap(), RevisionStatus::Released);
    match lifecycle_transition(&bob, &draft, LifecycleAction::Reject, true) {
        Err(PartManagementError::InvalidStateTransition(m)) => assert_eq!(m, "Cannot reject revision: current status is Draft"),
        _ => panic!("a draft was rejected"),
    }
    assert!(check_create_part(&viewer).is_err());
    assert!(check_create_part(&alice).is_ok());
}

#[test]
fn approvals_gate_release() {
    let approved = Approval::new(1, "bob".to_string(), ApprovalStatus::Approved, None);
    let pending = Approval::new(1, "carol".to_string(), ApprovalStatus::Pending, None);
    assert!(approved.date.is_some());
    assert!(pending.date.is_none());
    assert!(!is_revision_approved(&vec![]));
    assert!(is_revision_approved(&vec![approved.clone()]));
    assert!(!is_revision_approved(&vec![approved, pending]));
}

#[test]
fn approvals_for_the_user_interface() {
    let mut a = Approval::new(3, "bob".to_string(), ApprovalStatus::Approved, Some("ok".to_string()));
    a.approval_id = Some(11);
    a.date = Some(Timestamp { since_epoch: Some((1, 500_999_999)) });
    let dto = ApprovalDto::from(a);
    assert_eq!(dto.approval_id, 11);
    assert_eq!(dto.status, "Approved");
    assert_eq!(dto.date, Some("1970-01-01T00:00:01.500+00:00".to_string()));
    assert_eq!(date_text_of(None), "Invalid date");
    assert_eq!(date_text_of(Some((0, 0))), "1970-01-01T00:00:00+00:00");
    let mut before = Approval::new(3, "bob".to_string(), ApprovalStatus::Rejected, None);
    before.date = Some(Timestamp { since_epoch: None });
    assert_eq!(ApprovalDto::from(before).date, Some("Invalid date".to_string()));
    assert_eq!(parse_command_approval_status("Rejected").unwrap(), ApprovalStatus::Rejected);
    assert_eq!(parse_command_approval_status("Maybe").unwrap_err(), "Invalid approval status: Maybe");
    assert_eq!(parse_command_revision_status("InReview").unwrap(), RevisionStatus::InReview);
    assert_eq!(parse_command_revision_status("In Review").unwrap_err(), "Invalid revision status: In Review");
}

#[test]
fn commands_check_their_data() {
    let p = PropertyCreationData {
        part_id: None,
        revision_id: None,
        key: "k".to_string(),
        value: None,
        property_type: "string".to_string(),
    };
    assert_eq!(property_from_data(p.clone()).unwrap_err(), "Either part_id or revision_id must be provided");
    let bad = PropertyCreationData { part_id: Some(1), property_type: "number".to_string(), ..p.clone() };
    assert_eq!(property_from_data(bad).unwrap_err(), "Invalid property type: number");
    let ok = property_from_data(PropertyCreationData { revision_id: Some(4), ..p }).unwrap();
    assert_eq!(ok.revision_id, Some(4));
    let r = RelationshipCreationData {
        parent_id: 1,
        child_id: 2,
        relationship_type: "Variant".to_string(),
        quantity: 3,
        unit: None,
        description: None,
    };
    assert_eq!(relationship_from_data(None, r.clone()).unwrap_err(), "Invalid relationship type: Variant");
    let rel = relationship_from_data(Some(8), RelationshipCreationData { relationship_type: "Assembly".to_string(), ..r }).unwrap();
    let dto = RelationshipDto::from(rel);
    assert_eq!((dto.relationship_id, dto.parent_id, dto.child_id, dto.quantity), (8, 1, 2, 3));
    assert_eq!(dto.relationship_type, "Assembly");
    let m = ManufacturerPartCreationData {
        part_id: 1,
        manufacturer: "Yageo".to_string(),
        mpn: "RC0603".to_string(),
        description: None,
        status: "Preferred".to_string(),
    };
    let mpn = manufacturer_part_from_data(m.clone()).unwrap();
    assert_eq!(ManufacturerPartDto::from(mpn).status, "Preferred");
    assert_eq!(
        manufacturer_part_from_data(ManufacturerPartCreationData { status: "Gone".to_string(), ..m }).unwrap_err(),
        "Invalid manufacturer part status: Gone"
    );
    let f = FileCreationData {
        part_id: None,
        revision_id: Some(2),
        path: "design/a.kicad_sch".to_string(),
        file_type: "Datasheet".to_string(),
        description: None,
    };
    let dto = FileDto::from(file_from_data(f).unwrap());
    assert_eq!(dto.file_id, 0);
    assert_eq!(dto.file_type, "Datasheet");
    let w = WorkflowDto::from(default_part_workflow());
    assert!(!w.is_default && w.is_active);
}

#[test]
fn repositories_are_identified_by_their_path() {
    let info = RepositoryInfo {
        path: "/tmp/repo".to_string(),
        current_branch: "main".to_string(),
        has_changes: false,
        lfs_enabled: true,
    };
    let dto = RepositoryDto::from(info);
    assert_eq!(dto.id, "9e9b22f1cb0d873507139f227aa7d4e2");
    assert_eq!(dto.name, "repo");
    assert_eq!(hex_of(&vec![0, 15, 255]), "000fff");
    let root = RepositoryDto::from(RepositoryInfo {
        path: "/".to_string(),
        current_branch: "main".to_string(),
        has_changes: false,
        lfs_enabled: false,
    });
    assert_eq!(root.name, "Unknown");
    let _state = init_git_backend();
}

#[test]
fn the_backend_starts_with_the_default_configuration() {
    let state = init_git_backend();
    let manager = state.manager.into_inner().unwrap();
    assert_eq!(manager.config().default_branch, "main");
    assert!(manager.config().lfs_enabled);
    assert_eq!(manager.config().git_executable, "git");
}

#[test]
fn revision_status_is_shown_by_its_command_name() {
    let r = Revision::new(1, "1".to_string(), RevisionStatus::InReview, "u".to_string(), None);
    let d = implexa::commands::revision::RevisionDto::from(r);
    assert_eq!(d.status, "InReview");
    assert_eq!(d.revision_id, 0);
    assert_eq!(d.version, "1");
    assert_eq!(d.created_by, "u");
    assert_eq!(parse_command_revision_status(d.status.as_str()).unwrap(), RevisionStatus::InReview);
}

#[test]
fn instants_are_written_as_rfc3339() {
    assert_eq!(instant_rfc3339(0, 0).unwrap(), "1970-01-01T00:00:00+00:00");
    assert_eq!(instant_rfc3339(1, 500_000_000).unwrap(), "1970-01-01T00:00:01.500+00:00");
    assert_eq!(instant_rfc3339(u64::MAX, 0).unwrap_err(), "System time out of range");
}

#[test]
fn the_next_version_follows_the_largest_number() {
    let v = |xs: &[&str]| xs.iter().map(|x| x.to_string()).collect::<Vec<String>>();
    assert_eq!(next_version_among(&v(&["9", "10"])), "11");
    assert_eq!(next_version_among(&v(&["2", "x", "7"])), "8");
    assert_eq!(next_version_among(&v(&["abc"])), "1");
    assert_eq!(next_version_among(&v(&[])), "1");
}

#[test]
fn only_decisions_are_dated() {
    assert!(decision_date(ApprovalStatus::Pending).is_none());
    assert!(decision_date(ApprovalStatus::Approved).is_some());
    assert!(decision_date(ApprovalStatus::Rejected).is_some());
}
