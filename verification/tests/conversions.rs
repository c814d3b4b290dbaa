use implexa::database::approval::ApprovalStatus;
use implexa::database::file::FileType;
use implexa::database::manufacturer_part::ManufacturerPartStatus;
use implexa::database::property::PropertyType;
use implexa::database::relationship::RelationshipType;
use implexa::database::revision::RevisionStatus;

#[test]
fn test_approval_status_conversion() {
    assert_eq!(ApprovalStatus::from_str("Pending"), Some(ApprovalStatus::Pending));
    assert_eq!(ApprovalStatus::from_str("Approved"), Some(ApprovalStatus::Approved));
    assert_eq!(ApprovalStatus::from_str("Rejected"), Some(ApprovalStatus::Rejected));
    assert_eq!(ApprovalStatus::from_str("Invalid"), None);

    assert_eq!(ApprovalStatus::Pending.to_str(), "Pending");
    assert_eq!(ApprovalStatus::Approved.to_str(), "Approved");
    assert_eq!(ApprovalStatus::Rejected.to_str(), "Rejected");
}

#[test]
fn test_file_type_conversion() {
    assert_eq!(FileType::from_str("Design").to_str(), "Design");
    assert_eq!(FileType::from_str("Documentation").to_str(), "Documentation");
    assert_eq!(FileType::from_str("Manufacturing").to_str(), "Manufacturing");
    assert_eq!(FileType::from_str("Test").to_str(), "Test");
    assert_eq!(FileType::from_str("Image").to_str(), "Image");
    assert_eq!(FileType::from_str("Model3D").to_str(), "Model3D");
    assert_eq!(FileType::from_str("SourceCode").to_str(), "SourceCode");
    assert_eq!(FileType::from_str("Custom").to_str(), "Custom");
}

#[test]
fn test_manufacturer_part_status_conversion() {
    assert_eq!(ManufacturerPartStatus::from_str("Active"), Some(ManufacturerPartStatus::Active));
    assert_eq!(ManufacturerPartStatus::from_str("Preferred"), Some(ManufacturerPartStatus::Preferred));
    assert_eq!(ManufacturerPartStatus::from_str("Alternate"), Some(ManufacturerPartStatus::Alternate));
    assert_eq!(ManufacturerPartStatus::from_str("Obsolete"), Some(ManufacturerPartStatus::Obsolete));
    assert_eq!(ManufacturerPartStatus::from_str("Invalid"), None);

    assert_eq!(ManufacturerPartStatus::Active.to_str(), "Active");
    assert_eq!(ManufacturerPartStatus::Preferred.to_str(), "Preferred");
    assert_eq!(ManufacturerPartStatus::Alternate.to_str(), "Alternate");
    assert_eq!(ManufacturerPartStatus::Obsolete.to_str(), "Obsolete");
}

#[test]
fn test_property_type_conversion() {
    assert_eq!(PropertyType::from_str("string"), Some(PropertyType::String));
    assert_eq!(PropertyType::from_str("integer"), Some(PropertyType::Integer));
    assert_eq!(PropertyType::from_str("float"), Some(PropertyType::Float));
    assert_eq!(PropertyType::from_str("boolean"), Some(PropertyType::Boolean));
    assert_eq!(PropertyType::from_str("date"), Some(PropertyType::Date));
    assert_eq!(PropertyType::from_str("url"), Some(PropertyType::Url));
    assert_eq!(PropertyType::from_str("json"), Some(PropertyType::Json));
    assert_eq!(PropertyType::from_str("invalid"), None);

    assert_eq!(PropertyType::String.to_str(), "string");
    assert_eq!(PropertyType::Integer.to_str(), "integer");
    assert_eq!(PropertyType::Float.to_str(), "float");
    assert_eq!(PropertyType::Boolean.to_str(), "boolean");
    assert_eq!(PropertyType::Date.to_str(), "date");
    assert_eq!(PropertyType::Url.to_str(), "url");
    assert_eq!(PropertyType::Json.to_str(), "json");
}

#[test]
fn test_relationship_type_conversion() {
    assert_eq!(RelationshipType::from_str("Assembly").to_str(), "Assembly");
    assert_eq!(RelationshipType::from_str("Reference").to_str(), "Reference");
    assert_eq!(RelationshipType::from_str("Variant").to_str(), "Variant");
    assert_eq!(RelationshipType::from_str("Alternate").to_str(), "Alternate");
    assert_eq!(RelationshipType::from_str("Custom").to_str(), "Custom");
}

#[test]
fn test_revision_status_conversion() {
    assert_eq!(RevisionStatus::from_str("Draft"), Some(RevisionStatus::Draft));
    assert_eq!(RevisionStatus::from_str("In Review"), Some(RevisionStatus::InReview));
    assert_eq!(RevisionStatus::from_str("Released"), Some(RevisionStatus::Released));
    assert_eq!(RevisionStatus::from_str("Obsolete"), Some(RevisionStatus::Obsolete));
    assert_eq!(RevisionStatus::from_str("Invalid"), None);

    assert_eq!(RevisionStatus::Draft.to_str(), "Draft");
    assert_eq!(RevisionStatus::InReview.to_str(), "In Review");
    assert_eq!(RevisionStatus::Released.to_str(), "Released");
    assert_eq!(RevisionStatus::Obsolete.to_str(), "Obsolete");
}

#[test]
fn custom_types_keep_their_names() {
    assert_eq!(FileType::from_str("Datasheet"), FileType::Other("Datasheet".to_string()));
    assert_eq!(RelationshipType::from_str("Kit"), RelationshipType::Custom("Kit".to_string()));
    assert_eq!(RelationshipType::Custom("Kit".to_string()).to_str(), "Kit");
}
