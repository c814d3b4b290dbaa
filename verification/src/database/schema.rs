//! The metadata database: its errors and the categories it starts with.

use vstd::prelude::*;
use crate::text::{owned, push_str};

verus! {

/// Errors of the metadata database.
#[derive(Debug, Clone)]
pub enum DatabaseError {
    /// An error reported by SQLite, by its message.
    Sqlite(String),
    /// The database could not be initialized.
    InitializationError(String),
    /// The schema version is not the expected one.
    SchemaVersionError(String),
    /// A migration failed.
    MigrationError(String),
    /// An error of the Git backend, by its message.
    GitBackend(String),
}

/// The message of a database error.
pub open spec fn database_error_text(e: DatabaseError) -> Seq<char> {
    match e {
        DatabaseError::Sqlite(m) => "SQLite error: "@ + m@,
        DatabaseError::InitializationError(m) => "Failed to initialize database: "@ + m@,
        DatabaseError::SchemaVersionError(m) => "Schema version error: "@ + m@,
        DatabaseError::MigrationError(m) => "Migration error: "@ + m@,
        DatabaseError::GitBackend(m) => "Git backend error: "@ + m@,
    }
}

impl DatabaseError {
    /// The message of this error.
    pub fn to_string(&self) -> (r: String)
        ensures
            r@ == database_error_text(*self),
    {
        let (prefix, m) = match self {
            DatabaseError::Sqlite(m) => ("SQLite error: ", m),
            DatabaseError::InitializationError(m) => ("Failed to initialize database: ", m),
            DatabaseError::SchemaVersionError(m) => ("Schema version error: ", m),
            DatabaseError::MigrationError(m) => ("Migration error: ", m),
            DatabaseError::GitBackend(m) => ("Git backend error: ", m),
        };
        let mut r = owned(prefix);
        push_str(&mut r, m.as_str());
        r
    }
}

/// A category or subcategory that a new database starts with: name, code, description.
pub type DefaultEntry = (&'static str, &'static str, &'static str);

/// The categories that a new database starts with, in the order they are inserted.
pub open spec fn default_categories_spec() -> Seq<(Seq<char>, Seq<char>, Seq<char>)> {
    seq![
        ("Electronic"@, "EL"@, "Electronic components and PCBAs"@),
        ("Mechanical"@, "ME"@, "Mechanical parts and assemblies"@),
        ("Assembly"@, "AS"@, "Product-level assemblies"@),
        ("Software"@, "SW"@, "Software components"@),
        ("Documentation"@, "DO"@, "Documentation"@),
    ]
}

/// The subcategories of the electronic category that a new database starts with.
pub open spec fn default_electronic_subcategories_spec() -> Seq<(Seq<char>, Seq<char>, Seq<char>)> {
    seq![
        ("Schematic Symbol"@, "SYM"@, "Schematic symbols"@),
        ("Footprint"@, "FPR"@, "PCB footprints"@),
        ("3D Model"@, "3DM"@, "3D models"@),
        ("Resistor"@, "RES"@, "Resistors"@),
        ("Capacitor"@, "CAP"@, "Capacitors"@),
        ("Inductor"@, "IND"@, "Inductors"@),
        ("Integrated Circuit"@, "ICT"@, "Integrated circuits"@),
        ("Diode"@, "DIO"@, "Diodes"@),
        ("Transistor"@, "FET"@, "Transistors and FETs"@),
        ("Connector"@, "CON"@, "Connectors"@),
        ("PCB"@, "PCB"@, "Printed circuit boards"@),
        ("PCBA"@, "PCA"@, "Printed circuit assemblies"@),
    ]
}

/// The views of a list of default entries.
pub open spec fn entry_views(v: Seq<DefaultEntry>) -> Seq<(Seq<char>, Seq<char>, Seq<char>)> {
    v.map_values(|e: DefaultEntry| (e.0@, e.1@, e.2@))
}

/// The categories that a new database starts with.
pub fn default_categories() -> (r: Vec<DefaultEntry>)
    ensures
        entry_views(r@) == default_categories_spec(),
{
    let r = vec![
        ("Electronic", "EL", "Electronic components and PCBAs"),
        ("Mechanical", "ME", "Mechanical parts and assemblies"),
        ("Assembly", "AS", "Product-level assemblies"),
        ("Software", "SW", "Software components"),
        ("Documentation", "DO", "Documentation"),
    ];
    assert(entry_views(r@) =~= default_categories_spec());
    r
}

/// The subcategories of the electronic category that a new database starts with.
pub fn default_electronic_subcategories() -> (r: Vec<DefaultEntry>)
    ensures
        entry_views(r@) == default_electronic_subcategories_spec(),
{
    let r = vec![
        ("Schematic Symbol", "SYM", "Schematic symbols"),
        ("Footprint", "FPR", "PCB footprints"),
        ("3D Model", "3DM", "3D models"),
        ("Resistor", "RES", "Resistors"),
        ("Capacitor", "CAP", "Capacitors"),
        ("Inductor", "IND", "Inductors"),
        ("Integrated Circuit", "ICT", "Integrated circuits"),
        ("Diode", "DIO", "Diodes"),
        ("Transistor", "FET", "Transistors and FETs"),
        ("Connector", "CON", "Connectors"),
        ("PCB", "PCB", "Printed circuit boards"),
        ("PCBA", "PCA", "Printed circuit assemblies"),
    ];
    assert(entry_views(r@) =~= default_electronic_subcategories_spec());
    r
}

/// What updating a record whose identifier may be missing gives: its identifier, or the
/// error that names the kind of record (`what`) when the record was never stored.
pub open spec fn id_for_update_result(id: Option<i64>, what: Seq<char>) -> Result<i64, Seq<char>> {
    match id {
        Some(i) => Ok(i),
        None => Err(what + " ID is required for update"@),
    }
}

/// The identifier of a record that is to be updated; a record that was never stored has
/// none, and updating it is refused.
pub fn id_for_update(id: Option<i64>, what: &str) -> (r: Result<i64, DatabaseError>)
    ensures
        match (r, id_for_update_result(id, what@)) {
            (Ok(i), Ok(j)) => i == j,
            (Err(DatabaseError::InitializationError(m)), Err(t)) => m@ == t,
            _ => false,
        },
{
    match id {
        Some(i) => Ok(i),
        None => {
            let mut m = owned(what);
            push_str(&mut m, " ID is required for update");
            Err(DatabaseError::InitializationError(m))
        },
    }
}

/// The version of the schema that a new database is given.
pub const SCHEMA_VERSION: i64 = 1;


/// One step of setting up the schema of a new database.
#[derive(Debug, Clone, Copy)]
pub enum SchemaStep {
    /// Run an SQL statement.
    Execute(&'static str),
    /// Insert the default categories (`default_categories`) with `INSERT_CATEGORY_SQL`.
    InsertDefaultCategories,
    /// Insert the default subcategories of the electronic category
    /// (`default_electronic_subcategories`) with `INSERT_SUBCATEGORY_SQL`, under the identifier
    /// that `SELECT_ELECTRONIC_SQL` finds.
    InsertElectronicSubcategories,
}

/// The text of a schema step.
pub enum SchemaStepView {
    /// Run the statement with this text.
    Execute(Seq<char>),
    /// Insert the default categories.
    InsertDefaultCategories,
    /// Insert the default subcategories of the electronic category.
    InsertElectronicSubcategories,
}

/// The text of a schema step.
pub open spec fn schema_step_view(s: SchemaStep) -> SchemaStepView {
    match s {
        SchemaStep::Execute(sql) => SchemaStepView::Execute(sql@),
        SchemaStep::InsertDefaultCategories => SchemaStepView::InsertDefaultCategories,
        SchemaStep::InsertElectronicSubcategories => SchemaStepView::InsertElectronicSubcategories,
    }
}

/// Inserts one default category: name, code and description.
pub const INSERT_CATEGORY_SQL: &'static str = "INSERT OR IGNORE INTO Categories (name, code, description) VALUES (?1, ?2, ?3)";

/// Finds the identifier of the electronic category.
pub const SELECT_ELECTRONIC_SQL: &'static str = "SELECT category_id FROM Categories WHERE code = 'EL'";

/// Inserts one default subcategory: category identifier, name, code and description.
pub const INSERT_SUBCATEGORY_SQL: &'static str = "INSERT OR IGNORE INTO Subcategories (category_id, name, code, description) VALUES (?1, ?2, ?3, ?4)";

/// Finds the version of the schema.
pub const SCHEMA_VERSION_SQL: &'static str = "SELECT MAX(version) FROM SchemaVersion";

/// The steps that set up the schema of a new database, in the order they run in one
/// transaction: the tables and their indexes, the default categories and subcategories, and
/// the record of the schema version. Every statement leaves what exists alone.
pub open spec fn schema_plan_spec() -> Seq<SchemaStepView> {
    seq![
        SchemaStepView::Execute("CREATE TABLE IF NOT EXISTS SchemaVersion (
                version INTEGER PRIMARY KEY,
                applied_date TIMESTAMP NOT NULL DEFAULT CURRENT_TIMESTAMP,
                description TEXT
            )"@),
        SchemaStepView::Execute("CREATE TABLE IF NOT EXISTS Parts (
                part_id INTEGER PRIMARY KEY,
                category TEXT NOT NULL,
                subcategory TEXT NOT NULL,
                name TEXT NOT NULL,
                description TEXT,
                created_date TIMESTAMP NOT NULL DEFAULT CURRENT_TIMESTAMP,
                modified_date TIMESTAMP NOT NULL DEFAULT CURRENT_TIMESTAMP,
                UNIQUE(category, subcategory, name)
            )"@),
        SchemaStepView::Execute("CREATE INDEX IF NOT EXISTS idx_parts_category ON Parts(category)"@),
        SchemaStepView::Execute("CREATE INDEX IF NOT EXISTS idx_parts_subcategory ON Parts(subcategory)"@),
        SchemaStepView::Execute("CREATE INDEX IF NOT EXISTS idx_parts_name ON Parts(name)"@),
        SchemaStepView::Execute("CREATE TABLE IF NOT EXISTS PartSequence (
                id INTEGER PRIMARY KEY CHECK (id = 1), -- Only one row allowed
                next_value INTEGER NOT NULL DEFAULT 10000
            )"@),
        SchemaStepView::Execute("INSERT OR IGNORE INTO PartSequence (id, next_value) VALUES (1, 10000)"@),
        SchemaStepView::Execute("CREATE TABLE IF NOT EXISTS Categories (
                category_id INTEGER PRIMARY KEY AUTOINCREMENT,
                name TEXT NOT NULL,
                code TEXT NOT NULL,
                description TEXT,
                UNIQUE(name),
                UNIQUE(code)
            )"@),
        SchemaStepView::Execute("CREATE TABLE IF NOT EXISTS Subcategories (
                subcategory_id INTEGER PRIMARY KEY AUTOINCREMENT,
                category_id INTEGER NOT NULL,
                name TEXT NOT NULL,
                code TEXT NOT NULL,
                description TEXT,
                FOREIGN KEY (category_id) REFERENCES Categories(category_id) ON DELETE CASCADE,
                UNIQUE(category_id, name),
                UNIQUE(category_id, code)
            )"@),
        SchemaStepView::Execute("CREATE INDEX IF NOT EXISTS idx_categories_code ON Categories(code)"@),
        SchemaStepView::Execute("CREATE INDEX IF NOT EXISTS idx_subcategories_code ON Subcategories(code)"@),
        SchemaStepView::Execute("CREATE INDEX IF NOT EXISTS idx_subcategories_category_id ON Subcategories(category_id)"@),
        SchemaStepView::InsertDefaultCategories,
        SchemaStepView::InsertElectronicSubcategories,
        SchemaStepView::Execute("CREATE TABLE IF NOT EXISTS Revisions (
                revision_id INTEGER PRIMARY KEY AUTOINCREMENT,
                part_id INTEGER NOT NULL,
                version TEXT NOT NULL,
                status TEXT NOT NULL CHECK(status IN ('Draft', 'In Review', 'Released', 'Obsolete')),
                created_date TIMESTAMP NOT NULL DEFAULT CURRENT_TIMESTAMP,
                created_by TEXT NOT NULL,
                commit_hash TEXT,
                FOREIGN KEY (part_id) REFERENCES Parts(part_id) ON DELETE CASCADE,
                UNIQUE(part_id, version)
            )"@),
        SchemaStepView::Execute("CREATE INDEX IF NOT EXISTS idx_revisions_part_id ON Revisions(part_id)"@),
        SchemaStepView::Execute("CREATE INDEX IF NOT EXISTS idx_revisions_status ON Revisions(status)"@),
        SchemaStepView::Execute("CREATE INDEX IF NOT EXISTS idx_revisions_commit_hash ON Revisions(commit_hash)"@),
        SchemaStepView::Execute("CREATE TABLE IF NOT EXISTS Relationships (
                relationship_id INTEGER PRIMARY KEY AUTOINCREMENT,
                parent_part_id INTEGER NOT NULL,
                child_part_id INTEGER NOT NULL,
                type TEXT NOT NULL,
                quantity INTEGER NOT NULL DEFAULT 1,
                FOREIGN KEY (parent_part_id) REFERENCES Parts(part_id) ON DELETE CASCADE,
                FOREIGN KEY (child_part_id) REFERENCES Parts(part_id) ON DELETE CASCADE,
                UNIQUE(parent_part_id, child_part_id, type)
            )"@),
        SchemaStepView::Execute("CREATE INDEX IF NOT EXISTS idx_relationships_parent ON Relationships(parent_part_id)"@),
        SchemaStepView::Execute("CREATE INDEX IF NOT EXISTS idx_relationships_child ON Relationships(child_part_id)"@),
        SchemaStepView::Execute("CREATE INDEX IF NOT EXISTS idx_relationships_type ON Relationships(type)"@),
        SchemaStepView::Execute("CREATE TABLE IF NOT EXISTS Properties (
                property_id INTEGER PRIMARY KEY AUTOINCREMENT,
                part_id INTEGER,
                revision_id INTEGER,
                key TEXT NOT NULL,
                value TEXT,
                type TEXT NOT NULL DEFAULT 'string',
                FOREIGN KEY (part_id) REFERENCES Parts(part_id) ON DELETE CASCADE,
                FOREIGN KEY (revision_id) REFERENCES Revisions(revision_id) ON DELETE CASCADE,
                CHECK ((part_id IS NOT NULL AND revision_id IS NULL) OR (part_id IS NULL AND revision_id IS NOT NULL)),
                UNIQUE(part_id, revision_id, key)
            )"@),
        SchemaStepView::Execute("CREATE INDEX IF NOT EXISTS idx_properties_part_id ON Properties(part_id)"@),
        SchemaStepView::Execute("CREATE INDEX IF NOT EXISTS idx_properties_revision_id ON Properties(revision_id)"@),
        SchemaStepView::Execute("CREATE INDEX IF NOT EXISTS idx_properties_key ON Properties(key)"@),
        SchemaStepView::Execute("CREATE TABLE IF NOT EXISTS ManufacturerParts (
                mpn_id INTEGER PRIMARY KEY AUTOINCREMENT,
                part_id INTEGER NOT NULL,
                manufacturer TEXT NOT NULL,
                mpn TEXT NOT NULL,
                description TEXT,
                status TEXT NOT NULL DEFAULT 'Active' CHECK(status IN ('Active', 'Preferred', 'Alternate', 'Obsolete')),
                FOREIGN KEY (part_id) REFERENCES Parts(part_id) ON DELETE CASCADE,
                UNIQUE(manufacturer, mpn)
            )"@),
        SchemaStepView::Execute("CREATE INDEX IF NOT EXISTS idx_mpn_part_id ON ManufacturerParts(part_id)"@),
        SchemaStepView::Execute("CREATE INDEX IF NOT EXISTS idx_mpn_manufacturer ON ManufacturerParts(manufacturer)"@),
        SchemaStepView::Execute("CREATE INDEX IF NOT EXISTS idx_mpn_mpn ON ManufacturerParts(mpn)"@),
        SchemaStepView::Execute("CREATE INDEX IF NOT EXISTS idx_mpn_status ON ManufacturerParts(status)"@),
        SchemaStepView::Execute("CREATE TABLE IF NOT EXISTS Approvals (
                approval_id INTEGER PRIMARY KEY AUTOINCREMENT,
                revision_id INTEGER NOT NULL,
                approver TEXT NOT NULL,
                status TEXT NOT NULL CHECK(status IN ('Pending', 'Approved', 'Rejected')),
                date TIMESTAMP,
                comments TEXT,
                FOREIGN KEY (revision_id) REFERENCES Revisions(revision_id) ON DELETE CASCADE,
                UNIQUE(revision_id, approver)
            )"@),
        SchemaStepView::Execute("CREATE INDEX IF NOT EXISTS idx_approvals_revision_id ON Approvals(revision_id)"@),
        SchemaStepView::Execute("CREATE INDEX IF NOT EXISTS idx_approvals_approver ON Approvals(approver)"@),
        SchemaStepView::Execute("CREATE INDEX IF NOT EXISTS idx_approvals_status ON Approvals(status)"@),
        SchemaStepView::Execute("CREATE TABLE IF NOT EXISTS Files (
                file_id INTEGER PRIMARY KEY AUTOINCREMENT,
                part_id INTEGER,
                revision_id INTEGER,
                path TEXT NOT NULL,
                type TEXT NOT NULL,
                description TEXT,
                FOREIGN KEY (part_id) REFERENCES Parts(part_id) ON DELETE CASCADE,
                FOREIGN KEY (revision_id) REFERENCES Revisions(revision_id) ON DELETE CASCADE,
                CHECK ((part_id IS NOT NULL AND revision_id IS NULL) OR (part_id IS NULL AND revision_id IS NOT NULL))
            )"@),
        SchemaStepView::Execute("CREATE INDEX IF NOT EXISTS idx_files_part_id ON Files(part_id)"@),
        SchemaStepView::Execute("CREATE INDEX IF NOT EXISTS idx_files_revision_id ON Files(revision_id)"@),
        SchemaStepView::Execute("CREATE INDEX IF NOT EXISTS idx_files_type ON Files(type)"@),
        SchemaStepView::Execute("CREATE TABLE IF NOT EXISTS Workflows (
                workflow_id INTEGER PRIMARY KEY AUTOINCREMENT,
                name TEXT NOT NULL,
                description TEXT,
                active BOOLEAN NOT NULL DEFAULT 1,
                UNIQUE(name)
            )"@),
        SchemaStepView::Execute("CREATE TABLE IF NOT EXISTS WorkflowStates (
                state_id INTEGER PRIMARY KEY AUTOINCREMENT,
                workflow_id INTEGER NOT NULL,
                name TEXT NOT NULL,
                description TEXT,
                is_initial BOOLEAN NOT NULL DEFAULT 0,
                is_terminal BOOLEAN NOT NULL DEFAULT 0,
                FOREIGN KEY (workflow_id) REFERENCES Workflows(workflow_id) ON DELETE CASCADE,
                UNIQUE(workflow_id, name)
            )"@),
        SchemaStepView::Execute("CREATE INDEX IF NOT EXISTS idx_workflow_states_workflow_id ON WorkflowStates(workflow_id)"@),
        SchemaStepView::Execute("CREATE TABLE IF NOT EXISTS WorkflowTransitions (
                transition_id INTEGER PRIMARY KEY AUTOINCREMENT,
                workflow_id INTEGER NOT NULL,
                from_state_id INTEGER NOT NULL,
                to_state_id INTEGER NOT NULL,
                name TEXT NOT NULL,
                description TEXT,
                requires_approval BOOLEAN NOT NULL DEFAULT 0,
                FOREIGN KEY (workflow_id) REFERENCES Workflows(workflow_id) ON DELETE CASCADE,
                FOREIGN KEY (from_state_id) REFERENCES WorkflowStates(state_id) ON DELETE CASCADE,
                FOREIGN KEY (to_state_id) REFERENCES WorkflowStates(state_id) ON DELETE CASCADE,
                UNIQUE(workflow_id, from_state_id, to_state_id)
            )"@),
        SchemaStepView::Execute("CREATE INDEX IF NOT EXISTS idx_workflow_transitions_workflow_id ON WorkflowTransitions(workflow_id)"@),
        SchemaStepView::Execute("CREATE INDEX IF NOT EXISTS idx_workflow_transitions_from_state_id ON WorkflowTransitions(from_state_id)"@),
        SchemaStepView::Execute("CREATE INDEX IF NOT EXISTS idx_workflow_transitions_to_state_id ON WorkflowTransitions(to_state_id)"@),
        SchemaStepView::Execute("INSERT OR IGNORE INTO SchemaVersion (version, description) VALUES (1, 'Initial schema creation')"@),
    ]
}

/// The steps that set up the schema of a new database, in order.
pub fn schema_plan() -> (r: Vec<SchemaStep>)
    ensures
        r@.map_values(|s: SchemaStep| schema_step_view(s)) == schema_plan_spec(),
{
    let r = vec![
        SchemaStep::Execute("CREATE TABLE IF NOT EXISTS SchemaVersion (
                version INTEGER PRIMARY KEY,
                applied_date TIMESTAMP NOT NULL DEFAULT CURRENT_TIMESTAMP,
                description TEXT
            )"),
        SchemaStep::Execute("CREATE TABLE IF NOT EXISTS Parts (
                part_id INTEGER PRIMARY KEY,
                category TEXT NOT NULL,
                subcategory TEXT NOT NULL,
                name TEXT NOT NULL,
                description TEXT,
                created_date TIMESTAMP NOT NULL DEFAULT CURRENT_TIMESTAMP,
                modified_date TIMESTAMP NOT NULL DEFAULT CURRENT_TIMESTAMP,
                UNIQUE(category, subcategory, name)
            )"),
        SchemaStep::Execute("CREATE INDEX IF NOT EXISTS idx_parts_category ON Parts(category)"),
        SchemaStep::Execute("CREATE INDEX IF NOT EXISTS idx_parts_subcategory ON Parts(subcategory)"),
        SchemaStep::Execute("CREATE INDEX IF NOT EXISTS idx_parts_name ON Parts(name)"),
        SchemaStep::Execute("CREATE TABLE IF NOT EXISTS PartSequence (
                id INTEGER PRIMARY KEY CHECK (id = 1), -- Only one row allowed
                next_value INTEGER NOT NULL DEFAULT 10000
            )"),
        SchemaStep::Execute("INSERT OR IGNORE INTO PartSequence (id, next_value) VALUES (1, 10000)"),
        SchemaStep::Execute("CREATE TABLE IF NOT EXISTS Categories (
                category_id INTEGER PRIMARY KEY AUTOINCREMENT,
                name TEXT NOT NULL,
                code TEXT NOT NULL,
                description TEXT,
                UNIQUE(name),
                UNIQUE(code)
            )"),
        SchemaStep::Execute("CREATE TABLE IF NOT EXISTS Subcategories (
                subcategory_id INTEGER PRIMARY KEY AUTOINCREMENT,
                category_id INTEGER NOT NULL,
                name TEXT NOT NULL,
                code TEXT NOT NULL,
                description TEXT,
                FOREIGN KEY (category_id) REFERENCES Categories(category_id) ON DELETE CASCADE,
                UNIQUE(category_id, name),
                UNIQUE(category_id, code)
            )"),
        SchemaStep::Execute("CREATE INDEX IF NOT EXISTS idx_categories_code ON Categories(code)"),
        SchemaStep::Execute("CREATE INDEX IF NOT EXISTS idx_subcategories_code ON Subcategories(code)"),
        SchemaStep::Execute("CREATE INDEX IF NOT EXISTS idx_subcategories_category_id ON Subcategories(category_id)"),
        SchemaStep::InsertDefaultCategories,
        SchemaStep::InsertElectronicSubcategories,
        SchemaStep::Execute("CREATE TABLE IF NOT EXISTS Revisions (
                revision_id INTEGER PRIMARY KEY AUTOINCREMENT,
                part_id INTEGER NOT NULL,
                version TEXT NOT NULL,
                status TEXT NOT NULL CHECK(status IN ('Draft', 'In Review', 'Released', 'Obsolete')),
                created_date TIMESTAMP NOT NULL DEFAULT CURRENT_TIMESTAMP,
                created_by TEXT NOT NULL,
                commit_hash TEXT,
                FOREIGN KEY (part_id) REFERENCES Parts(part_id) ON DELETE CASCADE,
                UNIQUE(part_id, version)
            )"),
        SchemaStep::Execute("CREATE INDEX IF NOT EXISTS idx_revisions_part_id ON Revisions(part_id)"),
        SchemaStep::Execute("CREATE INDEX IF NOT EXISTS idx_revisions_status ON Revisions(status)"),
        SchemaStep::Execute("CREATE INDEX IF NOT EXISTS idx_revisions_commit_hash ON Revisions(commit_hash)"),
        SchemaStep::Execute("CREATE TABLE IF NOT EXISTS Relationships (
                relationship_id INTEGER PRIMARY KEY AUTOINCREMENT,
                parent_part_id INTEGER NOT NULL,
                child_part_id INTEGER NOT NULL,
                type TEXT NOT NULL,
                quantity INTEGER NOT NULL DEFAULT 1,
                FOREIGN KEY (parent_part_id) REFERENCES Parts(part_id) ON DELETE CASCADE,
                FOREIGN KEY (child_part_id) REFERENCES Parts(part_id) ON DELETE CASCADE,
                UNIQUE(parent_part_id, child_part_id, type)
            )"),
        SchemaStep::Execute("CREATE INDEX IF NOT EXISTS idx_relationships_parent ON Relationships(parent_part_id)"),
        SchemaStep::Execute("CREATE INDEX IF NOT EXISTS idx_relationships_child ON Relationships(child_part_id)"),
        SchemaStep::Execute("CREATE INDEX IF NOT EXISTS idx_relationships_type ON Relationships(type)"),
        SchemaStep::Execute("CREATE TABLE IF NOT EXISTS Properties (
                property_id INTEGER PRIMARY KEY AUTOINCREMENT,
                part_id INTEGER,
                revision_id INTEGER,
                key TEXT NOT NULL,
                value TEXT,
                type TEXT NOT NULL DEFAULT 'string',
                FOREIGN KEY (part_id) REFERENCES Parts(part_id) ON DELETE CASCADE,
                FOREIGN KEY (revision_id) REFERENCES Revisions(revision_id) ON DELETE CASCADE,
                CHECK ((part_id IS NOT NULL AND revision_id IS NULL) OR (part_id IS NULL AND revision_id IS NOT NULL)),
                UNIQUE(part_id, revision_id, key)
            )"),
        SchemaStep::Execute("CREATE INDEX IF NOT EXISTS idx_properties_part_id ON Properties(part_id)"),
        SchemaStep::Execute("CREATE INDEX IF NOT EXISTS idx_properties_revision_id ON Properties(revision_id)"),
        SchemaStep::Execute("CREATE INDEX IF NOT EXISTS idx_properties_key ON Properties(key)"),
        SchemaStep::Execute("CREATE TABLE IF NOT EXISTS ManufacturerParts (
                mpn_id INTEGER PRIMARY KEY AUTOINCREMENT,
                part_id INTEGER NOT NULL,
                manufacturer TEXT NOT NULL,
                mpn TEXT NOT NULL,
                description TEXT,
                status TEXT NOT NULL DEFAULT 'Active' CHECK(status IN ('Active', 'Preferred', 'Alternate', 'Obsolete')),
                FOREIGN KEY (part_id) REFERENCES Parts(part_id) ON DELETE CASCADE,
                UNIQUE(manufacturer, mpn)
            )"),
        SchemaStep::Execute("CREATE INDEX IF NOT EXISTS idx_mpn_part_id ON ManufacturerParts(part_id)"),
        SchemaStep::Execute("CREATE INDEX IF NOT EXISTS idx_mpn_manufacturer ON ManufacturerParts(manufacturer)"),
        SchemaStep::Execute("CREATE INDEX IF NOT EXISTS idx_mpn_mpn ON ManufacturerParts(mpn)"),
        SchemaStep::Execute("CREATE INDEX IF NOT EXISTS idx_mpn_status ON ManufacturerParts(status)"),
        SchemaStep::Execute("CREATE TABLE IF NOT EXISTS Approvals (
                approval_id INTEGER PRIMARY KEY AUTOINCREMENT,
                revision_id INTEGER NOT NULL,
                approver TEXT NOT NULL,
                status TEXT NOT NULL CHECK(status IN ('Pending', 'Approved', 'Rejected')),
                date TIMESTAMP,
                comments TEXT,
                FOREIGN KEY (revision_id) REFERENCES Revisions(revision_id) ON DELETE CASCADE,
                UNIQUE(revision_id, approver)
            )"),
        SchemaStep::Execute("CREATE INDEX IF NOT EXISTS idx_approvals_revision_id ON Approvals(revision_id)"),
        SchemaStep::Execute("CREATE INDEX IF NOT EXISTS idx_approvals_approver ON Approvals(approver)"),
        SchemaStep::Execute("CREATE INDEX IF NOT EXISTS idx_approvals_status ON Approvals(status)"),
        SchemaStep::Execute("CREATE TABLE IF NOT EXISTS Files (
                file_id INTEGER PRIMARY KEY AUTOINCREMENT,
                part_id INTEGER,
                revision_id INTEGER,
                path TEXT NOT NULL,
                type TEXT NOT NULL,
                description TEXT,
                FOREIGN KEY (part_id) REFERENCES Parts(part_id) ON DELETE CASCADE,
                FOREIGN KEY (revision_id) REFERENCES Revisions(revision_id) ON DELETE CASCADE,
                CHECK ((part_id IS NOT NULL AND revision_id IS NULL) OR (part_id IS NULL AND revision_id IS NOT NULL))
            )"),
        SchemaStep::Execute("CREATE INDEX IF NOT EXISTS idx_files_part_id ON Files(part_id)"),
        SchemaStep::Execute("CREATE INDEX IF NOT EXISTS idx_files_revision_id ON Files(revision_id)"),
        SchemaStep::Execute("CREATE INDEX IF NOT EXISTS idx_files_type ON Files(type)"),
        SchemaStep::Execute("CREATE TABLE IF NOT EXISTS Workflows (
                workflow_id INTEGER PRIMARY KEY AUTOINCREMENT,
                name TEXT NOT NULL,
                description TEXT,
                active BOOLEAN NOT NULL DEFAULT 1,
                UNIQUE(name)
            )"),
        SchemaStep::Execute("CREATE TABLE IF NOT EXISTS WorkflowStates (
                state_id INTEGER PRIMARY KEY AUTOINCREMENT,
                workflow_id INTEGER NOT NULL,
                name TEXT NOT NULL,
                description TEXT,
                is_initial BOOLEAN NOT NULL DEFAULT 0,
                is_terminal BOOLEAN NOT NULL DEFAULT 0,
                FOREIGN KEY (workflow_id) REFERENCES Workflows(workflow_id) ON DELETE CASCADE,
                UNIQUE(workflow_id, name)
            )"),
        SchemaStep::Execute("CREATE INDEX IF NOT EXISTS idx_workflow_states_workflow_id ON WorkflowStates(workflow_id)"),
        SchemaStep::Execute("CREATE TABLE IF NOT EXISTS WorkflowTransitions (
                transition_id INTEGER PRIMARY KEY AUTOINCREMENT,
                workflow_id INTEGER NOT NULL,
                from_state_id INTEGER NOT NULL,
                to_state_id INTEGER NOT NULL,
                name TEXT NOT NULL,
                description TEXT,
                requires_approval BOOLEAN NOT NULL DEFAULT 0,
                FOREIGN KEY (workflow_id) REFERENCES Workflows(workflow_id) ON DELETE CASCADE,
                FOREIGN KEY (from_state_id) REFERENCES WorkflowStates(state_id) ON DELETE CASCADE,
                FOREIGN KEY (to_state_id) REFERENCES WorkflowStates(state_id) ON DELETE CASCADE,
                UNIQUE(workflow_id, from_state_id, to_state_id)
            )"),
        SchemaStep::Execute("CREATE INDEX IF NOT EXISTS idx_workflow_transitions_workflow_id ON WorkflowTransitions(workflow_id)"),
        SchemaStep::Execute("CREATE INDEX IF NOT EXISTS idx_workflow_transitions_from_state_id ON WorkflowTransitions(from_state_id)"),
        SchemaStep::Execute("CREATE INDEX IF NOT EXISTS idx_workflow_transitions_to_state_id ON WorkflowTransitions(to_state_id)"),
        SchemaStep::Execute("INSERT OR IGNORE INTO SchemaVersion (version, description) VALUES (1, 'Initial schema creation')"),
    ];
    assert(r@.map_values(|s: SchemaStep| schema_step_view(s)) =~= schema_plan_spec());
    r
}

} // verus!
