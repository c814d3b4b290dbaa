//! Parts, revisions, relationships, properties, manufacturer parts, approvals, files,
//! workflows and categories: the records kept in the metadata database, and the rules that
//! govern how a part moves through its lifecycle.

pub mod schema;
pub mod approval;
pub mod category;
pub mod file;
pub mod manufacturer_part;
pub mod part;
pub mod property;
pub mod relationship;
pub mod revision;
pub mod part_management;
pub mod workflow;
