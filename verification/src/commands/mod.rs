//! The records as the user interface exchanges them: what it is shown of parts, revisions,
//! approvals, files and the rest, and what it sends to create or change them.

pub mod approval;
pub mod manufacturer_part;
pub mod repository;
pub mod part;
pub mod property;
pub mod relationship;
pub mod revision;
pub mod workflow;
pub mod file;
