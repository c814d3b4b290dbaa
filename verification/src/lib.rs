//! Implexa: a hardware-focused product lifecycle and product data management library.
//!
//! It manages parts, their revisions and the approvals that move a revision through its
//! lifecycle, the categories that part numbers are built from, and the Git repository layout,
//! hooks, conflict handling and credentials that keep design files under version control.

pub mod text;
pub mod clock;
pub mod paths;
pub mod database;
pub mod git_backend;
pub mod workspace;
pub mod commands;
