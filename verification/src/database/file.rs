//! Files associated with parts and revisions.

use vstd::prelude::*;
use crate::text::{str_eq, owned};

verus! {

/// Type of a file.
#[derive(Debug, Clone, PartialEq, Eq)]
pub enum FileType {
    /// A design file, such as a CAD file.
    Design,
    /// Documentation, such as a datasheet.
    Documentation,
    /// A manufacturing file, such as a Gerber file or a bill of materials.
    Manufacturing,
    /// A test procedure or results.
    Test,
    /// An image.
    Image,
    /// A 3D model.
    Model3D,
    /// Source code.
    SourceCode,
    /// Any other type, by name.
    Other(String),
}

/// The text under which a file type is stored.
pub open spec fn file_type_text(t: FileType) -> Seq<char> {
    match t {
        FileType::Design => "Design"@,
        FileType::Documentation => "Documentation"@,
        FileType::Manufacturing => "Manufacturing"@,
        FileType::Test => "Test"@,
        FileType::Image => "Image"@,
        FileType::Model3D => "Model3D"@,
        FileType::SourceCode => "SourceCode"@,
        FileType::Other(s) => s@,
    }
}

/// The text names one of the predefined file types.
pub open spec fn names_predefined_file_type(t: Seq<char>) -> bool {
    t == "Design"@ || t == "Documentation"@ || t == "Manufacturing"@ || t == "Test"@ || t == "Image"@
        || t == "Model3D"@ || t == "SourceCode"@
}

impl FileType {
    /// Reads a stored file type: a predefined type when the text names one, and a type of that
    /// name otherwise.
    pub fn from_str(type_str: &str) -> (r: FileType)
        ensures
            file_type_text(r) == type_str@,
            r is Other <==> !names_predefined_file_type(type_str@),
    {
        if str_eq(type_str, "Design") {
            FileType::Design
        } else if str_eq(type_str, "Documentation") {
            FileType::Documentation
        } else if str_eq(type_str, "Manufacturing") {
            FileType::Manufacturing
        } else if str_eq(type_str, "Test") {
            FileType::Test
        } else if str_eq(type_str, "Image") {
            FileType::Image
        } else if str_eq(type_str, "Model3D") {
            FileType::Model3D
        } else if str_eq(type_str, "SourceCode") {
            FileType::SourceCode
        } else {
            FileType::Other(owned(type_str))
        }
    }

    /// The text under which this type is stored.
    pub fn to_str(&self) -> (r: String)
        ensures
            r@ == file_type_text(*self),
    {
        match self {
            FileType::Design => owned("Design"),
            FileType::Documentation => owned("Documentation"),
            FileType::Manufacturing => owned("Manufacturing"),
            FileType::Test => owned("Test"),
            FileType::Image => owned("Image"),
            FileType::Model3D => owned("Model3D"),
            FileType::SourceCode => owned("SourceCode"),
            FileType::Other(s) => s.clone(),
        }
    }
}

/// A file associated with a part or a revision.
#[derive(Debug, Clone)]
pub struct File {
    /// Unique identifier for the file.
    pub file_id: Option<i64>,
    /// Part the file belongs to, if any.
    pub part_id: Option<i64>,
    /// Revision the file belongs to, if any.
    pub revision_id: Option<i64>,
    /// Path of the file.
    pub path: String,
    /// Type of the file.
    pub file_type: FileType,
    /// Description of the file.
    pub description: Option<String>,
}

impl File {
    /// Creates a file of a part, not stored yet.
    pub fn new_part_file(part_id: i64, path: String, file_type: FileType, description: Option<String>) -> (r: File)
        ensures
            r.file_id is None,
            r.part_id == Some(part_id),
            r.revision_id is None,
            r.path == path,
            r.file_type == file_type,
            r.description == description,
    {
        File { file_id: None, part_id: Some(part_id), revision_id: None, path, file_type, description }
    }

    /// Creates a file of a revision, not stored yet.
    pub fn new_revision_file(revision_id: i64, path: String, file_type: FileType, description: Option<String>) -> (r: File)
        ensures
            r.file_id is None,
            r.part_id is None,
            r.revision_id == Some(revision_id),
            r.path == path,
            r.file_type == file_type,
            r.description == description,
    {
        File { file_id: None, part_id: None, revision_id: Some(revision_id), path, file_type, description }
    }
}

} // verus!
