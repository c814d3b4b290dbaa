//! Files of parts and revisions as the user interface sees them.

use vstd::prelude::*;
use crate::text::owned;
use crate::database::file::{File, FileType, file_type_text};

verus! {

/// A file as the user interface shows it.
#[derive(Debug, Clone)]
pub struct FileDto {
    /// File ID.
    pub file_id: i64,
    /// Part it belongs to, if any.
    pub part_id: Option<i64>,
    /// Revision it belongs to, if any.
    pub revision_id: Option<i64>,
    /// Path.
    pub path: String,
    /// Type, by name.
    pub file_type: String,
    /// Description.
    pub description: Option<String>,
}

/// What the user interface sends to create or change a file.
#[derive(Debug, Clone)]
pub struct FileCreationData {
    /// Part it belongs to, if any.
    pub part_id: Option<i64>,
    /// Revision it belongs to, if any.
    pub revision_id: Option<i64>,
    /// Path.
    pub path: String,
    /// Type, by name.
    pub file_type: String,
    /// Description.
    pub description: Option<String>,
}

impl FileDto {
    /// The file as the user interface shows it: a stored one's ID (zero for one not stored)
    /// and its type by name.
    pub fn from(file: File) -> (r: FileDto)
        ensures
            r.file_id == match file.file_id { Some(i) => i, None => 0 },
            r.part_id == file.part_id,
            r.revision_id == file.revision_id,
            r.path == file.path,
            r.file_type@ == file_type_text(file.file_type),
            r.description == file.description,
    {
        let file_type = file.file_type.to_str();
        FileDto {
            file_id: match file.file_id {
                Some(i) => i,
                None => 0,
            },
            part_id: file.part_id,
            revision_id: file.revision_id,
            path: file.path,
            file_type,
            description: file.description,
        }
    }
}

/// The file that `data` describes, not stored yet: of its part where it names one, else of
/// its revision; refused where it names neither. Any type name is accepted.
pub fn file_from_data(data: FileCreationData) -> (r: Result<File, String>)
    ensures
        match (data.part_id, data.revision_id) {
            (Some(p), _) => r matches Ok(f) && f.file_id is None && f.part_id == Some(p) && f.revision_id is None
                && f.path == data.path && file_type_text(f.file_type) == data.file_type@ && f.description == data.description,
            (None, Some(v)) => r matches Ok(f) && f.file_id is None && f.part_id is None && f.revision_id == Some(v)
                && f.path == data.path && file_type_text(f.file_type) == data.file_type@ && f.description == data.description,
            (None, None) => r matches Err(m) && m@ == "Either part_id or revision_id must be provided"@,
        },
{
    let file_type = FileType::from_str(data.file_type.as_str());
    match data.part_id {
        Some(p) => Ok(File::new_part_file(p, data.path, file_type, data.description)),
        None => match data.revision_id {
            Some(v) => Ok(File::new_revision_file(v, data.path, file_type, data.description)),
            None => Err(owned("Either part_id or revision_id must be provided")),
        },
    }
}

/// A stored file changed as `data` says: its part, revision, path, type and description are
/// replaced.
pub fn updated_file(existing: File, data: FileCreationData) -> (r: File)
    ensures
        r.file_id == existing.file_id,
        r.part_id == data.part_id,
        r.revision_id == data.revision_id,
        r.path == data.path,
        file_type_text(r.file_type) == data.file_type@,
        r.description == data.description,
{
    File {
        file_id: existing.file_id,
        part_id: data.part_id,
        revision_id: data.revision_id,
        path: data.path,
        file_type: FileType::from_str(data.file_type.as_str()),
        description: data.description,
    }
}

} // verus!
