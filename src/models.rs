use vstd::prelude::*;

verus! {

/// The query of a listing or a download: a path relative to the root.
#[derive(Debug, Clone)]
pub struct ListQuery {
    pub path: String,
}

/// A point in time as seconds and nanoseconds since the Unix epoch.
#[derive(Debug, Clone, Copy, PartialEq, Eq, Structural)]
pub struct Timestamp {
    pub secs: i64,
    pub nanos: u32,
}

/// One entry of a directory listing. Size and time of last change are given
/// for regular files only.
#[derive(Debug, Clone)]
pub struct FileEntry {
    pub name: String,
    pub entry_type: EntryType,
    pub size: Option<u64>,
    pub modified: Option<Timestamp>,
}

/// A directory listing: the path as the client gave it, and its entries.
#[derive(Debug, Clone)]
pub struct ListResponse {
    pub path: String,
    pub entries: Vec<FileEntry>,
}

/// Whether a listed entry is a file or a directory.
#[derive(Debug, Clone, Copy, PartialEq, Eq, Structural)]
pub enum EntryType {
    File,
    Directory,
}

/// The query of an upload: the destination directory, and whether an
/// existing file may be replaced.
#[derive(Debug, Clone)]
pub struct UploadQuery {
    pub path: String,
    pub overwrite: bool,
}

/// A request to move or rename.
#[derive(Debug, Clone)]
pub struct MoveRequest {
    pub from: String,
    pub to: String,
    pub overwrite: bool,
}

/// A request to create a directory.
#[derive(Debug, Clone)]
pub struct MkdirRequest {
    pub path: String,
}

/// A request to delete a file or a directory.
#[derive(Debug, Clone)]
pub struct DeleteRequest {
    pub path: String,
    pub recursive: bool,
}

/// The body of a successful answer that carries nothing else.
#[derive(Debug, Clone)]
pub struct StatusResponse {
    pub status: &'static str,
}

impl StatusResponse {
    pub fn ok() -> (r: Self)
        ensures
            r.status@ == "ok"@,
    {
        StatusResponse { status: "ok" }
    }
}

} // verus!
