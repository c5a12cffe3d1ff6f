use vstd::prelude::*;

verus! {

/// The metadata kept for one stored file.
#[derive(Debug, Clone)]
pub struct FileRecord {
    pub id: String,
    pub name: String,
    pub path: String,
    pub size: i64,
    pub content_type: String,
    pub etag: Option<String>,
    pub checksum_sha256: Option<String>,
    pub mode: Option<i64>,
    pub uid: Option<i64>,
    pub gid: Option<i64>,
    pub username: Option<String>,
    pub groupname: Option<String>,
    pub mtime: Option<String>,
    pub ctime: Option<String>,
    pub atime: Option<String>,
    pub device: Option<i64>,
    pub inode: Option<i64>,
    pub nlink: Option<i64>,
    pub created_at: String,
    pub updated_at: String,
    pub deleted_at: Option<String>,
}

/// The POSIX metadata that a client sends along with an upload.
#[derive(Debug, Clone)]
pub struct UploadMetadata {
    pub path: String,
    pub mode: Option<i64>,
    pub uid: Option<i64>,
    pub gid: Option<i64>,
    pub username: Option<String>,
    pub groupname: Option<String>,
    pub mtime: Option<String>,
    pub ctime: Option<String>,
    pub atime: Option<String>,
    pub device: Option<i64>,
    pub inode: Option<i64>,
    pub nlink: Option<i64>,
}

/// Filters of the file listing.
#[derive(Debug)]
pub struct FileFilter {
    pub path: Option<String>,
    pub search: Option<String>,
    pub limit: Option<i64>,
    pub offset: Option<i64>,
}

/// Filters of the event history.
#[derive(Debug)]
pub struct EventHistoryFilter {
    pub event_type: Option<String>,
    pub since: Option<String>,
    pub limit: Option<i64>,
    pub offset: Option<i64>,
}

/// What an event carries besides the id of the file it concerns.
#[derive(Debug, Clone)]
pub enum EventPayload {
    /// The full record of a created or updated file.
    File(FileRecord),
    /// Name and path of a deleted file.
    Removed { name: String, path: String },
}

/// A change to the stored files, as it is broadcast and persisted.
#[derive(Debug, Clone)]
pub enum AppEvent {
    FileCreated { resource_id: String, payload: EventPayload },
    FileUpdated { resource_id: String, payload: EventPayload },
    FileDeleted { resource_id: String, payload: EventPayload },
}

/// A persisted event, as the history lists it; the payload is the JSON text
/// that was stored.
#[derive(Debug, Clone)]
pub struct EventRecord {
    pub id: i64,
    pub event_type: String,
    pub resource_type: String,
    pub resource_id: Option<String>,
    pub payload: String,
    pub created_at: String,
}

/// What a lookup by path and name finds of a file: its id, its checksum and
/// when it was deleted.
pub type ExistingFile = (String, Option<String>, Option<String>);

/// Copies an optional text.
pub fn copy_opt_string(o: &Option<String>) -> (r: Option<String>)
    ensures
        r == *o,
{
    match o {
        Some(s) => Some(s.clone()),
        None => None,
    }
}

impl UploadMetadata {
    /// The metadata used when an upload carries none: an empty path and no
    /// attributes.
    pub open spec fn spec_is_blank(&self) -> bool {
        &&& self.path@ == Seq::<char>::empty()
        &&& self.mode is None
        &&& self.uid is None
        &&& self.gid is None
        &&& self.username is None
        &&& self.groupname is None
        &&& self.mtime is None
        &&& self.ctime is None
        &&& self.atime is None
        &&& self.device is None
        &&& self.inode is None
        &&& self.nlink is None
    }

    /// The metadata used when an upload carries none.
    pub fn blank() -> (m: UploadMetadata)
        ensures
            m.spec_is_blank(),
    {
        UploadMetadata {
            path: String::new(),
            mode: None,
            uid: None,
            gid: None,
            username: None,
            groupname: None,
            mtime: None,
            ctime: None,
            atime: None,
            device: None,
            inode: None,
            nlink: None,
        }
    }
}

impl FileRecord {
    /// A field-by-field copy.
    pub fn duplicate(&self) -> (r: FileRecord)
        ensures
            r == *self,
    {
        FileRecord {
            id: self.id.clone(),
            name: self.name.clone(),
            path: self.path.clone(),
            size: self.size,
            content_type: self.content_type.clone(),
            etag: copy_opt_string(&self.etag),
            checksum_sha256: copy_opt_string(&self.checksum_sha256),
            mode: self.mode,
            uid: self.uid,
            gid: self.gid,
            username: copy_opt_string(&self.username),
            groupname: copy_opt_string(&self.groupname),
            mtime: copy_opt_string(&self.mtime),
            ctime: copy_opt_string(&self.ctime),
            atime: copy_opt_string(&self.atime),
            device: self.device,
            inode: self.inode,
            nlink: self.nlink,
            created_at: self.created_at.clone(),
            updated_at: self.updated_at.clone(),
            deleted_at: copy_opt_string(&self.deleted_at),
        }
    }
}

} // verus!
