use vstd::prelude::*;

use crate::clock::{is_instant_text, is_uuid_v4_text, new_uuid, now_text};
use crate::digest::{checksum_of, file_checksum};
use crate::error::AppError;
use crate::models::{copy_opt_string, AppEvent, EventPayload, ExistingFile, FileRecord, UploadMetadata};
use crate::text::{trim_end_char, trim_trailing};

verus! {

/// The object key of a file: its path without trailing slashes, a slash and
/// its name; only the name when that path is empty.
pub open spec fn s3_key_spec(path: Seq<char>, name: Seq<char>) -> Seq<char> {
    let base = trim_trailing(path, '/');
    if base.len() == 0 {
        name
    } else {
        base + seq!['/'] + name
    }
}

/// The object key under which a file is stored.
pub fn s3_key(path: &str, name: &str) -> (key: String)
    ensures
        key@ == s3_key_spec(path@, name@),
{
    let base = trim_end_char(path, '/');
    if base.unicode_len() == 0 {
        String::from_str(name)
    } else {
        let mut key = String::from_str(base);
        key.append("/");
        proof {
            reveal_strlit("/");
        }
        key.append(name);
        key
    }
}

/// The `file` part of an upload form.
#[derive(Debug)]
pub struct FilePart {
    pub file_name: Option<String>,
    pub content_type: Option<String>,
    pub data: Vec<u8>,
}

/// What an upload form holds: the last `file` part, and the metadata that
/// the last `metadata` part carried, if it parsed.
#[derive(Debug)]
pub struct UploadForm {
    pub file: Option<FilePart>,
    pub metadata: Option<UploadMetadata>,
}

/// An accepted upload, with its object key and content checksum.
#[derive(Debug)]
pub struct PreparedUpload {
    pub file_name: String,
    pub content_type: String,
    pub data: Vec<u8>,
    pub meta: UploadMetadata,
    pub s3_key: String,
    pub checksum: String,
}

/// The file name of an upload part: the one the part gives, else `unknown`.
pub open spec fn part_file_name(part: FilePart) -> Seq<char> {
    match part.file_name {
        Some(n) => n@,
        None => "unknown"@,
    }
}

/// The content type of an upload part: the one the part gives, else
/// `application/octet-stream`.
pub open spec fn part_content_type(part: FilePart) -> Seq<char> {
    match part.content_type {
        Some(t) => t@,
        None => "application/octet-stream"@,
    }
}

/// An upload is refused when it has no file part, an empty file name or no
/// content.
pub open spec fn upload_refused(form: UploadForm) -> bool {
    match form.file {
        None => true,
        Some(part) => part_file_name(part).len() == 0 || part.data@.len() == 0,
    }
}

/// The error text of a refused upload.
pub open spec fn missing_file_message() -> Seq<char> {
    "file field and file name are required"@
}

/// A prepared upload is consistent: its object key and checksum are those of
/// its path, name and content.
pub open spec fn prepared_wf(p: PreparedUpload) -> bool {
    &&& p.s3_key@ == s3_key_spec(p.meta.path@, p.file_name@)
    &&& p.checksum@ == checksum_of(p.data@)
}

/// Checks an upload form and derives the object key and checksum of the
/// file it carries.
pub fn prepare_upload(form: UploadForm) -> (r: Result<PreparedUpload, AppError>)
    ensures
        r is Err <==> upload_refused(form),
        r matches Err(e) ==> e is BadRequest && e.spec_message() == missing_file_message(),
        r matches Ok(p) ==> prepared_wf(p),
        r matches Ok(p) ==> {
            let part = form.file->0;
            &&& p.file_name@ == part_file_name(part)
            &&& p.content_type@ == part_content_type(part)
            &&& p.data@ == part.data@
            &&& match form.metadata {
                Some(m) => p.meta == m,
                None => p.meta.spec_is_blank(),
            }
            &&& p.s3_key@ == s3_key_spec(p.meta.path@, p.file_name@)
            &&& p.checksum@ == checksum_of(p.data@)
        },
{
    proof {
        reveal_strlit("unknown");
        reveal_strlit("application/octet-stream");
        reveal_strlit("file field and file name are required");
    }
    let UploadForm { file, metadata } = form;
    let part = match file {
        Some(part) => part,
        None => {
            return Err(AppError::BadRequest(String::from_str("file field and file name are required")));
        },
    };
    let FilePart { file_name, content_type, data } = part;
    let file_name = match file_name {
        Some(n) => n,
        None => String::from_str("unknown"),
    };
    if file_name.as_str().unicode_len() == 0 || data.len() == 0 {
        return Err(AppError::BadRequest(String::from_str("file field and file name are required")));
    }
    let content_type = match content_type {
        Some(t) => t,
        None => String::from_str("application/octet-stream"),
    };
    let meta = match metadata {
        Some(m) => m,
        None => UploadMetadata::blank(),
    };
    let key = s3_key(meta.path.as_str(), file_name.as_str());
    let checksum = file_checksum(data.as_slice());
    Ok(PreparedUpload { file_name, content_type, data, meta, s3_key: key, checksum })
}

/// What an upload leads to, given what the lookup by path and name found.
#[derive(Debug)]
pub enum UploadPlan {
    /// The same content is stored already under this id: nothing is written
    /// and the stored record is the answer.
    Unchanged(String),
    /// A file of that path and name exists: it is overwritten under its id.
    Update(String),
    /// No file of that path and name exists: a new one is made.
    Create,
}

/// The plan for an upload with content checksum `checksum`.
pub open spec fn plan_spec(existing: Option<ExistingFile>, checksum: Seq<char>) -> UploadPlan {
    match existing {
        Some((id, stored, _)) => {
            if stored is Some && stored->0@ == checksum {
                UploadPlan::Unchanged(id)
            } else {
                UploadPlan::Update(id)
            }
        },
        None => UploadPlan::Create,
    }
}

/// Decides what an upload does: nothing when the stored checksum matches,
/// an overwrite when a file of that path and name exists, else a new file.
pub fn plan_upload(existing: Option<ExistingFile>, checksum: &String) -> (plan: UploadPlan)
    ensures
        plan == plan_spec(existing, checksum@),
{
    match existing {
        Some((id, stored, _)) => {
            let same = match &stored {
                Some(c) => c.eq(checksum),
                None => false,
            };
            if same {
                UploadPlan::Unchanged(id)
            } else {
                UploadPlan::Update(id)
            }
        },
        None => UploadPlan::Create,
    }
}

/// The fields of a stored record that an upload determines: all but its
/// id and its timestamps.
pub open spec fn record_of_upload(r: FileRecord, p: PreparedUpload, etag: Seq<char>) -> bool {
    &&& r.name == p.file_name
    &&& r.path == p.meta.path
    &&& r.size == p.data@.len()
    &&& r.content_type == p.content_type
    &&& r.etag is Some && r.etag->0@ == etag
    &&& r.checksum_sha256 == Some(p.checksum)
    &&& r.mode == p.meta.mode
    &&& r.uid == p.meta.uid
    &&& r.gid == p.meta.gid
    &&& r.username == p.meta.username
    &&& r.groupname == p.meta.groupname
    &&& r.mtime == p.meta.mtime
    &&& r.ctime == p.meta.ctime
    &&& r.atime == p.meta.atime
    &&& r.device == p.meta.device
    &&& r.inode == p.meta.inode
    &&& r.nlink == p.meta.nlink
    &&& r.deleted_at is None
}

/// The record that an upload stores, with the given id, object ETag and
/// time of writing as both its creation and its update time.
pub fn build_record(p: &PreparedUpload, id: String, etag: String, now: String) -> (r: FileRecord)
    requires
        p.data@.len() <= i64::MAX,
    ensures
        record_of_upload(r, *p, etag@),
        r.id == id,
        r.created_at == now,
        r.updated_at == now,
{
    FileRecord {
        id,
        name: p.file_name.clone(),
        path: p.meta.path.clone(),
        size: p.data.len() as i64,
        content_type: p.content_type.clone(),
        etag: Some(etag),
        checksum_sha256: Some(p.checksum.clone()),
        mode: p.meta.mode,
        uid: p.meta.uid,
        gid: p.meta.gid,
        username: copy_opt_string(&p.meta.username),
        groupname: copy_opt_string(&p.meta.groupname),
        mtime: copy_opt_string(&p.meta.mtime),
        ctime: copy_opt_string(&p.meta.ctime),
        atime: copy_opt_string(&p.meta.atime),
        device: p.meta.device,
        inode: p.meta.inode,
        nlink: p.meta.nlink,
        created_at: now.clone(),
        updated_at: now,
        deleted_at: None,
    }
}

/// The record that an upload stores now: under the id of the file it
/// overwrites, or under a fresh random id, stamped with the current time
/// in RFC 3339.
pub fn stamp_record(p: &PreparedUpload, existing_id: Option<String>, etag: String) -> (r: FileRecord)
    requires
        p.data@.len() <= i64::MAX,
    ensures
        record_of_upload(r, *p, etag@),
        match existing_id {
            Some(id) => r.id == id,
            None => is_uuid_v4_text(r.id@),
        },
        r.created_at == r.updated_at,
        is_instant_text(r.created_at@),
{
    let id = match existing_id {
        Some(id) => id,
        None => new_uuid(),
    };
    let now = now_text();
    build_record(p, id, etag, now)
}

/// The answer to an upload that wrote a file: the HTTP status, the record
/// and the event to broadcast.
#[derive(Debug)]
pub struct UploadReply {
    pub status: u16,
    pub record: FileRecord,
    pub event: AppEvent,
}

/// Status and event of a written upload: `200` and a `FileUpdated` event for
/// an overwrite, `201` and a `FileCreated` event for a new file; the event
/// carries the record under its id.
pub fn upload_reply(overwrite: bool, record: FileRecord) -> (reply: UploadReply)
    ensures
        reply.record == record,
        overwrite ==> reply.status == 200 && reply.event == (AppEvent::FileUpdated {
            resource_id: record.id,
            payload: EventPayload::File(record),
        }),
        !overwrite ==> reply.status == 201 && reply.event == (AppEvent::FileCreated {
            resource_id: record.id,
            payload: EventPayload::File(record),
        }),
{
    let id = record.id.clone();
    let copy = record.duplicate();
    if overwrite {
        UploadReply {
            status: 200,
            record,
            event: AppEvent::FileUpdated { resource_id: id, payload: EventPayload::File(copy) },
        }
    } else {
        UploadReply {
            status: 201,
            record,
            event: AppEvent::FileCreated { resource_id: id, payload: EventPayload::File(copy) },
        }
    }
}

/// The status of an upload whose content is stored already.
pub open spec fn unchanged_status() -> u16 {
    200
}

/// The status of an upload whose content is stored already: `200`, with the
/// stored record as the body.
pub fn unchanged_reply() -> (status: u16)
    ensures
        status == unchanged_status(),
{
    200
}

/// The content type of a download: the one the object store reports, else
/// `application/octet-stream`.
pub open spec fn download_content_type(stored: Option<String>) -> Seq<char> {
    match stored {
        Some(t) => t@,
        None => "application/octet-stream"@,
    }
}

/// The `content-disposition` value of a download of the named file.
pub open spec fn attachment_disposition(name: Seq<char>) -> Seq<char> {
    "attachment; filename=\""@ + name + "\""@
}

/// The two headers of a download: its content type, and an attachment
/// disposition under the file's name.
pub fn download_headers(stored_type: Option<String>, name: &str) -> (h: Vec<(String, String)>)
    ensures
        h@.len() == 2,
        h@[0].0@ == "content-type"@,
        h@[0].1@ == download_content_type(stored_type),
        h@[1].0@ == "content-disposition"@,
        h@[1].1@ == attachment_disposition(name@),
{
    let content_type = match stored_type {
        Some(t) => t,
        None => String::from_str("application/octet-stream"),
    };
    let mut disposition = String::from_str("attachment; filename=\"");
    disposition.append(name);
    disposition.append("\"");
    let mut h: Vec<(String, String)> = Vec::new();
    h.push((String::from_str("content-type"), content_type));
    h.push((String::from_str("content-disposition"), disposition));
    h
}

/// The event of a deletion: `FileDeleted` under the file's id, carrying its
/// name and path.
pub fn deletion_event(id: String, record: &FileRecord) -> (e: AppEvent)
    ensures
        e == (AppEvent::FileDeleted {
            resource_id: id,
            payload: EventPayload::Removed { name: record.name, path: record.path },
        }),
{
    AppEvent::FileDeleted {
        resource_id: id,
        payload: EventPayload::Removed { name: record.name.clone(), path: record.path.clone() },
    }
}

/// Uploading is idempotent: once an upload has stored its record, uploading
/// the same content again under that path and name writes nothing, whether
/// or not the file was deleted since.
pub proof fn lemma_reupload_is_unchanged(
    first: PreparedUpload,
    stored: FileRecord,
    etag: Seq<char>,
    deleted_at: Option<String>,
    again: PreparedUpload,
)
    requires
        prepared_wf(first),
        prepared_wf(again),
        record_of_upload(stored, first, etag),
        again.data@ == first.data@,
    ensures
        plan_spec(Some((stored.id, stored.checksum_sha256, deleted_at)), again.checksum@)
            == UploadPlan::Unchanged(stored.id),
{
}

/// An upload never makes a second file of a path and name that the lookup
/// found, deleted or not: a found file whose stored checksum is absent or
/// differs from the upload's is overwritten under its own id.
pub proof fn lemma_found_file_is_overwritten(
    id: String,
    stored: Option<String>,
    deleted_at: Option<String>,
    checksum: Seq<char>,
)
    requires
        stored is None || stored->0@ != checksum,
    ensures
        plan_spec(Some((id, stored, deleted_at)), checksum) == UploadPlan::Update(id),
{
}

/// A new file is made exactly when the lookup by path and name found none;
/// otherwise the plan names the id of the file found.
pub proof fn lemma_create_only_when_not_found(existing: Option<ExistingFile>, checksum: Seq<char>)
    ensures
        plan_spec(existing, checksum) is Create <==> existing is None,
        existing matches Some((id, _, _)) ==> (plan_spec(existing, checksum) == UploadPlan::Update(id)
            || plan_spec(existing, checksum) == UploadPlan::Unchanged(id)),
{
}

/// Trailing slashes of a path do not change the object key.
pub proof fn lemma_s3_key_ignores_trailing_slash(path: Seq<char>, name: Seq<char>)
    ensures
        s3_key_spec(path.push('/'), name) == s3_key_spec(path, name),
{
    assert(path.push('/').drop_last() =~= path);
}

} // verus!
