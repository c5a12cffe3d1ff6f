use s3em::error::AppError;
use s3em::files::{
    build_record, deletion_event, download_headers, plan_upload, prepare_upload, s3_key, stamp_record,
    unchanged_reply, upload_reply, FilePart, PreparedUpload, UploadForm, UploadPlan,
};
use s3em::models::{AppEvent, EventPayload, UploadMetadata};

const HELLO_SHA256: &str = "2cf24dba5fb0a30e26e83b2ac5b9e29e1b161e5c1fa7425e73043362938b9824";

fn meta(path: &str) -> UploadMetadata {
    let mut m = UploadMetadata::blank();
    m.path = path.to_string();
    m.mode = Some(0o644);
    m.uid = Some(1000);
    m.username = Some("alice".to_string());
    m
}

fn form(name: Option<&str>, data: &[u8], metadata: Option<UploadMetadata>) -> UploadForm {
    UploadForm {
        file: Some(FilePart {
            file_name: name.map(|s| s.to_string()),
            content_type: Some("text/plain".to_string()),
            data: data.to_vec(),
        }),
        metadata,
    }
}

fn prepared(path: &str, name: &str, data: &[u8]) -> PreparedUpload {
    match prepare_upload(form(Some(name), data, Some(meta(path)))) {
        Ok(p) => p,
        Err(e) => panic!("refused: {:?}", e),
    }
}

#[test]
fn s3_key_joins_path_and_name() {
    assert_eq!(s3_key("docs", "a.txt"), "docs/a.txt");
    assert_eq!(s3_key("docs/", "a.txt"), "docs/a.txt");
    assert_eq!(s3_key("docs///", "a.txt"), "docs/a.txt");
    assert_eq!(s3_key("", "a.txt"), "a.txt");
    assert_eq!(s3_key("///", "a.txt"), "a.txt");
    assert_eq!(s3_key("a/b", "c"), "a/b/c");
    assert_eq!(s3_key("/root", "c"), "/root/c");
}

#[test]
fn s3_key_trailing_slash_law() {
    for p in ["", "a", "a/b", "x//"] {
        let with_slash = format!("{}/", p);
        assert_eq!(s3_key(&with_slash, "n"), s3_key(p, "n"));
    }
}

fn expect_bad_request(r: Result<PreparedUpload, AppError>) {
    match r {
        Err(AppError::BadRequest(m)) => assert_eq!(m, "file field and file name are required"),
        other => panic!("expected a bad request, got {:?}", other),
    }
}

#[test]
fn upload_without_file_is_refused() {
    expect_bad_request(prepare_upload(UploadForm { file: None, metadata: None }));
}

#[test]
fn upload_with_empty_content_is_refused() {
    expect_bad_request(prepare_upload(form(Some("a.txt"), b"", None)));
}

#[test]
fn upload_with_empty_name_is_refused() {
    expect_bad_request(prepare_upload(form(Some(""), b"data", None)));
}

#[test]
fn upload_defaults_name_type_and_metadata() {
    let f = UploadForm {
        file: Some(FilePart { file_name: None, content_type: None, data: b"hello".to_vec() }),
        metadata: None,
    };
    let p = prepare_upload(f).unwrap();
    assert_eq!(p.file_name, "unknown");
    assert_eq!(p.content_type, "application/octet-stream");
    assert_eq!(p.meta.path, "");
    assert!(p.meta.mode.is_none());
    assert_eq!(p.s3_key, "unknown");
    assert_eq!(p.checksum, HELLO_SHA256);
}

#[test]
fn upload_checksum_and_key() {
    let p = prepared("docs/", "hello.txt", b"hello");
    assert_eq!(p.s3_key, "docs/hello.txt");
    assert_eq!(p.checksum, HELLO_SHA256);
    assert_eq!(p.content_type, "text/plain");
    assert_eq!(p.meta.username.as_deref(), Some("alice"));
    let empty_digest = prepared("", "x", b"abc");
    assert_eq!(empty_digest.checksum, "ba7816bf8f01cfea414140de5dae2223b00361a396177a9cb410ff61f20015ad");
}

#[test]
fn plan_follows_lookup() {
    let c = HELLO_SHA256.to_string();
    assert!(matches!(plan_upload(None, &c), UploadPlan::Create));
    assert!(matches!(
        plan_upload(Some(("id1".to_string(), Some(c.clone()), None)), &c),
        UploadPlan::Unchanged(id) if id == "id1"
    ));
    assert!(matches!(
        plan_upload(Some(("id1".to_string(), Some(c.clone()), Some("2024".to_string()))), &c),
        UploadPlan::Unchanged(id) if id == "id1"
    ));
    match plan_upload(Some(("id1".to_string(), Some("other".to_string()), None)), &c) {
        UploadPlan::Update(id) => assert_eq!(id, "id1"),
        other => panic!("{:?}", other),
    }
    match plan_upload(Some(("id2".to_string(), None, None)), &c) {
        UploadPlan::Update(id) => assert_eq!(id, "id2"),
        other => panic!("{:?}", other),
    }
}

#[test]
fn record_carries_upload() {
    let p = prepared("docs", "hello.txt", b"hello");
    let r = build_record(&p, "id-1".to_string(), "etag-1".to_string(), "2024-01-01T00:00:00+00:00".to_string());
    assert_eq!(r.id, "id-1");
    assert_eq!(r.name, "hello.txt");
    assert_eq!(r.path, "docs");
    assert_eq!(r.size, 5);
    assert_eq!(r.content_type, "text/plain");
    assert_eq!(r.etag.as_deref(), Some("etag-1"));
    assert_eq!(r.checksum_sha256.as_deref(), Some(HELLO_SHA256));
    assert_eq!(r.mode, Some(0o644));
    assert_eq!(r.uid, Some(1000));
    assert_eq!(r.gid, None);
    assert_eq!(r.username.as_deref(), Some("alice"));
    assert_eq!(r.created_at, "2024-01-01T00:00:00+00:00");
    assert_eq!(r.updated_at, r.created_at);
    assert!(r.deleted_at.is_none());
}

#[test]
fn stamped_record_ids() {
    let p = prepared("", "a", b"x");
    let fresh = stamp_record(&p, None, "e".to_string());
    assert_eq!(fresh.id.len(), 36);
    for (i, c) in fresh.id.chars().enumerate() {
        if [8, 13, 18, 23].contains(&i) {
            assert_eq!(c, '-');
        } else {
            assert!(c.is_ascii_hexdigit() && !c.is_ascii_uppercase());
        }
    }
    assert_eq!(fresh.id.as_bytes()[14], b'4');
    assert!(b"89ab".contains(&fresh.id.as_bytes()[19]));
    assert_eq!(fresh.created_at, fresh.updated_at);
    let stamp = chrono::DateTime::parse_from_rfc3339(&fresh.created_at).expect("RFC 3339 time");
    assert!((stamp.timestamp() - chrono::Utc::now().timestamp()).abs() <= 5);
    let other = stamp_record(&p, None, "e".to_string());
    assert_ne!(fresh.id, other.id);
    let kept = stamp_record(&p, Some("keep".to_string()), "e".to_string());
    assert_eq!(kept.id, "keep");
}

#[test]
fn reupload_of_same_content_is_unchanged() {
    let first = prepared("docs", "a.txt", b"content");
    let stored = build_record(&first, "id-9".to_string(), "e".to_string(), "t".to_string());
    let again = prepared("docs", "a.txt", b"content");
    let lookup = Some((stored.id.clone(), stored.checksum_sha256.clone(), Some("deleted".to_string())));
    assert!(matches!(plan_upload(lookup, &again.checksum), UploadPlan::Unchanged(id) if id == "id-9"));
    let changed = prepared("docs", "a.txt", b"changed");
    let lookup = Some((stored.id.clone(), stored.checksum_sha256.clone(), None));
    assert!(matches!(plan_upload(lookup, &changed.checksum), UploadPlan::Update(_)));
}

#[test]
fn replies_of_uploads() {
    let p = prepared("", "a", b"x");
    let r = build_record(&p, "i".to_string(), "e".to_string(), "t".to_string());
    let reply = upload_reply(true, r);
    assert_eq!(reply.status, 200);
    match &reply.event {
        AppEvent::FileUpdated { resource_id, payload: EventPayload::File(rec) } => {
            assert_eq!(resource_id, "i");
            assert_eq!(rec.name, "a");
        },
        other => panic!("{:?}", other),
    }
    let r = build_record(&p, "j".to_string(), "e".to_string(), "t".to_string());
    let reply = upload_reply(false, r);
    assert_eq!(reply.status, 201);
    assert_eq!(reply.record.id, "j");
    assert!(matches!(&reply.event, AppEvent::FileCreated { resource_id, .. } if resource_id == "j"));
    assert_eq!(unchanged_reply(), 200);
}

#[test]
fn download_headers_name_the_file() {
    let h = download_headers(None, "report.pdf");
    assert_eq!(h.len(), 2);
    assert_eq!(h[0], ("content-type".to_string(), "application/octet-stream".to_string()));
    assert_eq!(h[1], ("content-disposition".to_string(), "attachment; filename=\"report.pdf\"".to_string()));
    let h = download_headers(Some("image/png".to_string()), "a.png");
    assert_eq!(h[0].1, "image/png");
}

#[test]
fn deletion_event_carries_name_and_path() {
    let p = prepared("docs", "a.txt", b"x");
    let r = build_record(&p, "id".to_string(), "e".to_string(), "t".to_string());
    match deletion_event("id".to_string(), &r) {
        AppEvent::FileDeleted { resource_id, payload: EventPayload::Removed { name, path } } => {
            assert_eq!(resource_id, "id");
            assert_eq!(name, "a.txt");
            assert_eq!(path, "docs");
        },
        other => panic!("{:?}", other),
    }
}
