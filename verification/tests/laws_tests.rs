use s3em::db::{insert_file_statement, list_all_s3_keys, update_file_statement, SqlValue};
use s3em::files::{build_record, prepare_upload, FilePart, UploadForm};
use s3em::models::UploadMetadata;
use s3em::sync::orphan_keys;

fn upload(path: &str, name: &str, data: &[u8]) -> s3em::files::PreparedUpload {
    let mut meta = UploadMetadata::blank();
    meta.path = path.to_string();
    meta.mode = Some(0o755);
    meta.uid = Some(501);
    meta.gid = Some(20);
    meta.username = Some("bob".to_string());
    meta.groupname = Some("staff".to_string());
    meta.mtime = Some("m".to_string());
    meta.ctime = Some("c".to_string());
    meta.atime = Some("a".to_string());
    meta.device = Some(16777220);
    meta.inode = Some(12345);
    meta.nlink = Some(1);
    let form = UploadForm {
        file: Some(FilePart { file_name: Some(name.to_string()), content_type: None, data: data.to_vec() }),
        metadata: Some(meta),
    };
    prepare_upload(form).unwrap()
}

fn show(v: &SqlValue) -> String {
    match v {
        SqlValue::Null => "NULL".to_string(),
        SqlValue::Integer(i) => i.to_string(),
        SqlValue::Text(s) => s.clone(),
    }
}

#[test]
fn upload_metadata_reaches_the_database() {
    let p = upload("home/bob", "notes.md", b"# notes");
    let r = build_record(&p, "id".to_string(), "e".to_string(), "t".to_string());
    let st = insert_file_statement(&r);
    let attrs: Vec<String> = st.params[7..18].iter().map(show).collect();
    assert_eq!(attrs, vec!["493", "501", "20", "bob", "staff", "m", "c", "a", "16777220", "12345", "1"]);
    assert_eq!(show(&st.params[1]), "notes.md");
    assert_eq!(show(&st.params[2]), "home/bob");
    assert_eq!(show(&st.params[6]), p.checksum);
    let st = update_file_statement("id", &r);
    let attrs: Vec<String> = st.params[6..17].iter().map(show).collect();
    assert_eq!(attrs, vec!["493", "501", "20", "bob", "staff", "m", "c", "a", "16777220", "12345", "1"]);
}

#[test]
fn uploaded_object_survives_sync() {
    let p = upload("home/bob/", "notes.md", b"# notes");
    let r = build_record(&p, "id".to_string(), "e".to_string(), "t".to_string());
    let known = list_all_s3_keys(&vec![(r.path.clone(), r.name.clone()), ("x".to_string(), "y".to_string())]);
    assert_eq!(known[0], p.s3_key);
    let stored = vec![p.s3_key.clone(), "stray".to_string(), "x/y".to_string()];
    assert_eq!(orphan_keys(&known, &stored), vec!["stray"]);
}
