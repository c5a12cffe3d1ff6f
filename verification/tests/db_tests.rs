use s3em::db::{
    all_paths_statement, count_files_statement, find_by_path_and_name_statement, find_outcome,
    get_by_id_statement, get_stored_by_id_statement, insert_file_statement, list_all_s3_keys, list_events_statement,
    list_files_statement, soft_delete_now, soft_delete_outcome, soft_delete_statement,
    update_file_statement, write_record_statement, LookupResult, SqlValue,
};
use s3em::error::AppError;
use s3em::models::{EventHistoryFilter, FileFilter, FileRecord};

fn record() -> FileRecord {
    FileRecord {
        id: "id1".to_string(),
        name: "a.txt".to_string(),
        path: "docs".to_string(),
        size: 12,
        content_type: "text/plain".to_string(),
        etag: Some("e".to_string()),
        checksum_sha256: None,
        mode: Some(420),
        uid: None,
        gid: Some(7),
        username: None,
        groupname: Some("staff".to_string()),
        mtime: None,
        ctime: None,
        atime: Some("at".to_string()),
        device: None,
        inode: Some(99),
        nlink: None,
        created_at: "c".to_string(),
        updated_at: "u".to_string(),
        deleted_at: None,
    }
}

fn text(v: &SqlValue) -> &str {
    match v {
        SqlValue::Text(s) => s.as_str(),
        other => panic!("not text: {:?}", other),
    }
}

fn filter(path: Option<&str>, search: Option<&str>, limit: Option<i64>, offset: Option<i64>) -> FileFilter {
    FileFilter { path: path.map(|s| s.to_string()), search: search.map(|s| s.to_string()), limit, offset }
}

const FILE_COLUMNS: &str = "SELECT id, name, path, size, content_type, etag, checksum_sha256,\n         mode, uid, gid, username, groupname, mtime, ctime, atime,\n         device, inode, nlink, created_at, updated_at, deleted_at\n         FROM files WHERE ";

#[test]
fn insert_binds_every_column_in_order() {
    let st = insert_file_statement(&record());
    assert!(st.sql.starts_with("INSERT INTO files (id, name, path, size"));
    assert!(st.sql.ends_with("?19, ?20)"));
    assert_eq!(st.params.len(), 20);
    assert_eq!(text(&st.params[0]), "id1");
    assert_eq!(text(&st.params[1]), "a.txt");
    assert_eq!(text(&st.params[2]), "docs");
    assert!(matches!(st.params[3], SqlValue::Integer(12)));
    assert_eq!(text(&st.params[5]), "e");
    assert!(matches!(st.params[6], SqlValue::Null));
    assert!(matches!(st.params[7], SqlValue::Integer(420)));
    assert!(matches!(st.params[8], SqlValue::Null));
    assert!(matches!(st.params[9], SqlValue::Integer(7)));
    assert_eq!(text(&st.params[11]), "staff");
    assert_eq!(text(&st.params[14]), "at");
    assert!(matches!(st.params[16], SqlValue::Integer(99)));
    assert_eq!(text(&st.params[18]), "c");
    assert_eq!(text(&st.params[19]), "u");
}

#[test]
fn update_binds_id_last_and_clears_deletion() {
    let st = update_file_statement("id1", &record());
    assert!(st.sql.contains("deleted_at = NULL"));
    assert!(st.sql.ends_with("WHERE id = ?19"));
    assert_eq!(st.params.len(), 19);
    assert_eq!(text(&st.params[0]), "a.txt");
    assert_eq!(text(&st.params[17]), "u");
    assert_eq!(text(&st.params[18]), "id1");
}

#[test]
fn writing_an_upload() {
    let st = write_record_statement(&Some("old".to_string()), &record());
    assert!(st.sql.starts_with("UPDATE files SET"));
    assert_eq!(text(&st.params[18]), "old");
    let st = write_record_statement(&None, &record());
    assert!(st.sql.starts_with("INSERT INTO files"));
    assert_eq!(st.params.len(), 20);
}

#[test]
fn lookups() {
    let st = find_by_path_and_name_statement("docs", "a.txt");
    assert_eq!(st.sql, "SELECT id, checksum_sha256, deleted_at FROM files WHERE path = ?1 AND name = ?2");
    assert_eq!(text(&st.params[0]), "docs");
    assert_eq!(text(&st.params[1]), "a.txt");
    let st = get_by_id_statement("id1");
    assert_eq!(st.sql, format!("{}id = ?1 AND deleted_at IS NULL", FILE_COLUMNS));
    assert_eq!(text(&st.params[0]), "id1");
    let st = get_stored_by_id_statement("id1");
    assert_eq!(st.sql, format!("{}id = ?1", FILE_COLUMNS));
    assert_eq!(text(&st.params[0]), "id1");
    let st = all_paths_statement();
    assert_eq!(st.sql, "SELECT path, name FROM files");
    assert!(st.params.is_empty());
}

#[test]
fn find_outcomes() {
    match find_outcome(LookupResult::Found(("a".to_string(), None, None))) {
        Ok(Some((id, None, None))) => assert_eq!(id, "a"),
        other => panic!("{:?}", other),
    }
    assert!(matches!(find_outcome(LookupResult::NoRows), Ok(None)));
    match find_outcome(LookupResult::Failed("disk I/O error".to_string())) {
        Err(AppError::Internal(m)) => assert_eq!(m, "disk I/O error"),
        other => panic!("{:?}", other),
    }
}

#[test]
fn soft_deletion() {
    let st = soft_delete_statement("id1", "2024");
    assert_eq!(st.sql, "UPDATE files SET deleted_at = ?1 WHERE id = ?2 AND deleted_at IS NULL");
    assert_eq!(text(&st.params[0]), "2024");
    assert_eq!(text(&st.params[1]), "id1");
    let st = soft_delete_now("id2");
    assert_eq!(text(&st.params[1]), "id2");
    let stamp = chrono::DateTime::parse_from_rfc3339(text(&st.params[0])).expect("RFC 3339 time");
    assert!((stamp.timestamp() - chrono::Utc::now().timestamp()).abs() <= 5);
    assert!(soft_delete_outcome(1, "id1").is_ok());
    match soft_delete_outcome(0, "id1") {
        Err(e) => {
            assert_eq!(e.status(), 404);
            assert_eq!(e.message(), "File id1 not found");
        },
        Ok(()) => panic!("expected not found"),
    }
}

#[test]
fn listing_defaults() {
    let st = list_files_statement(&filter(None, None, None, None));
    assert_eq!(
        st.sql,
        format!("{}deleted_at IS NULL ORDER BY created_at DESC LIMIT 50 OFFSET 0", FILE_COLUMNS)
    );
    assert!(st.params.is_empty());
}

#[test]
fn listing_filters_and_caps() {
    let st = list_files_statement(&filter(Some("docs"), Some("rep"), Some(500), Some(20)));
    assert_eq!(
        st.sql,
        format!(
            "{}deleted_at IS NULL AND path LIKE ?1 AND name LIKE ?2 ORDER BY created_at DESC LIMIT 200 OFFSET 20",
            FILE_COLUMNS
        )
    );
    assert_eq!(text(&st.params[0]), "docs%");
    assert_eq!(text(&st.params[1]), "%rep%");
    let st = list_files_statement(&filter(None, Some("x"), Some(-1), Some(-3)));
    assert!(st.sql.ends_with("AND name LIKE ?1 ORDER BY created_at DESC LIMIT -1 OFFSET -3"));
    assert_eq!(text(&st.params[0]), "%x%");
    let st = list_files_statement(&filter(None, None, Some(200), None));
    assert!(st.sql.ends_with("LIMIT 200 OFFSET 0"));
    let st = list_files_statement(&filter(None, None, Some(199), None));
    assert!(st.sql.ends_with("LIMIT 199 OFFSET 0"));
}

#[test]
fn counting() {
    let st = count_files_statement(&filter(Some("p"), None, Some(5), None));
    assert_eq!(st.sql, "SELECT COUNT(*) FROM files WHERE deleted_at IS NULL AND path LIKE ?1");
    assert_eq!(text(&st.params[0]), "p%");
    let st = count_files_statement(&filter(None, None, None, None));
    assert_eq!(st.sql, "SELECT COUNT(*) FROM files WHERE deleted_at IS NULL");
}

#[test]
fn event_history_query() {
    let base = "SELECT id, event_type, resource_type, resource_id, payload, created_at FROM events WHERE 1=1";
    let st = list_events_statement(&EventHistoryFilter { event_type: None, since: None, limit: None, offset: None });
    assert_eq!(st.sql, format!("{} ORDER BY id DESC LIMIT 100 OFFSET 0", base));
    let st = list_events_statement(&EventHistoryFilter {
        event_type: Some("created".to_string()),
        since: Some("2024-01-01".to_string()),
        limit: Some(5000),
        offset: Some(10),
    });
    assert_eq!(
        st.sql,
        format!("{} AND event_type = ?1 AND created_at >= ?2 ORDER BY id DESC LIMIT 1000 OFFSET 10", base)
    );
    assert_eq!(text(&st.params[0]), "created");
    assert_eq!(text(&st.params[1]), "2024-01-01");
    let st = list_events_statement(&EventHistoryFilter {
        event_type: None,
        since: Some("s".to_string()),
        limit: Some(3),
        offset: None,
    });
    assert_eq!(st.sql, format!("{} AND created_at >= ?1 ORDER BY id DESC LIMIT 3 OFFSET 0", base));
}

#[test]
fn keys_of_rows() {
    let rows = vec![
        ("docs/".to_string(), "a.txt".to_string()),
        ("".to_string(), "b".to_string()),
        ("x/y".to_string(), "z".to_string()),
    ];
    assert_eq!(list_all_s3_keys(&rows), vec!["docs/a.txt", "b", "x/y/z"]);
    assert!(list_all_s3_keys(&Vec::new()).is_empty());
}
