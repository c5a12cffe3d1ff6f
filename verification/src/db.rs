use vstd::prelude::*;

use crate::clock::{is_instant_text, now_text};
use crate::error::AppError;
use crate::files::{prepared_wf, record_of_upload, s3_key, s3_key_spec, PreparedUpload};
use crate::digest::checksum_of;
use crate::models::{EventHistoryFilter, ExistingFile, FileFilter, FileRecord, UploadMetadata};
use crate::text::{i64_to_decimal, int_decimal, nat_decimal, u64_to_decimal};

verus! {

/// A value bound to a statement parameter.
#[derive(Debug)]
pub enum SqlValue {
    Null,
    Integer(i64),
    Text(String),
}

/// The mathematical value of a statement parameter.
pub enum SqlArg {
    Null,
    Integer(int),
    Text(Seq<char>),
}

impl View for SqlValue {
    type V = SqlArg;

    open spec fn view(&self) -> SqlArg {
        match self {
            SqlValue::Null => SqlArg::Null,
            SqlValue::Integer(i) => SqlArg::Integer(*i as int),
            SqlValue::Text(s) => SqlArg::Text(s@),
        }
    }
}

/// A SQL statement with its positional parameters `?1`, `?2`, ...
#[derive(Debug)]
pub struct Statement {
    pub sql: String,
    pub params: Vec<SqlValue>,
}

impl Statement {
    /// The parameters' values, in order.
    pub open spec fn args(&self) -> Seq<SqlArg> {
        self.params@.map_values(|v: SqlValue| v@)
    }
}

/// An optional text as a parameter: `NULL` when absent.
pub open spec fn text_arg(o: Option<String>) -> SqlArg {
    match o {
        Some(s) => SqlArg::Text(s@),
        None => SqlArg::Null,
    }
}

/// An optional integer as a parameter: `NULL` when absent.
pub open spec fn int_arg(o: Option<i64>) -> SqlArg {
    match o {
        Some(i) => SqlArg::Integer(i as int),
        None => SqlArg::Null,
    }
}

fn text_value(o: &Option<String>) -> (v: SqlValue)
    ensures
        v@ == text_arg(*o),
{
    match o {
        Some(s) => SqlValue::Text(s.clone()),
        None => SqlValue::Null,
    }
}

fn int_value(o: Option<i64>) -> (v: SqlValue)
    ensures
        v@ == int_arg(o),
{
    match o {
        Some(i) => SqlValue::Integer(i),
        None => SqlValue::Null,
    }
}

fn text_of(s: &String) -> (v: SqlValue)
    ensures
        v@ == SqlArg::Text(s@),
{
    SqlValue::Text(s.clone())
}

/// Items written one after another, separated by a comma and a space.
pub open spec fn comma_list(items: Seq<Seq<char>>) -> Seq<char>
    decreases items.len(),
{
    if items.len() == 0 {
        Seq::empty()
    } else if items.len() == 1 {
        items[0]
    } else {
        comma_list(items.drop_last()) + ", "@ + items.last()
    }
}

/// The placeholders `?1` to `?n`, in order.
pub open spec fn placeholders(n: nat) -> Seq<Seq<char>> {
    Seq::new(n, |i: int| placeholder((i + 1) as nat))
}

/// The assignments `column = ?k` of the listed columns to the placeholders
/// `?1`, `?2`, ... in order.
pub open spec fn assignments(columns: Seq<Seq<char>>) -> Seq<Seq<char>> {
    Seq::new(columns.len(), |i: int| columns[i] + " = "@ + placeholder((i + 1) as nat))
}

/// The columns that the insertion of a record writes, in order.
pub open spec fn insert_columns() -> Seq<Seq<char>> {
    seq![
        "id"@,
        "name"@,
        "path"@,
        "size"@,
        "content_type"@,
        "etag"@,
        "checksum_sha256"@,
        "mode"@,
        "uid"@,
        "gid"@,
        "username"@,
        "groupname"@,
        "mtime"@,
        "ctime"@,
        "atime"@,
        "device"@,
        "inode"@,
        "nlink"@,
        "created_at"@,
        "updated_at"@,
    ]
}

/// The insertion of a file record: the columns, then their placeholders.
pub open spec fn insert_file_sql() -> Seq<char> {
    "INSERT INTO files ("@ + comma_list(insert_columns()) + ") VALUES ("@ + comma_list(
        placeholders(20),
    ) + ")"@
}

/// The value that a record holds in the column named `column`.
pub open spec fn column_value(r: FileRecord, column: Seq<char>) -> SqlArg {
    if column == "id"@ {
        SqlArg::Text(r.id@)
    } else if column == "name"@ {
        SqlArg::Text(r.name@)
    } else if column == "path"@ {
        SqlArg::Text(r.path@)
    } else if column == "size"@ {
        SqlArg::Integer(r.size as int)
    } else if column == "content_type"@ {
        SqlArg::Text(r.content_type@)
    } else if column == "etag"@ {
        text_arg(r.etag)
    } else if column == "checksum_sha256"@ {
        text_arg(r.checksum_sha256)
    } else if column == "mode"@ {
        int_arg(r.mode)
    } else if column == "uid"@ {
        int_arg(r.uid)
    } else if column == "gid"@ {
        int_arg(r.gid)
    } else if column == "username"@ {
        text_arg(r.username)
    } else if column == "groupname"@ {
        text_arg(r.groupname)
    } else if column == "mtime"@ {
        text_arg(r.mtime)
    } else if column == "ctime"@ {
        text_arg(r.ctime)
    } else if column == "atime"@ {
        text_arg(r.atime)
    } else if column == "device"@ {
        int_arg(r.device)
    } else if column == "inode"@ {
        int_arg(r.inode)
    } else if column == "nlink"@ {
        int_arg(r.nlink)
    } else if column == "created_at"@ {
        SqlArg::Text(r.created_at@)
    } else if column == "updated_at"@ {
        SqlArg::Text(r.updated_at@)
    } else if column == "deleted_at"@ {
        text_arg(r.deleted_at)
    } else {
        SqlArg::Null
    }
}

/// Appends the items, separated by a comma and a space.
fn append_comma_list(sql: &mut String, items: &Vec<&str>)
    ensures
        final(sql)@ == old(sql)@ + comma_list(items@.map_values(|t: &str| t@)),
{
    let ghost start = sql@;
    let ghost all = items@.map_values(|t: &str| t@);
    let mut k: usize = 0;
    while k < items.len()
        invariant
            k <= items.len(),
            all == items@.map_values(|t: &str| t@),
            sql@ == start + comma_list(all.take(k as int)),
        decreases items.len() - k,
    {
        if k > 0 {
            sql.append(", ");
        }
        sql.append(items[k]);
        proof {
            assert(all.take(k + 1).drop_last() =~= all.take(k as int));
            assert(all.take(k + 1).last() == items@[k as int]@);
            if k == 0 {
                assert(comma_list(all.take(0)) =~= Seq::<char>::empty());
                assert(all.take(1).len() == 1);
            }
        }
        k = k + 1;
    }
    assert(all.take(items.len() as int) =~= all);
}

/// Appends the placeholders `?1` to `?n`, separated by a comma and a space.
fn append_placeholders(sql: &mut String, n: u64)
    ensures
        final(sql)@ == old(sql)@ + comma_list(placeholders(n as nat)),
{
    let ghost start = sql@;
    let mut k: u64 = 0;
    while k < n
        invariant
            k <= n,
            sql@ == start + comma_list(placeholders(k as nat)),
        decreases n - k,
    {
        if k > 0 {
            sql.append(", ");
        }
        sql.append("?");
        let position = u64_to_decimal(k + 1);
        sql.append(position.as_str());
        proof {
            assert(placeholders((k + 1) as nat).drop_last() =~= placeholders(k as nat));
            assert(placeholders((k + 1) as nat).last() == placeholder((k + 1) as nat));
            if k == 0 {
                assert(comma_list(placeholders(0)) =~= Seq::<char>::empty());
            }
        }
        k = k + 1;
    }
}

/// Appends the assignments of the items to the placeholders `?1`, `?2`, ...
/// in order, separated by a comma and a space.
fn append_assignments(sql: &mut String, items: &Vec<&str>)
    requires
        items@.len() < 1000,
    ensures
        final(sql)@ == old(sql)@ + comma_list(assignments(items@.map_values(|t: &str| t@))),
{
    let ghost start = sql@;
    let ghost all = items@.map_values(|t: &str| t@);
    let mut k: usize = 0;
    while k < items.len()
        invariant
            k <= items.len() < 1000,
            all == items@.map_values(|t: &str| t@),
            sql@ == start + comma_list(assignments(all.take(k as int))),
        decreases items.len() - k,
    {
        if k > 0 {
            sql.append(", ");
        }
        sql.append(items[k]);
        sql.append(" = ");
        sql.append("?");
        let position = u64_to_decimal((k + 1) as u64);
        sql.append(position.as_str());
        proof {
            assert(assignments(all.take(k + 1)).drop_last() =~= assignments(all.take(k as int)));
            assert(assignments(all.take(k + 1)).last() =~= items@[k as int]@ + " = "@ + placeholder(
                (k + 1) as nat,
            ));
            if k == 0 {
                assert(comma_list(assignments(all.take(0))) =~= Seq::<char>::empty());
            }
        }
        k = k + 1;
    }
    assert(all.take(items.len() as int) =~= all);
}

/// The record's POSIX attributes as parameters, from `mode` to `nlink`.
pub open spec fn attribute_args(r: FileRecord) -> Seq<SqlArg> {
    seq![
        int_arg(r.mode),
        int_arg(r.uid),
        int_arg(r.gid),
        text_arg(r.username),
        text_arg(r.groupname),
        text_arg(r.mtime),
        text_arg(r.ctime),
        text_arg(r.atime),
        int_arg(r.device),
        int_arg(r.inode),
        int_arg(r.nlink),
    ]
}

/// The parameters of the insertion of a record, in column order.
pub open spec fn insert_file_args(r: FileRecord) -> Seq<SqlArg> {
    seq![
        SqlArg::Text(r.id@),
        SqlArg::Text(r.name@),
        SqlArg::Text(r.path@),
        SqlArg::Integer(r.size as int),
        SqlArg::Text(r.content_type@),
        text_arg(r.etag),
        text_arg(r.checksum_sha256),
    ] + attribute_args(r) + seq![SqlArg::Text(r.created_at@), SqlArg::Text(r.updated_at@)]
}

fn push_attributes(params: &mut Vec<SqlValue>, r: &FileRecord)
    ensures
        final(params)@.map_values(|v: SqlValue| v@) == old(params)@.map_values(|v: SqlValue| v@)
            + attribute_args(*r),
{
    let ghost before = params@;
    params.push(int_value(r.mode));
    params.push(int_value(r.uid));
    params.push(int_value(r.gid));
    params.push(text_value(&r.username));
    params.push(text_value(&r.groupname));
    params.push(text_value(&r.mtime));
    params.push(text_value(&r.ctime));
    params.push(text_value(&r.atime));
    params.push(int_value(r.device));
    params.push(int_value(r.inode));
    params.push(int_value(r.nlink));
    assert(params@.map_values(|v: SqlValue| v@) =~= before.map_values(|v: SqlValue| v@)
        + attribute_args(*r));
}

/// The statement that stores a new file record.
pub fn insert_file_statement(r: &FileRecord) -> (st: Statement)
    ensures
        st.sql@ == insert_file_sql(),
        st.args() == insert_file_args(*r),
{
    let mut params: Vec<SqlValue> = Vec::new();
    params.push(text_of(&r.id));
    params.push(text_of(&r.name));
    params.push(text_of(&r.path));
    params.push(SqlValue::Integer(r.size));
    params.push(text_of(&r.content_type));
    params.push(text_value(&r.etag));
    params.push(text_value(&r.checksum_sha256));
    let ghost head = seq![
        SqlArg::Text(r.id@),
        SqlArg::Text(r.name@),
        SqlArg::Text(r.path@),
        SqlArg::Integer(r.size as int),
        SqlArg::Text(r.content_type@),
        text_arg(r.etag),
        text_arg(r.checksum_sha256),
    ];
    assert(params@.map_values(|v: SqlValue| v@) =~= head);
    push_attributes(&mut params, r);
    let ghost middle = params@.map_values(|v: SqlValue| v@);
    params.push(text_of(&r.created_at));
    params.push(text_of(&r.updated_at));
    assert(params@.map_values(|v: SqlValue| v@) =~= middle + seq![
        SqlArg::Text(r.created_at@),
        SqlArg::Text(r.updated_at@),
    ]);
    let mut columns: Vec<&str> = Vec::new();
    columns.push("id");
    columns.push("name");
    columns.push("path");
    columns.push("size");
    columns.push("content_type");
    columns.push("etag");
    columns.push("checksum_sha256");
    columns.push("mode");
    columns.push("uid");
    columns.push("gid");
    columns.push("username");
    columns.push("groupname");
    columns.push("mtime");
    columns.push("ctime");
    columns.push("atime");
    columns.push("device");
    columns.push("inode");
    columns.push("nlink");
    columns.push("created_at");
    columns.push("updated_at");
    assert(columns@.map_values(|t: &str| t@) =~= insert_columns());
    let mut sql = String::from_str("INSERT INTO files (");
    append_comma_list(&mut sql, &columns);
    sql.append(") VALUES (");
    append_placeholders(&mut sql, 20);
    sql.append(")");
    let st = Statement { sql, params };
    assert(st.args() =~= insert_file_args(*r));
    st
}

/// The columns that the overwrite of a record sets, in order: all but the
/// id and the creation time.
pub open spec fn update_columns() -> Seq<Seq<char>> {
    seq![
        "name"@,
        "path"@,
        "size"@,
        "content_type"@,
        "etag"@,
        "checksum_sha256"@,
        "mode"@,
        "uid"@,
        "gid"@,
        "username"@,
        "groupname"@,
        "mtime"@,
        "ctime"@,
        "atime"@,
        "device"@,
        "inode"@,
        "nlink"@,
        "updated_at"@,
    ]
}

/// The overwrite of a file record under its id: each column set to its
/// placeholder, the deletion time cleared, the row chosen by the last
/// placeholder.
pub open spec fn update_file_sql() -> Seq<char> {
    "UPDATE files SET "@ + comma_list(assignments(update_columns())) + ", deleted_at = NULL WHERE id = "@
        + placeholder(19)
}

/// The parameters of the overwrite of the record with id `id`: every column
/// but the id and the creation time, then the id.
pub open spec fn update_file_args(id: Seq<char>, r: FileRecord) -> Seq<SqlArg> {
    seq![
        SqlArg::Text(r.name@),
        SqlArg::Text(r.path@),
        SqlArg::Integer(r.size as int),
        SqlArg::Text(r.content_type@),
        text_arg(r.etag),
        text_arg(r.checksum_sha256),
    ] + attribute_args(r) + seq![SqlArg::Text(r.updated_at@), SqlArg::Text(id)]
}

/// The statement that overwrites the record with id `id`; it also clears
/// the record's deletion time.
pub fn update_file_statement(id: &str, r: &FileRecord) -> (st: Statement)
    ensures
        st.sql@ == update_file_sql(),
        st.args() == update_file_args(id@, *r),
{
    let mut params: Vec<SqlValue> = Vec::new();
    params.push(text_of(&r.name));
    params.push(text_of(&r.path));
    params.push(SqlValue::Integer(r.size));
    params.push(text_of(&r.content_type));
    params.push(text_value(&r.etag));
    params.push(text_value(&r.checksum_sha256));
    let ghost head = seq![
        SqlArg::Text(r.name@),
        SqlArg::Text(r.path@),
        SqlArg::Integer(r.size as int),
        SqlArg::Text(r.content_type@),
        text_arg(r.etag),
        text_arg(r.checksum_sha256),
    ];
    assert(params@.map_values(|v: SqlValue| v@) =~= head);
    push_attributes(&mut params, r);
    let ghost middle = params@.map_values(|v: SqlValue| v@);
    params.push(text_of(&r.updated_at));
    params.push(SqlValue::Text(String::from_str(id)));
    assert(params@.map_values(|v: SqlValue| v@) =~= middle + seq![
        SqlArg::Text(r.updated_at@),
        SqlArg::Text(id@),
    ]);
    let mut columns: Vec<&str> = Vec::new();
    columns.push("name");
    columns.push("path");
    columns.push("size");
    columns.push("content_type");
    columns.push("etag");
    columns.push("checksum_sha256");
    columns.push("mode");
    columns.push("uid");
    columns.push("gid");
    columns.push("username");
    columns.push("groupname");
    columns.push("mtime");
    columns.push("ctime");
    columns.push("atime");
    columns.push("device");
    columns.push("inode");
    columns.push("nlink");
    columns.push("updated_at");
    assert(columns@.map_values(|t: &str| t@) =~= update_columns());
    let mut sql = String::from_str("UPDATE files SET ");
    append_assignments(&mut sql, &columns);
    sql.append(", deleted_at = NULL WHERE id = ");
    sql.append("?");
    let last = u64_to_decimal(19);
    sql.append(last.as_str());
    let st = Statement { sql, params };
    assert(st.args() =~= update_file_args(id@, *r));
    st
}

/// The column names differ from one another: by their length, or else by
/// their first letter.
proof fn lemma_column_names_differ()
    ensures
        "id"@.len() == 2 && "id"@[0] == 'i',
        "name"@.len() == 4 && "name"@[0] == 'n',
        "path"@.len() == 4 && "path"@[0] == 'p',
        "size"@.len() == 4 && "size"@[0] == 's',
        "content_type"@.len() == 12 && "content_type"@[0] == 'c',
        "etag"@.len() == 4 && "etag"@[0] == 'e',
        "checksum_sha256"@.len() == 15 && "checksum_sha256"@[0] == 'c',
        "mode"@.len() == 4 && "mode"@[0] == 'm',
        "uid"@.len() == 3 && "uid"@[0] == 'u',
        "gid"@.len() == 3 && "gid"@[0] == 'g',
        "username"@.len() == 8 && "username"@[0] == 'u',
        "groupname"@.len() == 9 && "groupname"@[0] == 'g',
        "mtime"@.len() == 5 && "mtime"@[0] == 'm',
        "ctime"@.len() == 5 && "ctime"@[0] == 'c',
        "atime"@.len() == 5 && "atime"@[0] == 'a',
        "device"@.len() == 6 && "device"@[0] == 'd',
        "inode"@.len() == 5 && "inode"@[0] == 'i',
        "nlink"@.len() == 5 && "nlink"@[0] == 'n',
        "created_at"@.len() == 10 && "created_at"@[0] == 'c',
        "updated_at"@.len() == 10 && "updated_at"@[0] == 'u',
        "deleted_at"@.len() == 10 && "deleted_at"@[0] == 'd',
{
    reveal_strlit("id");
    reveal_strlit("name");
    reveal_strlit("path");
    reveal_strlit("size");
    reveal_strlit("content_type");
    reveal_strlit("etag");
    reveal_strlit("checksum_sha256");
    reveal_strlit("mode");
    reveal_strlit("uid");
    reveal_strlit("gid");
    reveal_strlit("username");
    reveal_strlit("groupname");
    reveal_strlit("mtime");
    reveal_strlit("ctime");
    reveal_strlit("atime");
    reveal_strlit("device");
    reveal_strlit("inode");
    reveal_strlit("nlink");
    reveal_strlit("created_at");
    reveal_strlit("updated_at");
    reveal_strlit("deleted_at");
}

/// Inserting a record writes each of its values into the column of that
/// name: the statement lists the columns with the placeholders `?1`, `?2`,
/// ... in the same order, and the value bound to the placeholder at each
/// position is the record's value of the column listed at that position.
pub proof fn lemma_insert_binds_named_columns(r: FileRecord)
    ensures
        insert_file_sql() == "INSERT INTO files ("@ + comma_list(insert_columns()) + ") VALUES ("@
            + comma_list(placeholders(insert_columns().len())) + ")"@,
        insert_file_args(r).len() == insert_columns().len(),
        forall|k: int|
            0 <= k < insert_columns().len() ==> #[trigger] insert_file_args(r)[k] == column_value(
                r,
                insert_columns()[k],
            ),
{
    lemma_column_names_differ();
    assert forall|k: int| 0 <= k < insert_columns().len() implies #[trigger] insert_file_args(r)[k]
        == column_value(r, insert_columns()[k]) by {
        if k == 0 {
            assert(insert_file_args(r)[0] == column_value(r, insert_columns()[0]));
        } else if k == 1 {
            assert(insert_file_args(r)[1] == column_value(r, insert_columns()[1]));
        } else if k == 2 {
            assert(insert_file_args(r)[2] == column_value(r, insert_columns()[2]));
        } else if k == 3 {
            assert(insert_file_args(r)[3] == column_value(r, insert_columns()[3]));
        } else if k == 4 {
            assert(insert_file_args(r)[4] == column_value(r, insert_columns()[4]));
        } else if k == 5 {
            assert(insert_file_args(r)[5] == column_value(r, insert_columns()[5]));
        } else if k == 6 {
            assert(insert_file_args(r)[6] == column_value(r, insert_columns()[6]));
        } else if k == 7 {
            assert(insert_file_args(r)[7] == column_value(r, insert_columns()[7]));
        } else if k == 8 {
            assert(insert_file_args(r)[8] == column_value(r, insert_columns()[8]));
        } else if k == 9 {
            assert(insert_file_args(r)[9] == column_value(r, insert_columns()[9]));
        } else if k == 10 {
            assert(insert_file_args(r)[10] == column_value(r, insert_columns()[10]));
        } else if k == 11 {
            assert(insert_file_args(r)[11] == column_value(r, insert_columns()[11]));
        } else if k == 12 {
            assert(insert_file_args(r)[12] == column_value(r, insert_columns()[12]));
        } else if k == 13 {
            assert(insert_file_args(r)[13] == column_value(r, insert_columns()[13]));
        } else if k == 14 {
            assert(insert_file_args(r)[14] == column_value(r, insert_columns()[14]));
        } else if k == 15 {
            assert(insert_file_args(r)[15] == column_value(r, insert_columns()[15]));
        } else if k == 16 {
            assert(insert_file_args(r)[16] == column_value(r, insert_columns()[16]));
        } else if k == 17 {
            assert(insert_file_args(r)[17] == column_value(r, insert_columns()[17]));
        } else if k == 18 {
            assert(insert_file_args(r)[18] == column_value(r, insert_columns()[18]));
        } else if k == 19 {
            assert(insert_file_args(r)[19] == column_value(r, insert_columns()[19]));
        }
    }
}

/// Overwriting a record under an id sets each column to the record's value
/// of that column: the statement assigns the listed columns to the
/// placeholders `?1`, `?2`, ... in order, the value bound to each of them is
/// the record's value of the column assigned to it, and the last parameter
/// is the id that chooses the row.
pub proof fn lemma_update_binds_named_columns(id: Seq<char>, r: FileRecord)
    ensures
        update_file_sql() == "UPDATE files SET "@ + comma_list(assignments(update_columns()))
            + ", deleted_at = NULL WHERE id = "@ + placeholder(update_columns().len() + 1),
        update_file_args(id, r).len() == update_columns().len() + 1,
        forall|k: int|
            0 <= k < update_columns().len() ==> #[trigger] update_file_args(id, r)[k]
                == column_value(r, update_columns()[k]),
        update_file_args(id, r)[update_columns().len() as int] == SqlArg::Text(id),
{
    lemma_column_names_differ();
    assert forall|k: int| 0 <= k < update_columns().len() implies #[trigger] update_file_args(id, r)[k]
        == column_value(r, update_columns()[k]) by {
        if k == 0 {
            assert(update_file_args(id, r)[0] == column_value(r, update_columns()[0]));
        } else if k == 1 {
            assert(update_file_args(id, r)[1] == column_value(r, update_columns()[1]));
        } else if k == 2 {
            assert(update_file_args(id, r)[2] == column_value(r, update_columns()[2]));
        } else if k == 3 {
            assert(update_file_args(id, r)[3] == column_value(r, update_columns()[3]));
        } else if k == 4 {
            assert(update_file_args(id, r)[4] == column_value(r, update_columns()[4]));
        } else if k == 5 {
            assert(update_file_args(id, r)[5] == column_value(r, update_columns()[5]));
        } else if k == 6 {
            assert(update_file_args(id, r)[6] == column_value(r, update_columns()[6]));
        } else if k == 7 {
            assert(update_file_args(id, r)[7] == column_value(r, update_columns()[7]));
        } else if k == 8 {
            assert(update_file_args(id, r)[8] == column_value(r, update_columns()[8]));
        } else if k == 9 {
            assert(update_file_args(id, r)[9] == column_value(r, update_columns()[9]));
        } else if k == 10 {
            assert(update_file_args(id, r)[10] == column_value(r, update_columns()[10]));
        } else if k == 11 {
            assert(update_file_args(id, r)[11] == column_value(r, update_columns()[11]));
        } else if k == 12 {
            assert(update_file_args(id, r)[12] == column_value(r, update_columns()[12]));
        } else if k == 13 {
            assert(update_file_args(id, r)[13] == column_value(r, update_columns()[13]));
        } else if k == 14 {
            assert(update_file_args(id, r)[14] == column_value(r, update_columns()[14]));
        } else if k == 15 {
            assert(update_file_args(id, r)[15] == column_value(r, update_columns()[15]));
        } else if k == 16 {
            assert(update_file_args(id, r)[16] == column_value(r, update_columns()[16]));
        } else if k == 17 {
            assert(update_file_args(id, r)[17] == column_value(r, update_columns()[17]));
        }
    }
}

/// The statement that stores an upload's record: an overwrite under the id
/// of the file it replaces, else an insertion.
pub fn write_record_statement(replaced: &Option<String>, r: &FileRecord) -> (st: Statement)
    ensures
        match replaced {
            Some(id) => st.sql@ == update_file_sql() && st.args() == update_file_args(id@, *r),
            None => st.sql@ == insert_file_sql() && st.args() == insert_file_args(*r),
        },
{
    match replaced {
        Some(id) => update_file_statement(id.as_str(), r),
        None => insert_file_statement(r),
    }
}

/// The lookup of a file by path and name, deleted or not.
pub open spec fn find_by_path_and_name_sql() -> Seq<char> {
    "SELECT id, checksum_sha256, deleted_at FROM files WHERE path = ?1 AND name = ?2"@
}

/// The statement that looks a file up by path and name, deleted or not.
pub fn find_by_path_and_name_statement(path: &str, name: &str) -> (st: Statement)
    ensures
        st.sql@ == find_by_path_and_name_sql(),
        st.args() == seq![SqlArg::Text(path@), SqlArg::Text(name@)],
{
    let mut params: Vec<SqlValue> = Vec::new();
    params.push(SqlValue::Text(String::from_str(path)));
    params.push(SqlValue::Text(String::from_str(name)));
    let st = Statement {
        sql: String::from_str(
            "SELECT id, checksum_sha256, deleted_at FROM files WHERE path = ?1 AND name = ?2",
        ),
        params,
    };
    assert(st.args() =~= seq![SqlArg::Text(path@), SqlArg::Text(name@)]);
    st
}

/// How a lookup by path and name ended, as the database reported it.
#[derive(Debug)]
pub enum LookupResult {
    /// A row was found.
    Found(ExistingFile),
    /// No row matched.
    NoRows,
    /// The database failed, with its message.
    Failed(String),
}

/// The outcome of a lookup by path and name: the row when one was found,
/// nothing when none matched, an internal error with the database's
/// message otherwise.
pub fn find_outcome(res: LookupResult) -> (r: Result<Option<ExistingFile>, AppError>)
    ensures
        match res {
            LookupResult::Found(row) => r == Ok::<Option<ExistingFile>, AppError>(Some(row)),
            LookupResult::NoRows => r == Ok::<Option<ExistingFile>, AppError>(None),
            LookupResult::Failed(m) => r == Err::<Option<ExistingFile>, AppError>(
                AppError::Internal(m),
            ),
        },
{
    match res {
        LookupResult::Found(row) => Ok(Some(row)),
        LookupResult::NoRows => Ok(None),
        LookupResult::Failed(m) => Err(AppError::Internal(m)),
    }
}

/// The columns of a file record, in the order that records are read.
pub open spec fn file_columns() -> Seq<char> {
    "SELECT id, name, path, size, content_type, etag, checksum_sha256,\n         mode, uid, gid, username, groupname, mtime, ctime, atime,\n         device, inode, nlink, created_at, updated_at, deleted_at\n         FROM files WHERE "@
}

/// The lookup of a live file by id.
pub open spec fn get_by_id_sql() -> Seq<char> {
    file_columns() + "id = ?1 AND deleted_at IS NULL"@
}

/// The statement that reads the live file with id `id`.
pub fn get_by_id_statement(id: &str) -> (st: Statement)
    ensures
        st.sql@ == get_by_id_sql(),
        st.args() == seq![SqlArg::Text(id@)],
{
    let mut sql = String::from_str(
        "SELECT id, name, path, size, content_type, etag, checksum_sha256,\n         mode, uid, gid, username, groupname, mtime, ctime, atime,\n         device, inode, nlink, created_at, updated_at, deleted_at\n         FROM files WHERE ",
    );
    sql.append("id = ?1 AND deleted_at IS NULL");
    let mut params: Vec<SqlValue> = Vec::new();
    params.push(SqlValue::Text(String::from_str(id)));
    let st = Statement { sql, params };
    assert(st.args() =~= seq![SqlArg::Text(id@)]);
    st
}

/// The lookup of a stored record by id, deleted or not.
pub open spec fn get_stored_by_id_sql() -> Seq<char> {
    file_columns() + "id = ?1"@
}

/// The statement that reads the record with id `id`, deleted or not.
pub fn get_stored_by_id_statement(id: &str) -> (st: Statement)
    ensures
        st.sql@ == get_stored_by_id_sql(),
        st.args() == seq![SqlArg::Text(id@)],
{
    let mut sql = String::from_str(
        "SELECT id, name, path, size, content_type, etag, checksum_sha256,\n         mode, uid, gid, username, groupname, mtime, ctime, atime,\n         device, inode, nlink, created_at, updated_at, deleted_at\n         FROM files WHERE ",
    );
    sql.append("id = ?1");
    let mut params: Vec<SqlValue> = Vec::new();
    params.push(SqlValue::Text(String::from_str(id)));
    let st = Statement { sql, params };
    assert(st.args() =~= seq![SqlArg::Text(id@)]);
    st
}

/// The text of the error for a file that does not exist or was deleted.
pub open spec fn not_found_message(id: Seq<char>) -> Seq<char> {
    "File "@ + id + " not found"@
}

/// The error for a file that does not exist or was deleted.
pub fn file_not_found(id: &str) -> (e: AppError)
    ensures
        e is NotFound,
        e.spec_message() == not_found_message(id@),
{
    let mut m = String::from_str("File ");
    m.append(id);
    m.append(" not found");
    AppError::NotFound(m)
}

/// The soft deletion of a live file.
pub open spec fn soft_delete_sql() -> Seq<char> {
    "UPDATE files SET deleted_at = ?1 WHERE id = ?2 AND deleted_at IS NULL"@
}

/// The statement that marks the live file with id `id` deleted at
/// `deleted_at`; the row stays.
pub fn soft_delete_statement(id: &str, deleted_at: &str) -> (st: Statement)
    ensures
        st.sql@ == soft_delete_sql(),
        st.args() == seq![SqlArg::Text(deleted_at@), SqlArg::Text(id@)],
{
    let mut params: Vec<SqlValue> = Vec::new();
    params.push(SqlValue::Text(String::from_str(deleted_at)));
    params.push(SqlValue::Text(String::from_str(id)));
    let st = Statement {
        sql: String::from_str("UPDATE files SET deleted_at = ?1 WHERE id = ?2 AND deleted_at IS NULL"),
        params,
    };
    assert(st.args() =~= seq![SqlArg::Text(deleted_at@), SqlArg::Text(id@)]);
    st
}

/// The statement that marks the live file with id `id` deleted now.
pub fn soft_delete_now(id: &str) -> (st: Statement)
    ensures
        st.sql@ == soft_delete_sql(),
        st.args().len() == 2,
        st.args()[0] matches SqlArg::Text(at) && is_instant_text(at),
        st.args()[1] == SqlArg::Text(id@),
{
    let now = now_text();
    soft_delete_statement(id, now.as_str())
}

/// The outcome of a soft deletion that changed `updated` rows: the file was
/// not found when none changed.
pub fn soft_delete_outcome(updated: usize, id: &str) -> (r: Result<(), AppError>)
    ensures
        r is Ok <==> updated != 0,
        r matches Err(e) ==> e is NotFound && e.spec_message() == not_found_message(id@),
{
    if updated == 0 {
        Err(file_not_found(id))
    } else {
        Ok(())
    }
}

/// A parameter placeholder: `?` and the parameter's position.
pub open spec fn placeholder(position: nat) -> Seq<char> {
    "?"@ + nat_decimal(position)
}

/// The condition and the parameters that a file filter adds to a query:
/// a path prefix match, then a name substring match.
pub open spec fn file_filter_sql(f: FileFilter) -> Seq<char> {
    let path_part = match f.path {
        Some(_) => " AND path LIKE "@ + placeholder(1),
        None => Seq::<char>::empty(),
    };
    let search_position: nat = if f.path is Some { 2 } else { 1 };
    let search_part = match f.search {
        Some(_) => " AND name LIKE "@ + placeholder(search_position),
        None => Seq::<char>::empty(),
    };
    path_part + search_part
}

/// The parameters of a file filter: `path%` for the path, `%search%` for
/// the name.
pub open spec fn file_filter_args(f: FileFilter) -> Seq<SqlArg> {
    let path_arg = match f.path {
        Some(p) => seq![SqlArg::Text(p@ + "%"@)],
        None => Seq::<SqlArg>::empty(),
    };
    let search_arg = match f.search {
        Some(q) => seq![SqlArg::Text("%"@ + q@ + "%"@)],
        None => Seq::<SqlArg>::empty(),
    };
    path_arg + search_arg
}

/// A path filter lists exactly the files whose path begins with the
/// requested text, as given, trailing slashes included: its pattern is that
/// text followed by one `%`. A name search lists the files whose name holds
/// the requested text: its pattern is that text between two `%`. Each
/// requested filter binds one parameter, the path's first.
pub proof fn lemma_filter_patterns(f: FileFilter)
    ensures
        file_filter_args(f).len() == (if f.path is Some { 1int } else { 0int }) + (if f.search is Some {
            1int
        } else {
            0int
        }),
        f.path matches Some(p) ==> file_filter_args(f)[0] == SqlArg::Text(p@.push('%')),
        f.search matches Some(q) ==> file_filter_args(f).last() == SqlArg::Text(
            seq!['%'] + q@ + seq!['%'],
        ),
{
    reveal_strlit("%");
    if let Some(p) = f.path {
        assert(p@ + "%"@ =~= p@.push('%'));
    }
    if let Some(q) = f.search {
        assert("%"@ + q@ + "%"@ =~= seq!['%'] + q@ + seq!['%']);
    }
}

/// Appends a condition on the next parameter, which is `value`.
fn push_condition(sql: &mut String, params: &mut Vec<SqlValue>, clause: &str, value: String)
    requires
        old(params)@.len() < 100,
    ensures
        final(sql)@ == old(sql)@ + clause@ + placeholder((old(params)@.len() + 1) as nat),
        final(params)@.len() == old(params)@.len() + 1,
        final(params)@.map_values(|v: SqlValue| v@) == old(params)@.map_values(|v: SqlValue| v@)
            .push(SqlArg::Text(value@)),
{
    let ghost before = params@;
    params.push(SqlValue::Text(value));
    sql.append(clause);
    sql.append("?");
    let position = u64_to_decimal(params.len() as u64);
    sql.append(position.as_str());
    assert(params@.map_values(|v: SqlValue| v@) =~= before.map_values(|v: SqlValue| v@).push(
        SqlArg::Text(value@),
    ));
}

fn push_file_filter(sql: &mut String, params: &mut Vec<SqlValue>, f: &FileFilter)
    requires
        old(params)@.len() == 0,
    ensures
        final(sql)@ == old(sql)@ + file_filter_sql(*f),
        final(params)@.map_values(|v: SqlValue| v@) == file_filter_args(*f),
{
    let ghost start = sql@;
    assert(params@.map_values(|v: SqlValue| v@) =~= Seq::<SqlArg>::empty());
    if let Some(path_filter) = &f.path {
        let mut pattern = path_filter.clone();
        pattern.append("%");
        push_condition(sql, params, " AND path LIKE ", pattern);
    }
    if let Some(search) = &f.search {
        let mut pattern = String::from_str("%");
        pattern.append(search.as_str());
        pattern.append("%");
        push_condition(sql, params, " AND name LIKE ", pattern);
    }
    assert(sql@ =~= start + file_filter_sql(*f));
    assert(params@.map_values(|v: SqlValue| v@) =~= file_filter_args(*f));
}

/// The number of files a listing returns at most: the requested limit,
/// fifty by default, capped at two hundred.
pub open spec fn file_list_limit(f: FileFilter) -> i64 {
    let requested = match f.limit {
        Some(l) => l,
        None => 50,
    };
    if requested < 200 {
        requested
    } else {
        200
    }
}

/// The number of files a listing skips: the requested offset, zero by
/// default.
pub open spec fn list_offset(offset: Option<i64>) -> i64 {
    match offset {
        Some(o) => o,
        None => 0,
    }
}

/// The listing of live files, newest first.
pub open spec fn list_files_sql(f: FileFilter) -> Seq<char> {
    file_columns() + "deleted_at IS NULL"@ + file_filter_sql(f) + " ORDER BY created_at DESC"@
        + " LIMIT "@ + int_decimal(file_list_limit(f) as int) + " OFFSET "@ + int_decimal(
        list_offset(f.offset) as int,
    )
}

fn push_page(sql: &mut String, limit: i64, offset: i64)
    ensures
        final(sql)@ == old(sql)@ + " LIMIT "@ + int_decimal(limit as int) + " OFFSET "@
            + int_decimal(offset as int),
{
    sql.append(" LIMIT ");
    let l = i64_to_decimal(limit);
    sql.append(l.as_str());
    sql.append(" OFFSET ");
    let o = i64_to_decimal(offset);
    sql.append(o.as_str());
}

/// The statement that lists live files under a filter, newest first.
pub fn list_files_statement(f: &FileFilter) -> (st: Statement)
    ensures
        st.sql@ == list_files_sql(*f),
        st.args() == file_filter_args(*f),
{
    let requested = match f.limit {
        Some(l) => l,
        None => 50,
    };
    let limit = if requested < 200 {
        requested
    } else {
        200
    };
    let offset = match f.offset {
        Some(o) => o,
        None => 0,
    };
    let mut sql = String::from_str(
        "SELECT id, name, path, size, content_type, etag, checksum_sha256,\n         mode, uid, gid, username, groupname, mtime, ctime, atime,\n         device, inode, nlink, created_at, updated_at, deleted_at\n         FROM files WHERE ",
    );
    sql.append("deleted_at IS NULL");
    let mut params: Vec<SqlValue> = Vec::new();
    push_file_filter(&mut sql, &mut params, f);
    sql.append(" ORDER BY created_at DESC");
    push_page(&mut sql, limit, offset);
    Statement { sql, params }
}

/// The count of live files under a filter.
pub open spec fn count_files_sql(f: FileFilter) -> Seq<char> {
    "SELECT COUNT(*) FROM files WHERE deleted_at IS NULL"@ + file_filter_sql(f)
}

/// The statement that counts live files under a filter.
pub fn count_files_statement(f: &FileFilter) -> (st: Statement)
    ensures
        st.sql@ == count_files_sql(*f),
        st.args() == file_filter_args(*f),
{
    let mut sql = String::from_str("SELECT COUNT(*) FROM files WHERE deleted_at IS NULL");
    let mut params: Vec<SqlValue> = Vec::new();
    push_file_filter(&mut sql, &mut params, f);
    Statement { sql, params }
}

/// The reading of the path and name of every file, deleted ones included.
pub open spec fn all_paths_sql() -> Seq<char> {
    "SELECT path, name FROM files"@
}

/// The statement that reads the path and name of every file.
pub fn all_paths_statement() -> (st: Statement)
    ensures
        st.sql@ == all_paths_sql(),
        st.args().len() == 0,
{
    Statement { sql: String::from_str("SELECT path, name FROM files"), params: Vec::new() }
}

/// The object keys of stored files, one per (path, name) row, in row order.
pub fn list_all_s3_keys(rows: &Vec<(String, String)>) -> (keys: Vec<String>)
    ensures
        keys@.len() == rows@.len(),
        forall|i: int|
            0 <= i < rows@.len() ==> #[trigger] keys@[i]@ == s3_key_spec(rows@[i].0@, rows@[i].1@),
{
    let mut keys: Vec<String> = Vec::new();
    let mut i: usize = 0;
    while i < rows.len()
        invariant
            i <= rows@.len(),
            keys@.len() == i,
            forall|j: int|
                0 <= j < i ==> #[trigger] keys@[j]@ == s3_key_spec(rows@[j].0@, rows@[j].1@),
        decreases rows@.len() - i,
    {
        let key = s3_key(rows[i].0.as_str(), rows[i].1.as_str());
        keys.push(key);
        i = i + 1;
    }
    keys
}

/// The number of events the history returns at most: the requested limit,
/// a hundred by default, capped at a thousand.
pub open spec fn event_list_limit(f: EventHistoryFilter) -> i64 {
    let requested = match f.limit {
        Some(l) => l,
        None => 100,
    };
    if requested < 1000 {
        requested
    } else {
        1000
    }
}

/// The condition that an event filter adds: the event type, then the
/// earliest creation time.
pub open spec fn event_filter_sql(f: EventHistoryFilter) -> Seq<char> {
    let type_part = match f.event_type {
        Some(_) => " AND event_type = "@ + placeholder(1),
        None => Seq::<char>::empty(),
    };
    let since_position: nat = if f.event_type is Some { 2 } else { 1 };
    let since_part = match f.since {
        Some(_) => " AND created_at >= "@ + placeholder(since_position),
        None => Seq::<char>::empty(),
    };
    type_part + since_part
}

/// The parameters of an event filter.
pub open spec fn event_filter_args(f: EventHistoryFilter) -> Seq<SqlArg> {
    let type_arg = match f.event_type {
        Some(t) => seq![SqlArg::Text(t@)],
        None => Seq::<SqlArg>::empty(),
    };
    let since_arg = match f.since {
        Some(s) => seq![SqlArg::Text(s@)],
        None => Seq::<SqlArg>::empty(),
    };
    type_arg + since_arg
}

/// The listing of persisted events, newest first.
pub open spec fn list_events_sql(f: EventHistoryFilter) -> Seq<char> {
    "SELECT id, event_type, resource_type, resource_id, payload, created_at FROM events WHERE 1=1"@
        + event_filter_sql(f) + " ORDER BY id DESC"@ + " LIMIT "@ + int_decimal(
        event_list_limit(f) as int,
    ) + " OFFSET "@ + int_decimal(list_offset(f.offset) as int)
}

/// The statement that lists persisted events under a filter, newest first.
pub fn list_events_statement(f: &EventHistoryFilter) -> (st: Statement)
    ensures
        st.sql@ == list_events_sql(*f),
        st.args() == event_filter_args(*f),
{
    let requested = match f.limit {
        Some(l) => l,
        None => 100,
    };
    let limit = if requested < 1000 {
        requested
    } else {
        1000
    };
    let offset = match f.offset {
        Some(o) => o,
        None => 0,
    };
    let mut sql = String::from_str(
        "SELECT id, event_type, resource_type, resource_id, payload, created_at FROM events WHERE 1=1",
    );
    let ghost start = sql@;
    let mut params: Vec<SqlValue> = Vec::new();
    assert(params@.map_values(|v: SqlValue| v@) =~= Seq::<SqlArg>::empty());
    if let Some(event_type) = &f.event_type {
        push_condition(&mut sql, &mut params, " AND event_type = ", event_type.clone());
    }
    if let Some(since) = &f.since {
        push_condition(&mut sql, &mut params, " AND created_at >= ", since.clone());
    }
    assert(sql@ =~= start + event_filter_sql(*f));
    assert(params@.map_values(|v: SqlValue| v@) =~= event_filter_args(*f));
    sql.append(" ORDER BY id DESC");
    push_page(&mut sql, limit, offset);
    Statement { sql, params }
}

/// Listings are paginated: a file listing returns at most two hundred
/// records and an event history at most a thousand events, whatever limit
/// is requested.
pub proof fn lemma_listing_limits_capped(f: FileFilter, g: EventHistoryFilter)
    ensures
        file_list_limit(f) <= 200,
        event_list_limit(g) <= 1000,
        f.limit is None ==> file_list_limit(f) == 50,
        g.limit is None ==> event_list_limit(g) == 100,
{
}

/// The POSIX attributes of upload metadata as parameters, from `mode` to
/// `nlink`.
pub open spec fn metadata_args(m: UploadMetadata) -> Seq<SqlArg> {
    seq![
        int_arg(m.mode),
        int_arg(m.uid),
        int_arg(m.gid),
        text_arg(m.username),
        text_arg(m.groupname),
        text_arg(m.mtime),
        text_arg(m.ctime),
        text_arg(m.atime),
        int_arg(m.device),
        int_arg(m.inode),
        int_arg(m.nlink),
    ]
}

/// Uploads keep their POSIX metadata: the record that an upload stores is
/// inserted with the upload's name, path, content checksum and every
/// attribute of its metadata.
pub proof fn lemma_upload_metadata_is_stored(p: PreparedUpload, r: FileRecord, etag: Seq<char>)
    requires
        prepared_wf(p),
        record_of_upload(r, p, etag),
    ensures
        insert_file_args(r)[1] == SqlArg::Text(p.file_name@),
        insert_file_args(r)[2] == SqlArg::Text(p.meta.path@),
        insert_file_args(r)[3] == SqlArg::Integer(p.data@.len() as int),
        insert_file_args(r)[6] == SqlArg::Text(checksum_of(p.data@)),
        insert_file_args(r).subrange(7, 18) == metadata_args(p.meta),
        update_file_args(r.id@, r).subrange(6, 17) == metadata_args(p.meta),
{
    assert(insert_file_args(r).subrange(7, 18) =~= metadata_args(p.meta));
    assert(update_file_args(r.id@, r).subrange(6, 17) =~= metadata_args(p.meta));
}

} // verus!
