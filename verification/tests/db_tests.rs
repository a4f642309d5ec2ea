use database::open;
use database::open_in_memory;
use database::Database;

fn drain(db: &mut Database) -> Vec<database::Row> {
    let mut rows = Vec::new();
    while let Some(row) = db.next() {
        rows.push(row);
    }
    rows
}

#[test]
fn text_round_trip() {
    let conn = open_in_memory("trip").unwrap();
    conn.execute("create table t (name text)", []).unwrap();
    conn.execute("insert into t values ('héllo world')", []).unwrap();
    let mut db = Database::fetch(&conn, "select name from t");
    let row = db.next().unwrap();
    assert_eq!(row.get("name"), Some(String::from("héllo world")));
}

#[test]
fn empty_text_round_trip() {
    let conn = open_in_memory("trip2").unwrap();
    conn.execute("create table t (name text)", []).unwrap();
    conn.execute("insert into t values ('')", []).unwrap();
    let mut db = Database::fetch(&conn, "select name from t");
    let row = db.next().unwrap();
    assert_eq!(row.get("name"), Some(String::new()));
}

#[test]
fn null_normalization() {
    let conn = open_in_memory("nulls").unwrap();
    conn.execute("create table t (a integer, b text, c blob)", []).unwrap();
    conn.execute("insert into t values (NULL, NULL, NULL)", []).unwrap();
    let mut db = Database::fetch(&conn, "select a, b, c from t");
    let row = db.next().unwrap();
    assert_eq!(row.get("a"), Some(String::from("NULL")));
    assert_eq!(row.get("b"), Some(String::from("NULL")));
    assert_eq!(row.get("c"), Some(String::from("NULL")));
}

#[test]
fn integer_formatting() {
    let conn = open_in_memory("ints").unwrap();
    conn.execute("create table t (v integer)", []).unwrap();
    conn.execute("insert into t values (-42), (0), (7), (9223372036854775807), (-9223372036854775808)", [])
        .unwrap();
    let mut db = Database::fetch(&conn, "select v from t order by v");
    let rows = drain(&mut db);
    assert_eq!(rows.len(), 5);
    assert_eq!(rows[0].get("v"), Some(String::from("-9223372036854775808")));
    assert_eq!(rows[1].get("v"), Some(String::from("-42")));
    assert_eq!(rows[2].get("v"), Some(String::from("0")));
    assert_eq!(rows[3].get("v"), Some(String::from("7")));
    assert_eq!(rows[4].get("v"), Some(String::from("9223372036854775807")));
}

#[test]
fn blob_erasure() {
    let conn = open_in_memory("blobs").unwrap();
    conn.execute("create table t (b blob)", []).unwrap();
    conn.execute("insert into t values (x''), (x'00'), (x'00ff12ab')", []).unwrap();
    let mut db = Database::fetch(&conn, "select b from t");
    let rows = drain(&mut db);
    assert_eq!(rows.len(), 3);
    for row in &rows {
        assert_eq!(row.get("b"), Some(String::from("BLOB")));
    }
}

#[test]
fn real_rendering() {
    let conn = open_in_memory("reals").unwrap();
    conn.execute("create table t (r real)", []).unwrap();
    conn.execute("insert into t values (1.5)", []).unwrap();
    let mut db = Database::fetch(&conn, "select r from t");
    let row = db.next().unwrap();
    assert_eq!(row.get("r"), Some(String::from("1.5")));
}

#[test]
fn exhaustion_is_terminal() {
    let conn = open_in_memory("drain").unwrap();
    conn.execute("create table t (v integer)", []).unwrap();
    conn.execute("insert into t values (1), (2)", []).unwrap();
    let mut db = Database::fetch(&conn, "select v from t order by v");
    assert!(db.next().is_some());
    assert!(db.next().is_some());
    assert!(db.next().is_none());
    assert!(db.next().is_none());
    assert!(db.next().is_none());
}

#[test]
fn column_coverage() {
    let conn = open_in_memory("cols").unwrap();
    conn.execute("create table t (a integer, b text)", []).unwrap();
    conn.execute("insert into t values (5, 'hi')", []).unwrap();
    let mut db = Database::fetch(&conn, "select a, b from t");
    let row = db.next().unwrap();
    assert_eq!(row.len(), 2);
    assert_eq!(row.name_at(0), "a");
    assert_eq!(row.name_at(1), "b");
    assert_eq!(row.value_at(0), "5");
    assert_eq!(row.value_at(1), "hi");
    assert_eq!(row.get("a"), Some(String::from("5")));
    assert_eq!(row.get("b"), Some(String::from("hi")));
    assert_eq!(row.get("c"), None);
    assert!(db.next().is_none());
}

#[test]
fn empty_result_set() {
    let conn = open_in_memory("empty").unwrap();
    conn.execute("create table t (a integer)", []).unwrap();
    let mut db = Database::fetch(&conn, "select a from t");
    assert!(db.next().is_none());
}

#[test]
fn in_memory_isolation() {
    let first = open_in_memory("iso").unwrap();
    let second = open_in_memory("iso").unwrap();
    first.execute("create table t (v integer)", []).unwrap();
    second.execute("create table t (v integer)", []).unwrap();
    first.execute("insert into t values (1)", []).unwrap();
    let mut db1 = Database::fetch(&first, "select v from t");
    let mut db2 = Database::fetch(&second, "select v from t");
    assert_eq!(drain(&mut db1).len(), 1);
    assert_eq!(drain(&mut db2).len(), 0);
}

#[test]
fn fetch_expression() {
    let conn = open_in_memory("expr").unwrap();
    let mut db = Database::fetch(&conn, "select 1 + 1 as s");
    let row = db.next().unwrap();
    assert_eq!(row.get("s"), Some(String::from("2")));
}

#[test]
fn fetch_keeps_row_order() {
    let conn = open_in_memory("order").unwrap();
    conn.execute("create table t (v integer)", []).unwrap();
    conn.execute("insert into t values (3), (1), (2)", []).unwrap();
    let mut db = Database::fetch(&conn, "select v from t order by v desc");
    let rows = drain(&mut db);
    let got: Vec<Option<String>> = rows.iter().map(|r| r.get("v")).collect();
    assert_eq!(
        got,
        vec![
            Some(String::from("3")),
            Some(String::from("2")),
            Some(String::from("1")),
        ]
    );
}

#[test]
fn open_memory_path() {
    let conn = open(":memory:").unwrap();
    conn.execute("create table t (v integer)", []).unwrap();
    conn.execute("insert into t values (11)", []).unwrap();
    let mut db = Database::fetch(&conn, "select v from t");
    let row = db.next().unwrap();
    assert_eq!(row.get("v"), Some(String::from("11")));
}

#[test]
fn open_bad_path_is_recoverable() {
    let result = open("/no/such/directory/anywhere/data.db");
    assert!(result.is_err());
}
