use std::path::PathBuf;

use beets_db::{read_all, Album, ErrorKind, FieldType, Item, Schema};
use rusqlite::types::Value;
use rusqlite::{params_from_iter, Connection, OpenFlags};

fn value_for(ty: FieldType, name: &str, row: i64) -> Value {
    match ty {
        FieldType::U32 => Value::Integer(row),
        FieldType::OptU32 | FieldType::OptI32 | FieldType::OptReal | FieldType::OptText => {
            Value::Null
        }
        FieldType::Bool => Value::Integer(0),
        FieldType::Real => Value::Real(row as f64 / 2.0),
        FieldType::Text => Value::Text(format!("{name}{row}")),
        FieldType::Path if row % 2 == 0 => Value::Text(format!("/music/{row}.flac")),
        FieldType::Path => Value::Blob(format!("/music/{row}.flac").into_bytes()),
        FieldType::OptPath => Value::Null,
    }
}

fn create_table(c: &Connection, s: &Schema, rows: i64, skip: Option<&str>) {
    let cols: Vec<&str> = s.columns().into_iter().filter(|n| Some(*n) != skip).collect();
    c.execute_batch(&format!("DROP TABLE IF EXISTS {0}; CREATE TABLE {0} ({1});", s.table, cols.join(", ")))
        .unwrap();
    let marks = vec!["?"; cols.len()].join(", ");
    let sql = format!("INSERT INTO {} ({}) VALUES ({})", s.table, cols.join(", "), marks);
    for row in 1..=rows {
        let vals: Vec<Value> = s
            .fields
            .iter()
            .filter(|f| Some(f.name) != skip)
            .map(|f| value_for(f.ty, f.name, row))
            .collect();
        c.execute(&sql, params_from_iter(vals)).unwrap();
    }
}

/// Writes a small beets library to a file of its own and returns its path.
fn fixture(name: &str, albums: i64, items: i64, skip_album_column: Option<&str>) -> String {
    let path = format!("/tmp/beets_db_{name}.db");
    let c = Connection::open(&path).unwrap();
    create_table(&c, &Album::schema(), albums, skip_album_column);
    create_table(&c, &Item::schema(), items, None);
    path
}

#[test]
fn read_all_albums() {
    let path = fixture("read_all_albums", 2, 3, None);
    let conn = Connection::open_with_flags(&path, OpenFlags::SQLITE_OPEN_READ_ONLY).unwrap();
    Album::read_all(&conn).unwrap();
}

#[test]
fn read_all_tracks() {
    let path = fixture("read_all_tracks", 2, 3, None);
    let conn = Connection::open_with_flags(&path, OpenFlags::SQLITE_OPEN_READ_ONLY).unwrap();
    Item::read_all(&conn).unwrap();
}

#[test]
fn counts_match_tables() {
    let path = fixture("counts_match_tables", 2, 5, None);
    let (albums, items) = read_all(PathBuf::from(&path)).unwrap();
    assert_eq!(albums.len(), 2);
    assert_eq!(items.len(), 5);
    let c = Connection::open(&path).unwrap();
    let n: i64 = c.query_row("SELECT count(*) FROM items", [], |r| r.get(0)).unwrap();
    assert_eq!(items.len() as i64, n);
}

#[test]
fn fields_match_columns() {
    let path = fixture("fields_match_columns", 1, 2, None);
    let (albums, items) = read_all(PathBuf::from(&path)).unwrap();
    assert_eq!(albums[0].id, 1);
    assert_eq!(albums[0].albumartist, "albumartist1");
    assert_eq!(albums[0].artpath, None);
    assert_eq!(items[0].id, 1);
    assert_eq!(items[1].id, 2);
    assert_eq!(items[0].title, "title1");
    assert_eq!(items[0].path, "/music/1.flac");
    assert_eq!(items[1].path, "/music/2.flac");
    assert_eq!(items[1].length, beets_db::Number::Real(1.0f64.to_bits()));
}

#[test]
fn read_twice_is_equal() {
    let path = fixture("read_twice_is_equal", 3, 4, None);
    let first = read_all(PathBuf::from(&path)).unwrap();
    let second = read_all(PathBuf::from(&path)).unwrap();
    assert!(!first.0.is_empty() && !first.1.is_empty());
    assert_eq!(first, second);
}

#[test]
fn missing_file_fails_to_open() {
    let err = read_all(PathBuf::from("/tmp/beets_db_no_such_dir/none.db")).unwrap_err();
    assert!(matches!(err.kind(), ErrorKind::Open));
    assert_eq!(err.message(), "failed to open database");
}

#[test]
fn missing_album_column_fails_query() {
    let path = fixture("missing_album_column", 1, 1, Some("genre"));
    let err = read_all(PathBuf::from(&path)).unwrap_err();
    assert!(matches!(err.kind(), ErrorKind::Query));
    assert_eq!(err.message(), "failed to query database");
}

#[test]
fn bad_album_value_names_column() {
    let path = fixture("bad_album_value", 1, 1, None);
    let c = Connection::open(&path).unwrap();
    c.execute("UPDATE albums SET year = 'soon'", []).unwrap();
    drop(c);
    let err = read_all(PathBuf::from(&path)).unwrap_err();
    assert!(matches!(err.kind(), ErrorKind::Row(tc) if tc.table == "albums" && tc.column == "year"));
}

#[test]
fn bind_engine_rows() {
    let path = fixture("bind_engine_rows", 2, 1, None);
    let conn = Connection::open_with_flags(&path, OpenFlags::SQLITE_OPEN_READ_ONLY).unwrap();
    let mut st = conn.prepare(&Album::sql_query()).unwrap();
    let mut rows = st.query([]).unwrap();
    let mut ids = Vec::new();
    while let Some(row) = rows.next().unwrap() {
        ids.push(Album::from_engine_row(row).unwrap().id);
    }
    assert_eq!(ids, vec![1, 2]);
}
