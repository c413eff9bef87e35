use rusqlite::types::Type;
use beets_db::{
    blob_to_path, decode_field, is_num_zero, optional_blob_to_path, read_bool, read_i32,
    read_number, read_text, read_u32, str_or_blob_to_path, Album, Attribute, Cell, ErrorKind,
    Field, FieldSpec, FieldType, Item, Mismatch, Number, Schema,
};

#[test]
fn u32_from_integer() {
    assert!(matches!(read_u32(&Cell::Integer(2024)), Ok(2024)));
    assert!(matches!(read_u32(&Cell::Integer(0)), Ok(0)));
    assert!(matches!(read_u32(&Cell::Integer(4294967295)), Ok(4294967295)));
}

#[test]
fn u32_out_of_range() {
    assert!(matches!(read_u32(&Cell::Integer(-1)), Err(Mismatch::OutOfRange(-1))));
    assert!(matches!(
        read_u32(&Cell::Integer(4294967296)),
        Err(Mismatch::OutOfRange(4294967296))
    ));
}

#[test]
fn u32_invalid_type() {
    assert!(matches!(read_u32(&Cell::Null), Err(Mismatch::InvalidType)));
    assert!(matches!(read_u32(&Cell::Text(b"7".to_vec())), Err(Mismatch::InvalidType)));
    assert!(matches!(read_u32(&Cell::Real(7)), Err(Mismatch::InvalidType)));
}

#[test]
fn i32_range() {
    assert!(matches!(read_i32(&Cell::Integer(-5)), Ok(-5)));
    assert!(matches!(read_i32(&Cell::Integer(2147483648)), Err(Mismatch::OutOfRange(2147483648))));
}

#[test]
fn bool_is_nonzero_integer() {
    assert!(matches!(read_bool(&Cell::Integer(0)), Ok(false)));
    assert!(matches!(read_bool(&Cell::Integer(1)), Ok(true)));
    assert!(matches!(read_bool(&Cell::Integer(-3)), Ok(true)));
    assert!(matches!(read_bool(&Cell::Blob(vec![1])), Err(Mismatch::InvalidType)));
}

#[test]
fn number_from_integer_or_real() {
    let bits = 1.5f64.to_bits();
    assert_eq!(read_number(&Cell::Integer(3)).unwrap(), Number::Integer(3));
    assert_eq!(read_number(&Cell::Real(bits)).unwrap(), Number::Real(bits));
    assert!(matches!(read_number(&Cell::Text(vec![])), Err(Mismatch::InvalidType)));
}

#[test]
fn text_must_be_utf8() {
    assert_eq!(read_text(&Cell::Text("héllo".as_bytes().to_vec())).unwrap(), "héllo");
    assert!(matches!(read_text(&Cell::Text(vec![0x66, 0xff])), Err(Mismatch::Utf8(_))));
    assert!(matches!(read_text(&Cell::Blob(b"abc".to_vec())), Err(Mismatch::InvalidType)));
}

#[test]
fn path_text_and_blob_agree() {
    let p = "/music/Артист/01 song.flac";
    let from_text = str_or_blob_to_path(&Cell::Text(p.as_bytes().to_vec())).unwrap();
    let from_blob = str_or_blob_to_path(&Cell::Blob(p.as_bytes().to_vec())).unwrap();
    assert_eq!(from_text, p);
    assert_eq!(from_text, from_blob);
}

#[test]
fn path_blob_invalid_utf8_is_replaced() {
    let got = str_or_blob_to_path(&Cell::Blob(vec![b'a', 0xff, b'b', 0xc3])).unwrap();
    assert_eq!(got, "a\u{FFFD}b\u{FFFD}");
    assert_eq!(blob_to_path(vec![0x80]), "\u{FFFD}");
    assert_eq!(blob_to_path(b"/x/y".to_vec()), "/x/y");
}

#[test]
fn path_of_invalid_type() {
    assert!(matches!(str_or_blob_to_path(&Cell::Integer(1)), Err(Mismatch::InvalidType)));
}

#[test]
fn optional_path_null_is_none() {
    assert_eq!(optional_blob_to_path(&Cell::Null).unwrap(), None);
    assert_eq!(
        optional_blob_to_path(&Cell::Blob(b"/art.jpg".to_vec())).unwrap(),
        Some("/art.jpg".to_string())
    );
    assert!(matches!(optional_blob_to_path(&Cell::Text(vec![])), Err(Mismatch::InvalidType)));
}

#[test]
fn optional_fields() {
    assert!(matches!(decode_field(FieldType::OptU32, &Cell::Null), Ok(Field::OptU32(None))));
    assert!(matches!(decode_field(FieldType::OptU32, &Cell::Integer(9)), Ok(Field::OptU32(Some(9)))));
    assert!(matches!(decode_field(FieldType::OptI32, &Cell::Integer(-9)), Ok(Field::OptI32(Some(-9)))));
    assert!(matches!(decode_field(FieldType::OptReal, &Cell::Null), Ok(Field::OptReal(None))));
    assert!(matches!(decode_field(FieldType::OptText, &Cell::Null), Ok(Field::OptText(None))));
    assert!(matches!(decode_field(FieldType::OptText, &Cell::Integer(1)), Err(Mismatch::InvalidType)));
}

#[test]
fn zero_is_default() {
    assert!(is_num_zero(&0));
    assert!(!is_num_zero(&1984));
    let year = read_u32(&Cell::Integer(0)).unwrap();
    assert!(is_num_zero(&year));
}

fn small_schema() -> Schema {
    Schema {
        table: "things",
        fields: vec![
            FieldSpec { name: "id", ty: FieldType::U32 },
            FieldSpec { name: "title", ty: FieldType::Text },
            FieldSpec { name: "flag", ty: FieldType::Bool },
        ],
    }
}

#[test]
fn query_text_of_schema() {
    let s = small_schema();
    assert_eq!(s.sql_query(), "SELECT id,title,flag,id FROM things");
    assert_eq!(s.columns(), vec!["id", "title", "flag"]);
}

#[test]
fn entity_queries() {
    assert!(Album::sql_query().starts_with("SELECT id,artpath,added,albumartist,"));
    assert!(Album::sql_query().ends_with(",original_day,id FROM albums"));
    assert!(Item::sql_query().starts_with("SELECT id,path,album_id,title,"));
    assert!(Item::sql_query().ends_with(",mtime,added,id FROM items"));
    assert_eq!(Album::columns().len(), 31);
    assert_eq!(Item::columns().len(), 66);
    assert_eq!(Item::columns()[1], "path");
}

#[test]
fn bind_row_in_order() {
    let s = small_schema();
    let cells = vec![Cell::Integer(4), Cell::Text(b"t".to_vec()), Cell::Integer(1)];
    let fields = s.bind_row(&cells).unwrap();
    assert_eq!(fields.len(), 3);
    assert!(matches!(fields[0], Field::U32(4)));
    assert!(matches!(&fields[1], Field::Text(t) if t == "t"));
    assert!(matches!(fields[2], Field::Bool(true)));
}

#[test]
fn bind_row_reports_first_failing_column() {
    let s = small_schema();
    let cells = vec![Cell::Integer(4), Cell::Integer(5), Cell::Text(vec![])];
    let err = s.bind_row(&cells).unwrap_err();
    match err.kind() {
        ErrorKind::Row(tc) => {
            assert_eq!(tc.table, "things");
            assert_eq!(tc.column, "title");
        }
        other => panic!("unexpected kind {other:?}"),
    }
    assert_eq!(err.message(), "failed to get column \"title\" in table \"things\"");
    assert!(err.cause().is_some());
}

fn cells_for(fields: &[FieldSpec]) -> Vec<Cell> {
    fields
        .iter()
        .map(|f| match f.ty {
            FieldType::U32 => Cell::Integer(7),
            FieldType::OptU32 | FieldType::OptI32 | FieldType::OptReal | FieldType::OptText => {
                Cell::Null
            }
            FieldType::Bool => Cell::Integer(1),
            FieldType::Real => Cell::Real(2.5f64.to_bits()),
            FieldType::Text => Cell::Text(f.name.as_bytes().to_vec()),
            FieldType::Path => Cell::Blob(b"/m/a.mp3".to_vec()),
            FieldType::OptPath => Cell::Blob(b"/m/cover.jpg".to_vec()),
        })
        .collect()
}

#[test]
fn album_from_row() {
    let cells = cells_for(&Album::schema().fields);
    let a = Album::from_row(&cells).unwrap();
    assert_eq!(a.id, 7);
    assert_eq!(a.artpath, Some("/m/cover.jpg".to_string()));
    assert_eq!(a.added, Number::Real(2.5f64.to_bits()));
    assert_eq!(a.albumartist, "albumartist");
    assert_eq!(a.label, "label");
    assert!(a.comp);
    assert_eq!(a.r128_album_gain, None);
    assert_eq!(a.original_day, 7);
}

#[test]
fn item_from_row() {
    let cells = cells_for(&Item::schema().fields);
    let t = Item::from_row(&cells).unwrap();
    assert_eq!(t.id, 7);
    assert_eq!(t.path, "/m/a.mp3");
    assert_eq!(t.album_id, None);
    assert_eq!(t.title, "title");
    assert_eq!(t.initial_key, None);
    assert_eq!(t.length, Number::Real(2.5f64.to_bits()));
    assert_eq!(t.channels, 7);
}

#[test]
fn item_from_row_bad_year() {
    let s = Item::schema();
    let mut cells = cells_for(&s.fields);
    let year = s.fields.iter().position(|f| f.name == "year").unwrap();
    cells[year] = Cell::Integer(-2);
    let err = Item::from_row(&cells).unwrap_err();
    assert!(matches!(err.kind(), ErrorKind::Row(tc) if tc.table == "items" && tc.column == "year"));
}

#[test]
fn attribute_from_row() {
    let cells = vec![
        Cell::Integer(1),
        Cell::Integer(2),
        Cell::Text(b"mood".to_vec()),
        Cell::Text(b"calm".to_vec()),
    ];
    let a = Attribute::from_row(&cells).unwrap();
    assert_eq!((a.id, a.entity_id, a.key.as_str(), a.value.as_str()), (1, 2, "mood", "calm"));
}

#[test]
fn row_failure_wraps_engine_error() {
    let s = small_schema();
    let err = s.bind_row(&vec![Cell::Integer(4), Cell::Integer(5), Cell::Text(vec![])]).unwrap_err();
    match err.into_source() {
        rusqlite::Error::InvalidColumnType(1, name, Type::Integer) => assert_eq!(name, "title"),
        other => panic!("unexpected source {other:?}"),
    }
    let err = s.bind_row(&vec![Cell::Integer(-2), Cell::Null, Cell::Null]).unwrap_err();
    assert!(matches!(err.into_source(), rusqlite::Error::IntegralValueOutOfRange(0, -2)));
    let err = s
        .bind_row(&vec![Cell::Integer(1), Cell::Text(vec![0xff]), Cell::Null])
        .unwrap_err();
    assert!(matches!(err.into_source(), rusqlite::Error::Utf8Error(1, _)));
}

#[test]
fn path_fallback_reports_blob_failure() {
    let s = Schema {
        table: "items",
        fields: vec![FieldSpec { name: "path", ty: FieldType::Path }],
    };
    let err = s.bind_row(&vec![Cell::Real(0)]).unwrap_err();
    assert!(matches!(err.kind(), ErrorKind::Row(tc) if tc.column == "path"));
    assert!(matches!(err.into_source(), rusqlite::Error::InvalidColumnType(0, _, Type::Real)));
}

#[test]
fn pass_through_error_keeps_engine_text() {
    let err = beets_db::Error::from(rusqlite::Error::QueryReturnedNoRows);
    assert!(matches!(err.kind(), ErrorKind::UnknownTransparent));
    assert_eq!(err.message(), rusqlite::Error::QueryReturnedNoRows.to_string());
    assert!(err.cause().is_none());
}

#[test]
fn unset_option_is_default() {
    assert!(beets_db::is_unset::<i32>(&None));
    assert!(!beets_db::is_unset(&Some(0)));
}

#[test]
fn bind_rows_in_order_and_first_failure() {
    let s = small_schema();
    let good = vec![
        vec![Cell::Integer(1), Cell::Text(b"a".to_vec()), Cell::Integer(0)],
        vec![Cell::Integer(2), Cell::Text(b"b".to_vec()), Cell::Integer(1)],
    ];
    let rows = s.bind_rows(&good).unwrap();
    assert_eq!(rows.len(), 2);
    assert!(matches!(rows[1][0], Field::U32(2)));
    let mut bad = good.clone();
    bad.push(vec![Cell::Integer(3), Cell::Null, Cell::Integer(1)]);
    bad.push(vec![Cell::Null, Cell::Null, Cell::Null]);
    let err = s.bind_rows(&bad).unwrap_err();
    assert!(matches!(err.kind(), ErrorKind::Row(tc) if tc.column == "title"));
    assert!(s.bind_rows(&vec![]).unwrap().is_empty());
}

#[test]
fn album_bind_all() {
    let row = cells_for(&Album::schema().fields);
    let albums = Album::bind_all(&vec![row.clone(), row]).unwrap();
    assert_eq!(albums.len(), 2);
    assert_eq!(albums[1].id, 7);
    assert_eq!(albums[0], albums[1]);
}
