use rusqlite::Error as SqliteError;
use rusqlite::types::ValueRef;
use rusqlite::{Connection, OpenFlags, Row, Rows, Statement};
use std::path::PathBuf;
use vstd::prelude::*;

use crate::entity::{album_names, album_types, item_names, item_types, Album, Item};
use crate::error::{is_row_error, Error, ErrorKind, TableColumn};
use crate::schema::{
    decoded_as, field_rows_view, fields_view, first_failure, fits, lemma_decoded_fits, row_decodes,
    rows_decoded_as, rows_view, Field, FieldType, FieldView, Schema,
};
use crate::value::CellView;
use crate::value::Cell;

verus! {

#[verifier::external_type_specification]
#[verifier::external_body]
pub struct ExConnection(Connection);

#[verifier::external_type_specification]
#[verifier::external_body]
pub struct ExStatement<'conn>(Statement<'conn>);

#[verifier::external_type_specification]
#[verifier::external_body]
pub struct ExRows<'stmt>(Rows<'stmt>);

#[verifier::external_type_specification]
#[verifier::external_body]
pub struct ExRow<'stmt>(Row<'stmt>);

#[verifier::external_type_specification]
#[verifier::external_body]
pub struct ExPathBuf(PathBuf);

/// Relies on `Connection::open_with_flags` with `SQLITE_OPEN_READ_ONLY`: the
/// database is opened for reading only, and any failure is returned.
#[verifier::external_body]
fn open_read_only(path: PathBuf) -> (r: Result<Connection, SqliteError>) {
    Connection::open_with_flags(path, OpenFlags::SQLITE_OPEN_READ_ONLY)
}

/// Relies on `Connection::prepare`, which compiles the query text.
#[verifier::external_body]
fn prepare<'c>(c: &'c Connection, sql: &str) -> (r: Result<Statement<'c>, SqliteError>) {
    c.prepare(sql)
}

/// Relies on `Statement::query` with no parameters, which starts the query.
#[verifier::external_body]
fn run_query<'s>(st: &'s mut Statement<'_>) -> (r: Result<Rows<'s>, SqliteError>) {
    st.query(())
}

/// Relies on `Rows::next`, which steps to the next result row, if any.
#[verifier::external_body]
fn next_row<'a, 's>(rows: &'a mut Rows<'s>) -> (r: Result<Option<&'a Row<'s>>, SqliteError>) {
    rows.next()
}

/// Relies on `Row::get_ref`, which hands out the raw value at a position of the
/// row and fails only for a position past the last column.
#[verifier::external_body]
fn cell_at(row: &Row<'_>, idx: usize) -> (r: Result<Cell, SqliteError>) {
    Ok(match row.get_ref(idx)? {
        ValueRef::Null => Cell::Null,
        ValueRef::Integer(i) => Cell::Integer(i),
        ValueRef::Real(f) => Cell::Real(f.to_bits()),
        ValueRef::Text(t) => Cell::Text(t.to_vec()),
        ValueRef::Blob(b) => Cell::Blob(b.to_vec()),
    })
}

/// The values are, row by row, what some rows of cells decode to: all that
/// holds of a read whatever the engine returned.
pub open spec fn decoded_from_some_rows(types: Seq<FieldType>, vals: Seq<Seq<FieldView>>) -> bool {
    exists|rows: Seq<Seq<CellView>>| #[trigger] rows_decoded_as(types, rows, vals)
}

/// The error came from reading the given table: the query failed, the engine
/// failed while stepping, or one of the table's declared columns did not decode.
pub open spec fn table_failure(e: Error, table: Seq<char>, names: Seq<Seq<char>>) -> bool {
    match e.kind {
        ErrorKind::Query | ErrorKind::UnknownTransparent => true,
        ErrorKind::Row(tc) => tc.table@ == table && names.contains(tc.column@),
        ErrorKind::Open => false,
    }
}

/// Reads the raw cells of the declared fields of one engine row. A position past
/// the row's last column fails with `Row`, naming that field.
pub fn read_cells(row: &Row<'_>, schema: &Schema) -> (r: Result<Vec<Cell>, Error>)
    ensures
        r is Ok ==> r->Ok_0@.len() == schema.fields@.len(),
        r is Err ==> table_failure(r->Err_0, schema.table@, schema.names()),
{
    let n = schema.fields.len();
    let mut cells: Vec<Cell> = Vec::new();
    let mut i: usize = 0;
    while i < n
        invariant
            n == schema.fields@.len(),
            i <= n,
            cells@.len() == i,
        decreases n - i,
    {
        match cell_at(row, i) {
            Ok(c) => cells.push(c),
            Err(e) => {
                let tc = TableColumn { table: schema.table, column: schema.fields[i].name };
                proof {
                    assert(schema.names()[i as int] == tc.column@);
                }
                return Err(Error { source: e, kind: ErrorKind::Row(tc) });
            },
        }
        i = i + 1;
    }
    Ok(cells)
}

/// Runs the schema's query and binds every result row, in the order the engine
/// returns them, stopping at the first failure: preparing or starting the query
/// fails with `Query`, a failed step passes the engine error through, and a cell
/// that does not decode fails with `Row`. On success it returns the raw cells of
/// the rows the engine returned together with what each row decodes to.
pub fn read_table(c: &Connection, schema: &Schema) -> (r: Result<(Vec<Vec<Cell>>, Vec<Vec<Field>>), Error>)
    ensures
        r is Ok ==> forall|i: int|
            0 <= i < r->Ok_0.0@.len() ==> (#[trigger] r->Ok_0.0@[i])@.len() == schema.fields@.len(),
        r is Ok ==> rows_decoded_as(schema.types(), rows_view(r->Ok_0.0@), field_rows_view(r->Ok_0.1@)),
        r is Err ==> table_failure(r->Err_0, schema.table@, schema.names()),
{
    let sql = schema.sql_query();
    let mut st = match prepare(c, sql.as_str()) {
        Ok(st) => st,
        Err(e) => return Err(Error { source: e, kind: ErrorKind::Query }),
    };
    let mut rows = match run_query(&mut st) {
        Ok(rows) => rows,
        Err(e) => return Err(Error { source: e, kind: ErrorKind::Query }),
    };
    let ghost types = schema.types();
    let mut seen: Vec<Vec<Cell>> = Vec::new();
    let mut out: Vec<Vec<Field>> = Vec::new();
    loop
        invariant
            types == schema.types(),
            forall|i: int| 0 <= i < seen@.len() ==> (#[trigger] seen@[i])@.len() == schema.fields@.len(),
            rows_decoded_as(types, rows_view(seen@), field_rows_view(out@)),
        decreases usize::MAX - out@.len(),
    {
        match next_row(&mut rows) {
            Err(e) => return Err(Error::from(e)),
            Ok(None) => return Ok((seen, out)),
            Ok(Some(row)) => {
                let cells = match read_cells(row, schema) {
                    Ok(cells) => cells,
                    Err(e) => return Err(e),
                };
                let fields = match schema.bind_row(&cells) {
                    Ok(fields) => fields,
                    Err(e) => {
                        proof {
                            let k = choose|k: int|
                                #[trigger] first_failure(types, crate::schema::cells_view(cells@), k)
                                && e.kind == ErrorKind::Row(
                                    TableColumn { table: schema.table, column: schema.fields@[k].name },
                                );
                            assert(schema.names()[k] == schema.fields@[k].name@);
                        }
                        return Err(e);
                    },
                };
                let ghost old_seen = seen@;
                let ghost old_out = out@;
                seen.push(cells);
                out.push(fields);
                proof {
                    // a vector never holds more than `usize::MAX` elements
                    vstd::std_specs::vec::axiom_spec_len(&out);
                    assert forall|i: int| 0 <= i < seen@.len() implies #[trigger] decoded_as(
                        types,
                        rows_view(seen@)[i],
                        field_rows_view(out@)[i],
                    ) by {
                        if i < old_seen.len() {
                            assert(rows_view(seen@)[i] == rows_view(old_seen)[i]);
                            assert(field_rows_view(out@)[i] == field_rows_view(old_out)[i]);
                        }
                    }
                }
            },
        }
    }
}

/// The field values of each album, in order.
pub open spec fn albums_view(s: Seq<Album>) -> Seq<Seq<FieldView>> {
    s.map_values(|a: Album| a.view_fields())
}

impl Album {
    /// Builds one album from each row of bound field values, in order.
    pub fn from_rows(rows: &Vec<Vec<Field>>) -> (r: Vec<Album>)
        requires
            forall|j: int| 0 <= j < rows@.len() ==> fits(album_types(), fields_view(#[trigger] rows@[j]@)),
        ensures
            r@.len() == rows@.len(),
            forall|j: int| 0 <= j < rows@.len() ==> #[trigger] r@[j].view_fields() == fields_view(rows@[j]@),
    {
        let mut out: Vec<Album> = Vec::new();
        let mut i: usize = 0;
        while i < rows.len()
            invariant
                i <= rows@.len(),
                out@.len() == i,
                forall|j: int| 0 <= j < rows@.len() ==> fits(album_types(), fields_view(#[trigger] rows@[j]@)),
                forall|j: int| 0 <= j < i ==> #[trigger] out@[j].view_fields() == fields_view(rows@[j]@),
            decreases rows@.len() - i,
        {
            proof {
                let v = fields_view(rows@[i as int]@);
                assert(fits(album_types(), v));
                assert forall|j: int| 0 <= j < album_types().len() implies
                    #[trigger] crate::schema::has_type(rows@[i as int]@[j]@, album_types()[j]) by {
                    assert(crate::schema::has_type(v[j], album_types()[j]));
                }
            }
            out.push(Album::from_fields(&rows[i]));
            i = i + 1;
        }
        out
    }

    /// Binds rows of raw cells of the `albums` table, in order: one album per row,
    /// or the error of the first row that does not bind.
    pub fn bind_all(rows: &Vec<Vec<Cell>>) -> (r: Result<Vec<Album>, Error>)
        requires
            forall|i: int| 0 <= i < rows@.len() ==> (#[trigger] rows@[i])@.len() == 31,
        ensures
            r is Ok <==> forall|i: int|
                0 <= i < rows@.len() ==> row_decodes(album_types(), #[trigger] rows_view(rows@)[i]),
            r is Ok ==> r->Ok_0@.len() == rows@.len(),
            r is Ok ==> forall|i: int|
                0 <= i < rows@.len() ==> decoded_as(
                    album_types(),
                    rows_view(rows@)[i],
                    #[trigger] r->Ok_0@[i].view_fields(),
                ),
            r is Err ==> exists|j: int, k: int|
                0 <= j < rows@.len()
                && (forall|i: int| 0 <= i < j ==> row_decodes(album_types(), #[trigger] rows_view(rows@)[i]))
                && #[trigger] first_failure(album_types(), rows_view(rows@)[j], k)
                && is_row_error(r->Err_0, "albums"@, album_names()[k]),
    {
        let s = Album::schema();
        proof {
            assert(s.fields@.len() == s.names().len());
        }
        match s.bind_rows(rows) {
            Ok(fields) => {
                proof {
                    assert forall|j: int| 0 <= j < fields@.len() implies fits(
                        album_types(),
                        fields_view(#[trigger] fields@[j]@),
                    ) by {
                        assert(field_rows_view(fields@)[j] == fields_view(fields@[j]@));
                        lemma_decoded_fits(album_types(), rows_view(rows@)[j], fields_view(fields@[j]@));
                    }
                }
                let out = Album::from_rows(&fields);
                proof {
                    assert forall|i: int| 0 <= i < rows@.len() implies decoded_as(
                        album_types(),
                        rows_view(rows@)[i],
                        #[trigger] out@[i].view_fields(),
                    ) by {
                        assert(field_rows_view(fields@)[i] == fields_view(fields@[i]@));
                    }
                }
                Ok(out)
            },
            Err(e) => {
                proof {
                    let (j, k) = choose|j: int, k: int|
                        0 <= j < rows@.len()
                        && (forall|i: int| 0 <= i < j ==> row_decodes(s.types(), #[trigger] rows_view(rows@)[i]))
                        && #[trigger] first_failure(s.types(), rows_view(rows@)[j], k)
                        && e.kind == ErrorKind::Row(TableColumn { table: s.table, column: s.fields@[k].name });
                    assert(s.names()[k] == s.fields@[k].name@);
                    assert(is_row_error(e, "albums"@, album_names()[k]));
                }
                Err(e)
            },
        }
    }

    /// Binds one row that the engine returned for `Album::sql_query()`.
    pub fn from_engine_row(row: &Row<'_>) -> (r: Result<Album, Error>)
        ensures
            r is Err ==> table_failure(r->Err_0, "albums"@, album_names()),
    {
        let s = Album::schema();
        proof {
            assert(s.types().len() == s.fields@.len());
            assert(album_types().len() == 31);
        }
        let cells = match read_cells(row, &s) {
            Ok(cells) => cells,
            Err(e) => return Err(e),
        };
        let r = Album::from_row(&cells);
        proof {
            if r is Err {
                let k = choose|k: int|
                    #[trigger] first_failure(album_types(), crate::schema::cells_view(cells@), k)
                    && is_row_error(r->Err_0, "albums"@, album_names()[k]);
                assert(album_names().contains(album_names()[k]));
            }
        }
        r
    }

    /// Binds each of the entries in the `albums` table, in the engine's order.
    /// Each album returned is what one row of the table decodes to, as
    /// `read_table` states over the rows the engine returned.
    pub fn read_all(c: &Connection) -> (r: Result<Vec<Album>, Error>)
        ensures
            r is Ok ==> decoded_from_some_rows(album_types(), albums_view(r->Ok_0@)),
            r is Err ==> table_failure(r->Err_0, "albums"@, album_names()),
    {
        let s = Album::schema();
        let (cells, fields) = match read_table(c, &s) {
            Ok(rows) => rows,
            Err(e) => return Err(e),
        };
        proof {
            assert forall|j: int| 0 <= j < fields@.len() implies fits(
                album_types(),
                fields_view(#[trigger] fields@[j]@),
            ) by {
                assert(field_rows_view(fields@)[j] == fields_view(fields@[j]@));
                lemma_decoded_fits(album_types(), rows_view(cells@)[j], fields_view(fields@[j]@));
            }
        }
        let out = Album::from_rows(&fields);
        proof {
            let vals = albums_view(out@);
            assert(vals =~= field_rows_view(fields@));
            assert(rows_decoded_as(album_types(), rows_view(cells@), vals));
            assert(decoded_from_some_rows(album_types(), albums_view(out@)));
        }
        Ok(out)
    }
}

/// The field values of each item, in order.
pub open spec fn items_view(s: Seq<Item>) -> Seq<Seq<FieldView>> {
    s.map_values(|a: Item| a.view_fields())
}

impl Item {
    /// Builds one item from each row of bound field values, in order.
    pub fn from_rows(rows: &Vec<Vec<Field>>) -> (r: Vec<Item>)
        requires
            forall|j: int| 0 <= j < rows@.len() ==> fits(item_types(), fields_view(#[trigger] rows@[j]@)),
        ensures
            r@.len() == rows@.len(),
            forall|j: int| 0 <= j < rows@.len() ==> #[trigger] r@[j].view_fields() == fields_view(rows@[j]@),
    {
        let mut out: Vec<Item> = Vec::new();
        let mut i: usize = 0;
        while i < rows.len()
            invariant
                i <= rows@.len(),
                out@.len() == i,
                forall|j: int| 0 <= j < rows@.len() ==> fits(item_types(), fields_view(#[trigger] rows@[j]@)),
                forall|j: int| 0 <= j < i ==> #[trigger] out@[j].view_fields() == fields_view(rows@[j]@),
            decreases rows@.len() - i,
        {
            proof {
                let v = fields_view(rows@[i as int]@);
                assert(fits(item_types(), v));
                assert forall|j: int| 0 <= j < item_types().len() implies
                    #[trigger] crate::schema::has_type(rows@[i as int]@[j]@, item_types()[j]) by {
                    assert(crate::schema::has_type(v[j], item_types()[j]));
                }
            }
            out.push(Item::from_fields(&rows[i]));
            i = i + 1;
        }
        out
    }

    /// Binds rows of raw cells of the `items` table, in order: one item per row,
    /// or the error of the first row that does not bind.
    pub fn bind_all(rows: &Vec<Vec<Cell>>) -> (r: Result<Vec<Item>, Error>)
        requires
            forall|i: int| 0 <= i < rows@.len() ==> (#[trigger] rows@[i])@.len() == 66,
        ensures
            r is Ok <==> forall|i: int|
                0 <= i < rows@.len() ==> row_decodes(item_types(), #[trigger] rows_view(rows@)[i]),
            r is Ok ==> r->Ok_0@.len() == rows@.len(),
            r is Ok ==> forall|i: int|
                0 <= i < rows@.len() ==> decoded_as(
                    item_types(),
                    rows_view(rows@)[i],
                    #[trigger] r->Ok_0@[i].view_fields(),
                ),
            r is Err ==> exists|j: int, k: int|
                0 <= j < rows@.len()
                && (forall|i: int| 0 <= i < j ==> row_decodes(item_types(), #[trigger] rows_view(rows@)[i]))
                && #[trigger] first_failure(item_types(), rows_view(rows@)[j], k)
                && is_row_error(r->Err_0, "items"@, item_names()[k]),
    {
        let s = Item::schema();
        proof {
            assert(s.fields@.len() == s.names().len());
        }
        match s.bind_rows(rows) {
            Ok(fields) => {
                proof {
                    assert forall|j: int| 0 <= j < fields@.len() implies fits(
                        item_types(),
                        fields_view(#[trigger] fields@[j]@),
                    ) by {
                        assert(field_rows_view(fields@)[j] == fields_view(fields@[j]@));
                        lemma_decoded_fits(item_types(), rows_view(rows@)[j], fields_view(fields@[j]@));
                    }
                }
                let out = Item::from_rows(&fields);
                proof {
                    assert forall|i: int| 0 <= i < rows@.len() implies decoded_as(
                        item_types(),
                        rows_view(rows@)[i],
                        #[trigger] out@[i].view_fields(),
                    ) by {
                        assert(field_rows_view(fields@)[i] == fields_view(fields@[i]@));
                    }
                }
                Ok(out)
            },
            Err(e) => {
                proof {
                    let (j, k) = choose|j: int, k: int|
                        0 <= j < rows@.len()
                        && (forall|i: int| 0 <= i < j ==> row_decodes(s.types(), #[trigger] rows_view(rows@)[i]))
                        && #[trigger] first_failure(s.types(), rows_view(rows@)[j], k)
                        && e.kind == ErrorKind::Row(TableColumn { table: s.table, column: s.fields@[k].name });
                    assert(s.names()[k] == s.fields@[k].name@);
                    assert(is_row_error(e, "items"@, item_names()[k]));
                }
                Err(e)
            },
        }
    }

    /// Binds one row that the engine returned for `Item::sql_query()`.
    pub fn from_engine_row(row: &Row<'_>) -> (r: Result<Item, Error>)
        ensures
            r is Err ==> table_failure(r->Err_0, "items"@, item_names()),
    {
        let s = Item::schema();
        proof {
            assert(s.types().len() == s.fields@.len());
            assert(item_types().len() == 66);
        }
        let cells = match read_cells(row, &s) {
            Ok(cells) => cells,
            Err(e) => return Err(e),
        };
        let r = Item::from_row(&cells);
        proof {
            if r is Err {
                let k = choose|k: int|
                    #[trigger] first_failure(item_types(), crate::schema::cells_view(cells@), k)
                    && is_row_error(r->Err_0, "items"@, item_names()[k]);
                assert(item_names().contains(item_names()[k]));
            }
        }
        r
    }

    /// Binds each of the entries in the `items` table, in the engine's order.
    /// Each item returned is what one row of the table decodes to, as
    /// `read_table` states over the rows the engine returned.
    pub fn read_all(c: &Connection) -> (r: Result<Vec<Item>, Error>)
        ensures
            r is Ok ==> decoded_from_some_rows(item_types(), items_view(r->Ok_0@)),
            r is Err ==> table_failure(r->Err_0, "items"@, item_names()),
    {
        let s = Item::schema();
        let (cells, fields) = match read_table(c, &s) {
            Ok(rows) => rows,
            Err(e) => return Err(e),
        };
        proof {
            assert forall|j: int| 0 <= j < fields@.len() implies fits(
                item_types(),
                fields_view(#[trigger] fields@[j]@),
            ) by {
                assert(field_rows_view(fields@)[j] == fields_view(fields@[j]@));
                lemma_decoded_fits(item_types(), rows_view(cells@)[j], fields_view(fields@[j]@));
            }
        }
        let out = Item::from_rows(&fields);
        proof {
            let vals = items_view(out@);
            assert(vals =~= field_rows_view(fields@));
            assert(rows_decoded_as(item_types(), rows_view(cells@), vals));
            assert(decoded_from_some_rows(item_types(), items_view(out@)));
        }
        Ok(out)
    }
}

/// Reads all the albums and items of the database at `db_path`, which is opened
/// for reading only. A failure to open it fails with `Open`; otherwise the
/// albums are read, then the items, and the first failure is returned as is.
pub fn read_all(db_path: PathBuf) -> (r: Result<(Vec<Album>, Vec<Item>), Error>)
    ensures
        r is Ok ==> decoded_from_some_rows(album_types(), albums_view(r->Ok_0.0@)),
        r is Ok ==> decoded_from_some_rows(item_types(), items_view(r->Ok_0.1@)),
        r is Err ==> {
            ||| r->Err_0.kind is Open
            ||| table_failure(r->Err_0, "albums"@, album_names())
            ||| table_failure(r->Err_0, "items"@, item_names())
        },
{
    let conn = match open_read_only(db_path) {
        Ok(conn) => conn,
        Err(e) => return Err(Error { source: e, kind: ErrorKind::Open }),
    };
    let albums = match Album::read_all(&conn) {
        Ok(albums) => albums,
        Err(e) => return Err(e),
    };
    let items = match Item::read_all(&conn) {
        Ok(items) => items,
        Err(e) => return Err(e),
    };
    Ok((albums, items))
}

} // verus!
