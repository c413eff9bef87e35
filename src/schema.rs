use rusqlite::Error as SqliteError;
use rusqlite::types::Type;
use vstd::prelude::*;

use crate::error::{Error, ErrorKind, TableColumn};
use crate::value::{
    optional_blob_to_path, read_bool, read_i32, read_number, read_text, read_u32,
    spec_bool, spec_i32, spec_number, spec_opt_path, spec_path, spec_text, spec_u32,
    str_or_blob_to_path, Cell, CellView, Fault, Mismatch, Number,
};

verus! {

/// The semantic type of a declared field, which selects its decoder.
#[derive(Clone, Copy, Debug, PartialEq, Eq, Structural)]
pub enum FieldType {
    U32,
    OptU32,
    OptI32,
    Bool,
    Real,
    OptReal,
    Text,
    OptText,
    /// A path stored as text or, by older producers, as a blob.
    Path,
    /// An optional path stored as a blob.
    OptPath,
}

/// One declared field: its column name and its semantic type.
#[derive(Clone, Copy, Debug)]
pub struct FieldSpec {
    pub name: &'static str,
    pub ty: FieldType,
}

/// The declaration of an entity kind: its table and its ordered fields. The
/// query text and the row binder are both derived from it.
#[derive(Clone, Debug)]
pub struct Schema {
    pub table: &'static str,
    pub fields: Vec<FieldSpec>,
}

impl Schema {
    pub open spec fn types(&self) -> Seq<FieldType> {
        self.fields@.map_values(|f: FieldSpec| f.ty)
    }

    pub open spec fn names(&self) -> Seq<Seq<char>> {
        self.fields@.map_values(|f: FieldSpec| f.name@)
    }
}

/// One decoded field value.
#[derive(Clone, Debug)]
pub enum Field {
    U32(u32),
    OptU32(Option<u32>),
    OptI32(Option<i32>),
    Bool(bool),
    Real(Number),
    OptReal(Option<Number>),
    Text(String),
    OptText(Option<String>),
    Path(String),
    OptPath(Option<String>),
}

pub enum FieldView {
    U32(u32),
    OptU32(Option<u32>),
    OptI32(Option<i32>),
    Bool(bool),
    Real(Number),
    OptReal(Option<Number>),
    Text(Seq<char>),
    OptText(Option<Seq<char>>),
    Path(Seq<char>),
    OptPath(Option<Seq<char>>),
}

pub open spec fn opt_view(o: Option<String>) -> Option<Seq<char>> {
    match o {
        Some(s) => Some(s@),
        None => None,
    }
}

impl View for Field {
    type V = FieldView;

    open spec fn view(&self) -> FieldView {
        match self {
            Field::U32(v) => FieldView::U32(*v),
            Field::OptU32(v) => FieldView::OptU32(*v),
            Field::OptI32(v) => FieldView::OptI32(*v),
            Field::Bool(v) => FieldView::Bool(*v),
            Field::Real(v) => FieldView::Real(*v),
            Field::OptReal(v) => FieldView::OptReal(*v),
            Field::Text(s) => FieldView::Text(s@),
            Field::OptText(s) => FieldView::OptText(opt_view(*s)),
            Field::Path(s) => FieldView::Path(s@),
            Field::OptPath(s) => FieldView::OptPath(opt_view(*s)),
        }
    }
}

impl Field {
    pub fn as_u32(&self) -> (r: u32)
        requires
            self@ is U32,
        ensures
            self@ == FieldView::U32(r),
    {
        match self {
            Field::U32(v) => *v,
            _ => 0,
        }
    }

    pub fn as_opt_u32(&self) -> (r: Option<u32>)
        requires
            self@ is OptU32,
        ensures
            self@ == FieldView::OptU32(r),
    {
        match self {
            Field::OptU32(v) => *v,
            _ => None,
        }
    }

    pub fn as_opt_i32(&self) -> (r: Option<i32>)
        requires
            self@ is OptI32,
        ensures
            self@ == FieldView::OptI32(r),
    {
        match self {
            Field::OptI32(v) => *v,
            _ => None,
        }
    }

    pub fn as_bool(&self) -> (r: bool)
        requires
            self@ is Bool,
        ensures
            self@ == FieldView::Bool(r),
    {
        match self {
            Field::Bool(v) => *v,
            _ => false,
        }
    }

    pub fn as_real(&self) -> (r: Number)
        requires
            self@ is Real,
        ensures
            self@ == FieldView::Real(r),
    {
        match self {
            Field::Real(v) => *v,
            _ => Number::Integer(0),
        }
    }

    pub fn as_opt_real(&self) -> (r: Option<Number>)
        requires
            self@ is OptReal,
        ensures
            self@ == FieldView::OptReal(r),
    {
        match self {
            Field::OptReal(v) => *v,
            _ => None,
        }
    }

    pub fn as_text(&self) -> (r: String)
        requires
            self@ is Text,
        ensures
            self@ == FieldView::Text(r@),
    {
        match self {
            Field::Text(s) => s.clone(),
            _ => String::new(),
        }
    }

    pub fn as_opt_text(&self) -> (r: Option<String>)
        requires
            self@ is OptText,
        ensures
            self@ == FieldView::OptText(opt_view(r)),
    {
        match self {
            Field::OptText(Some(s)) => Some(s.clone()),
            _ => None,
        }
    }

    pub fn as_path(&self) -> (r: String)
        requires
            self@ is Path,
        ensures
            self@ == FieldView::Path(r@),
    {
        match self {
            Field::Path(s) => s.clone(),
            _ => String::new(),
        }
    }

    pub fn as_opt_path(&self) -> (r: Option<String>)
        requires
            self@ is OptPath,
        ensures
            self@ == FieldView::OptPath(opt_view(r)),
    {
        match self {
            Field::OptPath(Some(s)) => Some(s.clone()),
            _ => None,
        }
    }
}

pub open spec fn lift<T>(r: Result<T, Fault>, f: spec_fn(T) -> FieldView) -> Result<FieldView, Fault> {
    match r {
        Ok(v) => Ok(f(v)),
        Err(e) => Err(e),
    }
}

/// An optional value: NULL is absent, anything else must decode as the value.
pub open spec fn optional<T>(c: CellView, r: Result<T, Fault>) -> Result<Option<T>, Fault> {
    match c {
        CellView::Null => Ok(None),
        _ => match r {
            Ok(v) => Ok(Some(v)),
            Err(e) => Err(e),
        },
    }
}

/// What a cell decodes to as a field of the given type.
pub open spec fn spec_field(ty: FieldType, c: CellView) -> Result<FieldView, Fault> {
    match ty {
        FieldType::U32 => lift(spec_u32(c), |v: u32| FieldView::U32(v)),
        FieldType::OptU32 => lift(optional(c, spec_u32(c)), |v: Option<u32>| FieldView::OptU32(v)),
        FieldType::OptI32 => lift(optional(c, spec_i32(c)), |v: Option<i32>| FieldView::OptI32(v)),
        FieldType::Bool => lift(spec_bool(c), |v: bool| FieldView::Bool(v)),
        FieldType::Real => lift(spec_number(c), |v: Number| FieldView::Real(v)),
        FieldType::OptReal => lift(
            optional(c, spec_number(c)),
            |v: Option<Number>| FieldView::OptReal(v),
        ),
        FieldType::Text => lift(spec_text(c), |v: Seq<char>| FieldView::Text(v)),
        FieldType::OptText => lift(
            optional(c, spec_text(c)),
            |v: Option<Seq<char>>| FieldView::OptText(v),
        ),
        FieldType::Path => lift(spec_path(c), |v: Seq<char>| FieldView::Path(v)),
        FieldType::OptPath => lift(spec_opt_path(c), |v: Option<Seq<char>>| FieldView::OptPath(v)),
    }
}

/// Whether a field value has the shape that a field of the given type takes.
pub open spec fn has_type(v: FieldView, ty: FieldType) -> bool {
    match ty {
        FieldType::U32 => v is U32,
        FieldType::OptU32 => v is OptU32,
        FieldType::OptI32 => v is OptI32,
        FieldType::Bool => v is Bool,
        FieldType::Real => v is Real,
        FieldType::OptReal => v is OptReal,
        FieldType::Text => v is Text,
        FieldType::OptText => v is OptText,
        FieldType::Path => v is Path,
        FieldType::OptPath => v is OptPath,
    }
}

/// Each value has the shape of the field declared at its position.
pub open spec fn fits(types: Seq<FieldType>, vals: Seq<FieldView>) -> bool {
    &&& vals.len() == types.len()
    &&& forall|i: int| 0 <= i < types.len() ==> #[trigger] has_type(vals[i], types[i])
}

/// Row `i` of the values is what row `i` of the cells decodes to, for every row.
pub open spec fn rows_decoded_as(
    types: Seq<FieldType>,
    rows: Seq<Seq<CellView>>,
    vals: Seq<Seq<FieldView>>,
) -> bool {
    &&& vals.len() == rows.len()
    &&& forall|i: int| 0 <= i < rows.len() ==> #[trigger] decoded_as(types, rows[i], vals[i])
}

pub open spec fn rows_view(rows: Seq<Vec<Cell>>) -> Seq<Seq<CellView>> {
    rows.map_values(|r: Vec<Cell>| cells_view(r@))
}

pub open spec fn field_rows_view(rows: Seq<Vec<Field>>) -> Seq<Seq<FieldView>> {
    rows.map_values(|r: Vec<Field>| fields_view(r@))
}

/// Every cell of the row decodes as the field declared at its position.
pub open spec fn row_decodes(types: Seq<FieldType>, cells: Seq<CellView>) -> bool {
    forall|i: int| 0 <= i < types.len() ==> (#[trigger] spec_field(types[i], cells[i])) is Ok
}

/// The values are what the cells decode to, position by position.
pub open spec fn decoded_as(types: Seq<FieldType>, cells: Seq<CellView>, vals: Seq<FieldView>) -> bool {
    &&& vals.len() == types.len()
    &&& forall|i: int|
        0 <= i < types.len() ==> #[trigger] spec_field(types[i], cells[i]) == Ok::<FieldView, Fault>(vals[i])
}

/// Position `k` holds the first cell that does not decode.
pub open spec fn first_failure(types: Seq<FieldType>, cells: Seq<CellView>, k: int) -> bool {
    &&& 0 <= k < types.len()
    &&& forall|i: int| 0 <= i < k ==> (#[trigger] spec_field(types[i], cells[i])) is Ok
    &&& spec_field(types[k], cells[k]) is Err
}

pub open spec fn cells_view(cells: Seq<Cell>) -> Seq<CellView> {
    cells.map_values(|c: Cell| c@)
}

pub open spec fn fields_view(fields: Seq<Field>) -> Seq<FieldView> {
    fields.map_values(|f: Field| f@)
}

pub proof fn lemma_decoded_has_type(ty: FieldType, c: CellView)
    ensures
        spec_field(ty, c) is Ok ==> has_type(spec_field(ty, c)->Ok_0, ty),
{
}

/// Values decoded from cells have the shape of their declared fields.
pub proof fn lemma_decoded_fits(types: Seq<FieldType>, cells: Seq<CellView>, vals: Seq<FieldView>)
    requires
        decoded_as(types, cells, vals),
    ensures
        fits(types, vals),
{
    assert forall|i: int| 0 <= i < types.len() implies #[trigger] has_type(vals[i], types[i]) by {
        lemma_decoded_has_type(types[i], cells[i]);
    }
}

/// Decodes one cell as a field of the given type.
pub fn decode_field(ty: FieldType, c: &Cell) -> (r: Result<Field, Mismatch>)
    ensures
        match r {
            Ok(f) => spec_field(ty, c@) == Ok::<FieldView, Fault>(f@),
            Err(m) => spec_field(ty, c@) == Err::<FieldView, Fault>(m.fault()),
        },
{
    match ty {
        FieldType::U32 => Ok(Field::U32(read_u32(c)?)),
        FieldType::OptU32 => match c {
            Cell::Null => Ok(Field::OptU32(None)),
            _ => Ok(Field::OptU32(Some(read_u32(c)?))),
        },
        FieldType::OptI32 => match c {
            Cell::Null => Ok(Field::OptI32(None)),
            _ => Ok(Field::OptI32(Some(read_i32(c)?))),
        },
        FieldType::Bool => Ok(Field::Bool(read_bool(c)?)),
        FieldType::Real => Ok(Field::Real(read_number(c)?)),
        FieldType::OptReal => match c {
            Cell::Null => Ok(Field::OptReal(None)),
            _ => Ok(Field::OptReal(Some(read_number(c)?))),
        },
        FieldType::Text => Ok(Field::Text(read_text(c)?)),
        FieldType::OptText => match c {
            Cell::Null => Ok(Field::OptText(None)),
            _ => Ok(Field::OptText(Some(read_text(c)?))),
        },
        FieldType::Path => Ok(Field::Path(str_or_blob_to_path(c)?)),
        FieldType::OptPath => Ok(Field::OptPath(optional_blob_to_path(c)?)),
    }
}

/// Builds the error that rusqlite's `Row::get` reports when the value at
/// position `idx`, of column `name`, does not convert: `InvalidColumnType` with
/// the position, name and stored type, `IntegralValueOutOfRange` with the
/// position and value, or `Utf8Error` with the position.
#[verifier::external_body]
fn column_error(m: Mismatch, idx: usize, name: &str, c: &Cell) -> SqliteError {
    let ty = match c {
        Cell::Null => Type::Null,
        Cell::Integer(_) => Type::Integer,
        Cell::Real(_) => Type::Real,
        Cell::Text(_) => Type::Text,
        Cell::Blob(_) => Type::Blob,
    };
    match m {
        Mismatch::InvalidType => SqliteError::InvalidColumnType(idx, name.to_owned(), ty),
        Mismatch::OutOfRange(i) => SqliteError::IntegralValueOutOfRange(idx, i),
        Mismatch::Utf8(e) => SqliteError::Utf8Error(idx, e),
    }
}

/// Each name followed by a comma, in order.
pub open spec fn comma_terminated(names: Seq<Seq<char>>) -> Seq<char>
    decreases names.len(),
{
    if names.len() == 0 {
        Seq::empty()
    } else {
        comma_terminated(names.drop_last()) + names.last() + ","@
    }
}

/// The query for a table: every declared column by name, then the key again.
pub open spec fn query_text(names: Seq<Seq<char>>, table: Seq<char>) -> Seq<char> {
    "SELECT "@ + comma_terminated(names) + "id FROM "@ + table
}

impl Schema {
    /// The query text that selects every declared field, in order, followed by
    /// the table's `id` once more.
    pub fn sql_query(&self) -> (r: String)
        ensures
            r@ == query_text(self.names(), self.table@),
    {
        let mut s = String::from_str("SELECT ");
        let n = self.fields.len();
        let mut i: usize = 0;
        while i < n
            invariant
                n == self.fields@.len(),
                i <= n,
                s@ == "SELECT "@ + comma_terminated(self.names().take(i as int)),
            decreases n - i,
        {
            proof {
                assert(self.names().take(i + 1).drop_last() == self.names().take(i as int));
            }
            s.append(self.fields[i].name);
            s.append(",");
            i = i + 1;
        }
        proof {
            assert(self.names().take(n as int) == self.names());
        }
        s.append("id FROM ");
        s.append(self.table);
        s
    }

    /// The declared column names, without the trailing key.
    pub fn columns(&self) -> (r: Vec<&'static str>)
        ensures
            r@ == self.fields@.map_values(|f: FieldSpec| f.name),
    {
        let mut out: Vec<&'static str> = Vec::new();
        let n = self.fields.len();
        let mut i: usize = 0;
        while i < n
            invariant
                n == self.fields@.len(),
                i <= n,
                out@ == self.fields@.take(i as int).map_values(|f: FieldSpec| f.name),
            decreases n - i,
        {
            out.push(self.fields[i].name);
            i = i + 1;
            proof {
                assert(out@ =~= self.fields@.take(i as int).map_values(|f: FieldSpec| f.name));
            }
        }
        proof {
            assert(self.fields@.take(n as int) == self.fields@);
        }
        out
    }

    /// Binds one row: decodes each cell as the field declared at its position,
    /// in order, and stops at the first cell that does not decode, reporting
    /// this table and that field's column.
    pub fn bind_row(&self, cells: &Vec<Cell>) -> (r: Result<Vec<Field>, Error>)
        requires
            cells@.len() == self.fields@.len(),
        ensures
            r is Ok <==> row_decodes(self.types(), cells_view(cells@)),
            r is Ok ==> decoded_as(self.types(), cells_view(cells@), fields_view(r->Ok_0@)),
            r is Err ==> exists|k: int|
                #[trigger] first_failure(self.types(), cells_view(cells@), k)
                && r->Err_0.kind == ErrorKind::Row(
                    TableColumn { table: self.table, column: self.fields@[k].name },
                ),
    {
        let ghost types = self.types();
        let ghost cv = cells_view(cells@);
        let n = self.fields.len();
        let mut out: Vec<Field> = Vec::new();
        let mut i: usize = 0;
        while i < n
            invariant
                n == self.fields@.len(),
                n == cells@.len(),
                types == self.types(),
                cv == cells_view(cells@),
                i <= n,
                out@.len() == i,
                forall|j: int|
                    0 <= j < i ==> spec_field(types[j], cv[j]) == Ok::<FieldView, Fault>(
                        #[trigger] out@[j]@,
                    ),
            decreases n - i,
        {
            let spec_i = self.fields[i];
            match decode_field(spec_i.ty, &cells[i]) {
                Ok(f) => {
                    out.push(f);
                },
                Err(m) => {
                    proof {
                        assert forall|j: int| 0 <= j < i implies (#[trigger] spec_field(
                            types[j],
                            cv[j],
                        )) is Ok by {
                            assert(spec_field(types[j], cv[j]) == Ok::<FieldView, Fault>(out@[j]@));
                        }
                        assert(first_failure(types, cv, i as int));
                    }
                    return Err(
                        Error {
                            source: column_error(m, i, spec_i.name, &cells[i]),
                            kind: ErrorKind::Row(TableColumn { table: self.table, column: spec_i.name }),
                        },
                    );
                },
            }
            i = i + 1;
        }
        proof {
            assert(fields_view(out@).len() == n);
            assert forall|j: int| 0 <= j < n implies #[trigger] spec_field(types[j], cv[j])
                == Ok::<FieldView, Fault>(fields_view(out@)[j]) by {
                assert(spec_field(types[j], cv[j]) == Ok::<FieldView, Fault>(out@[j]@));
            }
        }
        Ok(out)
    }

    /// Binds every row, in order, and stops at the first row that does not
    /// bind, with that row's error.
    pub fn bind_rows(&self, rows: &Vec<Vec<Cell>>) -> (r: Result<Vec<Vec<Field>>, Error>)
        requires
            forall|i: int| 0 <= i < rows@.len() ==> (#[trigger] rows@[i])@.len() == self.fields@.len(),
        ensures
            r is Ok <==> forall|i: int|
                0 <= i < rows@.len() ==> row_decodes(self.types(), #[trigger] rows_view(rows@)[i]),
            r is Ok ==> rows_decoded_as(self.types(), rows_view(rows@), field_rows_view(r->Ok_0@)),
            r is Err ==> exists|j: int, k: int|
                0 <= j < rows@.len()
                && (forall|i: int| 0 <= i < j ==> row_decodes(self.types(), #[trigger] rows_view(rows@)[i]))
                && #[trigger] first_failure(self.types(), rows_view(rows@)[j], k)
                && r->Err_0.kind == ErrorKind::Row(
                    TableColumn { table: self.table, column: self.fields@[k].name },
                ),
    {
        let ghost types = self.types();
        let ghost rv = rows_view(rows@);
        let mut out: Vec<Vec<Field>> = Vec::new();
        let mut i: usize = 0;
        while i < rows.len()
            invariant
                types == self.types(),
                rv == rows_view(rows@),
                forall|j: int| 0 <= j < rows@.len() ==> (#[trigger] rows@[j])@.len() == self.fields@.len(),
                i <= rows@.len(),
                out@.len() == i,
                forall|j: int| 0 <= j < i ==> #[trigger] decoded_as(types, rv[j], field_rows_view(out@)[j]),
            decreases rows@.len() - i,
        {
            assert(rv[i as int] == cells_view(rows@[i as int]@));
            match self.bind_row(&rows[i]) {
                Ok(fields) => {
                    let ghost old_out = out@;
                    let ghost fv = fields_view(fields@);
                    out.push(fields);
                    proof {
                        assert forall|j: int| 0 <= j < i + 1 implies #[trigger] decoded_as(
                            types,
                            rv[j],
                            field_rows_view(out@)[j],
                        ) by {
                            if j < i {
                                assert(out@[j] == old_out[j]);
                                assert(field_rows_view(out@)[j] == field_rows_view(old_out)[j]);
                            } else {
                                assert(field_rows_view(out@)[j] == fv);
                            }
                        }
                    }
                },
                Err(e) => {
                    proof {
                        assert forall|j: int| 0 <= j < i implies row_decodes(types, #[trigger] rv[j]) by {
                            assert(decoded_as(types, rv[j], field_rows_view(out@)[j]));
                        }
                        let k = choose|k: int|
                            #[trigger] first_failure(types, cells_view(rows@[i as int]@), k)
                            && e.kind == ErrorKind::Row(
                                TableColumn { table: self.table, column: self.fields@[k].name },
                            );
                        assert(first_failure(types, rv[i as int], k));
                    }
                    return Err(e);
                },
            }
            i = i + 1;
        }
        proof {
            assert forall|j: int| 0 <= j < rows@.len() implies row_decodes(types, #[trigger] rv[j]) by {
                assert(decoded_as(types, rv[j], field_rows_view(out@)[j]));
            }
        }
        Ok(out)
    }
}

} // verus!
