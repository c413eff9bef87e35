use vstd::prelude::*;
use vstd::utf8::{decode_utf8, valid_utf8};

verus! {

/// The error that std reports for bytes that are not valid UTF-8.
#[verifier::external_type_specification]
#[verifier::external_body]
pub struct ExUtf8Error(std::str::Utf8Error);

/// A number stored in a real-typed column: SQLite hands back either an integer
/// or the bit pattern of an IEEE-754 double.
#[derive(Clone, Copy, Debug, PartialEq, Eq, Structural)]
pub enum Number {
    Integer(i64),
    Real(u64),
}

/// One raw column value of a result row, as the storage engine stores it.
/// Text is kept as the stored bytes, which need not be valid UTF-8.
#[derive(Clone, Debug)]
pub enum Cell {
    Null,
    Integer(i64),
    Real(u64),
    Text(Vec<u8>),
    Blob(Vec<u8>),
}

pub enum CellView {
    Null,
    Integer(i64),
    Real(u64),
    Text(Seq<u8>),
    Blob(Seq<u8>),
}

impl View for Cell {
    type V = CellView;

    open spec fn view(&self) -> CellView {
        match self {
            Cell::Null => CellView::Null,
            Cell::Integer(i) => CellView::Integer(*i),
            Cell::Real(b) => CellView::Real(*b),
            Cell::Text(t) => CellView::Text(t@),
            Cell::Blob(b) => CellView::Blob(b@),
        }
    }
}

/// Why a cell could not be coerced into the requested type.
#[derive(Debug)]
pub enum Mismatch {
    /// The stored type cannot be converted to the requested one.
    InvalidType,
    /// The stored integer does not fit the requested integer type.
    OutOfRange(i64),
    /// The stored text is not valid UTF-8.
    Utf8(std::str::Utf8Error),
}

/// The failure reasons, without the payload of the UTF-8 error.
pub enum Fault {
    InvalidType,
    OutOfRange(i64),
    Utf8,
}

impl Mismatch {
    pub open spec fn fault(&self) -> Fault {
        match self {
            Mismatch::InvalidType => Fault::InvalidType,
            Mismatch::OutOfRange(i) => Fault::OutOfRange(*i),
            Mismatch::Utf8(_) => Fault::Utf8,
        }
    }
}

/// What std's lossy UTF-8 decoding makes of a byte sequence.
pub uninterp spec fn lossy_utf8(b: Seq<u8>) -> Seq<char>;

/// Lossy decoding: valid UTF-8 decodes as usual; otherwise each invalid
/// sequence is replaced by U+FFFD.
pub open spec fn lossy_text(b: Seq<u8>) -> Seq<char> {
    if valid_utf8(b) {
        decode_utf8(b)
    } else {
        lossy_utf8(b)
    }
}

/// Relies on `std::str::from_utf8`: it fails exactly on bytes that are not
/// valid UTF-8, and otherwise yields the characters they encode.
#[verifier::external_body]
fn utf8_string(b: &[u8]) -> (r: Result<String, std::str::Utf8Error>)
    ensures
        r is Ok <==> valid_utf8(b@),
        r is Ok ==> r->Ok_0@ == decode_utf8(b@),
{
    std::str::from_utf8(b).map(str::to_owned)
}

/// Relies on `String::from_utf8_lossy`: valid UTF-8 decodes as usual, and each
/// invalid sequence becomes U+FFFD, so invalid input yields at least one.
#[verifier::external_body]
fn lossy_string(b: &[u8]) -> (r: String)
    ensures
        valid_utf8(b@) ==> r@ == decode_utf8(b@),
        !valid_utf8(b@) ==> r@ == lossy_utf8(b@),
        !valid_utf8(b@) ==> r@.contains('\u{FFFD}'),
{
    String::from_utf8_lossy(b).into_owned()
}

/// The integer stored in a cell, as the storage engine's integer reads see it.
pub open spec fn spec_integer(c: CellView) -> Result<i64, Fault> {
    match c {
        CellView::Integer(i) => Ok(i),
        _ => Err(Fault::InvalidType),
    }
}

pub open spec fn spec_u32(c: CellView) -> Result<u32, Fault> {
    match spec_integer(c) {
        Ok(i) => if 0 <= i <= u32::MAX {
            Ok(i as u32)
        } else {
            Err(Fault::OutOfRange(i))
        },
        Err(f) => Err(f),
    }
}

pub open spec fn spec_i32(c: CellView) -> Result<i32, Fault> {
    match spec_integer(c) {
        Ok(i) => if i32::MIN <= i <= i32::MAX {
            Ok(i as i32)
        } else {
            Err(Fault::OutOfRange(i))
        },
        Err(f) => Err(f),
    }
}

/// A boolean is any integer; zero is false.
pub open spec fn spec_bool(c: CellView) -> Result<bool, Fault> {
    match spec_integer(c) {
        Ok(i) => Ok(i != 0),
        Err(f) => Err(f),
    }
}

pub open spec fn spec_number(c: CellView) -> Result<Number, Fault> {
    match c {
        CellView::Integer(i) => Ok(Number::Integer(i)),
        CellView::Real(b) => Ok(Number::Real(b)),
        _ => Err(Fault::InvalidType),
    }
}

/// Text must be stored as text and be valid UTF-8.
pub open spec fn spec_text(c: CellView) -> Result<Seq<char>, Fault> {
    match c {
        CellView::Text(t) => if valid_utf8(t) {
            Ok(decode_utf8(t))
        } else {
            Err(Fault::Utf8)
        },
        _ => Err(Fault::InvalidType),
    }
}

pub open spec fn spec_blob(c: CellView) -> Result<Seq<u8>, Fault> {
    match c {
        CellView::Blob(b) => Ok(b),
        _ => Err(Fault::InvalidType),
    }
}

/// A path stored as text, or else as a blob decoded lossily; when both readings
/// fail, the failure of the blob reading is the one reported.
pub open spec fn spec_path(c: CellView) -> Result<Seq<char>, Fault> {
    match spec_text(c) {
        Ok(s) => Ok(s),
        Err(_) => match spec_blob(c) {
            Ok(b) => Ok(lossy_text(b)),
            Err(f) => Err(f),
        },
    }
}

/// An optional path stored as a blob; NULL means no path.
pub open spec fn spec_opt_path(c: CellView) -> Result<Option<Seq<char>>, Fault> {
    match c {
        CellView::Null => Ok(None),
        _ => match spec_blob(c) {
            Ok(b) => Ok(Some(lossy_text(b))),
            Err(f) => Err(f),
        },
    }
}

pub fn read_integer(c: &Cell) -> (r: Result<i64, Mismatch>)
    ensures
        match r {
            Ok(i) => spec_integer(c@) == Ok::<i64, Fault>(i),
            Err(m) => spec_integer(c@) == Err::<i64, Fault>(m.fault()),
        },
{
    match c {
        Cell::Integer(i) => Ok(*i),
        _ => Err(Mismatch::InvalidType),
    }
}

pub fn read_u32(c: &Cell) -> (r: Result<u32, Mismatch>)
    ensures
        match r {
            Ok(v) => spec_u32(c@) == Ok::<u32, Fault>(v),
            Err(m) => spec_u32(c@) == Err::<u32, Fault>(m.fault()),
        },
{
    let i = read_integer(c)?;
    if 0 <= i && i <= u32::MAX as i64 {
        Ok(i as u32)
    } else {
        Err(Mismatch::OutOfRange(i))
    }
}

pub fn read_i32(c: &Cell) -> (r: Result<i32, Mismatch>)
    ensures
        match r {
            Ok(v) => spec_i32(c@) == Ok::<i32, Fault>(v),
            Err(m) => spec_i32(c@) == Err::<i32, Fault>(m.fault()),
        },
{
    let i = read_integer(c)?;
    if i32::MIN as i64 <= i && i <= i32::MAX as i64 {
        Ok(i as i32)
    } else {
        Err(Mismatch::OutOfRange(i))
    }
}

pub fn read_bool(c: &Cell) -> (r: Result<bool, Mismatch>)
    ensures
        match r {
            Ok(v) => spec_bool(c@) == Ok::<bool, Fault>(v),
            Err(m) => spec_bool(c@) == Err::<bool, Fault>(m.fault()),
        },
{
    let i = read_integer(c)?;
    Ok(i != 0)
}

pub fn read_number(c: &Cell) -> (r: Result<Number, Mismatch>)
    ensures
        match r {
            Ok(v) => spec_number(c@) == Ok::<Number, Fault>(v),
            Err(m) => spec_number(c@) == Err::<Number, Fault>(m.fault()),
        },
{
    match c {
        Cell::Integer(i) => Ok(Number::Integer(*i)),
        Cell::Real(b) => Ok(Number::Real(*b)),
        _ => Err(Mismatch::InvalidType),
    }
}

pub fn read_text(c: &Cell) -> (r: Result<String, Mismatch>)
    ensures
        match r {
            Ok(s) => spec_text(c@) == Ok::<Seq<char>, Fault>(s@),
            Err(m) => spec_text(c@) == Err::<Seq<char>, Fault>(m.fault()),
        },
{
    match c {
        Cell::Text(t) => match utf8_string(t.as_slice()) {
            Ok(s) => Ok(s),
            Err(e) => Err(Mismatch::Utf8(e)),
        },
        _ => Err(Mismatch::InvalidType),
    }
}

pub fn read_blob(c: &Cell) -> (r: Result<Vec<u8>, Mismatch>)
    ensures
        match r {
            Ok(b) => spec_blob(c@) == Ok::<Seq<u8>, Fault>(b@),
            Err(m) => spec_blob(c@) == Err::<Seq<u8>, Fault>(m.fault()),
        },
{
    match c {
        Cell::Blob(b) => Ok(b.clone()),
        _ => Err(Mismatch::InvalidType),
    }
}

/// Decodes bytes as UTF-8, replacing each invalid sequence with U+FFFD; this
/// never fails.
pub fn blob_to_path(v: Vec<u8>) -> (r: String)
    ensures
        r@ == lossy_text(v@),
        !valid_utf8(v@) ==> r@.contains('\u{FFFD}'),
{
    lossy_string(v.as_slice())
}

/// Reads a path stored either as text or, by older producers, as a blob.
pub fn str_or_blob_to_path(c: &Cell) -> (r: Result<String, Mismatch>)
    ensures
        match r {
            Ok(s) => spec_path(c@) == Ok::<Seq<char>, Fault>(s@),
            Err(m) => spec_path(c@) == Err::<Seq<char>, Fault>(m.fault()),
        },
{
    match read_text(c) {
        Ok(s) => Ok(s),
        Err(_) => {
            let b = read_blob(c)?;
            Ok(blob_to_path(b))
        },
    }
}

/// Reads an optional path stored as a blob.
pub fn optional_blob_to_path(c: &Cell) -> (r: Result<Option<String>, Mismatch>)
    ensures
        match r {
            Ok(Some(s)) => spec_opt_path(c@) == Ok::<Option<Seq<char>>, Fault>(Some(s@)),
            Ok(None) => spec_opt_path(c@) == Ok::<Option<Seq<char>>, Fault>(None),
            Err(m) => spec_opt_path(c@) == Err::<Option<Seq<char>>, Fault>(m.fault()),
        },
{
    match c {
        Cell::Null => Ok(None),
        _ => {
            let b = read_blob(c)?;
            Ok(Some(blob_to_path(b)))
        },
    }
}

/// Whether a number is zero, its type's default: such a field is left out when
/// records are serialized.
pub fn is_num_zero(n: &u32) -> (r: bool)
    ensures
        r == (*n == 0),
{
    *n == 0
}

/// Whether an optional field is unset, its default: such a field is left out
/// when records are serialized.
pub fn is_unset<T>(o: &Option<T>) -> (r: bool)
    ensures
        r == o is None,
{
    match o {
        Some(_) => false,
        None => true,
    }
}

} // verus!
