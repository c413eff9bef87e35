//! Reads the albums and items of a beets music library database into typed records.
//!
//! Raw column values are modelled by [`Cell`]; the coercion of a cell into a
//! typed field, the binding of a whole row through an entity [`Schema`], and the
//! loop that reads a table are verified against the specifications stated beside
//! them. The database is only ever opened for reading.

mod entity;
mod error;
mod laws;
mod reader;
mod schema;
mod value;

pub use entity::{
    album_names, album_types, attribute_names, attribute_types, item_names, item_types, Album,
    Attribute, Item,
};
pub use error::{column_message, is_row_error, Error, ErrorKind, TableColumn};
pub use laws::{
    lemma_album_id, lemma_blob_path_total, lemma_item_id, lemma_null_optional_path,
    lemma_path_text_blob_agree, lemma_zero_default,
};
pub use reader::{albums_view, items_view, read_all, read_cells, read_table, table_failure};
pub use schema::{
    cells_view, decode_field, decoded_as, fields_view, first_failure, fits, has_type, query_text,
    field_rows_view, lemma_decoded_fits, row_decodes, rows_decoded_as, rows_view, spec_field, Field, FieldSpec, FieldType, FieldView, Schema,
};
pub use value::{
    blob_to_path, is_num_zero, is_unset, lossy_text, optional_blob_to_path, read_blob, read_bool,
    read_i32, read_integer, read_number, read_text, read_u32, str_or_blob_to_path, Cell,
    CellView, Fault, Mismatch, Number,
};
