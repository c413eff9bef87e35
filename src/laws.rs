use vstd::prelude::*;
use vstd::utf8::valid_utf8;

use crate::entity::{album_names, album_types, item_names, item_types, Album, Item};
use crate::schema::{decoded_as, spec_field, FieldType, FieldView};
use crate::value::{lossy_text, spec_opt_path, spec_path, spec_u32, CellView, Fault};

verus! {

/// A path stored as text and the same bytes stored as a blob decode to the same
/// path, when the bytes are valid UTF-8.
pub proof fn lemma_path_text_blob_agree(b: Seq<u8>)
    requires
        valid_utf8(b),
    ensures
        spec_path(CellView::Text(b)) is Ok,
        spec_path(CellView::Text(b)) == spec_path(CellView::Blob(b)),
        spec_field(FieldType::Path, CellView::Text(b)) == spec_field(
            FieldType::Path,
            CellView::Blob(b),
        ),
{
}

/// A path stored as a blob always decodes, whatever its bytes: invalid UTF-8 is
/// never a failure.
pub proof fn lemma_blob_path_total(b: Seq<u8>)
    ensures
        spec_path(CellView::Blob(b)) == Ok::<Seq<char>, Fault>(lossy_text(b)),
        spec_opt_path(CellView::Blob(b)) == Ok::<Option<Seq<char>>, Fault>(Some(lossy_text(b))),
        spec_field(FieldType::Path, CellView::Blob(b)) is Ok,
        spec_field(FieldType::OptPath, CellView::Blob(b)) is Ok,
{
}

/// An unset optional path decodes to no value: neither an error nor an empty
/// path.
pub proof fn lemma_null_optional_path()
    ensures
        spec_opt_path(CellView::Null) == Ok::<Option<Seq<char>>, Fault>(None),
        spec_field(FieldType::OptPath, CellView::Null) == Ok::<FieldView, Fault>(
            FieldView::OptPath(None),
        ),
{
}

/// A number field decodes to zero, its default, exactly when the stored value is
/// the integer zero.
pub proof fn lemma_zero_default(c: CellView)
    requires
        spec_u32(c) is Ok,
    ensures
        (spec_u32(c)->Ok_0 == 0) <==> c == CellView::Integer(0),
{
}

/// The id of a bound album is the value of the row's `id` column.
pub proof fn lemma_album_id(cells: Seq<CellView>, a: Album)
    requires
        decoded_as(album_types(), cells, a.view_fields()),
    ensures
        album_names()[0] == "id"@,
        spec_u32(cells[0]) == Ok::<u32, Fault>(a.id),
{
    assert(spec_field(album_types()[0], cells[0]) == Ok::<FieldView, Fault>(a.view_fields()[0]));
}

/// The id of a bound item is the value of the row's `id` column.
pub proof fn lemma_item_id(cells: Seq<CellView>, t: Item)
    requires
        decoded_as(item_types(), cells, t.view_fields()),
    ensures
        item_names()[0] == "id"@,
        spec_u32(cells[0]) == Ok::<u32, Fault>(t.id),
{
    assert(spec_field(item_types()[0], cells[0]) == Ok::<FieldView, Fault>(t.view_fields()[0]));
}

} // verus!
