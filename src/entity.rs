use vstd::prelude::*;

use crate::error::{is_row_error, Error};
use crate::schema::{
    cells_view, decoded_as, fields_view, first_failure, lemma_decoded_has_type, opt_view, query_text,
    row_decodes, Field, FieldSpec, FieldType, FieldView, Schema,
};
use crate::value::{Cell, Number};

verus! {

/// All of the fields present on an "attribute" in the beets schema.
#[derive(Clone, Debug, PartialEq)]
pub struct Attribute {
    pub id: u32,
    pub entity_id: u32,
    pub key: String,
    pub value: String,
}

/// The semantic types of the fields of [`Attribute`], in declared order.
pub open spec fn attribute_types() -> Seq<FieldType> {
    seq![
        FieldType::U32,
        FieldType::U32,
        FieldType::Text,
        FieldType::Text,
    ]
}

/// The column names of the fields of [`Attribute`], in declared order.
pub open spec fn attribute_names() -> Seq<Seq<char>> {
    seq![
        "id"@,
        "entity_id"@,
        "key"@,
        "value"@,
    ]
}

impl Attribute {
    /// The values of the fields, in declared order.
    pub open spec fn view_fields(&self) -> Seq<FieldView> {
        seq![
            FieldView::U32(self.id),
            FieldView::U32(self.entity_id),
            FieldView::Text(self.key@),
            FieldView::Text(self.value@),
        ]
    }

    /// The declaration of the fields of [`Attribute`]. Attributes are kept in one
    /// table per entity kind, so errors name this declaration rather than a table.
    pub fn schema() -> (r: Schema)
        ensures
            r.table@ == "Attribute"@,
            r.types() == attribute_types(),
            r.names() == attribute_names(),
    {
        let r = Schema {
            table: "Attribute",
            fields: vec![
                FieldSpec { name: "id", ty: FieldType::U32 },
                FieldSpec { name: "entity_id", ty: FieldType::U32 },
                FieldSpec { name: "key", ty: FieldType::Text },
                FieldSpec { name: "value", ty: FieldType::Text },
            ],
        };
        proof {
            assert(r.types() =~= attribute_types());
            assert(r.names() =~= attribute_names());
        }
        r
    }

    /// Builds the entity from the values bound for its fields, in declared order.
    pub fn from_fields(f: &Vec<Field>) -> (r: Attribute)
        requires
            f@.len() == 4,
            forall|i: int| 0 <= i < 4 ==> #[trigger] crate::schema::has_type(f@[i]@, attribute_types()[i]),
        ensures
            r.view_fields() == fields_view(f@),
    {
        proof {
            assert forall|i: int| 0 <= i < 4 implies crate::schema::has_type(#[trigger] f@[i]@, attribute_types()[i]) by {
                assert(crate::schema::has_type(f@[i]@, attribute_types()[i]));
            }
        }
        let r = Attribute {
            id: f[0].as_u32(),
            entity_id: f[1].as_u32(),
            key: f[2].as_text(),
            value: f[3].as_text(),
        };
        proof {
            assert(r.view_fields() =~= fields_view(f@));
        }
        r
    }

    /// Binds one row of `Attribute`: the entity whose fields are what the cells
    /// decode to, or the error of the first cell that does not decode.
    pub fn from_row(cells: &Vec<Cell>) -> (r: Result<Attribute, Error>)
        requires
            cells@.len() == 4,
        ensures
            r is Ok <==> row_decodes(attribute_types(), cells_view(cells@)),
            r is Ok ==> decoded_as(attribute_types(), cells_view(cells@), r->Ok_0.view_fields()),
            r is Err ==> exists|k: int|
                #[trigger] first_failure(attribute_types(), cells_view(cells@), k)
                && is_row_error(r->Err_0, "Attribute"@, attribute_names()[k]),
    {
        let s = Attribute::schema();
        match s.bind_row(cells) {
            Ok(fs) => {
                proof {
                    assert forall|i: int| 0 <= i < 4 implies #[trigger] crate::schema::has_type(fs@[i]@, attribute_types()[i]) by {
                        lemma_decoded_has_type(attribute_types()[i], cells_view(cells@)[i]);
                        assert(fields_view(fs@)[i] == fs@[i]@);
                    }
                }
                Ok(Attribute::from_fields(&fs))
            },
            Err(e) => {
                proof {
                    let k = choose|k: int|
                        #[trigger] first_failure(s.types(), cells_view(cells@), k)
                        && e.kind == crate::error::ErrorKind::Row(
                            crate::error::TableColumn { table: s.table, column: s.fields@[k].name },
                        );
                    assert(s.names()[k] == s.fields@[k].name@);
                    assert(is_row_error(e, "Attribute"@, attribute_names()[k]));
                }
                Err(e)
            },
        }
    }
}

/// All of the fields that an album has in the beets schema.
/// Text that is not valid UTF-8 in a path field is decoded lossily, each invalid
/// sequence becoming U+FFFD.
#[derive(Clone, Debug, PartialEq)]
pub struct Album {
    pub id: u32,
    pub artpath: Option<String>,
    pub added: Number,
    pub albumartist: String,
    pub albumartist_sort: String,
    pub albumartist_credit: String,
    pub album: String,
    pub genre: String,
    pub year: u32,
    pub month: u32,
    pub day: u32,
    pub disctotal: u32,
    pub comp: bool,
    pub mb_albumid: String,
    pub mb_albumartistid: String,
    pub albumtype: String,
    pub label: String,
    pub mb_releasegroupid: String,
    pub asin: String,
    pub catalognum: String,
    pub script: String,
    pub language: String,
    pub country: String,
    pub albumstatus: String,
    pub albumdisambig: String,
    pub rg_album_gain: Option<Number>,
    pub rg_album_peak: Option<Number>,
    pub r128_album_gain: Option<i32>,
    pub original_year: u32,
    pub original_month: u32,
    pub original_day: u32,
}

/// The semantic types of the fields of [`Album`], in declared order.
pub open spec fn album_types() -> Seq<FieldType> {
    seq![
        FieldType::U32,
        FieldType::OptPath,
        FieldType::Real,
        FieldType::Text,
        FieldType::Text,
        FieldType::Text,
        FieldType::Text,
        FieldType::Text,
        FieldType::U32,
        FieldType::U32,
        FieldType::U32,
        FieldType::U32,
        FieldType::Bool,
        FieldType::Text,
        FieldType::Text,
        FieldType::Text,
        FieldType::Text,
        FieldType::Text,
        FieldType::Text,
        FieldType::Text,
        FieldType::Text,
        FieldType::Text,
        FieldType::Text,
        FieldType::Text,
        FieldType::Text,
        FieldType::OptReal,
        FieldType::OptReal,
        FieldType::OptI32,
        FieldType::U32,
        FieldType::U32,
        FieldType::U32,
    ]
}

/// The column names of the fields of [`Album`], in declared order.
pub open spec fn album_names() -> Seq<Seq<char>> {
    seq![
        "id"@,
        "artpath"@,
        "added"@,
        "albumartist"@,
        "albumartist_sort"@,
        "albumartist_credit"@,
        "album"@,
        "genre"@,
        "year"@,
        "month"@,
        "day"@,
        "disctotal"@,
        "comp"@,
        "mb_albumid"@,
        "mb_albumartistid"@,
        "albumtype"@,
        "label"@,
        "mb_releasegroupid"@,
        "asin"@,
        "catalognum"@,
        "script"@,
        "language"@,
        "country"@,
        "albumstatus"@,
        "albumdisambig"@,
        "rg_album_gain"@,
        "rg_album_peak"@,
        "r128_album_gain"@,
        "original_year"@,
        "original_month"@,
        "original_day"@,
    ]
}

impl Album {
    /// The values of the fields, in declared order.
    pub open spec fn view_fields(&self) -> Seq<FieldView> {
        seq![
            FieldView::U32(self.id),
            FieldView::OptPath(opt_view(self.artpath)),
            FieldView::Real(self.added),
            FieldView::Text(self.albumartist@),
            FieldView::Text(self.albumartist_sort@),
            FieldView::Text(self.albumartist_credit@),
            FieldView::Text(self.album@),
            FieldView::Text(self.genre@),
            FieldView::U32(self.year),
            FieldView::U32(self.month),
            FieldView::U32(self.day),
            FieldView::U32(self.disctotal),
            FieldView::Bool(self.comp),
            FieldView::Text(self.mb_albumid@),
            FieldView::Text(self.mb_albumartistid@),
            FieldView::Text(self.albumtype@),
            FieldView::Text(self.label@),
            FieldView::Text(self.mb_releasegroupid@),
            FieldView::Text(self.asin@),
            FieldView::Text(self.catalognum@),
            FieldView::Text(self.script@),
            FieldView::Text(self.language@),
            FieldView::Text(self.country@),
            FieldView::Text(self.albumstatus@),
            FieldView::Text(self.albumdisambig@),
            FieldView::OptReal(self.rg_album_gain),
            FieldView::OptReal(self.rg_album_peak),
            FieldView::OptI32(self.r128_album_gain),
            FieldView::U32(self.original_year),
            FieldView::U32(self.original_month),
            FieldView::U32(self.original_day),
        ]
    }

    /// The declaration of the fields of [`Album`] and of the table they are read from.
    pub fn schema() -> (r: Schema)
        ensures
            r.table@ == "albums"@,
            r.types() == album_types(),
            r.names() == album_names(),
    {
        let r = Schema {
            table: "albums",
            fields: vec![
                FieldSpec { name: "id", ty: FieldType::U32 },
                FieldSpec { name: "artpath", ty: FieldType::OptPath },
                FieldSpec { name: "added", ty: FieldType::Real },
                FieldSpec { name: "albumartist", ty: FieldType::Text },
                FieldSpec { name: "albumartist_sort", ty: FieldType::Text },
                FieldSpec { name: "albumartist_credit", ty: FieldType::Text },
                FieldSpec { name: "album", ty: FieldType::Text },
                FieldSpec { name: "genre", ty: FieldType::Text },
                FieldSpec { name: "year", ty: FieldType::U32 },
                FieldSpec { name: "month", ty: FieldType::U32 },
                FieldSpec { name: "day", ty: FieldType::U32 },
                FieldSpec { name: "disctotal", ty: FieldType::U32 },
                FieldSpec { name: "comp", ty: FieldType::Bool },
                FieldSpec { name: "mb_albumid", ty: FieldType::Text },
                FieldSpec { name: "mb_albumartistid", ty: FieldType::Text },
                FieldSpec { name: "albumtype", ty: FieldType::Text },
                FieldSpec { name: "label", ty: FieldType::Text },
                FieldSpec { name: "mb_releasegroupid", ty: FieldType::Text },
                FieldSpec { name: "asin", ty: FieldType::Text },
                FieldSpec { name: "catalognum", ty: FieldType::Text },
                FieldSpec { name: "script", ty: FieldType::Text },
                FieldSpec { name: "language", ty: FieldType::Text },
                FieldSpec { name: "country", ty: FieldType::Text },
                FieldSpec { name: "albumstatus", ty: FieldType::Text },
                FieldSpec { name: "albumdisambig", ty: FieldType::Text },
                FieldSpec { name: "rg_album_gain", ty: FieldType::OptReal },
                FieldSpec { name: "rg_album_peak", ty: FieldType::OptReal },
                FieldSpec { name: "r128_album_gain", ty: FieldType::OptI32 },
                FieldSpec { name: "original_year", ty: FieldType::U32 },
                FieldSpec { name: "original_month", ty: FieldType::U32 },
                FieldSpec { name: "original_day", ty: FieldType::U32 },
            ],
        };
        proof {
            assert(r.types() =~= album_types());
            assert(r.names() =~= album_names());
        }
        r
    }

    /// The query for the `albums` table: every field by name, then `id` again.
    pub fn sql_query() -> (r: String)
        ensures
            r@ == query_text(album_names(), "albums"@),
    {
        Album::schema().sql_query()
    }

    /// The names of the declared columns of the `albums` table.
    pub fn columns() -> (r: Vec<&'static str>)
        ensures
            r@.map_values(|c: &'static str| c@) == album_names(),
    {
        let s = Album::schema();
        let r = s.columns();
        proof {
            assert(r@.map_values(|c: &'static str| c@) =~= s.names());
        }
        r
    }

    /// Builds the entity from the values bound for its fields, in declared order.
    pub fn from_fields(f: &Vec<Field>) -> (r: Album)
        requires
            f@.len() == 31,
            forall|i: int| 0 <= i < 31 ==> #[trigger] crate::schema::has_type(f@[i]@, album_types()[i]),
        ensures
            r.view_fields() == fields_view(f@),
    {
        proof {
            assert forall|i: int| 0 <= i < 31 implies crate::schema::has_type(#[trigger] f@[i]@, album_types()[i]) by {
                assert(crate::schema::has_type(f@[i]@, album_types()[i]));
            }
        }
        let r = Album {
            id: f[0].as_u32(),
            artpath: f[1].as_opt_path(),
            added: f[2].as_real(),
            albumartist: f[3].as_text(),
            albumartist_sort: f[4].as_text(),
            albumartist_credit: f[5].as_text(),
            album: f[6].as_text(),
            genre: f[7].as_text(),
            year: f[8].as_u32(),
            month: f[9].as_u32(),
            day: f[10].as_u32(),
            disctotal: f[11].as_u32(),
            comp: f[12].as_bool(),
            mb_albumid: f[13].as_text(),
            mb_albumartistid: f[14].as_text(),
            albumtype: f[15].as_text(),
            label: f[16].as_text(),
            mb_releasegroupid: f[17].as_text(),
            asin: f[18].as_text(),
            catalognum: f[19].as_text(),
            script: f[20].as_text(),
            language: f[21].as_text(),
            country: f[22].as_text(),
            albumstatus: f[23].as_text(),
            albumdisambig: f[24].as_text(),
            rg_album_gain: f[25].as_opt_real(),
            rg_album_peak: f[26].as_opt_real(),
            r128_album_gain: f[27].as_opt_i32(),
            original_year: f[28].as_u32(),
            original_month: f[29].as_u32(),
            original_day: f[30].as_u32(),
        };
        proof {
            assert(r.view_fields() =~= fields_view(f@));
        }
        r
    }

    /// Binds one row of `albums`: the entity whose fields are what the cells
    /// decode to, or the error of the first cell that does not decode.
    pub fn from_row(cells: &Vec<Cell>) -> (r: Result<Album, Error>)
        requires
            cells@.len() == 31,
        ensures
            r is Ok <==> row_decodes(album_types(), cells_view(cells@)),
            r is Ok ==> decoded_as(album_types(), cells_view(cells@), r->Ok_0.view_fields()),
            r is Err ==> exists|k: int|
                #[trigger] first_failure(album_types(), cells_view(cells@), k)
                && is_row_error(r->Err_0, "albums"@, album_names()[k]),
    {
        let s = Album::schema();
        match s.bind_row(cells) {
            Ok(fs) => {
                proof {
                    assert forall|i: int| 0 <= i < 31 implies #[trigger] crate::schema::has_type(fs@[i]@, album_types()[i]) by {
                        lemma_decoded_has_type(album_types()[i], cells_view(cells@)[i]);
                        assert(fields_view(fs@)[i] == fs@[i]@);
                    }
                }
                Ok(Album::from_fields(&fs))
            },
            Err(e) => {
                proof {
                    let k = choose|k: int|
                        #[trigger] first_failure(s.types(), cells_view(cells@), k)
                        && e.kind == crate::error::ErrorKind::Row(
                            crate::error::TableColumn { table: s.table, column: s.fields@[k].name },
                        );
                    assert(s.names()[k] == s.fields@[k].name@);
                    assert(is_row_error(e, "albums"@, album_names()[k]));
                }
                Err(e)
            },
        }
    }
}

/// All of the fields that an "item" (track) has in the beets schema.
/// Text that is not valid UTF-8 in a path field is decoded lossily, each invalid
/// sequence becoming U+FFFD.
#[derive(Clone, Debug, PartialEq)]
pub struct Item {
    pub id: u32,
    pub path: String,
    pub album_id: Option<u32>,
    pub title: String,
    pub artist: String,
    pub artist_sort: String,
    pub artist_credit: String,
    pub album: String,
    pub albumartist: String,
    pub albumartist_sort: String,
    pub albumartist_credit: String,
    pub genre: String,
    pub lyricist: String,
    pub composer: String,
    pub composer_sort: String,
    pub arranger: String,
    pub grouping: String,
    pub year: u32,
    pub month: u32,
    pub day: u32,
    pub track: u32,
    pub tracktotal: u32,
    pub disc: u32,
    pub disctotal: u32,
    pub lyrics: String,
    pub comments: String,
    pub bpm: u32,
    pub comp: bool,
    pub mb_trackid: String,
    pub mb_albumid: String,
    pub mb_artistid: String,
    pub mb_albumartistid: String,
    pub mb_releasetrackid: String,
    pub albumtype: String,
    pub label: String,
    pub acoustid_fingerprint: String,
    pub acoustid_id: String,
    pub mb_releasegroupid: String,
    pub asin: String,
    pub catalognum: String,
    pub script: String,
    pub language: String,
    pub country: String,
    pub albumstatus: String,
    pub media: String,
    pub albumdisambig: String,
    pub disctitle: String,
    pub encoder: String,
    pub rg_track_gain: Option<Number>,
    pub rg_track_peak: Option<Number>,
    pub rg_album_gain: Option<Number>,
    pub rg_album_peak: Option<Number>,
    pub r128_track_gain: Option<Number>,
    pub r128_album_gain: Option<Number>,
    pub original_year: u32,
    pub original_month: u32,
    pub original_day: u32,
    pub initial_key: Option<String>,
    pub length: Number,
    pub bitrate: u32,
    pub format: String,
    pub samplerate: u32,
    pub bitdepth: u32,
    pub channels: u32,
    pub mtime: Number,
    pub added: Number,
}

/// The semantic types of the fields of [`Item`], in declared order.
pub open spec fn item_types() -> Seq<FieldType> {
    seq![
        FieldType::U32,
        FieldType::Path,
        FieldType::OptU32,
        FieldType::Text,
        FieldType::Text,
        FieldType::Text,
        FieldType::Text,
        FieldType::Text,
        FieldType::Text,
        FieldType::Text,
        FieldType::Text,
        FieldType::Text,
        FieldType::Text,
        FieldType::Text,
        FieldType::Text,
        FieldType::Text,
        FieldType::Text,
        FieldType::U32,
        FieldType::U32,
        FieldType::U32,
        FieldType::U32,
        FieldType::U32,
        FieldType::U32,
        FieldType::U32,
        FieldType::Text,
        FieldType::Text,
        FieldType::U32,
        FieldType::Bool,
        FieldType::Text,
        FieldType::Text,
        FieldType::Text,
        FieldType::Text,
        FieldType::Text,
        FieldType::Text,
        FieldType::Text,
        FieldType::Text,
        FieldType::Text,
        FieldType::Text,
        FieldType::Text,
        FieldType::Text,
        FieldType::Text,
        FieldType::Text,
        FieldType::Text,
        FieldType::Text,
        FieldType::Text,
        FieldType::Text,
        FieldType::Text,
        FieldType::Text,
        FieldType::OptReal,
        FieldType::OptReal,
        FieldType::OptReal,
        FieldType::OptReal,
        FieldType::OptReal,
        FieldType::OptReal,
        FieldType::U32,
        FieldType::U32,
        FieldType::U32,
        FieldType::OptText,
        FieldType::Real,
        FieldType::U32,
        FieldType::Text,
        FieldType::U32,
        FieldType::U32,
        FieldType::U32,
        FieldType::Real,
        FieldType::Real,
    ]
}

/// The column names of the fields of [`Item`], in declared order.
pub open spec fn item_names() -> Seq<Seq<char>> {
    seq![
        "id"@,
        "path"@,
        "album_id"@,
        "title"@,
        "artist"@,
        "artist_sort"@,
        "artist_credit"@,
        "album"@,
        "albumartist"@,
        "albumartist_sort"@,
        "albumartist_credit"@,
        "genre"@,
        "lyricist"@,
        "composer"@,
        "composer_sort"@,
        "arranger"@,
        "grouping"@,
        "year"@,
        "month"@,
        "day"@,
        "track"@,
        "tracktotal"@,
        "disc"@,
        "disctotal"@,
        "lyrics"@,
        "comments"@,
        "bpm"@,
        "comp"@,
        "mb_trackid"@,
        "mb_albumid"@,
        "mb_artistid"@,
        "mb_albumartistid"@,
        "mb_releasetrackid"@,
        "albumtype"@,
        "label"@,
        "acoustid_fingerprint"@,
        "acoustid_id"@,
        "mb_releasegroupid"@,
        "asin"@,
        "catalognum"@,
        "script"@,
        "language"@,
        "country"@,
        "albumstatus"@,
        "media"@,
        "albumdisambig"@,
        "disctitle"@,
        "encoder"@,
        "rg_track_gain"@,
        "rg_track_peak"@,
        "rg_album_gain"@,
        "rg_album_peak"@,
        "r128_track_gain"@,
        "r128_album_gain"@,
        "original_year"@,
        "original_month"@,
        "original_day"@,
        "initial_key"@,
        "length"@,
        "bitrate"@,
        "format"@,
        "samplerate"@,
        "bitdepth"@,
        "channels"@,
        "mtime"@,
        "added"@,
    ]
}

impl Item {
    /// The values of the fields, in declared order.
    pub open spec fn view_fields(&self) -> Seq<FieldView> {
        seq![
            FieldView::U32(self.id),
            FieldView::Path(self.path@),
            FieldView::OptU32(self.album_id),
            FieldView::Text(self.title@),
            FieldView::Text(self.artist@),
            FieldView::Text(self.artist_sort@),
            FieldView::Text(self.artist_credit@),
            FieldView::Text(self.album@),
            FieldView::Text(self.albumartist@),
            FieldView::Text(self.albumartist_sort@),
            FieldView::Text(self.albumartist_credit@),
            FieldView::Text(self.genre@),
            FieldView::Text(self.lyricist@),
            FieldView::Text(self.composer@),
            FieldView::Text(self.composer_sort@),
            FieldView::Text(self.arranger@),
            FieldView::Text(self.grouping@),
            FieldView::U32(self.year),
            FieldView::U32(self.month),
            FieldView::U32(self.day),
            FieldView::U32(self.track),
            FieldView::U32(self.tracktotal),
            FieldView::U32(self.disc),
            FieldView::U32(self.disctotal),
            FieldView::Text(self.lyrics@),
            FieldView::Text(self.comments@),
            FieldView::U32(self.bpm),
            FieldView::Bool(self.comp),
            FieldView::Text(self.mb_trackid@),
            FieldView::Text(self.mb_albumid@),
            FieldView::Text(self.mb_artistid@),
            FieldView::Text(self.mb_albumartistid@),
            FieldView::Text(self.mb_releasetrackid@),
            FieldView::Text(self.albumtype@),
            FieldView::Text(self.label@),
            FieldView::Text(self.acoustid_fingerprint@),
            FieldView::Text(self.acoustid_id@),
            FieldView::Text(self.mb_releasegroupid@),
            FieldView::Text(self.asin@),
            FieldView::Text(self.catalognum@),
            FieldView::Text(self.script@),
            FieldView::Text(self.language@),
            FieldView::Text(self.country@),
            FieldView::Text(self.albumstatus@),
            FieldView::Text(self.media@),
            FieldView::Text(self.albumdisambig@),
            FieldView::Text(self.disctitle@),
            FieldView::Text(self.encoder@),
            FieldView::OptReal(self.rg_track_gain),
            FieldView::OptReal(self.rg_track_peak),
            FieldView::OptReal(self.rg_album_gain),
            FieldView::OptReal(self.rg_album_peak),
            FieldView::OptReal(self.r128_track_gain),
            FieldView::OptReal(self.r128_album_gain),
            FieldView::U32(self.original_year),
            FieldView::U32(self.original_month),
            FieldView::U32(self.original_day),
            FieldView::OptText(opt_view(self.initial_key)),
            FieldView::Real(self.length),
            FieldView::U32(self.bitrate),
            FieldView::Text(self.format@),
            FieldView::U32(self.samplerate),
            FieldView::U32(self.bitdepth),
            FieldView::U32(self.channels),
            FieldView::Real(self.mtime),
            FieldView::Real(self.added),
        ]
    }

    /// The declaration of the fields of [`Item`] and of the table they are read from.
    pub fn schema() -> (r: Schema)
        ensures
            r.table@ == "items"@,
            r.types() == item_types(),
            r.names() == item_names(),
    {
        let r = Schema {
            table: "items",
            fields: vec![
                FieldSpec { name: "id", ty: FieldType::U32 },
                FieldSpec { name: "path", ty: FieldType::Path },
                FieldSpec { name: "album_id", ty: FieldType::OptU32 },
                FieldSpec { name: "title", ty: FieldType::Text },
                FieldSpec { name: "artist", ty: FieldType::Text },
                FieldSpec { name: "artist_sort", ty: FieldType::Text },
                FieldSpec { name: "artist_credit", ty: FieldType::Text },
                FieldSpec { name: "album", ty: FieldType::Text },
                FieldSpec { name: "albumartist", ty: FieldType::Text },
                FieldSpec { name: "albumartist_sort", ty: FieldType::Text },
                FieldSpec { name: "albumartist_credit", ty: FieldType::Text },
                FieldSpec { name: "genre", ty: FieldType::Text },
                FieldSpec { name: "lyricist", ty: FieldType::Text },
                FieldSpec { name: "composer", ty: FieldType::Text },
                FieldSpec { name: "composer_sort", ty: FieldType::Text },
                FieldSpec { name: "arranger", ty: FieldType::Text },
                FieldSpec { name: "grouping", ty: FieldType::Text },
                FieldSpec { name: "year", ty: FieldType::U32 },
                FieldSpec { name: "month", ty: FieldType::U32 },
                FieldSpec { name: "day", ty: FieldType::U32 },
                FieldSpec { name: "track", ty: FieldType::U32 },
                FieldSpec { name: "tracktotal", ty: FieldType::U32 },
                FieldSpec { name: "disc", ty: FieldType::U32 },
                FieldSpec { name: "disctotal", ty: FieldType::U32 },
                FieldSpec { name: "lyrics", ty: FieldType::Text },
                FieldSpec { name: "comments", ty: FieldType::Text },
                FieldSpec { name: "bpm", ty: FieldType::U32 },
                FieldSpec { name: "comp", ty: FieldType::Bool },
                FieldSpec { name: "mb_trackid", ty: FieldType::Text },
                FieldSpec { name: "mb_albumid", ty: FieldType::Text },
                FieldSpec { name: "mb_artistid", ty: FieldType::Text },
                FieldSpec { name: "mb_albumartistid", ty: FieldType::Text },
                FieldSpec { name: "mb_releasetrackid", ty: FieldType::Text },
                FieldSpec { name: "albumtype", ty: FieldType::Text },
                FieldSpec { name: "label", ty: FieldType::Text },
                FieldSpec { name: "acoustid_fingerprint", ty: FieldType::Text },
                FieldSpec { name: "acoustid_id", ty: FieldType::Text },
                FieldSpec { name: "mb_releasegroupid", ty: FieldType::Text },
                FieldSpec { name: "asin", ty: FieldType::Text },
                FieldSpec { name: "catalognum", ty: FieldType::Text },
                FieldSpec { name: "script", ty: FieldType::Text },
                FieldSpec { name: "language", ty: FieldType::Text },
                FieldSpec { name: "country", ty: FieldType::Text },
                FieldSpec { name: "albumstatus", ty: FieldType::Text },
                FieldSpec { name: "media", ty: FieldType::Text },
                FieldSpec { name: "albumdisambig", ty: FieldType::Text },
                FieldSpec { name: "disctitle", ty: FieldType::Text },
                FieldSpec { name: "encoder", ty: FieldType::Text },
                FieldSpec { name: "rg_track_gain", ty: FieldType::OptReal },
                FieldSpec { name: "rg_track_peak", ty: FieldType::OptReal },
                FieldSpec { name: "rg_album_gain", ty: FieldType::OptReal },
                FieldSpec { name: "rg_album_peak", ty: FieldType::OptReal },
                FieldSpec { name: "r128_track_gain", ty: FieldType::OptReal },
                FieldSpec { name: "r128_album_gain", ty: FieldType::OptReal },
                FieldSpec { name: "original_year", ty: FieldType::U32 },
                FieldSpec { name: "original_month", ty: FieldType::U32 },
                FieldSpec { name: "original_day", ty: FieldType::U32 },
                FieldSpec { name: "initial_key", ty: FieldType::OptText },
                FieldSpec { name: "length", ty: FieldType::Real },
                FieldSpec { name: "bitrate", ty: FieldType::U32 },
                FieldSpec { name: "format", ty: FieldType::Text },
                FieldSpec { name: "samplerate", ty: FieldType::U32 },
                FieldSpec { name: "bitdepth", ty: FieldType::U32 },
                FieldSpec { name: "channels", ty: FieldType::U32 },
                FieldSpec { name: "mtime", ty: FieldType::Real },
                FieldSpec { name: "added", ty: FieldType::Real },
            ],
        };
        proof {
            assert(r.types() =~= item_types());
            assert(r.names() =~= item_names());
        }
        r
    }

    /// The query for the `items` table: every field by name, then `id` again.
    pub fn sql_query() -> (r: String)
        ensures
            r@ == query_text(item_names(), "items"@),
    {
        Item::schema().sql_query()
    }

    /// The names of the declared columns of the `items` table.
    pub fn columns() -> (r: Vec<&'static str>)
        ensures
            r@.map_values(|c: &'static str| c@) == item_names(),
    {
        let s = Item::schema();
        let r = s.columns();
        proof {
            assert(r@.map_values(|c: &'static str| c@) =~= s.names());
        }
        r
    }

    /// Builds the entity from the values bound for its fields, in declared order.
    pub fn from_fields(f: &Vec<Field>) -> (r: Item)
        requires
            f@.len() == 66,
            forall|i: int| 0 <= i < 66 ==> #[trigger] crate::schema::has_type(f@[i]@, item_types()[i]),
        ensures
            r.view_fields() == fields_view(f@),
    {
        proof {
            assert forall|i: int| 0 <= i < 66 implies crate::schema::has_type(#[trigger] f@[i]@, item_types()[i]) by {
                assert(crate::schema::has_type(f@[i]@, item_types()[i]));
            }
        }
        let r = Item {
            id: f[0].as_u32(),
            path: f[1].as_path(),
            album_id: f[2].as_opt_u32(),
            title: f[3].as_text(),
            artist: f[4].as_text(),
            artist_sort: f[5].as_text(),
            artist_credit: f[6].as_text(),
            album: f[7].as_text(),
            albumartist: f[8].as_text(),
            albumartist_sort: f[9].as_text(),
            albumartist_credit: f[10].as_text(),
            genre: f[11].as_text(),
            lyricist: f[12].as_text(),
            composer: f[13].as_text(),
            composer_sort: f[14].as_text(),
            arranger: f[15].as_text(),
            grouping: f[16].as_text(),
            year: f[17].as_u32(),
            month: f[18].as_u32(),
            day: f[19].as_u32(),
            track: f[20].as_u32(),
            tracktotal: f[21].as_u32(),
            disc: f[22].as_u32(),
            disctotal: f[23].as_u32(),
            lyrics: f[24].as_text(),
            comments: f[25].as_text(),
            bpm: f[26].as_u32(),
            comp: f[27].as_bool(),
            mb_trackid: f[28].as_text(),
            mb_albumid: f[29].as_text(),
            mb_artistid: f[30].as_text(),
            mb_albumartistid: f[31].as_text(),
            mb_releasetrackid: f[32].as_text(),
            albumtype: f[33].as_text(),
            label: f[34].as_text(),
            acoustid_fingerprint: f[35].as_text(),
            acoustid_id: f[36].as_text(),
            mb_releasegroupid: f[37].as_text(),
            asin: f[38].as_text(),
            catalognum: f[39].as_text(),
            script: f[40].as_text(),
            language: f[41].as_text(),
            country: f[42].as_text(),
            albumstatus: f[43].as_text(),
            media: f[44].as_text(),
            albumdisambig: f[45].as_text(),
            disctitle: f[46].as_text(),
            encoder: f[47].as_text(),
            rg_track_gain: f[48].as_opt_real(),
            rg_track_peak: f[49].as_opt_real(),
            rg_album_gain: f[50].as_opt_real(),
            rg_album_peak: f[51].as_opt_real(),
            r128_track_gain: f[52].as_opt_real(),
            r128_album_gain: f[53].as_opt_real(),
            original_year: f[54].as_u32(),
            original_month: f[55].as_u32(),
            original_day: f[56].as_u32(),
            initial_key: f[57].as_opt_text(),
            length: f[58].as_real(),
            bitrate: f[59].as_u32(),
            format: f[60].as_text(),
            samplerate: f[61].as_u32(),
            bitdepth: f[62].as_u32(),
            channels: f[63].as_u32(),
            mtime: f[64].as_real(),
            added: f[65].as_real(),
        };
        proof {
            assert(r.view_fields() =~= fields_view(f@));
        }
        r
    }

    /// Binds one row of `items`: the entity whose fields are what the cells
    /// decode to, or the error of the first cell that does not decode.
    pub fn from_row(cells: &Vec<Cell>) -> (r: Result<Item, Error>)
        requires
            cells@.len() == 66,
        ensures
            r is Ok <==> row_decodes(item_types(), cells_view(cells@)),
            r is Ok ==> decoded_as(item_types(), cells_view(cells@), r->Ok_0.view_fields()),
            r is Err ==> exists|k: int|
                #[trigger] first_failure(item_types(), cells_view(cells@), k)
                && is_row_error(r->Err_0, "items"@, item_names()[k]),
    {
        let s = Item::schema();
        match s.bind_row(cells) {
            Ok(fs) => {
                proof {
                    assert forall|i: int| 0 <= i < 66 implies #[trigger] crate::schema::has_type(fs@[i]@, item_types()[i]) by {
                        lemma_decoded_has_type(item_types()[i], cells_view(cells@)[i]);
                        assert(fields_view(fs@)[i] == fs@[i]@);
                    }
                }
                Ok(Item::from_fields(&fs))
            },
            Err(e) => {
                proof {
                    let k = choose|k: int|
                        #[trigger] first_failure(s.types(), cells_view(cells@), k)
                        && e.kind == crate::error::ErrorKind::Row(
                            crate::error::TableColumn { table: s.table, column: s.fields@[k].name },
                        );
                    assert(s.names()[k] == s.fields@[k].name@);
                    assert(is_row_error(e, "items"@, item_names()[k]));
                }
                Err(e)
            },
        }
    }
}

} // verus!
