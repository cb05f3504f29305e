//! A step-by-step PDF writer.
//!
//! The entry point into the API is the [`Pdf`] struct, which constructs the
//! document into one big internal buffer. The top-level writer has methods to
//! create specialized writers for specific PDF objects. These all follow the
//! same general pattern: They borrow the main buffer mutably, expose a builder
//! pattern for writing individual fields in a strongly typed fashion and
//! finish up the object when their `finish` method is called.
//!
//! Every writing function states, in its contract, exactly which bytes it
//! appends to the buffer.

use vstd::prelude::*;
use vstd::string::*;

mod actions;
mod annotations;
mod attributes;
mod buf;
mod chunk;
mod color;
mod content;
mod files;
mod font;
mod forms;
mod functions;
mod object;
mod renditions;
mod structure;
mod text;
mod xobject;
mod xref;

pub mod laws;
pub mod types;
pub mod writers;

pub use self::buf::{Buf, Limits, LimitsView};
pub use self::chunk::{Chunk, Settings};
pub use self::object::{
    Array, Date, DecodeParms, Dict, Filter, Finish, LanguageIdentifier, Name, NameTree,
    NameTreeEntries, Null, NumberTree, NumberTreeEntries, Obj, Predictor, Primitive, Real, Rect, Ref, Str,
    lemma_ref_id_injective,
    Stream, TextStr, TextStrLike, TextStrWithLang, TypedArray, TypedDict,
};
pub use self::content::{lemma_save_restore_depth, Content, Operation};
pub use self::font::{GlyphId, SystemInfo, UnicodeCmap};
pub use self::structure::{
    lemma_pdf_1_7_round_trip, lemma_pdf_2_0_round_trip, lemma_role_mapped_iff_no_counterpart,
};
pub use self::text::{write_cmap, TextStream};
pub use self::xref::{determine_field_width, XRefEntry};

use self::buf::{decimal_digits, decimal};
use self::chunk::indirect_header;
use self::structure::{Catalog, DocumentInfo, Page, Pages};
use self::object::{
    dict_start_limits, dict_started, array_close_bytes, dict_name_pair_bytes, name_encoding, stream_close_bytes, dict_close_bytes, dict_key_bytes, dict_pair_bytes, dict_pair_enc_bytes, array_item_enc_bytes,
    str_encoding, NEWLINE, LBRACKET, RBRACKET,
};
use self::xref::{
    XRefStreamWriter, byte_width, stream_table, PlainXRefWriter, distinct_ids, max_id, plain_table, table_len, write_offsets, xref_entries,
};

verus! {

// ---------------------------------------------------------------------------
// The file trailer.
// ---------------------------------------------------------------------------

/// The abstract content of the trailer data of a [`Pdf`].
pub struct TrailerView {
    /// The document catalog.
    pub catalog: Option<Ref>,
    /// The document information dictionary.
    pub info: Option<Ref>,
    /// The two file identifiers.
    pub file_id: Option<(Seq<u8>, Seq<u8>)>,
}

struct TrailerData {
    catalog_id: Option<Ref>,
    info_id: Option<Ref>,
    file_id: Option<(Vec<u8>, Vec<u8>)>,
}

impl View for TrailerData {
    type V = TrailerView;

    closed spec fn view(&self) -> TrailerView {
        TrailerView {
            catalog: self.catalog_id,
            info: self.info_id,
            file_id: match &self.file_id {
                Some(ids) => Some((ids.0@, ids.1@)),
                None => None,
            },
        }
    }
}

/// The number of entries of a trailer dictionary.
pub open spec fn trailer_count(t: TrailerView) -> int {
    1 + (if t.catalog is Some {
        1int
    } else {
        0
    }) + (if t.info is Some {
        1int
    } else {
        0
    }) + (if t.file_id is Some {
        1int
    } else {
        0
    })
}

/// The `/ID` entry of a trailer: an array of the two identifiers as strings.
pub open spec fn file_id_entry_bytes(
    before: Seq<u8>,
    pretty: bool,
    indent: int,
    a: Seq<u8>,
    b: Seq<u8>,
) -> Seq<u8> {
    let key = dict_key_bytes(pretty, indent, "ID".spec_bytes());
    let open = before + key + seq![LBRACKET];
    let first = array_item_enc_bytes(open, 0, pretty, str_encoding(a), true);
    let second = array_item_enc_bytes(open + first, 1, pretty, str_encoding(b), true);
    key + seq![LBRACKET] + first + second + seq![RBRACKET]
}

/// The entries of a trailer dictionary: the table size, then the catalog,
/// the document information and the file identifiers when present.
pub open spec fn trailer_entries(
    before: Seq<u8>,
    pretty: bool,
    indent: int,
    t: TrailerView,
    len: int,
) -> Seq<u8> {
    let size = dict_pair_enc_bytes(before, pretty, indent, "Size".spec_bytes(), decimal(len), false);
    let root = match t.catalog {
        Some(r) => dict_pair_bytes(before + size, pretty, indent, "Root".spec_bytes(), r),
        None => Seq::empty(),
    };
    let info = match t.info {
        Some(r) => dict_pair_bytes(before + size + root, pretty, indent, "Info".spec_bytes(), r),
        None => Seq::empty(),
    };
    let id = match t.file_id {
        Some(ids) => file_id_entry_bytes(before + size + root + info, pretty, indent, ids.0, ids.1),
        None => Seq::empty(),
    };
    size + root + info + id
}

impl TrailerData {
    fn new() -> (r: Self)
        ensures
            r@ == (TrailerView { catalog: None, info: None, file_id: None }),
    {
        TrailerData { catalog_id: None, info_id: None, file_id: None }
    }

    #[verifier::spinoff_prover]
    #[verifier::rlimit(100)]
    fn write_into_dict(&self, dict: &mut Dict, xref_len: i32)
        requires
            0 <= old(dict).len <= i32::MAX - 4,
            xref_len > 0,
        ensures
            final(dict).buf@ == old(dict).buf@ + trailer_entries(
                old(dict).buf@,
                old(dict).settings.pretty,
                old(dict).indent as int,
                self@,
                xref_len as int,
            ),
            final(dict).len == old(dict).len + trailer_count(self@),
            final(dict).indent == old(dict).indent,
            final(dict).indirect == old(dict).indirect,
            final(dict).settings == old(dict).settings,
            *final(final(dict).buf) == *final(old(dict).buf),
    {
        let ghost before = dict.buf@;
        let ghost pretty = dict.settings.pretty;
        let ghost indent = dict.indent as int;
        let ghost tv = self@;
        dict.pair(Name("Size".as_bytes()), xref_len);
        let ghost size = dict_pair_enc_bytes(
            before,
            pretty,
            indent,
            "Size".spec_bytes(),
            decimal(xref_len as int),
            false,
        );
        assert(dict.buf@ == before + size);
        pair_if_some(dict, Name("Root".as_bytes()), self.catalog_id);
        let ghost root = match tv.catalog {
            Some(r) => dict_pair_bytes(before + size, pretty, indent, "Root".spec_bytes(), r),
            None => Seq::empty(),
        };
        assert(dict.buf@ == before + size + root);
        pair_if_some(dict, Name("Info".as_bytes()), self.info_id);
        let ghost info = match tv.info {
            Some(r) => dict_pair_bytes(before + size + root, pretty, indent, "Info".spec_bytes(), r),
            None => Seq::empty(),
        };
        assert(dict.buf@ == before + size + root + info);
        let ghost id = match tv.file_id {
            Some(ids) => file_id_entry_bytes(before + size + root + info, pretty, indent, ids.0, ids.1),
            None => Seq::empty(),
        };
        if let Some(file_id) = &self.file_id {
            write_file_id(dict, file_id.0.as_slice(), file_id.1.as_slice());
            assert(dict.buf@ == before + size + root + info + id);
        } else {
            assert(dict.buf@ =~= before + size + root + info + id);
        }
        assert(trailer_entries(before, pretty, indent, tv, xref_len as int) == size + root + info + id);
        assert(dict.buf@ =~= before + (size + root + info + id));
    }
}

/// Write the pair `key`, `value` into the dictionary if there is a value.
fn pair_if_some(dict: &mut Dict, key: Name, value: Option<Ref>)
    requires
        0 <= old(dict).len < i32::MAX,
    ensures
        final(dict).buf@ == old(dict).buf@ + match value {
            Some(r) => dict_pair_bytes(
                old(dict).buf@,
                old(dict).settings.pretty,
                old(dict).indent as int,
                key.0@,
                r,
            ),
            None => Seq::empty(),
        },
        final(dict).len == old(dict).len + (if value is Some {
            1int
        } else {
            0
        }),
        final(dict).indent == old(dict).indent,
        final(dict).indirect == old(dict).indirect,
        final(dict).settings == old(dict).settings,
        *final(final(dict).buf) == *final(old(dict).buf),
{
    if let Some(r) = value {
        dict.pair(key, r);
    } else {
        assert(dict.buf@ =~= old(dict).buf@ + Seq::<u8>::empty());
    }
}

/// Write the `/ID` entry of a trailer.
fn write_file_id(dict: &mut Dict, a: &[u8], b: &[u8])
    requires
        0 <= old(dict).len < i32::MAX,
    ensures
        final(dict).buf@ == old(dict).buf@ + file_id_entry_bytes(
            old(dict).buf@,
            old(dict).settings.pretty,
            old(dict).indent as int,
            a@,
            b@,
        ),
        final(dict).len == old(dict).len + 1,
        final(dict).indent == old(dict).indent,
        final(dict).indirect == old(dict).indirect,
        final(dict).settings == old(dict).settings,
        *final(final(dict).buf) == *final(old(dict).buf),
{
    let mut ids = dict.insert(Name("ID".as_bytes())).array();
    ids.item(Str(a));
    ids.item(Str(b));
    ids.finish();
    assert(dict.buf@ =~= old(dict).buf@ + file_id_entry_bytes(
        old(dict).buf@,
        old(dict).settings.pretty,
        old(dict).indent as int,
        a@,
        b@,
    ));
}

/// The end of a PDF file: `startxref`, the offset of the cross-reference
/// section and the end-of-file marker.
pub open spec fn file_end(xref_offset: nat) -> Seq<u8> {
    "startxref\n".spec_bytes() + decimal_digits(xref_offset) + "\n%%EOF".spec_bytes()
}

fn finish_trailer(mut buf: Buf, xref_offset: usize, pad: &[u8]) -> (r: Vec<u8>)
    ensures
        r@ == buf@ + pad@ + file_end(xref_offset as nat),
{
    buf.extend_slice(pad);
    // Write startxref pointing to the xref section.
    buf.extend_slice("startxref\n".as_bytes());
    buf.push_decimal_usize(xref_offset);
    // Write EOF marker.
    buf.extend_slice("\n%%EOF".as_bytes());
    buf.into_bytes()
}

// ---------------------------------------------------------------------------
// The document.
// ---------------------------------------------------------------------------

/// The header of a PDF file: the version comment, a comment of four binary
/// bytes, and an empty line.
pub open spec fn pdf_header() -> Seq<u8> {
    "%PDF-1.7\n%".spec_bytes() + seq![0x80u8, 0x80u8, 0x80u8, 0x80u8] + "\n\n".spec_bytes()
}

/// The bytes of a finished PDF whose objects take up `bytes`, with a
/// cross-reference table.
pub open spec fn finished_with_table(
    bytes: Seq<u8>,
    offsets: Seq<(Ref, usize)>,
    trailer: TrailerView,
    pretty: bool,
) -> Seq<u8> {
    let table = plain_table(xref_entries(offsets), table_len(offsets));
    let open = bytes + table + "trailer\n".spec_bytes() + "<<".spec_bytes();
    open + trailer_entries(open, pretty, 2, trailer, table_len(offsets)) + dict_close_bytes(
        trailer_count(trailer),
        pretty,
        2,
        false,
    ) + "\n".spec_bytes() + file_end(bytes.len())
}

// ---------------------------------------------------------------------------
// Cross-reference streams.
// ---------------------------------------------------------------------------

/// The filters used for the xref stream.
pub enum XRefFilter {
    /// A single filter.
    Single(Filter),
    /// An array of filters.
    Multiple(Vec<Filter>),
}

/// The abstract value of an [`XRefFilter`].
pub enum XRefFilterView {
    /// A single filter.
    Single(Filter),
    /// An array of filters.
    Multiple(Seq<Filter>),
}

impl View for XRefFilter {
    type V = XRefFilterView;

    open spec fn view(&self) -> XRefFilterView {
        match self {
            XRefFilter::Single(f) => XRefFilterView::Single(*f),
            XRefFilter::Multiple(fs) => XRefFilterView::Multiple(fs@),
        }
    }
}

/// The bytes of the names of `filters` as items of an array, given the
/// bytes before them.
pub open spec fn filter_items_bytes(before: Seq<u8>, pretty: bool, filters: Seq<Filter>) -> Seq<u8>
    decreases filters.len(),
{
    if filters.len() == 0 {
        Seq::empty()
    } else {
        let prev = filter_items_bytes(before, pretty, filters.drop_last());
        prev + array_item_enc_bytes(
            before + prev,
            filters.len() - 1,
            pretty,
            name_encoding(filters.last().spec_name()),
            true,
        )
    }
}

/// The `/Filter` entry of a cross-reference stream.
pub open spec fn xref_filter_bytes(
    before: Seq<u8>,
    pretty: bool,
    indent: int,
    filter: XRefFilterView,
) -> Seq<u8> {
    match filter {
        XRefFilterView::Single(f) => dict_name_pair_bytes(
            before,
            pretty,
            indent,
            "Filter".spec_bytes(),
            f.spec_name(),
        ),
        XRefFilterView::Multiple(fs) => {
            let key = dict_key_bytes(pretty, indent, "Filter".spec_bytes());
            key + seq![LBRACKET] + filter_items_bytes(before + key + seq![LBRACKET], pretty, fs)
                + array_close_bytes(false, pretty)
        },
    }
}

/// The `/W` entry of a cross-reference stream whose offsets take `width`
/// bytes.
pub open spec fn xref_widths_bytes(before: Seq<u8>, pretty: bool, indent: int, width: int) -> Seq<u8> {
    let key = dict_key_bytes(pretty, indent, "W".spec_bytes());
    let open = before + key + seq![LBRACKET];
    let first = array_item_enc_bytes(open, 0, pretty, decimal(1), false);
    let second = array_item_enc_bytes(open + first, 1, pretty, decimal(width), false);
    let third = array_item_enc_bytes(open + first + second, 2, pretty, decimal(2), false);
    key + seq![LBRACKET] + first + second + third + array_close_bytes(false, pretty)
}

/// The objects of a document finished with a cross-reference stream: its
/// objects and the stream itself, which starts where the objects end.
pub open spec fn offsets_with_stream(bytes: Seq<u8>, offsets: Seq<(Ref, usize)>, xref_id: Ref) -> Seq<
    (Ref, usize),
> {
    offsets.push((xref_id, bytes.len() as usize))
}

/// The unfiltered data of the cross-reference stream of a document.
pub open spec fn xref_stream_data(bytes: Seq<u8>, offsets: Seq<(Ref, usize)>, xref_id: Ref) -> Seq<u8> {
    stream_table(
        xref_entries(offsets_with_stream(bytes, offsets, xref_id)),
        byte_width(bytes.len()),
    )
}

/// The entries of the dictionary of a cross-reference stream after its
/// `/Length`: the type, the filter if there is one, the trailer entries and
/// the field widths.
pub open spec fn xref_stream_entries(
    before: Seq<u8>,
    pretty: bool,
    filter: Option<XRefFilterView>,
    trailer: TrailerView,
    xref_len: int,
    width: int,
) -> Seq<u8> {
    let kind = dict_name_pair_bytes(before, pretty, 2, "Type".spec_bytes(), "XRef".spec_bytes());
    let filt = match filter {
        Some(f) => xref_filter_bytes(before + kind, pretty, 2, f),
        None => Seq::empty(),
    };
    let entries = trailer_entries(before + kind + filt, pretty, 2, trailer, xref_len);
    let widths = xref_widths_bytes(before + kind + filt + entries, pretty, 2, width);
    kind + filt + entries + widths
}

/// A cross-reference stream object with the given data and filter, written
/// after `before`.
#[verifier::opaque]
pub open spec fn xref_stream_object(
    before: Seq<u8>,
    pretty: bool,
    xref_id: Ref,
    data: Seq<u8>,
    filter: Option<XRefFilterView>,
    trailer: TrailerView,
    xref_len: int,
    width: int,
) -> Seq<u8> {
    let head = before + indirect_header(xref_id) + "<<".spec_bytes();
    let length = dict_pair_enc_bytes(head, pretty, 2, "Length".spec_bytes(), decimal(data.len() as int), false);
    indirect_header(xref_id) + "<<".spec_bytes() + length + xref_stream_entries(
        head + length,
        pretty,
        filter,
        trailer,
        xref_len,
        width,
    ) + stream_close_bytes(pretty, data)
}

/// The bytes of a finished PDF whose objects take up `bytes`, with a
/// cross-reference stream holding `data`, written with `filter`.
pub open spec fn finished_with_stream(
    bytes: Seq<u8>,
    offsets: Seq<(Ref, usize)>,
    trailer: TrailerView,
    pretty: bool,
    xref_id: Ref,
    data: Seq<u8>,
    filter: Option<XRefFilterView>,
) -> Seq<u8> {
    bytes + xref_stream_object(
        bytes,
        pretty,
        xref_id,
        data,
        filter,
        trailer,
        table_len(offsets_with_stream(bytes, offsets, xref_id)),
        byte_width(bytes.len()) as int,
    ) + file_end(bytes.len())
}

/// The view of an optional [`XRefFilter`].
pub open spec fn xref_filter_view(filter: Option<XRefFilter>) -> Option<XRefFilterView> {
    match filter {
        Some(f) => Some(f@),
        None => None,
    }
}

/// Whether what a filter gave back can be written: its data fits the
/// `/Length` entry and its filters fit an array.
pub open spec fn filter_output_fits(data: Seq<u8>, filter: Option<XRefFilterView>) -> bool {
    &&& data.len() <= i32::MAX
    &&& (filter matches Some(XRefFilterView::Multiple(fs)) ==> fs.len() < i32::MAX)
}

/// Write the entries of the dictionary of a cross-reference stream after its
/// `/Length`.
#[verifier::spinoff_prover]
#[verifier::rlimit(100)]
fn write_xref_stream_entries(
    stream: &mut Stream,
    filter: Option<XRefFilter>,
    trailer_data: &TrailerData,
    xref_len: i32,
    width: i32,
)
    requires
        old(stream).dict.len == 1,
        old(stream).dict.indent == 2,
        filter_output_fits(old(stream).data@, xref_filter_view(filter)),
        xref_len > 0,
        0 <= width <= 8,
    ensures
        final(stream).dict.buf@ == old(stream).dict.buf@ + xref_stream_entries(
            old(stream).dict.buf@,
            old(stream).dict.settings.pretty,
            xref_filter_view(filter),
            trailer_data@,
            xref_len as int,
            width as int,
        ),
        final(stream).dict.len >= 0,
        final(stream).dict.indent == old(stream).dict.indent,
        final(stream).dict.indirect == old(stream).dict.indirect,
        final(stream).dict.settings == old(stream).dict.settings,
        final(stream).data == old(stream).data,
        *final(final(stream).dict.buf) == *final(old(stream).dict.buf),
{
    let ghost before = stream.dict.buf@;
    let ghost pretty = stream.dict.settings.pretty;
    let ghost fv = xref_filter_view(filter);
    let ghost kind = dict_name_pair_bytes(before, pretty, 2, "Type".spec_bytes(), "XRef".spec_bytes());
    let ghost filt = match fv {
        Some(f) => xref_filter_bytes(before + kind, pretty, 2, f),
        None => Seq::empty(),
    };
    let ghost entries = trailer_entries(before + kind + filt, pretty, 2, trailer_data@, xref_len as int);
    stream.pair(Name("Type".as_bytes()), Name("XRef".as_bytes()));
    assert(stream.dict.buf@ == before + kind);
    if let Some(f) = filter {
        write_xref_filter(stream, f);
    }
    assert(stream.dict.buf@ =~= before + kind + filt);
    trailer_data.write_into_dict(&mut stream.dict, xref_len);
    assert(stream.dict.buf@ == before + kind + filt + entries);
    write_widths(stream, width);
    assert(stream.dict.buf@ =~= before + xref_stream_entries(before, pretty, fv, trailer_data@, xref_len as int, width as int));
}

/// Write the `/W` entry of a cross-reference stream.
fn write_widths(stream: &mut Stream, width: i32)
    requires
        0 <= old(stream).dict.len < i32::MAX,
        0 <= width <= 8,
    ensures
        final(stream).dict.buf@ == old(stream).dict.buf@ + xref_widths_bytes(
            old(stream).dict.buf@,
            old(stream).dict.settings.pretty,
            old(stream).dict.indent as int,
            width as int,
        ),
        final(stream).dict.len == old(stream).dict.len + 1,
        final(stream).dict.indent == old(stream).dict.indent,
        final(stream).dict.indirect == old(stream).dict.indirect,
        final(stream).dict.settings == old(stream).dict.settings,
        final(stream).data == old(stream).data,
        *final(final(stream).dict.buf) == *final(old(stream).dict.buf),
{
    let mut widths = stream.insert(Name("W".as_bytes())).array();
    widths.item(1i32);
    widths.item(width);
    widths.item(2i32);
    widths.finish();
    assert(stream.dict.buf@ =~= old(stream).dict.buf@ + xref_widths_bytes(
        old(stream).dict.buf@,
        old(stream).dict.settings.pretty,
        old(stream).dict.indent as int,
        width as int,
    ));
}

/// Write the `/Filter` entry of a cross-reference stream.
fn write_xref_filter(stream: &mut Stream, filter: XRefFilter)
    requires
        0 <= old(stream).dict.len < i32::MAX,
        filter@ matches XRefFilterView::Multiple(fs) ==> fs.len() < i32::MAX,
    ensures
        final(stream).dict.buf@ == old(stream).dict.buf@ + xref_filter_bytes(
            old(stream).dict.buf@,
            old(stream).dict.settings.pretty,
            old(stream).dict.indent as int,
            filter@,
        ),
        final(stream).dict.len == old(stream).dict.len + 1,
        final(stream).dict.indent == old(stream).dict.indent,
        final(stream).dict.indirect == old(stream).dict.indirect,
        final(stream).dict.settings == old(stream).dict.settings,
        final(stream).data == old(stream).data,
        *final(final(stream).dict.buf) == *final(old(stream).dict.buf),
{
    match filter {
        XRefFilter::Single(f) => {
            stream.filter(f);
        },
        XRefFilter::Multiple(filters) => {
            let ghost before = stream.dict.buf@;
            let ghost pretty = stream.dict.settings.pretty;
            let mut arr = stream.insert(Name("Filter".as_bytes())).array();
            let ghost start = arr.buf@;
            let ghost link = *final(arr.buf);
            let mut i: usize = 0;
            assert(filters@.take(0) =~= Seq::<Filter>::empty());
            while i < filters.len()
                invariant
                    i <= filters@.len(),
                    filters@.len() < i32::MAX,
                    arr.len == i,
                    arr.indirect == false,
                    arr.settings.pretty == pretty,
                    arr.buf@ == start + filter_items_bytes(start, pretty, filters@.take(i as int)),
                    *final(arr.buf) == link,
                decreases filters@.len() - i,
            {
                let name = filters[i].to_name();
                arr.item(name);
                proof {
                    let next = filters@.take(i + 1);
                    assert(next.drop_last() =~= filters@.take(i as int));
                }
                i = i + 1;
            }
            arr.finish();
            assert(filters@.take(filters@.len() as int) =~= filters@);
            let ghost key = dict_key_bytes(pretty, old(stream).dict.indent as int, "Filter".spec_bytes());
            assert(start =~= before + key + seq![LBRACKET]);
            assert(link@ == start + filter_items_bytes(start, pretty, filters@) + array_close_bytes(false, pretty));
            assert(stream.dict.buf@ == link@);
            assert(stream.dict.buf@ =~= before + xref_filter_bytes(
                before,
                pretty,
                old(stream).dict.indent as int,
                XRefFilterView::Multiple(filters@),
            ));
        },
    }
}

/// A builder for a PDF file.
///
/// This type constructs a PDF file in-memory. Aside from a few specific
/// structures, a PDF file mostly consists of indirect objects. For more
/// flexibility, you can write these objects either directly into a [`Pdf`] or
/// into a [`Chunk`], which you can add to the [`Pdf`] (or another chunk) later.
pub struct Pdf {
    chunk: Chunk,
    trailer_data: TrailerData,
}

impl Pdf {
    /// The chunk holding the document's objects.
    pub closed spec fn spec_chunk(&self) -> Chunk {
        self.chunk
    }

    /// What the file trailer will refer to.
    pub closed spec fn spec_trailer(&self) -> TrailerView {
        self.trailer_data@
    }

    /// Create a new PDF with the default settings and buffer capacity
    /// (currently 8 KB).
    pub fn new() -> (r: Self)
        ensures
            r.spec_chunk().spec_bytes() == pdf_header(),
            r.spec_chunk().spec_buf().spec_limits() == LimitsView::zero(),
            r.spec_chunk().spec_offsets().len() == 0,
            r.spec_chunk().spec_settings().pretty,
            r.spec_trailer() == (TrailerView { catalog: None, info: None, file_id: None }),
    {
        Self::with_settings(Settings::default())
    }

    /// Create a new PDF with the given settings and the default buffer
    /// capacity (currently 8 KB).
    pub fn with_settings(settings: Settings) -> (r: Self)
        ensures
            r.spec_chunk().spec_bytes() == pdf_header(),
            r.spec_chunk().spec_buf().spec_limits() == LimitsView::zero(),
            r.spec_chunk().spec_offsets().len() == 0,
            r.spec_chunk().spec_settings() == settings,
            r.spec_trailer() == (TrailerView { catalog: None, info: None, file_id: None }),
    {
        Self::with_settings_and_capacity(settings, 8 * 1024)
    }

    /// Create a new PDF with the default settings and the specified initial
    /// buffer capacity.
    pub fn with_capacity(capacity: usize) -> (r: Self)
        ensures
            r.spec_chunk().spec_bytes() == pdf_header(),
            r.spec_chunk().spec_buf().spec_limits() == LimitsView::zero(),
            r.spec_chunk().spec_offsets().len() == 0,
            r.spec_chunk().spec_settings().pretty,
            r.spec_trailer() == (TrailerView { catalog: None, info: None, file_id: None }),
    {
        Self::with_settings_and_capacity(Settings::default(), capacity)
    }

    /// Create a new PDF with the given settings and the specified initial
    /// buffer capacity.
    pub fn with_settings_and_capacity(settings: Settings, capacity: usize) -> (r: Self)
        ensures
            r.spec_chunk().spec_bytes() == pdf_header(),
            r.spec_chunk().spec_buf().spec_limits() == LimitsView::zero(),
            r.spec_chunk().spec_offsets().len() == 0,
            r.spec_chunk().spec_settings() == settings,
            r.spec_trailer() == (TrailerView { catalog: None, info: None, file_id: None }),
    {
        let mut chunk = Chunk::with_settings_and_capacity(settings, capacity);
        chunk.extend_bytes("%PDF-1.7\n%".as_bytes());
        let marker: [u8; 4] = [0x80, 0x80, 0x80, 0x80];
        chunk.extend_bytes(marker.as_slice());
        chunk.extend_bytes("\n\n".as_bytes());
        assert(chunk.spec_bytes() =~= pdf_header());
        Self { chunk, trailer_data: TrailerData::new() }
    }

    /// Set the binary marker in the header of the PDF.
    ///
    /// This can be useful if you want to ensure that your PDF consists of only
    /// ASCII characters, as this is not the case by default.
    ///
    /// _Default value_: \x80\x80\x80\x80
    pub fn set_binary_marker(&mut self, marker: &[u8; 4])
        ensures
            final(self).spec_chunk().spec_bytes() == (if old(self).spec_chunk().spec_bytes().len()
                >= 14 {
                old(self).spec_chunk().spec_bytes().update(10, marker@[0]).update(
                    11,
                    marker@[1],
                ).update(12, marker@[2]).update(13, marker@[3])
            } else {
                old(self).spec_chunk().spec_bytes()
            }),
            final(self).spec_chunk().spec_buf().spec_limits() == old(self).spec_chunk().spec_buf().spec_limits(),
            final(self).spec_chunk().spec_offsets() == old(self).spec_chunk().spec_offsets(),
            final(self).spec_chunk().spec_settings() == old(self).spec_chunk().spec_settings(),
            final(self).spec_trailer() == old(self).spec_trailer(),
    {
        if self.chunk.len() >= 14 {
            self.chunk.set_byte(10, marker[0]);
            self.chunk.set_byte(11, marker[1]);
            self.chunk.set_byte(12, marker[2]);
            self.chunk.set_byte(13, marker[3]);
        }
    }

    /// Set the PDF version.
    ///
    /// The version is not semantically important to the crate, but must be
    /// present in the output document. Versions with more than one digit in a
    /// component leave that component unchanged.
    ///
    /// _Default value_: 1.7.
    pub fn set_version(&mut self, major: u8, minor: u8)
        ensures
            final(self).spec_chunk().spec_bytes() == ({
                let b = old(self).spec_chunk().spec_bytes();
                let b1 = if major < 10 && b.len() > 5 {
                    b.update(5, (48 + major) as u8)
                } else {
                    b
                };
                if minor < 10 && b.len() > 7 {
                    b1.update(7, (48 + minor) as u8)
                } else {
                    b1
                }
            }),
            final(self).spec_chunk().spec_buf().spec_limits() == old(self).spec_chunk().spec_buf().spec_limits(),
            final(self).spec_chunk().spec_offsets() == old(self).spec_chunk().spec_offsets(),
            final(self).spec_chunk().spec_settings() == old(self).spec_chunk().spec_settings(),
            final(self).spec_trailer() == old(self).spec_trailer(),
    {
        if major < 10 && self.chunk.len() > 5 {
            self.chunk.set_byte(5, 48 + major);
        }
        if minor < 10 && self.chunk.len() > 7 {
            self.chunk.set_byte(7, 48 + minor);
        }
    }

    /// Set the file identifier for the document.
    ///
    /// The file identifier is a pair of two byte strings that shall be used to
    /// uniquely identify a particular file. The first string should always stay
    /// the same for a document, the second should change for each revision. It
    /// is optional, but recommended. In PDF/A, this is required. PDF 1.1+.
    pub fn set_file_id(&mut self, id: (Vec<u8>, Vec<u8>))
        ensures
            final(self).spec_chunk() == old(self).spec_chunk(),
            final(self).spec_trailer() == (TrailerView {
                file_id: Some((id.0@, id.1@)),
                ..old(self).spec_trailer()
            }),
    {
        self.trailer_data.file_id = Some(id);
    }

    /// Register the document catalog with the file trailer.
    pub fn set_catalog_id(&mut self, id: Ref)
        ensures
            final(self).spec_chunk() == old(self).spec_chunk(),
            final(self).spec_trailer() == (TrailerView {
                catalog: Some(id),
                ..old(self).spec_trailer()
            }),
    {
        self.trailer_data.catalog_id = Some(id);
    }

    /// Register the document information dictionary with the file trailer.
    pub fn set_info_id(&mut self, id: Ref)
        ensures
            final(self).spec_chunk() == old(self).spec_chunk(),
            final(self).spec_trailer() == (TrailerView {
                info: Some(id),
                ..old(self).spec_trailer()
            }),
    {
        self.trailer_data.info_id = Some(id);
    }

    /// The number of bytes that were written so far.
    pub fn len(&self) -> (r: usize)
        ensures
            r == self.spec_chunk().spec_bytes().len(),
    {
        self.chunk.len()
    }

    /// The bytes already written so far.
    pub fn as_bytes(&self) -> (r: &[u8])
        ensures
            r@ == self.spec_chunk().spec_bytes(),
    {
        self.chunk.as_bytes()
    }

    /// Return the limits of the document.
    pub fn limits(&self) -> (r: &Limits)
        ensures
            r@ == self.spec_chunk().spec_buf().spec_limits(),
    {
        self.chunk.limits()
    }

    /// Start writing the document catalog. Required.
    ///
    /// This will also register the document catalog with the file trailer,
    /// meaning that you don't need to provide the given `id` anywhere else.
    pub fn catalog(&mut self, id: Ref) -> (r: Catalog<'_>)
        ensures
            dict_started(
                r.dict,
                old(self).spec_chunk().spec_bytes() + indirect_header(id),
                true,
                0,
                old(self).spec_chunk().spec_settings(),
                Some("Catalog".spec_bytes()),
                None,
            ),
            r.dict.buf.spec_limits() == dict_start_limits(
                old(self).spec_chunk().spec_buf().spec_limits().with_int(id.id()),
                Some("Catalog".spec_bytes()),
                None,
            ),
            final(self).spec_chunk().spec_buf() == *final(r.dict.buf),
            final(self).spec_chunk().spec_offsets() == old(self).spec_chunk().spec_offsets().push(
                (id, old(self).spec_chunk().spec_bytes().len() as usize),
            ),
            final(self).spec_chunk().spec_settings() == old(self).spec_chunk().spec_settings(),
            final(self).spec_trailer() == (TrailerView {
                catalog: Some(id),
                ..old(self).spec_trailer()
            }),
    {
        self.trailer_data.catalog_id = Some(id);
        Catalog::start(self.chunk.indirect(id))
    }

    /// Start writing the document information.
    ///
    /// This will also register the document information dictionary with the
    /// file trailer, meaning that you don't need to provide the given `id`
    /// anywhere else.
    pub fn document_info(&mut self, id: Ref) -> (r: DocumentInfo<'_>)
        ensures
            dict_started(
                r.dict,
                old(self).spec_chunk().spec_bytes() + indirect_header(id),
                true,
                0,
                old(self).spec_chunk().spec_settings(),
                None,
                None,
            ),
            r.dict.buf.spec_limits() == dict_start_limits(
                old(self).spec_chunk().spec_buf().spec_limits().with_int(id.id()),
                None,
                None,
            ),
            final(self).spec_chunk().spec_buf() == *final(r.dict.buf),
            final(self).spec_chunk().spec_offsets() == old(self).spec_chunk().spec_offsets().push(
                (id, old(self).spec_chunk().spec_bytes().len() as usize),
            ),
            final(self).spec_chunk().spec_settings() == old(self).spec_chunk().spec_settings(),
            final(self).spec_trailer() == (TrailerView {
                info: Some(id),
                ..old(self).spec_trailer()
            }),
    {
        self.trailer_data.info_id = Some(id);
        DocumentInfo::start(self.chunk.indirect(id))
    }

    /// Start writing a page tree.
    pub fn pages(&mut self, id: Ref) -> (r: Pages<'_>)
        ensures
            dict_started(
                r.dict,
                old(self).spec_chunk().spec_bytes() + indirect_header(id),
                true,
                0,
                old(self).spec_chunk().spec_settings(),
                Some("Pages".spec_bytes()),
                None,
            ),
            r.dict.buf.spec_limits() == dict_start_limits(
                old(self).spec_chunk().spec_buf().spec_limits().with_int(id.id()),
                Some("Pages".spec_bytes()),
                None,
            ),
            final(self).spec_chunk().spec_buf() == *final(r.dict.buf),
            final(self).spec_chunk().spec_offsets() == old(self).spec_chunk().spec_offsets().push(
                (id, old(self).spec_chunk().spec_bytes().len() as usize),
            ),
            final(self).spec_chunk().spec_settings() == old(self).spec_chunk().spec_settings(),
            final(self).spec_trailer() == old(self).spec_trailer(),
    {
        self.chunk.pages(id)
    }

    /// Start writing a page.
    pub fn page(&mut self, id: Ref) -> (r: Page<'_>)
        ensures
            dict_started(
                r.dict,
                old(self).spec_chunk().spec_bytes() + indirect_header(id),
                true,
                0,
                old(self).spec_chunk().spec_settings(),
                Some("Page".spec_bytes()),
                None,
            ),
            r.dict.buf.spec_limits() == dict_start_limits(
                old(self).spec_chunk().spec_buf().spec_limits().with_int(id.id()),
                Some("Page".spec_bytes()),
                None,
            ),
            final(self).spec_chunk().spec_buf() == *final(r.dict.buf),
            final(self).spec_chunk().spec_offsets() == old(self).spec_chunk().spec_offsets().push(
                (id, old(self).spec_chunk().spec_bytes().len() as usize),
            ),
            final(self).spec_chunk().spec_settings() == old(self).spec_chunk().spec_settings(),
            final(self).spec_trailer() == old(self).spec_trailer(),
    {
        self.chunk.page(id)
    }

    /// The chunk that holds the document's objects, to write objects into
    /// it with its writers.
    pub fn chunk(&mut self) -> (r: &mut Chunk)
        ensures
            *r == old(self).spec_chunk(),
            final(self).spec_chunk() == *final(r),
            final(self).spec_trailer() == old(self).spec_trailer(),
    {
        &mut self.chunk
    }

    /// Start writing an indirectly referenceable object.
    pub fn indirect(&mut self, id: Ref) -> (r: Obj<'_>)
        ensures
            r.buf@ == old(self).spec_chunk().spec_bytes() + indirect_header(id),
            r.buf.spec_limits() == old(self).spec_chunk().spec_buf().spec_limits().with_int(id.id()),
            r.indirect,
            r.indent == 0,
            r.needs_padding == false,
            r.settings == old(self).spec_chunk().spec_settings(),
            final(self).spec_chunk().spec_buf() == *final(r.buf),
            final(self).spec_chunk().spec_offsets() == old(self).spec_chunk().spec_offsets().push(
                (id, old(self).spec_chunk().spec_bytes().len() as usize),
            ),
            final(self).spec_chunk().spec_settings() == old(self).spec_chunk().spec_settings(),
            final(self).spec_trailer() == old(self).spec_trailer(),
    {
        self.chunk.indirect(id)
    }

    /// Start writing an indirectly referenceable stream.
    ///
    /// The stream length must not exceed `i32::MAX`.
    pub fn stream<'a>(&'a mut self, id: Ref, data: &'a [u8]) -> (r: Stream<'a>)
        requires
            data@.len() <= i32::MAX,
        ensures
            r.dict.buf@ == old(self).spec_chunk().spec_bytes() + indirect_header(id)
                + "<<".spec_bytes() + dict_pair_bytes(
                old(self).spec_chunk().spec_bytes() + indirect_header(id) + "<<".spec_bytes(),
                old(self).spec_chunk().spec_settings().pretty,
                2,
                "Length".spec_bytes(),
                data@.len() as i32,
            ),
            r.dict.buf.spec_limits() == old(self).spec_chunk().spec_buf().spec_limits().with_int(
                id.id(),
            ).with_name_len("Length".spec_bytes().len() as int).with_int(data@.len() as int),
            r.dict.indirect,
            r.dict.indent == 2,
            r.dict.len == 1,
            r.dict.settings == old(self).spec_chunk().spec_settings(),
            r.data == data,
            final(self).spec_chunk().spec_buf() == *final(r.dict.buf),
            final(self).spec_chunk().spec_offsets() == old(self).spec_chunk().spec_offsets().push(
                (id, old(self).spec_chunk().spec_bytes().len() as usize),
            ),
            final(self).spec_chunk().spec_settings() == old(self).spec_chunk().spec_settings(),
            final(self).spec_trailer() == old(self).spec_trailer(),
    {
        self.chunk.stream(id, data)
    }

    /// Add all objects from a chunk to the document.
    pub fn extend(&mut self, other: &Chunk)
        requires
            forall|i: int|
                0 <= i < other.spec_offsets().len() ==> old(self).spec_chunk().spec_bytes().len()
                    + (#[trigger] other.spec_offsets()[i]).1 <= usize::MAX,
        ensures
            final(self).spec_chunk().spec_bytes() == old(self).spec_chunk().spec_bytes()
                + other.spec_bytes(),
            final(self).spec_chunk().spec_offsets() == old(self).spec_chunk().spec_offsets()
                + other.spec_offsets().map_values(
                |p: (Ref, usize)|
                    (p.0, (old(self).spec_chunk().spec_bytes().len() + p.1) as usize),
            ),
            final(self).spec_chunk().spec_buf().spec_limits() == old(self).spec_chunk().spec_buf().spec_limits().merged(
                other.spec_buf().spec_limits(),
            ),
            final(self).spec_chunk().spec_settings() == old(self).spec_chunk().spec_settings(),
            final(self).spec_trailer() == old(self).spec_trailer(),
    {
        self.chunk.extend(other);
    }

    /// Write the cross-reference table and file trailer and return the
    /// underlying buffer.
    ///
    /// No indirect reference id may have been used twice.
    pub fn finish(self) -> (r: Vec<u8>)
        requires
            distinct_ids(self.spec_chunk().spec_offsets()),
            max_id(self.spec_chunk().spec_offsets()) < i32::MAX,
        ensures
            r@ == finished_with_table(
                self.spec_chunk().spec_bytes(),
                self.spec_chunk().spec_offsets(),
                self.spec_trailer(),
                self.spec_chunk().spec_settings().pretty,
            ),
    {
        let ghost bytes = self.chunk.spec_bytes();
        let ghost offsets_spec = self.chunk.spec_offsets();
        let trailer_data = self.trailer_data;
        let (buf, offsets, settings) = self.chunk.into_parts();
        let xref_offset = buf.len();
        let mut writer = PlainXRefWriter::new(buf);
        let xref_len = write_offsets(offsets, &mut writer);
        let mut buf = writer.into_buf();
        proof {
            xref::lemma_max_id(offsets_spec);
        }
        assert(buf@ == bytes + plain_table(xref_entries(offsets_spec), table_len(offsets_spec)));

        // Write the trailer dictionary.
        buf.extend_slice("trailer\n".as_bytes());
        let ghost table = plain_table(xref_entries(offsets_spec), table_len(offsets_spec));
        let ghost trailer_view = trailer_data@;
        let ghost pretty = settings.pretty;
        let mut trailer = Obj::direct(&mut buf, 0, settings, false).dict();
        let ghost open = trailer.buf@;
        assert(open == bytes + table + "trailer\n".spec_bytes() + "<<".spec_bytes());
        trailer_data.write_into_dict(&mut trailer, xref_len);
        trailer.finish();
        assert(buf@ == open + trailer_entries(open, pretty, 2, trailer_view, table_len(offsets_spec))
            + dict_close_bytes(trailer_count(trailer_view), pretty, 2, false));
        let pad = "\n".as_bytes();
        finish_trailer(buf, xref_offset, pad)
    }
    /// Write the cross-reference stream and file trailer and return the
    /// underlying buffer. This method is functionally the same as
    /// [`Pdf::finish`], the difference being that the cross-reference
    /// information is written as a cross-reference stream instead of a
    /// cross-reference table. Cross-reference streams usually allow for
    /// smaller file sizes since they can also be compressed (see
    /// [`Pdf::finish_with_xref_stream_and_filter`]),
    /// but are only available from PDF 1.5 onwards. It is also necessary
    /// to call this method instead of [`Pdf::finish`] in case object stream
    /// are used anywhere in the document since normal xref tables do not
    /// support object streams.
    ///
    /// `xref_id` will be the object identifier used for the cross-reference
    /// stream. As in other cases, the identifier needs to be unique throughout
    /// the whole document.
    pub fn finish_with_xref_stream(self, xref_id: Ref) -> (r: Vec<u8>)
        requires
            distinct_ids(
                offsets_with_stream(
                    self.spec_chunk().spec_bytes(),
                    self.spec_chunk().spec_offsets(),
                    xref_id,
                ),
            ),
            max_id(
                offsets_with_stream(
                    self.spec_chunk().spec_bytes(),
                    self.spec_chunk().spec_offsets(),
                    xref_id,
                ),
            ) < i32::MAX,
            xref_stream_data(
                self.spec_chunk().spec_bytes(),
                self.spec_chunk().spec_offsets(),
                xref_id,
            ).len() <= i32::MAX,
        ensures
            r@ == finished_with_stream(
                self.spec_chunk().spec_bytes(),
                self.spec_chunk().spec_offsets(),
                self.spec_trailer(),
                self.spec_chunk().spec_settings().pretty,
                xref_id,
                xref_stream_data(
                    self.spec_chunk().spec_bytes(),
                    self.spec_chunk().spec_offsets(),
                    xref_id,
                ),
                None,
            ),
    {
        let (parts, table) = self.xref_stream_parts(xref_id);
        parts.finish_xref_stream(xref_id, table.as_slice(), None)
    }

    /// Write the cross-reference stream and file trailer and return the
    /// underlying buffer.
    ///
    /// This method is equivalent to [`Pdf::finish_with_xref_stream`], except
    /// that it allows you to apply one or multiple filters to the xref stream
    /// via the `filter` closure. The input of the closure will be the raw
    /// content of the xref stream, and the output should be the filtered data
    /// as well as a single filter or a list of filters that need to be
    /// applied to unfilter the data in the correct order.
    pub fn finish_with_xref_stream_and_filter<F: FnOnce(&[u8]) -> (Vec<u8>, XRefFilter)>(
        self,
        xref_id: Ref,
        filter: F,
    ) -> (r: Vec<u8>)
        requires
            distinct_ids(
                offsets_with_stream(
                    self.spec_chunk().spec_bytes(),
                    self.spec_chunk().spec_offsets(),
                    xref_id,
                ),
            ),
            max_id(
                offsets_with_stream(
                    self.spec_chunk().spec_bytes(),
                    self.spec_chunk().spec_offsets(),
                    xref_id,
                ),
            ) < i32::MAX,
            forall|d: &[u8]| filter.requires((d,)),
            forall|d: &[u8], out: (Vec<u8>, XRefFilter)|
                #[trigger] filter.ensures((d,), out) ==> filter_output_fits(
                    out.0@,
                    Some(out.1@),
                ),
        ensures
            exists|d: &[u8], out: (Vec<u8>, XRefFilter)|
                {
                    &&& d@ == xref_stream_data(
                        self.spec_chunk().spec_bytes(),
                        self.spec_chunk().spec_offsets(),
                        xref_id,
                    )
                    &&& #[trigger] filter.ensures((d,), out)
                    &&& r@ == finished_with_stream(
                        self.spec_chunk().spec_bytes(),
                        self.spec_chunk().spec_offsets(),
                        self.spec_trailer(),
                        self.spec_chunk().spec_settings().pretty,
                        xref_id,
                        out.0@,
                        Some(out.1@),
                    )
                },
    {
        let (parts, table) = self.xref_stream_parts(xref_id);
        let out = filter(table.as_slice());
        let ghost out_g = out;
        let (xref_data, xref_filter) = out;
        parts.finish_xref_stream(xref_id, xref_data.as_slice(), Some(xref_filter))
    }

    /// Take the document apart and compute the data of its cross-reference
    /// stream.
    fn xref_stream_parts(self, xref_id: Ref) -> (r: (XRefStreamParts, Vec<u8>))
        requires
            distinct_ids(
                offsets_with_stream(
                    self.spec_chunk().spec_bytes(),
                    self.spec_chunk().spec_offsets(),
                    xref_id,
                ),
            ),
            max_id(
                offsets_with_stream(
                    self.spec_chunk().spec_bytes(),
                    self.spec_chunk().spec_offsets(),
                    xref_id,
                ),
            ) < i32::MAX,
        ensures
            r.0.buf@ == self.spec_chunk().spec_bytes(),
            r.0.xref_offset == self.spec_chunk().spec_bytes().len(),
            r.1@ == xref_stream_data(
                self.spec_chunk().spec_bytes(),
                self.spec_chunk().spec_offsets(),
                xref_id,
            ),
            r.0.xref_len == table_len(
                offsets_with_stream(
                    self.spec_chunk().spec_bytes(),
                    self.spec_chunk().spec_offsets(),
                    xref_id,
                ),
            ),
            r.0.field_width == byte_width(self.spec_chunk().spec_bytes().len()),
            r.0.field_width <= 8,
            r.0.xref_len > 0,
            r.0.settings == self.spec_chunk().spec_settings(),
            r.0.trailer_data@ == self.spec_trailer(),
    {
        let ghost bytes = self.chunk.spec_bytes();
        let ghost offsets_spec = self.chunk.spec_offsets();
        let trailer_data = self.trailer_data;
        let (buf, mut offsets, settings) = self.chunk.into_parts();

        // Include the reference of the xref stream in the offsets as well.
        let xref_offset = buf.len();
        offsets.push((xref_id, xref_offset));
        let ghost all = offsets@;
        assert(all == offsets_with_stream(bytes, offsets_spec, xref_id));
        let field_width = determine_field_width(xref_offset);

        let mut writer = XRefStreamWriter::new(field_width);
        let xref_len = write_offsets(offsets, &mut writer);
        proof {
            xref::lemma_max_id(all);
        }
        assert(writer.buf@ == stream_table(xref_entries(all), field_width as nat));
        (XRefStreamParts { buf, xref_offset, xref_len, field_width, settings, trailer_data }, writer.buf)
    }
}

/// A document taken apart to be finished with a cross-reference stream.
struct XRefStreamParts {
    buf: Buf,
    xref_offset: usize,
    xref_len: i32,
    field_width: u32,
    settings: Settings,
    trailer_data: TrailerData,
}

impl XRefStreamParts {
    /// Write the cross-reference stream with the given data and filter, and
    /// the file trailer.
    #[verifier::spinoff_prover]
    #[verifier::rlimit(100)]
    fn finish_xref_stream(self, xref_id: Ref, data: &[u8], filter: Option<XRefFilter>) -> (r: Vec<u8>)
        requires
            filter_output_fits(data@, xref_filter_view(filter)),
            self.xref_len > 0,
            self.field_width <= 8,
        ensures
            r@ == self.buf@ + xref_stream_object(
                self.buf@,
                self.settings.pretty,
                xref_id,
                data@,
                xref_filter_view(filter),
                self.trailer_data@,
                self.xref_len as int,
                self.field_width as int,
            ) + file_end(self.xref_offset as nat),
    {
        let ghost before = self.buf@;
        let ghost pretty = self.settings.pretty;
        let ghost fv = xref_filter_view(filter);
        let ghost tv = self.trailer_data@;
        let ghost head = before + indirect_header(xref_id) + "<<".spec_bytes();
        let ghost length = dict_pair_enc_bytes(head, pretty, 2, "Length".spec_bytes(), decimal(data@.len() as int), false);
        let mut buf = self.buf;
        let mut stream = Stream::start(Obj::indirect(&mut buf, xref_id, self.settings), data);
        assert(stream.dict.buf@ == head + length);
        write_xref_stream_entries(&mut stream, filter, &self.trailer_data, self.xref_len, self.field_width as i32);
        stream.finish();
        proof {
            reveal(xref_stream_object);
        }
        assert(buf@ =~= before + xref_stream_object(before, pretty, xref_id, data@, fv, tv, self.xref_len as int, self.field_width as int));
        let pad: [u8; 0] = [];
        assert(pad@ =~= Seq::<u8>::empty());
        finish_trailer(buf, self.xref_offset, pad.as_slice())
    }
}

} // verus!
