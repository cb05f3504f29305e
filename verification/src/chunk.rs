use vstd::prelude::*;
use vstd::string::*;

use crate::buf::{decimal, Buf, Limits, LimitsView};
use crate::object::{
    dict_start_limits,
    nested_indent, array_started, TypedDict,
    dict_pair_bytes, dict_pair_enc_bytes, dict_started, type_entries_bytes, NameTree, NumberTree, Obj,
    Primitive, Ref, Stream,
};
use crate::functions::{
    ExponentialFunction, FunctionType, PostScriptFunction, SampledFunction, StitchingFunction,
};
use crate::color::{ColorSpace, IccProfile, ShadingPattern, TilingPattern, pattern_entries_bytes};
use crate::files::EmbeddedFile;
use crate::font::Cmap;
use crate::structure::Metadata;
use crate::xobject::{FormXObject, ImageXObject};
use crate::annotations::Annotation;
use crate::content::ExtGraphicsState;
use crate::files::FileSpec;
use crate::font::{CidFont, FontDescriptor, Type0Font, Type1Font, Type3Font};
use crate::forms::Field;
use crate::structure::{Destination, OutlineItem, Outline, Page, Pages, StructElement};

verus! {

/// Settings that control how PDF objects are written.
#[derive(Debug, Copy, Clone, Eq, PartialEq, Hash)]
pub struct Settings {
    /// Whether to write dictionaries and arrays with line breaks and
    /// indentation. Without it, the output is as compact as the syntax allows.
    ///
    /// _Default value_: `true`.
    pub pretty: bool,
}

impl Default for Settings {
    fn default() -> (r: Settings)
        ensures
            r.pretty,
    {
        Settings { pretty: true }
    }
}

/// A builder for a collection of indirect PDF objects.
///
/// This type holds written top-level indirect PDF objects. Typically, you won't
/// create a collection yourself, but use the primary chunk of the top-level
/// [`Pdf`](crate::Pdf).
///
/// However, sometimes it's useful to be able to create a separate chunk to be
/// able to write two things at the same time (which isn't possible with a
/// single chunk because of the streaming nature --- only one writer can borrow
/// it at a time).
#[derive(Clone)]
pub struct Chunk {
    buf: Buf,
    offsets: Vec<(Ref, usize)>,
    settings: Settings,
}

/// The bytes that start an indirect object.
pub open spec fn indirect_header(id: Ref) -> Seq<u8> {
    decimal(id.id()) + " 0 obj\n".spec_bytes()
}

impl Chunk {
    /// The chunk's buffer.
    pub closed spec fn spec_buf(&self) -> Buf {
        self.buf
    }

    /// The bytes written so far.
    pub open spec fn spec_bytes(&self) -> Seq<u8> {
        self.spec_buf()@
    }

    /// The start offset of each top-level object, in the order they were
    /// started.
    pub closed spec fn spec_offsets(&self) -> Seq<(Ref, usize)> {
        self.offsets@
    }

    /// How the chunk writes objects.
    pub closed spec fn spec_settings(&self) -> Settings {
        self.settings
    }

    /// Create a new chunk with the default capacity (currently 1 KB).
    pub fn new() -> (r: Self)
        ensures
            r.spec_bytes() == Seq::<u8>::empty(),
            r.spec_buf().spec_limits() == LimitsView::zero(),
            r.spec_offsets() == Seq::<(Ref, usize)>::empty(),
            r.spec_settings().pretty,
    {
        Self::with_capacity(1024)
    }

    /// Create a new chunk with the specified initial capacity.
    pub fn with_capacity(capacity: usize) -> (r: Self)
        ensures
            r.spec_bytes() == Seq::<u8>::empty(),
            r.spec_buf().spec_limits() == LimitsView::zero(),
            r.spec_offsets() == Seq::<(Ref, usize)>::empty(),
            r.spec_settings().pretty,
    {
        Self::with_settings_and_capacity(Settings::default(), capacity)
    }

    /// Create a new chunk with the given settings and the default capacity.
    pub fn with_settings(settings: Settings) -> (r: Self)
        ensures
            r.spec_bytes() == Seq::<u8>::empty(),
            r.spec_buf().spec_limits() == LimitsView::zero(),
            r.spec_offsets() == Seq::<(Ref, usize)>::empty(),
            r.spec_settings() == settings,
    {
        Self::with_settings_and_capacity(settings, 1024)
    }

    /// Create a new chunk with the given settings and initial capacity.
    pub fn with_settings_and_capacity(settings: Settings, capacity: usize) -> (r: Self)
        ensures
            r.spec_bytes() == Seq::<u8>::empty(),
            r.spec_buf().spec_limits() == LimitsView::zero(),
            r.spec_offsets() == Seq::<(Ref, usize)>::empty(),
            r.spec_settings() == settings,
    {
        Self { buf: Buf::with_capacity(capacity), offsets: Vec::new(), settings }
    }

    /// The number of bytes that were written so far.
    pub fn len(&self) -> (r: usize)
        ensures
            r == self.spec_bytes().len(),
    {
        self.buf.len()
    }

    /// The bytes already written so far.
    pub fn as_bytes(&self) -> (r: &[u8])
        ensures
            r@ == self.spec_bytes(),
    {
        self.buf.as_slice()
    }

    /// Return the limits of the chunk.
    pub fn limits(&self) -> (r: &Limits)
        ensures
            r@ == self.spec_buf().spec_limits(),
    {
        self.buf.limits()
    }

    /// Merge the given limits into the chunk's limits.
    pub fn merge_limits(&mut self, limits: &Limits)
        ensures
            final(self).spec_bytes() == old(self).spec_bytes(),
            final(self).spec_buf().spec_limits() == old(self).spec_buf().spec_limits().merged(
                limits@,
            ),
            final(self).spec_offsets() == old(self).spec_offsets(),
            final(self).spec_settings() == old(self).spec_settings(),
    {
        self.buf.merge_limits(limits);
    }

    /// Add all objects from another chunk to this one.
    ///
    /// The objects of `other` keep their offsets relative to the start of
    /// `other`'s bytes, which now follow this chunk's bytes.
    pub fn extend(&mut self, other: &Chunk)
        requires
            forall|i: int|
                0 <= i < other.spec_offsets().len() ==> old(self).spec_bytes().len()
                    + (#[trigger] other.spec_offsets()[i]).1 <= usize::MAX,
        ensures
            final(self).spec_bytes() == old(self).spec_bytes() + other.spec_bytes(),
            final(self).spec_buf().spec_limits() == old(self).spec_buf().spec_limits().merged(
                other.spec_buf().spec_limits(),
            ),
            final(self).spec_offsets() == old(self).spec_offsets() + other.spec_offsets().map_values(
                |p: (Ref, usize)| (p.0, (old(self).spec_bytes().len() + p.1) as usize),
            ),
            final(self).spec_settings() == old(self).spec_settings(),
    {
        let base = self.len();
        self.buf.extend(&other.buf);
        let ghost f = |p: (Ref, usize)| (p.0, (old(self).spec_bytes().len() + p.1) as usize);
        let mut i: usize = 0;
        while i < other.offsets.len()
            invariant
                i <= other.offsets@.len(),
                base == old(self).spec_bytes().len(),
                forall|i: int|
                    0 <= i < other.spec_offsets().len() ==> base + (
                    #[trigger] other.spec_offsets()[i]).1 <= usize::MAX,
                self.buf@ == old(self).buf@ + other.buf@,
                self.buf.spec_limits() == old(self).buf.spec_limits().merged(
                    other.buf.spec_limits(),
                ),
                self.settings == old(self).settings,
                self.offsets@ == old(self).offsets@ + other.offsets@.take(i as int).map_values(f),
                f == (|p: (Ref, usize)| (p.0, (old(self).spec_bytes().len() + p.1) as usize)),
            decreases other.offsets@.len() - i,
        {
            let (id, offset) = other.offsets[i];
            assert(base + other.spec_offsets()[i as int].1 <= usize::MAX);
            self.offsets.push((id, base + offset));
            assert(other.offsets@.take(i + 1).map_values(f) =~= other.offsets@.take(
                i as int,
            ).map_values(f).push(f(other.offsets@[i as int])));
            assert(self.offsets@ =~= old(self).offsets@ + other.offsets@.take(i + 1).map_values(f));
            i = i + 1;
        }
        assert(other.offsets@.take(other.offsets@.len() as int) =~= other.offsets@);
    }

    /// Append raw bytes to the chunk.
    pub(crate) fn extend_bytes(&mut self, bytes: &[u8])
        ensures
            final(self).spec_bytes() == old(self).spec_bytes() + bytes@,
            final(self).spec_buf().spec_limits() == old(self).spec_buf().spec_limits(),
            final(self).spec_offsets() == old(self).spec_offsets(),
            final(self).spec_settings() == old(self).spec_settings(),
    {
        self.buf.extend_slice(bytes);
    }

    /// Overwrite one byte of the chunk.
    pub(crate) fn set_byte(&mut self, index: usize, value: u8)
        requires
            index < old(self).spec_bytes().len(),
        ensures
            final(self).spec_bytes() == old(self).spec_bytes().update(index as int, value),
            final(self).spec_buf().spec_limits() == old(self).spec_buf().spec_limits(),
            final(self).spec_offsets() == old(self).spec_offsets(),
            final(self).spec_settings() == old(self).spec_settings(),
    {
        self.buf.set_byte(index, value);
    }

    /// Take the chunk apart into its buffer, its object offsets and its
    /// settings.
    pub(crate) fn into_parts(self) -> (r: (Buf, Vec<(Ref, usize)>, Settings))
        ensures
            r.0 == self.spec_buf(),
            r.1@ == self.spec_offsets(),
            r.2 == self.spec_settings(),
    {
        (self.buf, self.offsets, self.settings)
    }

    /// The references of the top-level objects of the chunk, in the order
    /// they appear in the chunk.
    pub fn refs(&self) -> (r: Vec<Ref>)
        ensures
            r@ == self.spec_offsets().map_values(|p: (Ref, usize)| p.0),
    {
        let mut r: Vec<Ref> = Vec::new();
        let mut i: usize = 0;
        while i < self.offsets.len()
            invariant
                i <= self.offsets@.len(),
                r@ == self.offsets@.take(i as int).map_values(|p: (Ref, usize)| p.0),
            decreases self.offsets@.len() - i,
        {
            r.push(self.offsets[i].0);
            assert(self.offsets@.take(i + 1).map_values(|p: (Ref, usize)| p.0) =~= r@);
            i = i + 1;
        }
        assert(self.offsets@.take(self.offsets@.len() as int) =~= self.offsets@);
        r
    }
}

/// Indirect objects and streams.
impl Chunk {
    /// Start writing an indirectly referenceable object.
    pub fn indirect(&mut self, id: Ref) -> (r: Obj<'_>)
        ensures
            r.buf@ == old(self).spec_bytes() + indirect_header(id),
            r.buf.spec_limits() == old(self).spec_buf().spec_limits().with_int(id.id()),
            r.indirect,
            r.indent == 0,
            r.needs_padding == false,
            r.settings == old(self).spec_settings(),
            final(self).spec_buf() == *final(r.buf),
            final(self).spec_offsets() == old(self).spec_offsets().push(
                (id, old(self).spec_bytes().len() as usize),
            ),
            final(self).spec_settings() == old(self).spec_settings(),
    {
        self.offsets.push((id, self.buf.len()));
        Obj::indirect(&mut self.buf, id, self.settings)
    }

    /// Start writing an indirectly referenceable stream.
    ///
    /// The stream data and the `/Length` field are written automatically. You
    /// can add additional key-value pairs to the stream dictionary with the
    /// returned stream writer.
    ///
    /// This crate does not do any compression for you. If you want to compress
    /// a stream, you have to pass already compressed data into this function
    /// and specify the appropriate filter in the stream dictionary.
    ///
    /// The stream length must not exceed `i32::MAX`.
    pub fn stream<'a>(&'a mut self, id: Ref, data: &'a [u8]) -> (r: Stream<'a>)
        requires
            data@.len() <= i32::MAX,
        ensures
            r.dict.buf@ == old(self).spec_bytes() + indirect_header(id) + "<<".spec_bytes()
                + dict_pair_bytes(
                old(self).spec_bytes() + indirect_header(id) + "<<".spec_bytes(),
                old(self).spec_settings().pretty,
                2,
                "Length".spec_bytes(),
                data@.len() as i32,
            ),
            r.dict.buf.spec_limits() == old(self).spec_buf().spec_limits().with_int(
                id.id(),
            ).with_name_len("Length".spec_bytes().len() as int).with_int(data@.len() as int),
            r.dict.indirect,
            r.dict.indent == 2,
            r.dict.len == 1,
            r.dict.settings == old(self).spec_settings(),
            r.data == data,
            final(self).spec_buf() == *final(r.dict.buf),
            final(self).spec_offsets() == old(self).spec_offsets().push(
                (id, old(self).spec_bytes().len() as usize),
            ),
            final(self).spec_settings() == old(self).spec_settings(),
    {
        Stream::start(self.indirect(id), data)
    }
}

/// Tree data structures.
impl Chunk {
    /// Start writing a name tree node.
    pub fn name_tree<T: Primitive>(&mut self, id: Ref) -> (r: NameTree<'_, T>)
        ensures
            r.dict.buf.spec_limits() == old(self).spec_buf().spec_limits().with_int(id.id()),
            r.dict.buf@ == old(self).spec_bytes() + indirect_header(id) + "<<".spec_bytes(),
            r.dict.indirect,
            r.dict.indent == 2,
            r.dict.len == 0,
            r.dict.settings == old(self).spec_settings(),
            final(self).spec_buf() == *final(r.dict.buf),
            final(self).spec_offsets() == old(self).spec_offsets().push(
                (id, old(self).spec_bytes().len() as usize),
            ),
            final(self).spec_settings() == old(self).spec_settings(),
    {
        NameTree::start(self.indirect(id))
    }

    /// Start writing a number tree node.
    pub fn number_tree<T: Primitive>(&mut self, id: Ref) -> (r: NumberTree<'_, T>)
        ensures
            r.dict.buf.spec_limits() == old(self).spec_buf().spec_limits().with_int(id.id()),
            r.dict.buf@ == old(self).spec_bytes() + indirect_header(id) + "<<".spec_bytes(),
            r.dict.indirect,
            r.dict.indent == 2,
            r.dict.len == 0,
            r.dict.settings == old(self).spec_settings(),
            final(self).spec_buf() == *final(r.dict.buf),
            final(self).spec_offsets() == old(self).spec_offsets().push(
                (id, old(self).spec_bytes().len() as usize),
            ),
            final(self).spec_settings() == old(self).spec_settings(),
    {
        NumberTree::start(self.indirect(id))
    }
}

/// The bytes of a chunk after starting a stream object with `len` bytes of
/// data after `before`: the object header, the opening of the dictionary and
/// the `/Length` entry.
pub open spec fn stream_head_bytes(before: Seq<u8>, pretty: bool, id: Ref, len: int) -> Seq<u8> {
    let head = before + indirect_header(id) + "<<".spec_bytes();
    head + dict_pair_enc_bytes(head, pretty, 2, "Length".spec_bytes(), decimal(len), false)
}

/// Stream writers for specific objects.
impl Chunk {
    /// Start writing a metadata stream.
    pub fn metadata<'a>(&'a mut self, id: Ref, bytes: &'a [u8]) -> (r: Metadata<'a>)
        requires
            bytes@.len() <= i32::MAX,
        ensures
            r.stream.dict.buf@ == stream_head_bytes(
                old(self).spec_bytes(),
                old(self).spec_settings().pretty,
                id,
                bytes@.len() as int,
            ) + type_entries_bytes(
                stream_head_bytes(
                    old(self).spec_bytes(),
                    old(self).spec_settings().pretty,
                    id,
                    bytes@.len() as int,
                ),
                old(self).spec_settings().pretty,
                2,
                Some("Metadata".spec_bytes()),
                Some("XML".spec_bytes()),
            ),
            r.stream.dict.len == 3,
            r.stream.dict.indirect,
            r.stream.dict.indent == 2,
            r.stream.dict.settings == old(self).spec_settings(),
            r.stream.data == bytes,
            final(self).spec_buf() == *final(r.stream.dict.buf),
            final(self).spec_offsets() == old(self).spec_offsets().push(
                (id, old(self).spec_bytes().len() as usize),
            ),
            final(self).spec_settings() == old(self).spec_settings(),
            r.stream.dict.buf.spec_limits() == dict_start_limits(
                old(self).spec_buf().spec_limits().with_int(id.id()).with_name_len(
                    "Length".spec_bytes().len() as int,
                ).with_int(bytes@.len() as int),
                Some("Metadata".spec_bytes()),
                Some("XML".spec_bytes()),
            ),
    {
        Metadata::start(self.stream(id, bytes))
    }

    /// Start writing an embedded file stream.
    pub fn embedded_file<'a>(&'a mut self, id: Ref, bytes: &'a [u8]) -> (r: EmbeddedFile<'a>)
        requires
            bytes@.len() <= i32::MAX,
        ensures
            r.stream.dict.buf@ == stream_head_bytes(
                old(self).spec_bytes(),
                old(self).spec_settings().pretty,
                id,
                bytes@.len() as int,
            ) + type_entries_bytes(
                stream_head_bytes(
                    old(self).spec_bytes(),
                    old(self).spec_settings().pretty,
                    id,
                    bytes@.len() as int,
                ),
                old(self).spec_settings().pretty,
                2,
                Some("EmbeddedFile".spec_bytes()),
                None,
            ),
            r.stream.dict.len == 2,
            r.stream.dict.indirect,
            r.stream.dict.indent == 2,
            r.stream.dict.settings == old(self).spec_settings(),
            r.stream.data == bytes,
            final(self).spec_buf() == *final(r.stream.dict.buf),
            final(self).spec_offsets() == old(self).spec_offsets().push(
                (id, old(self).spec_bytes().len() as usize),
            ),
            final(self).spec_settings() == old(self).spec_settings(),
            r.stream.dict.buf.spec_limits() == dict_start_limits(
                old(self).spec_buf().spec_limits().with_int(id.id()).with_name_len(
                    "Length".spec_bytes().len() as int,
                ).with_int(bytes@.len() as int),
                Some("EmbeddedFile".spec_bytes()),
                None,
            ),
    {
        EmbeddedFile::start(self.stream(id, bytes))
    }

    /// Start writing an image XObject stream.
    ///
    /// The samples should be encoded according to the stream's filter, color
    /// space and bits per component.
    pub fn image_xobject<'a>(&'a mut self, id: Ref, samples: &'a [u8]) -> (r: ImageXObject<'a>)
        requires
            samples@.len() <= i32::MAX,
        ensures
            r.stream.dict.buf@ == stream_head_bytes(
                old(self).spec_bytes(),
                old(self).spec_settings().pretty,
                id,
                samples@.len() as int,
            ) + type_entries_bytes(
                stream_head_bytes(
                    old(self).spec_bytes(),
                    old(self).spec_settings().pretty,
                    id,
                    samples@.len() as int,
                ),
                old(self).spec_settings().pretty,
                2,
                Some("XObject".spec_bytes()),
                Some("Image".spec_bytes()),
            ),
            r.stream.dict.len == 3,
            r.stream.dict.indirect,
            r.stream.dict.indent == 2,
            r.stream.dict.settings == old(self).spec_settings(),
            r.stream.data == samples,
            final(self).spec_buf() == *final(r.stream.dict.buf),
            final(self).spec_offsets() == old(self).spec_offsets().push(
                (id, old(self).spec_bytes().len() as usize),
            ),
            final(self).spec_settings() == old(self).spec_settings(),
            r.stream.dict.buf.spec_limits() == dict_start_limits(
                old(self).spec_buf().spec_limits().with_int(id.id()).with_name_len(
                    "Length".spec_bytes().len() as int,
                ).with_int(samples@.len() as int),
                Some("XObject".spec_bytes()),
                Some("Image".spec_bytes()),
            ),
    {
        ImageXObject::start(self.stream(id, samples))
    }

    /// Start writing a form XObject stream.
    ///
    /// These can be used as transparency groups.
    ///
    /// Note that these have nothing to do with forms that have fields to fill
    /// out. Rather, they are a way to encapsulate and reuse content across the
    /// file.
    pub fn form_xobject<'a>(&'a mut self, id: Ref, content: &'a [u8]) -> (r: FormXObject<'a>)
        requires
            content@.len() <= i32::MAX,
        ensures
            r.stream.dict.buf@ == stream_head_bytes(
                old(self).spec_bytes(),
                old(self).spec_settings().pretty,
                id,
                content@.len() as int,
            ) + type_entries_bytes(
                stream_head_bytes(
                    old(self).spec_bytes(),
                    old(self).spec_settings().pretty,
                    id,
                    content@.len() as int,
                ),
                old(self).spec_settings().pretty,
                2,
                Some("XObject".spec_bytes()),
                Some("Form".spec_bytes()),
            ),
            r.stream.dict.len == 3,
            r.stream.dict.indirect,
            r.stream.dict.indent == 2,
            r.stream.dict.settings == old(self).spec_settings(),
            r.stream.data == content,
            final(self).spec_buf() == *final(r.stream.dict.buf),
            final(self).spec_offsets() == old(self).spec_offsets().push(
                (id, old(self).spec_bytes().len() as usize),
            ),
            final(self).spec_settings() == old(self).spec_settings(),
            r.stream.dict.buf.spec_limits() == dict_start_limits(
                old(self).spec_buf().spec_limits().with_int(id.id()).with_name_len(
                    "Length".spec_bytes().len() as int,
                ).with_int(content@.len() as int),
                Some("XObject".spec_bytes()),
                Some("Form".spec_bytes()),
            ),
    {
        FormXObject::start(self.stream(id, content))
    }

    /// Start writing a character map stream.
    ///
    /// This defines the mapping from character codes to glyph identifiers or
    /// Unicode characters.
    pub fn cmap<'a>(&'a mut self, id: Ref, cmap: &'a [u8]) -> (r: Cmap<'a>)
        requires
            cmap@.len() <= i32::MAX,
        ensures
            r.stream.dict.buf@ == stream_head_bytes(
                old(self).spec_bytes(),
                old(self).spec_settings().pretty,
                id,
                cmap@.len() as int,
            ) + type_entries_bytes(
                stream_head_bytes(
                    old(self).spec_bytes(),
                    old(self).spec_settings().pretty,
                    id,
                    cmap@.len() as int,
                ),
                old(self).spec_settings().pretty,
                2,
                Some("CMap".spec_bytes()),
                None,
            ),
            r.stream.dict.len == 2,
            r.stream.dict.indirect,
            r.stream.dict.indent == 2,
            r.stream.dict.settings == old(self).spec_settings(),
            r.stream.data == cmap,
            final(self).spec_buf() == *final(r.stream.dict.buf),
            final(self).spec_offsets() == old(self).spec_offsets().push(
                (id, old(self).spec_bytes().len() as usize),
            ),
            final(self).spec_settings() == old(self).spec_settings(),
            r.stream.dict.buf.spec_limits() == dict_start_limits(
                old(self).spec_buf().spec_limits().with_int(id.id()).with_name_len(
                    "Length".spec_bytes().len() as int,
                ).with_int(cmap@.len() as int),
                Some("CMap".spec_bytes()),
                None,
            ),
    {
        Cmap::start(self.stream(id, cmap))
    }

    /// Start writing an ICC profile stream.
    ///
    /// The `profile` argument shall contain the ICC profile data conforming to
    /// ICC.1:2004-10 (PDF 1.7), ICC.1:2003-09 (PDF 1.6), ICC.1:2001-12 (PDF 1.5),
    /// ICC.1:1999-04 (PDF 1.3), or ICC 3.3 (PDF 1.3). Profile data is commonly
    /// compressed using the `FlateDecode` filter.
    pub fn icc_profile<'a>(&'a mut self, id: Ref, profile: &'a [u8]) -> (r: IccProfile<'a>)
        requires
            profile@.len() <= i32::MAX,
        ensures
            r.stream.dict.buf@ == stream_head_bytes(
                old(self).spec_bytes(),
                old(self).spec_settings().pretty,
                id,
                profile@.len() as int,
            ) + type_entries_bytes(
                stream_head_bytes(
                    old(self).spec_bytes(),
                    old(self).spec_settings().pretty,
                    id,
                    profile@.len() as int,
                ),
                old(self).spec_settings().pretty,
                2,
                None,
                None,
            ),
            r.stream.dict.len == 1,
            r.stream.dict.indirect,
            r.stream.dict.indent == 2,
            r.stream.dict.settings == old(self).spec_settings(),
            r.stream.data == profile,
            final(self).spec_buf() == *final(r.stream.dict.buf),
            final(self).spec_offsets() == old(self).spec_offsets().push(
                (id, old(self).spec_bytes().len() as usize),
            ),
            final(self).spec_settings() == old(self).spec_settings(),
            r.stream.dict.buf.spec_limits() == dict_start_limits(
                old(self).spec_buf().spec_limits().with_int(id.id()).with_name_len(
                    "Length".spec_bytes().len() as int,
                ).with_int(profile@.len() as int),
                None,
                None,
            ),
    {
        IccProfile::start(self.stream(id, profile))
    }
}

/// Color spaces and patterns.
impl Chunk {
    /// Start writing a color space.
    pub fn color_space(&mut self, id: Ref) -> (r: ColorSpace<'_>)
        ensures
            r.obj.buf.spec_limits() == old(self).spec_buf().spec_limits().with_int(id.id()),
            r.obj.buf@ == old(self).spec_bytes() + indirect_header(id),
            r.obj.indirect,
            r.obj.indent == 0,
            r.obj.needs_padding == false,
            r.obj.settings == old(self).spec_settings(),
            final(self).spec_buf() == *final(r.obj.buf),
            final(self).spec_offsets() == old(self).spec_offsets().push(
                (id, old(self).spec_bytes().len() as usize),
            ),
            final(self).spec_settings() == old(self).spec_settings(),
    {
        ColorSpace::start(self.indirect(id))
    }

    /// Start writing a tiling pattern stream.
    ///
    /// You can create the content bytes using a [`Content`](crate::Content)
    /// builder.
    pub fn tiling_pattern<'a>(&'a mut self, id: Ref, content: &'a [u8]) -> (r: TilingPattern<'a>)
        requires
            content@.len() <= i32::MAX,
        ensures
            r.stream.dict.buf@ == stream_head_bytes(
                old(self).spec_bytes(),
                old(self).spec_settings().pretty,
                id,
                content@.len() as int,
            ) + pattern_entries_bytes(
                stream_head_bytes(
                    old(self).spec_bytes(),
                    old(self).spec_settings().pretty,
                    id,
                    content@.len() as int,
                ),
                old(self).spec_settings().pretty,
                2,
                1,
            ),
            r.stream.dict.len == 3,
            r.stream.dict.indirect,
            r.stream.dict.indent == 2,
            r.stream.dict.settings == old(self).spec_settings(),
            r.stream.data == content,
            final(self).spec_buf() == *final(r.stream.dict.buf),
            final(self).spec_offsets() == old(self).spec_offsets().push(
                (id, old(self).spec_bytes().len() as usize),
            ),
            final(self).spec_settings() == old(self).spec_settings(),
    {
        TilingPattern::start_with_stream(self.stream(id, content))
    }

    /// Start writing a shading pattern.
    pub fn shading_pattern(&mut self, id: Ref) -> (r: ShadingPattern<'_>)
        ensures
            r.dict.buf@ == old(self).spec_bytes() + indirect_header(id) + "<<".spec_bytes()
                + pattern_entries_bytes(
                old(self).spec_bytes() + indirect_header(id) + "<<".spec_bytes(),
                old(self).spec_settings().pretty,
                2,
                2,
            ),
            r.dict.len == 2,
            r.dict.indirect,
            r.dict.indent == 2,
            r.dict.settings == old(self).spec_settings(),
            final(self).spec_buf() == *final(r.dict.buf),
            final(self).spec_offsets() == old(self).spec_offsets().push(
                (id, old(self).spec_bytes().len() as usize),
            ),
            final(self).spec_settings() == old(self).spec_settings(),
    {
        ShadingPattern::start(self.indirect(id))
    }
}

/// Destinations.
impl Chunk {
    /// Start writing a destination for use in a name tree.
    pub fn destination(&mut self, id: Ref) -> (r: Destination<'_>)
        ensures
            r.array.buf.spec_limits() == old(self).spec_buf().spec_limits().with_int(id.id()),
            array_started(
                r.array,
                old(self).spec_bytes() + indirect_header(id),
                true,
                0,
                old(self).spec_settings(),
            ),
            final(self).spec_buf() == *final(r.array.buf),
            final(self).spec_offsets() == old(self).spec_offsets().push(
                (id, old(self).spec_bytes().len() as usize),
            ),
            final(self).spec_settings() == old(self).spec_settings(),
    {
        Destination::start(self.indirect(id))
    }

    /// Start writing a named destination dictionary.
    pub fn destinations(&mut self, id: Ref) -> (r: TypedDict<'_, Destination<'_>>)
        ensures
            r.dict.buf.spec_limits() == old(self).spec_buf().spec_limits().with_int(id.id()),
            r.dict.buf@ == old(self).spec_bytes() + indirect_header(id) + "<<".spec_bytes(),
            r.dict.len == 0,
            r.dict.indirect,
            r.dict.indent == 2,
            r.dict.settings == old(self).spec_settings(),
            final(self).spec_buf() == *final(r.dict.buf),
            final(self).spec_offsets() == old(self).spec_offsets().push(
                (id, old(self).spec_bytes().len() as usize),
            ),
            final(self).spec_settings() == old(self).spec_settings(),
    {
        self.indirect(id).dict().typed()
    }
}

/// Functions.
impl Chunk {
    /// Start writing a sampled function stream.
    pub fn sampled_function<'a>(&'a mut self, id: Ref, samples: &'a [u8]) -> (r: SampledFunction<'a>)
        requires
            samples@.len() <= i32::MAX,
        ensures
            r.stream.dict.buf@ == stream_head_bytes(
                old(self).spec_bytes(),
                old(self).spec_settings().pretty,
                id,
                samples@.len() as int,
            ) + dict_pair_bytes(
                stream_head_bytes(
                    old(self).spec_bytes(),
                    old(self).spec_settings().pretty,
                    id,
                    samples@.len() as int,
                ),
                old(self).spec_settings().pretty,
                2,
                "FunctionType".spec_bytes(),
                FunctionType::Sampled.spec_int(),
            ),
            r.stream.dict.len == 2,
            r.stream.dict.indirect,
            r.stream.dict.indent == 2,
            r.stream.dict.settings == old(self).spec_settings(),
            r.stream.data == samples,
            final(self).spec_buf() == *final(r.stream.dict.buf),
            final(self).spec_offsets() == old(self).spec_offsets().push(
                (id, old(self).spec_bytes().len() as usize),
            ),
            final(self).spec_settings() == old(self).spec_settings(),
    {
        SampledFunction::start(self.stream(id, samples))
    }

    /// Start writing an exponential function.
    pub fn exponential_function(&mut self, id: Ref) -> (r: ExponentialFunction<'_>)
        ensures
            r.dict.buf@ == old(self).spec_bytes() + indirect_header(id) + "<<".spec_bytes() + dict_pair_bytes(
                old(self).spec_bytes() + indirect_header(id) + "<<".spec_bytes(),
                old(self).spec_settings().pretty,
                2,
                "FunctionType".spec_bytes(),
                FunctionType::Exponential.spec_int(),
            ),
            r.dict.len == 1,
            r.dict.indirect,
            r.dict.indent == 2,
            r.dict.settings == old(self).spec_settings(),
            final(self).spec_buf() == *final(r.dict.buf),
            final(self).spec_offsets() == old(self).spec_offsets().push(
                (id, old(self).spec_bytes().len() as usize),
            ),
            final(self).spec_settings() == old(self).spec_settings(),
    {
        ExponentialFunction::start(self.indirect(id))
    }

    /// Start writing a stitching function.
    pub fn stitching_function(&mut self, id: Ref) -> (r: StitchingFunction<'_>)
        ensures
            r.dict.buf@ == old(self).spec_bytes() + indirect_header(id) + "<<".spec_bytes() + dict_pair_bytes(
                old(self).spec_bytes() + indirect_header(id) + "<<".spec_bytes(),
                old(self).spec_settings().pretty,
                2,
                "FunctionType".spec_bytes(),
                FunctionType::Stitching.spec_int(),
            ),
            r.dict.len == 1,
            r.dict.indirect,
            r.dict.indent == 2,
            r.dict.settings == old(self).spec_settings(),
            final(self).spec_buf() == *final(r.dict.buf),
            final(self).spec_offsets() == old(self).spec_offsets().push(
                (id, old(self).spec_bytes().len() as usize),
            ),
            final(self).spec_settings() == old(self).spec_settings(),
    {
        StitchingFunction::start(self.indirect(id))
    }

    /// Start writing a PostScript function stream.
    ///
    /// You can create the code bytes using [`PostScriptOp::encode`](crate::types::PostScriptOp::encode).
    pub fn post_script_function<'a>(&'a mut self, id: Ref, code: &'a [u8]) -> (r: PostScriptFunction<'a>)
        requires
            code@.len() <= i32::MAX,
        ensures
            r.stream.dict.buf@ == stream_head_bytes(
                old(self).spec_bytes(),
                old(self).spec_settings().pretty,
                id,
                code@.len() as int,
            ) + dict_pair_bytes(
                stream_head_bytes(
                    old(self).spec_bytes(),
                    old(self).spec_settings().pretty,
                    id,
                    code@.len() as int,
                ),
                old(self).spec_settings().pretty,
                2,
                "FunctionType".spec_bytes(),
                FunctionType::PostScript.spec_int(),
            ),
            r.stream.dict.len == 2,
            r.stream.dict.indirect,
            r.stream.dict.indent == 2,
            r.stream.dict.settings == old(self).spec_settings(),
            r.stream.data == code,
            final(self).spec_buf() == *final(r.stream.dict.buf),
            final(self).spec_offsets() == old(self).spec_offsets().push(
                (id, old(self).spec_bytes().len() as usize),
            ),
            final(self).spec_settings() == old(self).spec_settings(),
    {
        PostScriptFunction::start(self.stream(id, code))
    }
}

/// Writers for specific objects.
impl Chunk {
    /// Start writing a page tree.
    pub fn pages(&mut self, id: Ref) -> (r: Pages<'_>)
        ensures
            dict_started(
                r.dict,
                old(self).spec_bytes() + indirect_header(id),
                true,
                0,
                old(self).spec_settings(),
                Some("Pages".spec_bytes()),
                None,
            ),
            r.dict.buf.spec_limits() == dict_start_limits(
                old(self).spec_buf().spec_limits().with_int(id.id()),
                Some("Pages".spec_bytes()),
                None,
            ),
            final(self).spec_buf() == *final(r.dict.buf),
            final(self).spec_offsets() == old(self).spec_offsets().push(
                (id, old(self).spec_bytes().len() as usize),
            ),
            final(self).spec_settings() == old(self).spec_settings(),
    {
        Pages::start(self.indirect(id))
    }

    /// Start writing a page.
    pub fn page(&mut self, id: Ref) -> (r: Page<'_>)
        ensures
            dict_started(
                r.dict,
                old(self).spec_bytes() + indirect_header(id),
                true,
                0,
                old(self).spec_settings(),
                Some("Page".spec_bytes()),
                None,
            ),
            r.dict.buf.spec_limits() == dict_start_limits(
                old(self).spec_buf().spec_limits().with_int(id.id()),
                Some("Page".spec_bytes()),
                None,
            ),
            final(self).spec_buf() == *final(r.dict.buf),
            final(self).spec_offsets() == old(self).spec_offsets().push(
                (id, old(self).spec_bytes().len() as usize),
            ),
            final(self).spec_settings() == old(self).spec_settings(),
    {
        Page::start(self.indirect(id))
    }

    /// Start writing an outline.
    pub fn outline(&mut self, id: Ref) -> (r: Outline<'_>)
        ensures
            dict_started(
                r.dict,
                old(self).spec_bytes() + indirect_header(id),
                true,
                0,
                old(self).spec_settings(),
                Some("Outlines".spec_bytes()),
                None,
            ),
            r.dict.buf.spec_limits() == dict_start_limits(
                old(self).spec_buf().spec_limits().with_int(id.id()),
                Some("Outlines".spec_bytes()),
                None,
            ),
            final(self).spec_buf() == *final(r.dict.buf),
            final(self).spec_offsets() == old(self).spec_offsets().push(
                (id, old(self).spec_bytes().len() as usize),
            ),
            final(self).spec_settings() == old(self).spec_settings(),
    {
        Outline::start(self.indirect(id))
    }

    /// Start writing an outline item.
    pub fn outline_item(&mut self, id: Ref) -> (r: OutlineItem<'_>)
        ensures
            dict_started(
                r.dict,
                old(self).spec_bytes() + indirect_header(id),
                true,
                0,
                old(self).spec_settings(),
                None,
                None,
            ),
            r.dict.buf.spec_limits() == dict_start_limits(
                old(self).spec_buf().spec_limits().with_int(id.id()),
                None,
                None,
            ),
            final(self).spec_buf() == *final(r.dict.buf),
            final(self).spec_offsets() == old(self).spec_offsets().push(
                (id, old(self).spec_bytes().len() as usize),
            ),
            final(self).spec_settings() == old(self).spec_settings(),
    {
        OutlineItem::start(self.indirect(id))
    }

    /// Start writing a structure tree element.
    pub fn struct_element(&mut self, id: Ref) -> (r: StructElement<'_>)
        ensures
            dict_started(
                r.dict,
                old(self).spec_bytes() + indirect_header(id),
                true,
                0,
                old(self).spec_settings(),
                Some("StructElem".spec_bytes()),
                None,
            ),
            r.dict.buf.spec_limits() == dict_start_limits(
                old(self).spec_buf().spec_limits().with_int(id.id()),
                Some("StructElem".spec_bytes()),
                None,
            ),
            final(self).spec_buf() == *final(r.dict.buf),
            final(self).spec_offsets() == old(self).spec_offsets().push(
                (id, old(self).spec_bytes().len() as usize),
            ),
            final(self).spec_settings() == old(self).spec_settings(),
    {
        StructElement::start(self.indirect(id))
    }

    /// Start writing a file specification dictionary.
    pub fn file_spec(&mut self, id: Ref) -> (r: FileSpec<'_>)
        ensures
            dict_started(
                r.dict,
                old(self).spec_bytes() + indirect_header(id),
                true,
                0,
                old(self).spec_settings(),
                Some("Filespec".spec_bytes()),
                None,
            ),
            r.dict.buf.spec_limits() == dict_start_limits(
                old(self).spec_buf().spec_limits().with_int(id.id()),
                Some("Filespec".spec_bytes()),
                None,
            ),
            final(self).spec_buf() == *final(r.dict.buf),
            final(self).spec_offsets() == old(self).spec_offsets().push(
                (id, old(self).spec_bytes().len() as usize),
            ),
            final(self).spec_settings() == old(self).spec_settings(),
    {
        FileSpec::start(self.indirect(id))
    }

    /// Start writing an external graphics state dictionary.
    pub fn ext_graphics(&mut self, id: Ref) -> (r: ExtGraphicsState<'_>)
        ensures
            dict_started(
                r.dict,
                old(self).spec_bytes() + indirect_header(id),
                true,
                0,
                old(self).spec_settings(),
                Some("ExtGState".spec_bytes()),
                None,
            ),
            r.dict.buf.spec_limits() == dict_start_limits(
                old(self).spec_buf().spec_limits().with_int(id.id()),
                Some("ExtGState".spec_bytes()),
                None,
            ),
            final(self).spec_buf() == *final(r.dict.buf),
            final(self).spec_offsets() == old(self).spec_offsets().push(
                (id, old(self).spec_bytes().len() as usize),
            ),
            final(self).spec_settings() == old(self).spec_settings(),
    {
        ExtGraphicsState::start(self.indirect(id))
    }

    /// Start writing a Type-1 font.
    pub fn type1_font(&mut self, id: Ref) -> (r: Type1Font<'_>)
        ensures
            dict_started(
                r.dict,
                old(self).spec_bytes() + indirect_header(id),
                true,
                0,
                old(self).spec_settings(),
                Some("Font".spec_bytes()),
                Some("Type1".spec_bytes()),
            ),
            r.dict.buf.spec_limits() == dict_start_limits(
                old(self).spec_buf().spec_limits().with_int(id.id()),
                Some("Font".spec_bytes()),
                Some("Type1".spec_bytes()),
            ),
            final(self).spec_buf() == *final(r.dict.buf),
            final(self).spec_offsets() == old(self).spec_offsets().push(
                (id, old(self).spec_bytes().len() as usize),
            ),
            final(self).spec_settings() == old(self).spec_settings(),
    {
        Type1Font::start(self.indirect(id))
    }

    /// Start writing a Type-3 font.
    pub fn type3_font(&mut self, id: Ref) -> (r: Type3Font<'_>)
        ensures
            dict_started(
                r.dict,
                old(self).spec_bytes() + indirect_header(id),
                true,
                0,
                old(self).spec_settings(),
                Some("Font".spec_bytes()),
                Some("Type3".spec_bytes()),
            ),
            r.dict.buf.spec_limits() == dict_start_limits(
                old(self).spec_buf().spec_limits().with_int(id.id()),
                Some("Font".spec_bytes()),
                Some("Type3".spec_bytes()),
            ),
            final(self).spec_buf() == *final(r.dict.buf),
            final(self).spec_offsets() == old(self).spec_offsets().push(
                (id, old(self).spec_bytes().len() as usize),
            ),
            final(self).spec_settings() == old(self).spec_settings(),
    {
        Type3Font::start(self.indirect(id))
    }

    /// Start writing a Type-0 font.
    pub fn type0_font(&mut self, id: Ref) -> (r: Type0Font<'_>)
        ensures
            dict_started(
                r.dict,
                old(self).spec_bytes() + indirect_header(id),
                true,
                0,
                old(self).spec_settings(),
                Some("Font".spec_bytes()),
                Some("Type0".spec_bytes()),
            ),
            r.dict.buf.spec_limits() == dict_start_limits(
                old(self).spec_buf().spec_limits().with_int(id.id()),
                Some("Font".spec_bytes()),
                Some("Type0".spec_bytes()),
            ),
            final(self).spec_buf() == *final(r.dict.buf),
            final(self).spec_offsets() == old(self).spec_offsets().push(
                (id, old(self).spec_bytes().len() as usize),
            ),
            final(self).spec_settings() == old(self).spec_settings(),
    {
        Type0Font::start(self.indirect(id))
    }

    /// Start writing a CID font.
    pub fn cid_font(&mut self, id: Ref) -> (r: CidFont<'_>)
        ensures
            dict_started(
                r.dict,
                old(self).spec_bytes() + indirect_header(id),
                true,
                0,
                old(self).spec_settings(),
                Some("Font".spec_bytes()),
                None,
            ),
            r.dict.buf.spec_limits() == dict_start_limits(
                old(self).spec_buf().spec_limits().with_int(id.id()),
                Some("Font".spec_bytes()),
                None,
            ),
            final(self).spec_buf() == *final(r.dict.buf),
            final(self).spec_offsets() == old(self).spec_offsets().push(
                (id, old(self).spec_bytes().len() as usize),
            ),
            final(self).spec_settings() == old(self).spec_settings(),
    {
        CidFont::start(self.indirect(id))
    }

    /// Start writing a font descriptor.
    pub fn font_descriptor(&mut self, id: Ref) -> (r: FontDescriptor<'_>)
        ensures
            dict_started(
                r.dict,
                old(self).spec_bytes() + indirect_header(id),
                true,
                0,
                old(self).spec_settings(),
                Some("FontDescriptor".spec_bytes()),
                None,
            ),
            r.dict.buf.spec_limits() == dict_start_limits(
                old(self).spec_buf().spec_limits().with_int(id.id()),
                Some("FontDescriptor".spec_bytes()),
                None,
            ),
            final(self).spec_buf() == *final(r.dict.buf),
            final(self).spec_offsets() == old(self).spec_offsets().push(
                (id, old(self).spec_bytes().len() as usize),
            ),
            final(self).spec_settings() == old(self).spec_settings(),
    {
        FontDescriptor::start(self.indirect(id))
    }

    /// Start writing an annotation dictionary.
    pub fn annotation(&mut self, id: Ref) -> (r: Annotation<'_>)
        ensures
            dict_started(
                r.dict,
                old(self).spec_bytes() + indirect_header(id),
                true,
                0,
                old(self).spec_settings(),
                Some("Annot".spec_bytes()),
                None,
            ),
            r.dict.buf.spec_limits() == dict_start_limits(
                old(self).spec_buf().spec_limits().with_int(id.id()),
                Some("Annot".spec_bytes()),
                None,
            ),
            final(self).spec_buf() == *final(r.dict.buf),
            final(self).spec_offsets() == old(self).spec_offsets().push(
                (id, old(self).spec_bytes().len() as usize),
            ),
            final(self).spec_settings() == old(self).spec_settings(),
    {
        Annotation::start(self.indirect(id))
    }

    /// Start writing a form field dictionary.
    pub fn form_field(&mut self, id: Ref) -> (r: Field<'_>)
        ensures
            dict_started(
                r.dict,
                old(self).spec_bytes() + indirect_header(id),
                true,
                0,
                old(self).spec_settings(),
                None,
                None,
            ),
            r.dict.buf.spec_limits() == dict_start_limits(
                old(self).spec_buf().spec_limits().with_int(id.id()),
                None,
                None,
            ),
            final(self).spec_buf() == *final(r.dict.buf),
            final(self).spec_offsets() == old(self).spec_offsets().push(
                (id, old(self).spec_bytes().len() as usize),
            ),
            final(self).spec_settings() == old(self).spec_settings(),
    {
        Field::start(self.indirect(id))
    }
}

} // verus!
