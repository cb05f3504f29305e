use vstd::prelude::*;
use vstd::string::*;

use crate::object::{
    dict_start_limits,
    dict_items_appended,
    Primitive,
    Real, Rect, all_writable,
    array_started,
    Date, Dict, LBRACKET, Name, NameTree, NumberTree, Obj, Ref, Str, Stream, TextStr, TextStrLike, TypedArray, dict_close_bytes, dict_grown, dict_items_entry_bytes, dict_key_bytes, dict_name_pair_appended, dict_pair_appended, dict_started, start_dict, stream_close_bytes, type_entries_bytes, type_stream, write_items_entry,
};
use crate::content::{RenderingIntent, Resources};
use crate::forms::{Form};
use crate::structure::{Metadata};
use crate::files::{FileSpec};
use crate::structure::{Page};
use crate::color::ColorSpace;

verus! {

/// What to do with in-data mask information in `JPXDecode` images.
pub enum SMaskInData {
    /// Discard the mask data.
    Ignore,
    /// Use the mask data.
    Use,
    /// Use the mask data on the image whose backdrop has been pre-blended with
    /// a matte color.
    Preblended,
}

impl SMaskInData {
    /// The number under which the value is written.
    pub open spec fn spec_int(self) -> i32 {
        match self {
            Self::Ignore => 0,
            Self::Use => 1,
            Self::Preblended => 2,
        }
    }

    pub(crate) fn to_int(&self) -> (r: i32)
        ensures
            r == self.spec_int(),
    {
        match self {
            Self::Ignore => 0,
            Self::Use => 1,
            Self::Preblended => 2,
        }
    }
}


impl Group<'_> {
    /// Start writing the `/CS` attribute to set the color space.
    ///
    /// This is optional for isolated groups and required for groups where the
    /// color space cannot be derived from the parent.
    ///
    /// Required in PDF/A-2 through PDF/A-4 if there is no OutputIntent.
    pub fn color_space(&mut self) -> (r: ColorSpace<'_>)
        requires
            0 <= old(self).dict.len < i32::MAX,
        ensures
            r.obj.buf@ == old(self).dict.buf@ + dict_key_bytes(
                old(self).dict.settings.pretty,
                old(self).dict.indent as int,
                "CS".spec_bytes(),
            ),
            r.obj.needs_padding == !old(self).dict.settings.pretty,
            r.obj.indirect == false,
            r.obj.indent == old(self).dict.indent,
            r.obj.settings == old(self).dict.settings,
            final(self).dict.len == old(self).dict.len + 1,
            final(self).dict.indirect == old(self).dict.indirect,
            final(self).dict.indent == old(self).dict.indent,
            final(self).dict.settings == old(self).dict.settings,
            *final(self).dict.buf == *final(r.obj.buf),
            *final(final(self).dict.buf) == *final(old(self).dict.buf),
    {
        ColorSpace::start(self.dict.insert(Name("CS".as_bytes())))
    }
}

impl ImageXObject<'_> {
    /// Start writing the `/ColorSpace` attribute.
    ///
    /// Required for all images except if using the `JPXDecode` filter.
    /// If this is an image soft mask, the color space must be `DeviceGray`.
    /// Must not be `Pattern`.
    pub fn color_space(&mut self) -> (r: ColorSpace<'_>)
        requires
            0 <= old(self).stream.dict.len < i32::MAX,
        ensures
            r.obj.buf@ == old(self).stream.dict.buf@ + dict_key_bytes(
                old(self).stream.dict.settings.pretty,
                old(self).stream.dict.indent as int,
                "ColorSpace".spec_bytes(),
            ),
            r.obj.needs_padding == !old(self).stream.dict.settings.pretty,
            r.obj.indirect == false,
            r.obj.indent == old(self).stream.dict.indent,
            r.obj.settings == old(self).stream.dict.settings,
            final(self).stream.dict.len == old(self).stream.dict.len + 1,
            final(self).stream.dict.indirect == old(self).stream.dict.indirect,
            final(self).stream.dict.indent == old(self).stream.dict.indent,
            final(self).stream.dict.settings == old(self).stream.dict.settings,
            final(self).stream.data == old(self).stream.data,
            *final(self).stream.dict.buf == *final(r.obj.buf),
            *final(final(self).stream.dict.buf) == *final(old(self).stream.dict.buf),
    {
        ColorSpace::start(self.stream.insert(Name("ColorSpace".as_bytes())))
    }
}

impl ImageXObject<'_> {
    /// Start writing the `/AF` array to specify the associated files of the
    /// image. PDF 2.0+ or PDF/A-3.
    pub fn associated_files(&mut self) -> (r: TypedArray<'_, FileSpec<'_>>)
        requires
            0 <= old(self).stream.dict.len < i32::MAX,
        ensures
            array_started(
                r.array,
                old(self).stream.dict.buf@ + dict_key_bytes(
                    old(self).stream.dict.settings.pretty,
                    old(self).stream.dict.indent as int,
                    "AF".spec_bytes(),
                ),
                false,
                old(self).stream.dict.indent,
                old(self).stream.dict.settings,
            ),
            final(self).stream.dict.len == old(self).stream.dict.len + 1,
            final(self).stream.dict.indirect == old(self).stream.dict.indirect,
            final(self).stream.dict.indent == old(self).stream.dict.indent,
            final(self).stream.dict.settings == old(self).stream.dict.settings,
            final(self).stream.data == old(self).stream.data,
            *final(self).stream.dict.buf == *final(r.array.buf),
            *final(final(self).stream.dict.buf) == *final(old(self).stream.dict.buf),
            r.array.buf.spec_limits() == old(self).stream.dict.buf.spec_limits().with_name_len("AF".spec_bytes().len() as int),
    {
        self.stream.insert(Name("AF".as_bytes())).array().typed()
    }
}

impl FormXObject<'_> {
    /// Start writing the `/AF` array to specify the associated files of the
    /// form. PDF 2.0+ or PDF/A-3.
    pub fn associated_files(&mut self) -> (r: TypedArray<'_, FileSpec<'_>>)
        requires
            0 <= old(self).stream.dict.len < i32::MAX,
        ensures
            array_started(
                r.array,
                old(self).stream.dict.buf@ + dict_key_bytes(
                    old(self).stream.dict.settings.pretty,
                    old(self).stream.dict.indent as int,
                    "AF".spec_bytes(),
                ),
                false,
                old(self).stream.dict.indent,
                old(self).stream.dict.settings,
            ),
            final(self).stream.dict.len == old(self).stream.dict.len + 1,
            final(self).stream.dict.indirect == old(self).stream.dict.indirect,
            final(self).stream.dict.indent == old(self).stream.dict.indent,
            final(self).stream.dict.settings == old(self).stream.dict.settings,
            final(self).stream.data == old(self).stream.data,
            *final(self).stream.dict.buf == *final(r.array.buf),
            *final(final(self).stream.dict.buf) == *final(old(self).stream.dict.buf),
            r.array.buf.spec_limits() == old(self).stream.dict.buf.spec_limits().with_name_len("AF".spec_bytes().len() as int),
    {
        self.stream.insert(Name("AF".as_bytes())).array().typed()
    }
}

/// Attributes with real-number values.
impl ImageXObject<'_> {
    /// Write the `/Decode` attribute to set the decoding of the image sample
    /// colors to the specified color space. Must have twice the amount of
    /// elements as the color space.
    pub fn decode(&mut self, decode: &[Real]) -> (r: &mut Self)
        requires
            0 <= old(self).stream.dict.len < i32::MAX,
            decode@.len() <= i32::MAX,
            all_writable(decode@),
        ensures
            dict_items_appended(old(self).stream.dict, r.stream.dict, "Decode".spec_bytes(), decode@),
            r.stream.data == old(self).stream.data,
            *final(r.stream.dict.buf) == *final(old(self).stream.dict.buf),
            *final(self) == *final(r),
    {
        write_items_entry(&mut self.stream.dict, Name("Decode".as_bytes()), decode);
        self
    }

    /// Write the `/Matte` attribute for image soft masks. PDF 1.4+.
    ///
    /// This shall be the matte color of the parent image encoded in its color
    /// space.
    pub fn matte(&mut self, color: &[Real]) -> (r: &mut Self)
        requires
            0 <= old(self).stream.dict.len < i32::MAX,
            color@.len() <= i32::MAX,
            all_writable(color@),
        ensures
            dict_items_appended(old(self).stream.dict, r.stream.dict, "Matte".spec_bytes(), color@),
            r.stream.data == old(self).stream.data,
            *final(r.stream.dict.buf) == *final(old(self).stream.dict.buf),
            *final(self) == *final(r),
    {
        write_items_entry(&mut self.stream.dict, Name("Matte".as_bytes()), color);
        self
    }
}

/// Attributes with real-number values.
impl FormXObject<'_> {
    /// Write the `/BBox` attribute. Required.
    ///
    /// This clips the form xobject to coordinates in its coordinate system.
    pub fn bbox(&mut self, bbox: Rect) -> (r: &mut Self)
        requires
            0 <= old(self).stream.dict.len < i32::MAX,
            bbox.spec_writable(),
        ensures
            dict_pair_appended(old(self).stream.dict, r.stream.dict, "BBox".spec_bytes(), bbox),
            r.stream.data == old(self).stream.data,
            *final(r.stream.dict.buf) == *final(old(self).stream.dict.buf),
            *final(self) == *final(r),
    {
        self.stream.dict.pair(Name("BBox".as_bytes()), bbox);
        self
    }

    /// Write the `/Matrix` attribute to map form space to user space.
    pub fn matrix(&mut self, matrix: [Real; 6]) -> (r: &mut Self)
        requires
            0 <= old(self).stream.dict.len < i32::MAX,
            all_writable(matrix@),
        ensures
            dict_items_appended(old(self).stream.dict, r.stream.dict, "Matrix".spec_bytes(), matrix@),
            r.stream.data == old(self).stream.data,
            *final(r.stream.dict.buf) == *final(old(self).stream.dict.buf),
            *final(self) == *final(r),
    {
        write_items_entry(&mut self.stream.dict, Name("Matrix".as_bytes()), matrix.as_slice());
        self
    }
}

impl ImageXObject<'_> {
    /// Write the `/Mask` attribute to set a color key mask. The iterator shall
    /// be a list of `[min, max]` pairs of color values.
    pub fn color_mask(&mut self, colors: &[i32]) -> (r: &mut Self)
        requires
            0 <= old(self).stream.dict.len < i32::MAX,
            colors@.len() <= i32::MAX,
            all_writable(colors@),
        ensures
            dict_items_appended(old(self).stream.dict, r.stream.dict, "Mask".spec_bytes(), colors@),
            r.stream.data == old(self).stream.data,
            *final(r.stream.dict.buf) == *final(old(self).stream.dict.buf),
            *final(self) == *final(r),
    {
        write_items_entry(&mut self.stream.dict, Name("Mask".as_bytes()), colors);
        self
    }
}

impl Reference<'_> {
    /// Write the `/ID` attribute to set the file identifier.
    pub fn id(&mut self, id: [Str; 2]) -> (r: &mut Self)
        requires
            0 <= old(self).dict.len < i32::MAX,
        ensures
            dict_items_appended(old(self).dict, r.dict, "ID".spec_bytes(), id@),
            *final(r.dict.buf) == *final(old(self).dict.buf),
            *final(self) == *final(r),
    {
        assert(all_writable(id@));
        write_items_entry(&mut self.dict, Name("ID".as_bytes()), id.as_slice());
        self
    }
}

// ---------------------------------------------------------------------------
// Writers.
// ---------------------------------------------------------------------------

/// Writer for a _group XObject dictionary_. PDF 1.4+.
///
/// This struct is created by [`FormXObject::group`] and [`Page::group`].
pub struct Group<'a> {
    /// The underlying dictionary.
    pub dict: Dict<'a>,
}

impl<'a> Group<'a> {
    /// Start writing the dictionary on an object.
    pub(crate) fn start(obj: Obj<'a>) -> (r: Self)
        ensures
            dict_started(
                r.dict,
                old(obj.buf)@,
                obj.indirect,
                obj.indent,
                obj.settings,
                Some("Group".spec_bytes()),
                None,
            ),
            r.dict.buf.spec_limits() == dict_start_limits(old(obj.buf).spec_limits(), Some("Group".spec_bytes()), None),
            *final(r.dict.buf) == *final(obj.buf),
    {
        Self { dict: start_dict(obj, Some("Group"), None) }
    }

    /// Set the `/S` attribute to `/Transparency`. Required to set the remaining
    /// transparency parameters.
    pub fn transparency(&mut self) -> (r: &mut Self)
        requires
            0 <= old(self).dict.len < i32::MAX,
        ensures
            dict_name_pair_appended(old(self).dict, r.dict, "S".spec_bytes(), "Transparency".spec_bytes()),
            *final(r.dict.buf) == *final(old(self).dict.buf),
            *final(self) == *final(r),
    {
        self.dict.pair(Name("S".as_bytes()), Name("Transparency".as_bytes()));
        self
    }

    /// Set the `/I` attribute to indicate whether the group is isolated.
    ///
    /// If it is true, the group will initially be composited against a clear
    /// backdrop. If it is false, the group will be composited against the
    /// backdrop of the parent group.
    pub fn isolated(&mut self, isolated: bool) -> (r: &mut Self)
        requires
            0 <= old(self).dict.len < i32::MAX,
        ensures
            dict_pair_appended(old(self).dict, r.dict, "I".spec_bytes(), isolated),
            *final(r.dict.buf) == *final(old(self).dict.buf),
            *final(self) == *final(r),
    {
        self.dict.pair(Name("I".as_bytes()), isolated);
        self
    }

    /// Set the `/K` attribute to indicate whether the group is a knockout
    /// group.
    ///
    /// Within a knockout group, the group children are all composited
    /// separately against the backdrop instead of on top of each other.
    pub fn knockout(&mut self, knockout: bool) -> (r: &mut Self)
        requires
            0 <= old(self).dict.len < i32::MAX,
        ensures
            dict_pair_appended(old(self).dict, r.dict, "K".spec_bytes(), knockout),
            *final(r.dict.buf) == *final(old(self).dict.buf),
            *final(self) == *final(r),
    {
        self.dict.pair(Name("K".as_bytes()), knockout);
        self
    }

    /// Finish writing the dictionary.
    pub fn finish(self)
        requires
            self.dict.len >= 0,
            self.dict.indent >= 2,
        ensures
            final(self.dict.buf)@ == old(self.dict.buf)@ + dict_close_bytes(
                self.dict.len as int,
                self.dict.settings.pretty,
                self.dict.indent as int,
                self.dict.indirect,
            ),
            final(self.dict.buf).spec_limits() == old(self.dict.buf).spec_limits().with_dict_entries(self.dict.len as int),
    {
        self.dict.finish();
    }
}

/// Writer for an _external XObject reference dictionary_. PDF 1.4+.
///
/// This struct is created by [`FormXObject::reference`].
///
/// Reference XObjects are forbidden in PDF/A.
pub struct Reference<'a> {
    /// The underlying dictionary.
    pub dict: Dict<'a>,
}

impl<'a> Reference<'a> {
    /// Start writing the dictionary on an object.
    pub(crate) fn start(obj: Obj<'a>) -> (r: Self)
        ensures
            dict_started(
                r.dict,
                old(obj.buf)@,
                obj.indirect,
                obj.indent,
                obj.settings,
                None,
                None,
            ),
            r.dict.buf.spec_limits() == dict_start_limits(old(obj.buf).spec_limits(), None, None),
            *final(r.dict.buf) == *final(obj.buf),
    {
        Self { dict: start_dict(obj, None, None) }
    }

    /// Start writing the `/F` attribute to set a file specification dictionary.
    /// Required.
    pub fn file_spec(&mut self) -> (r: FileSpec<'_>)
        requires
            0 <= old(self).dict.len < i32::MAX,
        ensures
            dict_started(
                r.dict,
                old(self).dict.buf@ + dict_key_bytes(
                    old(self).dict.settings.pretty,
                    old(self).dict.indent as int,
                    "F".spec_bytes(),
                ),
                false,
                old(self).dict.indent,
                old(self).dict.settings,
                Some("Filespec".spec_bytes()),
                None,
            ),
            r.dict.buf.spec_limits() == dict_start_limits(
                old(self).dict.buf.spec_limits().with_name_len("F".spec_bytes().len() as int),
                Some("Filespec".spec_bytes()),
                None,
            ),
            final(self).dict.len == old(self).dict.len + 1,
            final(self).dict.indirect == old(self).dict.indirect,
            final(self).dict.indent == old(self).dict.indent,
            final(self).dict.settings == old(self).dict.settings,
            *final(self).dict.buf == *final(r.dict.buf),
            *final(final(self).dict.buf) == *final(old(self).dict.buf),
    {
        FileSpec::start(self.dict.insert(Name("F".as_bytes())))
    }

    /// Write the `/Page` attribute to set the page number. Setting the
    /// attribute through either this function or [`Self::page_label`] is
    /// required. Page indices start at 0.
    pub fn page_number(&mut self, page: i32) -> (r: &mut Self)
        requires
            0 <= old(self).dict.len < i32::MAX,
            page != i32::MIN,
        ensures
            dict_pair_appended(old(self).dict, r.dict, "Page".spec_bytes(), page),
            *final(r.dict.buf) == *final(old(self).dict.buf),
            *final(self) == *final(r),
    {
        self.dict.pair(Name("Page".as_bytes()), page);
        self
    }

    /// Write the `/Page` attribute to set the page label. Setting the attribute
    /// through either this function or [`Self::page_number`] is required.
    pub fn page_label(&mut self, label: TextStr) -> (r: &mut Self)
        requires
            0 <= old(self).dict.len < i32::MAX,
        ensures
            dict_pair_appended(old(self).dict, r.dict, "Page".spec_bytes(), label),
            *final(r.dict.buf) == *final(old(self).dict.buf),
            *final(self) == *final(r),
    {
        self.dict.pair(Name("Page".as_bytes()), label);
        self
    }

    /// Finish writing the dictionary.
    pub fn finish(self)
        requires
            self.dict.len >= 0,
            self.dict.indent >= 2,
        ensures
            final(self.dict.buf)@ == old(self.dict.buf)@ + dict_close_bytes(
                self.dict.len as int,
                self.dict.settings.pretty,
                self.dict.indent as int,
                self.dict.indirect,
            ),
            final(self.dict.buf).spec_limits() == old(self.dict.buf).spec_limits().with_dict_entries(self.dict.len as int),
    {
        self.dict.finish();
    }
}

/// Writer for an _image XObject stream_.
///
/// This struct is created by [`Chunk::image_xobject`].
pub struct ImageXObject<'a> {
    /// The underlying stream.
    pub stream: Stream<'a>,
}

impl<'a> ImageXObject<'a> {
    /// Start writing the stream's dictionary entries.
    pub(crate) fn start(stream: Stream<'a>) -> (r: Self)
        requires
            0 <= stream.dict.len < i32::MAX - 2,
        ensures
            r.stream.dict.buf@ == old(stream.dict.buf)@ + type_entries_bytes(
                old(stream.dict.buf)@,
                stream.dict.settings.pretty,
                stream.dict.indent as int,
                Some("XObject".spec_bytes()),
                Some("Image".spec_bytes()),
            ),
            r.stream.dict.len == stream.dict.len + 2,
            r.stream.dict.indirect == stream.dict.indirect,
            r.stream.dict.indent == stream.dict.indent,
            r.stream.dict.settings == stream.dict.settings,
            r.stream.data == stream.data,
            *final(r.stream.dict.buf) == *final(stream.dict.buf),
            r.stream.dict.buf.spec_limits() == dict_start_limits(
                old(stream.dict.buf).spec_limits(),
                Some("XObject".spec_bytes()),
                Some("Image".spec_bytes()),
            ),
    {
        Self { stream: type_stream(stream, Some("XObject"), Some("Image")) }
    }

    /// Write the `/Width` attribute.
    pub fn width(&mut self, width: i32) -> (r: &mut Self)
        requires
            0 <= old(self).stream.dict.len < i32::MAX,
            width != i32::MIN,
        ensures
            dict_pair_appended(old(self).stream.dict, r.stream.dict, "Width".spec_bytes(), width),
            r.stream.data == old(self).stream.data,
            *final(r.stream.dict.buf) == *final(old(self).stream.dict.buf),
            *final(self) == *final(r),
    {
        self.stream.dict.pair(Name("Width".as_bytes()), width);
        self
    }

    /// Write the `/Height` attribute.
    pub fn height(&mut self, height: i32) -> (r: &mut Self)
        requires
            0 <= old(self).stream.dict.len < i32::MAX,
            height != i32::MIN,
        ensures
            dict_pair_appended(old(self).stream.dict, r.stream.dict, "Height".spec_bytes(), height),
            r.stream.data == old(self).stream.data,
            *final(r.stream.dict.buf) == *final(old(self).stream.dict.buf),
            *final(self) == *final(r),
    {
        self.stream.dict.pair(Name("Height".as_bytes()), height);
        self
    }

    /// Write the `/ColorSpace` attribute as a name from the resource dictionary.
    ///
    /// Required for all images except if using the `JPXDecode` filter.
    /// If this is an image soft mask, the color space must be `DeviceGray`.
    /// Must not be `Pattern`.
    pub fn color_space_name(&mut self, name: Name) -> (r: &mut Self)
        requires
            0 <= old(self).stream.dict.len < i32::MAX,
        ensures
            dict_pair_appended(old(self).stream.dict, r.stream.dict, "ColorSpace".spec_bytes(), name),
            r.stream.data == old(self).stream.data,
            *final(r.stream.dict.buf) == *final(old(self).stream.dict.buf),
            *final(self) == *final(r),
    {
        self.stream.dict.pair(Name("ColorSpace".as_bytes()), name);
        self
    }

    /// Write the `/BitsPerComponent` attribute. Required.
    ///
    /// Required for all images except if using the `JPXDecode` filter.
    pub fn bits_per_component(&mut self, bits: i32) -> (r: &mut Self)
        requires
            0 <= old(self).stream.dict.len < i32::MAX,
            bits != i32::MIN,
        ensures
            dict_pair_appended(old(self).stream.dict, r.stream.dict, "BitsPerComponent".spec_bytes(), bits),
            r.stream.data == old(self).stream.data,
            *final(r.stream.dict.buf) == *final(old(self).stream.dict.buf),
            *final(self) == *final(r),
    {
        self.stream.dict.pair(Name("BitsPerComponent".as_bytes()), bits);
        self
    }

    /// Write the `/Intent` attribute. PDF 1.1+.
    pub fn intent(&mut self, intent: RenderingIntent) -> (r: &mut Self)
        requires
            0 <= old(self).stream.dict.len < i32::MAX,
        ensures
            dict_name_pair_appended(old(self).stream.dict, r.stream.dict, "Intent".spec_bytes(), intent.spec_name()),
            r.stream.data == old(self).stream.data,
            *final(r.stream.dict.buf) == *final(old(self).stream.dict.buf),
            *final(self) == *final(r),
    {
        self.stream.dict.pair(Name("Intent".as_bytes()), intent.to_name());
        self
    }

    /// Write the `/ImageMask` attribute to set whether this image is a clipping
    /// mask. If so, the `/BitsPerComponent` must be `1` and `/Mask` and
    /// `/ColorSpace` attributes shall be left undefined.
    pub fn image_mask(&mut self, mask: bool) -> (r: &mut Self)
        requires
            0 <= old(self).stream.dict.len < i32::MAX,
        ensures
            dict_pair_appended(old(self).stream.dict, r.stream.dict, "ImageMask".spec_bytes(), mask),
            r.stream.data == old(self).stream.data,
            *final(r.stream.dict.buf) == *final(old(self).stream.dict.buf),
            *final(self) == *final(r),
    {
        self.stream.dict.pair(Name("ImageMask".as_bytes()), mask);
        self
    }

    /// Write the `/Mask` attribute to set another image as the stencil mask of
    /// this image.
    pub fn stencil_mask(&mut self, mask: Ref) -> (r: &mut Self)
        requires
            0 <= old(self).stream.dict.len < i32::MAX,
        ensures
            dict_pair_appended(old(self).stream.dict, r.stream.dict, "Mask".spec_bytes(), mask),
            r.stream.data == old(self).stream.data,
            *final(r.stream.dict.buf) == *final(old(self).stream.dict.buf),
            *final(self) == *final(r),
    {
        self.stream.dict.pair(Name("Mask".as_bytes()), mask);
        self
    }

    /// Write the `/Interpolate` attribute.
    ///
    /// Must be false or unset for PDF/A files.
    pub fn interpolate(&mut self, interpolate: bool) -> (r: &mut Self)
        requires
            0 <= old(self).stream.dict.len < i32::MAX,
        ensures
            dict_pair_appended(old(self).stream.dict, r.stream.dict, "Interpolate".spec_bytes(), interpolate),
            r.stream.data == old(self).stream.data,
            *final(r.stream.dict.buf) == *final(old(self).stream.dict.buf),
            *final(self) == *final(r),
    {
        self.stream.dict.pair(Name("Interpolate".as_bytes()), interpolate);
        self
    }

    /// Write the `/Alternates` attribute. PDF 1.3+.
    ///
    /// Images that may replace this image. The order is not relevant.
    ///
    /// Note that this key is forbidden in PDF/A.
    pub fn alternates(&mut self, alternates: &[Ref]) -> (r: &mut Self)
        requires
            0 <= old(self).stream.dict.len < i32::MAX,
            alternates@.len() <= i32::MAX,
        ensures
            dict_items_appended(old(self).stream.dict, r.stream.dict, "Alternates".spec_bytes(), alternates@),
            r.stream.data == old(self).stream.data,
            *final(r.stream.dict.buf) == *final(old(self).stream.dict.buf),
            *final(self) == *final(r),
    {
        write_items_entry(&mut self.stream.dict, Name("Alternates".as_bytes()), alternates);
        self
    }

    /// Start writing the `/SMask` attribute. PDF 1.4+.
    ///
    /// Must not be used if this image already is an image soft mask.
    ///
    /// Note that this key is forbidden in PDF/A-1.
    pub fn s_mask(&mut self, x_object: Ref) -> (r: &mut Self)
        requires
            0 <= old(self).stream.dict.len < i32::MAX,
        ensures
            dict_pair_appended(old(self).stream.dict, r.stream.dict, "SMask".spec_bytes(), x_object),
            r.stream.data == old(self).stream.data,
            *final(r.stream.dict.buf) == *final(old(self).stream.dict.buf),
            *final(self) == *final(r),
    {
        self.stream.dict.pair(Name("SMask".as_bytes()), x_object);
        self
    }

    /// Write the `/SMaskInData` attribute. PDF 1.5+.
    ///
    /// May only be used for images that use the `JPXDecode` filter. If set to
    /// something other than `Ignore`, the `SMask` attribute must not be used.
    pub fn s_mask_in_data(&mut self, mode: SMaskInData) -> (r: &mut Self)
        requires
            0 <= old(self).stream.dict.len < i32::MAX,
        ensures
            dict_pair_appended(old(self).stream.dict, r.stream.dict, "SMaskInData".spec_bytes(), mode.spec_int()),
            r.stream.data == old(self).stream.data,
            *final(r.stream.dict.buf) == *final(old(self).stream.dict.buf),
            *final(self) == *final(r),
    {
        self.stream.dict.pair(Name("SMaskInData".as_bytes()), mode.to_int());
        self
    }

    /// Write the `/StructParent` attribute to indicate the [structure tree
    /// element][StructElement] this image belongs to. PDF 1.3+.
    pub fn struct_parent(&mut self, key: i32) -> (r: &mut Self)
        requires
            0 <= old(self).stream.dict.len < i32::MAX,
            key != i32::MIN,
        ensures
            dict_pair_appended(old(self).stream.dict, r.stream.dict, "StructParent".spec_bytes(), key),
            r.stream.data == old(self).stream.data,
            *final(r.stream.dict.buf) == *final(old(self).stream.dict.buf),
            *final(self) == *final(r),
    {
        self.stream.dict.pair(Name("StructParent".as_bytes()), key);
        self
    }

    /// Write the `/Metadata` attribute to specify the image's metadata. PDF
    /// 1.4+.
    ///
    /// The reference shall point to a [metadata stream](Metadata).
    pub fn metadata(&mut self, id: Ref) -> (r: &mut Self)
        requires
            0 <= old(self).stream.dict.len < i32::MAX,
        ensures
            dict_pair_appended(old(self).stream.dict, r.stream.dict, "Metadata".spec_bytes(), id),
            r.stream.data == old(self).stream.data,
            *final(r.stream.dict.buf) == *final(old(self).stream.dict.buf),
            *final(self) == *final(r),
    {
        self.stream.dict.pair(Name("Metadata".as_bytes()), id);
        self
    }

    /// Finish the stream: close its dictionary, write its data and close the
    /// object.
    pub fn finish(self)
        requires
            self.stream.dict.len >= 0,
        ensures
            final(self.stream.dict.buf)@ == old(self.stream.dict.buf)@ + stream_close_bytes(
                self.stream.dict.settings.pretty,
                self.stream.data@,
            ),
            final(self.stream.dict.buf).spec_limits() == old(self.stream.dict.buf).spec_limits().with_dict_entries(self.stream.dict.len as int),
    {
        self.stream.finish();
    }
}

/// Writer for an _form XObject stream_. PDF 1.1+.
///
/// This struct is created by [`Chunk::form_xobject`].
///
/// Note that these have nothing to do with forms that have fields to fill out.
/// Rather, they are a way to encapsulate and reuse content across the file.
pub struct FormXObject<'a> {
    /// The underlying stream.
    pub stream: Stream<'a>,
}

impl<'a> FormXObject<'a> {
    /// Start writing the stream's dictionary entries.
    pub(crate) fn start(stream: Stream<'a>) -> (r: Self)
        requires
            0 <= stream.dict.len < i32::MAX - 2,
        ensures
            r.stream.dict.buf@ == old(stream.dict.buf)@ + type_entries_bytes(
                old(stream.dict.buf)@,
                stream.dict.settings.pretty,
                stream.dict.indent as int,
                Some("XObject".spec_bytes()),
                Some("Form".spec_bytes()),
            ),
            r.stream.dict.len == stream.dict.len + 2,
            r.stream.dict.indirect == stream.dict.indirect,
            r.stream.dict.indent == stream.dict.indent,
            r.stream.dict.settings == stream.dict.settings,
            r.stream.data == stream.data,
            *final(r.stream.dict.buf) == *final(stream.dict.buf),
            r.stream.dict.buf.spec_limits() == dict_start_limits(
                old(stream.dict.buf).spec_limits(),
                Some("XObject".spec_bytes()),
                Some("Form".spec_bytes()),
            ),
    {
        Self { stream: type_stream(stream, Some("XObject"), Some("Form")) }
    }

    /// Start writing the `/Resources` dictionary to specify the resources used
    /// by the XObject. This makes it independent of the parent content stream
    /// it is eventually invoked in. PDF 1.2+.
    pub fn resources(&mut self) -> (r: Resources<'_>)
        requires
            0 <= old(self).stream.dict.len < i32::MAX,
        ensures
            dict_started(
                r.dict,
                old(self).stream.dict.buf@ + dict_key_bytes(
                    old(self).stream.dict.settings.pretty,
                    old(self).stream.dict.indent as int,
                    "Resources".spec_bytes(),
                ),
                false,
                old(self).stream.dict.indent,
                old(self).stream.dict.settings,
                None,
                None,
            ),
            r.dict.buf.spec_limits() == dict_start_limits(
                old(self).stream.dict.buf.spec_limits().with_name_len("Resources".spec_bytes().len() as int),
                None,
                None,
            ),
            final(self).stream.dict.len == old(self).stream.dict.len + 1,
            final(self).stream.dict.indirect == old(self).stream.dict.indirect,
            final(self).stream.dict.indent == old(self).stream.dict.indent,
            final(self).stream.dict.settings == old(self).stream.dict.settings,
            final(self).stream.data == old(self).stream.data,
            *final(self).stream.dict.buf == *final(r.dict.buf),
            *final(final(self).stream.dict.buf) == *final(old(self).stream.dict.buf),
    {
        Resources::start(self.stream.dict.insert(Name("Resources".as_bytes())))
    }

    /// Start writing the `/Group` dictionary to set up transparency model
    /// parameters and let this XObject be known as a group. PDF 1.4+.
    pub fn group(&mut self) -> (r: Group<'_>)
        requires
            0 <= old(self).stream.dict.len < i32::MAX,
        ensures
            dict_started(
                r.dict,
                old(self).stream.dict.buf@ + dict_key_bytes(
                    old(self).stream.dict.settings.pretty,
                    old(self).stream.dict.indent as int,
                    "Group".spec_bytes(),
                ),
                false,
                old(self).stream.dict.indent,
                old(self).stream.dict.settings,
                Some("Group".spec_bytes()),
                None,
            ),
            r.dict.buf.spec_limits() == dict_start_limits(
                old(self).stream.dict.buf.spec_limits().with_name_len("Group".spec_bytes().len() as int),
                Some("Group".spec_bytes()),
                None,
            ),
            final(self).stream.dict.len == old(self).stream.dict.len + 1,
            final(self).stream.dict.indirect == old(self).stream.dict.indirect,
            final(self).stream.dict.indent == old(self).stream.dict.indent,
            final(self).stream.dict.settings == old(self).stream.dict.settings,
            final(self).stream.data == old(self).stream.data,
            *final(self).stream.dict.buf == *final(r.dict.buf),
            *final(final(self).stream.dict.buf) == *final(old(self).stream.dict.buf),
    {
        Group::start(self.stream.dict.insert(Name("Group".as_bytes())))
    }

    /// Write the `/StructParent` attribute to indicate the [structure tree
    /// element][StructElement] this XObject belongs to. Mutually exclusive with
    /// [`Self::struct_parents`]. PDF 1.3+.
    pub fn struct_parent(&mut self, key: i32) -> (r: &mut Self)
        requires
            0 <= old(self).stream.dict.len < i32::MAX,
            key != i32::MIN,
        ensures
            dict_pair_appended(old(self).stream.dict, r.stream.dict, "StructParent".spec_bytes(), key),
            r.stream.data == old(self).stream.data,
            *final(r.stream.dict.buf) == *final(old(self).stream.dict.buf),
            *final(self) == *final(r),
    {
        self.stream.dict.pair(Name("StructParent".as_bytes()), key);
        self
    }

    /// Write the `/StructParents` attribute to indicate the [structure tree
    /// elements][StructElement] the contents of this XObject may belong to.
    /// Mutually exclusive with [`Self::struct_parent`]. PDF 1.3+.
    pub fn struct_parents(&mut self, key: i32) -> (r: &mut Self)
        requires
            0 <= old(self).stream.dict.len < i32::MAX,
            key != i32::MIN,
        ensures
            dict_pair_appended(old(self).stream.dict, r.stream.dict, "StructParents".spec_bytes(), key),
            r.stream.data == old(self).stream.data,
            *final(r.stream.dict.buf) == *final(old(self).stream.dict.buf),
            *final(self) == *final(r),
    {
        self.stream.dict.pair(Name("StructParents".as_bytes()), key);
        self
    }

    /// Start writing the `/Ref` dictionary to identify the page from an
    /// external document that the XObject is a reference to. PDF 1.4+.
    ///
    /// Note that this key is forbidden in PDF/A.
    pub fn reference(&mut self) -> (r: Reference<'_>)
        requires
            0 <= old(self).stream.dict.len < i32::MAX,
        ensures
            dict_started(
                r.dict,
                old(self).stream.dict.buf@ + dict_key_bytes(
                    old(self).stream.dict.settings.pretty,
                    old(self).stream.dict.indent as int,
                    "Ref".spec_bytes(),
                ),
                false,
                old(self).stream.dict.indent,
                old(self).stream.dict.settings,
                None,
                None,
            ),
            r.dict.buf.spec_limits() == dict_start_limits(
                old(self).stream.dict.buf.spec_limits().with_name_len("Ref".spec_bytes().len() as int),
                None,
                None,
            ),
            final(self).stream.dict.len == old(self).stream.dict.len + 1,
            final(self).stream.dict.indirect == old(self).stream.dict.indirect,
            final(self).stream.dict.indent == old(self).stream.dict.indent,
            final(self).stream.dict.settings == old(self).stream.dict.settings,
            final(self).stream.data == old(self).stream.data,
            *final(self).stream.dict.buf == *final(r.dict.buf),
            *final(final(self).stream.dict.buf) == *final(old(self).stream.dict.buf),
    {
        Reference::start(self.stream.dict.insert(Name("Ref".as_bytes())))
    }

    /// Write the `/Metadata` attribute to specify the XObject's metadata. PDF
    /// 1.4+.
    ///
    /// The reference shall point to a [metadata stream](Metadata).
    pub fn metadata(&mut self, id: Ref) -> (r: &mut Self)
        requires
            0 <= old(self).stream.dict.len < i32::MAX,
        ensures
            dict_pair_appended(old(self).stream.dict, r.stream.dict, "Metadata".spec_bytes(), id),
            r.stream.data == old(self).stream.data,
            *final(r.stream.dict.buf) == *final(old(self).stream.dict.buf),
            *final(self) == *final(r),
    {
        self.stream.dict.pair(Name("Metadata".as_bytes()), id);
        self
    }

    /// Write the `/LastModified` attribute. PDF 1.3+.
    pub fn last_modified(&mut self, last_modified: Date) -> (r: &mut Self)
        requires
            0 <= old(self).stream.dict.len < i32::MAX,
        ensures
            dict_pair_appended(old(self).stream.dict, r.stream.dict, "LastModified".spec_bytes(), last_modified),
            r.stream.data == old(self).stream.data,
            *final(r.stream.dict.buf) == *final(old(self).stream.dict.buf),
            *final(self) == *final(r),
    {
        self.stream.dict.pair(Name("LastModified".as_bytes()), last_modified);
        self
    }

    /// Finish the stream: close its dictionary, write its data and close the
    /// object.
    pub fn finish(self)
        requires
            self.stream.dict.len >= 0,
        ensures
            final(self.stream.dict.buf)@ == old(self.stream.dict.buf)@ + stream_close_bytes(
                self.stream.dict.settings.pretty,
                self.stream.data@,
            ),
            final(self.stream.dict.buf).spec_limits() == old(self.stream.dict.buf).spec_limits().with_dict_entries(self.stream.dict.len as int),
    {
        self.stream.finish();
    }
}


/// The numbers under which the values of [`SMaskInData`] are written, as PDF
/// defines them.
pub proof fn lemma_s_mask_in_data_numbers()
    ensures
        SMaskInData::Ignore.spec_int() == 0,
        SMaskInData::Use.spec_int() == 1,
        SMaskInData::Preblended.spec_int() == 2,
{
}

} // verus!
