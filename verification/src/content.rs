use vstd::prelude::*;
use vstd::string::*;

use crate::buf::{decimal, Buf, LimitsView};
use crate::chunk::Settings;
use crate::object::{
    dict_start_limits,
    dict_items_appended,
    limits_after_all,
    array_tokens_bytes, push_token_item,
    Rect,
    Array, RBRACKET, array_item_bytes, array_separator, obj_end, primitive_enc_bytes, array_close_bytes, array_item_appended, array_items_bytes, array_started,
    Real, is_digit, negative_text, str_encoding,
    TypedDict, dict_tokens_entry_bytes, lemma_items_as_tokens, name_token, token,
    Date, Dict, LBRACKET, NEWLINE, Name, NameTree, NumberTree, Obj, Primitive, Ref, Str, Stream, TextStr, TextStrLike, TypedArray, all_writable, dict_close_bytes, dict_grown, dict_items_entry_bytes, dict_key_bytes, dict_name_pair_appended, dict_pair_appended, dict_started, name_encoding, start_dict, stream_close_bytes, type_entries_bytes, type_stream, write_items_entry,
};
use crate::color::{Shading};

verus! {

broadcast use crate::object::lemma_reals_keep_limits;

/// How to terminate lines.
#[derive(Debug, Copy, Clone, Eq, PartialEq, Hash)]
pub enum LineCapStyle {
    /// Square the line of at the endpoints of the path.
    ButtCap,
    /// Round the line off at its end with a semicircular arc as wide as the
    /// stroke.
    RoundCap,
    /// End the line with a square cap that protrudes by half the width of the
    /// stroke.
    ProjectingSquareCap,
}

impl LineCapStyle {
    /// The number under which the value is written.
    pub open spec fn spec_int(self) -> i32 {
        match self {
            Self::ButtCap => 0,
            Self::RoundCap => 1,
            Self::ProjectingSquareCap => 2,
        }
    }

    pub(crate) fn to_int(self) -> (r: i32)
        ensures
            r == self.spec_int(),
    {
        match self {
            Self::ButtCap => 0,
            Self::RoundCap => 1,
            Self::ProjectingSquareCap => 2,
        }
    }
}

/// How to join lines at corners.
#[derive(Debug, Copy, Clone, Eq, PartialEq, Hash)]
pub enum LineJoinStyle {
    /// Join the lines with a sharp corner where the outsides of the lines
    /// intersect.
    MiterJoin,
    /// Join the lines with a smooth circular segment.
    RoundJoin,
    /// End both lines with butt caps and join them with a triangle.
    BevelJoin,
}

impl LineJoinStyle {
    /// The number under which the value is written.
    pub open spec fn spec_int(self) -> i32 {
        match self {
            Self::MiterJoin => 0,
            Self::RoundJoin => 1,
            Self::BevelJoin => 2,
        }
    }

    pub(crate) fn to_int(self) -> (r: i32)
        ensures
            r == self.spec_int(),
    {
        match self {
            Self::MiterJoin => 0,
            Self::RoundJoin => 1,
            Self::BevelJoin => 2,
        }
    }
}

/// How the output device should aim to render colors.
#[derive(Debug, Copy, Clone, Eq, PartialEq, Hash)]
pub enum RenderingIntent {
    /// Only consider the light source, not the output's white point.
    AbsoluteColorimetric,
    /// Consider both the light source and the output's white point.
    RelativeColorimetric,
    /// Preserve saturation.
    Saturation,
    /// Preserve a pleasing visual appearance.
    Perceptual,
}

impl RenderingIntent {
    /// The name under which the value is written.
    pub open spec fn spec_name(self) -> Seq<u8> {
        match self {
            Self::AbsoluteColorimetric => "AbsoluteColorimetric".spec_bytes(),
            Self::RelativeColorimetric => "RelativeColorimetric".spec_bytes(),
            Self::Saturation => "Saturation".spec_bytes(),
            Self::Perceptual => "Perceptual".spec_bytes(),
        }
    }

    pub(crate) fn to_name(self) -> (r: Name<'static>)
        ensures
            r.0@ == self.spec_name(),
    {
        match self {
            Self::AbsoluteColorimetric => Name("AbsoluteColorimetric".as_bytes()),
            Self::RelativeColorimetric => Name("RelativeColorimetric".as_bytes()),
            Self::Saturation => Name("Saturation".as_bytes()),
            Self::Perceptual => Name("Perceptual".as_bytes()),
        }
    }
}

/// How to render text.
#[derive(Debug, Copy, Clone, Eq, PartialEq, Hash)]
pub enum TextRenderingMode {
    /// Just fill the text.
    Fill,
    /// Just stroke the text.
    Stroke,
    /// First fill and then stroke the text.
    FillStroke,
    /// Don't fill and don't stroke the text.
    Invisible,
    /// Fill the text, then apply the text outlines to the current clipping
    /// path.
    FillClip,
    /// Stroke the text, then apply the text outlines to the current clipping
    /// path.
    StrokeClip,
    /// First fill, then stroke the text and finally apply the text outlines to
    /// the current clipping path.
    FillStrokeClip,
    /// Apply the text outlines to the current clipping path.
    Clip,
}

impl TextRenderingMode {
    /// The number under which the value is written.
    pub open spec fn spec_int(self) -> i32 {
        match self {
            Self::Fill => 0,
            Self::Stroke => 1,
            Self::FillStroke => 2,
            Self::Invisible => 3,
            Self::FillClip => 4,
            Self::StrokeClip => 5,
            Self::FillStrokeClip => 6,
            Self::Clip => 7,
        }
    }

    pub(crate) fn to_int(self) -> (r: i32)
        ensures
            r == self.spec_int(),
    {
        match self {
            Self::Fill => 0,
            Self::Stroke => 1,
            Self::FillStroke => 2,
            Self::Invisible => 3,
            Self::FillClip => 4,
            Self::StrokeClip => 5,
            Self::FillStrokeClip => 6,
            Self::Clip => 7,
        }
    }
}

/// A color space operand to the [`CS`](Content::set_stroke_color_space) or
/// [`cs`](Content::set_fill_color_space) operator.
#[derive(Debug, Copy, Clone, Eq, PartialEq, Hash)]
pub enum ColorSpaceOperand<'a> {
    /// The predefined, parameterless gray device-dependent color space. Needs
    /// no further entries in the resource dictionary. This is not a normed
    /// color space, meaning the exact look depends on the device.
    ///
    /// Writing `cs` with this is equivalent to writing `g`.
    DeviceGray,
    /// The predefined, parameterless RGB device-dependent color space. Needs no
    /// further entries in the resource dictionary.
    ///
    /// Writing `cs` with this is equivalent to writing `rg`.
    DeviceRgb,
    /// The predefined, parameterless CMYK device-dependent color space. Needs
    /// no further entries in the resource dictionary.
    ///
    /// Writing `cs` with this is equivalent to writing `k`.
    DeviceCmyk,
    /// A pattern with color defined by the pattern itself.
    ///
    /// When writing a `cs` operation with this, you must also write an `scn`
    /// operation with a name pointing to an entry in the current resource
    /// dictionary's [pattern dictionary](Resources::patterns).
    Pattern,
    /// A named color space defined in the current resource dictionary's [color
    /// space dictionary](Resources::color_spaces).
    ///
    /// When this points to a pattern color space, You must also write an `scn`
    /// operation with a name pointing to an entry in the current resource
    /// dictionary's [pattern dictionary](Resources::patterns). The color will
    /// be taken from the `tint` passed to `SCN` and not the pattern itself.
    Named(Name<'a>),
}

impl<'a> ColorSpaceOperand<'a> {
    /// The name under which the value is written.
    pub open spec fn spec_name(self) -> Seq<u8> {
        match self {
            Self::DeviceGray => "DeviceGray".spec_bytes(),
            Self::DeviceRgb => "DeviceRGB".spec_bytes(),
            Self::DeviceCmyk => "DeviceCMYK".spec_bytes(),
            Self::Pattern => "Pattern".spec_bytes(),
            Self::Named(name) => name.0@,
        }
    }

    pub(crate) fn to_name(self) -> (r: Name<'a>)
        ensures
            r.0@ == self.spec_name(),
    {
        match self {
            Self::DeviceGray => Name("DeviceGray".as_bytes()),
            Self::DeviceRgb => Name("DeviceRGB".as_bytes()),
            Self::DeviceCmyk => Name("DeviceCMYK".as_bytes()),
            Self::Pattern => Name("Pattern".as_bytes()),
            Self::Named(name) => name,
        }
    }
}

/// The various types of layout artifacts.
#[derive(Debug, Copy, Clone, Eq, PartialEq)]
pub enum ArtifactType {
    /// Artifacts of the pagination process like headers, footers, page numbers.
    Pagination,
    /// Artifacts of the layout process such as footnote rules.
    Layout,
    /// Artifacts of the page, like printer's marks.
    Page,
    /// Background image artifacts. PDF 1.7+.
    Background,
    /// Artefacts related to inline content, such as line numbers or redactions. PDF 2.0+.
    Inline,
}

impl ArtifactType {
    /// The name under which the value is written.
    pub open spec fn spec_name(self) -> Seq<u8> {
        match self {
            Self::Pagination => "Pagination".spec_bytes(),
            Self::Layout => "Layout".spec_bytes(),
            Self::Page => "Page".spec_bytes(),
            Self::Background => "Background".spec_bytes(),
            Self::Inline => "Inline".spec_bytes(),
        }
    }

    pub(crate) fn to_name(self) -> (r: Name<'static>)
        ensures
            r.0@ == self.spec_name(),
    {
        match self {
            Self::Pagination => Name("Pagination".as_bytes()),
            Self::Layout => Name("Layout".as_bytes()),
            Self::Page => Name("Page".as_bytes()),
            Self::Background => Name("Background".as_bytes()),
            Self::Inline => Name("Inline".as_bytes()),
        }
    }
}

/// The various subtypes of pagination artifacts.
#[derive(Debug, Clone, PartialEq)]
pub enum ArtifactSubtype<'a> {
    /// Headers.
    Header,
    /// Footers.
    Footer,
    /// Background watermarks.
    Watermark,
    /// Page numbers. PDF 2.0+
    PageNumber,
    /// Bates numbering. PDF 2.0+
    Bates,
    /// Line numbers. PDF 2.0+
    LineNumber,
    /// Redactions. PDF 2.0+
    Redaction,
    /// Custom subtype named according to ISO 32000-1:2008 Annex E.
    Custom(Name<'a>),
}

impl<'a> ArtifactSubtype<'a> {
    /// The name under which the value is written.
    pub open spec fn spec_name(self) -> Seq<u8> {
        match self {
            Self::Header => "Header".spec_bytes(),
            Self::Footer => "Footer".spec_bytes(),
            Self::Watermark => "Watermark".spec_bytes(),
            Self::PageNumber => "PageNum".spec_bytes(),
            Self::Bates => "Bates".spec_bytes(),
            Self::LineNumber => "LineNum".spec_bytes(),
            Self::Redaction => "Redaction".spec_bytes(),
            Self::Custom(name) => name.0@,
        }
    }

    pub(crate) fn to_name(self) -> (r: Name<'a>)
        ensures
            r.0@ == self.spec_name(),
    {
        match self {
            Self::Header => Name("Header".as_bytes()),
            Self::Footer => Name("Footer".as_bytes()),
            Self::Watermark => Name("Watermark".as_bytes()),
            Self::PageNumber => Name("PageNum".as_bytes()),
            Self::Bates => Name("Bates".as_bytes()),
            Self::LineNumber => Name("LineNum".as_bytes()),
            Self::Redaction => Name("Redaction".as_bytes()),
            Self::Custom(name) => name,
        }
    }
}

/// Where a layout [`Artifact`] is attached to the page edge.
#[derive(Debug, Copy, Clone, Eq, PartialEq)]
#[allow(missing_docs)]
pub enum ArtifactAttachment {
    Left,
    Top,
    Right,
    Bottom,
}

impl ArtifactAttachment {
    /// The name under which the value is written.
    pub open spec fn spec_name(self) -> Seq<u8> {
        match self {
            Self::Left => "Left".spec_bytes(),
            Self::Top => "Top".spec_bytes(),
            Self::Right => "Right".spec_bytes(),
            Self::Bottom => "Bottom".spec_bytes(),
        }
    }

    pub(crate) fn to_name(self) -> (r: Name<'static>)
        ensures
            r.0@ == self.spec_name(),
    {
        match self {
            Self::Left => Name("Left".as_bytes()),
            Self::Top => Name("Top".as_bytes()),
            Self::Right => Name("Right".as_bytes()),
            Self::Bottom => Name("Bottom".as_bytes()),
        }
    }
}

/// What procedure sets to send to a PostScript printer or other output device.
///
/// This enumeration provides compatibility for printing PDFs of versions 1.3 and
/// below.
#[derive(Debug, Copy, Clone, Eq, PartialEq, Hash)]
pub enum ProcSet {
    /// Painting and graphics state.
    Pdf,
    /// Text.
    Text,
    /// Grayscale images and masks.
    ImageGrayscale,
    /// Color images.
    ImageColor,
    /// Images with color tables.
    ImageIndexed,
}

impl ProcSet {
    /// The name under which the value is written.
    pub open spec fn spec_name(self) -> Seq<u8> {
        match self {
            Self::Pdf => "PDF".spec_bytes(),
            Self::Text => "Text".spec_bytes(),
            Self::ImageGrayscale => "ImageB".spec_bytes(),
            Self::ImageColor => "ImageC".spec_bytes(),
            Self::ImageIndexed => "ImageI".spec_bytes(),
        }
    }

    pub(crate) fn to_name(self) -> (r: Name<'static>)
        ensures
            r.0@ == self.spec_name(),
    {
        match self {
            Self::Pdf => Name("PDF".as_bytes()),
            Self::Text => Name("Text".as_bytes()),
            Self::ImageGrayscale => Name("ImageB".as_bytes()),
            Self::ImageColor => Name("ImageC".as_bytes()),
            Self::ImageIndexed => Name("ImageI".as_bytes()),
        }
    }
}

/// How to blend source and backdrop.
#[derive(Debug, Copy, Clone, Eq, PartialEq, Hash)]
#[allow(missing_docs)]
pub enum BlendMode {
    Normal,
    Multiply,
    Screen,
    Overlay,
    Darken,
    Lighten,
    ColorDodge,
    ColorBurn,
    HardLight,
    SoftLight,
    Difference,
    Exclusion,
    Hue,
    Saturation,
    Color,
    Luminosity,
}

impl BlendMode {
    /// The name under which the value is written.
    pub open spec fn spec_name(self) -> Seq<u8> {
        match self {
            Self::Normal => "Normal".spec_bytes(),
            Self::Multiply => "Multiply".spec_bytes(),
            Self::Screen => "Screen".spec_bytes(),
            Self::Overlay => "Overlay".spec_bytes(),
            Self::Darken => "Darken".spec_bytes(),
            Self::Lighten => "Lighten".spec_bytes(),
            Self::ColorDodge => "ColorDodge".spec_bytes(),
            Self::ColorBurn => "ColorBurn".spec_bytes(),
            Self::HardLight => "HardLight".spec_bytes(),
            Self::SoftLight => "SoftLight".spec_bytes(),
            Self::Difference => "Difference".spec_bytes(),
            Self::Exclusion => "Exclusion".spec_bytes(),
            Self::Hue => "Hue".spec_bytes(),
            Self::Saturation => "Saturation".spec_bytes(),
            Self::Color => "Color".spec_bytes(),
            Self::Luminosity => "Luminosity".spec_bytes(),
        }
    }

    pub(crate) fn to_name(self) -> (r: Name<'static>)
        ensures
            r.0@ == self.spec_name(),
    {
        match self {
            Self::Normal => Name("Normal".as_bytes()),
            Self::Multiply => Name("Multiply".as_bytes()),
            Self::Screen => Name("Screen".as_bytes()),
            Self::Overlay => Name("Overlay".as_bytes()),
            Self::Darken => Name("Darken".as_bytes()),
            Self::Lighten => Name("Lighten".as_bytes()),
            Self::ColorDodge => Name("ColorDodge".as_bytes()),
            Self::ColorBurn => Name("ColorBurn".as_bytes()),
            Self::HardLight => Name("HardLight".as_bytes()),
            Self::SoftLight => Name("SoftLight".as_bytes()),
            Self::Difference => Name("Difference".as_bytes()),
            Self::Exclusion => Name("Exclusion".as_bytes()),
            Self::Hue => Name("Hue".as_bytes()),
            Self::Saturation => Name("Saturation".as_bytes()),
            Self::Color => Name("Color".as_bytes()),
            Self::Luminosity => Name("Luminosity".as_bytes()),
        }
    }
}

/// How to behave when overprinting for colorants with the value zero.
#[derive(Debug, Copy, Clone, Eq, PartialEq, Hash)]
pub enum OverprintMode {
    /// An overprint operation will always discard the underlying color, even if
    /// one of the colorants is zero.
    OverrideAllColorants,
    /// An overprint operation will only discard the underlying colorant
    /// component (e.g. cyan in CMYK) if the new corresponding colorant is
    /// non-zero.
    ///
    /// Note that this value is forbidden by PDF/A for ICCBased color spaces
    /// when overprinting is enabled.
    IgnoreZeroChannel,
}

impl OverprintMode {
    /// The number under which the value is written.
    pub open spec fn spec_int(self) -> i32 {
        match self {
            Self::OverrideAllColorants => 0,
            Self::IgnoreZeroChannel => 1,
        }
    }

    pub(crate) fn to_int(self) -> (r: i32)
        ensures
            r == self.spec_int(),
    {
        match self {
            Self::OverrideAllColorants => 0,
            Self::IgnoreZeroChannel => 1,
        }
    }
}

/// What property in the mask influences the target alpha.
#[derive(Debug, Copy, Clone, Eq, PartialEq, Hash)]
pub enum MaskType {
    /// The alpha values from the mask are applied to the target.
    Alpha,
    /// A single-channel luminosity value is calculated for the colors in the
    /// mask.
    Luminosity,
}

impl MaskType {
    /// The name under which the value is written.
    pub open spec fn spec_name(self) -> Seq<u8> {
        match self {
            Self::Alpha => "Alpha".spec_bytes(),
            Self::Luminosity => "Luminosity".spec_bytes(),
        }
    }

    pub(crate) fn to_name(self) -> (r: Name<'static>)
        ensures
            r.0@ == self.spec_name(),
    {
        match self {
            Self::Alpha => Name("Alpha".as_bytes()),
            Self::Luminosity => Name("Luminosity".as_bytes()),
        }
    }
}


// ---------------------------------------------------------------------------
// Content streams.
// ---------------------------------------------------------------------------

/// The operands of an operation, separated by spaces.
pub open spec fn operands_bytes(operands: Seq<Seq<u8>>) -> Seq<u8>
    decreases operands.len(),
{
    if operands.len() == 0 {
        Seq::empty()
    } else if operands.len() == 1 {
        operands[0]
    } else {
        operands_bytes(operands.drop_last()) + " ".spec_bytes() + operands.last()
    }
}

/// An operation of a content stream: its operands, then the operator, then
/// a newline.
pub open spec fn operation_bytes(operands: Seq<Seq<u8>>, operator: Seq<u8>) -> Seq<u8> {
    operands_bytes(operands) + (if operands.len() > 0 {
        " ".spec_bytes()
    } else {
        Seq::empty()
    }) + operator + "\n".spec_bytes()
}

/// A builder for a content stream.
pub struct Content {
    buf: Buf,
    q_depth: usize,
}

/// Core methods.
impl Content {
    /// The bytes written so far.
    pub closed spec fn spec_bytes(&self) -> Seq<u8> {
        self.buf@
    }

    /// The limits of the data written so far.
    pub closed spec fn spec_limits(&self) -> LimitsView {
        self.buf.spec_limits()
    }

    /// The nesting depth of the graphics state.
    pub closed spec fn spec_depth(&self) -> nat {
        self.q_depth as nat
    }

    /// Create a new content stream with the default buffer capacity
    /// (currently 1 KB).
    pub fn new() -> (r: Self)
        ensures
            r.spec_bytes() == Seq::<u8>::empty(),
            r.spec_limits() == LimitsView::zero(),
            r.spec_depth() == 0,
    {
        Self::with_capacity(1024)
    }

    /// Create a new content stream with the specified initial buffer capacity.
    pub fn with_capacity(capacity: usize) -> (r: Self)
        ensures
            r.spec_bytes() == Seq::<u8>::empty(),
            r.spec_limits() == LimitsView::zero(),
            r.spec_depth() == 0,
    {
        Self { buf: Buf::with_capacity(capacity), q_depth: 0 }
    }

    /// Start writing an arbitrary operation.
    pub fn op<'a>(&'a mut self, operator: &'a str) -> (r: Operation<'a>)
        ensures
            r.buf@ == old(self).spec_bytes(),
            r.buf.spec_limits() == old(self).spec_limits(),
            r.op == operator,
            r.first,
            final(self).spec_bytes() == final(r.buf)@,
            final(self).spec_limits() == final(r.buf).spec_limits(),
            final(self).spec_depth() == old(self).spec_depth(),
    {
        Operation::start(&mut self.buf, operator)
    }

    /// Return the buffer of the content stream, without the newline that
    /// ends its last operation.
    ///
    /// The buffer is essentially a thin wrapper around two objects:
    /// - A [`Limits`] object, which can optionally be used to keep track of
    ///   data such as the largest used integer or the longest string used in
    ///   the content streams, which is useful information for some export
    ///   modes.
    /// - The actual underlying data of the content stream, which can be written
    ///   to a chunk (and optionally apply a filter before doing so).
    pub fn finish(self) -> (r: Buf)
        ensures
            r@ == (if self.spec_bytes().len() > 0 && self.spec_bytes().last() == NEWLINE {
                self.spec_bytes().drop_last()
            } else {
                self.spec_bytes()
            }),
            r.spec_limits() == self.spec_limits(),
    {
        let mut buf = self.buf;
        if buf.last() == Some(NEWLINE) {
            buf.pop();
        }
        buf
    }
}

/// Writer for an _operation_ in a content stream.
///
/// This struct is created by [`Content::op`].
pub struct Operation<'a> {
    /// The buffer the operation is written to.
    pub buf: &'a mut Buf,
    /// The operator.
    pub op: &'a str,
    /// Whether no operand was written yet.
    pub first: bool,
}

impl<'a> Operation<'a> {
    pub(crate) fn start(buf: &'a mut Buf, op: &'a str) -> (r: Self)
        ensures
            r.buf@ == old(buf)@,
            r.buf.spec_limits() == old(buf).spec_limits(),
            r.op == op,
            r.first,
            *final(r.buf) == *final(buf),
    {
        Self { buf, op, first: true }
    }

    /// Write a primitive operand.
    pub fn operand<T: Primitive>(&mut self, value: T) -> (r: &mut Self)
        requires
            value.spec_writable(),
        ensures
            r.buf@ == old(self).buf@ + (if old(self).first {
                Seq::empty()
            } else {
                " ".spec_bytes()
            }) + value.spec_encoding(),
            r.buf.spec_limits() == value.spec_limits_after(old(self).buf.spec_limits()),
            r.op == old(self).op,
            !r.first,
            *final(r.buf) == *final(old(self).buf),
            *final(self) == *final(r),
    {
        let ghost before = self.buf@;
        self.obj().primitive(value);
        assert(self.buf@ =~= before + (if old(self).first {
            Seq::empty()
        } else {
            " ".spec_bytes()
        }) + value.spec_encoding());
        self
    }

    /// Write a sequence of primitive operands.
    pub fn operands<T: Primitive + Copy>(&mut self, values: &[T]) -> (r: &mut Self)
        requires
            all_writable(values@),
        ensures
            r.buf@ == old(self).buf@ + (if old(self).first {
                operands_bytes(values@.map_values(|v: T| v.spec_encoding()))
            } else {
                operands_bytes(seq![Seq::empty()] + values@.map_values(|v: T| v.spec_encoding()))
            }),
            r.buf.spec_limits() == limits_after_all(old(self).buf.spec_limits(), values@),
            r.op == old(self).op,
            r.first == (old(self).first && values@.len() == 0),
            *final(r.buf) == *final(old(self).buf),
            *final(self) == *final(r),
    {
        let ghost before = self.buf@;
        let ghost first = self.first;
        let ghost f = |v: T| v.spec_encoding();
        let ghost lead: Seq<Seq<u8>> = if first {
            Seq::empty()
        } else {
            seq![Seq::empty()]
        };
        let mut i: usize = 0;
        assert(lead + values@.take(0).map_values(f) =~= lead);
        assert(before =~= before + operands_bytes(lead));
        while i < values.len()
            invariant
                i <= values@.len(),
                all_writable(values@),
                self.op == old(self).op,
                first == old(self).first,
                self.first == (first && i == 0),
                lead == (if first {
                    Seq::<Seq<u8>>::empty()
                } else {
                    seq![Seq::<u8>::empty()]
                }),
                f == (|v: T| v.spec_encoding()),
                self.buf@ == before + operands_bytes(lead + values@.take(i as int).map_values(f)),
                self.buf.spec_limits() == limits_after_all(old(self).buf.spec_limits(), values@.take(i as int)),
                *final(self.buf) == *final(old(self).buf),
            decreases values@.len() - i,
        {
            let ghost prev = lead + values@.take(i as int).map_values(f);
            let ghost next = lead + values@.take(i + 1).map_values(f);
            assert(next.drop_last() =~= prev);
            assert(next.last() == values@[i as int].spec_encoding());
            assert(values@.take(i + 1).drop_last() =~= values@.take(i as int));
            assert(values@[i as int].spec_writable());
            self.operand(values[i]);
            proof {
                if prev.len() == 0 {
                    assert(next =~= seq![values@[i as int].spec_encoding()]);
                }
            }
            i = i + 1;
        }
        assert(values@.take(values@.len() as int) =~= values@);
        self
    }

    /// Start writing an an arbitrary object operand.
    pub fn obj(&mut self) -> (r: Obj<'_>)
        ensures
            r.buf@ == old(self).buf@ + (if old(self).first {
                Seq::empty()
            } else {
                " ".spec_bytes()
            }),
            r.buf.spec_limits() == old(self).buf.spec_limits(),
            r.indirect == false,
            r.indent == 0,
            r.needs_padding == false,
            r.settings.pretty,
            final(self).op == old(self).op,
            !final(self).first,
            *final(self).buf == *final(r.buf),
            *final(final(self).buf) == *final(old(self).buf),
    {
        if !self.first {
            self.buf.extend_slice(" ".as_bytes());
        }
        self.first = false;
        Obj::direct(self.buf, 0, Settings::default(), false)
    }

    /// Finish the operation: write the operator.
    pub fn finish(self)
        ensures
            final(self.buf)@ == old(self.buf)@ + (if self.first {
                Seq::empty()
            } else {
                " ".spec_bytes()
            }) + self.op.spec_bytes() + "\n".spec_bytes(),
            final(self.buf).spec_limits() == old(self.buf).spec_limits(),
    {
        if !self.first {
            self.buf.extend_slice(" ".as_bytes());
        }
        self.buf.extend_slice(self.op.as_bytes());
        self.buf.extend_slice("\n".as_bytes());
    }
}

/// The nesting depth after a `q` operator: one more, saturating.
pub open spec fn depth_after_save(depth: nat) -> nat {
    if depth < usize::MAX {
        depth + 1
    } else {
        depth
    }
}

/// The nesting depth after a `Q` operator: one less, saturating.
pub open spec fn depth_after_restore(depth: nat) -> nat {
    if depth > 0 {
        (depth - 1) as nat
    } else {
        0
    }
}

/// Restoring the graphics state after saving it gives back the nesting
/// depth from before, unless the depth was already at its maximum.
pub proof fn lemma_save_restore_depth(depth: nat)
    requires
        depth < usize::MAX,
    ensures
        depth_after_restore(depth_after_save(depth)) == depth,
{
}

/// General graphics state.
impl Content {
    /// `i`: Set the flatness tolerance in device space units.
    ///
    /// The tolerance must be between 0 and 100.
    pub fn set_flatness(&mut self, tolerance: i32) -> (r: &mut Self)
        requires
            0 <= tolerance <= 100,
        ensures
            r.spec_bytes() == old(self).spec_bytes() + operation_bytes(seq![decimal(tolerance as int)], "i".spec_bytes()),
            r.spec_limits() == old(self).spec_limits().with_int(tolerance as int),
            r.spec_depth() == old(self).spec_depth(),
            *final(self) == *final(r),
    {
        let mut op = self.op("i");
        op.operand(tolerance);
        op.finish();
        self
    }

    /// `q`: Save the graphics state on the stack.
    pub fn save_state(&mut self) -> (r: &mut Self)
        ensures
            r.spec_bytes() == old(self).spec_bytes() + operation_bytes(Seq::empty(), "q".spec_bytes()),
            r.spec_limits() == old(self).spec_limits(),
            r.spec_depth() == depth_after_save(old(self).spec_depth()),
            *final(self) == *final(r),
    {
        self.op("q").finish();
        if self.q_depth < usize::MAX {
            self.q_depth = self.q_depth + 1;
        }
        self
    }

    /// `Q`: Restore the graphics state from the stack.
    pub fn restore_state(&mut self) -> (r: &mut Self)
        ensures
            r.spec_bytes() == old(self).spec_bytes() + operation_bytes(Seq::empty(), "Q".spec_bytes()),
            r.spec_limits() == old(self).spec_limits(),
            r.spec_depth() == depth_after_restore(old(self).spec_depth()),
            *final(self) == *final(r),
    {
        self.op("Q").finish();
        if self.q_depth > 0 {
            self.q_depth = self.q_depth - 1;
        }
        self
    }

    /// How deeply the graphics states are currently nested.
    pub fn state_nesting_depth(&self) -> (r: usize)
        ensures
            r == self.spec_depth(),
    {
        self.q_depth
    }
}

/// Operators without floating-point operands.
impl Content {
    /// `J`: Set the line cap style.
    pub fn set_line_cap(&mut self, cap: LineCapStyle) -> (r: &mut Self)
        ensures
            r.spec_bytes() == old(self).spec_bytes() + operation_bytes(seq![decimal(cap.spec_int() as int)], "J".spec_bytes()),
            r.spec_limits() == old(self).spec_limits().with_int(cap.spec_int() as int),
            r.spec_depth() == old(self).spec_depth(),
            *final(self) == *final(r),
    {
        let mut op = self.op("J");
        op.operand(cap.to_int());
        op.finish();
        self
    }

    /// `j`: Set the line join style.
    pub fn set_line_join(&mut self, join: LineJoinStyle) -> (r: &mut Self)
        ensures
            r.spec_bytes() == old(self).spec_bytes() + operation_bytes(seq![decimal(join.spec_int() as int)], "j".spec_bytes()),
            r.spec_limits() == old(self).spec_limits().with_int(join.spec_int() as int),
            r.spec_depth() == old(self).spec_depth(),
            *final(self) == *final(r),
    {
        let mut op = self.op("j");
        op.operand(join.to_int());
        op.finish();
        self
    }

    /// `ri`: Set the color rendering intent to the parameter. PDF 1.1+.
    pub fn set_rendering_intent(&mut self, intent: RenderingIntent) -> (r: &mut Self)
        ensures
            r.spec_bytes() == old(self).spec_bytes() + operation_bytes(seq![name_encoding(intent.spec_name())], "ri".spec_bytes()),
            r.spec_limits() == old(self).spec_limits().with_name_len(intent.spec_name().len() as int),
            r.spec_depth() == old(self).spec_depth(),
            *final(self) == *final(r),
    {
        let mut op = self.op("ri");
        op.operand(intent.to_name());
        op.finish();
        self
    }

    /// `gs`: Set the parameters from an `ExtGState` dictionary. PDF 1.2+.
    pub fn set_parameters(&mut self, dict: Name) -> (r: &mut Self)
        ensures
            r.spec_bytes() == old(self).spec_bytes() + operation_bytes(seq![dict.spec_encoding()], "gs".spec_bytes()),
            r.spec_limits() == old(self).spec_limits().with_name_len(dict.0@.len() as int),
            r.spec_depth() == old(self).spec_depth(),
            *final(self) == *final(r),
    {
        let mut op = self.op("gs");
        op.operand(dict);
        op.finish();
        self
    }

    /// `h`: Close the current subpath with a straight line.
    pub fn close_path(&mut self) -> (r: &mut Self)
        ensures
            r.spec_bytes() == old(self).spec_bytes() + operation_bytes(Seq::empty(), "h".spec_bytes()),
            r.spec_limits() == old(self).spec_limits(),
            r.spec_depth() == old(self).spec_depth(),
            *final(self) == *final(r),
    {
        self.op("h").finish();
        self
    }

    /// `S`: Stroke the current path.
    pub fn stroke(&mut self) -> (r: &mut Self)
        ensures
            r.spec_bytes() == old(self).spec_bytes() + operation_bytes(Seq::empty(), "S".spec_bytes()),
            r.spec_limits() == old(self).spec_limits(),
            r.spec_depth() == old(self).spec_depth(),
            *final(self) == *final(r),
    {
        self.op("S").finish();
        self
    }

    /// `s`: Close the current path and then stroke it.
    pub fn close_and_stroke(&mut self) -> (r: &mut Self)
        ensures
            r.spec_bytes() == old(self).spec_bytes() + operation_bytes(Seq::empty(), "s".spec_bytes()),
            r.spec_limits() == old(self).spec_limits(),
            r.spec_depth() == old(self).spec_depth(),
            *final(self) == *final(r),
    {
        self.op("s").finish();
        self
    }

    /// `f`: Fill the current path using the nonzero winding number rule.
    pub fn fill_nonzero(&mut self) -> (r: &mut Self)
        ensures
            r.spec_bytes() == old(self).spec_bytes() + operation_bytes(Seq::empty(), "f".spec_bytes()),
            r.spec_limits() == old(self).spec_limits(),
            r.spec_depth() == old(self).spec_depth(),
            *final(self) == *final(r),
    {
        self.op("f").finish();
        self
    }

    /// `f*`: Fill the current path using the even-odd rule.
    pub fn fill_even_odd(&mut self) -> (r: &mut Self)
        ensures
            r.spec_bytes() == old(self).spec_bytes() + operation_bytes(Seq::empty(), "f*".spec_bytes()),
            r.spec_limits() == old(self).spec_limits(),
            r.spec_depth() == old(self).spec_depth(),
            *final(self) == *final(r),
    {
        self.op("f*").finish();
        self
    }

    /// `B`: Fill the current path using the nonzero winding number rule and
    /// then stroke it.
    pub fn fill_nonzero_and_stroke(&mut self) -> (r: &mut Self)
        ensures
            r.spec_bytes() == old(self).spec_bytes() + operation_bytes(Seq::empty(), "B".spec_bytes()),
            r.spec_limits() == old(self).spec_limits(),
            r.spec_depth() == old(self).spec_depth(),
            *final(self) == *final(r),
    {
        self.op("B").finish();
        self
    }

    /// `B*`: Fill the current path using the even-odd rule and then stroke it.
    pub fn fill_even_odd_and_stroke(&mut self) -> (r: &mut Self)
        ensures
            r.spec_bytes() == old(self).spec_bytes() + operation_bytes(Seq::empty(), "B*".spec_bytes()),
            r.spec_limits() == old(self).spec_limits(),
            r.spec_depth() == old(self).spec_depth(),
            *final(self) == *final(r),
    {
        self.op("B*").finish();
        self
    }

    /// `b`: Close the current path, fill it using the nonzero winding number
    /// rule and then stroke it.
    pub fn close_fill_nonzero_and_stroke(&mut self) -> (r: &mut Self)
        ensures
            r.spec_bytes() == old(self).spec_bytes() + operation_bytes(Seq::empty(), "b".spec_bytes()),
            r.spec_limits() == old(self).spec_limits(),
            r.spec_depth() == old(self).spec_depth(),
            *final(self) == *final(r),
    {
        self.op("b").finish();
        self
    }

    /// `b*`: Close the current path, fill it using the even-odd rule and then
    /// stroke it.
    pub fn close_fill_even_odd_and_stroke(&mut self) -> (r: &mut Self)
        ensures
            r.spec_bytes() == old(self).spec_bytes() + operation_bytes(Seq::empty(), "b*".spec_bytes()),
            r.spec_limits() == old(self).spec_limits(),
            r.spec_depth() == old(self).spec_depth(),
            *final(self) == *final(r),
    {
        self.op("b*").finish();
        self
    }

    /// `n`: End the current path without filling or stroking it.
    ///
    /// This is primarily used for clipping paths.
    pub fn end_path(&mut self) -> (r: &mut Self)
        ensures
            r.spec_bytes() == old(self).spec_bytes() + operation_bytes(Seq::empty(), "n".spec_bytes()),
            r.spec_limits() == old(self).spec_limits(),
            r.spec_depth() == old(self).spec_depth(),
            *final(self) == *final(r),
    {
        self.op("n").finish();
        self
    }

    /// `W`: Intersect the current clipping path with the current path using the
    /// nonzero winding number rule.
    pub fn clip_nonzero(&mut self) -> (r: &mut Self)
        ensures
            r.spec_bytes() == old(self).spec_bytes() + operation_bytes(Seq::empty(), "W".spec_bytes()),
            r.spec_limits() == old(self).spec_limits(),
            r.spec_depth() == old(self).spec_depth(),
            *final(self) == *final(r),
    {
        self.op("W").finish();
        self
    }

    /// `W*`: Intersect the current clipping path with the current path using
    /// the even-odd rule.
    pub fn clip_even_odd(&mut self) -> (r: &mut Self)
        ensures
            r.spec_bytes() == old(self).spec_bytes() + operation_bytes(Seq::empty(), "W*".spec_bytes()),
            r.spec_limits() == old(self).spec_limits(),
            r.spec_depth() == old(self).spec_depth(),
            *final(self) == *final(r),
    {
        self.op("W*").finish();
        self
    }

    /// `BT`: Begin a text object.
    pub fn begin_text(&mut self) -> (r: &mut Self)
        ensures
            r.spec_bytes() == old(self).spec_bytes() + operation_bytes(Seq::empty(), "BT".spec_bytes()),
            r.spec_limits() == old(self).spec_limits(),
            r.spec_depth() == old(self).spec_depth(),
            *final(self) == *final(r),
    {
        self.op("BT").finish();
        self
    }

    /// `ET`: End a text object.
    pub fn end_text(&mut self) -> (r: &mut Self)
        ensures
            r.spec_bytes() == old(self).spec_bytes() + operation_bytes(Seq::empty(), "ET".spec_bytes()),
            r.spec_limits() == old(self).spec_limits(),
            r.spec_depth() == old(self).spec_depth(),
            *final(self) == *final(r),
    {
        self.op("ET").finish();
        self
    }

    /// `Tr`: Set the text rendering mode.
    pub fn set_text_rendering_mode(&mut self, mode: TextRenderingMode) -> (r: &mut Self)
        ensures
            r.spec_bytes() == old(self).spec_bytes() + operation_bytes(seq![decimal(mode.spec_int() as int)], "Tr".spec_bytes()),
            r.spec_limits() == old(self).spec_limits().with_int(mode.spec_int() as int),
            r.spec_depth() == old(self).spec_depth(),
            *final(self) == *final(r),
    {
        let mut op = self.op("Tr");
        op.operand(mode.to_int());
        op.finish();
        self
    }

    /// `T*`: Move to the start of the next line, determining the vertical offset
    /// through the text state's leading parameter.
    pub fn next_line_using_leading(&mut self) -> (r: &mut Self)
        ensures
            r.spec_bytes() == old(self).spec_bytes() + operation_bytes(Seq::empty(), "T*".spec_bytes()),
            r.spec_limits() == old(self).spec_limits(),
            r.spec_depth() == old(self).spec_depth(),
            *final(self) == *final(r),
    {
        self.op("T*").finish();
        self
    }

    /// `Tj`: Show text.
    ///
    /// The encoding of the text depends on the font.
    pub fn show(&mut self, text: Str) -> (r: &mut Self)
        ensures
            r.spec_bytes() == old(self).spec_bytes() + operation_bytes(seq![text.spec_encoding()], "Tj".spec_bytes()),
            r.spec_limits() == old(self).spec_limits().with_str_len(text.0@.len() as int),
            r.spec_depth() == old(self).spec_depth(),
            *final(self) == *final(r),
    {
        let mut op = self.op("Tj");
        op.operand(text);
        op.finish();
        self
    }

    /// `'`: Move to the next line and show text.
    pub fn next_line_show(&mut self, text: Str) -> (r: &mut Self)
        ensures
            r.spec_bytes() == old(self).spec_bytes() + operation_bytes(seq![text.spec_encoding()], "'".spec_bytes()),
            r.spec_limits() == old(self).spec_limits().with_str_len(text.0@.len() as int),
            r.spec_depth() == old(self).spec_depth(),
            *final(self) == *final(r),
    {
        let mut op = self.op("'");
        op.operand(text);
        op.finish();
        self
    }

    /// `CS`: Set the stroke color space to the parameter. PDF 1.1+.
    ///
    /// The parameter must be the name of a parameter-less color space or of a
    /// color space dictionary within the current resource dictionary.
    pub fn set_stroke_color_space(&mut self, space: ColorSpaceOperand) -> (r: &mut Self)
        ensures
            r.spec_bytes() == old(self).spec_bytes() + operation_bytes(seq![name_encoding(space.spec_name())], "CS".spec_bytes()),
            r.spec_limits() == old(self).spec_limits().with_name_len(space.spec_name().len() as int),
            r.spec_depth() == old(self).spec_depth(),
            *final(self) == *final(r),
    {
        let mut op = self.op("CS");
        op.operand(space.to_name());
        op.finish();
        self
    }

    /// `cs`: Set the fill color space to the parameter. PDF 1.1+.
    ///
    /// The parameter must be the name of a parameter-less color space or of a
    /// color space dictionary within the current resource dictionary.
    pub fn set_fill_color_space(&mut self, space: ColorSpaceOperand) -> (r: &mut Self)
        ensures
            r.spec_bytes() == old(self).spec_bytes() + operation_bytes(seq![name_encoding(space.spec_name())], "cs".spec_bytes()),
            r.spec_limits() == old(self).spec_limits().with_name_len(space.spec_name().len() as int),
            r.spec_depth() == old(self).spec_depth(),
            *final(self) == *final(r),
    {
        let mut op = self.op("cs");
        op.operand(space.to_name());
        op.finish();
        self
    }

    /// `sh`: Fill the whole drawing area with the specified shading.
    pub fn shading(&mut self, shading: Name) -> (r: &mut Self)
        ensures
            r.spec_bytes() == old(self).spec_bytes() + operation_bytes(seq![shading.spec_encoding()], "sh".spec_bytes()),
            r.spec_limits() == old(self).spec_limits().with_name_len(shading.0@.len() as int),
            r.spec_depth() == old(self).spec_depth(),
            *final(self) == *final(r),
    {
        let mut op = self.op("sh");
        op.operand(shading);
        op.finish();
        self
    }

    /// `Do`: Write an external object.
    pub fn x_object(&mut self, name: Name) -> (r: &mut Self)
        ensures
            r.spec_bytes() == old(self).spec_bytes() + operation_bytes(seq![name.spec_encoding()], "Do".spec_bytes()),
            r.spec_limits() == old(self).spec_limits().with_name_len(name.0@.len() as int),
            r.spec_depth() == old(self).spec_depth(),
            *final(self) == *final(r),
    {
        let mut op = self.op("Do");
        op.operand(name);
        op.finish();
        self
    }

    /// `MP`: Write a marked-content point. PDF 1.2+.
    pub fn marked_content_point(&mut self, tag: Name) -> (r: &mut Self)
        ensures
            r.spec_bytes() == old(self).spec_bytes() + operation_bytes(seq![tag.spec_encoding()], "MP".spec_bytes()),
            r.spec_limits() == old(self).spec_limits().with_name_len(tag.0@.len() as int),
            r.spec_depth() == old(self).spec_depth(),
            *final(self) == *final(r),
    {
        let mut op = self.op("MP");
        op.operand(tag);
        op.finish();
        self
    }

    /// `BMC`: Begin a marked-content sequence. PDF 1.2+.
    pub fn begin_marked_content(&mut self, tag: Name) -> (r: &mut Self)
        ensures
            r.spec_bytes() == old(self).spec_bytes() + operation_bytes(seq![tag.spec_encoding()], "BMC".spec_bytes()),
            r.spec_limits() == old(self).spec_limits().with_name_len(tag.0@.len() as int),
            r.spec_depth() == old(self).spec_depth(),
            *final(self) == *final(r),
    {
        let mut op = self.op("BMC");
        op.operand(tag);
        op.finish();
        self
    }

    /// `EMC`: End a marked-content sequence. PDF 1.2+.
    pub fn end_marked_content(&mut self) -> (r: &mut Self)
        ensures
            r.spec_bytes() == old(self).spec_bytes() + operation_bytes(Seq::empty(), "EMC".spec_bytes()),
            r.spec_limits() == old(self).spec_limits(),
            r.spec_depth() == old(self).spec_depth(),
            *final(self) == *final(r),
    {
        self.op("EMC").finish();
        self
    }

    /// `BX`: Begin a compatibility section.
    pub fn begin_compat(&mut self) -> (r: &mut Self)
        ensures
            r.spec_bytes() == old(self).spec_bytes() + operation_bytes(Seq::empty(), "BX".spec_bytes()),
            r.spec_limits() == old(self).spec_limits(),
            r.spec_depth() == old(self).spec_depth(),
            *final(self) == *final(r),
    {
        self.op("BX").finish();
        self
    }

    /// `EX`: End a compatibility section.
    pub fn end_compat(&mut self) -> (r: &mut Self)
        ensures
            r.spec_bytes() == old(self).spec_bytes() + operation_bytes(Seq::empty(), "EX".spec_bytes()),
            r.spec_limits() == old(self).spec_limits(),
            r.spec_depth() == old(self).spec_depth(),
            *final(self) == *final(r),
    {
        self.op("EX").finish();
        self
    }

}

/// Marked content with property lists.
impl Content {
    /// `DP`: Start writing a marked-content point operation. PDF 1.2+.
    pub fn marked_content_point_with_properties(&mut self, tag: Name) -> (r: MarkContent<'_>)
        ensures
            r.op.buf@ == old(self).spec_bytes() + name_encoding(tag.0@),
            r.op.buf.spec_limits() == old(self).spec_limits().with_name_len(tag.0@.len() as int),
            r.op.op == "DP",
            !r.op.first,
            final(self).spec_bytes() == final(r.op.buf)@,
            final(self).spec_limits() == final(r.op.buf).spec_limits(),
            final(self).spec_depth() == old(self).spec_depth(),
    {
        let mut op = self.op("DP");
        op.operand(tag);
        MarkContent::start(op)
    }

    /// `BDC`: Start writing a "begin marked content" operation. PDF 1.2+.
    pub fn begin_marked_content_with_properties(&mut self, tag: Name) -> (r: MarkContent<'_>)
        ensures
            r.op.buf@ == old(self).spec_bytes() + name_encoding(tag.0@),
            r.op.buf.spec_limits() == old(self).spec_limits().with_name_len(tag.0@.len() as int),
            r.op.op == "BDC",
            !r.op.first,
            final(self).spec_bytes() == final(r.op.buf)@,
            final(self).spec_limits() == final(r.op.buf).spec_limits(),
            final(self).spec_depth() == old(self).spec_depth(),
    {
        let mut op = self.op("BDC");
        op.operand(tag);
        MarkContent::start(op)
    }
}

/// Writer for a _begin marked content operation_. PDF 1.3+.
///
/// Call [`MarkContent::finish`] (or [`MarkContent::properties_named`]) to
/// write the operator.
pub struct MarkContent<'a> {
    /// The operation being written.
    pub op: Operation<'a>,
}

impl<'a> MarkContent<'a> {
    /// Start the wrapper.
    pub(crate) fn start(op: Operation<'a>) -> (r: Self)
        ensures
            r.op == op,
    {
        Self { op }
    }

    /// Start writing this marked content's property list. Mutually exclusive
    /// with [`properties_named`](Self::properties_named).
    pub fn properties(&mut self) -> (r: PropertyList<'_>)
        ensures
            dict_started(
                r.dict,
                old(self).op.buf@ + (if old(self).op.first {
                    Seq::empty()
                } else {
                    " ".spec_bytes()
                }),
                false,
                0,
                r.dict.settings,
                None,
                None,
            ),
            r.dict.settings.pretty,
            r.dict.buf.spec_limits() == old(self).op.buf.spec_limits(),
            final(self).op.op == old(self).op.op,
            !final(self).op.first,
            *final(self).op.buf == *final(r.dict.buf),
            *final(final(self).op.buf) == *final(old(self).op.buf),
    {
        PropertyList::start(self.op.obj())
    }

    /// Reference a property list from the resource dictionary and write the
    /// operator. These property lists can be written using the
    /// [`Resources::properties`] method. Mutually exclusive with
    /// [`properties`](Self::properties).
    pub fn properties_named(self, name: Name)
        ensures
            final(self.op.buf)@ == old(self.op.buf)@ + (if self.op.first {
                Seq::empty()
            } else {
                " ".spec_bytes()
            }) + name_encoding(name.0@) + " ".spec_bytes() + self.op.op.spec_bytes()
                + "\n".spec_bytes(),
            final(self.op.buf).spec_limits() == old(self.op.buf).spec_limits().with_name_len(
                name.0@.len() as int,
            ),
    {
        let mut op = self.op;
        op.operand(name);
        op.finish();
    }

    /// Write the operator.
    pub fn finish(self)
        ensures
            final(self.op.buf)@ == old(self.op.buf)@ + (if self.op.first {
                Seq::empty()
            } else {
                " ".spec_bytes()
            }) + self.op.op.spec_bytes() + "\n".spec_bytes(),
            final(self.op.buf).spec_limits() == old(self.op.buf).spec_limits(),
    {
        self.op.finish();
    }
}

impl<'a> PropertyList<'a> {
    /// Start writing artifact property list. The tag of the marked content
    /// operation must have been `/Artifact`. PDF 1.4+.
    pub fn artifact(self) -> (r: Artifact<'a>)
        ensures
            r.dict == self.dict,
    {
        Artifact::start_with_dict(self.dict)
    }
}

/// Writer for an _artifact property list dictionary_. PDF 1.4+.
///
/// Required for marking up pagination artifacts in some PDF/A profiles.
pub struct Artifact<'a> {
    /// The underlying dictionary.
    pub dict: Dict<'a>,
}

impl<'a> Artifact<'a> {
    /// Start the wrapper.
    pub(crate) fn start_with_dict(dict: Dict<'a>) -> (r: Self)
        ensures
            r.dict == dict,
    {
        Self { dict }
    }

    /// Write the `/Type` entry to set the type of artifact. Specific to
    /// artifacts. PDF 1.4+.
    pub fn kind(&mut self, kind: ArtifactType) -> (r: &mut Self)
        requires
            0 <= old(self).dict.len < i32::MAX,
        ensures
            dict_name_pair_appended(old(self).dict, r.dict, "Type".spec_bytes(), kind.spec_name()),
            *final(r.dict.buf) == *final(old(self).dict.buf),
            *final(self) == *final(r),
    {
        self.dict.pair(Name("Type".as_bytes()), kind.to_name());
        self
    }

    /// Write the `/Subtype` entry to set the subtype of pagination or inline
    /// artifacts. Specific to artifacts. PDF 1.7+.
    pub fn subtype(&mut self, subtype: ArtifactSubtype) -> (r: &mut Self)
        requires
            0 <= old(self).dict.len < i32::MAX,
        ensures
            dict_name_pair_appended(old(self).dict, r.dict, "Subtype".spec_bytes(), subtype.spec_name()),
            *final(r.dict.buf) == *final(old(self).dict.buf),
            *final(self) == *final(r),
    {
        self.dict.pair(Name("Subtype".as_bytes()), subtype.to_name());
        self
    }

    /// Write the `/Attached` entry to set where the artifact is attached to the
    /// page. Only for pagination and full-page background artifacts. Specific
    /// to artifacts. PDF 1.4+.
    pub fn attached(&mut self, attachment: &[ArtifactAttachment]) -> (r: &mut Self)
        requires
            0 <= old(self).dict.len < i32::MAX,
            attachment@.len() <= i32::MAX,
        ensures
            dict_grown(
                old(self).dict,
                r.dict,
                dict_tokens_entry_bytes(
                    old(self).dict.buf@,
                    old(self).dict.settings.pretty,
                    old(self).dict.indent as int,
                    "Attached".spec_bytes(),
                    attachment@.map_values(|v: ArtifactAttachment| name_token(v.spec_name())),
                ),
                1,
            ),
            *final(r.dict.buf) == *final(old(self).dict.buf),
            *final(self) == *final(r),
    {
        let mut names: Vec<Name> = Vec::new();
        let mut i: usize = 0;
        while i < attachment.len()
            invariant
                i <= attachment@.len(),
                names@.len() == i,
                forall|j: int| 0 <= j < i ==> (#[trigger] names@[j]).0@ == attachment@[j].spec_name(),
            decreases attachment@.len() - i,
        {
            names.push(attachment[i].to_name());
            i = i + 1;
        }
        proof {
            lemma_items_as_tokens(
                old(self).dict.buf@ + dict_key_bytes(
                    old(self).dict.settings.pretty,
                    old(self).dict.indent as int,
                    "Attached".spec_bytes(),
                ) + seq![LBRACKET],
                0,
                old(self).dict.settings.pretty,
                names@,
            );
            assert(names@.map_values(|v: Name| token(v)) =~= attachment@.map_values(
                |v: ArtifactAttachment| name_token(v.spec_name()),
            ));
            assert(all_writable(names@));
        }
        write_items_entry(&mut self.dict, Name("Attached".as_bytes()), names.as_slice());
        self
    }

    /// Finish writing the dictionary.
    pub fn finish(self)
        requires
            self.dict.len >= 0,
            self.dict.indent >= 2,
        ensures
            final(self.dict.buf)@ == old(self.dict.buf)@ + dict_close_bytes(
                self.dict.len as int,
                self.dict.settings.pretty,
                self.dict.indent as int,
                self.dict.indirect,
            ),
            final(self.dict.buf).spec_limits() == old(self.dict.buf).spec_limits().with_dict_entries(self.dict.len as int),
    {
        self.dict.finish();
    }
}

impl Resources<'_> {
    /// Write the `/ProcSet` attribute.
    ///
    /// This defines what procedure sets are sent to an output device when
    /// printing the file as PostScript. The attribute is only used for PDFs
    /// with versions below 1.4.
    pub fn proc_sets(&mut self, sets: &[ProcSet]) -> (r: &mut Self)
        requires
            0 <= old(self).dict.len < i32::MAX,
            sets@.len() <= i32::MAX,
        ensures
            dict_grown(
                old(self).dict,
                r.dict,
                dict_tokens_entry_bytes(
                    old(self).dict.buf@,
                    old(self).dict.settings.pretty,
                    old(self).dict.indent as int,
                    "ProcSet".spec_bytes(),
                    sets@.map_values(|v: ProcSet| name_token(v.spec_name())),
                ),
                1,
            ),
            *final(r.dict.buf) == *final(old(self).dict.buf),
            *final(self) == *final(r),
    {
        let mut names: Vec<Name> = Vec::new();
        let mut i: usize = 0;
        while i < sets.len()
            invariant
                i <= sets@.len(),
                names@.len() == i,
                forall|j: int| 0 <= j < i ==> (#[trigger] names@[j]).0@ == sets@[j].spec_name(),
            decreases sets@.len() - i,
        {
            names.push(sets[i].to_name());
            i = i + 1;
        }
        proof {
            lemma_items_as_tokens(
                old(self).dict.buf@ + dict_key_bytes(
                    old(self).dict.settings.pretty,
                    old(self).dict.indent as int,
                    "ProcSet".spec_bytes(),
                ) + seq![LBRACKET],
                0,
                old(self).dict.settings.pretty,
                names@,
            );
            assert(names@.map_values(|v: Name| token(v)) =~= sets@.map_values(
                |v: ProcSet| name_token(v.spec_name()),
            ));
            assert(all_writable(names@));
        }
        write_items_entry(&mut self.dict, Name("ProcSet".as_bytes()), names.as_slice());
        self
    }

    /// Write the `/ProcSet` attribute with all available procedure sets.
    ///
    /// The PDF 1.7 specification recommends that modern PDFs either omit the
    /// attribute or specify all available procedure sets, as this function
    /// does.
    pub fn proc_sets_all(&mut self) -> (r: &mut Self)
        requires
            0 <= old(self).dict.len < i32::MAX,
        ensures
            dict_grown(
                old(self).dict,
                r.dict,
                dict_tokens_entry_bytes(
                    old(self).dict.buf@,
                    old(self).dict.settings.pretty,
                    old(self).dict.indent as int,
                    "ProcSet".spec_bytes(),
                    seq![
                        ProcSet::Pdf,
                        ProcSet::Text,
                        ProcSet::ImageGrayscale,
                        ProcSet::ImageColor,
                        ProcSet::ImageIndexed,
                    ].map_values(|v: ProcSet| name_token(v.spec_name())),
                ),
                1,
            ),
            *final(r.dict.buf) == *final(old(self).dict.buf),
            *final(self) == *final(r),
    {
        let sets = [
            ProcSet::Pdf,
            ProcSet::Text,
            ProcSet::ImageGrayscale,
            ProcSet::ImageColor,
            ProcSet::ImageIndexed,
        ];
        assert(sets@ =~= seq![
            ProcSet::Pdf,
            ProcSet::Text,
            ProcSet::ImageGrayscale,
            ProcSet::ImageColor,
            ProcSet::ImageIndexed,
        ]);
        self.proc_sets(sets.as_slice())
    }

    /// Start writing the `/Properties` attribute.
    ///
    /// This allows to write property lists with indirect objects for
    /// marked-content sequences. These properties can be used by property lists
    /// using the [`MarkContent::properties_named`] method. PDF 1.2+.
    pub fn properties(&mut self) -> (r: TypedDict<'_, PropertyList<'_>>)
        requires
            0 <= old(self).dict.len < i32::MAX,
        ensures
            dict_started(
                r.dict,
                old(self).dict.buf@ + dict_key_bytes(
                    old(self).dict.settings.pretty,
                    old(self).dict.indent as int,
                    "Properties".spec_bytes(),
                ),
                false,
                old(self).dict.indent,
                old(self).dict.settings,
                None,
                None,
            ),
            r.dict.buf.spec_limits() == old(self).dict.buf.spec_limits().with_name_len("Properties".spec_bytes().len() as int),
            final(self).dict.len == old(self).dict.len + 1,
            final(self).dict.indirect == old(self).dict.indirect,
            final(self).dict.indent == old(self).dict.indent,
            final(self).dict.settings == old(self).dict.settings,
            *final(self).dict.buf == *final(r.dict.buf),
            *final(final(self).dict.buf) == *final(old(self).dict.buf),
    {
        start_dict(self.dict.insert(Name("Properties".as_bytes())), None, None).typed()
    }
}

impl<'a, 'b> TypedDict<'a, PropertyList<'b>> {
    /// Start writing the property list stored under `key`.
    pub fn insert(&mut self, key: Name) -> (r: PropertyList<'_>)
        requires
            0 <= old(self).dict.len < i32::MAX,
        ensures
            dict_started(
                r.dict,
                old(self).dict.buf@ + dict_key_bytes(
                    old(self).dict.settings.pretty,
                    old(self).dict.indent as int,
                    key.0@,
                ),
                false,
                old(self).dict.indent,
                old(self).dict.settings,
                None,
                None,
            ),
            r.dict.buf.spec_limits() == old(self).dict.buf.spec_limits().with_name_len(key.0@.len() as int),
            final(self).dict.len == old(self).dict.len + 1,
            final(self).dict.indirect == old(self).dict.indirect,
            final(self).dict.indent == old(self).dict.indent,
            final(self).dict.settings == old(self).dict.settings,
            *final(self).dict.buf == *final(r.dict.buf),
            *final(final(self).dict.buf) == *final(old(self).dict.buf),
    {
        PropertyList::start(self.dict.insert(key))
    }
}

/// One more operand is separated from the ones before it by a space.
pub proof fn lemma_operands_push(operands: Seq<Seq<u8>>, x: Seq<u8>)
    ensures
        operands_bytes(operands.push(x)) == (if operands.len() == 0 {
            x
        } else {
            operands_bytes(operands) + " ".spec_bytes() + x
        }),
{
    assert(operands.push(x).drop_last() =~= operands);
    if operands.len() == 0 {
        assert(operands.push(x) =~= seq![x]);
    }
}

/// Operators with real-number operands.
impl Content {
    /// `w`: Set the stroke line width.
    ///
    /// The width must not be negative.
    pub fn set_line_width(&mut self, width: Real) -> (r: &mut Self)
        requires
            width.spec_writable(),
            !negative_text(width.0@),
        ensures
            r.spec_bytes() == old(self).spec_bytes() + operation_bytes(
                seq![width.0@],
                "w".spec_bytes(),
            ),
            r.spec_limits() == old(self).spec_limits(),
            r.spec_depth() == old(self).spec_depth(),
            *final(self) == *final(r),
    {
        let mut op = self.op("w");
        op.operand(width);
        op.finish();
        self
    }

    /// `M`: Set the miter limit.
    pub fn set_miter_limit(&mut self, limit: Real) -> (r: &mut Self)
        requires
            limit.spec_writable(),
        ensures
            r.spec_bytes() == old(self).spec_bytes() + operation_bytes(
                seq![limit.0@],
                "M".spec_bytes(),
            ),
            r.spec_limits() == old(self).spec_limits(),
            r.spec_depth() == old(self).spec_depth(),
            *final(self) == *final(r),
    {
        let mut op = self.op("M");
        op.operand(limit);
        op.finish();
        self
    }

    /// `cm`: Pre-concatenate the `matrix` with the current transformation
    /// matrix.
    pub fn transform(&mut self, matrix: [Real; 6]) -> (r: &mut Self)
        requires
            all_writable(matrix@),
        ensures
            r.spec_bytes() == old(self).spec_bytes() + operation_bytes(
                matrix@.map_values(|v: Real| v.0@),
                "cm".spec_bytes(),
            ),
            r.spec_limits() == old(self).spec_limits(),
            r.spec_depth() == old(self).spec_depth(),
            *final(self) == *final(r),
    {
        let mut op = self.op("cm");
        assert(matrix@.map_values(|v: Real| v.spec_encoding()) =~= matrix@.map_values(|v: Real| v.0@));
        op.operands(matrix.as_slice());
        op.finish();
        self
    }

    /// `m`: Begin a new subpath at (x, y).
    pub fn move_to(&mut self, x: Real, y: Real) -> (r: &mut Self)
        requires
            x.spec_writable(),
            y.spec_writable(),
        ensures
            r.spec_bytes() == old(self).spec_bytes() + operation_bytes(
                seq![x.0@, y.0@],
                "m".spec_bytes(),
            ),
            r.spec_limits() == old(self).spec_limits(),
            r.spec_depth() == old(self).spec_depth(),
            *final(self) == *final(r),
    {
        let mut op = self.op("m");
        let values = [x, y];
        assert(values@ =~= seq![x, y]);
        assert(values@.map_values(|v: Real| v.spec_encoding()) =~= seq![x.0@, y.0@]);
        op.operands(values.as_slice());
        op.finish();
        self
    }

    /// `l`: Append a straight line to (x, y).
    pub fn line_to(&mut self, x: Real, y: Real) -> (r: &mut Self)
        requires
            x.spec_writable(),
            y.spec_writable(),
        ensures
            r.spec_bytes() == old(self).spec_bytes() + operation_bytes(
                seq![x.0@, y.0@],
                "l".spec_bytes(),
            ),
            r.spec_limits() == old(self).spec_limits(),
            r.spec_depth() == old(self).spec_depth(),
            *final(self) == *final(r),
    {
        let mut op = self.op("l");
        let values = [x, y];
        assert(values@ =~= seq![x, y]);
        assert(values@.map_values(|v: Real| v.spec_encoding()) =~= seq![x.0@, y.0@]);
        op.operands(values.as_slice());
        op.finish();
        self
    }

    /// `c`: Append a cubic Bézier segment to (x3, y3) with (x1, y1), (x2, y2)
    /// as control points.
    pub fn cubic_to(&mut self, x1: Real, y1: Real, x2: Real, y2: Real, x3: Real, y3: Real) -> (r: &mut Self)
        requires
            x1.spec_writable(),
            y1.spec_writable(),
            x2.spec_writable(),
            y2.spec_writable(),
            x3.spec_writable(),
            y3.spec_writable(),
        ensures
            r.spec_bytes() == old(self).spec_bytes() + operation_bytes(
                seq![x1.0@, y1.0@, x2.0@, y2.0@, x3.0@, y3.0@],
                "c".spec_bytes(),
            ),
            r.spec_limits() == old(self).spec_limits(),
            r.spec_depth() == old(self).spec_depth(),
            *final(self) == *final(r),
    {
        let mut op = self.op("c");
        let values = [x1, y1, x2, y2, x3, y3];
        assert(values@ =~= seq![x1, y1, x2, y2, x3, y3]);
        assert(values@.map_values(|v: Real| v.spec_encoding()) =~= seq![x1.0@, y1.0@, x2.0@, y2.0@, x3.0@, y3.0@]);
        op.operands(values.as_slice());
        op.finish();
        self
    }

    /// `v`: Append a cubic Bézier segment to (x3, y3) with (x2, y2) as control
    /// point.
    pub fn cubic_to_initial(&mut self, x2: Real, y2: Real, x3: Real, y3: Real) -> (r: &mut Self)
        requires
            x2.spec_writable(),
            y2.spec_writable(),
            x3.spec_writable(),
            y3.spec_writable(),
        ensures
            r.spec_bytes() == old(self).spec_bytes() + operation_bytes(
                seq![x2.0@, y2.0@, x3.0@, y3.0@],
                "v".spec_bytes(),
            ),
            r.spec_limits() == old(self).spec_limits(),
            r.spec_depth() == old(self).spec_depth(),
            *final(self) == *final(r),
    {
        let mut op = self.op("v");
        let values = [x2, y2, x3, y3];
        assert(values@ =~= seq![x2, y2, x3, y3]);
        assert(values@.map_values(|v: Real| v.spec_encoding()) =~= seq![x2.0@, y2.0@, x3.0@, y3.0@]);
        op.operands(values.as_slice());
        op.finish();
        self
    }

    /// `y`: Append a cubic Bézier segment to (x3, y3) with (x1, y1) as control
    /// point.
    pub fn cubic_to_final(&mut self, x1: Real, y1: Real, x3: Real, y3: Real) -> (r: &mut Self)
        requires
            x1.spec_writable(),
            y1.spec_writable(),
            x3.spec_writable(),
            y3.spec_writable(),
        ensures
            r.spec_bytes() == old(self).spec_bytes() + operation_bytes(
                seq![x1.0@, y1.0@, x3.0@, y3.0@],
                "y".spec_bytes(),
            ),
            r.spec_limits() == old(self).spec_limits(),
            r.spec_depth() == old(self).spec_depth(),
            *final(self) == *final(r),
    {
        let mut op = self.op("y");
        let values = [x1, y1, x3, y3];
        assert(values@ =~= seq![x1, y1, x3, y3]);
        assert(values@.map_values(|v: Real| v.spec_encoding()) =~= seq![x1.0@, y1.0@, x3.0@, y3.0@]);
        op.operands(values.as_slice());
        op.finish();
        self
    }

    /// `re`: Append a rectangle to the current path.
    pub fn rect(&mut self, x: Real, y: Real, width: Real, height: Real) -> (r: &mut Self)
        requires
            x.spec_writable(),
            y.spec_writable(),
            width.spec_writable(),
            height.spec_writable(),
        ensures
            r.spec_bytes() == old(self).spec_bytes() + operation_bytes(
                seq![x.0@, y.0@, width.0@, height.0@],
                "re".spec_bytes(),
            ),
            r.spec_limits() == old(self).spec_limits(),
            r.spec_depth() == old(self).spec_depth(),
            *final(self) == *final(r),
    {
        let mut op = self.op("re");
        let values = [x, y, width, height];
        assert(values@ =~= seq![x, y, width, height]);
        assert(values@.map_values(|v: Real| v.spec_encoding()) =~= seq![x.0@, y.0@, width.0@, height.0@]);
        op.operands(values.as_slice());
        op.finish();
        self
    }

    /// `Tc`: Set the character spacing.
    pub fn set_char_spacing(&mut self, spacing: Real) -> (r: &mut Self)
        requires
            spacing.spec_writable(),
        ensures
            r.spec_bytes() == old(self).spec_bytes() + operation_bytes(
                seq![spacing.0@],
                "Tc".spec_bytes(),
            ),
            r.spec_limits() == old(self).spec_limits(),
            r.spec_depth() == old(self).spec_depth(),
            *final(self) == *final(r),
    {
        let mut op = self.op("Tc");
        op.operand(spacing);
        op.finish();
        self
    }

    /// `Tw`: Set the word spacing.
    pub fn set_word_spacing(&mut self, spacing: Real) -> (r: &mut Self)
        requires
            spacing.spec_writable(),
        ensures
            r.spec_bytes() == old(self).spec_bytes() + operation_bytes(
                seq![spacing.0@],
                "Tw".spec_bytes(),
            ),
            r.spec_limits() == old(self).spec_limits(),
            r.spec_depth() == old(self).spec_depth(),
            *final(self) == *final(r),
    {
        let mut op = self.op("Tw");
        op.operand(spacing);
        op.finish();
        self
    }

    /// `Tz`: Set the horizontal scaling.
    pub fn set_horizontal_scaling(&mut self, scaling: Real) -> (r: &mut Self)
        requires
            scaling.spec_writable(),
        ensures
            r.spec_bytes() == old(self).spec_bytes() + operation_bytes(
                seq![scaling.0@],
                "Tz".spec_bytes(),
            ),
            r.spec_limits() == old(self).spec_limits(),
            r.spec_depth() == old(self).spec_depth(),
            *final(self) == *final(r),
    {
        let mut op = self.op("Tz");
        op.operand(scaling);
        op.finish();
        self
    }

    /// `TL`: Set the leading.
    pub fn set_leading(&mut self, leading: Real) -> (r: &mut Self)
        requires
            leading.spec_writable(),
        ensures
            r.spec_bytes() == old(self).spec_bytes() + operation_bytes(
                seq![leading.0@],
                "TL".spec_bytes(),
            ),
            r.spec_limits() == old(self).spec_limits(),
            r.spec_depth() == old(self).spec_depth(),
            *final(self) == *final(r),
    {
        let mut op = self.op("TL");
        op.operand(leading);
        op.finish();
        self
    }

    /// `Tf`: Set font and font size.
    pub fn set_font(&mut self, font: Name, size: Real) -> (r: &mut Self)
        requires
            size.spec_writable(),
        ensures
            r.spec_bytes() == old(self).spec_bytes() + operation_bytes(
                seq![name_encoding(font.0@), size.0@],
                "Tf".spec_bytes(),
            ),
            r.spec_limits() == old(self).spec_limits().with_name_len(font.0@.len() as int),
            r.spec_depth() == old(self).spec_depth(),
            *final(self) == *final(r),
    {
        let mut op = self.op("Tf");
        op.operand(font);
        op.operand(size);
        proof {
            lemma_operands_push(seq![name_encoding(font.0@)], size.0@);
            assert(seq![name_encoding(font.0@)].push(size.0@) =~= seq![name_encoding(font.0@), size.0@]);
        }
        op.finish();
        self
    }

    /// `Ts`: Set the rise.
    pub fn set_rise(&mut self, rise: Real) -> (r: &mut Self)
        requires
            rise.spec_writable(),
        ensures
            r.spec_bytes() == old(self).spec_bytes() + operation_bytes(
                seq![rise.0@],
                "Ts".spec_bytes(),
            ),
            r.spec_limits() == old(self).spec_limits(),
            r.spec_depth() == old(self).spec_depth(),
            *final(self) == *final(r),
    {
        let mut op = self.op("Ts");
        op.operand(rise);
        op.finish();
        self
    }

    /// `Td`: Move to the start of the next line.
    pub fn next_line(&mut self, x: Real, y: Real) -> (r: &mut Self)
        requires
            x.spec_writable(),
            y.spec_writable(),
        ensures
            r.spec_bytes() == old(self).spec_bytes() + operation_bytes(
                seq![x.0@, y.0@],
                "Td".spec_bytes(),
            ),
            r.spec_limits() == old(self).spec_limits(),
            r.spec_depth() == old(self).spec_depth(),
            *final(self) == *final(r),
    {
        let mut op = self.op("Td");
        let values = [x, y];
        assert(values@ =~= seq![x, y]);
        assert(values@.map_values(|v: Real| v.spec_encoding()) =~= seq![x.0@, y.0@]);
        op.operands(values.as_slice());
        op.finish();
        self
    }

    /// `TD`: Move to the start of the next line and set the text state's
    /// leading parameter to `-y`.
    pub fn next_line_and_set_leading(&mut self, x: Real, y: Real) -> (r: &mut Self)
        requires
            x.spec_writable(),
            y.spec_writable(),
        ensures
            r.spec_bytes() == old(self).spec_bytes() + operation_bytes(
                seq![x.0@, y.0@],
                "TD".spec_bytes(),
            ),
            r.spec_limits() == old(self).spec_limits(),
            r.spec_depth() == old(self).spec_depth(),
            *final(self) == *final(r),
    {
        let mut op = self.op("TD");
        let values = [x, y];
        assert(values@ =~= seq![x, y]);
        assert(values@.map_values(|v: Real| v.spec_encoding()) =~= seq![x.0@, y.0@]);
        op.operands(values.as_slice());
        op.finish();
        self
    }

    /// `Tm`: Set the text matrix.
    pub fn set_text_matrix(&mut self, matrix: [Real; 6]) -> (r: &mut Self)
        requires
            all_writable(matrix@),
        ensures
            r.spec_bytes() == old(self).spec_bytes() + operation_bytes(
                matrix@.map_values(|v: Real| v.0@),
                "Tm".spec_bytes(),
            ),
            r.spec_limits() == old(self).spec_limits(),
            r.spec_depth() == old(self).spec_depth(),
            *final(self) == *final(r),
    {
        let mut op = self.op("Tm");
        assert(matrix@.map_values(|v: Real| v.spec_encoding()) =~= matrix@.map_values(|v: Real| v.0@));
        op.operands(matrix.as_slice());
        op.finish();
        self
    }

    /// `"`: Move to the next line, show text and set the text state's word and
    /// character spacing.
    pub fn next_line_show_and_set_word_and_char_spacing(&mut self, word_spacing: Real, char_spacing: Real, text: Str) -> (r: &mut Self)
        requires
            word_spacing.spec_writable(),
            char_spacing.spec_writable(),
        ensures
            r.spec_bytes() == old(self).spec_bytes() + operation_bytes(
                seq![word_spacing.0@, char_spacing.0@, str_encoding(text.0@)],
                "\"".spec_bytes(),
            ),
            r.spec_limits() == old(self).spec_limits().with_str_len(text.0@.len() as int),
            r.spec_depth() == old(self).spec_depth(),
            *final(self) == *final(r),
    {
        let mut op = self.op("\"");
        let values = [word_spacing, char_spacing];
        assert(values@ =~= seq![word_spacing, char_spacing]);
        assert(values@.map_values(|v: Real| v.spec_encoding()) =~= seq![word_spacing.0@, char_spacing.0@]);
        op.operands(values.as_slice());
        op.operand(text);
        assert(seq![word_spacing.0@, char_spacing.0@, str_encoding(text.0@)].drop_last() =~= seq![
            word_spacing.0@,
            char_spacing.0@,
        ]);
        op.finish();
        self
    }

    /// `d0`: Starts a Type 3 glyph that contains color information.
    /// - `wx` defines the glyph's width
    /// - `wy` is set to 0.0 automatically
    pub fn start_color_glyph(&mut self, wx: Real) -> (r: &mut Self)
        requires
            wx.spec_writable(),
        ensures
            r.spec_bytes() == old(self).spec_bytes() + operation_bytes(
                seq![wx.0@, "0".spec_bytes()],
                "d0".spec_bytes(),
            ),
            r.spec_limits() == old(self).spec_limits(),
            r.spec_depth() == old(self).spec_depth(),
            *final(self) == *final(r),
    {
        let zero = Real("0".as_bytes());
        proof {
            reveal_strlit("0");
            vstd::string::is_ascii_spec_bytes("0");
            assert("0".spec_bytes() =~= seq![48u8]);
            assert(is_digit(zero.0@[0]));
        }
        let mut op = self.op("d0");
        let values = [wx, zero];
        assert(values@ =~= seq![wx, zero]);
        assert(values@.map_values(|v: Real| v.spec_encoding()) =~= seq![wx.0@, zero.0@]);
        op.operands(values.as_slice());
        op.finish();
        self
    }

    /// `d1`: Starts a Type 3 glyph that contains only shape information.
    /// - `wx` defines the glyph's width
    /// - `wy` is set to 0.0 automatically
    /// - `ll_x` and `ll_y` define the lower-left corner of the glyph bounding box
    /// - `ur_x` and `ur_y` define the upper-right corner of the glyph bounding box
    pub fn start_shape_glyph(&mut self, wx: Real, ll_x: Real, ll_y: Real, ur_x: Real, ur_y: Real) -> (r: &mut Self)
        requires
            wx.spec_writable(),
            ll_x.spec_writable(),
            ll_y.spec_writable(),
            ur_x.spec_writable(),
            ur_y.spec_writable(),
        ensures
            r.spec_bytes() == old(self).spec_bytes() + operation_bytes(
                seq![wx.0@, "0".spec_bytes(), ll_x.0@, ll_y.0@, ur_x.0@, ur_y.0@],
                "d1".spec_bytes(),
            ),
            r.spec_limits() == old(self).spec_limits(),
            r.spec_depth() == old(self).spec_depth(),
            *final(self) == *final(r),
    {
        let zero = Real("0".as_bytes());
        proof {
            reveal_strlit("0");
            vstd::string::is_ascii_spec_bytes("0");
            assert("0".spec_bytes() =~= seq![48u8]);
            assert(is_digit(zero.0@[0]));
        }
        let mut op = self.op("d1");
        let values = [wx, zero, ll_x, ll_y, ur_x, ur_y];
        assert(values@ =~= seq![wx, zero, ll_x, ll_y, ur_x, ur_y]);
        assert(values@.map_values(|v: Real| v.spec_encoding()) =~= seq![wx.0@, zero.0@, ll_x.0@, ll_y.0@, ur_x.0@, ur_y.0@]);
        op.operands(values.as_slice());
        op.finish();
        self
    }

    /// `SCN`: Set the stroke color to the parameter within the current color
    /// space. PDF 1.2+.
    pub fn set_stroke_color(&mut self, color: &[Real]) -> (r: &mut Self)
        requires
            all_writable(color@),
        ensures
            r.spec_bytes() == old(self).spec_bytes() + operation_bytes(
                color@.map_values(|v: Real| v.0@),
                "SCN".spec_bytes(),
            ),
            r.spec_limits() == old(self).spec_limits(),
            r.spec_depth() == old(self).spec_depth(),
            *final(self) == *final(r),
    {
        let mut op = self.op("SCN");
        assert(color@.map_values(|v: Real| v.spec_encoding()) =~= color@.map_values(|v: Real| v.0@));
        op.operands(color);
        op.finish();
        self
    }

    /// `SCN`: Set the stroke pattern. PDF 1.2+.
    ///
    /// The `name` parameter is the name of a pattern. If this is an uncolored
    /// pattern, a tint color in the current `Pattern` base color space must be
    /// given, otherwise, the `color` iterator shall remain empty.
    pub fn set_stroke_pattern(&mut self, tint: &[Real], name: Name) -> (r: &mut Self)
        requires
            all_writable(tint@),
        ensures
            r.spec_bytes() == old(self).spec_bytes() + operation_bytes(
                tint@.map_values(|v: Real| v.0@) + seq![name_encoding(name.0@)],
                "SCN".spec_bytes(),
            ),
            r.spec_limits() == old(self).spec_limits().with_name_len(name.0@.len() as int),
            r.spec_depth() == old(self).spec_depth(),
            *final(self) == *final(r),
    {
        let mut op = self.op("SCN");
        assert(tint@.map_values(|v: Real| v.spec_encoding()) =~= tint@.map_values(|v: Real| v.0@));
        op.operands(tint);
        op.operand(name);
        proof {
            lemma_operands_push(tint@.map_values(|v: Real| v.0@), name_encoding(name.0@));
            assert(tint@.map_values(|v: Real| v.0@) + seq![name_encoding(name.0@)] =~= tint@.map_values(
                |v: Real| v.0@,
            ).push(name_encoding(name.0@)));
        }
        op.finish();
        self
    }

    /// `scn`: Set the fill color to the parameter within the current color
    /// space. PDF 1.2+.
    pub fn set_fill_color(&mut self, color: &[Real]) -> (r: &mut Self)
        requires
            all_writable(color@),
        ensures
            r.spec_bytes() == old(self).spec_bytes() + operation_bytes(
                color@.map_values(|v: Real| v.0@),
                "scn".spec_bytes(),
            ),
            r.spec_limits() == old(self).spec_limits(),
            r.spec_depth() == old(self).spec_depth(),
            *final(self) == *final(r),
    {
        let mut op = self.op("scn");
        assert(color@.map_values(|v: Real| v.spec_encoding()) =~= color@.map_values(|v: Real| v.0@));
        op.operands(color);
        op.finish();
        self
    }

    /// `scn`: Set the fill pattern. PDF 1.2+.
    ///
    /// The `name` parameter is the name of a pattern. If this is an uncolored
    /// pattern, a tint color in the current `Pattern` base color space must be
    /// given, otherwise, the `color` iterator shall remain empty.
    pub fn set_fill_pattern(&mut self, tint: &[Real], name: Name) -> (r: &mut Self)
        requires
            all_writable(tint@),
        ensures
            r.spec_bytes() == old(self).spec_bytes() + operation_bytes(
                tint@.map_values(|v: Real| v.0@) + seq![name_encoding(name.0@)],
                "scn".spec_bytes(),
            ),
            r.spec_limits() == old(self).spec_limits().with_name_len(name.0@.len() as int),
            r.spec_depth() == old(self).spec_depth(),
            *final(self) == *final(r),
    {
        let mut op = self.op("scn");
        assert(tint@.map_values(|v: Real| v.spec_encoding()) =~= tint@.map_values(|v: Real| v.0@));
        op.operands(tint);
        op.operand(name);
        proof {
            lemma_operands_push(tint@.map_values(|v: Real| v.0@), name_encoding(name.0@));
            assert(tint@.map_values(|v: Real| v.0@) + seq![name_encoding(name.0@)] =~= tint@.map_values(
                |v: Real| v.0@,
            ).push(name_encoding(name.0@)));
        }
        op.finish();
        self
    }

    /// `G`: Set the stroke color to the parameter and the color space to
    /// `DeviceGray`.
    pub fn set_stroke_gray(&mut self, gray: Real) -> (r: &mut Self)
        requires
            gray.spec_writable(),
        ensures
            r.spec_bytes() == old(self).spec_bytes() + operation_bytes(
                seq![gray.0@],
                "G".spec_bytes(),
            ),
            r.spec_limits() == old(self).spec_limits(),
            r.spec_depth() == old(self).spec_depth(),
            *final(self) == *final(r),
    {
        let mut op = self.op("G");
        op.operand(gray);
        op.finish();
        self
    }

    /// `g`: Set the fill color to the parameter and the color space to
    /// `DeviceGray`.
    pub fn set_fill_gray(&mut self, gray: Real) -> (r: &mut Self)
        requires
            gray.spec_writable(),
        ensures
            r.spec_bytes() == old(self).spec_bytes() + operation_bytes(
                seq![gray.0@],
                "g".spec_bytes(),
            ),
            r.spec_limits() == old(self).spec_limits(),
            r.spec_depth() == old(self).spec_depth(),
            *final(self) == *final(r),
    {
        let mut op = self.op("g");
        op.operand(gray);
        op.finish();
        self
    }

    /// `RG`: Set the stroke color to the parameter and the color space to
    /// `DeviceRGB`.
    pub fn set_stroke_rgb(&mut self, r: Real, g: Real, b: Real) -> (this: &mut Self)
        requires
            r.spec_writable(),
            g.spec_writable(),
            b.spec_writable(),
        ensures
            this.spec_bytes() == old(self).spec_bytes() + operation_bytes(
                seq![r.0@, g.0@, b.0@],
                "RG".spec_bytes(),
            ),
            this.spec_limits() == old(self).spec_limits(),
            this.spec_depth() == old(self).spec_depth(),
            *final(self) == *final(this),
    {
        let mut op = self.op("RG");
        let values = [r, g, b];
        assert(values@ =~= seq![r, g, b]);
        assert(values@.map_values(|v: Real| v.spec_encoding()) =~= seq![r.0@, g.0@, b.0@]);
        op.operands(values.as_slice());
        op.finish();
        self
    }

    /// `rg`: Set the fill color to the parameter and the color space to
    /// `DeviceRGB`.
    pub fn set_fill_rgb(&mut self, r: Real, g: Real, b: Real) -> (this: &mut Self)
        requires
            r.spec_writable(),
            g.spec_writable(),
            b.spec_writable(),
        ensures
            this.spec_bytes() == old(self).spec_bytes() + operation_bytes(
                seq![r.0@, g.0@, b.0@],
                "rg".spec_bytes(),
            ),
            this.spec_limits() == old(self).spec_limits(),
            this.spec_depth() == old(self).spec_depth(),
            *final(self) == *final(this),
    {
        let mut op = self.op("rg");
        let values = [r, g, b];
        assert(values@ =~= seq![r, g, b]);
        assert(values@.map_values(|v: Real| v.spec_encoding()) =~= seq![r.0@, g.0@, b.0@]);
        op.operands(values.as_slice());
        op.finish();
        self
    }

    /// `K`: Set the stroke color to the parameter and the color space to
    /// `DeviceCMYK`.
    pub fn set_stroke_cmyk(&mut self, c: Real, m: Real, y: Real, k: Real) -> (r: &mut Self)
        requires
            c.spec_writable(),
            m.spec_writable(),
            y.spec_writable(),
            k.spec_writable(),
        ensures
            r.spec_bytes() == old(self).spec_bytes() + operation_bytes(
                seq![c.0@, m.0@, y.0@, k.0@],
                "K".spec_bytes(),
            ),
            r.spec_limits() == old(self).spec_limits(),
            r.spec_depth() == old(self).spec_depth(),
            *final(self) == *final(r),
    {
        let mut op = self.op("K");
        let values = [c, m, y, k];
        assert(values@ =~= seq![c, m, y, k]);
        assert(values@.map_values(|v: Real| v.spec_encoding()) =~= seq![c.0@, m.0@, y.0@, k.0@]);
        op.operands(values.as_slice());
        op.finish();
        self
    }

    /// `k`: Set the fill color to the parameter and the color space to
    /// `DeviceCMYK`.
    pub fn set_fill_cmyk(&mut self, c: Real, m: Real, y: Real, k: Real) -> (r: &mut Self)
        requires
            c.spec_writable(),
            m.spec_writable(),
            y.spec_writable(),
            k.spec_writable(),
        ensures
            r.spec_bytes() == old(self).spec_bytes() + operation_bytes(
                seq![c.0@, m.0@, y.0@, k.0@],
                "k".spec_bytes(),
            ),
            r.spec_limits() == old(self).spec_limits(),
            r.spec_depth() == old(self).spec_depth(),
            *final(self) == *final(r),
    {
        let mut op = self.op("k");
        let values = [c, m, y, k];
        assert(values@ =~= seq![c, m, y, k]);
        assert(values@.map_values(|v: Real| v.spec_encoding()) =~= seq![c.0@, m.0@, y.0@, k.0@]);
        op.operands(values.as_slice());
        op.finish();
        self
    }
}

/// An array of real numbers in a content stream: the numbers separated by
/// spaces, in brackets.
pub open spec fn real_array_bytes(values: Seq<Real>) -> Seq<u8> {
    seq![LBRACKET] + operands_bytes(values.map_values(|v: Real| v.0@)) + seq![RBRACKET]
}

/// With pretty-printing, the items of an array are their encodings separated
/// by spaces, whatever comes before them.
pub proof fn lemma_pretty_items<T: Primitive>(before: Seq<u8>, values: Seq<T>)
    ensures
        array_items_bytes(before, 0, true, values) == operands_bytes(
            values.map_values(|v: T| v.spec_encoding()),
        ),
    decreases values.len(),
{
    if values.len() > 0 {
        let n = values.len() as int;
        lemma_pretty_items(before, values.drop_last());
        let m = values.map_values(|v: T| v.spec_encoding());
        assert(m.drop_last() =~= values.drop_last().map_values(|v: T| v.spec_encoding()));
        let prev = array_items_bytes(before, 0, true, values.drop_last());
        let last = values.last();
        let sep = array_separator(n - 1, true);
        assert(obj_end(false, true) =~= Seq::<u8>::empty());
        assert(primitive_enc_bytes(
            before + prev + sep,
            false,
            last.spec_encoding(),
            last.spec_starts_with_delimiter(),
            false,
            true,
        ) =~= last.spec_encoding());
        assert(array_item_bytes(before + prev, n - 1, true, last) =~= sep + last.spec_encoding());
        assert(m.last() == last.spec_encoding());
        assert(array_items_bytes(before, 0, true, values) == prev + array_item_bytes(
            before + prev,
            n - 1,
            true,
            last,
        ));
        if n == 1 {
            assert(prev =~= Seq::<u8>::empty());
            assert(m[0] == last.spec_encoding());
            assert(operands_bytes(m) == m[0]);
            assert(array_items_bytes(before, 0, true, values) =~= operands_bytes(m));
        } else {
            assert(operands_bytes(m) == operands_bytes(m.drop_last()) + " ".spec_bytes() + m.last());
            reveal_strlit(" ");
            vstd::string::is_ascii_spec_bytes(" ");
            assert(sep =~= " ".spec_bytes());
            assert(array_items_bytes(before, 0, true, values) =~= operands_bytes(m));
        }
    } else {
        assert(values.map_values(|v: T| v.spec_encoding()).len() == 0);
    }
}

impl Content {
    /// `d`: Set the line dash pattern.
    pub fn set_dash_pattern(&mut self, array: &[Real], phase: Real) -> (r: &mut Self)
        requires
            array@.len() <= i32::MAX,
            all_writable(array@),
            phase.spec_writable(),
        ensures
            r.spec_bytes() == old(self).spec_bytes() + operation_bytes(
                seq![real_array_bytes(array@), phase.0@],
                "d".spec_bytes(),
            ),
            r.spec_limits() == old(self).spec_limits().with_array_len(array@.len() as int),
            r.spec_depth() == old(self).spec_depth(),
            *final(self) == *final(r),
    {
        let mut op = self.op("d");
        let ghost before = op.buf@;
        let mut list = op.obj().array();
        let ghost start = list.buf@;
        list.items(array);
        proof {
            lemma_pretty_items(start, array@);
            assert(array@.map_values(|v: Real| v.spec_encoding()) =~= array@.map_values(|v: Real| v.0@));
        }
        list.finish();
        assert(op.buf@ =~= before + real_array_bytes(array@));
        op.operand(phase);
        op.finish();
        proof {
            lemma_operands_push(seq![real_array_bytes(array@)], phase.0@);
            assert(seq![real_array_bytes(array@)].push(phase.0@) =~= seq![
                real_array_bytes(array@),
                phase.0@,
            ]);
        }
        self
    }

    /// `TJ`: Start showing text with individual glyph positioning. PDF 1.0+.
    pub fn show_positioned(&mut self) -> (r: ShowPositioned<'_>)
        ensures
            r.op.buf@ == old(self).spec_bytes(),
            r.op.buf.spec_limits() == old(self).spec_limits(),
            r.op.op == "TJ",
            r.op.first,
            final(self).spec_bytes() == final(r.op.buf)@,
            final(self).spec_limits() == final(r.op.buf).spec_limits(),
            final(self).spec_depth() == old(self).spec_depth(),
    {
        ShowPositioned::start(self.op("TJ"))
    }
}

/// Writer for a _positioned text showing operation_.
///
/// This struct is created by [`Content::show_positioned`]. Call
/// [`ShowPositioned::finish`] to write the operator.
pub struct ShowPositioned<'a> {
    /// The operation being written.
    pub op: Operation<'a>,
}

impl<'a> ShowPositioned<'a> {
    /// Start the wrapper.
    pub(crate) fn start(op: Operation<'a>) -> (r: Self)
        ensures
            r.op == op,
    {
        Self { op }
    }

    /// Start writing the array of strings and adjustments. Required.
    pub fn items(&mut self) -> (r: PositionedItems<'_>)
        ensures
            array_started(
                r.array,
                old(self).op.buf@ + (if old(self).op.first {
                    Seq::empty()
                } else {
                    " ".spec_bytes()
                }),
                false,
                0,
                r.array.settings,
            ),
            r.array.settings.pretty,
            r.array.buf.spec_limits() == old(self).op.buf.spec_limits(),
            final(self).op.op == old(self).op.op,
            !final(self).op.first,
            *final(self).op.buf == *final(r.array.buf),
            *final(final(self).op.buf) == *final(old(self).op.buf),
    {
        PositionedItems::start(self.op.obj())
    }

    /// Write the operator.
    pub fn finish(self)
        ensures
            final(self.op.buf)@ == old(self.op.buf)@ + (if self.op.first {
                Seq::empty()
            } else {
                " ".spec_bytes()
            }) + self.op.op.spec_bytes() + "\n".spec_bytes(),
            final(self.op.buf).spec_limits() == old(self.op.buf).spec_limits(),
    {
        self.op.finish();
    }
}

/// Writer for _positioned items_.
///
/// This struct is created by [`ShowPositioned::items`].
pub struct PositionedItems<'a> {
    /// The array being written.
    pub array: Array<'a>,
}

impl<'a> PositionedItems<'a> {
    /// Start writing the array on an object.
    pub(crate) fn start(obj: Obj<'a>) -> (r: Self)
        ensures
            array_started(r.array, old(obj.buf)@, obj.indirect, obj.indent, obj.settings),
            r.array.buf.spec_limits() == old(obj.buf).spec_limits(),
            *final(r.array.buf) == *final(obj.buf),
    {
        Self { array: obj.array() }
    }

    /// Show a continuous string without adjustments.
    ///
    /// To increase efficiency, consecutive strings should be combined into
    /// one.
    pub fn show(&mut self, text: Str) -> (r: &mut Self)
        requires
            0 <= old(self).array.len < i32::MAX,
        ensures
            array_item_appended(old(self).array, r.array, text),
            *final(r.array.buf) == *final(old(self).array.buf),
            *final(self) == *final(r),
    {
        self.array.item(text);
        self
    }

    /// Specify an adjustment between two glyphs.
    ///
    /// The `amount` is specified in thousands of units of text space and is
    /// subtracted from the current writing-mode dependent coordinate.
    pub fn adjust(&mut self, amount: Real) -> (r: &mut Self)
        requires
            0 <= old(self).array.len < i32::MAX,
            amount.spec_writable(),
        ensures
            array_item_appended(old(self).array, r.array, amount),
            *final(r.array.buf) == *final(old(self).array.buf),
            *final(self) == *final(r),
    {
        self.array.item(amount);
        self
    }

    /// Finish the array.
    pub fn finish(self)
        requires
            self.array.len >= 0,
        ensures
            final(self.array.buf)@ == old(self.array.buf)@ + array_close_bytes(
                self.array.indirect,
                self.array.settings.pretty,
            ),
            final(self.array.buf).spec_limits() == old(self.array.buf).spec_limits().with_array_len(
                self.array.len as int,
            ),
    {
        self.array.finish();
    }
}

/// Attributes with real-number values.
impl Artifact<'_> {
    /// Write the `/BBox` entry to set the bounding box of the artifact.
    /// Specific to artifacts. Required for background artifacts. PDF 1.4+.
    pub fn bounding_box(&mut self, bbox: Rect) -> (r: &mut Self)
        requires
            0 <= old(self).dict.len < i32::MAX,
            bbox.spec_writable(),
        ensures
            dict_pair_appended(old(self).dict, r.dict, "BBox".spec_bytes(), bbox),
            *final(r.dict.buf) == *final(old(self).dict.buf),
            *final(self) == *final(r),
    {
        self.dict.pair(Name("BBox".as_bytes()), bbox);
        self
    }
}

/// Attributes with real-number values.
impl ExtGraphicsState<'_> {
    /// Write the `LW` attribute to set the line width. PDF 1.3+.
    pub fn line_width(&mut self, width: Real) -> (r: &mut Self)
        requires
            0 <= old(self).dict.len < i32::MAX,
            width.spec_writable(),
        ensures
            dict_pair_appended(old(self).dict, r.dict, "LW".spec_bytes(), width),
            *final(r.dict.buf) == *final(old(self).dict.buf),
            *final(self) == *final(r),
    {
        self.dict.pair(Name("LW".as_bytes()), width);
        self
    }

    /// Write the `ML` attribute to set the miter limit. PDF 1.3+.
    pub fn miter_limit(&mut self, limit: Real) -> (r: &mut Self)
        requires
            0 <= old(self).dict.len < i32::MAX,
            limit.spec_writable(),
        ensures
            dict_pair_appended(old(self).dict, r.dict, "ML".spec_bytes(), limit),
            *final(r.dict.buf) == *final(old(self).dict.buf),
            *final(self) == *final(r),
    {
        self.dict.pair(Name("ML".as_bytes()), limit);
        self
    }

    /// Write the `FL` attribute to set the flatness tolerance. PDF 1.3+.
    ///
    /// Note that this key may be ignored in PDF/A.
    pub fn flatness(&mut self, tolerance: Real) -> (r: &mut Self)
        requires
            0 <= old(self).dict.len < i32::MAX,
            tolerance.spec_writable(),
        ensures
            dict_pair_appended(old(self).dict, r.dict, "FL".spec_bytes(), tolerance),
            *final(r.dict.buf) == *final(old(self).dict.buf),
            *final(self) == *final(r),
    {
        self.dict.pair(Name("FL".as_bytes()), tolerance);
        self
    }

    /// Write the `SM` attribute to set the smoothness tolerance. PDF 1.3+.
    pub fn smoothness(&mut self, tolerance: Real) -> (r: &mut Self)
        requires
            0 <= old(self).dict.len < i32::MAX,
            tolerance.spec_writable(),
        ensures
            dict_pair_appended(old(self).dict, r.dict, "SM".spec_bytes(), tolerance),
            *final(r.dict.buf) == *final(old(self).dict.buf),
            *final(self) == *final(r),
    {
        self.dict.pair(Name("SM".as_bytes()), tolerance);
        self
    }

    /// Write the `CA` attribute to set the stroking alpha constant. PDF 1.4+.
    ///
    /// Note that this key is restricted in PDF/A-1.
    pub fn stroking_alpha(&mut self, alpha: Real) -> (r: &mut Self)
        requires
            0 <= old(self).dict.len < i32::MAX,
            alpha.spec_writable(),
        ensures
            dict_pair_appended(old(self).dict, r.dict, "CA".spec_bytes(), alpha),
            *final(r.dict.buf) == *final(old(self).dict.buf),
            *final(self) == *final(r),
    {
        self.dict.pair(Name("CA".as_bytes()), alpha);
        self
    }

    /// Write the `ca` attribute to set the non-stroking alpha constant. PDF
    /// 1.4+.
    ///
    /// Note that this key is restricted in PDF/A-1.
    pub fn non_stroking_alpha(&mut self, alpha: Real) -> (r: &mut Self)
        requires
            0 <= old(self).dict.len < i32::MAX,
            alpha.spec_writable(),
        ensures
            dict_pair_appended(old(self).dict, r.dict, "ca".spec_bytes(), alpha),
            *final(r.dict.buf) == *final(old(self).dict.buf),
            *final(self) == *final(r),
    {
        self.dict.pair(Name("ca".as_bytes()), alpha);
        self
    }
}

/// Attributes with real-number values.
impl SoftMask<'_> {
    /// Write the `BC` attribute to set the background color for the
    /// transparency group. Only applicable if the mask subtype is `Luminosity`.
    /// Has to be set in the group's color space.
    pub fn backdrop(&mut self, color: &[Real]) -> (r: &mut Self)
        requires
            0 <= old(self).dict.len < i32::MAX,
            color@.len() <= i32::MAX,
            all_writable(color@),
        ensures
            dict_items_appended(old(self).dict, r.dict, "BC".spec_bytes(), color@),
            *final(r.dict.buf) == *final(old(self).dict.buf),
            *final(self) == *final(r),
    {
        write_items_entry(&mut self.dict, Name("BC".as_bytes()), color);
        self
    }
}

/// The `/D` entry of an external graphics state: the dash array and the
/// phase.
pub open spec fn dash_entry_bytes(
    before: Seq<u8>,
    pretty: bool,
    indent: int,
    pattern: Seq<Real>,
    phase: Real,
) -> Seq<u8> {
    let k = dict_key_bytes(pretty, indent, "D".spec_bytes());
    let open = before + k + seq![LBRACKET];
    let inner = seq![LBRACKET] + array_items_bytes(open + seq![LBRACKET], 0, pretty, pattern)
        + array_close_bytes(false, pretty);
    k + seq![LBRACKET] + inner + array_item_bytes(open + inner, 1, pretty, phase)
        + array_close_bytes(false, pretty)
}

impl ExtGraphicsState<'_> {
    /// Write the `D` attribute to set the line dash pattern. PDF 1.3+.
    pub fn dash_pattern(&mut self, pattern: &[Real], phase: Real) -> (r: &mut Self)
        requires
            0 <= old(self).dict.len < i32::MAX,
            pattern@.len() <= i32::MAX,
            all_writable(pattern@),
            phase.spec_writable(),
        ensures
            dict_grown(
                old(self).dict,
                r.dict,
                dash_entry_bytes(
                    old(self).dict.buf@,
                    old(self).dict.settings.pretty,
                    old(self).dict.indent as int,
                    pattern@,
                    phase,
                ),
                1,
            ),
            *final(r.dict.buf) == *final(old(self).dict.buf),
            *final(self) == *final(r),
    {
        let ghost before = self.dict.buf@;
        let ghost pretty = self.dict.settings.pretty;
        let ghost indent = self.dict.indent as int;
        let ghost k = dict_key_bytes(pretty, indent, "D".spec_bytes());
        let mut array = self.dict.insert(Name("D".as_bytes())).array();
        let ghost open = array.buf@;
        assert(open == before + k + seq![LBRACKET]);
        let mut inner = array.push().array();
        assert(inner.buf@ =~= open + seq![LBRACKET]);
        inner.items(pattern);
        inner.finish();
        let ghost inner_bytes = seq![LBRACKET] + array_items_bytes(open + seq![LBRACKET], 0, pretty, pattern@)
            + array_close_bytes(false, pretty);
        assert(array.buf@ =~= open + inner_bytes);
        array.item(phase);
        assert(array.buf@ == open + inner_bytes + array_item_bytes(open + inner_bytes, 1, pretty, phase));
        array.finish();
        assert(self.dict.buf@ =~= before + dash_entry_bytes(before, pretty, indent, pattern@, phase));
        self
    }

    /// Write the `Font` attribute to set the font. PDF 1.3+.
    pub fn font(&mut self, font: Name, size: Real) -> (r: &mut Self)
        requires
            0 <= old(self).dict.len < i32::MAX,
            size.spec_writable(),
        ensures
            dict_grown(
                old(self).dict,
                r.dict,
                dict_tokens_entry_bytes(
                    old(self).dict.buf@,
                    old(self).dict.settings.pretty,
                    old(self).dict.indent as int,
                    "Font".spec_bytes(),
                    seq![token(font), token(size)],
                ),
                1,
            ),
            *final(r.dict.buf) == *final(old(self).dict.buf),
            *final(self) == *final(r),
    {
        let ghost before = self.dict.buf@;
        let ghost pretty = self.dict.settings.pretty;
        let ghost indent = self.dict.indent as int;
        let ghost k = dict_key_bytes(pretty, indent, "Font".spec_bytes());
        let mut array = self.dict.insert(Name("Font".as_bytes())).array();
        let ghost start = array.buf@;
        assert(start == before + k + seq![LBRACKET]);
        assert(array_tokens_bytes(start, 0, pretty, Seq::empty()) =~= Seq::<u8>::empty());
        push_token_item(&mut array, font, Ghost(start), Ghost(0), Ghost(Seq::empty()));
        let ghost t0 = seq![token(font)];
        assert(Seq::empty().push(token(font)) =~= t0);
        push_token_item(&mut array, size, Ghost(start), Ghost(0), Ghost(t0));
        assert(t0.push(token(size)) =~= seq![token(font), token(size)]);
        assert(array.buf@ == start + array_tokens_bytes(start, 0, pretty, seq![token(font), token(size)]));
        array.finish();
        assert(self.dict.buf@ =~= before + dict_tokens_entry_bytes(
            before,
            pretty,
            indent,
            "Font".spec_bytes(),
            seq![token(font), token(size)],
        ));
        self
    }
}

// ---------------------------------------------------------------------------
// Writers.
// ---------------------------------------------------------------------------

/// Writer for _property list dictionary_. Can be used as a generic dictionary.
/// PDF 1.3+.
pub struct PropertyList<'a> {
    /// The underlying dictionary.
    pub dict: Dict<'a>,
}

impl<'a> PropertyList<'a> {
    /// Start writing the dictionary on an object.
    pub(crate) fn start(obj: Obj<'a>) -> (r: Self)
        ensures
            dict_started(
                r.dict,
                old(obj.buf)@,
                obj.indirect,
                obj.indent,
                obj.settings,
                None,
                None,
            ),
            r.dict.buf.spec_limits() == old(obj.buf).spec_limits(),
            *final(r.dict.buf) == *final(obj.buf),
    {
        Self { dict: start_dict(obj, None, None) }
    }

    /// Write the `/MCID` marked content identifier.
    pub fn identify(&mut self, identifier: i32) -> (r: &mut Self)
        requires
            0 <= old(self).dict.len < i32::MAX,
            identifier != i32::MIN,
        ensures
            dict_pair_appended(old(self).dict, r.dict, "MCID".spec_bytes(), identifier),
            *final(r.dict.buf) == *final(old(self).dict.buf),
            *final(self) == *final(r),
    {
        self.dict.pair(Name("MCID".as_bytes()), identifier);
        self
    }

    /// Write the `/ActualText` attribute to indicate the text replacement of
    /// this marked content sequence. PDF 1.5+.
    pub fn actual_text(&mut self, text: TextStr) -> (r: &mut Self)
        requires
            0 <= old(self).dict.len < i32::MAX,
        ensures
            dict_pair_appended(old(self).dict, r.dict, "ActualText".spec_bytes(), text),
            *final(r.dict.buf) == *final(old(self).dict.buf),
            *final(self) == *final(r),
    {
        self.dict.pair(Name("ActualText".as_bytes()), text);
        self
    }

    /// Finish writing the dictionary.
    pub fn finish(self)
        requires
            self.dict.len >= 0,
            self.dict.indent >= 2,
        ensures
            final(self.dict.buf)@ == old(self.dict.buf)@ + dict_close_bytes(
                self.dict.len as int,
                self.dict.settings.pretty,
                self.dict.indent as int,
                self.dict.indirect,
            ),
            final(self.dict.buf).spec_limits() == old(self.dict.buf).spec_limits().with_dict_entries(self.dict.len as int),
    {
        self.dict.finish();
    }
}

/// Writer for a _resource dictionary_.
///
/// This struct is created by [`Pages::resources`], [`Page::resources`],
/// [`FormXObject::resources`], and [`TilingPattern::resources`].
pub struct Resources<'a> {
    /// The underlying dictionary.
    pub dict: Dict<'a>,
}

impl<'a> Resources<'a> {
    /// Start writing the dictionary on an object.
    pub(crate) fn start(obj: Obj<'a>) -> (r: Self)
        ensures
            dict_started(
                r.dict,
                old(obj.buf)@,
                obj.indirect,
                obj.indent,
                obj.settings,
                None,
                None,
            ),
            r.dict.buf.spec_limits() == dict_start_limits(old(obj.buf).spec_limits(), None, None),
            *final(r.dict.buf) == *final(obj.buf),
    {
        Self { dict: start_dict(obj, None, None) }
    }

    /// Start writing the `/XObject` dictionary.
    ///
    /// Relevant types:
    /// - [`ImageXObject`]
    /// - [`FormXObject`]
    pub fn x_objects(&mut self) -> (r: Dict<'_>)
        requires
            0 <= old(self).dict.len < i32::MAX,
        ensures
            dict_started(
                r,
                old(self).dict.buf@ + dict_key_bytes(
                    old(self).dict.settings.pretty,
                    old(self).dict.indent as int,
                    "XObject".spec_bytes(),
                ),
                false,
                old(self).dict.indent,
                old(self).dict.settings,
                None,
                None,
            ),
            r.buf.spec_limits() == old(self).dict.buf.spec_limits().with_name_len("XObject".spec_bytes().len() as int),
            final(self).dict.len == old(self).dict.len + 1,
            final(self).dict.indirect == old(self).dict.indirect,
            final(self).dict.indent == old(self).dict.indent,
            final(self).dict.settings == old(self).dict.settings,
            *final(self).dict.buf == *final(r.buf),
            *final(final(self).dict.buf) == *final(old(self).dict.buf),
    {
        start_dict(self.dict.insert(Name("XObject".as_bytes())), None, None)
    }

    /// Start writing the `/Font` dictionary.
    ///
    /// Relevant types:
    /// - [`Type1Font`]
    /// - [`Type3Font`]
    /// - [`Type0Font`]
    pub fn fonts(&mut self) -> (r: Dict<'_>)
        requires
            0 <= old(self).dict.len < i32::MAX,
        ensures
            dict_started(
                r,
                old(self).dict.buf@ + dict_key_bytes(
                    old(self).dict.settings.pretty,
                    old(self).dict.indent as int,
                    "Font".spec_bytes(),
                ),
                false,
                old(self).dict.indent,
                old(self).dict.settings,
                None,
                None,
            ),
            r.buf.spec_limits() == old(self).dict.buf.spec_limits().with_name_len("Font".spec_bytes().len() as int),
            final(self).dict.len == old(self).dict.len + 1,
            final(self).dict.indirect == old(self).dict.indirect,
            final(self).dict.indent == old(self).dict.indent,
            final(self).dict.settings == old(self).dict.settings,
            *final(self).dict.buf == *final(r.buf),
            *final(final(self).dict.buf) == *final(old(self).dict.buf),
    {
        start_dict(self.dict.insert(Name("Font".as_bytes())), None, None)
    }

    /// Start writing the `/ColorSpace` dictionary. PDF 1.1+.
    ///
    /// Relevant types:
    /// - [`ColorSpace`]
    pub fn color_spaces(&mut self) -> (r: Dict<'_>)
        requires
            0 <= old(self).dict.len < i32::MAX,
        ensures
            dict_started(
                r,
                old(self).dict.buf@ + dict_key_bytes(
                    old(self).dict.settings.pretty,
                    old(self).dict.indent as int,
                    "ColorSpace".spec_bytes(),
                ),
                false,
                old(self).dict.indent,
                old(self).dict.settings,
                None,
                None,
            ),
            r.buf.spec_limits() == old(self).dict.buf.spec_limits().with_name_len("ColorSpace".spec_bytes().len() as int),
            final(self).dict.len == old(self).dict.len + 1,
            final(self).dict.indirect == old(self).dict.indirect,
            final(self).dict.indent == old(self).dict.indent,
            final(self).dict.settings == old(self).dict.settings,
            *final(self).dict.buf == *final(r.buf),
            *final(final(self).dict.buf) == *final(old(self).dict.buf),
    {
        start_dict(self.dict.insert(Name("ColorSpace".as_bytes())), None, None)
    }

    /// Start writing the `/Pattern` dictionary. PDF 1.2+.
    ///
    /// Relevant types:
    /// - [`TilingPattern`]
    /// - [`ShadingPattern`]
    pub fn patterns(&mut self) -> (r: Dict<'_>)
        requires
            0 <= old(self).dict.len < i32::MAX,
        ensures
            dict_started(
                r,
                old(self).dict.buf@ + dict_key_bytes(
                    old(self).dict.settings.pretty,
                    old(self).dict.indent as int,
                    "Pattern".spec_bytes(),
                ),
                false,
                old(self).dict.indent,
                old(self).dict.settings,
                None,
                None,
            ),
            r.buf.spec_limits() == old(self).dict.buf.spec_limits().with_name_len("Pattern".spec_bytes().len() as int),
            final(self).dict.len == old(self).dict.len + 1,
            final(self).dict.indirect == old(self).dict.indirect,
            final(self).dict.indent == old(self).dict.indent,
            final(self).dict.settings == old(self).dict.settings,
            *final(self).dict.buf == *final(r.buf),
            *final(final(self).dict.buf) == *final(old(self).dict.buf),
    {
        start_dict(self.dict.insert(Name("Pattern".as_bytes())), None, None)
    }

    /// Start writing the `/Shading` dictionary. PDF 1.3+.
    ///
    /// Relevant types:
    /// - [`FunctionShading`]
    pub fn shadings(&mut self) -> (r: Dict<'_>)
        requires
            0 <= old(self).dict.len < i32::MAX,
        ensures
            dict_started(
                r,
                old(self).dict.buf@ + dict_key_bytes(
                    old(self).dict.settings.pretty,
                    old(self).dict.indent as int,
                    "Shading".spec_bytes(),
                ),
                false,
                old(self).dict.indent,
                old(self).dict.settings,
                None,
                None,
            ),
            r.buf.spec_limits() == old(self).dict.buf.spec_limits().with_name_len("Shading".spec_bytes().len() as int),
            final(self).dict.len == old(self).dict.len + 1,
            final(self).dict.indirect == old(self).dict.indirect,
            final(self).dict.indent == old(self).dict.indent,
            final(self).dict.settings == old(self).dict.settings,
            *final(self).dict.buf == *final(r.buf),
            *final(final(self).dict.buf) == *final(old(self).dict.buf),
    {
        start_dict(self.dict.insert(Name("Shading".as_bytes())), None, None)
    }

    /// Start writing the `/ExtGState` dictionary. PDF 1.2+.
    ///
    /// Relevant types:
    /// - [`ExtGraphicsState`]
    pub fn ext_g_states(&mut self) -> (r: Dict<'_>)
        requires
            0 <= old(self).dict.len < i32::MAX,
        ensures
            dict_started(
                r,
                old(self).dict.buf@ + dict_key_bytes(
                    old(self).dict.settings.pretty,
                    old(self).dict.indent as int,
                    "ExtGState".spec_bytes(),
                ),
                false,
                old(self).dict.indent,
                old(self).dict.settings,
                None,
                None,
            ),
            r.buf.spec_limits() == old(self).dict.buf.spec_limits().with_name_len("ExtGState".spec_bytes().len() as int),
            final(self).dict.len == old(self).dict.len + 1,
            final(self).dict.indirect == old(self).dict.indirect,
            final(self).dict.indent == old(self).dict.indent,
            final(self).dict.settings == old(self).dict.settings,
            *final(self).dict.buf == *final(r.buf),
            *final(final(self).dict.buf) == *final(old(self).dict.buf),
    {
        start_dict(self.dict.insert(Name("ExtGState".as_bytes())), None, None)
    }

    /// Finish writing the dictionary.
    pub fn finish(self)
        requires
            self.dict.len >= 0,
            self.dict.indent >= 2,
        ensures
            final(self.dict.buf)@ == old(self.dict.buf)@ + dict_close_bytes(
                self.dict.len as int,
                self.dict.settings.pretty,
                self.dict.indent as int,
                self.dict.indirect,
            ),
            final(self.dict.buf).spec_limits() == old(self.dict.buf).spec_limits().with_dict_entries(self.dict.len as int),
    {
        self.dict.finish();
    }
}

/// Writer for a _dictionary with additional parameters for the graphics state._
///
/// This struct is created by [`Chunk::ext_graphics`] and
/// [`ShadingPattern::ext_graphics`].
pub struct ExtGraphicsState<'a> {
    /// The underlying dictionary.
    pub dict: Dict<'a>,
}

impl<'a> ExtGraphicsState<'a> {
    /// Start writing the dictionary on an object.
    pub(crate) fn start(obj: Obj<'a>) -> (r: Self)
        ensures
            dict_started(
                r.dict,
                old(obj.buf)@,
                obj.indirect,
                obj.indent,
                obj.settings,
                Some("ExtGState".spec_bytes()),
                None,
            ),
            r.dict.buf.spec_limits() == dict_start_limits(old(obj.buf).spec_limits(), Some("ExtGState".spec_bytes()), None),
            *final(r.dict.buf) == *final(obj.buf),
    {
        Self { dict: start_dict(obj, Some("ExtGState"), None) }
    }

    /// Write the `LC` attribute to set the line cap style. PDF 1.3+.
    pub fn line_cap(&mut self, cap: LineCapStyle) -> (r: &mut Self)
        requires
            0 <= old(self).dict.len < i32::MAX,
        ensures
            dict_pair_appended(old(self).dict, r.dict, "LC".spec_bytes(), cap.spec_int()),
            *final(r.dict.buf) == *final(old(self).dict.buf),
            *final(self) == *final(r),
    {
        self.dict.pair(Name("LC".as_bytes()), cap.to_int());
        self
    }

    /// Write the `LJ` attribute to set the line join style. PDF 1.3+.
    pub fn line_join(&mut self, join: LineJoinStyle) -> (r: &mut Self)
        requires
            0 <= old(self).dict.len < i32::MAX,
        ensures
            dict_pair_appended(old(self).dict, r.dict, "LJ".spec_bytes(), join.spec_int()),
            *final(r.dict.buf) == *final(old(self).dict.buf),
            *final(self) == *final(r),
    {
        self.dict.pair(Name("LJ".as_bytes()), join.to_int());
        self
    }

    /// Write the `RI` attribute to set the rendering intent. PDF 1.3+.
    pub fn rendering_intent(&mut self, intent: RenderingIntent) -> (r: &mut Self)
        requires
            0 <= old(self).dict.len < i32::MAX,
        ensures
            dict_name_pair_appended(old(self).dict, r.dict, "RI".spec_bytes(), intent.spec_name()),
            *final(r.dict.buf) == *final(old(self).dict.buf),
            *final(self) == *final(r),
    {
        self.dict.pair(Name("RI".as_bytes()), intent.to_name());
        self
    }

    /// Write the `OP` attribute to set the overprint mode for all operations,
    /// except if an `op` entry is present. If so, only influence the stroking
    /// operations. PDF 1.2+.
    pub fn overprint(&mut self, overprint: bool) -> (r: &mut Self)
        requires
            0 <= old(self).dict.len < i32::MAX,
        ensures
            dict_pair_appended(old(self).dict, r.dict, "OP".spec_bytes(), overprint),
            *final(r.dict.buf) == *final(old(self).dict.buf),
            *final(self) == *final(r),
    {
        self.dict.pair(Name("OP".as_bytes()), overprint);
        self
    }

    /// Write the `op` attribute to set the overprint mode for fill operations.
    /// PDF 1.3+.
    pub fn overprint_fill(&mut self, overprint: bool) -> (r: &mut Self)
        requires
            0 <= old(self).dict.len < i32::MAX,
        ensures
            dict_pair_appended(old(self).dict, r.dict, "op".spec_bytes(), overprint),
            *final(r.dict.buf) == *final(old(self).dict.buf),
            *final(self) == *final(r),
    {
        self.dict.pair(Name("op".as_bytes()), overprint);
        self
    }

    /// Write the `OPM` attribute to set the overprint mode for components that
    /// have been zeroed out. PDF 1.3+.
    ///
    /// Note that this attribute is restricted by PDF/A.
    pub fn overprint_mode(&mut self, mode: OverprintMode) -> (r: &mut Self)
        requires
            0 <= old(self).dict.len < i32::MAX,
        ensures
            dict_pair_appended(old(self).dict, r.dict, "OPM".spec_bytes(), mode.spec_int()),
            *final(r.dict.buf) == *final(old(self).dict.buf),
            *final(self) == *final(r),
    {
        self.dict.pair(Name("OPM".as_bytes()), mode.to_int());
        self
    }

    /// Write the `BG` attribute to set the black generation function.
    pub fn black_generation(&mut self, func: Ref) -> (r: &mut Self)
        requires
            0 <= old(self).dict.len < i32::MAX,
        ensures
            dict_pair_appended(old(self).dict, r.dict, "BG".spec_bytes(), func),
            *final(r.dict.buf) == *final(old(self).dict.buf),
            *final(self) == *final(r),
    {
        self.dict.pair(Name("BG".as_bytes()), func);
        self
    }

    /// Write the `BG2` attribute to set the black-generation function back to
    /// the function that has been in effect at the beginning of the page. PDF
    /// 1.3+.
    pub fn black_generation_default(&mut self) -> (r: &mut Self)
        requires
            0 <= old(self).dict.len < i32::MAX,
        ensures
            dict_name_pair_appended(old(self).dict, r.dict, "BG2".spec_bytes(), "Default".spec_bytes()),
            *final(r.dict.buf) == *final(old(self).dict.buf),
            *final(self) == *final(r),
    {
        self.dict.pair(Name("BG2".as_bytes()), Name("Default".as_bytes()));
        self
    }

    /// Write the `UCR` attribute to set the undercolor removal function.
    pub fn undercolor_removal(&mut self, func: Ref) -> (r: &mut Self)
        requires
            0 <= old(self).dict.len < i32::MAX,
        ensures
            dict_pair_appended(old(self).dict, r.dict, "UCR".spec_bytes(), func),
            *final(r.dict.buf) == *final(old(self).dict.buf),
            *final(self) == *final(r),
    {
        self.dict.pair(Name("UCR".as_bytes()), func);
        self
    }

    /// Write the `UCR2` attribute to set the undercolor removal function back
    /// to the function that has been in effect at the beginning of the page.
    /// PDF 1.3+.
    pub fn undercolor_removal_default(&mut self) -> (r: &mut Self)
        requires
            0 <= old(self).dict.len < i32::MAX,
        ensures
            dict_name_pair_appended(old(self).dict, r.dict, "UCR2".spec_bytes(), "Default".spec_bytes()),
            *final(r.dict.buf) == *final(old(self).dict.buf),
            *final(self) == *final(r),
    {
        self.dict.pair(Name("UCR2".as_bytes()), Name("Default".as_bytes()));
        self
    }

    /// Write the `TR` attribute to set the transfer function.
    ///
    /// Note that this key is illegal in PDF/A.
    pub fn transfer(&mut self, func: Ref) -> (r: &mut Self)
        requires
            0 <= old(self).dict.len < i32::MAX,
        ensures
            dict_pair_appended(old(self).dict, r.dict, "TR".spec_bytes(), func),
            *final(r.dict.buf) == *final(old(self).dict.buf),
            *final(self) == *final(r),
    {
        self.dict.pair(Name("TR".as_bytes()), func);
        self
    }

    /// Write the `TR2` attribute to set the transfer function back to the
    /// function that has been in effect at the beginning of the page. PDF 1.3+.
    pub fn transfer_default(&mut self) -> (r: &mut Self)
        requires
            0 <= old(self).dict.len < i32::MAX,
        ensures
            dict_name_pair_appended(old(self).dict, r.dict, "TR2".spec_bytes(), "Default".spec_bytes()),
            *final(r.dict.buf) == *final(old(self).dict.buf),
            *final(self) == *final(r),
    {
        self.dict.pair(Name("TR2".as_bytes()), Name("Default".as_bytes()));
        self
    }

    /// Write the `HT` attribute to set the halftone.
    ///
    /// Note that this value may be ignored in PDF/A.
    pub fn halftone(&mut self, ht: Ref) -> (r: &mut Self)
        requires
            0 <= old(self).dict.len < i32::MAX,
        ensures
            dict_pair_appended(old(self).dict, r.dict, "HT".spec_bytes(), ht),
            *final(r.dict.buf) == *final(old(self).dict.buf),
            *final(self) == *final(r),
    {
        self.dict.pair(Name("HT".as_bytes()), ht);
        self
    }

    /// Write the `HT` attribute to set the halftone back to the one that has
    /// been in effect at the beginning of the page.
    pub fn halftone_default(&mut self) -> (r: &mut Self)
        requires
            0 <= old(self).dict.len < i32::MAX,
        ensures
            dict_name_pair_appended(old(self).dict, r.dict, "HT".spec_bytes(), "Default".spec_bytes()),
            *final(r.dict.buf) == *final(old(self).dict.buf),
            *final(self) == *final(r),
    {
        self.dict.pair(Name("HT".as_bytes()), Name("Default".as_bytes()));
        self
    }

    /// Write the `SA` attribute to set automatic stroke adjustment.
    pub fn stroke_adjustment(&mut self, adjust: bool) -> (r: &mut Self)
        requires
            0 <= old(self).dict.len < i32::MAX,
        ensures
            dict_pair_appended(old(self).dict, r.dict, "SA".spec_bytes(), adjust),
            *final(r.dict.buf) == *final(old(self).dict.buf),
            *final(self) == *final(r),
    {
        self.dict.pair(Name("SA".as_bytes()), adjust);
        self
    }

    /// Write the `BM` attribute to set the blend mode. PDF 1.4+.
    ///
    /// Note that this key is restricted in PDF/A-1.
    pub fn blend_mode(&mut self, mode: BlendMode) -> (r: &mut Self)
        requires
            0 <= old(self).dict.len < i32::MAX,
        ensures
            dict_name_pair_appended(old(self).dict, r.dict, "BM".spec_bytes(), mode.spec_name()),
            *final(r.dict.buf) == *final(old(self).dict.buf),
            *final(self) == *final(r),
    {
        self.dict.pair(Name("BM".as_bytes()), mode.to_name());
        self
    }

    /// Start writing the `SMask` attribute. PDF 1.4+.
    ///
    /// Note that this key is forbidden in PDF/A-1.
    pub fn soft_mask(&mut self) -> (r: SoftMask<'_>)
        requires
            0 <= old(self).dict.len < i32::MAX,
        ensures
            dict_started(
                r.dict,
                old(self).dict.buf@ + dict_key_bytes(
                    old(self).dict.settings.pretty,
                    old(self).dict.indent as int,
                    "SMask".spec_bytes(),
                ),
                false,
                old(self).dict.indent,
                old(self).dict.settings,
                Some("Mask".spec_bytes()),
                None,
            ),
            r.dict.buf.spec_limits() == dict_start_limits(
                old(self).dict.buf.spec_limits().with_name_len("SMask".spec_bytes().len() as int),
                Some("Mask".spec_bytes()),
                None,
            ),
            final(self).dict.len == old(self).dict.len + 1,
            final(self).dict.indirect == old(self).dict.indirect,
            final(self).dict.indent == old(self).dict.indent,
            final(self).dict.settings == old(self).dict.settings,
            *final(self).dict.buf == *final(r.dict.buf),
            *final(final(self).dict.buf) == *final(old(self).dict.buf),
    {
        SoftMask::start(self.dict.insert(Name("SMask".as_bytes())))
    }

    /// Write the `SMask` attribute using a name. PDF 1.4+.
    ///
    /// Note that this key is forbidden in PDF/A-1.
    pub fn soft_mask_name(&mut self, mask: Name) -> (r: &mut Self)
        requires
            0 <= old(self).dict.len < i32::MAX,
        ensures
            dict_pair_appended(old(self).dict, r.dict, "SMask".spec_bytes(), mask),
            *final(r.dict.buf) == *final(old(self).dict.buf),
            *final(self) == *final(r),
    {
        self.dict.pair(Name("SMask".as_bytes()), mask);
        self
    }

    /// Write the `AIS` attribute to set the alpha source flag. `CA` and `ca`
    /// values as well as the `SMask` will be interpreted as shape instead of
    /// opacity. PDF 1.4+.
    pub fn alpha_source(&mut self, source: bool) -> (r: &mut Self)
        requires
            0 <= old(self).dict.len < i32::MAX,
        ensures
            dict_pair_appended(old(self).dict, r.dict, "AIS".spec_bytes(), source),
            *final(r.dict.buf) == *final(old(self).dict.buf),
            *final(self) == *final(r),
    {
        self.dict.pair(Name("AIS".as_bytes()), source);
        self
    }

    /// Write the `TK` attribute to set the text knockout flag. PDF 1.4+.
    pub fn text_knockout(&mut self, knockout: bool) -> (r: &mut Self)
        requires
            0 <= old(self).dict.len < i32::MAX,
        ensures
            dict_pair_appended(old(self).dict, r.dict, "TK".spec_bytes(), knockout),
            *final(r.dict.buf) == *final(old(self).dict.buf),
            *final(self) == *final(r),
    {
        self.dict.pair(Name("TK".as_bytes()), knockout);
        self
    }

    /// Finish writing the dictionary.
    pub fn finish(self)
        requires
            self.dict.len >= 0,
            self.dict.indent >= 2,
        ensures
            final(self.dict.buf)@ == old(self.dict.buf)@ + dict_close_bytes(
                self.dict.len as int,
                self.dict.settings.pretty,
                self.dict.indent as int,
                self.dict.indirect,
            ),
            final(self.dict.buf).spec_limits() == old(self.dict.buf).spec_limits().with_dict_entries(self.dict.len as int),
    {
        self.dict.finish();
    }
}

/// Writer for a _soft mask dictionary_.
///
/// This struct is created by [`ExtGraphicsState::soft_mask`].
pub struct SoftMask<'a> {
    /// The underlying dictionary.
    pub dict: Dict<'a>,
}

impl<'a> SoftMask<'a> {
    /// Start writing the dictionary on an object.
    pub(crate) fn start(obj: Obj<'a>) -> (r: Self)
        ensures
            dict_started(
                r.dict,
                old(obj.buf)@,
                obj.indirect,
                obj.indent,
                obj.settings,
                Some("Mask".spec_bytes()),
                None,
            ),
            r.dict.buf.spec_limits() == dict_start_limits(old(obj.buf).spec_limits(), Some("Mask".spec_bytes()), None),
            *final(r.dict.buf) == *final(obj.buf),
    {
        Self { dict: start_dict(obj, Some("Mask"), None) }
    }

    /// Write the `S` attribute to set the soft mask subtype. Required.
    pub fn subtype(&mut self, subtype: MaskType) -> (r: &mut Self)
        requires
            0 <= old(self).dict.len < i32::MAX,
        ensures
            dict_name_pair_appended(old(self).dict, r.dict, "S".spec_bytes(), subtype.spec_name()),
            *final(r.dict.buf) == *final(old(self).dict.buf),
            *final(self) == *final(r),
    {
        self.dict.pair(Name("S".as_bytes()), subtype.to_name());
        self
    }

    /// Write the `G` attribute to set the transparency group XObject. The group
    /// has to have a color space set in the `/CS` attribute if the mask subtype
    /// is `Luminosity`. Required.
    pub fn group(&mut self, group: Ref) -> (r: &mut Self)
        requires
            0 <= old(self).dict.len < i32::MAX,
        ensures
            dict_pair_appended(old(self).dict, r.dict, "G".spec_bytes(), group),
            *final(r.dict.buf) == *final(old(self).dict.buf),
            *final(self) == *final(r),
    {
        self.dict.pair(Name("G".as_bytes()), group);
        self
    }

    /// Write the `TR` attribute, a function that maps from the group's output
    /// values to the mask opacity.
    pub fn transfer_function(&mut self, function: Ref) -> (r: &mut Self)
        requires
            0 <= old(self).dict.len < i32::MAX,
        ensures
            dict_pair_appended(old(self).dict, r.dict, "TR".spec_bytes(), function),
            *final(r.dict.buf) == *final(old(self).dict.buf),
            *final(self) == *final(r),
    {
        self.dict.pair(Name("TR".as_bytes()), function);
        self
    }

    /// Finish writing the dictionary.
    pub fn finish(self)
        requires
            self.dict.len >= 0,
            self.dict.indent >= 2,
        ensures
            final(self.dict.buf)@ == old(self.dict.buf)@ + dict_close_bytes(
                self.dict.len as int,
                self.dict.settings.pretty,
                self.dict.indent as int,
                self.dict.indirect,
            ),
            final(self.dict.buf).spec_limits() == old(self.dict.buf).spec_limits().with_dict_entries(self.dict.len as int),
    {
        self.dict.finish();
    }
}


/// The numbers under which the values of [`LineCapStyle`] are written, as PDF
/// defines them.
pub proof fn lemma_line_cap_style_numbers()
    ensures
        LineCapStyle::ButtCap.spec_int() == 0,
        LineCapStyle::RoundCap.spec_int() == 1,
        LineCapStyle::ProjectingSquareCap.spec_int() == 2,
{
}

/// The numbers under which the values of [`LineJoinStyle`] are written, as PDF
/// defines them.
pub proof fn lemma_line_join_style_numbers()
    ensures
        LineJoinStyle::MiterJoin.spec_int() == 0,
        LineJoinStyle::RoundJoin.spec_int() == 1,
        LineJoinStyle::BevelJoin.spec_int() == 2,
{
}

/// The names under which the values of [`RenderingIntent`] are written, as PDF
/// defines them.
pub proof fn lemma_rendering_intent_names()
    ensures
        RenderingIntent::AbsoluteColorimetric.spec_name() == "AbsoluteColorimetric".spec_bytes(),
        RenderingIntent::RelativeColorimetric.spec_name() == "RelativeColorimetric".spec_bytes(),
        RenderingIntent::Saturation.spec_name() == "Saturation".spec_bytes(),
        RenderingIntent::Perceptual.spec_name() == "Perceptual".spec_bytes(),
{
}

/// The numbers under which the values of [`TextRenderingMode`] are written, as PDF
/// defines them.
pub proof fn lemma_text_rendering_mode_numbers()
    ensures
        TextRenderingMode::Fill.spec_int() == 0,
        TextRenderingMode::Stroke.spec_int() == 1,
        TextRenderingMode::FillStroke.spec_int() == 2,
        TextRenderingMode::Invisible.spec_int() == 3,
        TextRenderingMode::FillClip.spec_int() == 4,
        TextRenderingMode::StrokeClip.spec_int() == 5,
        TextRenderingMode::FillStrokeClip.spec_int() == 6,
        TextRenderingMode::Clip.spec_int() == 7,
{
}

/// The names under which the values of [`ColorSpaceOperand`] are written, as PDF
/// defines them.
pub proof fn lemma_color_space_operand_names()
    ensures
        ColorSpaceOperand::DeviceGray.spec_name() == "DeviceGray".spec_bytes(),
        ColorSpaceOperand::DeviceRgb.spec_name() == "DeviceRGB".spec_bytes(),
        ColorSpaceOperand::DeviceCmyk.spec_name() == "DeviceCMYK".spec_bytes(),
        ColorSpaceOperand::Pattern.spec_name() == "Pattern".spec_bytes(),
{
}

/// The names under which the values of [`ArtifactType`] are written, as PDF
/// defines them.
pub proof fn lemma_artifact_type_names()
    ensures
        ArtifactType::Pagination.spec_name() == "Pagination".spec_bytes(),
        ArtifactType::Layout.spec_name() == "Layout".spec_bytes(),
        ArtifactType::Page.spec_name() == "Page".spec_bytes(),
        ArtifactType::Background.spec_name() == "Background".spec_bytes(),
        ArtifactType::Inline.spec_name() == "Inline".spec_bytes(),
{
}

/// The names under which the values of [`ArtifactSubtype`] are written, as PDF
/// defines them.
pub proof fn lemma_artifact_subtype_names()
    ensures
        ArtifactSubtype::Header.spec_name() == "Header".spec_bytes(),
        ArtifactSubtype::Footer.spec_name() == "Footer".spec_bytes(),
        ArtifactSubtype::Watermark.spec_name() == "Watermark".spec_bytes(),
        ArtifactSubtype::PageNumber.spec_name() == "PageNum".spec_bytes(),
        ArtifactSubtype::Bates.spec_name() == "Bates".spec_bytes(),
        ArtifactSubtype::LineNumber.spec_name() == "LineNum".spec_bytes(),
        ArtifactSubtype::Redaction.spec_name() == "Redaction".spec_bytes(),
{
}

/// The names under which the values of [`ArtifactAttachment`] are written, as PDF
/// defines them.
pub proof fn lemma_artifact_attachment_names()
    ensures
        ArtifactAttachment::Left.spec_name() == "Left".spec_bytes(),
        ArtifactAttachment::Top.spec_name() == "Top".spec_bytes(),
        ArtifactAttachment::Right.spec_name() == "Right".spec_bytes(),
        ArtifactAttachment::Bottom.spec_name() == "Bottom".spec_bytes(),
{
}

/// The names under which the values of [`ProcSet`] are written, as PDF
/// defines them.
pub proof fn lemma_proc_set_names()
    ensures
        ProcSet::Pdf.spec_name() == "PDF".spec_bytes(),
        ProcSet::Text.spec_name() == "Text".spec_bytes(),
        ProcSet::ImageGrayscale.spec_name() == "ImageB".spec_bytes(),
        ProcSet::ImageColor.spec_name() == "ImageC".spec_bytes(),
        ProcSet::ImageIndexed.spec_name() == "ImageI".spec_bytes(),
{
}

/// The names under which the values of [`BlendMode`] are written, as PDF
/// defines them.
pub proof fn lemma_blend_mode_names()
    ensures
        BlendMode::Normal.spec_name() == "Normal".spec_bytes(),
        BlendMode::Multiply.spec_name() == "Multiply".spec_bytes(),
        BlendMode::Screen.spec_name() == "Screen".spec_bytes(),
        BlendMode::Overlay.spec_name() == "Overlay".spec_bytes(),
        BlendMode::Darken.spec_name() == "Darken".spec_bytes(),
        BlendMode::Lighten.spec_name() == "Lighten".spec_bytes(),
        BlendMode::ColorDodge.spec_name() == "ColorDodge".spec_bytes(),
        BlendMode::ColorBurn.spec_name() == "ColorBurn".spec_bytes(),
        BlendMode::HardLight.spec_name() == "HardLight".spec_bytes(),
        BlendMode::SoftLight.spec_name() == "SoftLight".spec_bytes(),
        BlendMode::Difference.spec_name() == "Difference".spec_bytes(),
        BlendMode::Exclusion.spec_name() == "Exclusion".spec_bytes(),
        BlendMode::Hue.spec_name() == "Hue".spec_bytes(),
        BlendMode::Saturation.spec_name() == "Saturation".spec_bytes(),
        BlendMode::Color.spec_name() == "Color".spec_bytes(),
        BlendMode::Luminosity.spec_name() == "Luminosity".spec_bytes(),
{
}

/// The numbers under which the values of [`OverprintMode`] are written, as PDF
/// defines them.
pub proof fn lemma_overprint_mode_numbers()
    ensures
        OverprintMode::OverrideAllColorants.spec_int() == 0,
        OverprintMode::IgnoreZeroChannel.spec_int() == 1,
{
}

/// The names under which the values of [`MaskType`] are written, as PDF
/// defines them.
pub proof fn lemma_mask_type_names()
    ensures
        MaskType::Alpha.spec_name() == "Alpha".spec_bytes(),
        MaskType::Luminosity.spec_name() == "Luminosity".spec_bytes(),
{
}

} // verus!
