use vstd::prelude::*;
use vstd::string::*;
use vstd::utf8::is_ascii_chars;

use crate::buf::LimitsView;

use crate::object::{
    dict_start_limits,
    dict_items_appended,
    lemma_items_as_tokens,
    dict_pair_enc_bytes,
    dict_tokens_entry_bytes,
    Primitive,
    Real, Rect, zero_text, TypedDict, is_digit, DOT, MINUS, lemma_reals_keep_limits,
    Array, nested_indent, writer_dict_start, all_writable, dict_pair_bytes, array_appended, array_close_bytes, array_item_appended, array_item_bytes, array_item_enc_bytes, array_items_bytes, array_name_item_appended, array_separator, array_tokens_bytes, lemma_tokens_push, name_encoding, name_token, obj_end, primitive_enc_bytes, token, token_array_bytes,
    Date, Dict, LBRACKET, Name, NameTree, NumberTree, Obj, Ref, Str, Stream, TextStr, TextStrLike, TypedArray, dict_close_bytes, dict_grown, dict_items_entry_bytes, dict_key_bytes, dict_name_pair_appended, dict_pair_appended, dict_started, start_dict, stream_close_bytes, type_entries_bytes, type_stream, write_items_entry,
};
use crate::structure::{Metadata};
use crate::content::{ExtGraphicsState, Resources};
use crate::functions::{ExponentialFunction, FunctionType, StitchingFunction};

verus! {

/// The type of a color space.
#[derive(Debug, Copy, Clone, Eq, PartialEq, Hash)]
#[allow(unused)]
#[allow(missing_docs)]
pub enum ColorSpaceType {
    CalGray,
    CalRgb,
    Lab,
    IccBased,
    DeviceRgb,
    DeviceCmyk,
    DeviceGray,
    Indexed,
    Pattern,
    Separation,
    DeviceN,
}

impl ColorSpaceType {
    /// The name under which the value is written.
    pub open spec fn spec_name(self) -> Seq<u8> {
        match self {
            Self::CalRgb => "CalRGB".spec_bytes(),
            Self::CalGray => "CalGray".spec_bytes(),
            Self::Lab => "Lab".spec_bytes(),
            Self::IccBased => "ICCBased".spec_bytes(),
            Self::DeviceRgb => "DeviceRGB".spec_bytes(),
            Self::DeviceCmyk => "DeviceCMYK".spec_bytes(),
            Self::DeviceGray => "DeviceGray".spec_bytes(),
            Self::Separation => "Separation".spec_bytes(),
            Self::DeviceN => "DeviceN".spec_bytes(),
            Self::Indexed => "Indexed".spec_bytes(),
            Self::Pattern => "Pattern".spec_bytes(),
        }
    }

    /// Whether this is a device color space (which includes indexed color
    /// spaces).
    pub open spec fn spec_is_device(self) -> bool {
        match self {
            Self::DeviceRgb | Self::DeviceCmyk | Self::DeviceGray | Self::Indexed => true,
            _ => false,
        }
    }

    /// Whether this color space is a device color space.
    pub fn is_device(self) -> (r: bool)
        ensures
            r == self.spec_is_device(),
    {
        match self {
            Self::CalRgb | Self::CalGray | Self::Lab | Self::IccBased => false,
            Self::DeviceRgb | Self::DeviceCmyk | Self::DeviceGray | Self::Indexed => true,
            Self::Separation | Self::DeviceN | Self::Pattern => false,
        }
    }

    pub(crate) fn to_name(self) -> (r: Name<'static>)
        ensures
            r.0@ == self.spec_name(),
    {
        match self {
            Self::CalRgb => Name("CalRGB".as_bytes()),
            Self::CalGray => Name("CalGray".as_bytes()),
            Self::Lab => Name("Lab".as_bytes()),
            Self::IccBased => Name("ICCBased".as_bytes()),
            Self::DeviceRgb => Name("DeviceRGB".as_bytes()),
            Self::DeviceCmyk => Name("DeviceCMYK".as_bytes()),
            Self::DeviceGray => Name("DeviceGray".as_bytes()),
            Self::Separation => Name("Separation".as_bytes()),
            Self::DeviceN => Name("DeviceN".as_bytes()),
            Self::Indexed => Name("Indexed".as_bytes()),
            Self::Pattern => Name("Pattern".as_bytes()),
        }
    }
}

/// Type of n-dimensional color space.
pub enum DeviceNSubtype {
    /// A subtractive color space.
    DeviceN,
    /// An additive color space.
    NChannel,
}

impl DeviceNSubtype {
    /// The name under which the value is written.
    pub open spec fn spec_name(self) -> Seq<u8> {
        match self {
            Self::DeviceN => "DeviceN".spec_bytes(),
            Self::NChannel => "NChannel".spec_bytes(),
        }
    }

    pub(crate) fn to_name(self) -> (r: Name<'static>)
        ensures
            r.0@ == self.spec_name(),
    {
        match self {
            Self::DeviceN => Name("DeviceN".as_bytes()),
            Self::NChannel => Name("NChannel".as_bytes()),
        }
    }
}

/// Type of paint for a tiling pattern.
#[derive(Debug, Copy, Clone, Eq, PartialEq, Hash)]
pub enum PaintType {
    /// Paint the pattern with the colors specified in the stream.
    Colored,
    /// Paint the pattern with the colors active when the pattern was painted.
    Uncolored,
}

impl PaintType {
    /// The number under which the value is written.
    pub open spec fn spec_int(self) -> i32 {
        match self {
            Self::Colored => 1,
            Self::Uncolored => 2,
        }
    }

    pub(crate) fn to_int(self) -> (r: i32)
        ensures
            r == self.spec_int(),
    {
        match self {
            Self::Colored => 1,
            Self::Uncolored => 2,
        }
    }
}

/// How to adjust tile spacing.
#[derive(Debug, Copy, Clone, Eq, PartialEq, Hash)]
pub enum TilingType {
    /// Constant space between each tile, tiles may be distorted by 1px.
    ConstantSpacing,
    /// Tile size is constant, spacing between may vary by 1px.
    NoDistortion,
    /// Constant space between each tile and faster drawing, tiles may be distorted.
    FastConstantSpacing,
}

impl TilingType {
    /// The number under which the value is written.
    pub open spec fn spec_int(self) -> i32 {
        match self {
            Self::ConstantSpacing => 1,
            Self::NoDistortion => 2,
            Self::FastConstantSpacing => 3,
        }
    }

    pub(crate) fn to_int(self) -> (r: i32)
        ensures
            r == self.spec_int(),
    {
        match self {
            Self::ConstantSpacing => 1,
            Self::NoDistortion => 2,
            Self::FastConstantSpacing => 3,
        }
    }
}

/// What kind of shading to use.
#[derive(Debug, Copy, Clone, Eq, PartialEq, Hash)]
#[non_exhaustive]
pub enum ShadingType {
    /// The function specifies the color for each point in the domain.
    Function,
    /// The function specifies the color for each point on a line.
    Axial,
    /// The function specifies the color for each circle between two nested circles.
    Radial,
}

impl ShadingType {
    /// The number under which the value is written.
    pub open spec fn spec_int(self) -> i32 {
        match self {
            Self::Function => 1,
            Self::Axial => 2,
            Self::Radial => 3,
        }
    }

    pub(crate) fn to_int(self) -> (r: i32)
        ensures
            r == self.spec_int(),
    {
        match self {
            Self::Function => 1,
            Self::Axial => 2,
            Self::Radial => 3,
        }
    }
}

/// The output intent subtype.
pub enum OutputIntentSubtype<'a> {
    /// `GTS_PDFX`
    PDFX,
    /// `GTS_PDFA1`
    PDFA,
    /// `ISO_PDFE1`
    PDFE,
    /// Custom name defined in an ISO 32000 extension.
    Custom(Name<'a>),
}

impl<'a> OutputIntentSubtype<'a> {
    /// The name under which the value is written.
    pub open spec fn spec_name(self) -> Seq<u8> {
        match self {
            Self::PDFX => "GTS_PDFX".spec_bytes(),
            Self::PDFA => "GTS_PDFA1".spec_bytes(),
            Self::PDFE => "ISO_PDFE1".spec_bytes(),
            Self::Custom(name) => name.0@,
        }
    }

    pub(crate) fn to_name(self) -> (r: Name<'a>)
        ensures
            r.0@ == self.spec_name(),
    {
        match self {
            Self::PDFX => Name("GTS_PDFX".as_bytes()),
            Self::PDFA => Name("GTS_PDFA1".as_bytes()),
            Self::PDFE => Name("ISO_PDFE1".as_bytes()),
            Self::Custom(name) => name,
        }
    }
}


/// Type of pattern.
#[derive(Debug, Copy, Clone, Eq, PartialEq, Hash)]
pub(crate) enum PatternType {
    /// A tiling pattern.
    Tiling,
    /// A shading pattern.
    Shading,
}

impl PatternType {
    /// The number under which the pattern type is written.
    pub(crate) open spec fn spec_int(self) -> i32 {
        match self {
            Self::Tiling => 1,
            Self::Shading => 2,
        }
    }

    pub(crate) fn to_int(self) -> (r: i32)
        ensures
            r == self.spec_int(),
    {
        match self {
            Self::Tiling => 1,
            Self::Shading => 2,
        }
    }
}

// ---------------------------------------------------------------------------
// Color spaces.
// ---------------------------------------------------------------------------

/// Writer for a _color space_.
///
/// This struct is created by [`Chunk::color_space`](crate::Chunk::color_space),
/// [`Shading::color_space`], [`ImageXObject::color_space`](crate::writers::ImageXObject::color_space),
/// [`Separation::alternate_color_space`] and [`Group::color_space`](crate::writers::Group::color_space).
///
/// Each of its methods writes the whole color space and consumes the writer.
pub struct ColorSpace<'a> {
    /// The object the color space is written to.
    pub obj: Obj<'a>,
}

/// The bytes a color space given by a single device name adds.
pub open spec fn device_space_bytes(obj: Obj, kind: ColorSpaceType) -> Seq<u8> {
    primitive_enc_bytes(
        obj.buf@,
        obj.needs_padding,
        name_encoding(kind.spec_name()),
        true,
        obj.indirect,
        obj.settings.pretty,
    )
}

/// The bytes a `DeviceN` color space array holds before its attributes: the
/// family name, the array of component names, the alternate space and the
/// tint transform, written after `open`, the opening bracket included.
pub open spec fn device_n_head_bytes(
    open: Seq<u8>,
    pretty: bool,
    names: Seq<Name>,
    alternate: Seq<u8>,
    tint: Ref,
) -> Seq<u8> {
    let kind = array_item_enc_bytes(
        open,
        0,
        pretty,
        name_encoding(ColorSpaceType::DeviceN.spec_name()),
        true,
    );
    let inner_open = open + kind + array_separator(1, pretty) + seq![LBRACKET];
    let list = array_separator(1, pretty) + seq![LBRACKET] + array_items_bytes(
        inner_open,
        0,
        pretty,
        names,
    ) + array_close_bytes(false, pretty);
    let alt = array_item_enc_bytes(open + kind + list, 2, pretty, name_encoding(alternate), true);
    let t = array_item_bytes(open + kind + list + alt, 3, pretty, tint);
    kind + list + alt + t
}

impl<'a> ColorSpace<'a> {
    /// Start writing a color space on an object.
    pub(crate) fn start(obj: Obj<'a>) -> (r: Self)
        ensures
            r.obj == obj,
    {
        Self { obj }
    }

    /// Write an `ICCBased` color space.
    ///
    /// The `stream` argument is an indirect reference to an [ICC
    /// profile](IccProfile) stream.
    pub fn icc_based(self, stream: Ref)
        ensures
            final(self.obj.buf)@ == old(self.obj.buf)@ + token_array_bytes(
                old(self.obj.buf)@,
                self.obj.settings.pretty,
                self.obj.indirect,
                seq![name_token(ColorSpaceType::IccBased.spec_name()), token(stream)],
            ),
            final(self.obj.buf).spec_limits() == old(self.obj.buf).spec_limits().with_name_len(ColorSpaceType::IccBased.spec_name().len() as int).with_int(
                stream.id(),
            ).with_array_len(2),
    {
        let ghost pretty = self.obj.settings.pretty;
        let ghost t0 = name_token(ColorSpaceType::IccBased.spec_name());
        let mut array = self.obj.array();
        let ghost open = array.buf@;
        array.item(ColorSpaceType::IccBased.to_name());
        proof {
            lemma_tokens_push(open, 0, pretty, seq![], t0);
            lemma_tokens_push(open, 0, pretty, seq![t0], token(stream));
            assert(seq![].push(t0) =~= seq![t0]);
            assert(seq![t0].push(token(stream)) =~= seq![t0, token(stream)]);
        }
        array.item(stream);
        array.finish();
    }

    /// Write a `DeviceRGB` color space.
    pub fn device_rgb(self)
        ensures
            final(self.obj.buf)@ == old(self.obj.buf)@ + device_space_bytes(
                self.obj,
                ColorSpaceType::DeviceRgb,
            ),
            final(self.obj.buf).spec_limits() == old(self.obj.buf).spec_limits().with_name_len(ColorSpaceType::DeviceRgb.spec_name().len() as int),
    {
        self.obj.primitive(ColorSpaceType::DeviceRgb.to_name());
    }

    /// Write a `DeviceCMYK` color space.
    pub fn device_cmyk(self)
        ensures
            final(self.obj.buf)@ == old(self.obj.buf)@ + device_space_bytes(
                self.obj,
                ColorSpaceType::DeviceCmyk,
            ),
            final(self.obj.buf).spec_limits() == old(self.obj.buf).spec_limits().with_name_len(ColorSpaceType::DeviceCmyk.spec_name().len() as int),
    {
        self.obj.primitive(ColorSpaceType::DeviceCmyk.to_name());
    }

    /// Write a `DeviceGray` color space.
    pub fn device_gray(self)
        ensures
            final(self.obj.buf)@ == old(self.obj.buf)@ + device_space_bytes(
                self.obj,
                ColorSpaceType::DeviceGray,
            ),
            final(self.obj.buf).spec_limits() == old(self.obj.buf).spec_limits().with_name_len(ColorSpaceType::DeviceGray.spec_name().len() as int),
    {
        self.obj.primitive(ColorSpaceType::DeviceGray.to_name());
    }

    /// Start writing a `Separation` color space. PDF 1.2+.
    ///
    /// The `color_name` argument is the name of the colorant that will be
    /// used by the printer.
    pub fn separation(self, color_name: Name) -> (r: Separation<'a>)
        ensures
            r.array.buf@ == old(self.obj.buf)@ + seq![LBRACKET] + array_tokens_bytes(
                old(self.obj.buf)@.push(LBRACKET),
                0,
                self.obj.settings.pretty,
                seq![name_token(ColorSpaceType::Separation.spec_name()), token(color_name)],
            ),
            r.array.len == 2,
            r.array.indirect == self.obj.indirect,
            r.array.indent == self.obj.indent,
            r.array.settings == self.obj.settings,
            !r.has_alternate,
            *final(r.array.buf) == *final(self.obj.buf),
    {
        let ghost pretty = self.obj.settings.pretty;
        let ghost t0 = name_token(ColorSpaceType::Separation.spec_name());
        let mut array = self.obj.array();
        let ghost open = array.buf@;
        array.item(ColorSpaceType::Separation.to_name());
        proof {
            lemma_tokens_push(open, 0, pretty, seq![], t0);
            lemma_tokens_push(open, 0, pretty, seq![t0], token(color_name));
            assert(seq![].push(t0) =~= seq![t0]);
            assert(seq![t0].push(token(color_name)) =~= seq![t0, token(color_name)]);
        }
        array.item(color_name);
        Separation::start(array)
    }

    /// Write a `DeviceN` color space. PDF 1.3+.
    ///
    /// The `names` argument contains the N names of the color components and
    /// the respective colorants. The `alternate_space` argument describes an
    /// alternate color space to use if the color names are unknown. The `tint`
    /// argument is an indirect reference to a function that maps from an n-
    /// dimensional values with components between 0 and 1 to a color in the
    /// alternate color space.
    #[verifier::spinoff_prover]
    #[verifier::rlimit(50)]
    pub fn device_n(self, names: &[Name], alternate_space: Name, tint: Ref) -> (r: DeviceN<'a>)
        requires
            names@.len() <= i32::MAX,
        ensures
            r.array.buf@ == old(self.obj.buf)@ + seq![LBRACKET] + device_n_head_bytes(
                old(self.obj.buf)@.push(LBRACKET),
                self.obj.settings.pretty,
                names@,
                alternate_space.0@,
                tint,
            ),
            r.array.len == 4,
            r.array.indirect == self.obj.indirect,
            r.array.indent == self.obj.indent,
            r.array.settings == self.obj.settings,
            *final(r.array.buf) == *final(self.obj.buf),
    {
        let ghost pretty = self.obj.settings.pretty;
        let mut array = self.obj.array();
        let ghost open = array.buf@;
        array.item(ColorSpaceType::DeviceN.to_name());
        let ghost after_kind = array.buf@;
        let mut list = array.push().array();
        let ghost inner_open = list.buf@;
        assert(inner_open == after_kind + array_separator(1, pretty) + seq![LBRACKET]);
        assert(all_writable(names@));
        list.items(names);
        list.finish();
        let ghost after_list = array.buf@;
        array.item(alternate_space);
        array.item(tint);
        assert(array.buf@ =~= old(self.obj.buf)@ + seq![LBRACKET] + device_n_head_bytes(
            open,
            pretty,
            names@,
            alternate_space.0@,
            tint,
        ));
        DeviceN::start(array)
    }

    /// Write an `Indexed` color space. PDF 1.2+.
    ///
    /// The length of the lookup slice must be the product of the dimensions of
    /// the base color space and (`hival + 1`) and `hival` shall be at most 255.
    #[verifier::spinoff_prover]
    #[verifier::rlimit(30)]
    pub fn indexed(self, base: Name, hival: i32, lookup: &[u8])
        requires
            hival != i32::MIN,
        ensures
            final(self.obj.buf)@ == old(self.obj.buf)@ + token_array_bytes(
                old(self.obj.buf)@,
                self.obj.settings.pretty,
                self.obj.indirect,
                seq![
                    name_token(ColorSpaceType::Indexed.spec_name()),
                    token(base),
                    token(hival),
                    token(Str(lookup)),
                ],
            ),
            final(self.obj.buf).spec_limits() == old(self.obj.buf).spec_limits().with_name_len(ColorSpaceType::Indexed.spec_name().len() as int).with_name_len(
                base.0@.len() as int,
            ).with_int(hival as int).with_str_len(lookup@.len() as int).with_array_len(4),
    {
        let ghost pretty = self.obj.settings.pretty;
        let ghost t0 = name_token(ColorSpaceType::Indexed.spec_name());
        let ghost t1 = token(base);
        let ghost t2 = token(hival);
        let ghost t3 = token(Str(lookup));
        let mut array = self.obj.array();
        let ghost open = array.buf@;
        array.item(ColorSpaceType::Indexed.to_name());
        proof {
            lemma_tokens_push(open, 0, pretty, seq![], t0);
            assert(seq![].push(t0) =~= seq![t0]);
        }
        assert(array.buf@ == open + array_tokens_bytes(open, 0, pretty, seq![t0]));
        array.item(base);
        proof {
            lemma_tokens_push(open, 0, pretty, seq![t0], t1);
            assert(seq![t0].push(t1) =~= seq![t0, t1]);
        }
        assert(array.buf@ == open + array_tokens_bytes(open, 0, pretty, seq![t0, t1]));
        array.item(hival);
        proof {
            lemma_tokens_push(open, 0, pretty, seq![t0, t1], t2);
            assert(seq![t0, t1].push(t2) =~= seq![t0, t1, t2]);
        }
        assert(array.buf@ == open + array_tokens_bytes(open, 0, pretty, seq![t0, t1, t2]));
        array.item(Str(lookup));
        proof {
            lemma_tokens_push(open, 0, pretty, seq![t0, t1, t2], t3);
            assert(seq![t0, t1, t2].push(t3) =~= seq![t0, t1, t2, t3]);
        }
        assert(array.buf@ == open + array_tokens_bytes(open, 0, pretty, seq![t0, t1, t2, t3]));
        array.finish();
    }

    /// Write a `Pattern` color space for uncolored patterns. PDF 1.2+.
    ///
    /// The `base` attribute is the color space in which the pattern's
    /// [tint](crate::Content::set_stroke_pattern) color is specified upon use.
    pub fn pattern(self, base: Name)
        ensures
            final(self.obj.buf)@ == old(self.obj.buf)@ + token_array_bytes(
                old(self.obj.buf)@,
                self.obj.settings.pretty,
                self.obj.indirect,
                seq![name_token(ColorSpaceType::Pattern.spec_name()), token(base)],
            ),
            final(self.obj.buf).spec_limits() == old(self.obj.buf).spec_limits().with_name_len(ColorSpaceType::Pattern.spec_name().len() as int).with_name_len(
                base.0@.len() as int,
            ).with_array_len(2),
    {
        let ghost pretty = self.obj.settings.pretty;
        let ghost t0 = name_token(ColorSpaceType::Pattern.spec_name());
        let mut array = self.obj.array();
        let ghost open = array.buf@;
        array.item(ColorSpaceType::Pattern.to_name());
        proof {
            lemma_tokens_push(open, 0, pretty, seq![], t0);
            lemma_tokens_push(open, 0, pretty, seq![t0], token(base));
            assert(seq![].push(t0) =~= seq![t0]);
            assert(seq![t0].push(token(base)) =~= seq![t0, token(base)]);
        }
        array.item(base);
        array.finish();
    }
}

/// An entry of the dictionary of a CIE-based color space: its key, the
/// texts of its real numbers and whether they are written as an array (else
/// as the one number).
pub type RealEntry = (Seq<u8>, Seq<Seq<u8>>, bool);

/// The texts of a sequence of real numbers.
pub open spec fn real_texts(values: Seq<Real>) -> Seq<Seq<u8>> {
    values.map_values(|v: Real| v.0@)
}

/// The tokens of a sequence of real-number texts.
pub open spec fn text_tokens(texts: Seq<Seq<u8>>) -> Seq<(Seq<u8>, bool)> {
    texts.map_values(|t: Seq<u8>| (t, false))
}

/// The bytes of one entry of a CIE-based color space dictionary.
pub open spec fn real_entry_bytes(before: Seq<u8>, pretty: bool, indent: int, e: RealEntry) -> Seq<u8> {
    if e.2 {
        dict_tokens_entry_bytes(before, pretty, indent, e.0, text_tokens(e.1))
    } else {
        dict_pair_enc_bytes(before, pretty, indent, e.0, e.1[0], false)
    }
}

/// The bytes of a sequence of entries of a CIE-based color space dictionary.
pub open spec fn real_entries_bytes(before: Seq<u8>, pretty: bool, indent: int, es: Seq<RealEntry>) -> Seq<u8>
    decreases es.len(),
{
    if es.len() == 0 {
        Seq::empty()
    } else {
        let prev = real_entries_bytes(before, pretty, indent, es.drop_last());
        prev + real_entry_bytes(before + prev, pretty, indent, es.last())
    }
}

/// The entry `key` if there are numbers for it.
pub open spec fn opt_array_entry(key: Seq<u8>, texts: Option<Seq<Seq<u8>>>) -> Seq<RealEntry> {
    match texts {
        Some(t) => seq![(key, t, true)],
        None => Seq::empty(),
    }
}

/// A CIE-based color space array: the family name and the dictionary with
/// the given entries, written on an object after `before`.
pub open spec fn cie_space_bytes(
    before: Seq<u8>,
    pretty: bool,
    indirect: bool,
    indent: u8,
    family: ColorSpaceType,
    es: Seq<RealEntry>,
) -> Seq<u8> {
    let open = before.push(LBRACKET);
    let kind = array_item_enc_bytes(open, 0, pretty, name_encoding(family.spec_name()), true);
    let sep = array_separator(1, pretty);
    let dopen = open + kind + sep + "<<".spec_bytes();
    let inner = nested_indent(indent) as int;
    seq![LBRACKET] + kind + sep + "<<".spec_bytes() + real_entries_bytes(dopen, pretty, inner, es)
        + dict_close_bytes(es.len() as int, pretty, inner, false) + array_close_bytes(indirect, pretty)
}

/// The limits after the entries of a CIE-based color space dictionary: each
/// records its key and, when written as an array, its length.
pub open spec fn real_entries_limits(before: LimitsView, es: Seq<RealEntry>) -> LimitsView
    decreases es.len(),
{
    if es.len() == 0 {
        before
    } else {
        let prev = real_entries_limits(before, es.drop_last()).with_name_len(es.last().0.len() as int);
        if es.last().2 {
            prev.with_array_len(es.last().1.len() as int)
        } else {
            prev
        }
    }
}

/// The limits after a CIE-based color space array with the given entries.
pub open spec fn cie_space_limits(before: LimitsView, family: ColorSpaceType, es: Seq<RealEntry>) -> LimitsView {
    real_entries_limits(before.with_name_len(family.spec_name().len() as int), es).with_dict_entries(
        es.len() as int,
    ).with_array_len(2)
}

/// Write one entry of a CIE-based color space dictionary.
fn push_real_entry(
    dict: &mut Dict,
    key: Name,
    values: &[Real],
    array: bool,
    Ghost(open): Ghost<Seq<u8>>,
    Ghost(es): Ghost<Seq<RealEntry>>,
    Ghost(start_limits): Ghost<LimitsView>,
)
    requires
        0 <= old(dict).len < i32::MAX,
        values@.len() <= i32::MAX,
        all_writable(values@),
        array || values@.len() == 1,
        old(dict).buf@ == open + real_entries_bytes(open, old(dict).settings.pretty, old(dict).indent as int, es),
        old(dict).buf.spec_limits() == real_entries_limits(start_limits, es),
    ensures
        final(dict).buf.spec_limits() == real_entries_limits(
            start_limits,
            es.push((key.0@, real_texts(values@), array)),
        ),
        final(dict).buf@ == open + real_entries_bytes(
            open,
            old(dict).settings.pretty,
            old(dict).indent as int,
            es.push((key.0@, real_texts(values@), array)),
        ),
        final(dict).len == old(dict).len + 1,
        final(dict).indirect == old(dict).indirect,
        final(dict).indent == old(dict).indent,
        final(dict).settings == old(dict).settings,
        *final(final(dict).buf) == *final(old(dict).buf),
{
    let ghost pretty = old(dict).settings.pretty;
    let ghost indent = old(dict).indent as int;
    let ghost prev = real_entries_bytes(open, pretty, indent, es);
    assert(es.push((key.0@, real_texts(values@), array)).drop_last() =~= es);
    if array {
        proof {
            lemma_items_as_tokens(
                open + prev + dict_key_bytes(pretty, indent, key.0@) + seq![LBRACKET],
                0,
                pretty,
                values@,
            );
            assert(values@.map_values(|v: Real| token(v)) =~= text_tokens(real_texts(values@)));
            lemma_reals_keep_limits(old(dict).buf.spec_limits().with_name_len(key.0@.len() as int), values@);
        }
        write_items_entry(dict, key, values);
    } else {
        assert(values@[0].spec_writable());
        dict.pair(key, values[0]);
    }
}

/// CIE-based color spaces.
impl<'a> ColorSpace<'a> {
    /// Write a `CalRGB` color space.
    #[verifier::spinoff_prover]
    #[verifier::rlimit(100)]
    pub fn cal_rgb(
        self,
        white_point: [Real; 3],
        black_point: Option<[Real; 3]>,
        gamma: Option<[Real; 3]>,
        matrix: Option<[Real; 9]>,
    )
        requires
            all_writable(white_point@),
            black_point matches Some(v) ==> all_writable(v@),
            gamma matches Some(v) ==> all_writable(v@),
            matrix matches Some(v) ==> all_writable(v@),
        ensures
            final(self.obj.buf)@ == old(self.obj.buf)@ + cie_space_bytes(
                old(self.obj.buf)@,
                self.obj.settings.pretty,
                self.obj.indirect,
                self.obj.indent,
                ColorSpaceType::CalRgb,
                seq![("WhitePoint".spec_bytes(), real_texts(white_point@), true)] + opt_array_entry(
                    "BlackPoint".spec_bytes(),
                    match black_point {
                        Some(v) => Some(real_texts(v@)),
                        None => None,
                    },
                ) + opt_array_entry(
                    "Gamma".spec_bytes(),
                    match gamma {
                        Some(v) => Some(real_texts(v@)),
                        None => None,
                    },
                ) + opt_array_entry(
                    "Matrix".spec_bytes(),
                    match matrix {
                        Some(v) => Some(real_texts(v@)),
                        None => None,
                    },
                ),
            ),
            final(self.obj.buf).spec_limits() == cie_space_limits(
                old(self.obj.buf).spec_limits(),
                ColorSpaceType::CalRgb,
                seq![("WhitePoint".spec_bytes(), real_texts(white_point@), true)] + opt_array_entry(
                    "BlackPoint".spec_bytes(),
                    match black_point {
                        Some(v) => Some(real_texts(v@)),
                        None => None,
                    },
                ) + opt_array_entry(
                    "Gamma".spec_bytes(),
                    match gamma {
                        Some(v) => Some(real_texts(v@)),
                        None => None,
                    },
                ) + opt_array_entry(
                    "Matrix".spec_bytes(),
                    match matrix {
                        Some(v) => Some(real_texts(v@)),
                        None => None,
                    },
                ),
            ),
    {
        let ghost before = self.obj.buf@;
        let ghost pretty = self.obj.settings.pretty;
        let ghost obj_indent = self.obj.indent;
        let ghost indirect = self.obj.indirect;
        let mut array = self.obj.array();
        let ghost open = array.buf@;
        array.item(ColorSpaceType::CalRgb.to_name());
        let ghost kind = array_item_enc_bytes(open, 0, pretty, name_encoding(ColorSpaceType::CalRgb.spec_name()), true);
        let mut dict = array.push().dict();
        let ghost dopen = dict.buf@;
        let ghost dl0 = dict.buf.spec_limits();
        assert(dopen =~= open + kind + array_separator(1, pretty) + "<<".spec_bytes());
        let ghost mut es: Seq<RealEntry> = Seq::empty();
        assert(real_entries_bytes(dopen, pretty, dict.indent as int, es) =~= Seq::<u8>::empty());
        push_real_entry(&mut dict, Name("WhitePoint".as_bytes()), white_point.as_slice(), true, Ghost(dopen), Ghost(es), Ghost(dl0));
        proof {
            es = es.push(("WhitePoint".spec_bytes(), real_texts(white_point@), true));
        }
        if let Some(v) = black_point {
            push_real_entry(&mut dict, Name("BlackPoint".as_bytes()), v.as_slice(), true, Ghost(dopen), Ghost(es), Ghost(dl0));
            proof {
                es = es.push(("BlackPoint".spec_bytes(), real_texts(v@), true));
            }
        }
        let ghost e1 = seq![("WhitePoint".spec_bytes(), real_texts(white_point@), true)] + opt_array_entry(
            "BlackPoint".spec_bytes(),
            match black_point {
                Some(v) => Some(real_texts(v@)),
                None => None,
            },
        );
        assert(es =~= e1);
        if let Some(v) = gamma {
            push_real_entry(&mut dict, Name("Gamma".as_bytes()), v.as_slice(), true, Ghost(dopen), Ghost(es), Ghost(dl0));
            proof {
                es = es.push(("Gamma".spec_bytes(), real_texts(v@), true));
            }
        }
        let ghost e2 = e1 + opt_array_entry(
            "Gamma".spec_bytes(),
            match gamma {
                Some(v) => Some(real_texts(v@)),
                None => None,
            },
        );
        assert(es =~= e2);
        if let Some(v) = matrix {
            push_real_entry(&mut dict, Name("Matrix".as_bytes()), v.as_slice(), true, Ghost(dopen), Ghost(es), Ghost(dl0));
            proof {
                es = es.push(("Matrix".spec_bytes(), real_texts(v@), true));
            }
        }
        assert(es =~= e2 + opt_array_entry(
            "Matrix".spec_bytes(),
            match matrix {
                Some(v) => Some(real_texts(v@)),
                None => None,
            },
        ));
        assert(es =~= seq![("WhitePoint".spec_bytes(), real_texts(white_point@), true)] + opt_array_entry(
            "BlackPoint".spec_bytes(),
            match black_point {
                Some(v) => Some(real_texts(v@)),
                None => None,
            },
        ) + opt_array_entry(
            "Gamma".spec_bytes(),
            match gamma {
                Some(v) => Some(real_texts(v@)),
                None => None,
            },
        ) + opt_array_entry(
            "Matrix".spec_bytes(),
            match matrix {
                Some(v) => Some(real_texts(v@)),
                None => None,
            },
        ));
        let ghost entries = real_entries_bytes(dopen, pretty, dict.indent as int, es);
        let ghost inner = dict.indent as int;
        assert(dict.buf@ == dopen + entries);
        assert(inner == nested_indent(obj_indent) as int);
        assert(dict.len == es.len());
        dict.finish();
        assert(array.buf@ =~= dopen + entries + dict_close_bytes(es.len() as int, pretty, inner, false));
        assert(dopen + entries + dict_close_bytes(es.len() as int, pretty, inner, false) + array_close_bytes(
            indirect,
            pretty,
        ) =~= before + cie_space_bytes(before, pretty, indirect, obj_indent, ColorSpaceType::CalRgb, es));
        array.finish();
    }

    /// Write a `CalGray` color space.
    #[verifier::spinoff_prover]
    #[verifier::rlimit(80)]
    pub fn cal_gray(
        self,
        white_point: [Real; 3],
        black_point: Option<[Real; 3]>,
        gamma: Option<Real>,
    )
        requires
            all_writable(white_point@),
            black_point matches Some(v) ==> all_writable(v@),
            gamma matches Some(v) ==> v.spec_writable(),
        ensures
            final(self.obj.buf)@ == old(self.obj.buf)@ + cie_space_bytes(
                old(self.obj.buf)@,
                self.obj.settings.pretty,
                self.obj.indirect,
                self.obj.indent,
                ColorSpaceType::CalGray,
                seq![("WhitePoint".spec_bytes(), real_texts(white_point@), true)] + opt_array_entry(
                    "BlackPoint".spec_bytes(),
                    match black_point {
                        Some(v) => Some(real_texts(v@)),
                        None => None,
                    },
                ) + match gamma {
                    Some(v) => seq![("Gamma".spec_bytes(), seq![v.0@], false)],
                    None => Seq::<RealEntry>::empty(),
                },
            ),
            final(self.obj.buf).spec_limits() == cie_space_limits(
                old(self.obj.buf).spec_limits(),
                ColorSpaceType::CalGray,
                seq![("WhitePoint".spec_bytes(), real_texts(white_point@), true)] + opt_array_entry(
                    "BlackPoint".spec_bytes(),
                    match black_point {
                        Some(v) => Some(real_texts(v@)),
                        None => None,
                    },
                ) + match gamma {
                    Some(v) => seq![("Gamma".spec_bytes(), seq![v.0@], false)],
                    None => Seq::<RealEntry>::empty(),
                },
            ),
    {
        let ghost before = self.obj.buf@;
        let ghost pretty = self.obj.settings.pretty;
        let ghost obj_indent = self.obj.indent;
        let ghost indirect = self.obj.indirect;
        let mut array = self.obj.array();
        let ghost open = array.buf@;
        array.item(ColorSpaceType::CalGray.to_name());
        let ghost kind = array_item_enc_bytes(open, 0, pretty, name_encoding(ColorSpaceType::CalGray.spec_name()), true);
        let mut dict = array.push().dict();
        let ghost dopen = dict.buf@;
        let ghost dl0 = dict.buf.spec_limits();
        assert(dopen =~= open + kind + array_separator(1, pretty) + "<<".spec_bytes());
        let ghost mut es: Seq<RealEntry> = Seq::empty();
        assert(real_entries_bytes(dopen, pretty, dict.indent as int, es) =~= Seq::<u8>::empty());
        push_real_entry(&mut dict, Name("WhitePoint".as_bytes()), white_point.as_slice(), true, Ghost(dopen), Ghost(es), Ghost(dl0));
        proof {
            es = es.push(("WhitePoint".spec_bytes(), real_texts(white_point@), true));
        }
        if let Some(v) = black_point {
            push_real_entry(&mut dict, Name("BlackPoint".as_bytes()), v.as_slice(), true, Ghost(dopen), Ghost(es), Ghost(dl0));
            proof {
                es = es.push(("BlackPoint".spec_bytes(), real_texts(v@), true));
            }
        }
        if let Some(v) = gamma {
            let one = [v];
            assert(one@ =~= seq![v]);
            push_real_entry(&mut dict, Name("Gamma".as_bytes()), one.as_slice(), false, Ghost(dopen), Ghost(es), Ghost(dl0));
            proof {
                assert(real_texts(seq![v]) =~= seq![v.0@]);
                es = es.push(("Gamma".spec_bytes(), real_texts(seq![v]), false));
            }
        }
        assert(es =~= seq![("WhitePoint".spec_bytes(), real_texts(white_point@), true)] + opt_array_entry(
            "BlackPoint".spec_bytes(),
            match black_point {
                Some(v) => Some(real_texts(v@)),
                None => None,
            },
        ) + match gamma {
            Some(v) => seq![("Gamma".spec_bytes(), seq![v.0@], false)],
            None => Seq::<RealEntry>::empty(),
        });
        let ghost entries = real_entries_bytes(dopen, pretty, dict.indent as int, es);
        let ghost inner = dict.indent as int;
        assert(dict.buf@ == dopen + entries);
        assert(inner == nested_indent(obj_indent) as int);
        assert(dict.len == es.len());
        dict.finish();
        assert(array.buf@ =~= dopen + entries + dict_close_bytes(es.len() as int, pretty, inner, false));
        assert(dopen + entries + dict_close_bytes(es.len() as int, pretty, inner, false) + array_close_bytes(
            indirect,
            pretty,
        ) =~= before + cie_space_bytes(before, pretty, indirect, obj_indent, ColorSpaceType::CalGray, es));
        array.finish();
    }

    /// Write a `Lab` color space.
    #[verifier::spinoff_prover]
    #[verifier::rlimit(80)]
    pub fn lab(
        self,
        white_point: [Real; 3],
        black_point: Option<[Real; 3]>,
        range: Option<[Real; 4]>,
    )
        requires
            all_writable(white_point@),
            black_point matches Some(v) ==> all_writable(v@),
            range matches Some(v) ==> all_writable(v@),
        ensures
            final(self.obj.buf)@ == old(self.obj.buf)@ + cie_space_bytes(
                old(self.obj.buf)@,
                self.obj.settings.pretty,
                self.obj.indirect,
                self.obj.indent,
                ColorSpaceType::Lab,
                seq![("WhitePoint".spec_bytes(), real_texts(white_point@), true)] + opt_array_entry(
                    "BlackPoint".spec_bytes(),
                    match black_point {
                        Some(v) => Some(real_texts(v@)),
                        None => None,
                    },
                ) + opt_array_entry(
                    "Range".spec_bytes(),
                    match range {
                        Some(v) => Some(real_texts(v@)),
                        None => None,
                    },
                ),
            ),
            final(self.obj.buf).spec_limits() == cie_space_limits(
                old(self.obj.buf).spec_limits(),
                ColorSpaceType::Lab,
                seq![("WhitePoint".spec_bytes(), real_texts(white_point@), true)] + opt_array_entry(
                    "BlackPoint".spec_bytes(),
                    match black_point {
                        Some(v) => Some(real_texts(v@)),
                        None => None,
                    },
                ) + opt_array_entry(
                    "Range".spec_bytes(),
                    match range {
                        Some(v) => Some(real_texts(v@)),
                        None => None,
                    },
                ),
            ),
    {
        let ghost before = self.obj.buf@;
        let ghost pretty = self.obj.settings.pretty;
        let ghost obj_indent = self.obj.indent;
        let ghost indirect = self.obj.indirect;
        let mut array = self.obj.array();
        let ghost open = array.buf@;
        array.item(ColorSpaceType::Lab.to_name());
        let ghost kind = array_item_enc_bytes(open, 0, pretty, name_encoding(ColorSpaceType::Lab.spec_name()), true);
        let mut dict = array.push().dict();
        let ghost dopen = dict.buf@;
        let ghost dl0 = dict.buf.spec_limits();
        assert(dopen =~= open + kind + array_separator(1, pretty) + "<<".spec_bytes());
        let ghost mut es: Seq<RealEntry> = Seq::empty();
        assert(real_entries_bytes(dopen, pretty, dict.indent as int, es) =~= Seq::<u8>::empty());
        push_real_entry(&mut dict, Name("WhitePoint".as_bytes()), white_point.as_slice(), true, Ghost(dopen), Ghost(es), Ghost(dl0));
        proof {
            es = es.push(("WhitePoint".spec_bytes(), real_texts(white_point@), true));
        }
        if let Some(v) = black_point {
            push_real_entry(&mut dict, Name("BlackPoint".as_bytes()), v.as_slice(), true, Ghost(dopen), Ghost(es), Ghost(dl0));
            proof {
                es = es.push(("BlackPoint".spec_bytes(), real_texts(v@), true));
            }
        }
        if let Some(v) = range {
            push_real_entry(&mut dict, Name("Range".as_bytes()), v.as_slice(), true, Ghost(dopen), Ghost(es), Ghost(dl0));
            proof {
                es = es.push(("Range".spec_bytes(), real_texts(v@), true));
            }
        }
        assert(es =~= seq![("WhitePoint".spec_bytes(), real_texts(white_point@), true)] + opt_array_entry(
            "BlackPoint".spec_bytes(),
            match black_point {
                Some(v) => Some(real_texts(v@)),
                None => None,
            },
        ) + opt_array_entry(
            "Range".spec_bytes(),
            match range {
                Some(v) => Some(real_texts(v@)),
                None => None,
            },
        ));
        let ghost entries = real_entries_bytes(dopen, pretty, dict.indent as int, es);
        let ghost inner = dict.indent as int;
        assert(dict.buf@ == dopen + entries);
        assert(inner == nested_indent(obj_indent) as int);
        assert(dict.len == es.len());
        dict.finish();
        assert(array.buf@ =~= dopen + entries + dict_close_bytes(es.len() as int, pretty, inner, false));
        assert(dopen + entries + dict_close_bytes(es.len() as int, pretty, inner, false) + array_close_bytes(
            indirect,
            pretty,
        ) =~= before + cie_space_bytes(before, pretty, indirect, obj_indent, ColorSpaceType::Lab, es));
        array.finish();
    }
}


/// Whether the characters from `i` on are decimal digits with at most one
/// decimal point among them (none if `dot` says that one came before).
pub open spec fn decimal_chars(s: Seq<char>, i: nat, dot: bool) -> bool
    decreases s.len() - i,
{
    if i >= s.len() {
        true
    } else if '0' <= s[i as int] <= '9' {
        decimal_chars(s, i + 1, dot)
    } else if s[i as int] == '.' && !dot {
        decimal_chars(s, i + 1, true)
    } else {
        false
    }
}

/// What `decimal_chars` says of each character from `i` on.
proof fn lemma_decimal_chars(s: Seq<char>, i: nat, dot: bool)
    requires
        decimal_chars(s, i, dot),
    ensures
        forall|j: int| i <= j < s.len() ==> ('0' <= #[trigger] s[j] <= '9') || s[j] == '.',
        forall|j: int, k: int| i <= j < k < s.len() && #[trigger] s[j] == '.' ==> #[trigger] s[k] != '.',
        dot ==> forall|j: int| i <= j < s.len() ==> #[trigger] s[j] != '.',
    decreases s.len() - i,
{
    if i < s.len() {
        if '0' <= s[i as int] <= '9' {
            lemma_decimal_chars(s, i + 1, dot);
        } else {
            lemma_decimal_chars(s, i + 1, true);
        }
    }
}

/// The real number that a decimal literal of this file spells.
fn literal(s: &'static str) -> (r: Real<'static>)
    requires
        s@.len() > 0,
        '0' <= s@[0] <= '9',
        decimal_chars(s@, 0, false),
    ensures
        r.0@ == s.spec_bytes(),
        r.spec_writable(),
{
    proof {
        lemma_decimal_chars(s@, 0, false);
        assert(is_ascii_chars(s@));
        is_ascii_spec_bytes(s);
        let b = s.spec_bytes();
        assert(is_digit(b[0]));
        assert forall|i: int| 0 <= i < b.len() implies is_digit(#[trigger] b[i]) || b[i] == DOT || (i == 0
            && b[i] == MINUS) by {
            assert(('0' <= s@[i] <= '9') || s@[i] == '.');
        }
        assert forall|i: int, j: int| 0 <= i < j < b.len() && #[trigger] b[i] == DOT implies #[trigger] b[j]
            != DOT by {
            assert(s@[i] == '.');
        }
    }
    Real(s.as_bytes())
}

/// The white point of CIE illuminant D65 (noon daylight), as written.
pub open spec fn white_d65() -> Seq<Seq<u8>> {
    seq!["0.9505".spec_bytes(), "1".spec_bytes(), "1.0888".spec_bytes()]
}

/// The white point of CIE illuminant D50 (horizon light), as written.
pub open spec fn white_d50() -> Seq<Seq<u8>> {
    seq!["0.9642".spec_bytes(), "1".spec_bytes(), "0.8251".spec_bytes()]
}

/// The white point of CIE illuminant C (north sky daylight), as written.
pub open spec fn white_c() -> Seq<Seq<u8>> {
    seq!["0.9807".spec_bytes(), "1".spec_bytes(), "1.1822".spec_bytes()]
}

/// The white point of CIE illuminant E (equal emission), as written.
pub open spec fn white_e() -> Seq<Seq<u8>> {
    seq!["1".spec_bytes(), "1".spec_bytes(), "1".spec_bytes()]
}

/// The entries of a calibrated RGB color space with a white point, the same
/// gamma for all three components and a matrix.
pub open spec fn cal_rgb_preset(white: Seq<Seq<u8>>, gamma: Seq<u8>, matrix: Seq<Seq<u8>>) -> Seq<RealEntry> {
    seq![
        ("WhitePoint".spec_bytes(), white, true),
        ("Gamma".spec_bytes(), seq![gamma, gamma, gamma], true),
        ("Matrix".spec_bytes(), matrix, true),
    ]
}

/// The entries of a calibrated gray color space with a white point and an
/// optional gamma.
pub open spec fn cal_gray_preset(white: Seq<Seq<u8>>, gamma: Option<Seq<u8>>) -> Seq<RealEntry> {
    seq![("WhitePoint".spec_bytes(), white, true)] + match gamma {
        Some(g) => seq![("Gamma".spec_bytes(), seq![g], false)],
        None => Seq::<RealEntry>::empty(),
    }
}

/// The white point of CIE illuminant D65 (noon daylight).
fn white_point_d65() -> (r: [Real<'static>; 3])
    ensures
        all_writable(r@),
        real_texts(r@) == white_d65(),
{
    proof {
        reveal_strlit("0.9505");
        reveal_strlit("1");
        reveal_strlit("1.0888");
        reveal_with_fuel(decimal_chars, 10);
    }
    let r = [literal("0.9505"), literal("1"), literal("1.0888")];
    assert(real_texts(r@) =~= white_d65());
    r
}

/// The white point of CIE illuminant D50 (horizon light).
fn white_point_d50() -> (r: [Real<'static>; 3])
    ensures
        all_writable(r@),
        real_texts(r@) == white_d50(),
{
    proof {
        reveal_strlit("0.9642");
        reveal_strlit("1");
        reveal_strlit("0.8251");
        reveal_with_fuel(decimal_chars, 10);
    }
    let r = [literal("0.9642"), literal("1"), literal("0.8251")];
    assert(real_texts(r@) =~= white_d50());
    r
}

/// The white point of CIE illuminant C (north sky daylight).
fn white_point_c() -> (r: [Real<'static>; 3])
    ensures
        all_writable(r@),
        real_texts(r@) == white_c(),
{
    proof {
        reveal_strlit("0.9807");
        reveal_strlit("1");
        reveal_strlit("1.1822");
        reveal_with_fuel(decimal_chars, 10);
    }
    let r = [literal("0.9807"), literal("1"), literal("1.1822")];
    assert(real_texts(r@) =~= white_c());
    r
}

/// The white point of CIE illuminant E (equal emission).
fn white_point_e() -> (r: [Real<'static>; 3])
    ensures
        all_writable(r@),
        real_texts(r@) == white_e(),
{
    proof {
        reveal_strlit("1");
        reveal_with_fuel(decimal_chars, 10);
    }
    let r = [literal("1"), literal("1"), literal("1")];
    assert(real_texts(r@) =~= white_e());
    r
}

/// Common calibrated color spaces.
impl<'a> ColorSpace<'a> {
    /// Write a `CalRGB` color space approximating sRGB.
    ///
    /// Use an ICC profile for more accurate results.
    pub fn srgb(self)
        ensures
            final(self.obj.buf)@ == old(self.obj.buf)@ + cie_space_bytes(
                old(self.obj.buf)@,
                self.obj.settings.pretty,
                self.obj.indirect,
                self.obj.indent,
                ColorSpaceType::CalRgb,
                cal_rgb_preset(
                    white_d65(),
                    "2.2".spec_bytes(),
                    seq!["0.4124".spec_bytes(), "0.2126".spec_bytes(), "0.0193".spec_bytes(), "0.3576".spec_bytes(), "0.715".spec_bytes(), "0.1192".spec_bytes(), "0.1805".spec_bytes(), "0.0722".spec_bytes(), "0.9505".spec_bytes()],
                ),
            ),
            final(self.obj.buf).spec_limits() == cie_space_limits(
                old(self.obj.buf).spec_limits(),
                ColorSpaceType::CalRgb,
                cal_rgb_preset(
                    white_d65(),
                    "2.2".spec_bytes(),
                    seq!["0.4124".spec_bytes(), "0.2126".spec_bytes(), "0.0193".spec_bytes(), "0.3576".spec_bytes(), "0.715".spec_bytes(), "0.1192".spec_bytes(), "0.1805".spec_bytes(), "0.0722".spec_bytes(), "0.9505".spec_bytes()],
                ),
            ),
    {
        proof {
            reveal_strlit("2.2");
            reveal_strlit("0.4124");
            reveal_strlit("0.2126");
            reveal_strlit("0.0193");
            reveal_strlit("0.3576");
            reveal_strlit("0.715");
            reveal_strlit("0.1192");
            reveal_strlit("0.1805");
            reveal_strlit("0.0722");
            reveal_strlit("0.9505");
            reveal_with_fuel(decimal_chars, 10);
        }
        let gamma = literal("2.2");
        let matrix = [
            literal("0.4124"),
            literal("0.2126"),
            literal("0.0193"),
            literal("0.3576"),
            literal("0.715"),
            literal("0.1192"),
            literal("0.1805"),
            literal("0.0722"),
            literal("0.9505"),
        ];
        let gammas = [gamma, gamma, gamma];
        let white = white_point_d65();
        assert(real_texts(gammas@) =~= seq![gamma.0@, gamma.0@, gamma.0@]);
        assert(real_texts(matrix@) =~= seq!["0.4124".spec_bytes(), "0.2126".spec_bytes(), "0.0193".spec_bytes(), "0.3576".spec_bytes(), "0.715".spec_bytes(), "0.1192".spec_bytes(), "0.1805".spec_bytes(), "0.0722".spec_bytes(), "0.9505".spec_bytes()]);
        self.cal_rgb(white, None, Some(gammas), Some(matrix));
        assert(seq![("WhitePoint".spec_bytes(), real_texts(white@), true)] + opt_array_entry("BlackPoint".spec_bytes(), None)
            + opt_array_entry("Gamma".spec_bytes(), Some(real_texts(gammas@)))
            + opt_array_entry("Matrix".spec_bytes(), Some(real_texts(matrix@)))
            =~= cal_rgb_preset(white_d65(), "2.2".spec_bytes(), seq!["0.4124".spec_bytes(), "0.2126".spec_bytes(), "0.0193".spec_bytes(), "0.3576".spec_bytes(), "0.715".spec_bytes(), "0.1192".spec_bytes(), "0.1805".spec_bytes(), "0.0722".spec_bytes(), "0.9505".spec_bytes()]));
    }

    /// Write a `CalRGB` color space approximating Adobe RGB.
    ///
    /// Use an ICC profile for more accurate results.
    pub fn adobe_rgb(self)
        ensures
            final(self.obj.buf)@ == old(self.obj.buf)@ + cie_space_bytes(
                old(self.obj.buf)@,
                self.obj.settings.pretty,
                self.obj.indirect,
                self.obj.indent,
                ColorSpaceType::CalRgb,
                cal_rgb_preset(
                    white_d65(),
                    "2.2".spec_bytes(),
                    seq!["0.57667".spec_bytes(), "0.29734".spec_bytes(), "0.02703".spec_bytes(), "0.18556".spec_bytes(), "0.62736".spec_bytes(), "0.07069".spec_bytes(), "0.18823".spec_bytes(), "0.07529".spec_bytes(), "0.99134".spec_bytes()],
                ),
            ),
            final(self.obj.buf).spec_limits() == cie_space_limits(
                old(self.obj.buf).spec_limits(),
                ColorSpaceType::CalRgb,
                cal_rgb_preset(
                    white_d65(),
                    "2.2".spec_bytes(),
                    seq!["0.57667".spec_bytes(), "0.29734".spec_bytes(), "0.02703".spec_bytes(), "0.18556".spec_bytes(), "0.62736".spec_bytes(), "0.07069".spec_bytes(), "0.18823".spec_bytes(), "0.07529".spec_bytes(), "0.99134".spec_bytes()],
                ),
            ),
    {
        proof {
            reveal_strlit("2.2");
            reveal_strlit("0.57667");
            reveal_strlit("0.29734");
            reveal_strlit("0.02703");
            reveal_strlit("0.18556");
            reveal_strlit("0.62736");
            reveal_strlit("0.07069");
            reveal_strlit("0.18823");
            reveal_strlit("0.07529");
            reveal_strlit("0.99134");
            reveal_with_fuel(decimal_chars, 10);
        }
        let gamma = literal("2.2");
        let matrix = [
            literal("0.57667"),
            literal("0.29734"),
            literal("0.02703"),
            literal("0.18556"),
            literal("0.62736"),
            literal("0.07069"),
            literal("0.18823"),
            literal("0.07529"),
            literal("0.99134"),
        ];
        let gammas = [gamma, gamma, gamma];
        let white = white_point_d65();
        assert(real_texts(gammas@) =~= seq![gamma.0@, gamma.0@, gamma.0@]);
        assert(real_texts(matrix@) =~= seq!["0.57667".spec_bytes(), "0.29734".spec_bytes(), "0.02703".spec_bytes(), "0.18556".spec_bytes(), "0.62736".spec_bytes(), "0.07069".spec_bytes(), "0.18823".spec_bytes(), "0.07529".spec_bytes(), "0.99134".spec_bytes()]);
        self.cal_rgb(white, None, Some(gammas), Some(matrix));
        assert(seq![("WhitePoint".spec_bytes(), real_texts(white@), true)] + opt_array_entry("BlackPoint".spec_bytes(), None)
            + opt_array_entry("Gamma".spec_bytes(), Some(real_texts(gammas@)))
            + opt_array_entry("Matrix".spec_bytes(), Some(real_texts(matrix@)))
            =~= cal_rgb_preset(white_d65(), "2.2".spec_bytes(), seq!["0.57667".spec_bytes(), "0.29734".spec_bytes(), "0.02703".spec_bytes(), "0.18556".spec_bytes(), "0.62736".spec_bytes(), "0.07069".spec_bytes(), "0.18823".spec_bytes(), "0.07529".spec_bytes(), "0.99134".spec_bytes()]));
    }

    /// Write a `CalRGB` color space approximating Display P3.
    ///
    /// Use an ICC profile for more accurate results.
    pub fn display_p3(self)
        ensures
            final(self.obj.buf)@ == old(self.obj.buf)@ + cie_space_bytes(
                old(self.obj.buf)@,
                self.obj.settings.pretty,
                self.obj.indirect,
                self.obj.indent,
                ColorSpaceType::CalRgb,
                cal_rgb_preset(
                    white_d65(),
                    "2.2".spec_bytes(),
                    seq!["0.48657".spec_bytes(), "0.2297".spec_bytes(), "0".spec_bytes(), "0.26567".spec_bytes(), "0.69174".spec_bytes(), "0.04511".spec_bytes(), "0.19822".spec_bytes(), "0.07929".spec_bytes(), "1.04394".spec_bytes()],
                ),
            ),
            final(self.obj.buf).spec_limits() == cie_space_limits(
                old(self.obj.buf).spec_limits(),
                ColorSpaceType::CalRgb,
                cal_rgb_preset(
                    white_d65(),
                    "2.2".spec_bytes(),
                    seq!["0.48657".spec_bytes(), "0.2297".spec_bytes(), "0".spec_bytes(), "0.26567".spec_bytes(), "0.69174".spec_bytes(), "0.04511".spec_bytes(), "0.19822".spec_bytes(), "0.07929".spec_bytes(), "1.04394".spec_bytes()],
                ),
            ),
    {
        proof {
            reveal_strlit("2.2");
            reveal_strlit("0.48657");
            reveal_strlit("0.2297");
            reveal_strlit("0");
            reveal_strlit("0.26567");
            reveal_strlit("0.69174");
            reveal_strlit("0.04511");
            reveal_strlit("0.19822");
            reveal_strlit("0.07929");
            reveal_strlit("1.04394");
            reveal_with_fuel(decimal_chars, 10);
        }
        let gamma = literal("2.2");
        let matrix = [
            literal("0.48657"),
            literal("0.2297"),
            literal("0"),
            literal("0.26567"),
            literal("0.69174"),
            literal("0.04511"),
            literal("0.19822"),
            literal("0.07929"),
            literal("1.04394"),
        ];
        let gammas = [gamma, gamma, gamma];
        let white = white_point_d65();
        assert(real_texts(gammas@) =~= seq![gamma.0@, gamma.0@, gamma.0@]);
        assert(real_texts(matrix@) =~= seq!["0.48657".spec_bytes(), "0.2297".spec_bytes(), "0".spec_bytes(), "0.26567".spec_bytes(), "0.69174".spec_bytes(), "0.04511".spec_bytes(), "0.19822".spec_bytes(), "0.07929".spec_bytes(), "1.04394".spec_bytes()]);
        self.cal_rgb(white, None, Some(gammas), Some(matrix));
        assert(seq![("WhitePoint".spec_bytes(), real_texts(white@), true)] + opt_array_entry("BlackPoint".spec_bytes(), None)
            + opt_array_entry("Gamma".spec_bytes(), Some(real_texts(gammas@)))
            + opt_array_entry("Matrix".spec_bytes(), Some(real_texts(matrix@)))
            =~= cal_rgb_preset(white_d65(), "2.2".spec_bytes(), seq!["0.48657".spec_bytes(), "0.2297".spec_bytes(), "0".spec_bytes(), "0.26567".spec_bytes(), "0.69174".spec_bytes(), "0.04511".spec_bytes(), "0.19822".spec_bytes(), "0.07929".spec_bytes(), "1.04394".spec_bytes()]));
    }

    /// Write a `CalRGB` color space approximating ProPhoto.
    ///
    /// Use an ICC profile for more accurate results.
    pub fn pro_photo(self)
        ensures
            final(self.obj.buf)@ == old(self.obj.buf)@ + cie_space_bytes(
                old(self.obj.buf)@,
                self.obj.settings.pretty,
                self.obj.indirect,
                self.obj.indent,
                ColorSpaceType::CalRgb,
                cal_rgb_preset(
                    white_d50(),
                    "1.8".spec_bytes(),
                    seq!["0.7976749".spec_bytes(), "0.2880402".spec_bytes(), "0".spec_bytes(), "0.1351917".spec_bytes(), "0.7118741".spec_bytes(), "0".spec_bytes(), "0.0313534".spec_bytes(), "0.0000857".spec_bytes(), "0.82521".spec_bytes()],
                ),
            ),
            final(self.obj.buf).spec_limits() == cie_space_limits(
                old(self.obj.buf).spec_limits(),
                ColorSpaceType::CalRgb,
                cal_rgb_preset(
                    white_d50(),
                    "1.8".spec_bytes(),
                    seq!["0.7976749".spec_bytes(), "0.2880402".spec_bytes(), "0".spec_bytes(), "0.1351917".spec_bytes(), "0.7118741".spec_bytes(), "0".spec_bytes(), "0.0313534".spec_bytes(), "0.0000857".spec_bytes(), "0.82521".spec_bytes()],
                ),
            ),
    {
        proof {
            reveal_strlit("1.8");
            reveal_strlit("0.7976749");
            reveal_strlit("0.2880402");
            reveal_strlit("0");
            reveal_strlit("0.1351917");
            reveal_strlit("0.7118741");
            reveal_strlit("0.0313534");
            reveal_strlit("0.0000857");
            reveal_strlit("0.82521");
            reveal_with_fuel(decimal_chars, 10);
        }
        let gamma = literal("1.8");
        let matrix = [
            literal("0.7976749"),
            literal("0.2880402"),
            literal("0"),
            literal("0.1351917"),
            literal("0.7118741"),
            literal("0"),
            literal("0.0313534"),
            literal("0.0000857"),
            literal("0.82521"),
        ];
        let gammas = [gamma, gamma, gamma];
        let white = white_point_d50();
        assert(real_texts(gammas@) =~= seq![gamma.0@, gamma.0@, gamma.0@]);
        assert(real_texts(matrix@) =~= seq!["0.7976749".spec_bytes(), "0.2880402".spec_bytes(), "0".spec_bytes(), "0.1351917".spec_bytes(), "0.7118741".spec_bytes(), "0".spec_bytes(), "0.0313534".spec_bytes(), "0.0000857".spec_bytes(), "0.82521".spec_bytes()]);
        self.cal_rgb(white, None, Some(gammas), Some(matrix));
        assert(seq![("WhitePoint".spec_bytes(), real_texts(white@), true)] + opt_array_entry("BlackPoint".spec_bytes(), None)
            + opt_array_entry("Gamma".spec_bytes(), Some(real_texts(gammas@)))
            + opt_array_entry("Matrix".spec_bytes(), Some(real_texts(matrix@)))
            =~= cal_rgb_preset(white_d50(), "1.8".spec_bytes(), seq!["0.7976749".spec_bytes(), "0.2880402".spec_bytes(), "0".spec_bytes(), "0.1351917".spec_bytes(), "0.7118741".spec_bytes(), "0".spec_bytes(), "0.0313534".spec_bytes(), "0.0000857".spec_bytes(), "0.82521".spec_bytes()]));
    }

    /// Write a `CalRGB` color space for ECI RGB v1.
    pub fn eci_rgb(self)
        ensures
            final(self.obj.buf)@ == old(self.obj.buf)@ + cie_space_bytes(
                old(self.obj.buf)@,
                self.obj.settings.pretty,
                self.obj.indirect,
                self.obj.indent,
                ColorSpaceType::CalRgb,
                cal_rgb_preset(
                    white_d50(),
                    "1.8".spec_bytes(),
                    seq!["0.6502043".spec_bytes(), "0.3202499".spec_bytes(), "0".spec_bytes(), "0.1780774".spec_bytes(), "0.6020711".spec_bytes(), "0.067839".spec_bytes(), "0.1359384".spec_bytes(), "0.0776791".spec_bytes(), "0.757371".spec_bytes()],
                ),
            ),
            final(self.obj.buf).spec_limits() == cie_space_limits(
                old(self.obj.buf).spec_limits(),
                ColorSpaceType::CalRgb,
                cal_rgb_preset(
                    white_d50(),
                    "1.8".spec_bytes(),
                    seq!["0.6502043".spec_bytes(), "0.3202499".spec_bytes(), "0".spec_bytes(), "0.1780774".spec_bytes(), "0.6020711".spec_bytes(), "0.067839".spec_bytes(), "0.1359384".spec_bytes(), "0.0776791".spec_bytes(), "0.757371".spec_bytes()],
                ),
            ),
    {
        proof {
            reveal_strlit("1.8");
            reveal_strlit("0.6502043");
            reveal_strlit("0.3202499");
            reveal_strlit("0");
            reveal_strlit("0.1780774");
            reveal_strlit("0.6020711");
            reveal_strlit("0.067839");
            reveal_strlit("0.1359384");
            reveal_strlit("0.0776791");
            reveal_strlit("0.757371");
            reveal_with_fuel(decimal_chars, 10);
        }
        let gamma = literal("1.8");
        let matrix = [
            literal("0.6502043"),
            literal("0.3202499"),
            literal("0"),
            literal("0.1780774"),
            literal("0.6020711"),
            literal("0.067839"),
            literal("0.1359384"),
            literal("0.0776791"),
            literal("0.757371"),
        ];
        let gammas = [gamma, gamma, gamma];
        let white = white_point_d50();
        assert(real_texts(gammas@) =~= seq![gamma.0@, gamma.0@, gamma.0@]);
        assert(real_texts(matrix@) =~= seq!["0.6502043".spec_bytes(), "0.3202499".spec_bytes(), "0".spec_bytes(), "0.1780774".spec_bytes(), "0.6020711".spec_bytes(), "0.067839".spec_bytes(), "0.1359384".spec_bytes(), "0.0776791".spec_bytes(), "0.757371".spec_bytes()]);
        self.cal_rgb(white, None, Some(gammas), Some(matrix));
        assert(seq![("WhitePoint".spec_bytes(), real_texts(white@), true)] + opt_array_entry("BlackPoint".spec_bytes(), None)
            + opt_array_entry("Gamma".spec_bytes(), Some(real_texts(gammas@)))
            + opt_array_entry("Matrix".spec_bytes(), Some(real_texts(matrix@)))
            =~= cal_rgb_preset(white_d50(), "1.8".spec_bytes(), seq!["0.6502043".spec_bytes(), "0.3202499".spec_bytes(), "0".spec_bytes(), "0.1780774".spec_bytes(), "0.6020711".spec_bytes(), "0.067839".spec_bytes(), "0.1359384".spec_bytes(), "0.0776791".spec_bytes(), "0.757371".spec_bytes()]));
    }

    /// Write a `CalRGB` color space for NTSC RGB.
    pub fn ntsc(self)
        ensures
            final(self.obj.buf)@ == old(self.obj.buf)@ + cie_space_bytes(
                old(self.obj.buf)@,
                self.obj.settings.pretty,
                self.obj.indirect,
                self.obj.indent,
                ColorSpaceType::CalRgb,
                cal_rgb_preset(
                    white_c(),
                    "2.2".spec_bytes(),
                    seq!["0.6068909".spec_bytes(), "0.2989164".spec_bytes(), "0".spec_bytes(), "0.1735011".spec_bytes(), "0.586599".spec_bytes(), "0.0660957".spec_bytes(), "0.200348".spec_bytes(), "0.1144845".spec_bytes(), "1.1162243".spec_bytes()],
                ),
            ),
            final(self.obj.buf).spec_limits() == cie_space_limits(
                old(self.obj.buf).spec_limits(),
                ColorSpaceType::CalRgb,
                cal_rgb_preset(
                    white_c(),
                    "2.2".spec_bytes(),
                    seq!["0.6068909".spec_bytes(), "0.2989164".spec_bytes(), "0".spec_bytes(), "0.1735011".spec_bytes(), "0.586599".spec_bytes(), "0.0660957".spec_bytes(), "0.200348".spec_bytes(), "0.1144845".spec_bytes(), "1.1162243".spec_bytes()],
                ),
            ),
    {
        proof {
            reveal_strlit("2.2");
            reveal_strlit("0.6068909");
            reveal_strlit("0.2989164");
            reveal_strlit("0");
            reveal_strlit("0.1735011");
            reveal_strlit("0.586599");
            reveal_strlit("0.0660957");
            reveal_strlit("0.200348");
            reveal_strlit("0.1144845");
            reveal_strlit("1.1162243");
            reveal_with_fuel(decimal_chars, 10);
        }
        let gamma = literal("2.2");
        let matrix = [
            literal("0.6068909"),
            literal("0.2989164"),
            literal("0"),
            literal("0.1735011"),
            literal("0.586599"),
            literal("0.0660957"),
            literal("0.200348"),
            literal("0.1144845"),
            literal("1.1162243"),
        ];
        let gammas = [gamma, gamma, gamma];
        let white = white_point_c();
        assert(real_texts(gammas@) =~= seq![gamma.0@, gamma.0@, gamma.0@]);
        assert(real_texts(matrix@) =~= seq!["0.6068909".spec_bytes(), "0.2989164".spec_bytes(), "0".spec_bytes(), "0.1735011".spec_bytes(), "0.586599".spec_bytes(), "0.0660957".spec_bytes(), "0.200348".spec_bytes(), "0.1144845".spec_bytes(), "1.1162243".spec_bytes()]);
        self.cal_rgb(white, None, Some(gammas), Some(matrix));
        assert(seq![("WhitePoint".spec_bytes(), real_texts(white@), true)] + opt_array_entry("BlackPoint".spec_bytes(), None)
            + opt_array_entry("Gamma".spec_bytes(), Some(real_texts(gammas@)))
            + opt_array_entry("Matrix".spec_bytes(), Some(real_texts(matrix@)))
            =~= cal_rgb_preset(white_c(), "2.2".spec_bytes(), seq!["0.6068909".spec_bytes(), "0.2989164".spec_bytes(), "0".spec_bytes(), "0.1735011".spec_bytes(), "0.586599".spec_bytes(), "0.0660957".spec_bytes(), "0.200348".spec_bytes(), "0.1144845".spec_bytes(), "1.1162243".spec_bytes()]));
    }

    /// Write a `CalRGB` color space for PAL/SECAM RGB.
    pub fn pal(self)
        ensures
            final(self.obj.buf)@ == old(self.obj.buf)@ + cie_space_bytes(
                old(self.obj.buf)@,
                self.obj.settings.pretty,
                self.obj.indirect,
                self.obj.indent,
                ColorSpaceType::CalRgb,
                cal_rgb_preset(
                    white_d65(),
                    "2.2".spec_bytes(),
                    seq!["0.430619".spec_bytes(), "0.2220379".spec_bytes(), "0.0201853".spec_bytes(), "0.3415419".spec_bytes(), "0.7066384".spec_bytes(), "0.1295504".spec_bytes(), "0.1783091".spec_bytes(), "0.0713236".spec_bytes(), "0.9390944".spec_bytes()],
                ),
            ),
            final(self.obj.buf).spec_limits() == cie_space_limits(
                old(self.obj.buf).spec_limits(),
                ColorSpaceType::CalRgb,
                cal_rgb_preset(
                    white_d65(),
                    "2.2".spec_bytes(),
                    seq!["0.430619".spec_bytes(), "0.2220379".spec_bytes(), "0.0201853".spec_bytes(), "0.3415419".spec_bytes(), "0.7066384".spec_bytes(), "0.1295504".spec_bytes(), "0.1783091".spec_bytes(), "0.0713236".spec_bytes(), "0.9390944".spec_bytes()],
                ),
            ),
    {
        proof {
            reveal_strlit("2.2");
            reveal_strlit("0.430619");
            reveal_strlit("0.2220379");
            reveal_strlit("0.0201853");
            reveal_strlit("0.3415419");
            reveal_strlit("0.7066384");
            reveal_strlit("0.1295504");
            reveal_strlit("0.1783091");
            reveal_strlit("0.0713236");
            reveal_strlit("0.9390944");
            reveal_with_fuel(decimal_chars, 10);
        }
        let gamma = literal("2.2");
        let matrix = [
            literal("0.430619"),
            literal("0.2220379"),
            literal("0.0201853"),
            literal("0.3415419"),
            literal("0.7066384"),
            literal("0.1295504"),
            literal("0.1783091"),
            literal("0.0713236"),
            literal("0.9390944"),
        ];
        let gammas = [gamma, gamma, gamma];
        let white = white_point_d65();
        assert(real_texts(gammas@) =~= seq![gamma.0@, gamma.0@, gamma.0@]);
        assert(real_texts(matrix@) =~= seq!["0.430619".spec_bytes(), "0.2220379".spec_bytes(), "0.0201853".spec_bytes(), "0.3415419".spec_bytes(), "0.7066384".spec_bytes(), "0.1295504".spec_bytes(), "0.1783091".spec_bytes(), "0.0713236".spec_bytes(), "0.9390944".spec_bytes()]);
        self.cal_rgb(white, None, Some(gammas), Some(matrix));
        assert(seq![("WhitePoint".spec_bytes(), real_texts(white@), true)] + opt_array_entry("BlackPoint".spec_bytes(), None)
            + opt_array_entry("Gamma".spec_bytes(), Some(real_texts(gammas@)))
            + opt_array_entry("Matrix".spec_bytes(), Some(real_texts(matrix@)))
            =~= cal_rgb_preset(white_d65(), "2.2".spec_bytes(), seq!["0.430619".spec_bytes(), "0.2220379".spec_bytes(), "0.0201853".spec_bytes(), "0.3415419".spec_bytes(), "0.7066384".spec_bytes(), "0.1295504".spec_bytes(), "0.1783091".spec_bytes(), "0.0713236".spec_bytes(), "0.9390944".spec_bytes()]));
    }

    /// Write a `CalGray` color space for CIE D65 at a 2.2 gamma, equivalent to
    /// sRGB, Adobe RGB, Display P3, PAL, ...
    pub fn d65_gray(self)
        ensures
            final(self.obj.buf)@ == old(self.obj.buf)@ + cie_space_bytes(
                old(self.obj.buf)@,
                self.obj.settings.pretty,
                self.obj.indirect,
                self.obj.indent,
                ColorSpaceType::CalGray,
                cal_gray_preset(white_d65(), Some("2.2".spec_bytes())),
            ),
            final(self.obj.buf).spec_limits() == cie_space_limits(
                old(self.obj.buf).spec_limits(),
                ColorSpaceType::CalGray,
                cal_gray_preset(white_d65(), Some("2.2".spec_bytes())),
            ),
    {
        proof {
            reveal_strlit("2.2");
            reveal_with_fuel(decimal_chars, 10);
        }
        let gamma = literal("2.2");
        let white = white_point_d65();
        self.cal_gray(white, None, Some(gamma));
        assert(seq![("WhitePoint".spec_bytes(), real_texts(white@), true)] + opt_array_entry("BlackPoint".spec_bytes(), None)
            + seq![("Gamma".spec_bytes(), seq![gamma.0@], false)] =~= cal_gray_preset(white_d65(), Some("2.2".spec_bytes())));
    }

    /// Write a `CalGray` color space for CIE D50 (horizon light). Set a 1.8
    /// gamma for ProPhoto or ECI RGB equivalency, 2.2 is another common value.
    pub fn d50_gray(self, gamma: Option<Real>)
        requires
            gamma matches Some(g) ==> g.spec_writable(),
        ensures
            final(self.obj.buf)@ == old(self.obj.buf)@ + cie_space_bytes(
                old(self.obj.buf)@,
                self.obj.settings.pretty,
                self.obj.indirect,
                self.obj.indent,
                ColorSpaceType::CalGray,
                cal_gray_preset(
                    white_d50(),
                    match gamma {
                        Some(g) => Some(g.0@),
                        None => None,
                    },
                ),
            ),
            final(self.obj.buf).spec_limits() == cie_space_limits(
                old(self.obj.buf).spec_limits(),
                ColorSpaceType::CalGray,
                cal_gray_preset(
                    white_d50(),
                    match gamma {
                        Some(g) => Some(g.0@),
                        None => None,
                    },
                ),
            ),
    {
        let white = white_point_d50();
        self.cal_gray(white, None, gamma);
        assert(seq![("WhitePoint".spec_bytes(), real_texts(white@), true)] + opt_array_entry("BlackPoint".spec_bytes(), None)
            + match gamma {
                Some(v) => seq![("Gamma".spec_bytes(), seq![v.0@], false)],
                None => Seq::<RealEntry>::empty(),
            } =~= cal_gray_preset(
                white_d50(),
                match gamma {
                    Some(g) => Some(g.0@),
                    None => None,
                },
            ));
    }

    /// Write a `CalGray` color space for CIE C (north sky daylight) at 2.2
    /// gamma, equivalent to NTSC.
    pub fn c_gray(self)
        ensures
            final(self.obj.buf)@ == old(self.obj.buf)@ + cie_space_bytes(
                old(self.obj.buf)@,
                self.obj.settings.pretty,
                self.obj.indirect,
                self.obj.indent,
                ColorSpaceType::CalGray,
                cal_gray_preset(white_c(), Some("2.2".spec_bytes())),
            ),
            final(self.obj.buf).spec_limits() == cie_space_limits(
                old(self.obj.buf).spec_limits(),
                ColorSpaceType::CalGray,
                cal_gray_preset(white_c(), Some("2.2".spec_bytes())),
            ),
    {
        proof {
            reveal_strlit("2.2");
            reveal_with_fuel(decimal_chars, 10);
        }
        let gamma = literal("2.2");
        let white = white_point_c();
        self.cal_gray(white, None, Some(gamma));
        assert(seq![("WhitePoint".spec_bytes(), real_texts(white@), true)] + opt_array_entry("BlackPoint".spec_bytes(), None)
            + seq![("Gamma".spec_bytes(), seq![gamma.0@], false)] =~= cal_gray_preset(white_c(), Some("2.2".spec_bytes())));
    }

    /// Write a `CalGray` color space for CIE E (equal emission). Common gamma
    /// values include 1.8 or 2.2.
    pub fn e_gray(self, gamma: Option<Real>)
        requires
            gamma matches Some(g) ==> g.spec_writable(),
        ensures
            final(self.obj.buf)@ == old(self.obj.buf)@ + cie_space_bytes(
                old(self.obj.buf)@,
                self.obj.settings.pretty,
                self.obj.indirect,
                self.obj.indent,
                ColorSpaceType::CalGray,
                cal_gray_preset(
                    white_e(),
                    match gamma {
                        Some(g) => Some(g.0@),
                        None => None,
                    },
                ),
            ),
            final(self.obj.buf).spec_limits() == cie_space_limits(
                old(self.obj.buf).spec_limits(),
                ColorSpaceType::CalGray,
                cal_gray_preset(
                    white_e(),
                    match gamma {
                        Some(g) => Some(g.0@),
                        None => None,
                    },
                ),
            ),
    {
        let white = white_point_e();
        self.cal_gray(white, None, gamma);
        assert(seq![("WhitePoint".spec_bytes(), real_texts(white@), true)] + opt_array_entry("BlackPoint".spec_bytes(), None)
            + match gamma {
                Some(v) => seq![("Gamma".spec_bytes(), seq![v.0@], false)],
                None => Seq::<RealEntry>::empty(),
            } =~= cal_gray_preset(
                white_e(),
                match gamma {
                    Some(g) => Some(g.0@),
                    None => None,
                },
            ));
    }

}

/// Writer for a _separation dictionary_. PDF 1.2+.
///
/// First, one of the `alternate_...` methods must be called to specify the
/// alternate color space. Then, the `tint_ref` method must be called to
/// specify the tint transform function. Calling a tint method before an
/// alternate color space, or a second alternate color space method, is
/// outside the contracts.
///
/// This struct is created by [`ColorSpace::separation`].
pub struct Separation<'a> {
    /// The color space array being written.
    pub array: Array<'a>,
    /// Whether the alternate color space has been written.
    pub has_alternate: bool,
}

impl<'a> Separation<'a> {
    /// Start the wrapper.
    pub(crate) fn start(array: Array<'a>) -> (r: Self)
        ensures
            r.array == array,
            !r.has_alternate,
    {
        Self { array, has_alternate: false }
    }

    /// Write the `alternateSpace` element as a name. The argument must be a
    /// device color space.
    pub fn alternate_device(&mut self, device_space: ColorSpaceType) -> (r: &mut Self)
        requires
            !old(self).has_alternate,
            device_space.spec_is_device(),
            0 <= old(self).array.len < i32::MAX,
        ensures
            array_name_item_appended(old(self).array, r.array, device_space.spec_name()),
            r.has_alternate,
            *final(r.array.buf) == *final(old(self).array.buf),
            *final(self) == *final(r),
    {
        self.array.item(device_space.to_name());
        self.has_alternate = true;
        self
    }

    /// Start writing the `alternateSpace` element as a color space array. The
    /// color space must not be another `Pattern`, `Separation`, or `DeviceN`
    /// color space.
    pub fn alternate_color_space(&mut self) -> (r: ColorSpace<'_>)
        requires
            !old(self).has_alternate,
            0 <= old(self).array.len < i32::MAX,
        ensures
            r.obj.buf@ == old(self).array.buf@ + array_separator(
                old(self).array.len as int,
                old(self).array.settings.pretty,
            ),
            r.obj.needs_padding == (old(self).array.len != 0 && !old(self).array.settings.pretty),
            r.obj.indirect == false,
            r.obj.indent == old(self).array.indent,
            r.obj.settings == old(self).array.settings,
            final(self).has_alternate,
            final(self).array.len == old(self).array.len + 1,
            final(self).array.indirect == old(self).array.indirect,
            final(self).array.indent == old(self).array.indent,
            final(self).array.settings == old(self).array.settings,
            *final(self).array.buf == *final(r.obj.buf),
            *final(final(self).array.buf) == *final(old(self).array.buf),
    {
        self.has_alternate = true;
        ColorSpace::start(self.array.push())
    }

    /// Write the `alternateSpace` element as an indirect reference. The color
    /// space must not be another `Pattern`, `Separation`, or `DeviceN` color
    /// space.
    pub fn alternate_color_space_ref(&mut self, id: Ref) -> (r: &mut Self)
        requires
            !old(self).has_alternate,
            0 <= old(self).array.len < i32::MAX,
        ensures
            array_item_appended(old(self).array, r.array, id),
            r.has_alternate,
            *final(r.array.buf) == *final(old(self).array.buf),
            *final(self) == *final(r),
    {
        self.array.item(id);
        self.has_alternate = true;
        self
    }

    /// Write the `tintTransform` element as an indirect reference to a
    /// function. The function must take a single number as input and produce a
    /// color in the alternate color space as output.
    pub fn tint_ref(&mut self, id: Ref) -> (r: &mut Self)
        requires
            old(self).has_alternate,
            0 <= old(self).array.len < i32::MAX,
        ensures
            array_item_appended(old(self).array, r.array, id),
            r.has_alternate,
            *final(r.array.buf) == *final(old(self).array.buf),
            *final(self) == *final(r),
    {
        self.array.item(id);
        self
    }

    /// Start writing the `tintTransform` element as an exponential
    /// interpolation function.
    pub fn tint_exponential(&mut self) -> (r: ExponentialFunction<'_>)
        requires
            old(self).has_alternate,
            0 <= old(self).array.len < i32::MAX,
        ensures
            r.dict.buf@ == old(self).array.buf@ + array_separator(
                old(self).array.len as int,
                old(self).array.settings.pretty,
            ) + "<<".spec_bytes() + dict_pair_bytes(
                old(self).array.buf@ + array_separator(
                    old(self).array.len as int,
                    old(self).array.settings.pretty,
                ) + "<<".spec_bytes(),
                old(self).array.settings.pretty,
                nested_indent(old(self).array.indent) as int,
                "FunctionType".spec_bytes(),
                FunctionType::Exponential.spec_int(),
            ),
            r.dict.len == 1,
            r.dict.indirect == false,
            r.dict.indent == nested_indent(old(self).array.indent),
            r.dict.settings == old(self).array.settings,
            final(self).has_alternate,
            final(self).array.len == old(self).array.len + 1,
            final(self).array.indirect == old(self).array.indirect,
            final(self).array.indent == old(self).array.indent,
            final(self).array.settings == old(self).array.settings,
            *final(self).array.buf == *final(r.dict.buf),
            *final(final(self).array.buf) == *final(old(self).array.buf),
    {
        ExponentialFunction::start(self.array.push())
    }

    /// Start writing the `tintTransform` element as a stitching function.
    pub fn tint_stitching(&mut self) -> (r: StitchingFunction<'_>)
        requires
            old(self).has_alternate,
            0 <= old(self).array.len < i32::MAX,
        ensures
            r.dict.buf@ == old(self).array.buf@ + array_separator(
                old(self).array.len as int,
                old(self).array.settings.pretty,
            ) + "<<".spec_bytes() + dict_pair_bytes(
                old(self).array.buf@ + array_separator(
                    old(self).array.len as int,
                    old(self).array.settings.pretty,
                ) + "<<".spec_bytes(),
                old(self).array.settings.pretty,
                nested_indent(old(self).array.indent) as int,
                "FunctionType".spec_bytes(),
                FunctionType::Stitching.spec_int(),
            ),
            r.dict.len == 1,
            r.dict.indirect == false,
            r.dict.indent == nested_indent(old(self).array.indent),
            r.dict.settings == old(self).array.settings,
            final(self).has_alternate,
            final(self).array.len == old(self).array.len + 1,
            final(self).array.indirect == old(self).array.indirect,
            final(self).array.indent == old(self).array.indent,
            final(self).array.settings == old(self).array.settings,
            *final(self).array.buf == *final(r.dict.buf),
            *final(final(self).array.buf) == *final(old(self).array.buf),
    {
        StitchingFunction::start(self.array.push())
    }

    /// Finish the color space array.
    pub fn finish(self)
        requires
            self.array.len >= 0,
        ensures
            final(self.array.buf)@ == old(self.array.buf)@ + array_close_bytes(
                self.array.indirect,
                self.array.settings.pretty,
            ),
            final(self.array.buf).spec_limits() == old(self.array.buf).spec_limits().with_array_len(self.array.len as int),
    {
        self.array.finish();
    }
}

/// Writer for a _DeviceN color space array with attributes_. PDF 1.6+.
///
/// This struct is created by [`ColorSpace::device_n`].
pub struct DeviceN<'a> {
    /// The color space array being written.
    pub array: Array<'a>,
}

impl<'a> DeviceN<'a> {
    /// Start the wrapper.
    pub(crate) fn start(array: Array<'a>) -> (r: Self)
        ensures
            r.array == array,
    {
        Self { array }
    }

    /// Start writing the `attrs` dictionary. PDF 1.6+.
    pub fn attrs(&mut self) -> (r: DeviceNAttrs<'_>)
        requires
            0 <= old(self).array.len < i32::MAX,
        ensures
            dict_started(
                r.dict,
                old(self).array.buf@ + array_separator(
                    old(self).array.len as int,
                    old(self).array.settings.pretty,
                ),
                false,
                old(self).array.indent,
                old(self).array.settings,
                None,
                None,
            ),
            r.dict.buf.spec_limits() == dict_start_limits(
                old(self).array.buf.spec_limits(),
                None,
                None,
            ),
            final(self).array.len == old(self).array.len + 1,
            final(self).array.indirect == old(self).array.indirect,
            final(self).array.indent == old(self).array.indent,
            final(self).array.settings == old(self).array.settings,
            *final(self).array.buf == *final(r.dict.buf),
            *final(final(self).array.buf) == *final(old(self).array.buf),
    {
        DeviceNAttrs::start(self.array.push())
    }

    /// Finish the color space array.
    pub fn finish(self)
        requires
            self.array.len >= 0,
        ensures
            final(self.array.buf)@ == old(self.array.buf)@ + array_close_bytes(
                self.array.indirect,
                self.array.settings.pretty,
            ),
            final(self.array.buf).spec_limits() == old(self.array.buf).spec_limits().with_array_len(self.array.len as int),
    {
        self.array.finish();
    }
}

impl DeviceNAttrs<'_> {
    /// Start writing the `/Process` dictionary.
    ///
    /// Required if the `/Subtype` attribute is `Separation`.
    pub fn process(&mut self) -> (r: DeviceNProcess<'_>)
        requires
            0 <= old(self).dict.len < i32::MAX,
        ensures
            dict_started(
                r.dict,
                old(self).dict.buf@ + dict_key_bytes(
                    old(self).dict.settings.pretty,
                    old(self).dict.indent as int,
                    "Process".spec_bytes(),
                ),
                false,
                old(self).dict.indent,
                old(self).dict.settings,
                None,
                None,
            ),
            r.dict.buf.spec_limits() == dict_start_limits(
                old(self).dict.buf.spec_limits().with_name_len("Process".spec_bytes().len() as int),
                None,
                None,
            ),
            final(self).dict.len == old(self).dict.len + 1,
            final(self).dict.indirect == old(self).dict.indirect,
            final(self).dict.indent == old(self).dict.indent,
            final(self).dict.settings == old(self).dict.settings,
            *final(self).dict.buf == *final(r.dict.buf),
            *final(final(self).dict.buf) == *final(old(self).dict.buf),
    {
        DeviceNProcess::start(self.dict.insert(Name("Process".as_bytes())))
    }

    /// Start writing the `/MixingHints` dictionary.
    pub fn mixing_hints(&mut self) -> (r: DeviceNMixingHints<'_>)
        requires
            0 <= old(self).dict.len < i32::MAX,
        ensures
            dict_started(
                r.dict,
                old(self).dict.buf@ + dict_key_bytes(
                    old(self).dict.settings.pretty,
                    old(self).dict.indent as int,
                    "MixingHints".spec_bytes(),
                ),
                false,
                old(self).dict.indent,
                old(self).dict.settings,
                None,
                None,
            ),
            r.dict.buf.spec_limits() == dict_start_limits(
                old(self).dict.buf.spec_limits().with_name_len("MixingHints".spec_bytes().len() as int),
                None,
                None,
            ),
            final(self).dict.len == old(self).dict.len + 1,
            final(self).dict.indirect == old(self).dict.indirect,
            final(self).dict.indent == old(self).dict.indent,
            final(self).dict.settings == old(self).dict.settings,
            *final(self).dict.buf == *final(r.dict.buf),
            *final(final(self).dict.buf) == *final(old(self).dict.buf),
    {
        DeviceNMixingHints::start(self.dict.insert(Name("MixingHints".as_bytes())))
    }
}

impl DeviceNProcess<'_> {
    /// Write the `/ColorSpace` attribute with an array. Required.
    pub fn color_space_array(&mut self) -> (r: ColorSpace<'_>)
        requires
            0 <= old(self).dict.len < i32::MAX,
        ensures
            r.obj.buf@ == old(self).dict.buf@ + dict_key_bytes(
                old(self).dict.settings.pretty,
                old(self).dict.indent as int,
                "ColorSpace".spec_bytes(),
            ),
            r.obj.needs_padding == !old(self).dict.settings.pretty,
            r.obj.indirect == false,
            r.obj.indent == old(self).dict.indent,
            r.obj.settings == old(self).dict.settings,
            final(self).dict.len == old(self).dict.len + 1,
            final(self).dict.indirect == old(self).dict.indirect,
            final(self).dict.indent == old(self).dict.indent,
            final(self).dict.settings == old(self).dict.settings,
            *final(self).dict.buf == *final(r.obj.buf),
            *final(final(self).dict.buf) == *final(old(self).dict.buf),
    {
        ColorSpace::start(self.dict.insert(Name("ColorSpace".as_bytes())))
    }

    /// Write the `/Components` attribute. Required.
    ///
    /// Contains the names of the colorants in the order in which they appear in
    /// the color space array.
    pub fn components(&mut self, components: &[Name<'_>]) -> (r: &mut Self)
        requires
            0 <= old(self).dict.len < i32::MAX,
            components@.len() <= i32::MAX,
        ensures
            dict_items_appended(old(self).dict, r.dict, "Components".spec_bytes(), components@),
            *final(r.dict.buf) == *final(old(self).dict.buf),
            *final(self) == *final(r),
    {
        assert(all_writable(components@));
        write_items_entry(&mut self.dict, Name("Components".as_bytes()), components);
        self
    }
}

impl DeviceNMixingHints<'_> {
    /// Write the `/PrintingOrder` attribute.
    ///
    /// Required if `/Solidities` is present. An array of colorant names in the
    /// order in which they should be printed.
    pub fn printing_order(&mut self, order: &[Name<'_>]) -> (r: &mut Self)
        requires
            0 <= old(self).dict.len < i32::MAX,
            order@.len() <= i32::MAX,
        ensures
            dict_items_appended(old(self).dict, r.dict, "PrintingOrder".spec_bytes(), order@),
            *final(r.dict.buf) == *final(old(self).dict.buf),
            *final(self) == *final(r),
    {
        assert(all_writable(order@));
        write_items_entry(&mut self.dict, Name("PrintingOrder".as_bytes()), order);
        self
    }
}

impl Shading<'_> {
    /// Start writing the `/ColorSpace` attribute.
    ///
    /// Sets the color space of the shading function. May not be a `Pattern`
    /// space. Required.
    pub fn color_space(&mut self) -> (r: ColorSpace<'_>)
        requires
            0 <= old(self).dict.len < i32::MAX,
        ensures
            r.obj.buf@ == old(self).dict.buf@ + dict_key_bytes(
                old(self).dict.settings.pretty,
                old(self).dict.indent as int,
                "ColorSpace".spec_bytes(),
            ),
            r.obj.needs_padding == !old(self).dict.settings.pretty,
            r.obj.indirect == false,
            r.obj.indent == old(self).dict.indent,
            r.obj.settings == old(self).dict.settings,
            final(self).dict.len == old(self).dict.len + 1,
            final(self).dict.indirect == old(self).dict.indirect,
            final(self).dict.indent == old(self).dict.indent,
            final(self).dict.settings == old(self).dict.settings,
            *final(self).dict.buf == *final(r.obj.buf),
            *final(final(self).dict.buf) == *final(old(self).dict.buf),
    {
        ColorSpace::start(self.dict.insert(Name("ColorSpace".as_bytes())))
    }

    /// Write the `/Extend` attribute.
    ///
    /// Set whether the shading should extend beyond either side of the axis /
    /// circles. Can be used for axial and radial shadings.
    pub fn extend(&mut self, extend: [bool; 2]) -> (r: &mut Self)
        requires
            0 <= old(self).dict.len < i32::MAX,
        ensures
            dict_items_appended(old(self).dict, r.dict, "Extend".spec_bytes(), extend@),
            *final(r.dict.buf) == *final(old(self).dict.buf),
            *final(self) == *final(r),
    {
        assert(all_writable(extend@));
        write_items_entry(&mut self.dict, Name("Extend".as_bytes()), extend.as_slice());
        self
    }
}

impl SeparationInfo<'_> {
    /// Write the `/Pages` attribute. Required.
    ///
    /// This indicates all page dictionaries in the document that represent
    /// separations of the same page and shall be rendered together.
    pub fn pages(&mut self, pages: &[Ref]) -> (r: &mut Self)
        requires
            0 <= old(self).dict.len < i32::MAX,
            pages@.len() <= i32::MAX,
        ensures
            dict_items_appended(old(self).dict, r.dict, "Pages".spec_bytes(), pages@),
            *final(r.dict.buf) == *final(old(self).dict.buf),
            *final(self) == *final(r),
    {
        assert(all_writable(pages@));
        write_items_entry(&mut self.dict, Name("Pages".as_bytes()), pages);
        self
    }

    /// Write the `/DeviceColorant` attribute as a string. Required.
    ///
    /// The name of the device colorant that corresponds to the separation.
    pub fn device_colorant_str(&mut self, colorant: &str) -> (r: &mut Self)
        requires
            0 <= old(self).dict.len < i32::MAX,
        ensures
            dict_pair_appended(old(self).dict, r.dict, "DeviceColorant".spec_bytes(), TextStr(colorant)),
            *final(r.dict.buf) == *final(old(self).dict.buf),
            *final(self) == *final(r),
    {
        self.dict.pair(Name("DeviceColorant".as_bytes()), TextStr(colorant));
        self
    }

    /// Start writing the `/ColorSpace` array.
    ///
    /// This shall be an Separation or DeviceN color space that further defines
    /// the separation color space.
    pub fn color_space(&mut self) -> (r: ColorSpace<'_>)
        requires
            0 <= old(self).dict.len < i32::MAX,
        ensures
            r.obj.buf@ == old(self).dict.buf@ + dict_key_bytes(
                old(self).dict.settings.pretty,
                old(self).dict.indent as int,
                "ColorSpace".spec_bytes(),
            ),
            r.obj.needs_padding == !old(self).dict.settings.pretty,
            r.obj.indirect == false,
            r.obj.indent == old(self).dict.indent,
            r.obj.settings == old(self).dict.settings,
            final(self).dict.len == old(self).dict.len + 1,
            final(self).dict.indirect == old(self).dict.indirect,
            final(self).dict.indent == old(self).dict.indent,
            final(self).dict.settings == old(self).dict.settings,
            *final(self).dict.buf == *final(r.obj.buf),
            *final(final(self).dict.buf) == *final(old(self).dict.buf),
    {
        ColorSpace::start(self.dict.insert(Name("ColorSpace".as_bytes())))
    }
}

impl IccProfile<'_> {
    /// Write the `/N` attribute. Required.
    ///
    /// The number of components in the color space. Shall be 1, 3, or 4.
    pub fn n(&mut self, n: i32) -> (r: &mut Self)
        requires
            0 <= old(self).stream.dict.len < i32::MAX,
            n == 1 || n == 3 || n == 4,
        ensures
            dict_pair_appended(old(self).stream.dict, r.stream.dict, "N".spec_bytes(), n),
            r.stream.data == old(self).stream.data,
            *final(r.stream.dict.buf) == *final(old(self).stream.dict.buf),
            *final(self) == *final(r),
    {
        self.stream.dict.pair(Name("N".as_bytes()), n);
        self
    }

    /// Write the `/Alternate` attribute with a color space.
    ///
    /// The alternate color space to use when the ICC profile is not
    /// supported. Must be a color space with the same number of
    /// components as the ICC profile. Pattern color spaces are not
    /// allowed.
    pub fn alternate(&mut self) -> (r: ColorSpace<'_>)
        requires
            0 <= old(self).stream.dict.len < i32::MAX,
        ensures
            r.obj.buf@ == old(self).stream.dict.buf@ + dict_key_bytes(
                old(self).stream.dict.settings.pretty,
                old(self).stream.dict.indent as int,
                "Alternate".spec_bytes(),
            ),
            r.obj.needs_padding == !old(self).stream.dict.settings.pretty,
            r.obj.indirect == false,
            r.obj.indent == old(self).stream.dict.indent,
            r.obj.settings == old(self).stream.dict.settings,
            final(self).stream.dict.len == old(self).stream.dict.len + 1,
            final(self).stream.dict.indirect == old(self).stream.dict.indirect,
            final(self).stream.dict.indent == old(self).stream.dict.indent,
            final(self).stream.dict.settings == old(self).stream.dict.settings,
            final(self).stream.data == old(self).stream.data,
            *final(self).stream.dict.buf == *final(r.obj.buf),
            *final(final(self).stream.dict.buf) == *final(old(self).stream.dict.buf),
    {
        ColorSpace::start(self.stream.insert(Name("Alternate".as_bytes())))
    }
}

/// The `/Type /Pattern` and `/PatternType` entries that start a pattern
/// dictionary, written after `before`.
pub open spec fn pattern_entries_bytes(before: Seq<u8>, pretty: bool, indent: int, pattern_type: i32) -> Seq<u8> {
    let t = type_entries_bytes(before, pretty, indent, Some("Pattern".spec_bytes()), None);
    t + dict_pair_bytes(before + t, pretty, indent, "PatternType".spec_bytes(), pattern_type)
}

/// Writer for a _tiling pattern stream_.
///
/// This struct is created by [`Chunk::tiling_pattern`](crate::Chunk::tiling_pattern).
pub struct TilingPattern<'a> {
    /// The underlying stream.
    pub stream: Stream<'a>,
}

impl<'a> TilingPattern<'a> {
    /// Start writing the pattern's dictionary entries.
    pub(crate) fn start_with_stream(stream: Stream<'a>) -> (r: Self)
        requires
            0 <= stream.dict.len < i32::MAX - 2,
        ensures
            r.stream.dict.buf@ == old(stream.dict.buf)@ + pattern_entries_bytes(
                old(stream.dict.buf)@,
                stream.dict.settings.pretty,
                stream.dict.indent as int,
                1,
            ),
            r.stream.dict.len == stream.dict.len + 2,
            r.stream.dict.indirect == stream.dict.indirect,
            r.stream.dict.indent == stream.dict.indent,
            r.stream.dict.settings == stream.dict.settings,
            r.stream.data == stream.data,
            *final(r.stream.dict.buf) == *final(stream.dict.buf),
    {
        let mut stream = type_stream(stream, Some("Pattern"), None);
        stream.pair(Name("PatternType".as_bytes()), PatternType::Tiling.to_int());
        Self { stream }
    }

    /// Write the `/PaintType` attribute.
    ///
    /// Sets whether to use external or stream color. Required.
    pub fn paint_type(&mut self, paint_type: PaintType) -> (r: &mut Self)
        requires
            0 <= old(self).stream.dict.len < i32::MAX,
        ensures
            dict_pair_appended(old(self).stream.dict, r.stream.dict, "PaintType".spec_bytes(), paint_type.spec_int()),
            r.stream.data == old(self).stream.data,
            *final(r.stream.dict.buf) == *final(old(self).stream.dict.buf),
            *final(self) == *final(r),
    {
        self.stream.dict.pair(Name("PaintType".as_bytes()), paint_type.to_int());
        self
    }

    /// Write the `/TilingType` attribute.
    ///
    /// Sets how to stretch and space the pattern. Required.
    pub fn tiling_type(&mut self, tiling_type: TilingType) -> (r: &mut Self)
        requires
            0 <= old(self).stream.dict.len < i32::MAX,
        ensures
            dict_pair_appended(old(self).stream.dict, r.stream.dict, "TilingType".spec_bytes(), tiling_type.spec_int()),
            r.stream.data == old(self).stream.data,
            *final(r.stream.dict.buf) == *final(old(self).stream.dict.buf),
            *final(self) == *final(r),
    {
        self.stream.dict.pair(Name("TilingType".as_bytes()), tiling_type.to_int());
        self
    }

    /// Start writing the `/Resources` dictionary.
    ///
    /// Sets the resources used by the pattern. Required.
    pub fn resources(&mut self) -> (r: Resources<'_>)
        requires
            0 <= old(self).stream.dict.len < i32::MAX,
        ensures
            dict_started(
                r.dict,
                old(self).stream.dict.buf@ + dict_key_bytes(
                    old(self).stream.dict.settings.pretty,
                    old(self).stream.dict.indent as int,
                    "Resources".spec_bytes(),
                ),
                false,
                old(self).stream.dict.indent,
                old(self).stream.dict.settings,
                None,
                None,
            ),
            r.dict.buf.spec_limits() == dict_start_limits(
                old(self).stream.dict.buf.spec_limits().with_name_len("Resources".spec_bytes().len() as int),
                None,
                None,
            ),
            final(self).stream.dict.len == old(self).stream.dict.len + 1,
            final(self).stream.dict.indirect == old(self).stream.dict.indirect,
            final(self).stream.dict.indent == old(self).stream.dict.indent,
            final(self).stream.dict.settings == old(self).stream.dict.settings,
            final(self).stream.data == old(self).stream.data,
            *final(self).stream.dict.buf == *final(r.dict.buf),
            *final(final(self).stream.dict.buf) == *final(old(self).stream.dict.buf),
    {
        Resources::start(self.stream.insert(Name("Resources".as_bytes())))
    }

    /// Finish the stream: close its dictionary, write its data and close the
    /// object.
    pub fn finish(self)
        requires
            self.stream.dict.len >= 0,
        ensures
            final(self.stream.dict.buf)@ == old(self.stream.dict.buf)@ + stream_close_bytes(
                self.stream.dict.settings.pretty,
                self.stream.data@,
            ),
            final(self.stream.dict.buf).spec_limits() == old(self.stream.dict.buf).spec_limits().with_dict_entries(self.stream.dict.len as int),
    {
        self.stream.finish();
    }
}

/// Writer for a _shading pattern dictionary_. PDF 1.3+.
///
/// This struct is created by [`Chunk::shading_pattern`](crate::Chunk::shading_pattern).
pub struct ShadingPattern<'a> {
    /// The underlying dictionary.
    pub dict: Dict<'a>,
}

impl<'a> ShadingPattern<'a> {
    /// Start writing the dictionary on an object.
    pub(crate) fn start(obj: Obj<'a>) -> (r: Self)
        ensures
            r.dict.buf@ == old(obj.buf)@ + "<<".spec_bytes() + pattern_entries_bytes(
                old(obj.buf)@ + "<<".spec_bytes(),
                obj.settings.pretty,
                nested_indent(obj.indent) as int,
                2,
            ),
            r.dict.len == 2,
            r.dict.indirect == obj.indirect,
            r.dict.indent == nested_indent(obj.indent),
            r.dict.settings == obj.settings,
            *final(r.dict.buf) == *final(obj.buf),
    {
        let mut dict = start_dict(obj, Some("Pattern"), None);
        dict.pair(Name("PatternType".as_bytes()), PatternType::Shading.to_int());
        Self { dict }
    }

    /// Start writing the `/Shading` dictionary.
    pub fn shading(&mut self) -> (r: Shading<'_>)
        requires
            0 <= old(self).dict.len < i32::MAX,
        ensures
            dict_started(
                r.dict,
                old(self).dict.buf@ + dict_key_bytes(
                    old(self).dict.settings.pretty,
                    old(self).dict.indent as int,
                    "Shading".spec_bytes(),
                ),
                false,
                old(self).dict.indent,
                old(self).dict.settings,
                None,
                None,
            ),
            r.dict.buf.spec_limits() == dict_start_limits(
                old(self).dict.buf.spec_limits().with_name_len("Shading".spec_bytes().len() as int),
                None,
                None,
            ),
            final(self).dict.len == old(self).dict.len + 1,
            final(self).dict.indirect == old(self).dict.indirect,
            final(self).dict.indent == old(self).dict.indent,
            final(self).dict.settings == old(self).dict.settings,
            *final(self).dict.buf == *final(r.dict.buf),
            *final(final(self).dict.buf) == *final(old(self).dict.buf),
    {
        Shading::start(self.dict.insert(Name("Shading".as_bytes())))
    }

    /// Start writing the `/ExtGState` attribute.
    pub fn ext_graphics(&mut self) -> (r: ExtGraphicsState<'_>)
        requires
            0 <= old(self).dict.len < i32::MAX,
        ensures
            dict_started(
                r.dict,
                old(self).dict.buf@ + dict_key_bytes(
                    old(self).dict.settings.pretty,
                    old(self).dict.indent as int,
                    "ExtGState".spec_bytes(),
                ),
                false,
                old(self).dict.indent,
                old(self).dict.settings,
                Some("ExtGState".spec_bytes()),
                None,
            ),
            r.dict.buf.spec_limits() == dict_start_limits(
                old(self).dict.buf.spec_limits().with_name_len("ExtGState".spec_bytes().len() as int),
                Some("ExtGState".spec_bytes()),
                None,
            ),
            final(self).dict.len == old(self).dict.len + 1,
            final(self).dict.indirect == old(self).dict.indirect,
            final(self).dict.indent == old(self).dict.indent,
            final(self).dict.settings == old(self).dict.settings,
            *final(self).dict.buf == *final(r.dict.buf),
            *final(final(self).dict.buf) == *final(old(self).dict.buf),
    {
        ExtGraphicsState::start(self.dict.insert(Name("ExtGState".as_bytes())))
    }

    /// Finish writing the dictionary.
    pub fn finish(self)
        requires
            self.dict.len >= 0,
            self.dict.indent >= 2,
        ensures
            final(self.dict.buf)@ == old(self.dict.buf)@ + dict_close_bytes(
                self.dict.len as int,
                self.dict.settings.pretty,
                self.dict.indent as int,
                self.dict.indirect,
            ),
            final(self.dict.buf).spec_limits() == old(self.dict.buf).spec_limits().with_dict_entries(self.dict.len as int),
    {
        self.dict.finish();
    }
}

impl<'a, 'b> TypedArray<'a, OutputIntent<'b>> {
    /// Start writing an output intent as the next item.
    pub fn push(&mut self) -> (r: OutputIntent<'_>)
        requires
            0 <= old(self).array.len < i32::MAX,
        ensures
            dict_started(
                r.dict,
                old(self).array.buf@ + array_separator(
                    old(self).array.len as int,
                    old(self).array.settings.pretty,
                ),
                false,
                old(self).array.indent,
                old(self).array.settings,
                Some("OutputIntent".spec_bytes()),
                None,
            ),
            r.dict.buf.spec_limits() == dict_start_limits(
                old(self).array.buf.spec_limits(),
                Some("OutputIntent".spec_bytes()),
                None,
            ),
            final(self).array.len == old(self).array.len + 1,
            final(self).array.indirect == old(self).array.indirect,
            final(self).array.indent == old(self).array.indent,
            final(self).array.settings == old(self).array.settings,
            *final(self).array.buf == *final(r.dict.buf),
            *final(final(self).array.buf) == *final(old(self).array.buf),
    {
        OutputIntent::start(self.array.push())
    }
}

/// Attributes with real-number values.
impl IccProfile<'_> {
    /// Write the `/Range` attribute.
    ///
    /// Specifies the permissible range of values for each component. The array
    /// shall contain 2 × `N` numbers, where [`N`](Self::n) is the number of
    /// components in the color space. The array is organized in pairs, where
    /// the first value shall be the minimum value and the second shall be the
    /// maximum value.
    pub fn range(&mut self, range: &[Real]) -> (r: &mut Self)
        requires
            0 <= old(self).stream.dict.len < i32::MAX,
            range@.len() <= i32::MAX,
            all_writable(range@),
        ensures
            dict_items_appended(old(self).stream.dict, r.stream.dict, "Range".spec_bytes(), range@),
            r.stream.data == old(self).stream.data,
            *final(r.stream.dict.buf) == *final(old(self).stream.dict.buf),
            *final(self) == *final(r),
    {
        write_items_entry(&mut self.stream.dict, Name("Range".as_bytes()), range);
        self
    }
}

/// Attributes with real-number values.
impl DeviceNMixingHints<'_> {
    /// Start writing the `/Solidities` dictionary.
    ///
    /// Each key in the dictionary is a colorant name and each value is a number
    /// between 0 and 1 indicating the relative solidity of the colorant.
    pub fn solidities(&mut self) -> (r: TypedDict<'_, Real<'_>>)
        requires
            0 <= old(self).dict.len < i32::MAX,
        ensures
            dict_started(
                r.dict,
                old(self).dict.buf@ + dict_key_bytes(
                    old(self).dict.settings.pretty,
                    old(self).dict.indent as int,
                    "Solidities".spec_bytes(),
                ),
                false,
                old(self).dict.indent,
                old(self).dict.settings,
                None,
                None,
            ),
            r.dict.buf.spec_limits() == old(self).dict.buf.spec_limits().with_name_len("Solidities".spec_bytes().len() as int),
            final(self).dict.len == old(self).dict.len + 1,
            final(self).dict.indirect == old(self).dict.indirect,
            final(self).dict.indent == old(self).dict.indent,
            final(self).dict.settings == old(self).dict.settings,
            *final(self).dict.buf == *final(r.dict.buf),
            *final(final(self).dict.buf) == *final(old(self).dict.buf),
    {
        start_dict(self.dict.insert(Name("Solidities".as_bytes())), None, None).typed()
    }
}

/// Attributes with real-number values.
impl TilingPattern<'_> {
    /// Write the `/BBox` attribute.
    ///
    /// Sets the bounding box of the pattern in the pattern's coordinate system.
    /// Required.
    pub fn bbox(&mut self, bbox: Rect) -> (r: &mut Self)
        requires
            0 <= old(self).stream.dict.len < i32::MAX,
            bbox.spec_writable(),
        ensures
            dict_pair_appended(old(self).stream.dict, r.stream.dict, "BBox".spec_bytes(), bbox),
            r.stream.data == old(self).stream.data,
            *final(r.stream.dict.buf) == *final(old(self).stream.dict.buf),
            *final(self) == *final(r),
    {
        self.stream.dict.pair(Name("BBox".as_bytes()), bbox);
        self
    }

    /// Write the `/XStep` attribute.
    ///
    /// Sets the horizontal spacing between pattern cells. Required.
    ///
    /// The step must not be zero.
    pub fn x_step(&mut self, x_step: Real) -> (r: &mut Self)
        requires
            0 <= old(self).stream.dict.len < i32::MAX,
            x_step.spec_writable(),
            !zero_text(x_step.0@),
        ensures
            dict_pair_appended(old(self).stream.dict, r.stream.dict, "XStep".spec_bytes(), x_step),
            r.stream.data == old(self).stream.data,
            *final(r.stream.dict.buf) == *final(old(self).stream.dict.buf),
            *final(self) == *final(r),
    {
        self.stream.dict.pair(Name("XStep".as_bytes()), x_step);
        self
    }

    /// Write the `/YStep` attribute.
    ///
    /// Sets the vertical spacing between pattern cells. Required.
    ///
    /// The step must not be zero.
    pub fn y_step(&mut self, y_step: Real) -> (r: &mut Self)
        requires
            0 <= old(self).stream.dict.len < i32::MAX,
            y_step.spec_writable(),
            !zero_text(y_step.0@),
        ensures
            dict_pair_appended(old(self).stream.dict, r.stream.dict, "YStep".spec_bytes(), y_step),
            r.stream.data == old(self).stream.data,
            *final(r.stream.dict.buf) == *final(old(self).stream.dict.buf),
            *final(self) == *final(r),
    {
        self.stream.dict.pair(Name("YStep".as_bytes()), y_step);
        self
    }
}

/// Attributes with real-number values.
impl ShadingPattern<'_> {
    /// Write the `/Matrix` attribute.
    ///
    /// Sets the matrix to use for the pattern. Defaults to the identity matrix.
    pub fn matrix(&mut self, matrix: [Real; 6]) -> (r: &mut Self)
        requires
            0 <= old(self).dict.len < i32::MAX,
            all_writable(matrix@),
        ensures
            dict_items_appended(old(self).dict, r.dict, "Matrix".spec_bytes(), matrix@),
            *final(r.dict.buf) == *final(old(self).dict.buf),
            *final(self) == *final(r),
    {
        write_items_entry(&mut self.dict, Name("Matrix".as_bytes()), matrix.as_slice());
        self
    }
}

/// Attributes with real-number values.
impl Shading<'_> {
    /// Write the `/Background` attribute.
    ///
    /// Sets the background color of the area to be shaded. The `background`
    /// iterator must contain exactly as many elements as the current
    /// color space has dimensions.
    pub fn background(&mut self, background: &[Real]) -> (r: &mut Self)
        requires
            0 <= old(self).dict.len < i32::MAX,
            background@.len() <= i32::MAX,
            all_writable(background@),
        ensures
            dict_items_appended(old(self).dict, r.dict, "Background".spec_bytes(), background@),
            *final(r.dict.buf) == *final(old(self).dict.buf),
            *final(self) == *final(r),
    {
        write_items_entry(&mut self.dict, Name("Background".as_bytes()), background);
        self
    }

    /// Write the `/BBox` attribute.
    ///
    /// Sets the bounding box of the shading in the target coordinate system.
    pub fn bbox(&mut self, bbox: Rect) -> (r: &mut Self)
        requires
            0 <= old(self).dict.len < i32::MAX,
            bbox.spec_writable(),
        ensures
            dict_pair_appended(old(self).dict, r.dict, "BBox".spec_bytes(), bbox),
            *final(r.dict.buf) == *final(old(self).dict.buf),
            *final(self) == *final(r),
    {
        self.dict.pair(Name("BBox".as_bytes()), bbox);
        self
    }

    /// Write the `/Domain` attribute.
    ///
    /// Sets the domain of the shading function in a rectangle. Can be used for
    /// function, axial, or radial shadings. Will otherwise default to
    /// `[x_min = 0, x_max = 1, y_min = 0, y_max = 1]`
    pub fn domain(&mut self, domain: [Real; 4]) -> (r: &mut Self)
        requires
            0 <= old(self).dict.len < i32::MAX,
            all_writable(domain@),
        ensures
            dict_items_appended(old(self).dict, r.dict, "Domain".spec_bytes(), domain@),
            *final(r.dict.buf) == *final(old(self).dict.buf),
            *final(self) == *final(r),
    {
        write_items_entry(&mut self.dict, Name("Domain".as_bytes()), domain.as_slice());
        self
    }

    /// Write the `/Matrix` attribute.
    ///
    /// Maps the shading domain rectangle to the target coordinate system. Can
    /// be used for function shadings. Will otherwise
    /// default to the identity matrix.
    pub fn matrix(&mut self, matrix: [Real; 6]) -> (r: &mut Self)
        requires
            0 <= old(self).dict.len < i32::MAX,
            all_writable(matrix@),
        ensures
            dict_items_appended(old(self).dict, r.dict, "Matrix".spec_bytes(), matrix@),
            *final(r.dict.buf) == *final(old(self).dict.buf),
            *final(self) == *final(r),
    {
        write_items_entry(&mut self.dict, Name("Matrix".as_bytes()), matrix.as_slice());
        self
    }

    /// Write the `/Coords` attribute.
    ///
    /// Sets the coordinates of the start and end of the axis in terms of the
    /// target coordinate system. Required for axial (4 items) and radial (6
    /// items; centers and radii) shadings.
    pub fn coords(&mut self, coords: &[Real]) -> (r: &mut Self)
        requires
            0 <= old(self).dict.len < i32::MAX,
            coords@.len() <= i32::MAX,
            all_writable(coords@),
        ensures
            dict_items_appended(old(self).dict, r.dict, "Coords".spec_bytes(), coords@),
            *final(r.dict.buf) == *final(old(self).dict.buf),
            *final(self) == *final(r),
    {
        write_items_entry(&mut self.dict, Name("Coords".as_bytes()), coords);
        self
    }
}

/// Attributes with real-number values.
impl DeviceNMixingHints<'_> {
    /// Start writing the `/DotGain` dictionary.
    ///
    /// Each key in the dictionary is a colorant name and each value is a number
    /// between 0 and 1 indicating the dot gain of the colorant.
    pub fn dot_gain(&mut self) -> (r: TypedDict<'_, Real<'_>>)
        requires
            0 <= old(self).dict.len < i32::MAX,
        ensures
            dict_started(
                r.dict,
                old(self).dict.buf@ + dict_key_bytes(
                    old(self).dict.settings.pretty,
                    old(self).dict.indent as int,
                    "DotGain".spec_bytes(),
                ),
                false,
                old(self).dict.indent,
                old(self).dict.settings,
                None,
                None,
            ),
            r.dict.buf.spec_limits() == old(self).dict.buf.spec_limits().with_name_len("DotGain".spec_bytes().len() as int),
            final(self).dict.len == old(self).dict.len + 1,
            final(self).dict.indirect == old(self).dict.indirect,
            final(self).dict.indent == old(self).dict.indent,
            final(self).dict.settings == old(self).dict.settings,
            *final(self).dict.buf == *final(r.dict.buf),
            *final(final(self).dict.buf) == *final(old(self).dict.buf),
    {
        start_dict(self.dict.insert(Name("DotGain".as_bytes())), None, None).typed()
    }
}

/// Attributes with real-number values.
impl TilingPattern<'_> {
    /// Write the `/Matrix` attribute.
    ///
    /// Maps the pattern coordinate system to the parent content stream
    /// coordinates. The default is the identity matrix.
    pub fn matrix(&mut self, matrix: [Real; 6]) -> (r: &mut Self)
        requires
            0 <= old(self).stream.dict.len < i32::MAX,
            all_writable(matrix@),
        ensures
            dict_items_appended(old(self).stream.dict, r.stream.dict, "Matrix".spec_bytes(), matrix@),
            r.stream.data == old(self).stream.data,
            *final(r.stream.dict.buf) == *final(old(self).stream.dict.buf),
            *final(self) == *final(r),
    {
        write_items_entry(&mut self.stream.dict, Name("Matrix".as_bytes()), matrix.as_slice());
        self
    }
}

// ---------------------------------------------------------------------------
// Writers.
// ---------------------------------------------------------------------------

/// Writer for a _DeviceN attributes dictionary_. PDF 1.6+.
///
/// This struct is created by [`DeviceN::attrs`].
pub struct DeviceNAttrs<'a> {
    /// The underlying dictionary.
    pub dict: Dict<'a>,
}

impl<'a> DeviceNAttrs<'a> {
    /// Start writing the dictionary on an object.
    pub(crate) fn start(obj: Obj<'a>) -> (r: Self)
        ensures
            dict_started(
                r.dict,
                old(obj.buf)@,
                obj.indirect,
                obj.indent,
                obj.settings,
                None,
                None,
            ),
            r.dict.buf.spec_limits() == dict_start_limits(old(obj.buf).spec_limits(), None, None),
            *final(r.dict.buf) == *final(obj.buf),
    {
        Self { dict: start_dict(obj, None, None) }
    }

    /// Write the `/Subtype` attribute.
    pub fn subtype(&mut self, subtype: DeviceNSubtype) -> (r: &mut Self)
        requires
            0 <= old(self).dict.len < i32::MAX,
        ensures
            dict_name_pair_appended(old(self).dict, r.dict, "Subtype".spec_bytes(), subtype.spec_name()),
            *final(r.dict.buf) == *final(old(self).dict.buf),
            *final(self) == *final(r),
    {
        self.dict.pair(Name("Subtype".as_bytes()), subtype.to_name());
        self
    }

    /// Start writing the `/Colorants` dictionary. Its keys are the colorant
    /// names and its values are separation color space arrays.
    ///
    /// Required if the `/Subtype` attribute is `NChannel`.
    pub fn colorants(&mut self) -> (r: Dict<'_>)
        requires
            0 <= old(self).dict.len < i32::MAX,
        ensures
            dict_started(
                r,
                old(self).dict.buf@ + dict_key_bytes(
                    old(self).dict.settings.pretty,
                    old(self).dict.indent as int,
                    "Colorants".spec_bytes(),
                ),
                false,
                old(self).dict.indent,
                old(self).dict.settings,
                None,
                None,
            ),
            r.buf.spec_limits() == old(self).dict.buf.spec_limits().with_name_len("Colorants".spec_bytes().len() as int),
            final(self).dict.len == old(self).dict.len + 1,
            final(self).dict.indirect == old(self).dict.indirect,
            final(self).dict.indent == old(self).dict.indent,
            final(self).dict.settings == old(self).dict.settings,
            *final(self).dict.buf == *final(r.buf),
            *final(final(self).dict.buf) == *final(old(self).dict.buf),
    {
        start_dict(self.dict.insert(Name("Colorants".as_bytes())), None, None)
    }

    /// Finish writing the dictionary.
    pub fn finish(self)
        requires
            self.dict.len >= 0,
            self.dict.indent >= 2,
        ensures
            final(self.dict.buf)@ == old(self.dict.buf)@ + dict_close_bytes(
                self.dict.len as int,
                self.dict.settings.pretty,
                self.dict.indent as int,
                self.dict.indirect,
            ),
            final(self.dict.buf).spec_limits() == old(self.dict.buf).spec_limits().with_dict_entries(self.dict.len as int),
    {
        self.dict.finish();
    }
}

/// Writer for a _DeviceN process dictionary_. PDF 1.6+.
///
/// This struct is created by [`DeviceNAttrs::process`].
pub struct DeviceNProcess<'a> {
    /// The underlying dictionary.
    pub dict: Dict<'a>,
}

impl<'a> DeviceNProcess<'a> {
    /// Start writing the dictionary on an object.
    pub(crate) fn start(obj: Obj<'a>) -> (r: Self)
        ensures
            dict_started(
                r.dict,
                old(obj.buf)@,
                obj.indirect,
                obj.indent,
                obj.settings,
                None,
                None,
            ),
            r.dict.buf.spec_limits() == dict_start_limits(old(obj.buf).spec_limits(), None, None),
            *final(r.dict.buf) == *final(obj.buf),
    {
        Self { dict: start_dict(obj, None, None) }
    }

    /// Write the `/ColorSpace` attribute with a name. Required.
    pub fn color_space(&mut self, color_space: Name) -> (r: &mut Self)
        requires
            0 <= old(self).dict.len < i32::MAX,
        ensures
            dict_pair_appended(old(self).dict, r.dict, "ColorSpace".spec_bytes(), color_space),
            *final(r.dict.buf) == *final(old(self).dict.buf),
            *final(self) == *final(r),
    {
        self.dict.pair(Name("ColorSpace".as_bytes()), color_space);
        self
    }

    /// Finish writing the dictionary.
    pub fn finish(self)
        requires
            self.dict.len >= 0,
            self.dict.indent >= 2,
        ensures
            final(self.dict.buf)@ == old(self.dict.buf)@ + dict_close_bytes(
                self.dict.len as int,
                self.dict.settings.pretty,
                self.dict.indent as int,
                self.dict.indirect,
            ),
            final(self.dict.buf).spec_limits() == old(self.dict.buf).spec_limits().with_dict_entries(self.dict.len as int),
    {
        self.dict.finish();
    }
}

/// Writer for a _DeviceN mixing hints dictionary_. PDF 1.6+.
///
/// This struct is created by [`DeviceNAttrs::mixing_hints`].
pub struct DeviceNMixingHints<'a> {
    /// The underlying dictionary.
    pub dict: Dict<'a>,
}

impl<'a> DeviceNMixingHints<'a> {
    /// Start writing the dictionary on an object.
    pub(crate) fn start(obj: Obj<'a>) -> (r: Self)
        ensures
            dict_started(
                r.dict,
                old(obj.buf)@,
                obj.indirect,
                obj.indent,
                obj.settings,
                None,
                None,
            ),
            r.dict.buf.spec_limits() == dict_start_limits(old(obj.buf).spec_limits(), None, None),
            *final(r.dict.buf) == *final(obj.buf),
    {
        Self { dict: start_dict(obj, None, None) }
    }

    /// Finish writing the dictionary.
    pub fn finish(self)
        requires
            self.dict.len >= 0,
            self.dict.indent >= 2,
        ensures
            final(self.dict.buf)@ == old(self.dict.buf)@ + dict_close_bytes(
                self.dict.len as int,
                self.dict.settings.pretty,
                self.dict.indent as int,
                self.dict.indirect,
            ),
            final(self.dict.buf).spec_limits() == old(self.dict.buf).spec_limits().with_dict_entries(self.dict.len as int),
    {
        self.dict.finish();
    }
}

/// Writer for a _shading dictionary_. PDF 1.3+.
///
/// This struct is created by [`PdfWriter::shading`] and
/// [`ShadingPattern::shading`].
pub struct Shading<'a> {
    /// The underlying dictionary.
    pub dict: Dict<'a>,
}

impl<'a> Shading<'a> {
    /// Start writing the dictionary on an object.
    pub(crate) fn start(obj: Obj<'a>) -> (r: Self)
        ensures
            dict_started(
                r.dict,
                old(obj.buf)@,
                obj.indirect,
                obj.indent,
                obj.settings,
                None,
                None,
            ),
            r.dict.buf.spec_limits() == dict_start_limits(old(obj.buf).spec_limits(), None, None),
            *final(r.dict.buf) == *final(obj.buf),
    {
        Self { dict: start_dict(obj, None, None) }
    }

    /// Write the `/ShadingType` attribute.
    ///
    /// Sets the type of shading. The available and required attributes change
    /// depending on this. Required.
    pub fn shading_type(&mut self, kind: ShadingType) -> (r: &mut Self)
        requires
            0 <= old(self).dict.len < i32::MAX,
        ensures
            dict_pair_appended(old(self).dict, r.dict, "ShadingType".spec_bytes(), kind.spec_int()),
            *final(r.dict.buf) == *final(old(self).dict.buf),
            *final(self) == *final(r),
    {
        self.dict.pair(Name("ShadingType".as_bytes()), kind.to_int());
        self
    }

    /// Write the `/AntiAlias` attribute.
    ///
    /// Sets whether to anti-alias the shading.
    pub fn anti_alias(&mut self, anti_alias: bool) -> (r: &mut Self)
        requires
            0 <= old(self).dict.len < i32::MAX,
        ensures
            dict_pair_appended(old(self).dict, r.dict, "AntiAlias".spec_bytes(), anti_alias),
            *final(r.dict.buf) == *final(old(self).dict.buf),
            *final(self) == *final(r),
    {
        self.dict.pair(Name("AntiAlias".as_bytes()), anti_alias);
        self
    }

    /// Write the `/Function` attribute.
    ///
    /// Sets the 2-in function to use for shading. Required.
    pub fn function(&mut self, function: Ref) -> (r: &mut Self)
        requires
            0 <= old(self).dict.len < i32::MAX,
        ensures
            dict_pair_appended(old(self).dict, r.dict, "Function".spec_bytes(), function),
            *final(r.dict.buf) == *final(old(self).dict.buf),
            *final(self) == *final(r),
    {
        self.dict.pair(Name("Function".as_bytes()), function);
        self
    }

    /// Finish writing the dictionary.
    pub fn finish(self)
        requires
            self.dict.len >= 0,
            self.dict.indent >= 2,
        ensures
            final(self.dict.buf)@ == old(self.dict.buf)@ + dict_close_bytes(
                self.dict.len as int,
                self.dict.settings.pretty,
                self.dict.indent as int,
                self.dict.indirect,
            ),
            final(self.dict.buf).spec_limits() == old(self.dict.buf).spec_limits().with_dict_entries(self.dict.len as int),
    {
        self.dict.finish();
    }
}

/// Writer for the _separation information dictionary_. PDF 1.3+.
///
/// This struct is created by [`Catalog::separation_info`].
pub struct SeparationInfo<'a> {
    /// The underlying dictionary.
    pub dict: Dict<'a>,
}

impl<'a> SeparationInfo<'a> {
    /// Start writing the dictionary on an object.
    pub(crate) fn start(obj: Obj<'a>) -> (r: Self)
        ensures
            dict_started(
                r.dict,
                old(obj.buf)@,
                obj.indirect,
                obj.indent,
                obj.settings,
                None,
                None,
            ),
            r.dict.buf.spec_limits() == dict_start_limits(old(obj.buf).spec_limits(), None, None),
            *final(r.dict.buf) == *final(obj.buf),
    {
        Self { dict: start_dict(obj, None, None) }
    }

    /// Write the `/DeviceColorant` attribute as a name. Required.
    ///
    /// The name of the device colorant that corresponds to the separation.
    pub fn device_colorant(&mut self, colorant: Name) -> (r: &mut Self)
        requires
            0 <= old(self).dict.len < i32::MAX,
        ensures
            dict_pair_appended(old(self).dict, r.dict, "DeviceColorant".spec_bytes(), colorant),
            *final(r.dict.buf) == *final(old(self).dict.buf),
            *final(self) == *final(r),
    {
        self.dict.pair(Name("DeviceColorant".as_bytes()), colorant);
        self
    }

    /// Finish writing the dictionary.
    pub fn finish(self)
        requires
            self.dict.len >= 0,
            self.dict.indent >= 2,
        ensures
            final(self.dict.buf)@ == old(self.dict.buf)@ + dict_close_bytes(
                self.dict.len as int,
                self.dict.settings.pretty,
                self.dict.indent as int,
                self.dict.indirect,
            ),
            final(self.dict.buf).spec_limits() == old(self.dict.buf).spec_limits().with_dict_entries(self.dict.len as int),
    {
        self.dict.finish();
    }
}

/// Writer for an _output intent dictionary_. PDF 1.4+.
///
/// This describes the output conditions under which the document may be
/// rendered.
pub struct OutputIntent<'a> {
    /// The underlying dictionary.
    pub dict: Dict<'a>,
}

impl<'a> OutputIntent<'a> {
    /// Start writing the dictionary on an object.
    pub(crate) fn start(obj: Obj<'a>) -> (r: Self)
        ensures
            dict_started(
                r.dict,
                old(obj.buf)@,
                obj.indirect,
                obj.indent,
                obj.settings,
                Some("OutputIntent".spec_bytes()),
                None,
            ),
            r.dict.buf.spec_limits() == dict_start_limits(old(obj.buf).spec_limits(), Some("OutputIntent".spec_bytes()), None),
            *final(r.dict.buf) == *final(obj.buf),
    {
        Self { dict: start_dict(obj, Some("OutputIntent"), None) }
    }

    /// Write the `/S` attribute. Required.
    pub fn subtype(&mut self, subtype: OutputIntentSubtype) -> (r: &mut Self)
        requires
            0 <= old(self).dict.len < i32::MAX,
        ensures
            dict_name_pair_appended(old(self).dict, r.dict, "S".spec_bytes(), subtype.spec_name()),
            *final(r.dict.buf) == *final(old(self).dict.buf),
            *final(self) == *final(r),
    {
        self.dict.pair(Name("S".as_bytes()), subtype.to_name());
        self
    }

    /// Write the `/OutputCondition` attribute.
    ///
    /// A human-readable description of the output condition.
    pub fn output_condition(&mut self, condition: TextStr) -> (r: &mut Self)
        requires
            0 <= old(self).dict.len < i32::MAX,
        ensures
            dict_pair_appended(old(self).dict, r.dict, "OutputCondition".spec_bytes(), condition),
            *final(r.dict.buf) == *final(old(self).dict.buf),
            *final(self) == *final(r),
    {
        self.dict.pair(Name("OutputCondition".as_bytes()), condition);
        self
    }

    /// Write the `/OutputConditionIdentifier` attribute.
    ///
    /// A well-known identifier for the output condition.
    pub fn output_condition_identifier(&mut self, identifier: TextStr) -> (r: &mut Self)
        requires
            0 <= old(self).dict.len < i32::MAX,
        ensures
            dict_pair_appended(old(self).dict, r.dict, "OutputConditionIdentifier".spec_bytes(), identifier),
            *final(r.dict.buf) == *final(old(self).dict.buf),
            *final(self) == *final(r),
    {
        self.dict.pair(Name("OutputConditionIdentifier".as_bytes()), identifier);
        self
    }

    /// Write the `/RegistryName` attribute.
    ///
    /// The URI of the registry that contains the output condition.
    pub fn registry_name(&mut self, name: TextStr) -> (r: &mut Self)
        requires
            0 <= old(self).dict.len < i32::MAX,
        ensures
            dict_pair_appended(old(self).dict, r.dict, "RegistryName".spec_bytes(), name),
            *final(r.dict.buf) == *final(old(self).dict.buf),
            *final(self) == *final(r),
    {
        self.dict.pair(Name("RegistryName".as_bytes()), name);
        self
    }

    /// Write the `/Info` attribute.
    ///
    /// A human-readable string with additional info about the intended output device.
    pub fn info(&mut self, info: TextStr) -> (r: &mut Self)
        requires
            0 <= old(self).dict.len < i32::MAX,
        ensures
            dict_pair_appended(old(self).dict, r.dict, "Info".spec_bytes(), info),
            *final(r.dict.buf) == *final(old(self).dict.buf),
            *final(self) == *final(r),
    {
        self.dict.pair(Name("Info".as_bytes()), info);
        self
    }

    /// Write the `/DestOutputProfile` attribute.
    ///
    /// Required if `/OutputConditionIdentifier` does not contain a well-known
    /// identifier for the output condition.
    /// Must reference an [ICC profile](IccProfile) stream.
    pub fn dest_output_profile(&mut self, profile: Ref) -> (r: &mut Self)
        requires
            0 <= old(self).dict.len < i32::MAX,
        ensures
            dict_pair_appended(old(self).dict, r.dict, "DestOutputProfile".spec_bytes(), profile),
            *final(r.dict.buf) == *final(old(self).dict.buf),
            *final(self) == *final(r),
    {
        self.dict.pair(Name("DestOutputProfile".as_bytes()), profile);
        self
    }

    /// Finish writing the dictionary.
    pub fn finish(self)
        requires
            self.dict.len >= 0,
            self.dict.indent >= 2,
        ensures
            final(self.dict.buf)@ == old(self.dict.buf)@ + dict_close_bytes(
                self.dict.len as int,
                self.dict.settings.pretty,
                self.dict.indent as int,
                self.dict.indirect,
            ),
            final(self.dict.buf).spec_limits() == old(self.dict.buf).spec_limits().with_dict_entries(self.dict.len as int),
    {
        self.dict.finish();
    }
}

/// Writer for an _ICC profile stream_.
///
/// This struct is created by [`PdfWriter::icc_profile`].
pub struct IccProfile<'a> {
    /// The underlying stream.
    pub stream: Stream<'a>,
}

impl<'a> IccProfile<'a> {
    /// Start writing the stream's dictionary entries.
    pub(crate) fn start(stream: Stream<'a>) -> (r: Self)
        requires
            0 <= stream.dict.len < i32::MAX - 2,
        ensures
            r.stream.dict.buf@ == old(stream.dict.buf)@ + type_entries_bytes(
                old(stream.dict.buf)@,
                stream.dict.settings.pretty,
                stream.dict.indent as int,
                None,
                None,
            ),
            r.stream.dict.len == stream.dict.len + 0,
            r.stream.dict.indirect == stream.dict.indirect,
            r.stream.dict.indent == stream.dict.indent,
            r.stream.dict.settings == stream.dict.settings,
            r.stream.data == stream.data,
            *final(r.stream.dict.buf) == *final(stream.dict.buf),
            r.stream.dict.buf.spec_limits() == dict_start_limits(
                old(stream.dict.buf).spec_limits(),
                None,
                None,
            ),
    {
        Self { stream: type_stream(stream, None, None) }
    }

    /// Write the `/Alternate` attribute with a name.
    ///
    /// The alternate color space referenced by name must be registered in the
    /// current [resource dictionary.](crate::writers::Resources)
    pub fn alternate_name(&mut self, name: Name<'_>) -> (r: &mut Self)
        requires
            0 <= old(self).stream.dict.len < i32::MAX,
        ensures
            dict_pair_appended(old(self).stream.dict, r.stream.dict, "Alternate".spec_bytes(), name),
            r.stream.data == old(self).stream.data,
            *final(r.stream.dict.buf) == *final(old(self).stream.dict.buf),
            *final(self) == *final(r),
    {
        self.stream.dict.pair(Name("Alternate".as_bytes()), name);
        self
    }

    /// Write the `/Metadata` attribute.
    ///
    /// A reference to a [stream containing metadata](crate::writers::Metadata)
    /// for the ICC profile.
    pub fn metadata(&mut self, metadata: Ref) -> (r: &mut Self)
        requires
            0 <= old(self).stream.dict.len < i32::MAX,
        ensures
            dict_pair_appended(old(self).stream.dict, r.stream.dict, "Metadata".spec_bytes(), metadata),
            r.stream.data == old(self).stream.data,
            *final(r.stream.dict.buf) == *final(old(self).stream.dict.buf),
            *final(self) == *final(r),
    {
        self.stream.dict.pair(Name("Metadata".as_bytes()), metadata);
        self
    }

    /// Finish the stream: close its dictionary, write its data and close the
    /// object.
    pub fn finish(self)
        requires
            self.stream.dict.len >= 0,
        ensures
            final(self.stream.dict.buf)@ == old(self.stream.dict.buf)@ + stream_close_bytes(
                self.stream.dict.settings.pretty,
                self.stream.data@,
            ),
            final(self.stream.dict.buf).spec_limits() == old(self.stream.dict.buf).spec_limits().with_dict_entries(self.stream.dict.len as int),
    {
        self.stream.finish();
    }
}


/// The names under which the values of [`ColorSpaceType`] are written, as PDF
/// defines them.
pub proof fn lemma_color_space_type_names()
    ensures
        ColorSpaceType::CalRgb.spec_name() == "CalRGB".spec_bytes(),
        ColorSpaceType::CalGray.spec_name() == "CalGray".spec_bytes(),
        ColorSpaceType::Lab.spec_name() == "Lab".spec_bytes(),
        ColorSpaceType::IccBased.spec_name() == "ICCBased".spec_bytes(),
        ColorSpaceType::DeviceRgb.spec_name() == "DeviceRGB".spec_bytes(),
        ColorSpaceType::DeviceCmyk.spec_name() == "DeviceCMYK".spec_bytes(),
        ColorSpaceType::DeviceGray.spec_name() == "DeviceGray".spec_bytes(),
        ColorSpaceType::Separation.spec_name() == "Separation".spec_bytes(),
        ColorSpaceType::DeviceN.spec_name() == "DeviceN".spec_bytes(),
        ColorSpaceType::Indexed.spec_name() == "Indexed".spec_bytes(),
        ColorSpaceType::Pattern.spec_name() == "Pattern".spec_bytes(),
{
}

/// The numbers under which the values of [`PatternType`] are written, as PDF
/// defines them.
pub(crate) proof fn lemma_pattern_type_numbers()
    ensures
        PatternType::Tiling.spec_int() == 1,
        PatternType::Shading.spec_int() == 2,
{
}

/// The names under which the values of [`DeviceNSubtype`] are written, as PDF
/// defines them.
pub proof fn lemma_device_n_subtype_names()
    ensures
        DeviceNSubtype::DeviceN.spec_name() == "DeviceN".spec_bytes(),
        DeviceNSubtype::NChannel.spec_name() == "NChannel".spec_bytes(),
{
}

/// The numbers under which the values of [`PaintType`] are written, as PDF
/// defines them.
pub proof fn lemma_paint_type_numbers()
    ensures
        PaintType::Colored.spec_int() == 1,
        PaintType::Uncolored.spec_int() == 2,
{
}

/// The numbers under which the values of [`TilingType`] are written, as PDF
/// defines them.
pub proof fn lemma_tiling_type_numbers()
    ensures
        TilingType::ConstantSpacing.spec_int() == 1,
        TilingType::NoDistortion.spec_int() == 2,
        TilingType::FastConstantSpacing.spec_int() == 3,
{
}

/// The numbers under which the values of [`ShadingType`] are written, as PDF
/// defines them.
pub proof fn lemma_shading_type_numbers()
    ensures
        ShadingType::Function.spec_int() == 1,
        ShadingType::Axial.spec_int() == 2,
        ShadingType::Radial.spec_int() == 3,
{
}

/// The names under which the values of [`OutputIntentSubtype`] are written, as PDF
/// defines them.
pub proof fn lemma_output_intent_subtype_names()
    ensures
        OutputIntentSubtype::PDFX.spec_name() == "GTS_PDFX".spec_bytes(),
        OutputIntentSubtype::PDFA.spec_name() == "GTS_PDFA1".spec_bytes(),
        OutputIntentSubtype::PDFE.spec_name() == "ISO_PDFE1".spec_bytes(),
{
}

} // verus!
