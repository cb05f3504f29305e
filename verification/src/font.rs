use vstd::prelude::*;
use vstd::string::*;

use core::marker::PhantomData;

use crate::buf::{decimal, flat_map, hex_byte, hex_u16, lemma_flat_map_step, lemma_take_full, Buf, LimitsView};
use crate::object::{
    code_points, hex_string_decode, lemma_hex_pair_decode, lemma_utf16_decode_all, utf16be_decode,
    dict_start_limits,
    dict_items_appended,
    array_separator, array_tokens_bytes, dict_entries_bytes, lemma_entries_push, nested_dict_entry_bytes, push_token_item, token,
    Real, Rect,
    nested_indent, Array, TypedDict, all_writable, array_close_bytes, array_item_bytes, array_items_bytes, array_started,
    Date, Dict, LBRACKET, Name, NameTree, NumberTree, Obj, Primitive, Ref, Str, Stream, TextStr, TextStrLike, TypedArray, dict_close_bytes, dict_grown, dict_items_entry_bytes, dict_key_bytes, dict_name_pair_appended, dict_pair_appended, dict_pair_enc_bytes, dict_started, name_encoding, push_utf16, start_dict, str_encoding, stream_close_bytes, type_entries_bytes, type_stream, utf16_hex, write_items_entry,
};
use crate::content::{Resources};

verus! {

/// The subtype of a CID font.
#[derive(Debug, Copy, Clone, Eq, PartialEq, Hash)]
pub enum CidFontType {
    /// A CID font containing CFF glyph descriptions.
    Type0,
    /// A CID font containing TrueType glyph descriptions.
    Type2,
}

impl CidFontType {
    /// The name under which the value is written.
    pub open spec fn spec_name(self) -> Seq<u8> {
        match self {
            Self::Type0 => "CIDFontType0".spec_bytes(),
            Self::Type2 => "CIDFontType2".spec_bytes(),
        }
    }

    pub(crate) fn to_name(self) -> (r: Name<'static>)
        ensures
            r.0@ == self.spec_name(),
    {
        match self {
            Self::Type0 => Name("CIDFontType0".as_bytes()),
            Self::Type2 => Name("CIDFontType2".as_bytes()),
        }
    }
}

/// Glyph classes for CJK fonts as defined in ISO 32000-1:2008.
#[derive(Debug, Copy, Clone, Eq, PartialEq, Hash)]
#[allow(missing_docs)]
pub enum CjkClass {
    Alphabetic,
    AlphaNum,
    Dingbats,
    DingbatsRot,
    Generic,
    GenericRot,
    Hangul,
    Hanja,
    Hanzi,
    HRoman,
    HRomanRot,
    HKana,
    HKanaRot,
    HojoKanji,
    Kana,
    Kanji,
    Proportional,
    ProportionalRot,
    Ruby,
}

impl CjkClass {
    /// The name under which the value is written.
    pub open spec fn spec_name(self) -> Seq<u8> {
        match self {
            Self::Alphabetic => "Alphabetic".spec_bytes(),
            Self::AlphaNum => "AlphaNum".spec_bytes(),
            Self::Dingbats => "Dingbats".spec_bytes(),
            Self::DingbatsRot => "DingbatsRot".spec_bytes(),
            Self::Generic => "Generic".spec_bytes(),
            Self::GenericRot => "GenericRot".spec_bytes(),
            Self::Hangul => "Hangul".spec_bytes(),
            Self::Hanja => "Hanja".spec_bytes(),
            Self::Hanzi => "Hanzi".spec_bytes(),
            Self::HRoman => "HRoman".spec_bytes(),
            Self::HRomanRot => "HRomanRot".spec_bytes(),
            Self::HKana => "HKana".spec_bytes(),
            Self::HKanaRot => "HKanaRot".spec_bytes(),
            Self::HojoKanji => "HojoKanji".spec_bytes(),
            Self::Kana => "Kana".spec_bytes(),
            Self::Kanji => "Kanji".spec_bytes(),
            Self::Proportional => "Proportional".spec_bytes(),
            Self::ProportionalRot => "ProportionalRot".spec_bytes(),
            Self::Ruby => "Ruby".spec_bytes(),
        }
    }

    pub(crate) fn to_name(self) -> (r: Name<'static>)
        ensures
            r.0@ == self.spec_name(),
    {
        match self {
            Self::Alphabetic => Name("Alphabetic".as_bytes()),
            Self::AlphaNum => Name("AlphaNum".as_bytes()),
            Self::Dingbats => Name("Dingbats".as_bytes()),
            Self::DingbatsRot => Name("DingbatsRot".as_bytes()),
            Self::Generic => Name("Generic".as_bytes()),
            Self::GenericRot => Name("GenericRot".as_bytes()),
            Self::Hangul => Name("Hangul".as_bytes()),
            Self::Hanja => Name("Hanja".as_bytes()),
            Self::Hanzi => Name("Hanzi".as_bytes()),
            Self::HRoman => Name("HRoman".as_bytes()),
            Self::HRomanRot => Name("HRomanRot".as_bytes()),
            Self::HKana => Name("HKana".as_bytes()),
            Self::HKanaRot => Name("HKanaRot".as_bytes()),
            Self::HojoKanji => Name("HojoKanji".as_bytes()),
            Self::Kana => Name("Kana".as_bytes()),
            Self::Kanji => Name("Kanji".as_bytes()),
            Self::Proportional => Name("Proportional".as_bytes()),
            Self::ProportionalRot => Name("ProportionalRot".as_bytes()),
            Self::Ruby => Name("Ruby".as_bytes()),
        }
    }
}

/// The width of a font's glyphs.
#[derive(Debug, Copy, Clone, Eq, PartialEq, Hash)]
#[allow(missing_docs)]
pub enum FontStretch {
    UltraCondensed,
    ExtraCondensed,
    Condensed,
    SemiCondensed,
    Normal,
    SemiExpanded,
    Expanded,
    ExtraExpanded,
    UltraExpanded,
}

impl FontStretch {
    /// The name under which the value is written.
    pub open spec fn spec_name(self) -> Seq<u8> {
        match self {
            Self::UltraCondensed => "UltraCondensed".spec_bytes(),
            Self::ExtraCondensed => "ExtraCondensed".spec_bytes(),
            Self::Condensed => "Condensed".spec_bytes(),
            Self::SemiCondensed => "SemiCondensed".spec_bytes(),
            Self::Normal => "Normal".spec_bytes(),
            Self::SemiExpanded => "SemiExpanded".spec_bytes(),
            Self::Expanded => "Expanded".spec_bytes(),
            Self::ExtraExpanded => "ExtraExpanded".spec_bytes(),
            Self::UltraExpanded => "UltraExpanded".spec_bytes(),
        }
    }

    pub(crate) fn to_name(self) -> (r: Name<'static>)
        ensures
            r.0@ == self.spec_name(),
    {
        match self {
            Self::UltraCondensed => Name("UltraCondensed".as_bytes()),
            Self::ExtraCondensed => Name("ExtraCondensed".as_bytes()),
            Self::Condensed => Name("Condensed".as_bytes()),
            Self::SemiCondensed => Name("SemiCondensed".as_bytes()),
            Self::Normal => Name("Normal".as_bytes()),
            Self::SemiExpanded => Name("SemiExpanded".as_bytes()),
            Self::Expanded => Name("Expanded".as_bytes()),
            Self::ExtraExpanded => Name("ExtraExpanded".as_bytes()),
            Self::UltraExpanded => Name("UltraExpanded".as_bytes()),
        }
    }
}

/// The writing mode of a character map.
#[derive(Debug, Copy, Clone, Eq, PartialEq, Hash)]
#[allow(missing_docs)]
pub enum WMode {
    Horizontal,
    Vertical,
}

impl WMode {
    /// The number under which the value is written.
    pub open spec fn spec_int(self) -> i32 {
        match self {
            Self::Horizontal => 0,
            Self::Vertical => 1,
        }
    }

    pub(crate) fn to_int(self) -> (r: i32)
        ensures
            r == self.spec_int(),
    {
        match self {
            Self::Horizontal => 0,
            Self::Vertical => 1,
        }
    }
}


// ---------------------------------------------------------------------------
// Character maps.
// ---------------------------------------------------------------------------

/// Specifics about a character collection.
#[derive(Debug, Copy, Clone, Eq, PartialEq, Hash)]
pub struct SystemInfo<'a> {
    /// The issuer of the collection.
    pub registry: Str<'a>,
    /// A unique name of the collection within the registry.
    pub ordering: Str<'a>,
    /// The supplement number (i.e. the version).
    pub supplement: i32,
}

/// The dictionary of a character collection, written after `before` with
/// entries indented by `indent`.
pub open spec fn system_info_dict_bytes(
    before: Seq<u8>,
    pretty: bool,
    indent: int,
    indirect: bool,
    registry: Seq<u8>,
    ordering: Seq<u8>,
    supplement: i32,
) -> Seq<u8> {
    let open = before + "<<".spec_bytes();
    let reg = dict_pair_enc_bytes(open, pretty, indent, "Registry".spec_bytes(), str_encoding(registry), true);
    let ord = dict_pair_enc_bytes(
        open + reg,
        pretty,
        indent,
        "Ordering".spec_bytes(),
        str_encoding(ordering),
        true,
    );
    let sup = dict_pair_enc_bytes(
        open + reg + ord,
        pretty,
        indent,
        "Supplement".spec_bytes(),
        decimal(supplement as int),
        false,
    );
    "<<".spec_bytes() + reg + ord + sup + dict_close_bytes(3, pretty, indent, indirect)
}

impl SystemInfo<'_> {
    /// Write the character collection as a dictionary.
    #[verifier::spinoff_prover]
    #[verifier::rlimit(50)]
    pub(crate) fn write(&self, obj: Obj<'_>)
        requires
            self.supplement != i32::MIN,
        ensures
            final(obj.buf)@ == old(obj.buf)@ + system_info_dict_bytes(
                old(obj.buf)@,
                obj.settings.pretty,
                if obj.indent > 253 {
                    255
                } else {
                    obj.indent + 2
                },
                obj.indirect,
                self.registry.0@,
                self.ordering.0@,
                self.supplement,
            ),
    {
        let mut dict = obj.dict();
        dict.pair(Name("Registry".as_bytes()), self.registry);
        dict.pair(Name("Ordering".as_bytes()), self.ordering);
        dict.pair(Name("Supplement".as_bytes()), self.supplement);
        dict.finish();
    }
}

/// Type3 fonts require (in Acrobat at least) IDs in CMaps to be encoded with
/// one byte only, whereas other font types use two bytes.
///
/// This trait provides an abstraction to support both.
pub trait GlyphId: Sized + Copy {
    /// The hexadecimal text of the glyph id.
    spec fn spec_hex(self) -> Seq<u8>;

    /// The hexadecimal text of the smallest glyph id.
    spec fn spec_min_hex() -> Seq<u8>;

    /// The hexadecimal text of the largest glyph id.
    spec fn spec_max_hex() -> Seq<u8>;

    /// Append the hexadecimal text of the glyph id.
    fn push(self, buf: &mut Buf)
        ensures
            final(buf)@ == old(buf)@ + self.spec_hex(),
            final(buf).spec_limits() == old(buf).spec_limits(),
    ;

    /// Append the hexadecimal text of the smallest glyph id.
    fn push_min(buf: &mut Buf)
        ensures
            final(buf)@ == old(buf)@ + Self::spec_min_hex(),
            final(buf).spec_limits() == old(buf).spec_limits(),
    ;

    /// Append the hexadecimal text of the largest glyph id.
    fn push_max(buf: &mut Buf)
        ensures
            final(buf)@ == old(buf)@ + Self::spec_max_hex(),
            final(buf).spec_limits() == old(buf).spec_limits(),
    ;
}

impl GlyphId for u8 {
    open spec fn spec_hex(self) -> Seq<u8> {
        hex_byte(self)
    }

    open spec fn spec_min_hex() -> Seq<u8> {
        hex_byte(0)
    }

    open spec fn spec_max_hex() -> Seq<u8> {
        hex_byte(255)
    }

    fn push(self, buf: &mut Buf) {
        buf.push_hex(self);
    }

    fn push_min(buf: &mut Buf) {
        buf.push_hex(u8::MIN);
    }

    fn push_max(buf: &mut Buf) {
        buf.push_hex(u8::MAX);
    }
}

impl GlyphId for u16 {
    open spec fn spec_hex(self) -> Seq<u8> {
        hex_u16(self)
    }

    open spec fn spec_min_hex() -> Seq<u8> {
        hex_u16(0)
    }

    open spec fn spec_max_hex() -> Seq<u8> {
        hex_u16(65535)
    }

    fn push(self, buf: &mut Buf) {
        buf.push_hex_u16(self);
    }

    fn push_min(buf: &mut Buf) {
        buf.push_hex_u16(u16::MIN);
    }

    fn push_max(buf: &mut Buf) {
        buf.push_hex_u16(u16::MAX);
    }
}

/// The beginning of a `/ToUnicode` character map, up to its mappings.
pub open spec fn cmap_header(
    name: Seq<u8>,
    registry: Seq<u8>,
    ordering: Seq<u8>,
    supplement: i32,
    wmode: i32,
    min: Seq<u8>,
    max: Seq<u8>,
) -> Seq<u8> {
    "%!PS-Adobe-3.0 Resource-CMap\n".spec_bytes()
        + "%%DocumentNeededResources: procset CIDInit\n".spec_bytes()
        + "%%IncludeResource: procset CIDInit\n".spec_bytes()
        + "%%BeginResource: CMap ".spec_bytes() + name + "\n".spec_bytes()
        + "%%Title: (".spec_bytes() + name + " ".spec_bytes() + registry + " ".spec_bytes()
        + ordering + " ".spec_bytes() + decimal(supplement as int) + ")\n".spec_bytes()
        + "%%Version: 1\n".spec_bytes() + "%%EndComments\n".spec_bytes()
        + "/CIDInit /ProcSet findresource begin\n".spec_bytes() + "12 dict begin\n".spec_bytes()
        + "begincmap\n".spec_bytes() + "/CIDSystemInfo 3 dict dup begin\n".spec_bytes()
        + "    /Registry ".spec_bytes() + str_encoding(registry) + " def\n".spec_bytes()
        + "    /Ordering ".spec_bytes() + str_encoding(ordering) + " def\n".spec_bytes()
        + "    /Supplement ".spec_bytes() + decimal(supplement as int) + " def\n".spec_bytes()
        + "end def\n".spec_bytes() + "/CMapName ".spec_bytes() + name_encoding(name)
        + " def\n".spec_bytes() + "/CMapVersion 1 def\n".spec_bytes()
        + "/CMapType 0 def\n".spec_bytes() + "/WMode ".spec_bytes() + decimal(wmode as int)
        + " def\n".spec_bytes() + "1 begincodespacerange\n".spec_bytes() + "<".spec_bytes() + min
        + "> <".spec_bytes() + max + ">\n".spec_bytes() + "endcodespacerange\n".spec_bytes()
}

/// The end of a character map, after its mappings.
pub open spec fn cmap_footer() -> Seq<u8> {
    "endcmap\n".spec_bytes() + "CMapName currentdict /CMap defineresource pop\n".spec_bytes()
        + "end\n".spec_bytes() + "end\n".spec_bytes() + "%%EndResource\n".spec_bytes()
        + "%%EOF".spec_bytes()
}

/// One mapping of a character map: a glyph id and the UTF-16 code units of
/// the characters it stands for.
pub open spec fn cmap_line(glyph: Seq<u8>, codepoints: Seq<char>) -> Seq<u8> {
    "<".spec_bytes() + glyph + "> <".spec_bytes() + flat_map(codepoints, |c: char| utf16_hex(c))
        + ">\n".spec_bytes()
}

/// The concatenation of the given lines.
pub open spec fn concat_lines(lines: Seq<Seq<u8>>) -> Seq<u8> {
    flat_map(lines, |l: Seq<u8>| l)
}

/// A range of mappings: their number, then the mappings, between
/// `beginbfchar` and `endbfchar`; nothing for no mappings.
pub open spec fn cmap_range(lines: Seq<Seq<u8>>) -> Seq<u8> {
    if lines.len() == 0 {
        Seq::empty()
    } else {
        decimal(lines.len() as int) + " beginbfchar\n".spec_bytes() + concat_lines(lines)
            + "endbfchar\n".spec_bytes()
    }
}

/// The first `k` ranges of one hundred mappings each.
pub open spec fn cmap_full_ranges(lines: Seq<Seq<u8>>, k: nat) -> Seq<u8>
    decreases k,
{
    if k == 0 {
        Seq::empty()
    } else {
        cmap_full_ranges(lines, (k - 1) as nat) + cmap_range(
            lines.subrange(100 * (k - 1), 100 * (k as int)),
        )
    }
}

/// All mappings, in ranges of one hundred mappings and a last range of
/// fewer.
pub open spec fn cmap_ranges(lines: Seq<Seq<u8>>) -> Seq<u8> {
    let k = lines.len() / 100;
    cmap_full_ranges(lines, k) + cmap_range(lines.skip(100 * (k as int)))
}

/// The limits that the bytes before the mappings record: the supplement
/// (twice), the registry and ordering strings, the name and the writing mode.
pub open spec fn cmap_header_limits(
    name: Seq<u8>,
    registry: Seq<u8>,
    ordering: Seq<u8>,
    supplement: i32,
    mode: i32,
) -> LimitsView {
    LimitsView::zero().with_int(supplement as int).with_str_len(registry.len() as int).with_str_len(
        ordering.len() as int,
    ).with_int(supplement as int).with_name_len(name.len() as int).with_int(mode as int)
}

/// The limits after `n` mappings written in ranges of at most one hundred:
/// each range records its number of mappings.
pub open spec fn cmap_ranges_limits(header: LimitsView, n: nat) -> LimitsView {
    let full = if n >= 100 {
        header.with_int(100)
    } else {
        header
    };
    if n % 100 > 0 {
        full.with_int((n % 100) as int)
    } else {
        full
    }
}

/// A builder for a `/ToUnicode` character map stream.
pub struct UnicodeCmap<G = u16> {
    buf: Buf,
    mappings: Buf,
    count: i32,
    glyph_id: PhantomData<G>,
    header: Ghost<Seq<u8>>,
    header_limits: Ghost<LimitsView>,
    lines: Ghost<Seq<Seq<u8>>>,
    flushed: Ghost<nat>,
}

impl<G: GlyphId> UnicodeCmap<G> {
    /// The bytes before the mappings.
    pub closed spec fn spec_header(&self) -> Seq<u8> {
        self.header@
    }

    /// The limits that the bytes before the mappings record.
    pub closed spec fn spec_header_limits(&self) -> LimitsView {
        self.header_limits@
    }

    /// The mappings added so far, one line each.
    pub closed spec fn spec_lines(&self) -> Seq<Seq<u8>> {
        self.lines@
    }

    /// The written bytes match the header and mappings.
    pub closed spec fn wf(&self) -> bool {
        &&& 0 <= self.count < 100
        &&& self.lines@.len() == 100 * (self.flushed@ as int) + self.count
        &&& self.buf@ == self.header@ + cmap_full_ranges(self.lines@, self.flushed@)
        &&& self.buf.spec_limits() == (if self.flushed@ > 0 {
            self.header_limits@.with_int(100)
        } else {
            self.header_limits@
        })
        &&& self.mappings@ == concat_lines(self.lines@.skip(100 * (self.flushed@ as int)))
    }

    /// Create a new, empty unicode character map for a horizontal writing mode
    /// font.
    pub fn new(name: Name, info: SystemInfo) -> (r: Self)
        requires
            info.supplement != i32::MIN,
        ensures
            r.wf(),
            r.spec_header() == cmap_header(
                name.0@,
                info.registry.0@,
                info.ordering.0@,
                info.supplement,
                0,
                G::spec_min_hex(),
                G::spec_max_hex(),
            ),
            r.spec_header_limits() == cmap_header_limits(
                name.0@,
                info.registry.0@,
                info.ordering.0@,
                info.supplement,
                0,
            ),
            r.spec_lines() == Seq::<Seq<u8>>::empty(),
    {
        Self::with_writing_mode(name, info, WMode::Horizontal)
    }

    /// Create a new, empty unicode character map while specifying the writing
    /// mode.
    pub fn with_writing_mode(name: Name, info: SystemInfo, mode: WMode) -> (r: Self)
        requires
            info.supplement != i32::MIN,
        ensures
            r.wf(),
            r.spec_header() == cmap_header(
                name.0@,
                info.registry.0@,
                info.ordering.0@,
                info.supplement,
                mode.spec_int(),
                G::spec_min_hex(),
                G::spec_max_hex(),
            ),
            r.spec_header_limits() == cmap_header_limits(
                name.0@,
                info.registry.0@,
                info.ordering.0@,
                info.supplement,
                mode.spec_int(),
            ),
            r.spec_lines() == Seq::<Seq<u8>>::empty(),
    {
        let mut buf = Buf::new();

        // Static header.
        buf.extend_slice("%!PS-Adobe-3.0 Resource-CMap\n".as_bytes());
        buf.extend_slice("%%DocumentNeededResources: procset CIDInit\n".as_bytes());
        buf.extend_slice("%%IncludeResource: procset CIDInit\n".as_bytes());

        // Dynamic header.
        buf.extend_slice("%%BeginResource: CMap ".as_bytes());
        buf.extend_slice(name.0);
        buf.extend_slice("\n".as_bytes());
        buf.extend_slice("%%Title: (".as_bytes());
        buf.extend_slice(name.0);
        buf.extend_slice(" ".as_bytes());
        buf.extend_slice(info.registry.0);
        buf.extend_slice(" ".as_bytes());
        buf.extend_slice(info.ordering.0);
        buf.extend_slice(" ".as_bytes());
        buf.push_int(info.supplement);
        buf.extend_slice(")\n".as_bytes());
        buf.extend_slice("%%Version: 1\n".as_bytes());
        buf.extend_slice("%%EndComments\n".as_bytes());

        // General body.
        buf.extend_slice("/CIDInit /ProcSet findresource begin\n".as_bytes());
        buf.extend_slice("12 dict begin\n".as_bytes());
        buf.extend_slice("begincmap\n".as_bytes());
        buf.extend_slice("/CIDSystemInfo 3 dict dup begin\n".as_bytes());
        buf.extend_slice("    /Registry ".as_bytes());
        info.registry.write(&mut buf);
        buf.extend_slice(" def\n".as_bytes());
        buf.extend_slice("    /Ordering ".as_bytes());
        info.ordering.write(&mut buf);
        buf.extend_slice(" def\n".as_bytes());
        buf.extend_slice("    /Supplement ".as_bytes());
        info.supplement.write(&mut buf);
        buf.extend_slice(" def\n".as_bytes());
        buf.extend_slice("end def\n".as_bytes());
        buf.extend_slice("/CMapName ".as_bytes());
        name.write(&mut buf);
        buf.extend_slice(" def\n".as_bytes());
        buf.extend_slice("/CMapVersion 1 def\n".as_bytes());
        buf.extend_slice("/CMapType 0 def\n".as_bytes());
        buf.extend_slice("/WMode ".as_bytes());
        buf.push_int(mode.to_int());
        buf.extend_slice(" def\n".as_bytes());

        // We just cover the whole unicode codespace.
        buf.extend_slice("1 begincodespacerange\n".as_bytes());
        buf.extend_slice("<".as_bytes());
        G::push_min(&mut buf);
        buf.extend_slice("> <".as_bytes());
        G::push_max(&mut buf);
        buf.extend_slice(">\n".as_bytes());
        buf.extend_slice("endcodespacerange\n".as_bytes());

        let ghost header = cmap_header(
            name.0@,
            info.registry.0@,
            info.ordering.0@,
            info.supplement,
            mode.spec_int(),
            G::spec_min_hex(),
            G::spec_max_hex(),
        );
        assert(buf@ =~= header);
        let ghost header_limits = buf.spec_limits();
        let r = Self {
            buf,
            mappings: Buf::new(),
            count: 0,
            glyph_id: PhantomData,
            header: Ghost(header),
            header_limits: Ghost(header_limits),
            lines: Ghost(Seq::empty()),
            flushed: Ghost(0),
        };
        assert(r.lines@.skip(0) =~= Seq::<Seq<u8>>::empty());
        r
    }

    /// Add a mapping from a glyph ID to a codepoint.
    pub fn pair(&mut self, glyph: G, codepoint: char)
        requires
            old(self).wf(),
        ensures
            final(self).wf(),
            final(self).spec_header() == old(self).spec_header(),
            final(self).spec_header_limits() == old(self).spec_header_limits(),
            final(self).spec_lines() == old(self).spec_lines().push(
                cmap_line(glyph.spec_hex(), seq![codepoint]),
            ),
    {
        let codepoints = [codepoint];
        assert(codepoints@ =~= seq![codepoint]);
        self.pair_with_multiple(glyph, codepoints.as_slice());
    }

    /// Add a mapping from a glyph ID to multiple codepoints.
    pub fn pair_with_multiple(&mut self, glyph: G, codepoints: &[char])
        requires
            old(self).wf(),
        ensures
            final(self).wf(),
            final(self).spec_header() == old(self).spec_header(),
            final(self).spec_header_limits() == old(self).spec_header_limits(),
            final(self).spec_lines() == old(self).spec_lines().push(
                cmap_line(glyph.spec_hex(), codepoints@),
            ),
    {
        let ghost line = cmap_line(glyph.spec_hex(), codepoints@);
        let ghost start = self.mappings@;
        self.mappings.extend_slice("<".as_bytes());
        glyph.push(&mut self.mappings);
        self.mappings.extend_slice("> <".as_bytes());
        let ghost before_chars = self.mappings@;
        let ghost f = |c: char| utf16_hex(c);
        let mut i: usize = 0;
        assert(codepoints@.take(0) =~= Seq::<char>::empty());
        while i < codepoints.len()
            invariant
                i <= codepoints@.len(),
                self.mappings@ == before_chars + flat_map(codepoints@.take(i as int), f),
                f == (|c: char| utf16_hex(c)),
                old(self).wf(),
                self.buf == old(self).buf,
                self.count == old(self).count,
                self.header == old(self).header,
                self.header_limits == old(self).header_limits,
                self.lines == old(self).lines,
                self.flushed == old(self).flushed,
                start == old(self).mappings@,
                before_chars == start + "<".spec_bytes() + glyph.spec_hex() + "> <".spec_bytes(),
            decreases codepoints@.len() - i,
        {
            proof {
                lemma_flat_map_step(codepoints@, i as int, f);
            }
            push_utf16(&mut self.mappings, codepoints[i]);
            i = i + 1;
        }
        proof {
            lemma_take_full(codepoints@);
        }
        self.mappings.extend_slice(">\n".as_bytes());
        assert(self.mappings@ =~= start + line);
        let ghost old_lines = self.lines@;
        let ghost k = self.flushed@;
        self.lines = Ghost(self.lines@.push(line));
        proof {
            let g = |l: Seq<u8>| l;
            assert(self.lines@.skip(100 * (k as int)).drop_last() =~= old_lines.skip(100 * (k as int)));
            assert(concat_lines(self.lines@.skip(100 * (k as int))) == concat_lines(old_lines.skip(100 * (k as int)))
                + line);
            assert(self.lines@.subrange(0, 100 * (k as int)) =~= old_lines.subrange(0, 100 * (k as int)));
            lemma_full_ranges_prefix(old_lines, self.lines@, k);
        }
        self.count = self.count + 1;

        // At most 100 lines per range.
        if self.count >= 100 {
            self.flush_range();
            proof {
                assert(self.lines@.skip(100 * (k as int)) =~= self.lines@.subrange(100 * (k as int), 100 * (k as int + 1)));
                assert(self.lines@.skip(100 * (k as int + 1)) =~= Seq::<Seq<u8>>::empty());
                assert(concat_lines(self.lines@.skip(100 * (k as int + 1))) =~= Seq::<u8>::empty());
                assert(cmap_full_ranges(self.lines@, (k + 1) as nat) == cmap_full_ranges(self.lines@, k)
                    + cmap_range(self.lines@.subrange(100 * (k as int), 100 * (k as int + 1))));
            }
            self.flushed = Ghost(k + 1);
            assert(self.buf@ =~= self.header@ + cmap_full_ranges(self.lines@, self.flushed@));
        }
    }

    /// Finish building the character map.
    pub fn finish(self) -> (r: Buf)
        requires
            self.wf(),
        ensures
            r@ == self.spec_header() + cmap_ranges(self.spec_lines()) + cmap_footer(),
            r.spec_limits() == cmap_ranges_limits(self.spec_header_limits(), self.spec_lines().len()),
    {
        let mut this = self;
        let ghost c = this.count as int;
        // Flush the in-progress range.
        this.flush_range();
        proof {
            let n = this.lines@.len();
            let k = this.flushed@;
            assert(n / 100 == k && n % 100 == c) by (nonlinear_arith)
                requires
                    n == 100 * (k as int) + c,
                    0 <= c < 100,
            ;
            assert((n >= 100) == (k > 0)) by (nonlinear_arith)
                requires
                    n == 100 * (k as int) + c,
                    0 <= c < 100,
            ;
        }

        // End of body.
        this.buf.extend_slice("endcmap\n".as_bytes());
        this.buf.extend_slice("CMapName currentdict /CMap defineresource pop\n".as_bytes());
        this.buf.extend_slice("end\n".as_bytes());
        this.buf.extend_slice("end\n".as_bytes());
        this.buf.extend_slice("%%EndResource\n".as_bytes());
        this.buf.extend_slice("%%EOF".as_bytes());
        assert(this.buf@ =~= self.spec_header() + cmap_ranges(self.spec_lines()) + cmap_footer());
        this.buf
    }

    /// Write the mappings in progress as a range, when there are any.
    fn flush_range(&mut self)
        requires
            0 <= old(self).count <= 100,
            old(self).lines@.len() == 100 * (old(self).flushed@ as int) + old(self).count,
            old(self).mappings@ == concat_lines(old(self).lines@.skip(100 * (old(self).flushed@ as int))),
        ensures
            final(self).buf@ == old(self).buf@ + cmap_range(
                old(self).lines@.skip(100 * (old(self).flushed@ as int)),
            ),
            final(self).buf.spec_limits() == (if old(self).count > 0 {
                old(self).buf.spec_limits().with_int(old(self).count as int)
            } else {
                old(self).buf.spec_limits()
            }),
            final(self).mappings@ == Seq::<u8>::empty(),
            final(self).count == 0,
            final(self).header == old(self).header,
            final(self).header_limits == old(self).header_limits,
            final(self).lines == old(self).lines,
            final(self).flushed == old(self).flushed,
    {
        if self.count > 0 {
            self.buf.push_int(self.count);
            self.buf.extend_slice(" beginbfchar\n".as_bytes());
            self.buf.extend_slice(self.mappings.as_slice());
            self.buf.extend_slice("endbfchar\n".as_bytes());
        }
        self.count = 0;
        self.mappings = Buf::new();
    }
}

/// The full ranges of a sequence of mappings only depend on the mappings
/// they cover.
proof fn lemma_full_ranges_prefix(a: Seq<Seq<u8>>, b: Seq<Seq<u8>>, k: nat)
    requires
        100 * (k as int) <= a.len(),
        100 * (k as int) <= b.len(),
        a.subrange(0, 100 * (k as int)) == b.subrange(0, 100 * (k as int)),
    ensures
        cmap_full_ranges(a, k) == cmap_full_ranges(b, k),
    decreases k,
{
    if k > 0 {
        assert(a.subrange(0, 100 * (k - 1)) =~= a.subrange(0, 100 * (k as int)).subrange(0, 100 * (k - 1)));
        assert(b.subrange(0, 100 * (k - 1)) =~= b.subrange(0, 100 * (k as int)).subrange(0, 100 * (k - 1)));
        lemma_full_ranges_prefix(a, b, (k - 1) as nat);
        assert(a.subrange(100 * (k - 1), 100 * (k as int)) =~= a.subrange(0, 100 * (k as int)).subrange(100 * (k - 1), 100 * (k as int)));
        assert(b.subrange(100 * (k - 1), 100 * (k as int)) =~= b.subrange(0, 100 * (k as int)).subrange(100 * (k - 1), 100 * (k as int)));
    }
}

impl Type0Font<'_> {
    /// Write the `/DescendantFonts` attribute as a one-element array containing
    /// a reference to a [`CidFont`].
    pub fn descendant_font(&mut self, cid_font: Ref) -> (r: &mut Self)
        requires
            0 <= old(self).dict.len < i32::MAX,
        ensures
            dict_items_appended(old(self).dict, r.dict, "DescendantFonts".spec_bytes(), seq![cid_font]),
            *final(r.dict.buf) == *final(old(self).dict.buf),
            *final(self) == *final(r),
    {
        let fonts = [cid_font];
        assert(fonts@ =~= seq![cid_font]);
        write_items_entry(&mut self.dict, Name("DescendantFonts".as_bytes()), fonts.as_slice());
        self
    }
}

/// The `/CIDSystemInfo` entry of a font or character map, written after
/// `before` into a dictionary with indentation `indent`.
pub open spec fn system_info_entry_bytes(
    before: Seq<u8>,
    pretty: bool,
    indent: int,
    info: SystemInfo,
) -> Seq<u8> {
    let key = dict_key_bytes(pretty, indent, "CIDSystemInfo".spec_bytes());
    key + system_info_dict_bytes(
        before + key,
        pretty,
        nested_indent(indent as u8) as int,
        false,
        info.registry.0@,
        info.ordering.0@,
        info.supplement,
    )
}

impl CidFont<'_> {
    /// Write the `/CIDSystemInfo` dictionary. Required.
    pub fn system_info(&mut self, info: SystemInfo) -> (r: &mut Self)
        requires
            0 <= old(self).dict.len < i32::MAX,
            info.supplement != i32::MIN,
        ensures
            dict_grown(
                old(self).dict,
                r.dict,
                system_info_entry_bytes(
                    old(self).dict.buf@,
                    old(self).dict.settings.pretty,
                    old(self).dict.indent as int,
                    info,
                ),
                1,
            ),
            *final(r.dict.buf) == *final(old(self).dict.buf),
            *final(self) == *final(r),
    {
        let ghost before = self.dict.buf@;
        let ghost indent = self.dict.indent;
        let ghost pretty = self.dict.settings.pretty;
        let obj = self.dict.insert(Name("CIDSystemInfo".as_bytes()));
        let ghost key_end = obj.buf@;
        assert(nested_indent(indent) as int == (if obj.indent > 253 { 255 } else { obj.indent + 2 }));
        info.write(obj);
        assert(self.dict.buf@ =~= before + system_info_entry_bytes(before, pretty, indent as int, info)) by {
            assert(key_end == before + dict_key_bytes(pretty, indent as int, "CIDSystemInfo".spec_bytes()));
        }
        self
    }
}

impl Cmap<'_> {
    /// Write the `/CIDSystemInfo` attribute. Required.
    pub fn system_info(&mut self, info: SystemInfo) -> (r: &mut Self)
        requires
            0 <= old(self).stream.dict.len < i32::MAX,
            info.supplement != i32::MIN,
        ensures
            dict_grown(
                old(self).stream.dict,
                r.stream.dict,
                system_info_entry_bytes(
                    old(self).stream.dict.buf@,
                    old(self).stream.dict.settings.pretty,
                    old(self).stream.dict.indent as int,
                    info,
                ),
                1,
            ),
            r.stream.data == old(self).stream.data,
            *final(r.stream.dict.buf) == *final(old(self).stream.dict.buf),
            *final(self) == *final(r),
    {
        let ghost before = self.stream.dict.buf@;
        let ghost indent = self.stream.dict.indent;
        let ghost pretty = self.stream.dict.settings.pretty;
        let obj = self.stream.dict.insert(Name("CIDSystemInfo".as_bytes()));
        let ghost key_end = obj.buf@;
        assert(nested_indent(indent) as int == (if obj.indent > 253 { 255 } else { obj.indent + 2 }));
        info.write(obj);
        assert(self.stream.dict.buf@ =~= before + system_info_entry_bytes(before, pretty, indent as int, info)) by {
            assert(key_end == before + dict_key_bytes(pretty, indent as int, "CIDSystemInfo".spec_bytes()));
        }
        self
    }
}

impl Encoding<'_> {
    /// Start writing the `/Differences` array.
    pub fn differences(&mut self) -> (r: Differences<'_>)
        requires
            0 <= old(self).dict.len < i32::MAX,
        ensures
            array_started(
                r.array,
                old(self).dict.buf@ + dict_key_bytes(
                    old(self).dict.settings.pretty,
                    old(self).dict.indent as int,
                    "Differences".spec_bytes(),
                ),
                false,
                old(self).dict.indent,
                old(self).dict.settings,
            ),
            r.array.buf.spec_limits() == old(self).dict.buf.spec_limits().with_name_len("Differences".spec_bytes().len() as int),
            final(self).dict.len == old(self).dict.len + 1,
            final(self).dict.indirect == old(self).dict.indirect,
            final(self).dict.indent == old(self).dict.indent,
            final(self).dict.settings == old(self).dict.settings,
            *final(self).dict.buf == *final(r.array.buf),
            *final(final(self).dict.buf) == *final(old(self).dict.buf),
    {
        Differences::start(self.dict.insert(Name("Differences".as_bytes())))
    }
}

/// Writer for an _encoding differences array_.
///
/// This struct is created by [`Encoding::differences`].
pub struct Differences<'a> {
    /// The differences array being written.
    pub array: Array<'a>,
}

impl<'a> Differences<'a> {
    /// Start writing the array on an object.
    pub(crate) fn start(obj: Obj<'a>) -> (r: Self)
        ensures
            array_started(r.array, old(obj.buf)@, obj.indirect, obj.indent, obj.settings),
            *final(r.array.buf) == *final(obj.buf),
            r.array.buf.spec_limits() == old(obj.buf).spec_limits(),
    {
        Self { array: obj.array() }
    }

    /// Maps consecutive character codes starting at `start` to the given glyph
    /// names.
    pub fn consecutive(&mut self, start: u8, names: &[Name]) -> (r: &mut Self)
        requires
            0 <= old(self).array.len,
            old(self).array.len + 1 + names@.len() <= i32::MAX,
        ensures
            r.array.buf@ == old(self).array.buf@ + array_item_bytes(
                old(self).array.buf@,
                old(self).array.len as int,
                old(self).array.settings.pretty,
                start as i32,
            ) + array_items_bytes(
                old(self).array.buf@ + array_item_bytes(
                    old(self).array.buf@,
                    old(self).array.len as int,
                    old(self).array.settings.pretty,
                    start as i32,
                ),
                old(self).array.len + 1,
                old(self).array.settings.pretty,
                names@,
            ),
            r.array.len == old(self).array.len + 1 + names@.len(),
            r.array.indirect == old(self).array.indirect,
            r.array.indent == old(self).array.indent,
            r.array.settings == old(self).array.settings,
            *final(r.array.buf) == *final(old(self).array.buf),
            *final(self) == *final(r),
    {
        self.array.item(start as i32);
        assert(all_writable(names@));
        self.array.items(names);
        self
    }

    /// Finish the differences array.
    pub fn finish(self)
        requires
            self.array.len >= 0,
        ensures
            final(self.array.buf)@ == old(self.array.buf)@ + array_close_bytes(
                self.array.indirect,
                self.array.settings.pretty,
            ),
            final(self.array.buf).spec_limits() == old(self.array.buf).spec_limits().with_array_len(self.array.len as int),
    {
        self.array.finish();
    }
}

impl Type3Font<'_> {
    /// Start writing the `/CharProcs` dictionary, which maps glyph names to
    /// glyph content streams. Required.
    ///
    /// Each glyph's content stream must start with either the
    /// [`d0`](crate::Content::start_color_glyph) or
    /// [`d1`](crate::Content::start_shape_glyph) operator.
    pub fn char_procs(&mut self) -> (r: TypedDict<'_, Ref>)
        requires
            0 <= old(self).dict.len < i32::MAX,
        ensures
            dict_started(
                r.dict,
                old(self).dict.buf@ + dict_key_bytes(
                    old(self).dict.settings.pretty,
                    old(self).dict.indent as int,
                    "CharProcs".spec_bytes(),
                ),
                false,
                old(self).dict.indent,
                old(self).dict.settings,
                None,
                None,
            ),
            r.dict.buf.spec_limits() == old(self).dict.buf.spec_limits().with_name_len("CharProcs".spec_bytes().len() as int),
            final(self).dict.len == old(self).dict.len + 1,
            final(self).dict.indirect == old(self).dict.indirect,
            final(self).dict.indent == old(self).dict.indent,
            final(self).dict.settings == old(self).dict.settings,
            *final(self).dict.buf == *final(r.dict.buf),
            *final(final(self).dict.buf) == *final(old(self).dict.buf),
    {
        start_dict(self.dict.insert(Name("CharProcs".as_bytes())), None, None).typed()
    }
}

impl FontDescriptorOverride<'_> {
    /// Start writing a `FontDescriptor` dictionary for a custom character
    /// class.
    pub fn custom_class(&mut self, class: Name) -> (r: FontDescriptor<'_>)
        requires
            0 <= old(self).dict.len < i32::MAX,
        ensures
            dict_started(
                r.dict,
                old(self).dict.buf@ + dict_key_bytes(
                    old(self).dict.settings.pretty,
                    old(self).dict.indent as int,
                    class.0@,
                ),
                false,
                old(self).dict.indent,
                old(self).dict.settings,
                Some("FontDescriptor".spec_bytes()),
                None,
            ),
            r.dict.buf.spec_limits() == dict_start_limits(
                old(self).dict.buf.spec_limits().with_name_len(class.0@.len() as int),
                Some("FontDescriptor".spec_bytes()),
                None,
            ),
            final(self).dict.len == old(self).dict.len + 1,
            final(self).dict.indirect == old(self).dict.indirect,
            final(self).dict.indent == old(self).dict.indent,
            final(self).dict.settings == old(self).dict.settings,
            *final(self).dict.buf == *final(r.dict.buf),
            *final(final(self).dict.buf) == *final(old(self).dict.buf),
    {
        FontDescriptor::start(self.dict.insert(class))
    }

    /// Write a class override referencing a `FontDescriptor` dictionary
    /// indirectly.
    pub fn custom_class_ref(&mut self, class: Name, id: Ref) -> (r: &mut Self)
        requires
            0 <= old(self).dict.len < i32::MAX,
        ensures
            dict_pair_appended(old(self).dict, r.dict, class.0@, id),
            *final(r.dict.buf) == *final(old(self).dict.buf),
            *final(self) == *final(r),
    {
        self.dict.pair(class, id);
        self
    }

    /// Start writing a `FontDescriptor` dictionary for a predefined CJK class.
    pub fn cjk_class(&mut self, class: CjkClass) -> (r: FontDescriptor<'_>)
        requires
            0 <= old(self).dict.len < i32::MAX,
        ensures
            dict_started(
                r.dict,
                old(self).dict.buf@ + dict_key_bytes(
                    old(self).dict.settings.pretty,
                    old(self).dict.indent as int,
                    class.spec_name(),
                ),
                false,
                old(self).dict.indent,
                old(self).dict.settings,
                Some("FontDescriptor".spec_bytes()),
                None,
            ),
            r.dict.buf.spec_limits() == dict_start_limits(
                old(self).dict.buf.spec_limits().with_name_len(class.spec_name().len() as int),
                Some("FontDescriptor".spec_bytes()),
                None,
            ),
            final(self).dict.len == old(self).dict.len + 1,
            final(self).dict.indirect == old(self).dict.indirect,
            final(self).dict.indent == old(self).dict.indent,
            final(self).dict.settings == old(self).dict.settings,
            *final(self).dict.buf == *final(r.dict.buf),
            *final(final(self).dict.buf) == *final(old(self).dict.buf),
    {
        FontDescriptor::start(self.dict.insert(class.to_name()))
    }

    /// Write a class override for a predefined CJK class referencing a
    /// `FontDescriptor` dictionary indirectly.
    pub fn cjk_class_ref(&mut self, class: CjkClass, id: Ref) -> (r: &mut Self)
        requires
            0 <= old(self).dict.len < i32::MAX,
        ensures
            dict_pair_appended(old(self).dict, r.dict, class.spec_name(), id),
            *final(r.dict.buf) == *final(old(self).dict.buf),
            *final(self) == *final(r),
    {
        self.dict.pair(class.to_name(), id);
        self
    }
}

/// Attributes with real-number values.
impl Type1Font<'_> {
    /// Write the `/Widths` array. Should be of length `last - first + 1`.
    /// Required (except for standard 14 fonts before PDF 1.5).
    pub fn widths(&mut self, widths: &[Real]) -> (r: &mut Self)
        requires
            0 <= old(self).dict.len < i32::MAX,
            widths@.len() <= i32::MAX,
            all_writable(widths@),
        ensures
            dict_items_appended(old(self).dict, r.dict, "Widths".spec_bytes(), widths@),
            *final(r.dict.buf) == *final(old(self).dict.buf),
            *final(self) == *final(r),
    {
        write_items_entry(&mut self.dict, Name("Widths".as_bytes()), widths);
        self
    }
}

/// Attributes with real-number values.
impl Type3Font<'_> {
    /// Write the `/FontBBox` attribute. Required.
    pub fn bbox(&mut self, bbox: Rect) -> (r: &mut Self)
        requires
            0 <= old(self).dict.len < i32::MAX,
            bbox.spec_writable(),
        ensures
            dict_pair_appended(old(self).dict, r.dict, "FontBBox".spec_bytes(), bbox),
            *final(r.dict.buf) == *final(old(self).dict.buf),
            *final(self) == *final(r),
    {
        self.dict.pair(Name("FontBBox".as_bytes()), bbox);
        self
    }

    /// Write the `/FontMatrix` attribute, which defines the mapping from glyph
    /// space to text space. Required.
    pub fn matrix(&mut self, matrix: [Real; 6]) -> (r: &mut Self)
        requires
            0 <= old(self).dict.len < i32::MAX,
            all_writable(matrix@),
        ensures
            dict_items_appended(old(self).dict, r.dict, "FontMatrix".spec_bytes(), matrix@),
            *final(r.dict.buf) == *final(old(self).dict.buf),
            *final(self) == *final(r),
    {
        write_items_entry(&mut self.dict, Name("FontMatrix".as_bytes()), matrix.as_slice());
        self
    }

    /// Write the `/Widths` array. Should be of length `last - first + 1`.
    /// Required.
    pub fn widths(&mut self, widths: &[Real]) -> (r: &mut Self)
        requires
            0 <= old(self).dict.len < i32::MAX,
            widths@.len() <= i32::MAX,
            all_writable(widths@),
        ensures
            dict_items_appended(old(self).dict, r.dict, "Widths".spec_bytes(), widths@),
            *final(r.dict.buf) == *final(old(self).dict.buf),
            *final(self) == *final(r),
    {
        write_items_entry(&mut self.dict, Name("Widths".as_bytes()), widths);
        self
    }
}

/// Attributes with real-number values.
impl CidFont<'_> {
    /// Write the `/DW` attribute, specifying the default glyph width.
    pub fn default_width(&mut self, width: Real) -> (r: &mut Self)
        requires
            0 <= old(self).dict.len < i32::MAX,
            width.spec_writable(),
        ensures
            dict_pair_appended(old(self).dict, r.dict, "DW".spec_bytes(), width),
            *final(r.dict.buf) == *final(old(self).dict.buf),
            *final(self) == *final(r),
    {
        self.dict.pair(Name("DW".as_bytes()), width);
        self
    }
}

/// Attributes with real-number values.
impl FontDescriptor<'_> {
    /// Write the `/FontBBox` attribute. Required, except for Type 3 fonts.
    pub fn bbox(&mut self, bbox: Rect) -> (r: &mut Self)
        requires
            0 <= old(self).dict.len < i32::MAX,
            bbox.spec_writable(),
        ensures
            dict_pair_appended(old(self).dict, r.dict, "FontBBox".spec_bytes(), bbox),
            *final(r.dict.buf) == *final(old(self).dict.buf),
            *final(self) == *final(r),
    {
        self.dict.pair(Name("FontBBox".as_bytes()), bbox);
        self
    }

    /// Write the `/ItalicAngle` attribute. Required.
    pub fn italic_angle(&mut self, angle: Real) -> (r: &mut Self)
        requires
            0 <= old(self).dict.len < i32::MAX,
            angle.spec_writable(),
        ensures
            dict_pair_appended(old(self).dict, r.dict, "ItalicAngle".spec_bytes(), angle),
            *final(r.dict.buf) == *final(old(self).dict.buf),
            *final(self) == *final(r),
    {
        self.dict.pair(Name("ItalicAngle".as_bytes()), angle);
        self
    }

    /// Write the `/Ascent` attribute. Required.
    pub fn ascent(&mut self, ascent: Real) -> (r: &mut Self)
        requires
            0 <= old(self).dict.len < i32::MAX,
            ascent.spec_writable(),
        ensures
            dict_pair_appended(old(self).dict, r.dict, "Ascent".spec_bytes(), ascent),
            *final(r.dict.buf) == *final(old(self).dict.buf),
            *final(self) == *final(r),
    {
        self.dict.pair(Name("Ascent".as_bytes()), ascent);
        self
    }

    /// Write the `/Descent` attribute. Required.
    pub fn descent(&mut self, descent: Real) -> (r: &mut Self)
        requires
            0 <= old(self).dict.len < i32::MAX,
            descent.spec_writable(),
        ensures
            dict_pair_appended(old(self).dict, r.dict, "Descent".spec_bytes(), descent),
            *final(r.dict.buf) == *final(old(self).dict.buf),
            *final(self) == *final(r),
    {
        self.dict.pair(Name("Descent".as_bytes()), descent);
        self
    }

    /// Write the `/Leading` attribute.
    pub fn leading(&mut self, leading: Real) -> (r: &mut Self)
        requires
            0 <= old(self).dict.len < i32::MAX,
            leading.spec_writable(),
        ensures
            dict_pair_appended(old(self).dict, r.dict, "Leading".spec_bytes(), leading),
            *final(r.dict.buf) == *final(old(self).dict.buf),
            *final(self) == *final(r),
    {
        self.dict.pair(Name("Leading".as_bytes()), leading);
        self
    }

    /// Write the `/CapHeight` attribute. Required for fonts with Latin
    /// characters, except for Type 3 fonts.
    pub fn cap_height(&mut self, cap_height: Real) -> (r: &mut Self)
        requires
            0 <= old(self).dict.len < i32::MAX,
            cap_height.spec_writable(),
        ensures
            dict_pair_appended(old(self).dict, r.dict, "CapHeight".spec_bytes(), cap_height),
            *final(r.dict.buf) == *final(old(self).dict.buf),
            *final(self) == *final(r),
    {
        self.dict.pair(Name("CapHeight".as_bytes()), cap_height);
        self
    }

    /// Write the `/XHeight` attribute.
    pub fn x_height(&mut self, x_height: Real) -> (r: &mut Self)
        requires
            0 <= old(self).dict.len < i32::MAX,
            x_height.spec_writable(),
        ensures
            dict_pair_appended(old(self).dict, r.dict, "XHeight".spec_bytes(), x_height),
            *final(r.dict.buf) == *final(old(self).dict.buf),
            *final(self) == *final(r),
    {
        self.dict.pair(Name("XHeight".as_bytes()), x_height);
        self
    }

    /// Write the `/StemV` attribute. Required, except for Type 3 fonts.
    pub fn stem_v(&mut self, stem_v: Real) -> (r: &mut Self)
        requires
            0 <= old(self).dict.len < i32::MAX,
            stem_v.spec_writable(),
        ensures
            dict_pair_appended(old(self).dict, r.dict, "StemV".spec_bytes(), stem_v),
            *final(r.dict.buf) == *final(old(self).dict.buf),
            *final(self) == *final(r),
    {
        self.dict.pair(Name("StemV".as_bytes()), stem_v);
        self
    }

    /// Write the `/StemH` attribute.
    pub fn stem_h(&mut self, stem_h: Real) -> (r: &mut Self)
        requires
            0 <= old(self).dict.len < i32::MAX,
            stem_h.spec_writable(),
        ensures
            dict_pair_appended(old(self).dict, r.dict, "StemH".spec_bytes(), stem_h),
            *final(r.dict.buf) == *final(old(self).dict.buf),
            *final(self) == *final(r),
    {
        self.dict.pair(Name("StemH".as_bytes()), stem_h);
        self
    }

    /// Write the `/AvgWidth` attribute.
    pub fn avg_width(&mut self, avg_width: Real) -> (r: &mut Self)
        requires
            0 <= old(self).dict.len < i32::MAX,
            avg_width.spec_writable(),
        ensures
            dict_pair_appended(old(self).dict, r.dict, "AvgWidth".spec_bytes(), avg_width),
            *final(r.dict.buf) == *final(old(self).dict.buf),
            *final(self) == *final(r),
    {
        self.dict.pair(Name("AvgWidth".as_bytes()), avg_width);
        self
    }

    /// Write the `/MaxWidth` attribute.
    pub fn max_width(&mut self, max_width: Real) -> (r: &mut Self)
        requires
            0 <= old(self).dict.len < i32::MAX,
            max_width.spec_writable(),
        ensures
            dict_pair_appended(old(self).dict, r.dict, "MaxWidth".spec_bytes(), max_width),
            *final(r.dict.buf) == *final(old(self).dict.buf),
            *final(self) == *final(r),
    {
        self.dict.pair(Name("MaxWidth".as_bytes()), max_width);
        self
    }

    /// Write the `/MissingWidth` attribute.
    pub fn missing_width(&mut self, missing_width: Real) -> (r: &mut Self)
        requires
            0 <= old(self).dict.len < i32::MAX,
            missing_width.spec_writable(),
        ensures
            dict_pair_appended(old(self).dict, r.dict, "MissingWidth".spec_bytes(), missing_width),
            *final(r.dict.buf) == *final(old(self).dict.buf),
            *final(self) == *final(r),
    {
        self.dict.pair(Name("MissingWidth".as_bytes()), missing_width);
        self
    }
}

impl CidFont<'_> {
    /// Start writing the `/W` (widths) array.
    pub fn widths(&mut self) -> (r: Widths<'_>)
        requires
            0 <= old(self).dict.len < i32::MAX,
        ensures
            array_started(
                r.array,
                old(self).dict.buf@ + dict_key_bytes(
                    old(self).dict.settings.pretty,
                    old(self).dict.indent as int,
                    "W".spec_bytes(),
                ),
                false,
                old(self).dict.indent,
                old(self).dict.settings,
            ),
            r.array.buf.spec_limits() == old(self).dict.buf.spec_limits().with_name_len("W".spec_bytes().len() as int),
            final(self).dict.len == old(self).dict.len + 1,
            final(self).dict.indirect == old(self).dict.indirect,
            final(self).dict.indent == old(self).dict.indent,
            final(self).dict.settings == old(self).dict.settings,
            *final(self).dict.buf == *final(r.array.buf),
            *final(final(self).dict.buf) == *final(old(self).dict.buf),
    {
        Widths::start(self.dict.insert(Name("W".as_bytes())))
    }
}

/// Writer for a _CID font widths array_.
///
/// This struct is created by [`CidFont::widths`].
pub struct Widths<'a> {
    /// The widths array being written.
    pub array: Array<'a>,
}

impl<'a> Widths<'a> {
    /// Start writing the array on an object.
    pub(crate) fn start(obj: Obj<'a>) -> (r: Self)
        ensures
            array_started(r.array, old(obj.buf)@, obj.indirect, obj.indent, obj.settings),
            *final(r.array.buf) == *final(obj.buf),
            r.array.buf.spec_limits() == old(obj.buf).spec_limits(),
    {
        Self { array: obj.array() }
    }

    /// Specifies individual widths for a range of consecutive CIDs starting at
    /// `start`.
    pub fn consecutive(&mut self, start: u16, widths: &[Real]) -> (r: &mut Self)
        requires
            0 <= old(self).array.len,
            old(self).array.len + 2 <= i32::MAX,
            widths@.len() <= i32::MAX,
            all_writable(widths@),
        ensures
            r.array.buf@ == old(self).array.buf@ + consecutive_widths_bytes(
                old(self).array.buf@,
                old(self).array.len as int,
                old(self).array.settings.pretty,
                start,
                widths@,
            ),
            r.array.len == old(self).array.len + 2,
            r.array.indirect == old(self).array.indirect,
            r.array.indent == old(self).array.indent,
            r.array.settings == old(self).array.settings,
            *final(r.array.buf) == *final(old(self).array.buf),
            *final(self) == *final(r),
    {
        let ghost before = self.array.buf@;
        let ghost pretty = self.array.settings.pretty;
        let ghost len = self.array.len as int;
        self.array.item(start as i32);
        let ghost first = array_item_bytes(before, len, pretty, start as i32);
        let mut inner = self.array.push().array();
        assert(inner.buf@ =~= before + first + array_separator(len + 1, pretty) + seq![LBRACKET]);
        inner.items(widths);
        inner.finish();
        assert(self.array.buf@ =~= before + consecutive_widths_bytes(before, len, pretty, start, widths@));
        self
    }

    /// Specifies the same width for all CIDs between `first` and `last`.
    pub fn same(&mut self, first: u16, last: u16, width: Real) -> (r: &mut Self)
        requires
            0 <= old(self).array.len,
            old(self).array.len + 3 <= i32::MAX,
            width.spec_writable(),
        ensures
            r.array.buf@ == old(self).array.buf@ + array_tokens_bytes(
                old(self).array.buf@,
                old(self).array.len as int,
                old(self).array.settings.pretty,
                seq![token(first as i32), token(last as i32), token(width)],
            ),
            r.array.len == old(self).array.len + 3,
            r.array.indirect == old(self).array.indirect,
            r.array.indent == old(self).array.indent,
            r.array.settings == old(self).array.settings,
            *final(r.array.buf) == *final(old(self).array.buf),
            *final(self) == *final(r),
    {
        let ghost start = self.array.buf@;
        let ghost pretty = self.array.settings.pretty;
        let ghost len0 = self.array.len as int;
        assert(array_tokens_bytes(start, len0, pretty, Seq::empty()) =~= Seq::<u8>::empty());
        push_token_item(&mut self.array, first as i32, Ghost(start), Ghost(len0), Ghost(Seq::empty()));
        let ghost t1 = seq![token(first as i32)];
        assert(Seq::empty().push(token(first as i32)) =~= t1);
        push_token_item(&mut self.array, last as i32, Ghost(start), Ghost(len0), Ghost(t1));
        let ghost t2 = seq![token(first as i32), token(last as i32)];
        assert(t1.push(token(last as i32)) =~= t2);
        push_token_item(&mut self.array, width, Ghost(start), Ghost(len0), Ghost(t2));
        assert(t2.push(token(width)) =~= seq![token(first as i32), token(last as i32), token(width)]);
        self
    }

    /// Finish the widths array.
    pub fn finish(self)
        requires
            self.array.len >= 0,
        ensures
            final(self.array.buf)@ == old(self.array.buf)@ + array_close_bytes(
                self.array.indirect,
                self.array.settings.pretty,
            ),
            final(self.array.buf).spec_limits() == old(self.array.buf).spec_limits().with_array_len(self.array.len as int),
    {
        self.array.finish();
    }
}

/// The bytes of a range of individual widths in a widths array holding `len`
/// items: the first CID, then the array of widths.
pub open spec fn consecutive_widths_bytes(
    before: Seq<u8>,
    len: int,
    pretty: bool,
    start: u16,
    widths: Seq<Real>,
) -> Seq<u8> {
    let first = array_item_bytes(before, len, pretty, start as i32);
    let sep = array_separator(len + 1, pretty);
    first + sep + seq![LBRACKET] + array_items_bytes(before + first + sep + seq![LBRACKET], 0, pretty, widths)
        + array_close_bytes(false, pretty)
}

/// The `/Style` entry of a font descriptor: a dictionary holding the class,
/// the subclass and the Panose classification as a byte string.
pub open spec fn style_entry_bytes(
    before: Seq<u8>,
    pretty: bool,
    indent: int,
    class: u8,
    subclass: u8,
    panose: Seq<u8>,
) -> Seq<u8> {
    nested_dict_entry_bytes(
        before,
        pretty,
        indent,
        "Style".spec_bytes(),
        seq![("Panose".spec_bytes(), (str_encoding(seq![class, subclass] + panose), true))],
    )
}

impl FontDescriptor<'_> {
    /// Write the `/Style` attribute. Optional.
    ///
    /// The class and subclass values should be extracted from the
    /// `sFamilyClass` field of the OS/2 table. The `panose` array should be
    /// extracted from the `panose` field of the OS/2 table.
    pub fn style(&mut self, class: u8, subclass: u8, panose: [u8; 10]) -> (r: &mut Self)
        requires
            0 <= old(self).dict.len < i32::MAX,
        ensures
            dict_grown(
                old(self).dict,
                r.dict,
                style_entry_bytes(
                    old(self).dict.buf@,
                    old(self).dict.settings.pretty,
                    old(self).dict.indent as int,
                    class,
                    subclass,
                    panose@,
                ),
                1,
            ),
            *final(r.dict.buf) == *final(old(self).dict.buf),
            *final(self) == *final(r),
    {
        let mut bytes: Vec<u8> = Vec::new();
        bytes.push(class);
        bytes.push(subclass);
        let mut i: usize = 0;
        while i < 10
            invariant
                i <= 10,
                bytes@ == seq![class, subclass] + panose@.take(i as int),
            decreases 10 - i,
        {
            bytes.push(panose[i]);
            assert(panose@.take(i + 1) =~= panose@.take(i as int).push(panose@[i as int]));
            i = i + 1;
        }
        assert(panose@.take(10) =~= panose@);
        let ghost before = self.dict.buf@;
        let ghost pretty = self.dict.settings.pretty;
        let ghost e0 = ("Panose".spec_bytes(), (str_encoding(seq![class, subclass] + panose@), true));
        let mut d = self.dict.insert(Name("Style".as_bytes())).dict();
        let ghost open = d.buf@;
        d.pair(Name("Panose".as_bytes()), Str(bytes.as_slice()));
        proof {
            lemma_entries_push(open, pretty, d.indent as int, Seq::empty(), e0);
            assert(Seq::empty().push(e0) =~= seq![e0]);
        }
        assert(d.buf@ =~= open + dict_entries_bytes(open, pretty, d.indent as int, seq![e0]));
        d.finish();
        assert(self.dict.buf@ =~= before + style_entry_bytes(
            before,
            pretty,
            self.dict.indent as int,
            class,
            subclass,
            panose@,
        ));
        self
    }
}

// ---------------------------------------------------------------------------
// Writers.
// ---------------------------------------------------------------------------

/// Writer for a _Type-1 font dictionary_.
///
/// This struct is created by [`Chunk::type1_font`].
pub struct Type1Font<'a> {
    /// The underlying dictionary.
    pub dict: Dict<'a>,
}

impl<'a> Type1Font<'a> {
    /// Start writing the dictionary on an object.
    pub(crate) fn start(obj: Obj<'a>) -> (r: Self)
        ensures
            dict_started(
                r.dict,
                old(obj.buf)@,
                obj.indirect,
                obj.indent,
                obj.settings,
                Some("Font".spec_bytes()),
                Some("Type1".spec_bytes()),
            ),
            r.dict.buf.spec_limits() == dict_start_limits(old(obj.buf).spec_limits(), Some("Font".spec_bytes()), Some("Type1".spec_bytes())),
            *final(r.dict.buf) == *final(obj.buf),
    {
        Self { dict: start_dict(obj, Some("Font"), Some("Type1")) }
    }

    /// Write the `/Name` attribute, which is the name of the font in the
    /// current resource dictionary. Required in PDF 1.0, discouraged in PDF
    /// 1.1+.
    pub fn name(&mut self, name: Name) -> (r: &mut Self)
        requires
            0 <= old(self).dict.len < i32::MAX,
        ensures
            dict_pair_appended(old(self).dict, r.dict, "Name".spec_bytes(), name),
            *final(r.dict.buf) == *final(old(self).dict.buf),
            *final(self) == *final(r),
    {
        self.dict.pair(Name("Name".as_bytes()), name);
        self
    }

    /// Write the `/BaseFont` attribute. This is the PostScript name of the
    /// font. Required.
    ///
    /// In PDF/A files, the standard 14 fonts are unavailable, so you must
    /// embed the font data.
    pub fn base_font(&mut self, name: Name) -> (r: &mut Self)
        requires
            0 <= old(self).dict.len < i32::MAX,
        ensures
            dict_pair_appended(old(self).dict, r.dict, "BaseFont".spec_bytes(), name),
            *final(r.dict.buf) == *final(old(self).dict.buf),
            *final(self) == *final(r),
    {
        self.dict.pair(Name("BaseFont".as_bytes()), name);
        self
    }

    /// Write the `FirstChar` attribute, defining the first character code in
    /// the font's widths array. Required (except for standard 14 fonts
    /// before PDF 1.5).
    pub fn first_char(&mut self, first: u8) -> (r: &mut Self)
        requires
            0 <= old(self).dict.len < i32::MAX,
        ensures
            dict_pair_appended(old(self).dict, r.dict, "FirstChar".spec_bytes(), first as i32),
            *final(r.dict.buf) == *final(old(self).dict.buf),
            *final(self) == *final(r),
    {
        self.dict.pair(Name("FirstChar".as_bytes()), first as i32);
        self
    }

    /// Write the `LastChar` attribute, defining the last character code in the
    /// font's widths array. Required (except for standard 14 fonts before
    /// PDF 1.5).
    pub fn last_char(&mut self, last: u8) -> (r: &mut Self)
        requires
            0 <= old(self).dict.len < i32::MAX,
        ensures
            dict_pair_appended(old(self).dict, r.dict, "LastChar".spec_bytes(), last as i32),
            *final(r.dict.buf) == *final(old(self).dict.buf),
            *final(self) == *final(r),
    {
        self.dict.pair(Name("LastChar".as_bytes()), last as i32);
        self
    }

    /// Write the `/FontDescriptor` attribute. Required (except for standard 14
    /// fonts before PDF 1.5).
    pub fn font_descriptor(&mut self, id: Ref) -> (r: &mut Self)
        requires
            0 <= old(self).dict.len < i32::MAX,
        ensures
            dict_pair_appended(old(self).dict, r.dict, "FontDescriptor".spec_bytes(), id),
            *final(r.dict.buf) == *final(old(self).dict.buf),
            *final(self) == *final(r),
    {
        self.dict.pair(Name("FontDescriptor".as_bytes()), id);
        self
    }

    /// Write the `/Encoding` attribute as a predefined encoding. Either this or
    /// [`encoding_custom`](Self::encoding_custom) is required.
    pub fn encoding_predefined(&mut self, encoding: Name) -> (r: &mut Self)
        requires
            0 <= old(self).dict.len < i32::MAX,
        ensures
            dict_pair_appended(old(self).dict, r.dict, "Encoding".spec_bytes(), encoding),
            *final(r.dict.buf) == *final(old(self).dict.buf),
            *final(self) == *final(r),
    {
        self.dict.pair(Name("Encoding".as_bytes()), encoding);
        self
    }

    /// Start writing an `/Encoding` dictionary. Either this or
    /// [`encoding_predefined`](Self::encoding_predefined) is required.
    pub fn encoding_custom(&mut self) -> (r: Encoding<'_>)
        requires
            0 <= old(self).dict.len < i32::MAX,
        ensures
            dict_started(
                r.dict,
                old(self).dict.buf@ + dict_key_bytes(
                    old(self).dict.settings.pretty,
                    old(self).dict.indent as int,
                    "Encoding".spec_bytes(),
                ),
                false,
                old(self).dict.indent,
                old(self).dict.settings,
                Some("Encoding".spec_bytes()),
                None,
            ),
            r.dict.buf.spec_limits() == dict_start_limits(
                old(self).dict.buf.spec_limits().with_name_len("Encoding".spec_bytes().len() as int),
                Some("Encoding".spec_bytes()),
                None,
            ),
            final(self).dict.len == old(self).dict.len + 1,
            final(self).dict.indirect == old(self).dict.indirect,
            final(self).dict.indent == old(self).dict.indent,
            final(self).dict.settings == old(self).dict.settings,
            *final(self).dict.buf == *final(r.dict.buf),
            *final(final(self).dict.buf) == *final(old(self).dict.buf),
    {
        Encoding::start(self.dict.insert(Name("Encoding".as_bytes())))
    }

    /// Write the `/ToUnicode` attribute. PDF 1.2+.
    ///
    /// A suitable character map can be built with [`UnicodeCmap`].
    pub fn to_unicode(&mut self, id: Ref) -> (r: &mut Self)
        requires
            0 <= old(self).dict.len < i32::MAX,
        ensures
            dict_pair_appended(old(self).dict, r.dict, "ToUnicode".spec_bytes(), id),
            *final(r.dict.buf) == *final(old(self).dict.buf),
            *final(self) == *final(r),
    {
        self.dict.pair(Name("ToUnicode".as_bytes()), id);
        self
    }

    /// Finish writing the dictionary.
    pub fn finish(self)
        requires
            self.dict.len >= 0,
            self.dict.indent >= 2,
        ensures
            final(self.dict.buf)@ == old(self.dict.buf)@ + dict_close_bytes(
                self.dict.len as int,
                self.dict.settings.pretty,
                self.dict.indent as int,
                self.dict.indirect,
            ),
            final(self.dict.buf).spec_limits() == old(self.dict.buf).spec_limits().with_dict_entries(self.dict.len as int),
    {
        self.dict.finish();
    }
}

/// Writer for a _Type-3 font dictionary_.
///
/// This struct is created by [`Chunk::type3_font`].
pub struct Type3Font<'a> {
    /// The underlying dictionary.
    pub dict: Dict<'a>,
}

impl<'a> Type3Font<'a> {
    /// Start writing the dictionary on an object.
    pub(crate) fn start(obj: Obj<'a>) -> (r: Self)
        ensures
            dict_started(
                r.dict,
                old(obj.buf)@,
                obj.indirect,
                obj.indent,
                obj.settings,
                Some("Font".spec_bytes()),
                Some("Type3".spec_bytes()),
            ),
            r.dict.buf.spec_limits() == dict_start_limits(old(obj.buf).spec_limits(), Some("Font".spec_bytes()), Some("Type3".spec_bytes())),
            *final(r.dict.buf) == *final(obj.buf),
    {
        Self { dict: start_dict(obj, Some("Font"), Some("Type3")) }
    }

    /// Write the `/Name` attribute, which is the name of the font in the
    /// current resource dictionary. Always required in PDF 1.0, required if
    /// `FontName` is set in child font descriptor.
    pub fn name(&mut self, name: Name) -> (r: &mut Self)
        requires
            0 <= old(self).dict.len < i32::MAX,
        ensures
            dict_pair_appended(old(self).dict, r.dict, "Name".spec_bytes(), name),
            *final(r.dict.buf) == *final(old(self).dict.buf),
            *final(self) == *final(r),
    {
        self.dict.pair(Name("Name".as_bytes()), name);
        self
    }

    /// Write the `/Encoding` attribute as a predefined encoding. Either this or
    /// [`encoding_custom`](Self::encoding_custom) is required.
    pub fn encoding_predefined(&mut self, encoding: Name) -> (r: &mut Self)
        requires
            0 <= old(self).dict.len < i32::MAX,
        ensures
            dict_pair_appended(old(self).dict, r.dict, "Encoding".spec_bytes(), encoding),
            *final(r.dict.buf) == *final(old(self).dict.buf),
            *final(self) == *final(r),
    {
        self.dict.pair(Name("Encoding".as_bytes()), encoding);
        self
    }

    /// Start writing an `/Encoding` dictionary. Either this or
    /// [`encoding_predefined`](Self::encoding_predefined) is required.
    pub fn encoding_custom(&mut self) -> (r: Encoding<'_>)
        requires
            0 <= old(self).dict.len < i32::MAX,
        ensures
            dict_started(
                r.dict,
                old(self).dict.buf@ + dict_key_bytes(
                    old(self).dict.settings.pretty,
                    old(self).dict.indent as int,
                    "Encoding".spec_bytes(),
                ),
                false,
                old(self).dict.indent,
                old(self).dict.settings,
                Some("Encoding".spec_bytes()),
                None,
            ),
            r.dict.buf.spec_limits() == dict_start_limits(
                old(self).dict.buf.spec_limits().with_name_len("Encoding".spec_bytes().len() as int),
                Some("Encoding".spec_bytes()),
                None,
            ),
            final(self).dict.len == old(self).dict.len + 1,
            final(self).dict.indirect == old(self).dict.indirect,
            final(self).dict.indent == old(self).dict.indent,
            final(self).dict.settings == old(self).dict.settings,
            *final(self).dict.buf == *final(r.dict.buf),
            *final(final(self).dict.buf) == *final(old(self).dict.buf),
    {
        Encoding::start(self.dict.insert(Name("Encoding".as_bytes())))
    }

    /// Write the `FirstChar` attribute, defining the first character code in
    /// the font's widths array. Required.
    pub fn first_char(&mut self, first: u8) -> (r: &mut Self)
        requires
            0 <= old(self).dict.len < i32::MAX,
        ensures
            dict_pair_appended(old(self).dict, r.dict, "FirstChar".spec_bytes(), first as i32),
            *final(r.dict.buf) == *final(old(self).dict.buf),
            *final(self) == *final(r),
    {
        self.dict.pair(Name("FirstChar".as_bytes()), first as i32);
        self
    }

    /// Write the `LastChar` attribute, defining the last character code in the
    /// font's widths array. Required.
    pub fn last_char(&mut self, last: u8) -> (r: &mut Self)
        requires
            0 <= old(self).dict.len < i32::MAX,
        ensures
            dict_pair_appended(old(self).dict, r.dict, "LastChar".spec_bytes(), last as i32),
            *final(r.dict.buf) == *final(old(self).dict.buf),
            *final(self) == *final(r),
    {
        self.dict.pair(Name("LastChar".as_bytes()), last as i32);
        self
    }

    /// Write the `/FontDescriptor` attribute. Required in Tagged PDFs.
    pub fn font_descriptor(&mut self, id: Ref) -> (r: &mut Self)
        requires
            0 <= old(self).dict.len < i32::MAX,
        ensures
            dict_pair_appended(old(self).dict, r.dict, "FontDescriptor".spec_bytes(), id),
            *final(r.dict.buf) == *final(old(self).dict.buf),
            *final(self) == *final(r),
    {
        self.dict.pair(Name("FontDescriptor".as_bytes()), id);
        self
    }

    /// Start writing the `/Resources` dictionary.
    pub fn resources(&mut self) -> (r: Resources<'_>)
        requires
            0 <= old(self).dict.len < i32::MAX,
        ensures
            dict_started(
                r.dict,
                old(self).dict.buf@ + dict_key_bytes(
                    old(self).dict.settings.pretty,
                    old(self).dict.indent as int,
                    "Resources".spec_bytes(),
                ),
                false,
                old(self).dict.indent,
                old(self).dict.settings,
                None,
                None,
            ),
            r.dict.buf.spec_limits() == dict_start_limits(
                old(self).dict.buf.spec_limits().with_name_len("Resources".spec_bytes().len() as int),
                None,
                None,
            ),
            final(self).dict.len == old(self).dict.len + 1,
            final(self).dict.indirect == old(self).dict.indirect,
            final(self).dict.indent == old(self).dict.indent,
            final(self).dict.settings == old(self).dict.settings,
            *final(self).dict.buf == *final(r.dict.buf),
            *final(final(self).dict.buf) == *final(old(self).dict.buf),
    {
        Resources::start(self.dict.insert(Name("Resources".as_bytes())))
    }

    /// Write the `/ToUnicode` attribute. PDF 1.2+.
    ///
    /// A suitable character map can be built with [`UnicodeCmap`].
    ///
    /// This attribute is required in some profiles of PDF/A-2, PDF/A-3, and
    /// PDF/A-4 for some fonts. When present, these standards require that no
    /// character may be mapped to `0`, `U+FEFF`, or `U+FFFE`.
    pub fn to_unicode(&mut self, id: Ref) -> (r: &mut Self)
        requires
            0 <= old(self).dict.len < i32::MAX,
        ensures
            dict_pair_appended(old(self).dict, r.dict, "ToUnicode".spec_bytes(), id),
            *final(r.dict.buf) == *final(old(self).dict.buf),
            *final(self) == *final(r),
    {
        self.dict.pair(Name("ToUnicode".as_bytes()), id);
        self
    }

    /// Finish writing the dictionary.
    pub fn finish(self)
        requires
            self.dict.len >= 0,
            self.dict.indent >= 2,
        ensures
            final(self.dict.buf)@ == old(self.dict.buf)@ + dict_close_bytes(
                self.dict.len as int,
                self.dict.settings.pretty,
                self.dict.indent as int,
                self.dict.indirect,
            ),
            final(self.dict.buf).spec_limits() == old(self.dict.buf).spec_limits().with_dict_entries(self.dict.len as int),
    {
        self.dict.finish();
    }
}

/// Writer for a _simple font encoding dictionary_.
///
/// This struct is created by [`Type1Font::encoding_custom`] and
/// [`Type3Font::encoding_custom`].
pub struct Encoding<'a> {
    /// The underlying dictionary.
    pub dict: Dict<'a>,
}

impl<'a> Encoding<'a> {
    /// Start writing the dictionary on an object.
    pub(crate) fn start(obj: Obj<'a>) -> (r: Self)
        ensures
            dict_started(
                r.dict,
                old(obj.buf)@,
                obj.indirect,
                obj.indent,
                obj.settings,
                Some("Encoding".spec_bytes()),
                None,
            ),
            r.dict.buf.spec_limits() == dict_start_limits(old(obj.buf).spec_limits(), Some("Encoding".spec_bytes()), None),
            *final(r.dict.buf) == *final(obj.buf),
    {
        Self { dict: start_dict(obj, Some("Encoding"), None) }
    }

    /// Write the `BaseEncoding` attribute, from which this encoding is
    /// described through differences.
    pub fn base_encoding(&mut self, name: Name) -> (r: &mut Self)
        requires
            0 <= old(self).dict.len < i32::MAX,
        ensures
            dict_pair_appended(old(self).dict, r.dict, "BaseEncoding".spec_bytes(), name),
            *final(r.dict.buf) == *final(old(self).dict.buf),
            *final(self) == *final(r),
    {
        self.dict.pair(Name("BaseEncoding".as_bytes()), name);
        self
    }

    /// Finish writing the dictionary.
    pub fn finish(self)
        requires
            self.dict.len >= 0,
            self.dict.indent >= 2,
        ensures
            final(self.dict.buf)@ == old(self.dict.buf)@ + dict_close_bytes(
                self.dict.len as int,
                self.dict.settings.pretty,
                self.dict.indent as int,
                self.dict.indirect,
            ),
            final(self.dict.buf).spec_limits() == old(self.dict.buf).spec_limits().with_dict_entries(self.dict.len as int),
    {
        self.dict.finish();
    }
}

/// Writer for a _Type-0 (composite) font dictionary_. PDF 1.2+.
///
/// This struct is created by [`Chunk::type0_font`].
pub struct Type0Font<'a> {
    /// The underlying dictionary.
    pub dict: Dict<'a>,
}

impl<'a> Type0Font<'a> {
    /// Start writing the dictionary on an object.
    pub(crate) fn start(obj: Obj<'a>) -> (r: Self)
        ensures
            dict_started(
                r.dict,
                old(obj.buf)@,
                obj.indirect,
                obj.indent,
                obj.settings,
                Some("Font".spec_bytes()),
                Some("Type0".spec_bytes()),
            ),
            r.dict.buf.spec_limits() == dict_start_limits(old(obj.buf).spec_limits(), Some("Font".spec_bytes()), Some("Type0".spec_bytes())),
            *final(r.dict.buf) == *final(obj.buf),
    {
        Self { dict: start_dict(obj, Some("Font"), Some("Type0")) }
    }

    /// Write the `/BaseFont` attribute. This is the PostScript name of the
    /// font. Required.
    pub fn base_font(&mut self, name: Name) -> (r: &mut Self)
        requires
            0 <= old(self).dict.len < i32::MAX,
        ensures
            dict_pair_appended(old(self).dict, r.dict, "BaseFont".spec_bytes(), name),
            *final(r.dict.buf) == *final(old(self).dict.buf),
            *final(self) == *final(r),
    {
        self.dict.pair(Name("BaseFont".as_bytes()), name);
        self
    }

    /// Write the `/Encoding` attribute as a predefined encoding. Either this or
    /// [`encoding_cmap`](Self::encoding_cmap) is required.
    pub fn encoding_predefined(&mut self, encoding: Name) -> (r: &mut Self)
        requires
            0 <= old(self).dict.len < i32::MAX,
        ensures
            dict_pair_appended(old(self).dict, r.dict, "Encoding".spec_bytes(), encoding),
            *final(r.dict.buf) == *final(old(self).dict.buf),
            *final(self) == *final(r),
    {
        self.dict.pair(Name("Encoding".as_bytes()), encoding);
        self
    }

    /// Write the `/Encoding` attribute as a reference to a character map.
    /// Either this or [`encoding_predefined`](Self::encoding_predefined) is
    /// required.
    pub fn encoding_cmap(&mut self, cmap: Ref) -> (r: &mut Self)
        requires
            0 <= old(self).dict.len < i32::MAX,
        ensures
            dict_pair_appended(old(self).dict, r.dict, "Encoding".spec_bytes(), cmap),
            *final(r.dict.buf) == *final(old(self).dict.buf),
            *final(self) == *final(r),
    {
        self.dict.pair(Name("Encoding".as_bytes()), cmap);
        self
    }

    /// Write the `/ToUnicode` attribute.
    ///
    /// A suitable character map can be built with [`UnicodeCmap`].
    pub fn to_unicode(&mut self, cmap: Ref) -> (r: &mut Self)
        requires
            0 <= old(self).dict.len < i32::MAX,
        ensures
            dict_pair_appended(old(self).dict, r.dict, "ToUnicode".spec_bytes(), cmap),
            *final(r.dict.buf) == *final(old(self).dict.buf),
            *final(self) == *final(r),
    {
        self.dict.pair(Name("ToUnicode".as_bytes()), cmap);
        self
    }

    /// Finish writing the dictionary.
    pub fn finish(self)
        requires
            self.dict.len >= 0,
            self.dict.indent >= 2,
        ensures
            final(self.dict.buf)@ == old(self.dict.buf)@ + dict_close_bytes(
                self.dict.len as int,
                self.dict.settings.pretty,
                self.dict.indent as int,
                self.dict.indirect,
            ),
            final(self.dict.buf).spec_limits() == old(self.dict.buf).spec_limits().with_dict_entries(self.dict.len as int),
    {
        self.dict.finish();
    }
}

/// Writer for a _CID font dictionary_. PDF 1.2+.
///
/// This struct is created by [`Chunk::cid_font`].
pub struct CidFont<'a> {
    /// The underlying dictionary.
    pub dict: Dict<'a>,
}

impl<'a> CidFont<'a> {
    /// Start writing the dictionary on an object.
    pub(crate) fn start(obj: Obj<'a>) -> (r: Self)
        ensures
            dict_started(
                r.dict,
                old(obj.buf)@,
                obj.indirect,
                obj.indent,
                obj.settings,
                Some("Font".spec_bytes()),
                None,
            ),
            r.dict.buf.spec_limits() == dict_start_limits(old(obj.buf).spec_limits(), Some("Font".spec_bytes()), None),
            *final(r.dict.buf) == *final(obj.buf),
    {
        Self { dict: start_dict(obj, Some("Font"), None) }
    }

    /// Write the `/Subtype` attribute. Required.
    pub fn subtype(&mut self, subtype: CidFontType) -> (r: &mut Self)
        requires
            0 <= old(self).dict.len < i32::MAX,
        ensures
            dict_name_pair_appended(old(self).dict, r.dict, "Subtype".spec_bytes(), subtype.spec_name()),
            *final(r.dict.buf) == *final(old(self).dict.buf),
            *final(self) == *final(r),
    {
        self.dict.pair(Name("Subtype".as_bytes()), subtype.to_name());
        self
    }

    /// Write the `/BaseFont` attribute. Required.
    pub fn base_font(&mut self, name: Name) -> (r: &mut Self)
        requires
            0 <= old(self).dict.len < i32::MAX,
        ensures
            dict_pair_appended(old(self).dict, r.dict, "BaseFont".spec_bytes(), name),
            *final(r.dict.buf) == *final(old(self).dict.buf),
            *final(self) == *final(r),
    {
        self.dict.pair(Name("BaseFont".as_bytes()), name);
        self
    }

    /// Write the `/FontDescriptor` attribute. Required.
    pub fn font_descriptor(&mut self, id: Ref) -> (r: &mut Self)
        requires
            0 <= old(self).dict.len < i32::MAX,
        ensures
            dict_pair_appended(old(self).dict, r.dict, "FontDescriptor".spec_bytes(), id),
            *final(r.dict.buf) == *final(old(self).dict.buf),
            *final(self) == *final(r),
    {
        self.dict.pair(Name("FontDescriptor".as_bytes()), id);
        self
    }

    /// Write the `/CIDToGIDMap` attribute as a predefined name.
    ///
    /// The attribute must be present for PDF/A. The only permissible predefined
    /// name is `Identity`, otherwise [`Self::cid_to_gid_map_stream`] must be
    /// used.
    pub fn cid_to_gid_map_predefined(&mut self, name: Name) -> (r: &mut Self)
        requires
            0 <= old(self).dict.len < i32::MAX,
        ensures
            dict_pair_appended(old(self).dict, r.dict, "CIDToGIDMap".spec_bytes(), name),
            *final(r.dict.buf) == *final(old(self).dict.buf),
            *final(self) == *final(r),
    {
        self.dict.pair(Name("CIDToGIDMap".as_bytes()), name);
        self
    }

    /// Write the `/CIDToGIDMap` attribute as a reference to a stream, whose
    /// bytes directly map from CIDs to glyph indices.
    ///
    /// The attribute must be present for PDF/A.
    pub fn cid_to_gid_map_stream(&mut self, stream: Ref) -> (r: &mut Self)
        requires
            0 <= old(self).dict.len < i32::MAX,
        ensures
            dict_pair_appended(old(self).dict, r.dict, "CIDToGIDMap".spec_bytes(), stream),
            *final(r.dict.buf) == *final(old(self).dict.buf),
            *final(self) == *final(r),
    {
        self.dict.pair(Name("CIDToGIDMap".as_bytes()), stream);
        self
    }

    /// Finish writing the dictionary.
    pub fn finish(self)
        requires
            self.dict.len >= 0,
            self.dict.indent >= 2,
        ensures
            final(self.dict.buf)@ == old(self.dict.buf)@ + dict_close_bytes(
                self.dict.len as int,
                self.dict.settings.pretty,
                self.dict.indent as int,
                self.dict.indirect,
            ),
            final(self.dict.buf).spec_limits() == old(self.dict.buf).spec_limits().with_dict_entries(self.dict.len as int),
    {
        self.dict.finish();
    }
}

/// Writer for a _font descriptor dictionary_.
///
/// This struct is created by [`Chunk::font_descriptor`].
pub struct FontDescriptor<'a> {
    /// The underlying dictionary.
    pub dict: Dict<'a>,
}

impl<'a> FontDescriptor<'a> {
    /// Start writing the dictionary on an object.
    pub(crate) fn start(obj: Obj<'a>) -> (r: Self)
        ensures
            dict_started(
                r.dict,
                old(obj.buf)@,
                obj.indirect,
                obj.indent,
                obj.settings,
                Some("FontDescriptor".spec_bytes()),
                None,
            ),
            r.dict.buf.spec_limits() == dict_start_limits(old(obj.buf).spec_limits(), Some("FontDescriptor".spec_bytes()), None),
            *final(r.dict.buf) == *final(obj.buf),
    {
        Self { dict: start_dict(obj, Some("FontDescriptor"), None) }
    }

    /// Write the `/FontName` attribute. Required, except for Type 3 fonts.
    pub fn name(&mut self, name: Name) -> (r: &mut Self)
        requires
            0 <= old(self).dict.len < i32::MAX,
        ensures
            dict_pair_appended(old(self).dict, r.dict, "FontName".spec_bytes(), name),
            *final(r.dict.buf) == *final(old(self).dict.buf),
            *final(self) == *final(r),
    {
        self.dict.pair(Name("FontName".as_bytes()), name);
        self
    }

    /// Write the `/FontFamily` attribute. Recommended for Type 3 fonts in
    /// Tagged PDFs. PDF 1.5+.
    pub fn family(&mut self, family: Str) -> (r: &mut Self)
        requires
            0 <= old(self).dict.len < i32::MAX,
        ensures
            dict_pair_appended(old(self).dict, r.dict, "FontFamily".spec_bytes(), family),
            *final(r.dict.buf) == *final(old(self).dict.buf),
            *final(self) == *final(r),
    {
        self.dict.pair(Name("FontFamily".as_bytes()), family);
        self
    }

    /// Write the `/FontStretch` attribute. Recommended for Type 3 fonts in
    /// Tagged PDFs. PDF 1.5+.
    pub fn stretch(&mut self, stretch: FontStretch) -> (r: &mut Self)
        requires
            0 <= old(self).dict.len < i32::MAX,
        ensures
            dict_name_pair_appended(old(self).dict, r.dict, "FontStretch".spec_bytes(), stretch.spec_name()),
            *final(r.dict.buf) == *final(old(self).dict.buf),
            *final(self) == *final(r),
    {
        self.dict.pair(Name("FontStretch".as_bytes()), stretch.to_name());
        self
    }

    /// Write the `/FontWeight` attribute. Should be between 100 (lightest) and
    /// 900 (heaviest), 400 is normal weight, 700 is bold. Recommended
    /// for Type 3 fonts in Tagged PDFs. PDF 1.5+.
    pub fn weight(&mut self, weight: u16) -> (r: &mut Self)
        requires
            0 <= old(self).dict.len < i32::MAX,
        ensures
            dict_pair_appended(old(self).dict, r.dict, "FontWeight".spec_bytes(), weight as i32),
            *final(r.dict.buf) == *final(old(self).dict.buf),
            *final(self) == *final(r),
    {
        self.dict.pair(Name("FontWeight".as_bytes()), weight as i32);
        self
    }

    /// Write the `/Flags` attribute. Required.
    ///
    /// The flags are given by their bits.
    pub fn flags(&mut self, flags: u32) -> (r: &mut Self)
        requires
            0 <= old(self).dict.len < i32::MAX,
            flags as i32 != i32::MIN,
        ensures
            dict_pair_appended(old(self).dict, r.dict, "Flags".spec_bytes(), flags as i32),
            *final(r.dict.buf) == *final(old(self).dict.buf),
            *final(self) == *final(r),
    {
        self.dict.pair(Name("Flags".as_bytes()), flags as i32);
        self
    }

    /// Write the `/FontFile` attribute, referecing Type 1 font data.
    pub fn font_file(&mut self, id: Ref) -> (r: &mut Self)
        requires
            0 <= old(self).dict.len < i32::MAX,
        ensures
            dict_pair_appended(old(self).dict, r.dict, "FontFile".spec_bytes(), id),
            *final(r.dict.buf) == *final(old(self).dict.buf),
            *final(self) == *final(r),
    {
        self.dict.pair(Name("FontFile".as_bytes()), id);
        self
    }

    /// Write the `/FontFile2` attribute, referencing TrueType font data. PDF
    /// 1.1+.
    pub fn font_file2(&mut self, id: Ref) -> (r: &mut Self)
        requires
            0 <= old(self).dict.len < i32::MAX,
        ensures
            dict_pair_appended(old(self).dict, r.dict, "FontFile2".spec_bytes(), id),
            *final(r.dict.buf) == *final(old(self).dict.buf),
            *final(self) == *final(r),
    {
        self.dict.pair(Name("FontFile2".as_bytes()), id);
        self
    }

    /// Write the `/FontFile3` attribute, referencing CFF font data. PDF 1.2+ or
    /// PDF 1.3+ for CID-keyed fonts.
    pub fn font_file3(&mut self, id: Ref) -> (r: &mut Self)
        requires
            0 <= old(self).dict.len < i32::MAX,
        ensures
            dict_pair_appended(old(self).dict, r.dict, "FontFile3".spec_bytes(), id),
            *final(r.dict.buf) == *final(old(self).dict.buf),
            *final(self) == *final(r),
    {
        self.dict.pair(Name("FontFile3".as_bytes()), id);
        self
    }

    /// Write the `/CharSet` attribute, encoding the character names of a font
    /// subset as a string. This is only relevant for Type 1 fonts. PDF 1.1+.
    ///
    /// If present in PDF/A, this must include all characters in the subset,
    /// even if they are not used in the document.
    pub fn char_set(&mut self, names: Str) -> (r: &mut Self)
        requires
            0 <= old(self).dict.len < i32::MAX,
        ensures
            dict_pair_appended(old(self).dict, r.dict, "CharSet".spec_bytes(), names),
            *final(r.dict.buf) == *final(old(self).dict.buf),
            *final(self) == *final(r),
    {
        self.dict.pair(Name("CharSet".as_bytes()), names);
        self
    }

    /// Start writing the `/FD` attribute. Optional.
    ///
    /// Overrides the global font descriptor for specific glyphs.
    pub fn descriptor_override(&mut self) -> (r: FontDescriptorOverride<'_>)
        requires
            0 <= old(self).dict.len < i32::MAX,
        ensures
            dict_started(
                r.dict,
                old(self).dict.buf@ + dict_key_bytes(
                    old(self).dict.settings.pretty,
                    old(self).dict.indent as int,
                    "FD".spec_bytes(),
                ),
                false,
                old(self).dict.indent,
                old(self).dict.settings,
                None,
                None,
            ),
            r.dict.buf.spec_limits() == dict_start_limits(
                old(self).dict.buf.spec_limits().with_name_len("FD".spec_bytes().len() as int),
                None,
                None,
            ),
            final(self).dict.len == old(self).dict.len + 1,
            final(self).dict.indirect == old(self).dict.indirect,
            final(self).dict.indent == old(self).dict.indent,
            final(self).dict.settings == old(self).dict.settings,
            *final(self).dict.buf == *final(r.dict.buf),
            *final(final(self).dict.buf) == *final(old(self).dict.buf),
    {
        FontDescriptorOverride::start(self.dict.insert(Name("FD".as_bytes())))
    }

    /// Write the `/CIDSet` attribute.
    ///
    /// If present in PDF/A, this must include all characters in the subset,
    /// even if they are not used in the document.
    pub fn cid_set(&mut self, id: Ref) -> (r: &mut Self)
        requires
            0 <= old(self).dict.len < i32::MAX,
        ensures
            dict_pair_appended(old(self).dict, r.dict, "CIDSet".spec_bytes(), id),
            *final(r.dict.buf) == *final(old(self).dict.buf),
            *final(self) == *final(r),
    {
        self.dict.pair(Name("CIDSet".as_bytes()), id);
        self
    }

    /// Finish writing the dictionary.
    pub fn finish(self)
        requires
            self.dict.len >= 0,
            self.dict.indent >= 2,
        ensures
            final(self.dict.buf)@ == old(self.dict.buf)@ + dict_close_bytes(
                self.dict.len as int,
                self.dict.settings.pretty,
                self.dict.indent as int,
                self.dict.indirect,
            ),
            final(self.dict.buf).spec_limits() == old(self.dict.buf).spec_limits().with_dict_entries(self.dict.len as int),
    {
        self.dict.finish();
    }
}

/// Writer for a _font descriptor override dictionary_.
///
/// This struct is created by [`FontDescriptor::descriptor_override`].
///
/// The font descriptor dictionaries within can only contain metrics data.
pub struct FontDescriptorOverride<'a> {
    /// The underlying dictionary.
    pub dict: Dict<'a>,
}

impl<'a> FontDescriptorOverride<'a> {
    /// Start writing the dictionary on an object.
    pub(crate) fn start(obj: Obj<'a>) -> (r: Self)
        ensures
            dict_started(
                r.dict,
                old(obj.buf)@,
                obj.indirect,
                obj.indent,
                obj.settings,
                None,
                None,
            ),
            r.dict.buf.spec_limits() == dict_start_limits(old(obj.buf).spec_limits(), None, None),
            *final(r.dict.buf) == *final(obj.buf),
    {
        Self { dict: start_dict(obj, None, None) }
    }

    /// Finish writing the dictionary.
    pub fn finish(self)
        requires
            self.dict.len >= 0,
            self.dict.indent >= 2,
        ensures
            final(self.dict.buf)@ == old(self.dict.buf)@ + dict_close_bytes(
                self.dict.len as int,
                self.dict.settings.pretty,
                self.dict.indent as int,
                self.dict.indirect,
            ),
            final(self.dict.buf).spec_limits() == old(self.dict.buf).spec_limits().with_dict_entries(self.dict.len as int),
    {
        self.dict.finish();
    }
}

/// Writer for a _character map stream_.
///
/// This struct is created by [`Chunk::cmap`].
pub struct Cmap<'a> {
    /// The underlying stream.
    pub stream: Stream<'a>,
}

impl<'a> Cmap<'a> {
    /// Start writing the stream's dictionary entries.
    pub(crate) fn start(stream: Stream<'a>) -> (r: Self)
        requires
            0 <= stream.dict.len < i32::MAX - 2,
        ensures
            r.stream.dict.buf@ == old(stream.dict.buf)@ + type_entries_bytes(
                old(stream.dict.buf)@,
                stream.dict.settings.pretty,
                stream.dict.indent as int,
                Some("CMap".spec_bytes()),
                None,
            ),
            r.stream.dict.len == stream.dict.len + 1,
            r.stream.dict.indirect == stream.dict.indirect,
            r.stream.dict.indent == stream.dict.indent,
            r.stream.dict.settings == stream.dict.settings,
            r.stream.data == stream.data,
            *final(r.stream.dict.buf) == *final(stream.dict.buf),
            r.stream.dict.buf.spec_limits() == dict_start_limits(
                old(stream.dict.buf).spec_limits(),
                Some("CMap".spec_bytes()),
                None,
            ),
    {
        Self { stream: type_stream(stream, Some("CMap"), None) }
    }

    /// Write the `/CMapName` attribute. Required.
    pub fn name(&mut self, name: Name) -> (r: &mut Self)
        requires
            0 <= old(self).stream.dict.len < i32::MAX,
        ensures
            dict_pair_appended(old(self).stream.dict, r.stream.dict, "CMapName".spec_bytes(), name),
            r.stream.data == old(self).stream.data,
            *final(r.stream.dict.buf) == *final(old(self).stream.dict.buf),
            *final(self) == *final(r),
    {
        self.stream.dict.pair(Name("CMapName".as_bytes()), name);
        self
    }

    /// Write the `/WMode` attribute. Optional.
    ///
    /// This describes whether the CMap applies to a font with horizontal or
    /// vertical writing mode. The default is whatever is specified in the CMap.
    ///
    /// This is required in PDF/A and must match the writing mode of the
    /// embedded CMap.
    pub fn writing_mode(&mut self, mode: WMode) -> (r: &mut Self)
        requires
            0 <= old(self).stream.dict.len < i32::MAX,
        ensures
            dict_pair_appended(old(self).stream.dict, r.stream.dict, "WMode".spec_bytes(), mode.spec_int()),
            r.stream.data == old(self).stream.data,
            *final(r.stream.dict.buf) == *final(old(self).stream.dict.buf),
            *final(self) == *final(r),
    {
        self.stream.dict.pair(Name("WMode".as_bytes()), mode.to_int());
        self
    }

    /// Write the `/UseCMap` attribute using a stream reference. Optional.
    ///
    /// This allows specifying a base CMap to extend.
    ///
    /// Note that this attribute is restricted in PDF/A and may only be used
    /// with the well-known CMap names from the PDF standard. Use
    /// [`Self::use_cmap_predefined`] to specify a predefined name.
    pub fn use_cmap_stream(&mut self, cmap: Ref) -> (r: &mut Self)
        requires
            0 <= old(self).stream.dict.len < i32::MAX,
        ensures
            dict_pair_appended(old(self).stream.dict, r.stream.dict, "UseCMap".spec_bytes(), cmap),
            r.stream.data == old(self).stream.data,
            *final(r.stream.dict.buf) == *final(old(self).stream.dict.buf),
            *final(self) == *final(r),
    {
        self.stream.dict.pair(Name("UseCMap".as_bytes()), cmap);
        self
    }

    /// Write the `/UseCMap` attribute using a predefined name. Optional.
    ///
    /// This allows specifying a base CMap to extend.
    ///
    /// Note that this attribute is restricted in PDF/A.
    pub fn use_cmap_predefined(&mut self, name: Name) -> (r: &mut Self)
        requires
            0 <= old(self).stream.dict.len < i32::MAX,
        ensures
            dict_pair_appended(old(self).stream.dict, r.stream.dict, "UseCMap".spec_bytes(), name),
            r.stream.data == old(self).stream.data,
            *final(r.stream.dict.buf) == *final(old(self).stream.dict.buf),
            *final(self) == *final(r),
    {
        self.stream.dict.pair(Name("UseCMap".as_bytes()), name);
        self
    }

    /// Finish the stream: close its dictionary, write its data and close the
    /// object.
    pub fn finish(self)
        requires
            self.stream.dict.len >= 0,
        ensures
            final(self.stream.dict.buf)@ == old(self.stream.dict.buf)@ + stream_close_bytes(
                self.stream.dict.settings.pretty,
                self.stream.data@,
            ),
            final(self.stream.dict.buf).spec_limits() == old(self.stream.dict.buf).spec_limits().with_dict_entries(self.stream.dict.len as int),
    {
        self.stream.finish();
    }
}


/// The names under which the values of [`CidFontType`] are written, as PDF
/// defines them.
pub proof fn lemma_cid_font_type_names()
    ensures
        CidFontType::Type0.spec_name() == "CIDFontType0".spec_bytes(),
        CidFontType::Type2.spec_name() == "CIDFontType2".spec_bytes(),
{
}

/// The names under which the values of [`CjkClass`] are written, as PDF
/// defines them.
pub proof fn lemma_cjk_class_names()
    ensures
        CjkClass::Alphabetic.spec_name() == "Alphabetic".spec_bytes(),
        CjkClass::AlphaNum.spec_name() == "AlphaNum".spec_bytes(),
        CjkClass::Dingbats.spec_name() == "Dingbats".spec_bytes(),
        CjkClass::DingbatsRot.spec_name() == "DingbatsRot".spec_bytes(),
        CjkClass::Generic.spec_name() == "Generic".spec_bytes(),
        CjkClass::GenericRot.spec_name() == "GenericRot".spec_bytes(),
        CjkClass::Hangul.spec_name() == "Hangul".spec_bytes(),
        CjkClass::Hanja.spec_name() == "Hanja".spec_bytes(),
        CjkClass::Hanzi.spec_name() == "Hanzi".spec_bytes(),
        CjkClass::HRoman.spec_name() == "HRoman".spec_bytes(),
        CjkClass::HRomanRot.spec_name() == "HRomanRot".spec_bytes(),
        CjkClass::HKana.spec_name() == "HKana".spec_bytes(),
        CjkClass::HKanaRot.spec_name() == "HKanaRot".spec_bytes(),
        CjkClass::HojoKanji.spec_name() == "HojoKanji".spec_bytes(),
        CjkClass::Kana.spec_name() == "Kana".spec_bytes(),
        CjkClass::Kanji.spec_name() == "Kanji".spec_bytes(),
        CjkClass::Proportional.spec_name() == "Proportional".spec_bytes(),
        CjkClass::ProportionalRot.spec_name() == "ProportionalRot".spec_bytes(),
        CjkClass::Ruby.spec_name() == "Ruby".spec_bytes(),
{
}

/// The names under which the values of [`FontStretch`] are written, as PDF
/// defines them.
pub proof fn lemma_font_stretch_names()
    ensures
        FontStretch::UltraCondensed.spec_name() == "UltraCondensed".spec_bytes(),
        FontStretch::ExtraCondensed.spec_name() == "ExtraCondensed".spec_bytes(),
        FontStretch::Condensed.spec_name() == "Condensed".spec_bytes(),
        FontStretch::SemiCondensed.spec_name() == "SemiCondensed".spec_bytes(),
        FontStretch::Normal.spec_name() == "Normal".spec_bytes(),
        FontStretch::SemiExpanded.spec_name() == "SemiExpanded".spec_bytes(),
        FontStretch::Expanded.spec_name() == "Expanded".spec_bytes(),
        FontStretch::ExtraExpanded.spec_name() == "ExtraExpanded".spec_bytes(),
        FontStretch::UltraExpanded.spec_name() == "UltraExpanded".spec_bytes(),
{
}

/// The numbers under which the values of [`WMode`] are written, as PDF
/// defines them.
pub proof fn lemma_w_mode_numbers()
    ensures
        WMode::Horizontal.spec_int() == 0,
        WMode::Vertical.spec_int() == 1,
{
}


/// A mapping line of a character map is `<`, the glyph id, `> <`, the code
/// units of the characters and `>`, a line feed: the hexadecimal glyph id
/// reads back as the id's two bytes and the hexadecimal code units read back
/// as the characters.
pub proof fn lemma_cmap_line_read_back(glyph: u16, codepoints: Seq<char>)
    ensures
        ({
            let line = cmap_line(glyph.spec_hex(), codepoints);
            let n = line.len();
            &&& n >= 10
            &&& line[0] == 60 && line[5] == 62 && line[6] == 32 && line[7] == 60
            &&& line[n - 2] == 62 && line[n - 1] == 10
            &&& hex_string_decode(line.subrange(1, 5)) == seq![(glyph / 256) as u8, (glyph % 256) as u8]
            &&& utf16be_decode(hex_string_decode(line.subrange(8, n - 2))) == code_points(codepoints)
        }),
{
    reveal_strlit("<");
    reveal_strlit("> <");
    reveal_strlit(">\n");
    is_ascii_spec_bytes("<");
    is_ascii_spec_bytes("> <");
    is_ascii_spec_bytes(">\n");
    let h = glyph.spec_hex();
    let x = (glyph as int / 256) as u8;
    let y = (glyph as int % 256) as u8;
    assert(h == hex_byte(x) + hex_byte(y));
    let u = flat_map(codepoints, |c: char| utf16_hex(c));
    let line = cmap_line(h, codepoints);
    assert(line =~= seq![60u8] + h + seq![62u8, 32u8, 60u8] + u + seq![62u8, 10u8]);
    assert(line.subrange(1, 5) =~= hex_byte(x) + (hex_byte(y) + Seq::<u8>::empty()));
    lemma_hex_pair_decode(y, Seq::<u8>::empty());
    lemma_hex_pair_decode(x, hex_byte(y) + Seq::<u8>::empty());
    assert(hex_string_decode(Seq::<u8>::empty()) == Seq::<u8>::empty());
    assert(line.subrange(8, line.len() - 2) =~= u);
    lemma_utf16_decode_all(codepoints);
}

} // verus!
