use vstd::prelude::*;
use vstd::string::*;

use crate::buf::{decimal, decimal_digits, flat_map, hex_byte, hex_u16, lemma_flat_map_step, lemma_take_full, Buf};
use crate::chunk::{indirect_header, Chunk};
use crate::font::{system_info_dict_bytes, SystemInfo};
use crate::object::{
    dict_close_bytes, dict_key_bytes, dict_name_pair_bytes, dict_pair_enc_bytes, name_encoding,
    push_utf16, stream_close_bytes, str_encoding, utf16_hex, Name, Primitive, Real, Ref, Stream,
};

verus! {

// ---------------------------------------------------------------------------
// Text streams.
// ---------------------------------------------------------------------------

/// A stream of text operations.
pub struct TextStream {
    buf: Vec<u8>,
}

impl View for TextStream {
    type V = Seq<u8>;

    closed spec fn view(&self) -> Seq<u8> {
        self.buf@
    }
}

/// The `Tj` operation for the given raw text bytes: the bytes in hexadecimal
/// between angle brackets.
pub open spec fn tj_bytes(text: Seq<u8>) -> Seq<u8> {
    "<".spec_bytes() + flat_map(text, |b: u8| hex_byte(b)) + "> Tj\n".spec_bytes()
}

impl TextStream {
    /// Create a new, empty text stream.
    pub fn new() -> (r: Self)
        ensures
            r@ == "BT\n".spec_bytes(),
    {
        let mut buf: Vec<u8> = Vec::new();
        buf.extend_from_slice("BT\n".as_bytes());
        Self { buf }
    }

    /// `Tf` operator: Select a font by name and set the font size as a scale
    /// factor.
    pub fn tf(self, font: Name, size: Real) -> (r: Self)
        requires
            size.spec_writable(),
        ensures
            r@ == self@ + name_encoding(font.0@) + " ".spec_bytes() + size.0@ + " Tf\n".spec_bytes(),
    {
        let mut b = Buf::new();
        b.extend_slice(self.buf.as_slice());
        font.write(&mut b);
        b.extend_slice(" ".as_bytes());
        size.write(&mut b);
        b.extend_slice(" Tf\n".as_bytes());
        assert(b@ =~= self@ + name_encoding(font.0@) + " ".spec_bytes() + size.0@ + " Tf\n".spec_bytes());
        Self { buf: b.into_bytes() }
    }

    /// `Td` operator: Move to the start of the next line.
    pub fn td(self, x: Real, y: Real) -> (r: Self)
        requires
            x.spec_writable(),
            y.spec_writable(),
        ensures
            r@ == self@ + x.0@ + " ".spec_bytes() + y.0@ + " Td\n".spec_bytes(),
    {
        let mut b = Buf::new();
        b.extend_slice(self.buf.as_slice());
        x.write(&mut b);
        b.extend_slice(" ".as_bytes());
        y.write(&mut b);
        b.extend_slice(" Td\n".as_bytes());
        assert(b@ =~= self@ + x.0@ + " ".spec_bytes() + y.0@ + " Td\n".spec_bytes());
        Self { buf: b.into_bytes() }
    }

    /// `Tm` operator: Set the text matrix.
    pub fn tm(self, a: Real, b: Real, c: Real, d: Real, e: Real, f: Real) -> (r: Self)
        requires
            a.spec_writable(),
            b.spec_writable(),
            c.spec_writable(),
            d.spec_writable(),
            e.spec_writable(),
            f.spec_writable(),
        ensures
            r@ == self@ + a.0@ + " ".spec_bytes() + b.0@ + " ".spec_bytes() + c.0@ + " ".spec_bytes() + d.0@
                + " ".spec_bytes() + e.0@ + " ".spec_bytes() + f.0@ + " Tm\n".spec_bytes(),
    {
        let mut out = Buf::new();
        out.extend_slice(self.buf.as_slice());
        a.write(&mut out);
        out.extend_slice(" ".as_bytes());
        b.write(&mut out);
        out.extend_slice(" ".as_bytes());
        c.write(&mut out);
        out.extend_slice(" ".as_bytes());
        d.write(&mut out);
        out.extend_slice(" ".as_bytes());
        e.write(&mut out);
        out.extend_slice(" ".as_bytes());
        f.write(&mut out);
        out.extend_slice(" Tm\n".as_bytes());
        assert(out@ =~= self@ + a.0@ + " ".spec_bytes() + b.0@ + " ".spec_bytes() + c.0@ + " ".spec_bytes()
            + d.0@ + " ".spec_bytes() + e.0@ + " ".spec_bytes() + f.0@ + " Tm\n".spec_bytes());
        Self { buf: out.into_bytes() }
    }

    /// `Tj` operator: Write text.
    ///
    /// This function takes raw bytes. The encoding is up to the caller.
    pub fn tj(self, text: &[u8]) -> (r: Self)
        ensures
            r@ == self@ + tj_bytes(text@),
    {
        let mut b = Buf::new();
        b.extend_slice(self.buf.as_slice());
        b.extend_slice("<".as_bytes());
        let ghost start = b@;
        let ghost f = |x: u8| hex_byte(x);
        let mut i: usize = 0;
        assert(text@.take(0) =~= Seq::<u8>::empty());
        while i < text.len()
            invariant
                i <= text@.len(),
                b@ == start + flat_map(text@.take(i as int), f),
                f == (|x: u8| hex_byte(x)),
            decreases text@.len() - i,
        {
            proof {
                lemma_flat_map_step(text@, i as int, f);
            }
            b.push_hex(text[i]);
            i = i + 1;
        }
        proof {
            lemma_take_full(text@);
        }
        b.extend_slice("> Tj\n".as_bytes());
        assert(b@ =~= self@ + tj_bytes(text@));
        Self { buf: b.into_bytes() }
    }

    /// Return the raw constructed byte stream.
    pub fn end(self) -> (r: Vec<u8>)
        ensures
            r@ == self@ + "ET".spec_bytes(),
    {
        let mut buf = self.buf;
        buf.extend_from_slice("ET".as_bytes());
        buf
    }
}

// ---------------------------------------------------------------------------
// Character map objects.
// ---------------------------------------------------------------------------

/// One mapping of a character map from a two-byte character id to the
/// UTF-16 code units of a character.
pub open spec fn cid_mapping_line(mapping: (u16, char)) -> Seq<u8> {
    "<".spec_bytes() + hex_u16(mapping.0) + "> <".spec_bytes() + utf16_hex(mapping.1)
        + ">\n".spec_bytes()
}

/// The program of a character map that maps character ids to unicode
/// characters, covering the whole two-byte code space.
#[verifier::opaque]
pub open spec fn cmap_program(
    name: Seq<u8>,
    registry: Seq<u8>,
    ordering: Seq<u8>,
    supplement: i32,
    mapping: Seq<(u16, char)>,
) -> Seq<u8> {
    "%!PS-Adobe-3.0 Resource-CMap\n".spec_bytes()
        + "%%DocumentNeededResources: procset CIDInit\n".spec_bytes()
        + "%%IncludeResource: procset CIDInit\n".spec_bytes()
        + "%%BeginResource: CMap ".spec_bytes() + name + "\n".spec_bytes()
        + "%%Title: (".spec_bytes() + name + " ".spec_bytes() + registry + " ".spec_bytes()
        + ordering + " ".spec_bytes() + decimal(supplement as int) + ")\n".spec_bytes()
        + "%%Version: 1\n".spec_bytes() + "%%EndComments\n".spec_bytes()
        + "/CIDInit /ProcSet findresource begin\n".spec_bytes() + "9 dict begin\n".spec_bytes()
        + "begincmap\n".spec_bytes() + "/CIDSystemInfo 3 dict dup begin\n".spec_bytes()
        + "    /Registry ".spec_bytes() + str_encoding(registry) + " def\n".spec_bytes()
        + "    /Ordering ".spec_bytes() + str_encoding(ordering) + " def\n".spec_bytes()
        + "    /Supplement ".spec_bytes() + decimal(supplement as int) + " def\n".spec_bytes()
        + "end def\n".spec_bytes() + "/CMapName ".spec_bytes() + name_encoding(name)
        + " def\n".spec_bytes() + "/CMapVersion 1 def\n".spec_bytes()
        + "/CMapType 0 def\n".spec_bytes() + "1 begincodespacerange\n".spec_bytes()
        + "<0000> <ffff>\n".spec_bytes() + "endcodespacerange\n".spec_bytes()
        + decimal_digits(mapping.len()) + " beginbfchar\n".spec_bytes()
        + flat_map(mapping, |m: (u16, char)| cid_mapping_line(m)) + "endbfchar\n".spec_bytes()
        + "endcmap\n".spec_bytes() + "CMapName currentdict /CMap defineresource pop\n".spec_bytes()
        + "end\n".spec_bytes() + "end\n".spec_bytes() + "%%EndResource\n".spec_bytes()
        + "%%EOF".spec_bytes()
}

/// Build the program of a character map.
///
/// Defined here:
/// https://www.adobe.com/content/dam/acom/en/devnet/font/pdfs/5014.CIDFont_Spec.pdf
fn build_cmap_program(name: Name, info: SystemInfo, mapping: &[(u16, char)]) -> (r: Vec<u8>)
    requires
        info.supplement != i32::MIN,
    ensures
        r@ == cmap_program(
            name.0@,
            info.registry.0@,
            info.ordering.0@,
            info.supplement,
            mapping@,
        ),
{
    let mut buf = Buf::new();

    // Static header.
    buf.extend_slice("%!PS-Adobe-3.0 Resource-CMap\n".as_bytes());
    buf.extend_slice("%%DocumentNeededResources: procset CIDInit\n".as_bytes());
    buf.extend_slice("%%IncludeResource: procset CIDInit\n".as_bytes());

    // Dynamic header.
    buf.extend_slice("%%BeginResource: CMap ".as_bytes());
    buf.extend_slice(name.0);
    buf.extend_slice("\n".as_bytes());
    buf.extend_slice("%%Title: (".as_bytes());
    buf.extend_slice(name.0);
    buf.extend_slice(" ".as_bytes());
    buf.extend_slice(info.registry.0);
    buf.extend_slice(" ".as_bytes());
    buf.extend_slice(info.ordering.0);
    buf.extend_slice(" ".as_bytes());
    buf.push_int(info.supplement);
    buf.extend_slice(")\n".as_bytes());
    buf.extend_slice("%%Version: 1\n".as_bytes());
    buf.extend_slice("%%EndComments\n".as_bytes());

    // General body.
    buf.extend_slice("/CIDInit /ProcSet findresource begin\n".as_bytes());
    buf.extend_slice("9 dict begin\n".as_bytes());
    buf.extend_slice("begincmap\n".as_bytes());
    buf.extend_slice("/CIDSystemInfo 3 dict dup begin\n".as_bytes());
    buf.extend_slice("    /Registry ".as_bytes());
    info.registry.write(&mut buf);
    buf.extend_slice(" def\n".as_bytes());
    buf.extend_slice("    /Ordering ".as_bytes());
    info.ordering.write(&mut buf);
    buf.extend_slice(" def\n".as_bytes());
    buf.extend_slice("    /Supplement ".as_bytes());
    info.supplement.write(&mut buf);
    buf.extend_slice(" def\n".as_bytes());
    buf.extend_slice("end def\n".as_bytes());
    buf.extend_slice("/CMapName ".as_bytes());
    name.write(&mut buf);
    buf.extend_slice(" def\n".as_bytes());
    buf.extend_slice("/CMapVersion 1 def\n".as_bytes());
    buf.extend_slice("/CMapType 0 def\n".as_bytes());

    // We just cover the whole unicode codespace.
    buf.extend_slice("1 begincodespacerange\n".as_bytes());
    buf.extend_slice("<0000> <ffff>\n".as_bytes());
    buf.extend_slice("endcodespacerange\n".as_bytes());

    // The mappings.
    buf.push_decimal_usize(mapping.len());
    buf.extend_slice(" beginbfchar\n".as_bytes());
    let ghost start = buf@;
    let ghost f = |m: (u16, char)| cid_mapping_line(m);
    let mut i: usize = 0;
    assert(mapping@.take(0) =~= Seq::<(u16, char)>::empty());
    while i < mapping.len()
        invariant
            i <= mapping@.len(),
            buf@ == start + flat_map(mapping@.take(i as int), f),
            f == (|m: (u16, char)| cid_mapping_line(m)),
        decreases mapping@.len() - i,
    {
        proof {
            lemma_flat_map_step(mapping@, i as int, f);
        }
        let (cid, c) = mapping[i];
        buf.extend_slice("<".as_bytes());
        buf.push_hex_u16(cid);
        buf.extend_slice("> <".as_bytes());
        push_utf16(&mut buf, c);
        buf.extend_slice(">\n".as_bytes());
        i = i + 1;
    }
    proof {
        lemma_take_full(mapping@);
    }
    buf.extend_slice("endbfchar\n".as_bytes());

    // End of body.
    buf.extend_slice("endcmap\n".as_bytes());
    buf.extend_slice("CMapName currentdict /CMap defineresource pop\n".as_bytes());
    buf.extend_slice("end\n".as_bytes());
    buf.extend_slice("end\n".as_bytes());
    buf.extend_slice("%%EndResource\n".as_bytes());
    buf.extend_slice("%%EOF".as_bytes());
    reveal(cmap_program);
    assert(buf@ =~= cmap_program(
        name.0@,
        info.registry.0@,
        info.ordering.0@,
        info.supplement,
        mapping@,
    ));
    buf.into_bytes()
}

/// The entries of the dictionary of a character map after its `/Length`.
pub open spec fn cmap_entries_bytes(
    before: Seq<u8>,
    pretty: bool,
    name: Seq<u8>,
    registry: Seq<u8>,
    ordering: Seq<u8>,
    supplement: i32,
) -> Seq<u8> {
    let kind = dict_name_pair_bytes(before, pretty, 2, "Type".spec_bytes(), "CMap".spec_bytes());
    let cmap_name = dict_name_pair_bytes(before + kind, pretty, 2, "CMapName".spec_bytes(), name);
    let key = dict_key_bytes(pretty, 2, "CIDSystemInfo".spec_bytes());
    let info = system_info_dict_bytes(
        before + kind + cmap_name + key,
        pretty,
        4,
        false,
        registry,
        ordering,
        supplement,
    );
    kind + cmap_name + key + info
}

/// Write the entries of the dictionary of a character map after its
/// `/Length`.
#[verifier::spinoff_prover]
fn write_cmap_entries(stream: &mut Stream, name: Name, info: SystemInfo)
    requires
        old(stream).dict.len == 1,
        old(stream).dict.indent == 2,
        info.supplement != i32::MIN,
    ensures
        final(stream).dict.buf@ == old(stream).dict.buf@ + cmap_entries_bytes(
            old(stream).dict.buf@,
            old(stream).dict.settings.pretty,
            name.0@,
            info.registry.0@,
            info.ordering.0@,
            info.supplement,
        ),
        final(stream).dict.len == 4,
        final(stream).dict.indent == old(stream).dict.indent,
        final(stream).dict.indirect == old(stream).dict.indirect,
        final(stream).dict.settings == old(stream).dict.settings,
        final(stream).data == old(stream).data,
        *final(final(stream).dict.buf) == *final(old(stream).dict.buf),
{
    let ghost before = stream.dict.buf@;
    let ghost pretty = stream.dict.settings.pretty;
    let ghost kind = dict_name_pair_bytes(before, pretty, 2, "Type".spec_bytes(), "CMap".spec_bytes());
    let ghost cmap_name = dict_name_pair_bytes(before + kind, pretty, 2, "CMapName".spec_bytes(), name.0@);
    let ghost key = dict_key_bytes(pretty, 2, "CIDSystemInfo".spec_bytes());
    stream.pair(Name("Type".as_bytes()), Name("CMap".as_bytes()));
    assert(stream.dict.buf@ == before + kind);
    stream.pair(Name("CMapName".as_bytes()), name);
    assert(stream.dict.buf@ == before + kind + cmap_name);
    info.write(stream.insert(Name("CIDSystemInfo".as_bytes())));
    assert(stream.dict.buf@ =~= before + cmap_entries_bytes(
        before,
        pretty,
        name.0@,
        info.registry.0@,
        info.ordering.0@,
        info.supplement,
    ));
}

/// The stream object of a character map: its dictionary, with the type, the
/// name and the character collection, and its program.
pub open spec fn cmap_object_bytes(
    before: Seq<u8>,
    pretty: bool,
    id: Ref,
    name: Seq<u8>,
    registry: Seq<u8>,
    ordering: Seq<u8>,
    supplement: i32,
    data: Seq<u8>,
) -> Seq<u8> {
    let head = before + indirect_header(id) + "<<".spec_bytes();
    let length = dict_pair_enc_bytes(head, pretty, 2, "Length".spec_bytes(), decimal(data.len() as int), false);
    indirect_header(id) + "<<".spec_bytes() + length + cmap_entries_bytes(
        head + length,
        pretty,
        name,
        registry,
        ordering,
        supplement,
    ) + stream_close_bytes(pretty, data)
}

/// Write a character map object.
#[verifier::spinoff_prover]
pub fn write_cmap(
    w: &mut Chunk,
    id: Ref,
    name: Name,
    info: SystemInfo,
    mapping: &[(u16, char)],
)
    requires
        info.supplement != i32::MIN,
        cmap_program(name.0@, info.registry.0@, info.ordering.0@, info.supplement, mapping@).len()
            <= i32::MAX,
    ensures
        final(w).spec_bytes() == old(w).spec_bytes() + cmap_object_bytes(
            old(w).spec_bytes(),
            old(w).spec_settings().pretty,
            id,
            name.0@,
            info.registry.0@,
            info.ordering.0@,
            info.supplement,
            cmap_program(name.0@, info.registry.0@, info.ordering.0@, info.supplement, mapping@),
        ),
        final(w).spec_offsets() == old(w).spec_offsets().push(
            (id, old(w).spec_bytes().len() as usize),
        ),
        final(w).spec_settings() == old(w).spec_settings(),
{
    let buf = build_cmap_program(name, info, mapping);
    let ghost before = w.spec_bytes();
    let ghost pretty = w.spec_settings().pretty;
    let ghost head = before + indirect_header(id) + "<<".spec_bytes();
    let ghost length = dict_pair_enc_bytes(head, pretty, 2, "Length".spec_bytes(), decimal(buf@.len() as int), false);
    let mut stream = w.stream(id, buf.as_slice());
    assert(stream.dict.buf@ == head + length);
    write_cmap_entries(&mut stream, name, info);
    stream.finish();
    assert(w.spec_bytes() =~= before + cmap_object_bytes(
        before,
        w.spec_settings().pretty,
        id,
        name.0@,
        info.registry.0@,
        info.ordering.0@,
        info.supplement,
        buf@,
    ));
}

} // verus!
