use pdf_writer::types::WMode;
use pdf_writer::{write_cmap, Chunk, Name, Ref, Str, SystemInfo, TextStream, UnicodeCmap};

const INFO: SystemInfo = SystemInfo { registry: Str(b"Adobe"), ordering: Str(b"Identity"), supplement: 0 };

#[test]
fn unicode_cmap() {
    let mut cmap: UnicodeCmap = UnicodeCmap::new(Name(b"Custom"), INFO);
    cmap.pair(0x0041, 'A');
    cmap.pair_with_multiple(0x0042, &['f', 'i']);
    cmap.pair(0x0043, '😀');
    let text = String::from_utf8(cmap.finish().into_bytes()).unwrap();
    assert!(text.starts_with("%!PS-Adobe-3.0 Resource-CMap\n"));
    assert!(text.contains("%%Title: (Custom Adobe Identity 0)\n"));
    assert!(text.contains("/CMapName /Custom def\n"));
    assert!(text.contains("/WMode 0 def\n"));
    assert!(text.contains("1 begincodespacerange\n<0000> <FFFF>\nendcodespacerange\n"));
    assert!(text.contains("3 beginbfchar\n<0041> <0041>\n<0042> <00660069>\n<0043> <D83DDE00>\nendbfchar\n"));
    assert!(text.ends_with("endcmap\nCMapName currentdict /CMap defineresource pop\nend\nend\n%%EndResource\n%%EOF"));
}

#[test]
fn unicode_cmap_ranges_of_one_hundred() {
    let mut cmap: UnicodeCmap<u8> = UnicodeCmap::with_writing_mode(Name(b"Big"), INFO, WMode::Vertical);
    for i in 0..=250u8 {
        cmap.pair(i, 'x');
    }
    let text = String::from_utf8(cmap.finish().into_bytes()).unwrap();
    assert!(text.contains("/WMode 1 def\n"));
    assert!(text.contains("<00> <FF>\n"));
    assert_eq!(text.matches("100 beginbfchar\n").count(), 2);
    assert_eq!(text.matches("51 beginbfchar\n").count(), 1);
    assert_eq!(text.matches("endbfchar\n").count(), 3);
    assert!(text.contains("<63> <0078>\nendbfchar\n100 beginbfchar\n<64> <0078>\n"));
}

#[test]
fn character_map_object() {
    let mut chunk = Chunk::new();
    write_cmap(&mut chunk, Ref::new(3), Name(b"Custom"), INFO, &[(1, 'a')]);
    let text = String::from_utf8(chunk.as_bytes().to_vec()).unwrap();
    assert!(text.starts_with("3 0 obj\n<<\n  /Length "));
    assert!(text.contains("  /Type /CMap\n  /CMapName /Custom\n  /CIDSystemInfo <<\n    /Registry (Adobe)\n    /Ordering (Identity)\n    /Supplement 0\n  >>\n>>\nstream\n"));
    assert!(text.contains("9 dict begin\n"));
    assert!(text.contains("/CMapName /Custom def\n"));
    assert!(text.contains("1 beginbfchar\n<0001> <0061>\nendbfchar\n"));
    assert!(text.ends_with("%%EOF\nendstream\nendobj\n\n"));
}

#[test]
fn text_stream() {
    let bytes = TextStream::new().tj(&[0x12, 0xAB]).tj(b"").end();
    assert_eq!(bytes, b"BT\n<12AB> Tj\n<> Tj\nET".to_vec());
}

#[test]
fn unicode_cmap_limits() {
    let mut cmap: UnicodeCmap = UnicodeCmap::new(Name(b"Custom"), INFO);
    for glyph in 0..150u16 {
        cmap.pair(glyph, 'a');
    }
    let buf = cmap.finish();
    assert_eq!(buf.limits().int_limit(), 100);
    assert_eq!(buf.limits().name_len(), 6);
    assert_eq!(buf.limits().str_len(), 8);

    let mut small: UnicodeCmap = UnicodeCmap::new(Name(b"C"), INFO);
    for glyph in 0..42u16 {
        small.pair(glyph, 'b');
    }
    assert_eq!(small.finish().limits().int_limit(), 42);
}

#[test]
fn text_stream_operators() {
    let bytes = TextStream::new()
        .tf(Name(b"F1"), pdf_writer::Real(b"12"))
        .td(pdf_writer::Real(b"100"), pdf_writer::Real(b"-7.5"))
        .tm(
            pdf_writer::Real(b"1"),
            pdf_writer::Real(b"0"),
            pdf_writer::Real(b"0"),
            pdf_writer::Real(b"1"),
            pdf_writer::Real(b"50"),
            pdf_writer::Real(b"60"),
        )
        .tj(b"Hi")
        .end();
    assert_eq!(
        String::from_utf8(bytes).unwrap(),
        "BT\n/F1 12 Tf\n100 -7.5 Td\n1 0 0 1 50 60 Tm\n<4869> Tj\nET"
    );
}
