use pdf_writer::{Chunk, Name, Pdf, Ref};

#[test]
fn test_chunk() {
    let mut w = Pdf::new();
    let mut font = w.chunk().type3_font(Ref::new(1));
    let mut c = Chunk::new();
    let mut descriptor = c.font_descriptor(Ref::new(2));
    descriptor.name(Name(b"MyFont"));
    descriptor.finish();
    font.font_descriptor(Ref::new(2));
    font.finish();
    w.extend(&c);
    let expected: [&[u8]; 16] = [
        b"%PDF-1.7\n%\x80\x80\x80\x80\n",
        b"1 0 obj",
        b"<<\n  /Type /Font\n  /Subtype /Type3\n  /FontDescriptor 2 0 R\n>>",
        b"endobj\n",
        b"2 0 obj",
        b"<<\n  /Type /FontDescriptor\n  /FontName /MyFont\n>>",
        b"endobj\n",
        b"xref",
        b"0 3",
        b"0000000000 65535 f\r",
        b"0000000016 00000 n\r",
        b"0000000094 00000 n\r",
        b"trailer",
        b"<<\n  /Size 3\n>>",
        b"startxref\n160\n%%EOF",
        b"",
    ];
    let expected = expected[..15].join(&b"\n"[..]);
    let buf = w.finish();
    assert_eq!(String::from_utf8_lossy(&buf), String::from_utf8_lossy(&expected));
}

#[test]
fn chunk_refs_and_offsets() {
    let mut c = Chunk::new();
    c.indirect(Ref::new(4)).primitive(true);
    c.indirect(Ref::new(9)).primitive(false);
    assert_eq!(c.refs(), vec![Ref::new(4), Ref::new(9)]);
    assert_eq!(c.as_bytes(), b"4 0 obj\ntrue\nendobj\n\n9 0 obj\nfalse\nendobj\n\n");
}

#[test]
fn chunk_limits_of_started_writers() {
    let mut chunk = Chunk::new();
    chunk.page(Ref::new(7)).finish();
    let limits = chunk.limits();
    assert_eq!(limits.int_limit(), 7);
    assert_eq!(limits.name_len(), 4);
    assert_eq!(limits.dict_entries(), 1);
    assert_eq!(limits.array_len(), 0);
}
