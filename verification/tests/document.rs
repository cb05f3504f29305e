use pdf_writer::types::StructRole2;
use pdf_writer::{determine_field_width, Filter, Pdf, Ref, XRefFilter};

/// Check that `buf` is the concatenation of the lines, joined by newlines.
fn check(buf: Vec<u8>, lines: &[&[u8]]) {
    let expected = lines.join(&b"\n"[..]);
    if buf != expected {
        println!("=========== EXPECTED =============");
        println!("{}", String::from_utf8_lossy(&expected));
        println!("============= FOUND ==============");
        println!("{}", String::from_utf8_lossy(&buf));
        println!("=============================");
        panic!("assertion failed");
    }
}

#[test]
fn lib_test_minimal() {
    let w = Pdf::new();
    check(
        w.finish(),
        &[
            b"%PDF-1.7\n%\x80\x80\x80\x80\n",
            b"xref\n0 1\n0000000000 65535 f\r",
            b"trailer\n<<\n  /Size 1\n>>",
            b"startxref\n16\n%%EOF",
        ],
    );
}

#[test]
fn lib_test_xref_free_list_short() {
    let mut w = Pdf::new();
    w.indirect(Ref::new(1)).primitive(1);
    w.indirect(Ref::new(2)).primitive(2);
    check(
        w.finish(),
        &[
            b"%PDF-1.7\n%\x80\x80\x80\x80\n",
            b"1 0 obj\n1\nendobj\n",
            b"2 0 obj\n2\nendobj\n",
            b"xref",
            b"0 3",
            b"0000000000 65535 f\r",
            b"0000000016 00000 n\r",
            b"0000000034 00000 n\r",
            b"trailer",
            b"<<\n  /Size 3\n>>",
            b"startxref\n52\n%%EOF",
        ],
    );
}

#[test]
fn lib_test_xref_free_list_long() {
    let mut w = Pdf::new();
    w.set_version(1, 4);
    w.indirect(Ref::new(1)).primitive(1);
    w.indirect(Ref::new(2)).primitive(2);
    w.indirect(Ref::new(5)).primitive(5);
    check(
        w.finish(),
        &[
            b"%PDF-1.4\n%\x80\x80\x80\x80\n",
            b"1 0 obj\n1\nendobj\n",
            b"2 0 obj\n2\nendobj\n",
            b"5 0 obj\n5\nendobj\n",
            b"xref",
            b"0 6",
            b"0000000003 65535 f\r",
            b"0000000016 00000 n\r",
            b"0000000034 00000 n\r",
            b"0000000004 00000 f\r",
            b"0000000000 00000 f\r",
            b"0000000052 00000 n\r",
            b"trailer",
            b"<<\n  /Size 6\n>>",
            b"startxref\n70\n%%EOF",
        ],
    );
}

#[test]
fn test_binary_marker() {
    let mut w = Pdf::new();
    w.set_binary_marker(b"ABCD");
    check(
        w.finish(),
        &[
            b"%PDF-1.7\n%ABCD\n",
            b"xref\n0 1\n0000000000 65535 f\r",
            b"trailer\n<<\n  /Size 1\n>>",
            b"startxref\n16\n%%EOF",
        ],
    );
}

#[test]
fn field_width() {
    assert_eq!(determine_field_width(128), 1);
    assert_eq!(determine_field_width(255), 1);
    assert_eq!(determine_field_width(256), 2);
    assert_eq!(determine_field_width(u16::MAX as usize), 2);
    assert_eq!(determine_field_width(u16::MAX as usize + 1), 3);
    assert_eq!(determine_field_width(u32::MAX as usize), 4);
}

#[test]
fn test_xref_stream() {
    let mut w = Pdf::new();
    w.indirect(Ref::new(1)).primitive(1);
    w.indirect(Ref::new(2)).primitive(2);
    w.indirect(Ref::new(5)).primitive(5);
    check(
        w.finish_with_xref_stream(Ref::new(6)),
        &[
            b"%PDF-1.7\n%\x80\x80\x80\x80\n",
            b"1 0 obj\n1\nendobj\n",
            b"2 0 obj\n2\nendobj\n",
            b"5 0 obj\n5\nendobj\n",
            b"6 0 obj\n<<\n  /Length 28\n  /Type /XRef\n  /Size 7\n  /W [1 1 2]\n>>\nstream",
            b"\x00\x03\xFF\xFF\x01\x10\x00\x00\x01\x22\x00\x00\x00\x04\x00\x00\x00\x00\x00\x00\x01\x34\x00\x00\x01\x46\x00\x00",
            b"endstream\nendobj\n",
            b"startxref\n70\n%%EOF",
        ],
    );
}

#[test]
fn test_xref_stream_single_filter() {
    let mut w = Pdf::new();
    w.indirect(Ref::new(1)).primitive(1);
    check(
        w.finish_with_xref_stream_and_filter(Ref::new(2), |_| {
            (b"ABCDEFGH".to_vec(), XRefFilter::Single(Filter::FlateDecode))
        }),
        &[
            b"%PDF-1.7\n%\x80\x80\x80\x80\n",
            b"1 0 obj\n1\nendobj\n",
            b"2 0 obj\n<<\n  /Length 8\n  /Type /XRef\n  /Filter /FlateDecode\n  /Size 3\n  /W [1 1 2]\n>>\nstream",
            b"ABCDEFGH",
            b"endstream\nendobj\n",
            b"startxref\n34\n%%EOF",
        ],
    );
}

#[test]
fn test_xref_stream_multiple_filters() {
    let mut w = Pdf::new();
    w.indirect(Ref::new(1)).primitive(1);
    check(
        w.finish_with_xref_stream_and_filter(Ref::new(2), |_| {
            (
                b"ABCDEFGH".to_vec(),
                XRefFilter::Multiple(vec![Filter::AsciiHexDecode, Filter::FlateDecode]),
            )
        }),
        &[
            b"%PDF-1.7\n%\x80\x80\x80\x80\n",
            b"1 0 obj\n1\nendobj\n",
            b"2 0 obj\n<<\n  /Length 8\n  /Type /XRef\n  /Filter [/ASCIIHexDecode /FlateDecode]\n  /Size 3\n  /W [1 1 2]\n>>\nstream",
            b"ABCDEFGH",
            b"endstream\nendobj\n",
            b"startxref\n34\n%%EOF",
        ],
    );
}

#[test]
fn test_xref_width2() {
    let mut w = Pdf::new();
    w.stream(Ref::new(1), &[b'0'; 256]).finish();
    w.indirect(Ref::new(2)).primitive(1);
    check(
        w.finish_with_xref_stream(Ref::new(3)),
        &[
            b"%PDF-1.7\n%\x80\x80\x80\x80\n",
            b"1 0 obj\n<<\n  /Length 256\n>>\nstream",
            &[b'0'; 256][..],
            b"endstream\nendobj\n",
            b"2 0 obj\n1\nendobj\n",
            b"3 0 obj\n<<\n  /Length 20\n  /Type /XRef\n  /Size 4\n  /W [1 2 2]\n>>\nstream",
            b"\x00\x00\x00\xFF\xFF\x01\x00\x10\x00\x00\x01\x01\x46\x00\x00\x01\x01\x58\x00\x00",
            b"endstream\nendobj\n",
            b"startxref\n344\n%%EOF",
        ],
    );
}

#[test]
fn test_max_heading_name() {
    assert_eq!(StructRole2::Heading(u16::MAX).to_name_bytes(), b"H65535".to_vec());
}
