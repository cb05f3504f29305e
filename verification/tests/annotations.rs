use pdf_writer::{Chunk, Name, Real, Rect, Ref};

fn rect(x1: &'static [u8], y1: &'static [u8], x2: &'static [u8], y2: &'static [u8]) -> Rect<'static> {
    Rect::new(Real(x1), Real(y1), Real(x2), Real(y2))
}

#[test]
fn test_annotations() {
    let mut chunk = Chunk::new();
    {
        let mut page = chunk.page(Ref::new(1));
        {
            let mut annots = page.dict.insert(Name(b"Annots")).array();
            {
                let mut annot = annots.push().dict();
                annot.pair(Name(b"Type"), Name(b"Annot"));
                annot.pair(Name(b"Rect"), rect(b"0", b"0", b"1", b"1"));
                annot.finish();
            }
            {
                let mut annot = annots.push().dict();
                annot.pair(Name(b"Type"), Name(b"Annot"));
                annot.pair(Name(b"Rect"), rect(b"1", b"1", b"0", b"0"));
                annot.finish();
            }
            annots.finish();
        }
        page.bleed_box(rect(b"-100", b"-100", b"100", b"100"));
        page.finish();
    }
    let expected: &[&[u8]] = &[
        b"1 0 obj",
        b"<<",
        b"  /Type /Page",
        b"  /Annots [<<",
        b"    /Type /Annot",
        b"    /Rect [0 0 1 1]",
        b"  >> <<",
        b"    /Type /Annot",
        b"    /Rect [1 1 0 0]",
        b"  >>]",
        b"  /BleedBox [-100 -100 100 100]",
        b">>",
        b"endobj\n\n",
    ];
    assert_eq!(
        String::from_utf8_lossy(chunk.as_bytes()),
        String::from_utf8_lossy(&expected.join(&b"\n"[..]))
    );
}
