use pdf_writer::{Date, Filter, Name, Null, Obj, Pdf, Real, Ref, Settings, Str, TextStr};

/// The text a real number is written as: without a decimal point when it is
/// whole, else as the shortest decimal that reads back as the same value.
fn real_text(v: f32) -> Vec<u8> {
    if v as i32 as f32 == v {
        itoa::Buffer::new().format(v as i32).as_bytes().to_vec()
    } else if v == 0.0 || (v.abs() > 1e-6 && v.abs() < 1e12) {
        ryu::Buffer::new().format(v).as_bytes().to_vec()
    } else {
        format!("{}", v).into_bytes()
    }
}

/// Check that `buf` is the concatenation of the lines, joined by newlines.
fn check(buf: Vec<u8>, lines: &[&[u8]]) {
    let expected = lines.join(&b"\n"[..]);
    if buf != expected {
        println!("=========== EXPECTED =============");
        println!("{}", String::from_utf8_lossy(&expected));
        println!("============= FOUND ==============");
        println!("{}", String::from_utf8_lossy(&buf));
        println!("=============================");
        panic!("assertion failed");
    }
}

/// The bytes written during the execution of `f`.
fn slice<F>(f: F, settings: Settings) -> Vec<u8>
where
    F: FnOnce(&mut Pdf),
{
    let mut w = Pdf::with_settings(settings);
    let start = w.len();
    f(&mut w);
    let end = w.len();
    let buf = w.finish();
    buf[start..end].to_vec()
}

/// The bytes written for an object.
fn slice_obj<F>(f: F, settings: Settings) -> Vec<u8>
where
    F: FnOnce(Obj<'_>),
{
    let buf = slice(|w| f(w.indirect(Ref::new(1))), settings);
    if settings.pretty {
        buf[8..buf.len() - 9].to_vec()
    } else {
        buf[8..buf.len() - 8].to_vec()
    }
}

fn obj(f: impl FnOnce(Obj<'_>), expected: &[u8]) {
    check(slice_obj(f, Settings::default()), &[expected]);
}

fn obj_no_pretty(f: impl FnOnce(Obj<'_>), expected: &[u8]) {
    check(slice_obj(f, Settings { pretty: false }), &[expected]);
}

#[test]
fn object_test_primitive_objects() {
    // Test really simple objects.
    obj(|o| o.primitive(true), b"true");
    obj(|o| o.primitive(false), b"false");
    obj(|o| o.primitive(78), b"78");
    obj(|o| o.primitive(Real(&real_text(4.22))), b"4.22");
    obj(|o| o.primitive(Real(&real_text(1.184e-7))), b"0.0000001184");
    obj(|o| o.primitive(Real(&real_text(4.2e13))), b"42000000000000");
    obj(|o| o.primitive(Ref::new(7)), b"7 0 R");
    obj(|o| o.primitive(Null), b"null");

    // Test strings.
    obj(|o| o.primitive(Str(b"Hello, World!")), b"(Hello, World!)");
    obj(|o| o.primitive(Str(b"()")), br"(())");
    obj(|o| o.primitive(Str(b")()")), br"(\)\(\))");
    obj(|o| o.primitive(Str(b"()(())")), br"(()(()))");
    obj(|o| o.primitive(Str(b"(()))")), br"(\(\(\)\)\))");
    obj(|o| o.primitive(Str(b"\\")), br"(\\)");
    obj(|o| o.primitive(Str(b"\n\ta")), br"(\n\ta)");
    obj(|o| o.primitive(Str(br"\n")), br"(\\n)");
    obj(|o| o.primitive(Str(b"a\x14b")), br"(a\024b)");
    obj(|o| o.primitive(Str(b"\xFF\xAA")), b"<FFAA>");
    obj(|o| o.primitive(Str(b"\x0A\x7F\x1F")), br"(\n\177\037)");

    // Test text strings.
    obj(|o| o.primitive(TextStr("Hallo")), b"(Hallo)");
    obj(|o| o.primitive(TextStr("😀!")), b"<FEFFD83DDE000021>");

    // Test names.
    obj(|o| o.primitive(Name(b"Filter")), b"/Filter");
    obj(|o| o.primitive(Name(b"A B")), br"/A#20B");
    obj(|o| o.primitive(Name(b"~+c")), br"/~+c");
    obj(|o| o.primitive(Name(b"/A-B")), br"/#2FA-B");
    obj(|o| o.primitive(Name(b"<A>")), br"/#3CA#3E");
    obj(|o| o.primitive(Name(b"#")), br"/#23");
    obj(|o| o.primitive(Name(b"\n")), br"/#0A");
}

#[test]
fn object_test_dates() {
    obj(|o| o.primitive(Date::new(2021)), b"(D:2021)");
    obj(|o| o.primitive(Date::new(2021).month(30)), b"(D:202112)");

    let date = Date::new(2020).month(3).day(17).hour(1).minute(2).second(3);
    obj(|o| o.primitive(date), b"(D:20200317010203)");
    obj(|o| o.primitive(date.utc_offset_hour(0)), b"(D:20200317010203Z)");
    obj(|o| o.primitive(date.utc_offset_hour(4)), b"(D:20200317010203+04'00)");
    obj(
        |o| o.primitive(date.utc_offset_hour(-17).utc_offset_minute(10)),
        b"(D:20200317010203-17'10)",
    );
}

#[test]
fn object_test_arrays() {
    obj(|o| o.array().finish(), b"[]");
    obj(
        |o| {
            let mut array = o.array();
            array.item(12).item(Null);
            array.finish();
        },
        b"[12 null]",
    );
    obj(
        |o| {
            let mut array = o.array().typed();
            array.items(&[1, 2, 3]);
            array.finish();
        },
        b"[1 2 3]",
    );
    obj(
        |o| {
            let mut array = o.array();
            let mut inner = array.push().array().typed();
            inner.items(&[1, 2]);
            inner.finish();
            array.item(3);
            array.finish();
        },
        b"[[1 2] 3]",
    );
}

#[test]
fn object_test_dicts() {
    obj(|o| o.dict().finish(), b"<<>>");
    obj(
        |o| {
            let mut dict = o.dict();
            dict.pair(Name(b"Quality"), Name(b"Good"));
            dict.finish();
        },
        b"<<\n  /Quality /Good\n>>",
    );
    obj(
        |o| {
            let mut dict = o.dict();
            dict.pair(Name(b"A"), 1).pair(Name(b"B"), 2);
            dict.finish();
        },
        b"<<\n  /A 1\n  /B 2\n>>",
    );
}

#[test]
fn object_test_streams() {
    let mut w = Pdf::new();
    let mut stream = w.stream(Ref::new(1), &b"Hi there!"[..]);
    stream.filter(Filter::Crypt);
    stream.finish();
    check(
        w.finish(),
        &[
            b"%PDF-1.7\n%\x80\x80\x80\x80\n",
            b"1 0 obj",
            b"<<\n  /Length 9\n  /Filter /Crypt\n>>",
            b"stream",
            b"Hi there!",
            b"endstream",
            b"endobj\n",
            b"xref",
            b"0 2",
            b"0000000000 65535 f\r",
            b"0000000016 00000 n\r",
            b"trailer",
            b"<<\n  /Size 2\n>>",
            b"startxref\n94\n%%EOF",
        ],
    );
}

#[test]
fn test_arrays_no_pretty() {
    obj_no_pretty(|o| o.array().finish(), b"[]");
    let number = real_text(23.40);
    obj_no_pretty(
        |o| {
            let mut array = o.array();
            array
                .item(12)
                .item(Name(b"Hi"))
                .item(Name(b"Hi2"))
                .item(false)
                .item(TextStr("A String"))
                .item(Null)
                .item(Real(&number));
            array.finish();
        },
        b"[12/Hi/Hi2 false(A String)null 23.4]",
    );
}

#[test]
fn test_dicts_no_pretty() {
    obj_no_pretty(|o| o.dict().finish(), b"<<>>");
    let number = real_text(23.40);
    obj_no_pretty(
        |o| {
            let mut dict = o.dict();
            dict.pair(Name(b"Key1"), 12)
                .pair(Name(b"Key2"), Name(b"Hi"))
                .pair(Name(b"Key3"), false)
                .pair(Name(b"Key4"), TextStr("A string"))
                .pair(Name(b"Key5"), Null)
                .pair(Name(b"Key6"), Real(&number));
            dict.finish();
        },
        b"<</Key1 12/Key2/Hi/Key3 false/Key4(A string)/Key5 null/Key6 23.4>>",
    );
}
