use pdf_writer::types::{LineCapStyle, TextRenderingMode};
use pdf_writer::{Content, Name, Real, Str};

#[test]
fn content_operations() {
    let mut content = Content::new();
    content
        .save_state()
        .set_line_cap(LineCapStyle::RoundCap)
        .set_flatness(50)
        .begin_text()
        .set_text_rendering_mode(TextRenderingMode::Stroke)
        .show(Str(b"Hi"))
        .end_text()
        .x_object(Name(b"Im1"))
        .close_path()
        .fill_even_odd()
        .restore_state();
    let buf = content.finish();
    assert_eq!(
        String::from_utf8_lossy(buf.as_slice()),
        "q\n1 J\n50 i\nBT\n1 Tr\n(Hi) Tj\nET\n/Im1 Do\nh\nf*\nQ"
    );
}

#[test]
fn content_nesting_depth() {
    let mut content = Content::new();
    assert_eq!(content.state_nesting_depth(), 0);
    content.save_state().save_state();
    assert_eq!(content.state_nesting_depth(), 2);
    content.restore_state();
    assert_eq!(content.state_nesting_depth(), 1);
    content.restore_state().restore_state();
    assert_eq!(content.state_nesting_depth(), 0);
}

#[test]
fn content_custom_operation() {
    let mut content = Content::new();
    let mut op = content.op("cm");
    op.operands(&[1, 0, 0, 1, 20, 30]);
    op.finish();
    content.op("n").finish();
    let buf = content.finish();
    assert_eq!(String::from_utf8_lossy(buf.as_slice()), "1 0 0 1 20 30 cm\nn");
}

#[test]
fn empty_content() {
    assert!(Content::new().finish().as_slice().is_empty());
}

/// The text a real number is written as: without a decimal point when it is
/// whole, else as the shortest decimal that reads back as the same value.
fn real_text(v: f32) -> Vec<u8> {
    if v as i32 as f32 == v {
        itoa::Buffer::new().format(v as i32).as_bytes().to_vec()
    } else if v == 0.0 || (v.abs() > 1e-6 && v.abs() < 1e12) {
        ryu::Buffer::new().format(v).as_bytes().to_vec()
    } else {
        format!("{}", v).into_bytes()
    }
}

#[test]
fn test_content_encoding() {
    let (one, two, three, four) = (real_text(1.0), real_text(2.0), real_text(3.0), real_text(4.0));
    let (seven, three_five) = (real_text(7.0), real_text(3.5));
    let mut content = Content::new();
    content
        .save_state()
        .rect(Real(&one), Real(&two), Real(&three), Real(&four))
        .fill_nonzero()
        .set_dash_pattern(&[Real(&seven), Real(&two)], Real(&four))
        .x_object(Name(b"MyImage"))
        .set_fill_pattern(&[Real(&two), Real(&three_five)], Name(b"MyPattern"))
        .restore_state();

    assert_eq!(
        content.finish().as_slice(),
        b"q\n1 2 3 4 re\nf\n[7 2] 4 d\n/MyImage Do\n2 3.5 /MyPattern scn\nQ"
    );
}

#[test]
fn test_content_text() {
    let (twelve, two) = (real_text(12.0), real_text(2.0));
    let mut content = Content::new();

    content.set_font(Name(b"F1"), Real(&twelve));
    content.begin_text();
    let mut shown = content.show_positioned();
    shown.items().finish();
    shown.finish();
    let mut shown = content.show_positioned();
    let mut items = shown.items();
    items.show(Str(b"AB")).adjust(Real(&two)).show(Str(b"CD"));
    items.finish();
    shown.finish();
    content.end_text();

    assert_eq!(
        content.finish().as_slice(),
        b"/F1 12 Tf\nBT\n[] TJ\n[(AB) 2 (CD)] TJ\nET"
    );
}

#[test]
fn path_and_color_operators() {
    let n = |v: f32| real_text(v);
    let (a, b, c, d, e, f) = (n(0.5), n(1.0), n(-2.25), n(3.0), n(0.0), n(10.0));
    let mut content = Content::new();
    content
        .move_to(Real(&a), Real(&b))
        .line_to(Real(&c), Real(&d))
        .cubic_to(Real(&a), Real(&b), Real(&c), Real(&d), Real(&e), Real(&f))
        .close_path()
        .set_line_width(Real(&d))
        .set_fill_rgb(Real(&a), Real(&b), Real(&e))
        .set_stroke_gray(Real(&a))
        .transform([Real(&b), Real(&e), Real(&e), Real(&b), Real(&f), Real(&c)])
        .start_color_glyph(Real(&f));
    assert_eq!(
        content.finish().as_slice(),
        b"0.5 1 m\n-2.25 3 l\n0.5 1 -2.25 3 0 10 c\nh\n3 w\n0.5 1 0 rg\n0.5 G\n1 0 0 1 10 -2.25 cm\n10 0 d0"
    );
}

#[test]
fn real_number_texts() {
    assert!(Real(b"4.22").is_valid());
    assert!(Real(b"-0.5").is_valid());
    assert!(Real(b"42000000000000").is_valid());
    assert!(!Real(b"").is_valid());
    assert!(!Real(b"-").is_valid());
    assert!(!Real(b"1.2.3").is_valid());
    assert!(!Real(b"1-2").is_valid());
    assert!(!Real(b"NaN").is_valid());
    assert_eq!(real_text(4.22), b"4.22");
    assert_eq!(real_text(1.184e-7), b"0.0000001184");
    assert_eq!(real_text(4.2e13), b"42000000000000");
}

#[test]
fn content_limits() {
    let mut content = Content::new();
    content
        .set_flatness(50)
        .set_font(Name(b"Font1"), Real(b"12"))
        .show(Str(b"Hello"))
        .set_dash_pattern(&[Real(b"1"), Real(b"2"), Real(b"3")], Real(b"0"))
        .move_to(Real(b"100000"), Real(b"-7"));
    let buf = content.finish();
    let limits = buf.limits();
    assert_eq!(limits.int_limit(), 50);
    assert_eq!(limits.name_len(), 5);
    assert_eq!(limits.str_len(), 5);
    assert_eq!(limits.array_len(), 3);
    assert_eq!(limits.dict_entries(), 0);
}
