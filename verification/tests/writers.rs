use pdf_writer::types::{ColorSpaceType, ListNumbering, PaintType};
use pdf_writer::{Chunk, Content, Name, Real, Rect, Ref, TextStr};

/// The bytes that `f` writes into a fresh chunk.
fn written<F: FnOnce(&mut Chunk)>(f: F) -> Vec<u8> {
    let mut chunk = Chunk::new();
    f(&mut chunk);
    chunk.as_bytes().to_vec()
}

/// The bytes of the indirect object `1 0 obj` holding `body`.
fn object(body: &str) -> Vec<u8> {
    format!("1 0 obj\n{}\nendobj\n\n", body).into_bytes()
}

fn check(found: Vec<u8>, expected: Vec<u8>) {
    assert_eq!(String::from_utf8_lossy(&found), String::from_utf8_lossy(&expected));
}

#[test]
fn color_space_families() {
    check(written(|c| c.color_space(Ref::new(1)).icc_based(Ref::new(2))), object("[/ICCBased 2 0 R]"));
    check(written(|c| c.color_space(Ref::new(1)).device_cmyk()), object("/DeviceCMYK"));
    check(
        written(|c| c.color_space(Ref::new(1)).indexed(Name(b"DeviceRGB"), 1, &[0, 0, 0, 255, 255, 255])),
        object("[/Indexed /DeviceRGB 1 <000000FFFFFF>]"),
    );
    check(
        written(|c| c.color_space(Ref::new(1)).pattern(Name(b"DeviceGray"))),
        object("[/Pattern /DeviceGray]"),
    );
}

#[test]
fn separation_alternate_before_tint() {
    let out = written(|c| {
        let mut sep = c.color_space(Ref::new(1)).separation(Name(b"Spot"));
        sep.alternate_device(ColorSpaceType::DeviceCmyk).tint_ref(Ref::new(5));
        sep.finish();
    });
    check(out, object("[/Separation /Spot /DeviceCMYK 5 0 R]"));
}

#[test]
fn device_n_with_attributes() {
    let out = written(|c| {
        let mut space = c.color_space(Ref::new(1)).device_n(&[Name(b"Cyan"), Name(b"Spot")], Name(b"DeviceCMYK"), Ref::new(4));
        let mut attrs = space.attrs();
        let mut process = attrs.process();
        process.color_space(Name(b"DeviceCMYK")).components(&[Name(b"Cyan")]);
        process.finish();
        attrs.finish();
        space.finish();
    });
    check(
        out,
        object("[/DeviceN [/Cyan /Spot] /DeviceCMYK 4 0 R <<\n  /Process <<\n    /ColorSpace /DeviceCMYK\n    /Components [/Cyan]\n  >>\n>>]"),
    );
}

#[test]
fn calibrated_color_spaces() {
    let white = [Real(b"0.9505"), Real(b"1"), Real(b"1.0888")];
    let gamma = [Real(b"2.2"), Real(b"2.2"), Real(b"2.2")];
    check(
        written(|c| c.color_space(Ref::new(1)).cal_rgb(white, None, Some(gamma), None)),
        object("[/CalRGB <<\n  /WhitePoint [0.9505 1 1.0888]\n  /Gamma [2.2 2.2 2.2]\n>>]"),
    );
    check(
        written(|c| c.color_space(Ref::new(1)).cal_gray(white, None, Some(Real(b"2.2")))),
        object("[/CalGray <<\n  /WhitePoint [0.9505 1 1.0888]\n  /Gamma 2.2\n>>]"),
    );
}

#[test]
fn destinations() {
    check(
        written(|c| c.destination(Ref::new(1)).page(Ref::new(7)).xyz(Real(b"10"), Real(b"20"), None)),
        object("[7 0 R /XYZ 10 20 0]"),
    );
    check(written(|c| c.destination(Ref::new(1)).page(Ref::new(7)).fit()), object("[7 0 R /Fit]"));
    check(
        written(|c| c.destination(Ref::new(1)).page(Ref::new(7)).fit_horizontal(Real(b"-5.5"))),
        object("[7 0 R /FitH -5.5]"),
    );
}

#[test]
fn choice_options_with_exports() {
    let out = written(|c| {
        let mut field = c.form_field(Ref::new(1));
        let mut options = field.choice_options();
        options.option(TextStr("A")).export(TextStr("B"), TextStr("b"));
        options.finish();
        field.finish();
    });
    check(out, object("<<\n  /Opt [(A) [(b) (B)]]\n>>"));
}

#[test]
fn exponential_function_dictionary() {
    let out = written(|c| {
        let mut f = c.exponential_function(Ref::new(1));
        f.domain(&[&[Real(b"0"), Real(b"1")]])
            .c0(&[Real(b"0")])
            .c1(&[Real(b"1")])
            .n(Real(b"1"));
        f.finish();
    });
    check(out, object("<<\n  /FunctionType 2\n  /Domain [[0 1]]\n  /C0 [0]\n  /C1 [1]\n  /N 1\n>>"));
}

#[test]
fn structure_attributes() {
    let out = written(|c| {
        let mut element = c.struct_element(Ref::new(1));
        let mut attributes = element.attributes();
        let mut list = attributes.push().list();
        list.list_numbering(ListNumbering::Decimal);
        list.finish();
        attributes.finish();
        element.finish();
    });
    check(
        out,
        object("<<\n  /Type /StructElem\n  /A [<<\n    /O /List\n    /ListNumbering /Decimal\n  >>]\n>>"),
    );
}

#[test]
fn marked_content_with_properties() {
    let mut content = Content::new();
    let mut marked = content.begin_marked_content_with_properties(Name(b"Span"));
    let mut properties = marked.properties();
    properties.actual_text(TextStr("x"));
    properties.finish();
    marked.finish();
    content.end_marked_content();
    assert_eq!(content.finish().as_slice(), b"/Span <<\n  /ActualText (x)\n>> BDC\nEMC");
}

#[test]
fn annotation_border_and_page_boxes() {
    let out = written(|c| {
        let mut annotation = c.annotation(Ref::new(1));
        annotation.border(Real(b"0"), Real(b"0"), Real(b"1"), Some(&[Real(b"3"), Real(b"2")]));
        annotation.color_transparent();
        annotation.finish();
    });
    check(out, object("<<\n  /Type /Annot\n  /Border [0 0 1 [3 2]]\n  /C []\n>>"));
    let out = written(|c| {
        let mut page = c.page(Ref::new(1));
        page.media_box(Rect::new(Real(b"0"), Real(b"0"), Real(b"595"), Real(b"842")));
        let mut resources = page.resources();
        resources.proc_sets_all();
        resources.finish();
        page.finish();
    });
    check(
        out,
        object("<<\n  /Type /Page\n  /MediaBox [0 0 595 842]\n  /Resources <<\n    /ProcSet [/PDF /Text /ImageB /ImageC /ImageI]\n  >>\n>>"),
    );
}

#[test]
fn tiling_pattern_stream() {
    let out = written(|c| {
        let mut pattern = c.tiling_pattern(Ref::new(1), b"");
        pattern.paint_type(PaintType::Colored);
        pattern.finish();
    });
    check(
        out,
        object("<<\n  /Length 0\n  /Type /Pattern\n  /PatternType 1\n  /PaintType 1\n>>\nstream\n\nendstream"),
    );
}

#[test]
fn cid_widths() {
    let out = written(|c| {
        let mut font = c.cid_font(Ref::new(1));
        let mut widths = font.widths();
        widths.consecutive(3, &[Real(b"500"), Real(b"600")]).same(10, 20, Real(b"250.5"));
        widths.finish();
        font.finish();
    });
    check(out, object("<<\n  /Type /Font\n  /W [3 [500 600] 10 20 250.5]\n>>"));
}

/// The decimal text of an `f32`, as the writers of real numbers expect it.
fn real_text(v: f32) -> Vec<u8> {
    if v as i32 as f32 == v {
        itoa::Buffer::new().format(v as i32).as_bytes().to_vec()
    } else if v == 0.0 || (v.abs() > 1e-6 && v.abs() < 1e12) {
        ryu::Buffer::new().format(v).as_bytes().to_vec()
    } else {
        format!("{}", v).into_bytes()
    }
}

/// What `cal_rgb` writes for these `f32` values.
fn cal_rgb_of(white: [f32; 3], gamma: f32, matrix: [f32; 9]) -> Vec<u8> {
    let w: Vec<Vec<u8>> = white.iter().map(|v| real_text(*v)).collect();
    let g = real_text(gamma);
    let m: Vec<Vec<u8>> = matrix.iter().map(|v| real_text(*v)).collect();
    let mr: Vec<Real> = m.iter().map(|t| Real(t)).collect();
    written(|c| {
        c.color_space(Ref::new(1)).cal_rgb(
            [Real(&w[0]), Real(&w[1]), Real(&w[2])],
            None,
            Some([Real(&g), Real(&g), Real(&g)]),
            Some([mr[0], mr[1], mr[2], mr[3], mr[4], mr[5], mr[6], mr[7], mr[8]]),
        )
    })
}

/// What `cal_gray` writes for these `f32` values.
fn cal_gray_of(white: [f32; 3], gamma: Option<f32>) -> Vec<u8> {
    let w: Vec<Vec<u8>> = white.iter().map(|v| real_text(*v)).collect();
    let g = gamma.map(real_text);
    written(|c| {
        c.color_space(Ref::new(1)).cal_gray(
            [Real(&w[0]), Real(&w[1]), Real(&w[2])],
            None,
            g.as_ref().map(|t| Real(t)),
        )
    })
}

const CIE_D65: [f32; 3] = [0.9505, 1.0, 1.0888];
const CIE_D50: [f32; 3] = [0.9642, 1.0, 0.8251];
const CIE_E: [f32; 3] = [1.000, 1.000, 1.000];
const CIE_C: [f32; 3] = [0.9807, 1.0000, 1.1822];

#[test]
fn calibrated_rgb_presets() {
    assert_eq!(
        written(|c| c.color_space(Ref::new(1)).srgb()),
        cal_rgb_of(CIE_D65, 2.2, [0.4124, 0.2126, 0.0193, 0.3576, 0.715, 0.1192, 0.1805, 0.0722, 0.9505]),
    );
    assert_eq!(
        written(|c| c.color_space(Ref::new(1)).adobe_rgb()),
        cal_rgb_of(
            CIE_D65,
            2.2,
            [0.57667, 0.29734, 0.02703, 0.18556, 0.62736, 0.07069, 0.18823, 0.07529, 0.99134],
        ),
    );
    assert_eq!(
        written(|c| c.color_space(Ref::new(1)).display_p3()),
        cal_rgb_of(
            CIE_D65,
            2.2,
            [0.48657, 0.2297, 0.0, 0.26567, 0.69174, 0.04511, 0.19822, 0.07929, 1.04394],
        ),
    );
    assert_eq!(
        written(|c| c.color_space(Ref::new(1)).pro_photo()),
        cal_rgb_of(
            CIE_D50,
            1.8,
            [0.7976749, 0.2880402, 0.0, 0.1351917, 0.7118741, 0.0, 0.0313534, 0.0000857, 0.8252100],
        ),
    );
    assert_eq!(
        written(|c| c.color_space(Ref::new(1)).eci_rgb()),
        cal_rgb_of(
            CIE_D50,
            1.8,
            [0.6502043, 0.3202499, 0.0, 0.1780774, 0.6020711, 0.0678390, 0.1359384, 0.0776791, 0.7573710],
        ),
    );
    assert_eq!(
        written(|c| c.color_space(Ref::new(1)).ntsc()),
        cal_rgb_of(
            CIE_C,
            2.2,
            [0.6068909, 0.2989164, 0.0, 0.1735011, 0.5865990, 0.0660957, 0.2003480, 0.1144845, 1.1162243],
        ),
    );
    assert_eq!(
        written(|c| c.color_space(Ref::new(1)).pal()),
        cal_rgb_of(
            CIE_D65,
            2.2,
            [0.4306190, 0.2220379, 0.0201853, 0.3415419, 0.7066384, 0.1295504, 0.1783091, 0.0713236, 0.9390944],
        ),
    );
}

#[test]
fn srgb_preset_bytes() {
    check(
        written(|c| c.color_space(Ref::new(1)).srgb()),
        object(
            "[/CalRGB <<\n  /WhitePoint [0.9505 1 1.0888]\n  /Gamma [2.2 2.2 2.2]\n  \
             /Matrix [0.4124 0.2126 0.0193 0.3576 0.715 0.1192 0.1805 0.0722 0.9505]\n>>]",
        ),
    );
}

#[test]
fn calibrated_gray_presets() {
    assert_eq!(written(|c| c.color_space(Ref::new(1)).d65_gray()), cal_gray_of(CIE_D65, Some(2.2)));
    assert_eq!(written(|c| c.color_space(Ref::new(1)).c_gray()), cal_gray_of(CIE_C, Some(2.2)));
    let gamma = real_text(1.8);
    assert_eq!(
        written(|c| c.color_space(Ref::new(1)).d50_gray(Some(Real(&gamma)))),
        cal_gray_of(CIE_D50, Some(1.8)),
    );
    assert_eq!(written(|c| c.color_space(Ref::new(1)).d50_gray(None)), cal_gray_of(CIE_D50, None));
    assert_eq!(written(|c| c.color_space(Ref::new(1)).e_gray(None)), cal_gray_of(CIE_E, None));
    check(
        written(|c| c.color_space(Ref::new(1)).e_gray(Some(Real(&gamma)))),
        object("[/CalGray <<\n  /WhitePoint [1 1 1]\n  /Gamma 1.8\n>>]"),
    );
}

#[test]
fn color_space_limits() {
    let mut chunk = Chunk::new();
    chunk.color_space(Ref::new(3)).srgb();
    let limits = chunk.limits();
    assert_eq!(limits.int_limit(), 3);
    assert_eq!(limits.name_len(), "WhitePoint".len());
    assert_eq!(limits.array_len(), 9);
    assert_eq!(limits.dict_entries(), 3);

    let mut chunk = Chunk::new();
    chunk.color_space(Ref::new(2)).indexed(Name(b"DeviceRGB"), 255, &[1, 2, 3, 4, 5]);
    assert_eq!(chunk.limits().int_limit(), 255);
    assert_eq!(chunk.limits().str_len(), 5);
    assert_eq!(chunk.limits().array_len(), 4);
}
