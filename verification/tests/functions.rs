use pdf_writer::types::PostScriptOp;
use pdf_writer::types::PostScriptOp::{Add, Dup, Exch, Ge, IfElse, Mul, Neg};
use pdf_writer::Real;

fn real_text(v: f32) -> Vec<u8> {
    if v as i32 as f32 == v {
        itoa::Buffer::new().format(v as i32).as_bytes().to_vec()
    } else if v == 0.0 || (v.abs() > 1e-6 && v.abs() < 1e12) {
        ryu::Buffer::new().format(v).as_bytes().to_vec()
    } else {
        format!("{}", v).into_bytes()
    }
}

#[test]
fn test_post_script_encoding() {
    let (three, two, zero, one) = (real_text(3.0), real_text(2.0), real_text(0.0), real_text(1.0));
    let ops = [
        PostScriptOp::Real(Real(&three)),
        PostScriptOp::Real(Real(&two)),
        Mul,
        Exch,
        Dup,
        PostScriptOp::Real(Real(&zero)),
        Ge,
        IfElse(vec![PostScriptOp::Real(Real(&one)), Add], vec![Neg]),
        Add,
    ];

    assert_eq!(
        PostScriptOp::encode(&ops),
        b"{\n3.0\n2.0\nmul\nexch\ndup\n0.0\nge\n{\n1.0\nadd\n}\n{neg}\nifelse\nadd\n}"
    );
}

#[test]
fn post_script_blocks_of_every_size() {
    assert_eq!(PostScriptOp::encode(&[]), b"{}");
    assert_eq!(PostScriptOp::encode(&[PostScriptOp::Pop]), b"{pop}");
    assert_eq!(PostScriptOp::encode(&[PostScriptOp::Dup, PostScriptOp::Roll]), b"{\ndup\nroll\n}");
}

#[test]
fn post_script_numbers() {
    let half = real_text(0.5);
    assert_eq!(half, b"0.5");
    let ops = [
        PostScriptOp::Real(Real(&half)),
        PostScriptOp::Integer(-7),
        PostScriptOp::Integer(i32::MIN),
        PostScriptOp::Real(Real(b"-12")),
    ];
    assert_eq!(PostScriptOp::encode(&ops), b"{\n0.5\n-7\n-2147483648\n-12.0\n}");
}

#[test]
fn post_script_conditionals() {
    let ops = [
        PostScriptOp::True,
        PostScriptOp::If(vec![PostScriptOp::Integer(1), PostScriptOp::Copy]),
        PostScriptOp::If(vec![]),
    ];
    assert_eq!(PostScriptOp::encode(&ops), b"{\ntrue\n{\n1\ncopy\n}\nif\n{}\nif\n}");
}
