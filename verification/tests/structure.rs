use pdf_writer::types::{
    BlockLevelRoleSubtype, Direction, InlineLevelRoleSubtype, NumberingStyle, PageLayout,
    PageMode, StructRole, StructRole2, StructRoleType, StructRoleType2, TrappingStatus,
};
use pdf_writer::{Date, Name, Pdf, Ref, Settings, TextStr};

const ROLES_2: [StructRole2; 12] = [
    StructRole2::Document,
    StructRole2::DocumentFragment,
    StructRole2::Heading(1),
    StructRole2::Heading(6),
    StructRole2::Heading(7),
    StructRole2::Title,
    StructRole2::Sub,
    StructRole2::Em,
    StructRole2::Strong,
    StructRole2::Link,
    StructRole2::Artifact,
    StructRole2::WP,
];

#[test]
fn role_mapping_exactly_when_no_counterpart() {
    for role in ROLES_2 {
        for flags in 0..8u8 {
            let mapped = role.role_mapped_1_7(flags & 1 != 0, flags & 2 != 0, flags & 4 != 0);
            assert_eq!(mapped.is_none(), role.into_pdf_1_7().is_some(), "{:?}", role);
        }
    }
}

#[test]
fn role_mapping_options() {
    assert_eq!(StructRole2::Heading(7).role_mapped_1_7(true, false, false), Some(StructRole::H6));
    assert_eq!(StructRole2::Heading(7).role_mapped_1_7(false, false, false), Some(StructRole::P));
    assert_eq!(StructRole2::Title.role_mapped_1_7(false, true, false), Some(StructRole::H1));
    assert_eq!(StructRole2::Title.role_mapped_1_7(false, false, false), Some(StructRole::P));
    assert_eq!(StructRole2::Sub.role_mapped_1_7(false, false, true), Some(StructRole::Span));
    assert_eq!(StructRole2::Sub.role_mapped_1_7(false, false, false), Some(StructRole::Div));
    assert_eq!(StructRole2::Artifact.role_mapped_1_7(false, false, false), Some(StructRole::Private));
    assert_eq!(StructRole2::Heading(3).role_mapped_1_7(true, true, true), None);
}

#[test]
fn role_round_trips() {
    for role in ROLES_2 {
        if let Some(old) = role.into_pdf_1_7() {
            assert_eq!(old.into_pdf_2_0(), Some(role));
        }
    }
    assert_eq!(StructRole::H3.into_pdf_2_0(), Some(StructRole2::Heading(3)));
    assert_eq!(StructRole::H3.into_pdf_2_0().unwrap().into_pdf_1_7(), Some(StructRole::H3));
    // Roles that PDF 2.0 replaced do not come back.
    assert_eq!(StructRole::Quote.into_pdf_2_0(), Some(StructRole2::Em));
    assert_eq!(StructRole2::Em.into_pdf_1_7(), None);
    assert_eq!(StructRole::Reference.into_pdf_2_0().unwrap().into_pdf_1_7(), Some(StructRole::Link));
    assert_eq!(StructRole::Art.into_pdf_2_0(), None);
}

#[test]
fn role_types() {
    assert_eq!(StructRole::H2.role_type(), StructRoleType::BlockLevel(BlockLevelRoleSubtype::ParagraphLike));
    assert_eq!(StructRole::Link.role_type(), StructRoleType::InlineLevel(InlineLevelRoleSubtype::Link));
    assert_eq!(StructRole::Form.role_type(), StructRoleType::Illustration);
    assert_eq!(StructRole2::Sub.role_type(), StructRoleType2::SubBlockLevel);
    assert_eq!(StructRole2::Heading(9).role_type(), StructRoleType2::BlockLevel);
    assert_eq!(StructRole2::Artifact.role_type(), StructRoleType2::Artifact);
}

#[test]
fn heading_names() {
    assert_eq!(StructRole2::Heading(1).to_name_bytes(), b"H1".to_vec());
    assert_eq!(StructRole2::Heading(42).to_name_bytes(), b"H42".to_vec());
    assert_eq!(StructRole2::StructuredHeading.to_name_bytes(), b"H".to_vec());
    assert_eq!(StructRole2::DocumentFragment.to_name_bytes(), b"DocumentFragment".to_vec());
}

/// The bytes written during `f`.
fn slice(f: impl FnOnce(&mut Pdf)) -> Vec<u8> {
    let mut w = Pdf::with_settings(Settings::default());
    let start = w.len();
    f(&mut w);
    let end = w.len();
    w.finish()[start..end].to_vec()
}

#[test]
fn document_structure() {
    let bytes = slice(|w| {
        let mut catalog = w.catalog(Ref::new(1));
        catalog
            .pages(Ref::new(2))
            .page_layout(PageLayout::TwoPageLeft)
            .page_mode(PageMode::UseOutlines)
            .version(1, 7);
        catalog.finish();
        let mut pages = w.pages(Ref::new(2));
        pages.kids(&[Ref::new(3)]).count(1);
        pages.finish();
        let mut page = w.page(Ref::new(3));
        page.parent(Ref::new(2)).rotate(90);
        page.finish();
    });
    let expected: &[u8] = b"1 0 obj\n<<\n  /Type /Catalog\n  /Pages 2 0 R\n  /PageLayout /TwoPageLeft\n  /PageMode /UseOutlines\n  /Version /1.7\n>>\nendobj\n\n2 0 obj\n<<\n  /Type /Pages\n  /Kids [3 0 R]\n  /Count 1\n>>\nendobj\n\n3 0 obj\n<<\n  /Type /Page\n  /Parent 2 0 R\n  /Rotate 90\n>>\nendobj\n\n";
    assert_eq!(String::from_utf8_lossy(&bytes), String::from_utf8_lossy(expected));
}

#[test]
fn document_info_and_trailer() {
    let mut w = Pdf::new();
    let mut info = w.document_info(Ref::new(1));
    info.title(TextStr("Hello"))
        .creation_date(Date::new(2024).month(5))
        .trapped(TrappingStatus::NotTrapped);
    info.finish();
    w.set_file_id((b"AB".to_vec(), b"CD".to_vec()));
    let bytes = w.finish();
    let text = String::from_utf8_lossy(&bytes).into_owned();
    assert!(text.contains("1 0 obj\n<<\n  /Title (Hello)\n  /CreationDate (D:202405)\n  /Trapped /False\n>>\nendobj\n"));
    assert!(text.contains("trailer\n<<\n  /Size 2\n  /Info 1 0 R\n  /ID [(AB) (CD)]\n>>\nstartxref\n"));
}

#[test]
fn page_labels_and_directions() {
    let bytes = slice(|w| {
        let mut obj = w.indirect(Ref::new(1)).dict();
        obj.pair(Name(b"S"), Name(b"x"));
        obj.finish();
    });
    assert_eq!(bytes, b"1 0 obj\n<<\n  /S /x\n>>\nendobj\n\n".to_vec());
    let _ = (Direction::R2L, NumberingStyle::LowerRoman);
}
