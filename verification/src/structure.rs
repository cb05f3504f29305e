use vstd::prelude::*;
use vstd::string::*;

use crate::buf::{decimal_digits, Buf};
use crate::object::{
    dict_start_limits,
    dict_items_appended,
    push_token_item,
    array_tokens_bytes, is_digit, lemma_tokens_push, name_token, token,
    Primitive,
    Real, Rect,
    nested_indent, array_started, array_item_enc_bytes, name_encoding,
    Array, array_item_bytes, Date, Dict, LBRACKET, Name, NameTree, NumberTree, Obj, Ref, Str, Stream, TextStr, TextStrLike, TypedArray, TypedDict, array_close_bytes, array_item_appended, array_separator, dict_close_bytes, dict_grown, dict_items_entry_bytes, dict_key_bytes, dict_name_pair_appended, dict_name_pair_bytes, dict_pair_appended, dict_pair_bytes, dict_started, start_dict, stream_close_bytes, type_entries_bytes, type_stream, write_items_entry,
};
use crate::actions::{AdditionalActions};
use crate::color::{OutputIntent, SeparationInfo};
use crate::content::{Resources};
use crate::files::{FileSpec};
use crate::forms::{Form};
use crate::xobject::{Group};
use crate::attributes::Attributes;

verus! {

/// How the viewer should lay out the pages in the document.
#[derive(Debug, Copy, Clone, Eq, PartialEq, Hash)]
pub enum PageLayout {
    /// Only a single page at a time.
    SinglePage,
    /// A single, continuously scrolling column of pages.
    OneColumn,
    /// Two continuously scrolling columns of pages, laid out with odd-numbered
    /// pages on the left.
    TwoColumnLeft,
    /// Two continuously scrolling columns of pages, laid out with odd-numbered
    /// pages on the right (like in a left-bound book).
    TwoColumnRight,
    /// Only two pages are visible at a time, laid out with odd-numbered pages
    /// on the left. PDF 1.5+.
    TwoPageLeft,
    /// Only two pages are visible at a time, laid out with odd-numbered pages
    /// on the right (like in a left-bound book). PDF 1.5+.
    TwoPageRight,
}

impl PageLayout {
    /// The name under which the value is written.
    pub open spec fn spec_name(self) -> Seq<u8> {
        match self {
            Self::SinglePage => "SinglePage".spec_bytes(),
            Self::OneColumn => "OneColumn".spec_bytes(),
            Self::TwoColumnLeft => "TwoColumnLeft".spec_bytes(),
            Self::TwoColumnRight => "TwoColumnRight".spec_bytes(),
            Self::TwoPageLeft => "TwoPageLeft".spec_bytes(),
            Self::TwoPageRight => "TwoPageRight".spec_bytes(),
        }
    }

    pub(crate) fn to_name(self) -> (r: Name<'static>)
        ensures
            r.0@ == self.spec_name(),
    {
        match self {
            Self::SinglePage => Name("SinglePage".as_bytes()),
            Self::OneColumn => Name("OneColumn".as_bytes()),
            Self::TwoColumnLeft => Name("TwoColumnLeft".as_bytes()),
            Self::TwoColumnRight => Name("TwoColumnRight".as_bytes()),
            Self::TwoPageLeft => Name("TwoPageLeft".as_bytes()),
            Self::TwoPageRight => Name("TwoPageRight".as_bytes()),
        }
    }
}

/// Elements of the viewer chrome that should be visible when opening the
/// document.
#[derive(Debug, Copy, Clone, Eq, PartialEq, Hash)]
pub enum PageMode {
    /// Neither the document outline panel nor a panel with page preview images
    /// are visible.
    UseNone,
    /// The document outline panel is visible.
    UseOutlines,
    /// A panel with page preview images is visible.
    UseThumbs,
    /// Show the document page in full screen mode, with no chrome.
    FullScreen,
    /// Show the optional content group panel. PDF 1.5+.
    UseOC,
    /// Show the attachments panel. PDF 1.6+.
    UseAttachments,
}

impl PageMode {
    /// The name under which the value is written.
    pub open spec fn spec_name(self) -> Seq<u8> {
        match self {
            Self::UseNone => "UseNone".spec_bytes(),
            Self::UseOutlines => "UseOutlines".spec_bytes(),
            Self::UseThumbs => "UseThumbs".spec_bytes(),
            Self::FullScreen => "FullScreen".spec_bytes(),
            Self::UseOC => "UseOC".spec_bytes(),
            Self::UseAttachments => "UseAttachments".spec_bytes(),
        }
    }

    pub(crate) fn to_name(self) -> (r: Name<'static>)
        ensures
            r.0@ == self.spec_name(),
    {
        match self {
            Self::UseNone => Name("UseNone".as_bytes()),
            Self::UseOutlines => Name("UseOutlines".as_bytes()),
            Self::UseThumbs => Name("UseThumbs".as_bytes()),
            Self::FullScreen => Name("FullScreen".as_bytes()),
            Self::UseOC => Name("UseOC".as_bytes()),
            Self::UseAttachments => Name("UseAttachments".as_bytes()),
        }
    }
}

/// Predominant reading order of text.
///
/// Used to aid the viewer with the special ordering in which to display pages.
#[derive(Debug, Copy, Clone, Eq, PartialEq, Hash)]
pub enum Direction {
    /// Left-to-right.
    L2R,
    /// Right-to-left as well as vertical writing systems.
    R2L,
}

impl Direction {
    /// The name under which the value is written.
    pub open spec fn spec_name(self) -> Seq<u8> {
        match self {
            Self::L2R => "L2R".spec_bytes(),
            Self::R2L => "R2L".spec_bytes(),
        }
    }

    pub(crate) fn to_name(self) -> (r: Name<'static>)
        ensures
            r.0@ == self.spec_name(),
    {
        match self {
            Self::L2R => Name("L2R".as_bytes()),
            Self::R2L => Name("R2L".as_bytes()),
        }
    }
}

/// The numbering style of a page label.
#[derive(Debug, Copy, Clone, Eq, PartialEq, Hash)]
pub enum NumberingStyle {
    /// Arabic numerals.
    Arabic,
    /// Lowercase Roman numerals.
    LowerRoman,
    /// Uppercase Roman numerals.
    UpperRoman,
    /// Lowercase letters (a-z, then aa-zz, ...).
    LowerAlpha,
    /// Uppercase letters (A-Z, then AA-ZZ, ...).
    UpperAlpha,
}

impl NumberingStyle {
    /// The name under which the value is written.
    pub open spec fn spec_name(self) -> Seq<u8> {
        match self {
            Self::Arabic => "D".spec_bytes(),
            Self::LowerRoman => "r".spec_bytes(),
            Self::UpperRoman => "R".spec_bytes(),
            Self::LowerAlpha => "a".spec_bytes(),
            Self::UpperAlpha => "A".spec_bytes(),
        }
    }

    pub(crate) fn to_name(self) -> (r: Name<'static>)
        ensures
            r.0@ == self.spec_name(),
    {
        match self {
            Self::Arabic => Name("D".as_bytes()),
            Self::LowerRoman => Name("r".as_bytes()),
            Self::UpperRoman => Name("R".as_bytes()),
            Self::LowerAlpha => Name("a".as_bytes()),
            Self::UpperAlpha => Name("A".as_bytes()),
        }
    }
}

/// Whether a document has been adjusted with traps.
///
/// Those account for colorant misregistration during the printing process.
#[derive(Debug, Copy, Clone, Eq, PartialEq, Hash)]
pub enum TrappingStatus {
    /// The document is fully trapped.
    Trapped,
    /// The document has not been trapped.
    NotTrapped,
    /// The document is partially trapped or the trapping status is unknown.
    Unknown,
}

impl TrappingStatus {
    /// The name under which the value is written.
    pub open spec fn spec_name(self) -> Seq<u8> {
        match self {
            Self::Trapped => "True".spec_bytes(),
            Self::NotTrapped => "False".spec_bytes(),
            Self::Unknown => "Unknown".spec_bytes(),
        }
    }

    pub(crate) fn to_name(self) -> (r: Name<'static>)
        ensures
            r.0@ == self.spec_name(),
    {
        match self {
            Self::Trapped => Name("True".as_bytes()),
            Self::NotTrapped => Name("False".as_bytes()),
            Self::Unknown => Name("Unknown".as_bytes()),
        }
    }
}

/// What order to tab through the annotations on a page.
#[derive(Debug, Copy, Clone, Eq, PartialEq, Hash)]
pub enum TabOrder {
    /// Navigate the annotations horizontally, then vertically.
    RowOrder,
    /// Navigate the annotations vertically, then horizontally.
    ColumnOrder,
    /// Navigate the annotations in the order they appear in the structure tree.
    StructureOrder,
}

impl TabOrder {
    /// The name under which the value is written.
    pub open spec fn spec_name(self) -> Seq<u8> {
        match self {
            Self::RowOrder => "R".spec_bytes(),
            Self::ColumnOrder => "C".spec_bytes(),
            Self::StructureOrder => "S".spec_bytes(),
        }
    }

    pub(crate) fn to_name(self) -> (r: Name<'static>)
        ensures
            r.0@ == self.spec_name(),
    {
        match self {
            Self::RowOrder => Name("R".as_bytes()),
            Self::ColumnOrder => Name("C".as_bytes()),
            Self::StructureOrder => Name("S".as_bytes()),
        }
    }
}

/// Which phonetic alphabet to use for the `/Phonetic` key in the
/// [`StructElement`] dictionary.
#[derive(Debug, Copy, Clone, Eq, PartialEq, Hash)]
pub enum PhoneticAlphabet<'a> {
    /// The International Phonetic Alphabet.
    Ipa,
    /// The Extended Speech Assessment Methods Phonetic Alphabet (X-SAMPA).
    XSampa,
    /// The Pinyin romanization system for Chinese.
    Pinyin,
    /// The Wade-Giles romanization system for Chinese.
    WadeGiles,
    /// A custom phonetic alphabet.
    Custom(Name<'a>),
}

impl<'a> PhoneticAlphabet<'a> {
    /// The name under which the value is written.
    pub open spec fn spec_name(self) -> Seq<u8> {
        match self {
            Self::Ipa => "ipa".spec_bytes(),
            Self::XSampa => "x-sampa".spec_bytes(),
            Self::Pinyin => "zh-Latn-pinyin".spec_bytes(),
            Self::WadeGiles => "zh-Latn-wadegile".spec_bytes(),
            Self::Custom(name) => name.0@,
        }
    }

    pub(crate) fn to_name(self) -> (r: Name<'a>)
        ensures
            r.0@ == self.spec_name(),
    {
        match self {
            Self::Ipa => Name("ipa".as_bytes()),
            Self::XSampa => Name("x-sampa".as_bytes()),
            Self::Pinyin => Name("zh-Latn-pinyin".as_bytes()),
            Self::WadeGiles => Name("zh-Latn-wadegile".as_bytes()),
            Self::Custom(name) => name,
        }
    }
}

/// Role the structure element fulfills in the document for PDF 1.7 and below.
///
/// These are the predefined standard roles in PDF 1.7 and below, matching the
/// `https://www.iso.org/pdf/ssn` namespace. The writer may write their own
/// roles and then provide a mapping with [`StructTreeRoot::role_map`], or, if
/// writing PDF 2.0, with [`Namespace::role_map_ns`]. PDF 1.4+.
#[derive(Debug, Copy, Clone, Eq, PartialEq, Hash)]
pub enum StructRole {
    /// The whole document.
    Document,
    /// A part of a document that may contain multiple articles or sections.
    Part,
    /// An article with largely self-contained content.
    Art,
    /// Section of a larger document.
    Sect,
    /// Generic subdivision.
    Div,
    /// A paragraph-level quote.
    BlockQuote,
    /// An image or figure caption.
    Caption,
    /// Table of contents.
    TOC,
    /// Item in the table of contents.
    TOCI,
    /// Index of the key terms in the document.
    Index,
    /// Element only present for grouping purposes that shall not be exported.
    NonStruct,
    /// Element present only for use by the writer and associated products.
    Private,
    /// A paragraph
    P,
    /// First-level heading.
    H1,
    /// Second-level heading.
    H2,
    /// Third-level heading.
    H3,
    /// Fourth-level heading.
    H4,
    /// Fifth-level heading.
    H5,
    /// Sixth-level heading.
    H6,
    /// A list.
    L,
    /// A list item.
    LI,
    /// Label for a list item.
    Lbl,
    /// Description of the list item.
    LBody,
    /// A table.
    Table,
    /// A table row.
    TR,
    /// A table header cell.
    TH,
    /// A table data cell.
    TD,
    /// A table header row group.
    THead,
    /// A table data row group.
    TBody,
    /// A table footer row group.
    TFoot,
    /// A generic inline element.
    Span,
    /// An inline quotation.
    Quote,
    /// A foot- or endnote.
    Note,
    /// A reference to elsewhere in the document.
    Reference,
    /// A reference to an external document.
    BibEntry,
    /// Computer code.
    Code,
    /// A link.
    Link,
    /// An association between an annotation and the content it belongs to. PDF
    /// 1.5+
    Annot,
    /// Ruby annotation for CJK text. PDF 1.5+
    Ruby,
    /// Warichu annotation for CJK text. PDF 1.5+
    Warichu,
    /// Base text of a Ruby annotation. PDF 1.5+
    RB,
    /// Annotation text of a Ruby annotation. PDF 1.5+
    RT,
    /// Punctuation of a Ruby annotation. PDF 1.5+
    RP,
    /// Text of a Warichu annotation. PDF 1.5+
    WT,
    /// Punctuation of a Warichu annotation. PDF 1.5+
    WP,
    /// Item of graphical content.
    Figure,
    /// Mathematical formula.
    Formula,
    /// Form widget.
    Form,
}

impl StructRole {
    /// The name under which the value is written.
    pub open spec fn spec_name(self) -> Seq<u8> {
        match self {
            Self::Document => "Document".spec_bytes(),
            Self::Part => "Part".spec_bytes(),
            Self::Art => "Art".spec_bytes(),
            Self::Sect => "Sect".spec_bytes(),
            Self::Div => "Div".spec_bytes(),
            Self::BlockQuote => "BlockQuote".spec_bytes(),
            Self::Caption => "Caption".spec_bytes(),
            Self::TOC => "TOC".spec_bytes(),
            Self::TOCI => "TOCI".spec_bytes(),
            Self::Index => "Index".spec_bytes(),
            Self::NonStruct => "NonStruct".spec_bytes(),
            Self::Private => "Private".spec_bytes(),
            Self::P => "P".spec_bytes(),
            Self::H1 => "H1".spec_bytes(),
            Self::H2 => "H2".spec_bytes(),
            Self::H3 => "H3".spec_bytes(),
            Self::H4 => "H4".spec_bytes(),
            Self::H5 => "H5".spec_bytes(),
            Self::H6 => "H6".spec_bytes(),
            Self::L => "L".spec_bytes(),
            Self::LI => "LI".spec_bytes(),
            Self::Lbl => "Lbl".spec_bytes(),
            Self::LBody => "LBody".spec_bytes(),
            Self::Table => "Table".spec_bytes(),
            Self::TR => "TR".spec_bytes(),
            Self::TH => "TH".spec_bytes(),
            Self::TD => "TD".spec_bytes(),
            Self::THead => "THead".spec_bytes(),
            Self::TBody => "TBody".spec_bytes(),
            Self::TFoot => "TFoot".spec_bytes(),
            Self::Span => "Span".spec_bytes(),
            Self::Quote => "Quote".spec_bytes(),
            Self::Note => "Note".spec_bytes(),
            Self::Reference => "Reference".spec_bytes(),
            Self::BibEntry => "BibEntry".spec_bytes(),
            Self::Code => "Code".spec_bytes(),
            Self::Link => "Link".spec_bytes(),
            Self::Annot => "Annot".spec_bytes(),
            Self::Ruby => "Ruby".spec_bytes(),
            Self::Warichu => "Warichu".spec_bytes(),
            Self::RB => "RB".spec_bytes(),
            Self::RT => "RT".spec_bytes(),
            Self::RP => "RP".spec_bytes(),
            Self::WT => "WT".spec_bytes(),
            Self::WP => "WP".spec_bytes(),
            Self::Figure => "Figure".spec_bytes(),
            Self::Formula => "Formula".spec_bytes(),
            Self::Form => "Form".spec_bytes(),
        }
    }

    pub(crate) fn to_name(self) -> (r: Name<'static>)
        ensures
            r.0@ == self.spec_name(),
    {
        match self {
            Self::Document => Name("Document".as_bytes()),
            Self::Part => Name("Part".as_bytes()),
            Self::Art => Name("Art".as_bytes()),
            Self::Sect => Name("Sect".as_bytes()),
            Self::Div => Name("Div".as_bytes()),
            Self::BlockQuote => Name("BlockQuote".as_bytes()),
            Self::Caption => Name("Caption".as_bytes()),
            Self::TOC => Name("TOC".as_bytes()),
            Self::TOCI => Name("TOCI".as_bytes()),
            Self::Index => Name("Index".as_bytes()),
            Self::NonStruct => Name("NonStruct".as_bytes()),
            Self::Private => Name("Private".as_bytes()),
            Self::P => Name("P".as_bytes()),
            Self::H1 => Name("H1".as_bytes()),
            Self::H2 => Name("H2".as_bytes()),
            Self::H3 => Name("H3".as_bytes()),
            Self::H4 => Name("H4".as_bytes()),
            Self::H5 => Name("H5".as_bytes()),
            Self::H6 => Name("H6".as_bytes()),
            Self::L => Name("L".as_bytes()),
            Self::LI => Name("LI".as_bytes()),
            Self::Lbl => Name("Lbl".as_bytes()),
            Self::LBody => Name("LBody".as_bytes()),
            Self::Table => Name("Table".as_bytes()),
            Self::TR => Name("TR".as_bytes()),
            Self::TH => Name("TH".as_bytes()),
            Self::TD => Name("TD".as_bytes()),
            Self::THead => Name("THead".as_bytes()),
            Self::TBody => Name("TBody".as_bytes()),
            Self::TFoot => Name("TFoot".as_bytes()),
            Self::Span => Name("Span".as_bytes()),
            Self::Quote => Name("Quote".as_bytes()),
            Self::Note => Name("Note".as_bytes()),
            Self::Reference => Name("Reference".as_bytes()),
            Self::BibEntry => Name("BibEntry".as_bytes()),
            Self::Code => Name("Code".as_bytes()),
            Self::Link => Name("Link".as_bytes()),
            Self::Annot => Name("Annot".as_bytes()),
            Self::Ruby => Name("Ruby".as_bytes()),
            Self::Warichu => Name("Warichu".as_bytes()),
            Self::RB => Name("RB".as_bytes()),
            Self::RT => Name("RT".as_bytes()),
            Self::RP => Name("RP".as_bytes()),
            Self::WT => Name("WT".as_bytes()),
            Self::WP => Name("WP".as_bytes()),
            Self::Figure => Name("Figure".as_bytes()),
            Self::Formula => Name("Formula".as_bytes()),
            Self::Form => Name("Form".as_bytes()),
        }
    }
}

/// Type of the PDF 1.7 [structure element](StructRole) in the document,
/// determining layout, permitted attributes, and nesting.
#[derive(Debug, Copy, Clone, Eq, PartialEq, Hash)]
pub enum StructRoleType {
    /// Elements used solely to group other elements together.
    Grouping,
    /// Elements laid out across the block axis, also known as BLSE.
    BlockLevel(BlockLevelRoleSubtype),
    /// Elements laid out across the inline axis, also known as ILSE.
    InlineLevel(InlineLevelRoleSubtype),
    /// Elements whose contents consist of one or more graphics objects.
    Illustration,
}

/// Subtypes of block-level structure roles, determining the layout and
/// permitted attributes of the element.
#[derive(Debug, Copy, Clone, Eq, PartialEq, Hash)]
pub enum BlockLevelRoleSubtype {
    /// Block-level elements containing predominantly text content.
    ParagraphLike,
    /// List-related elements, such as lists and list items.
    List,
    /// Table-related elements, such as tables and table rows.
    Table,
}

/// Subtypes of inline-level PDF 1.7 structure roles, determining the layout and
/// permitted attributes of the element.
#[derive(Debug, Copy, Clone, Eq, PartialEq, Hash)]
pub enum InlineLevelRoleSubtype {
    /// Generic inline elements, such as spans, quotes, and code.
    Generic,
    /// Links.
    Link,
    /// Superimposed annotations.
    Annotation,
    /// Ruby and Warichu annotations, which are used for CJK text.
    RubyWarichu,
}

/// PDF 2.0 roles the structure element fulfills in the document.
///
/// These are the predefined standard roles in PDF 2.0, matching the
/// `https://www.iso.org/pdf2/ssn` namespace. The writer may write their own
/// types and then provide a mapping using [`Namespace::role_map_ns`]. PDF 2.0+.
#[derive(Debug, Copy, Clone, Eq, PartialEq, Hash)]
pub enum StructRole2 {
    /// The whole document.
    Document,
    /// An incomplete fragment of another document.
    DocumentFragment,
    /// A part of a document that may contain multiple articles or sections.
    Part,
    /// Section of a larger document.
    Sect,
    /// Generic subdivision.
    Div,
    /// Content distinct from other content within the parent, such as callouts,
    /// sidebars, commentary, or background information.
    Aside,
    /// Element only present for grouping purposes that shall not be exported.
    NonStruct,
    /// A paragraph
    P,
    /// Heading with a specific level (one or more).
    Heading(u16),
    /// Strongly structured heading.
    StructuredHeading,
    /// A title of a document.
    Title,
    /// A foot- or endnote.
    FENote,
    /// A subdivision within a block level element.
    Sub,
    /// Label for a list item.
    Lbl,
    /// A generic inline element.
    Span,
    /// An emphasized inline element.
    Em,
    /// An inline element with heightened (strong) importance.
    Strong,
    /// A link.
    Link,
    /// An association between an annotation and the content it belongs to. PDF
    /// 1.5+
    Annot,
    /// Form widget.
    Form,
    /// Ruby annotation for CJK text. PDF 1.5+
    Ruby,
    /// Base text of a Ruby annotation. PDF 1.5+
    RB,
    /// Annotation text of a Ruby annotation. PDF 1.5+
    RT,
    /// Warichu annotation for CJK text. PDF 1.5+
    Warichu,
    /// Text of a Warichu annotation. PDF 1.5+
    WT,
    /// Punctuation of a Warichu annotation. PDF 1.5+
    WP,
    /// A list.
    L,
    /// A list item.
    LI,
    /// Description of the list item.
    LBody,
    /// A table.
    Table,
    /// A table row.
    TR,
    /// A table header cell.
    TH,
    /// A table data cell.
    TD,
    /// A table header row group.
    THead,
    /// A table data row group.
    TBody,
    /// A table footer row group.
    TFoot,
    /// An image or figure caption.
    Caption,
    /// Item of graphical content.
    Figure,
    /// Mathematical formula.
    Formula,
    /// An artifact not part of the logical content of the document.
    Artifact,
}

/// Type of the PDF 2.0 [structure element](StructRole2) in the document,
/// determining layout, permitted attributes, and nesting.
#[derive(Debug, Copy, Clone, Eq, PartialEq, Hash)]
pub enum StructRoleType2 {
    /// Elements representing the whole document or a fragment of it.
    Document,
    /// Elements used solely to group other elements together.
    Grouping,
    /// Elements laid out across the block axis, also known as BLSE.
    BlockLevel,
    /// Elements that appear as sub-divisions of a block-level element.
    SubBlockLevel,
    /// Elements laid out across the inline axis, also known as ILSE.
    InlineLevel(InlineLevelRoleSubtype2),
    /// Elements related to lists.
    List,
    /// Elements related to tables.
    Table,
    /// Figure captions.
    Caption,
    /// Figures, such as images and illustrations.
    Figure,
    /// Mathematical formulas.
    Formula,
    /// Artifacts not part of the logical content of the document.
    Artifact,
}

/// Subtypes of inline-level structure roles for PDF 2.0, determining the layout and
/// permitted attributes of the element.
#[derive(Debug, Copy, Clone, Eq, PartialEq, Hash)]
pub enum InlineLevelRoleSubtype2 {
    /// Generic inline element.
    Generic,
    /// Ruby or Warichu annotation.
    RubyWarichu,
}


impl StructRole {
    /// The corresponding PDF 2.0 role, if there is one.
    pub open spec fn spec_into_pdf_2_0(self) -> Option<StructRole2> {
        match self {
            Self::Document => Some(StructRole2::Document),
            Self::Part => Some(StructRole2::Part),
            Self::Art => None,
            Self::Sect => Some(StructRole2::Sect),
            Self::Div => Some(StructRole2::Div),
            Self::BlockQuote => None,
            Self::Caption => Some(StructRole2::Caption),
            Self::TOC => None,
            Self::TOCI => None,
            Self::Index => None,
            Self::NonStruct => Some(StructRole2::NonStruct),
            Self::Private => None,
            Self::P => Some(StructRole2::P),
            Self::H1 => Some(StructRole2::Heading(1)),
            Self::H2 => Some(StructRole2::Heading(2)),
            Self::H3 => Some(StructRole2::Heading(3)),
            Self::H4 => Some(StructRole2::Heading(4)),
            Self::H5 => Some(StructRole2::Heading(5)),
            Self::H6 => Some(StructRole2::Heading(6)),
            Self::L => Some(StructRole2::L),
            Self::LI => Some(StructRole2::LI),
            Self::Lbl => Some(StructRole2::Lbl),
            Self::LBody => Some(StructRole2::LBody),
            Self::Table => Some(StructRole2::Table),
            Self::TR => Some(StructRole2::TR),
            Self::TH => Some(StructRole2::TH),
            Self::TD => Some(StructRole2::TD),
            Self::THead => Some(StructRole2::THead),
            Self::TBody => Some(StructRole2::TBody),
            Self::TFoot => Some(StructRole2::TFoot),
            Self::Span => Some(StructRole2::Span),
            Self::Quote => Some(StructRole2::Em),
            Self::Note => Some(StructRole2::FENote),
            Self::Reference => Some(StructRole2::Link),
            Self::BibEntry => None,
            Self::Code => Some(StructRole2::Strong),
            Self::Link => Some(StructRole2::Link),
            Self::Annot => Some(StructRole2::Annot),
            Self::Ruby => Some(StructRole2::Ruby),
            Self::Warichu => Some(StructRole2::Warichu),
            Self::RB => Some(StructRole2::RB),
            Self::RT => Some(StructRole2::RT),
            Self::RP => Some(StructRole2::WP),
            Self::WT => Some(StructRole2::WT),
            Self::WP => Some(StructRole2::WP),
            Self::Figure => Some(StructRole2::Figure),
            Self::Formula => Some(StructRole2::Formula),
            Self::Form => Some(StructRole2::Form),
        }
    }

    /// Return the corresponding PDF 2.0 [`StructRole2`] for this role or
    /// `None`.
    pub fn into_pdf_2_0(self) -> (r: Option<StructRole2>)
        ensures
            r == self.spec_into_pdf_2_0(),
    {
        match self {
            Self::Document => Some(StructRole2::Document),
            Self::Part => Some(StructRole2::Part),
            Self::Art => None,
            Self::Sect => Some(StructRole2::Sect),
            Self::Div => Some(StructRole2::Div),
            Self::BlockQuote => None,
            Self::Caption => Some(StructRole2::Caption),
            Self::TOC => None,
            Self::TOCI => None,
            Self::Index => None,
            Self::NonStruct => Some(StructRole2::NonStruct),
            Self::Private => None,
            Self::P => Some(StructRole2::P),
            Self::H1 => Some(StructRole2::Heading(1)),
            Self::H2 => Some(StructRole2::Heading(2)),
            Self::H3 => Some(StructRole2::Heading(3)),
            Self::H4 => Some(StructRole2::Heading(4)),
            Self::H5 => Some(StructRole2::Heading(5)),
            Self::H6 => Some(StructRole2::Heading(6)),
            Self::L => Some(StructRole2::L),
            Self::LI => Some(StructRole2::LI),
            Self::Lbl => Some(StructRole2::Lbl),
            Self::LBody => Some(StructRole2::LBody),
            Self::Table => Some(StructRole2::Table),
            Self::TR => Some(StructRole2::TR),
            Self::TH => Some(StructRole2::TH),
            Self::TD => Some(StructRole2::TD),
            Self::THead => Some(StructRole2::THead),
            Self::TBody => Some(StructRole2::TBody),
            Self::TFoot => Some(StructRole2::TFoot),
            Self::Span => Some(StructRole2::Span),
            Self::Quote => Some(StructRole2::Em),
            Self::Note => Some(StructRole2::FENote),
            Self::Reference => Some(StructRole2::Link),
            Self::BibEntry => None,
            Self::Code => Some(StructRole2::Strong),
            Self::Link => Some(StructRole2::Link),
            Self::Annot => Some(StructRole2::Annot),
            Self::Ruby => Some(StructRole2::Ruby),
            Self::Warichu => Some(StructRole2::Warichu),
            Self::RB => Some(StructRole2::RB),
            Self::RT => Some(StructRole2::RT),
            Self::RP => Some(StructRole2::WP),
            Self::WT => Some(StructRole2::WT),
            Self::WP => Some(StructRole2::WP),
            Self::Figure => Some(StructRole2::Figure),
            Self::Formula => Some(StructRole2::Formula),
            Self::Form => Some(StructRole2::Form),
        }
    }

    /// The type of the structure element.
    pub open spec fn spec_role_type(self) -> StructRoleType {
        match self {
            Self::Document | Self::Part | Self::Art | Self::Sect | Self::Div | Self::BlockQuote
            | Self::Caption | Self::TOC | Self::TOCI | Self::Index | Self::NonStruct
            | Self::Private => StructRoleType::Grouping,
            Self::P | Self::H1 | Self::H2 | Self::H3 | Self::H4 | Self::H5 | Self::H6 => {
                StructRoleType::BlockLevel(BlockLevelRoleSubtype::ParagraphLike)
            },
            Self::L | Self::LI | Self::Lbl | Self::LBody => StructRoleType::BlockLevel(
                BlockLevelRoleSubtype::List,
            ),
            Self::Table | Self::TR | Self::TH | Self::TD | Self::THead | Self::TBody
            | Self::TFoot => StructRoleType::BlockLevel(BlockLevelRoleSubtype::Table),
            Self::Span | Self::Quote | Self::Note | Self::Reference | Self::BibEntry | Self::Code
            | Self::Ruby | Self::Warichu => StructRoleType::InlineLevel(
                InlineLevelRoleSubtype::Generic,
            ),
            Self::Link => StructRoleType::InlineLevel(InlineLevelRoleSubtype::Link),
            Self::Annot => StructRoleType::InlineLevel(InlineLevelRoleSubtype::Annotation),
            Self::RB | Self::RT | Self::RP | Self::WT | Self::WP => StructRoleType::InlineLevel(
                InlineLevelRoleSubtype::RubyWarichu,
            ),
            Self::Figure | Self::Formula | Self::Form => StructRoleType::Illustration,
        }
    }

    /// Return the type of the structure element.
    pub fn role_type(self) -> (r: StructRoleType)
        ensures
            r == self.spec_role_type(),
    {
        match self {
            Self::Document | Self::Part | Self::Art | Self::Sect | Self::Div | Self::BlockQuote
            | Self::Caption | Self::TOC | Self::TOCI | Self::Index | Self::NonStruct
            | Self::Private => StructRoleType::Grouping,
            Self::P | Self::H1 | Self::H2 | Self::H3 | Self::H4 | Self::H5 | Self::H6 => {
                StructRoleType::BlockLevel(BlockLevelRoleSubtype::ParagraphLike)
            },
            Self::L | Self::LI | Self::Lbl | Self::LBody => StructRoleType::BlockLevel(
                BlockLevelRoleSubtype::List,
            ),
            Self::Table | Self::TR | Self::TH | Self::TD | Self::THead | Self::TBody
            | Self::TFoot => StructRoleType::BlockLevel(BlockLevelRoleSubtype::Table),
            Self::Span | Self::Quote | Self::Note | Self::Reference | Self::BibEntry | Self::Code
            | Self::Ruby | Self::Warichu => StructRoleType::InlineLevel(
                InlineLevelRoleSubtype::Generic,
            ),
            Self::Link => StructRoleType::InlineLevel(InlineLevelRoleSubtype::Link),
            Self::Annot => StructRoleType::InlineLevel(InlineLevelRoleSubtype::Annotation),
            Self::RB | Self::RT | Self::RP | Self::WT | Self::WP => StructRoleType::InlineLevel(
                InlineLevelRoleSubtype::RubyWarichu,
            ),
            Self::Figure | Self::Formula | Self::Form => StructRoleType::Illustration,
        }
    }
}

impl StructRole2 {
    /// Whether the role is one that PDF defines: a heading level is one or
    /// more.
    pub open spec fn spec_valid(self) -> bool {
        self matches Self::Heading(level) ==> level > 0
    }
}

impl StructRole2 {
    /// The name under which the role is written: for a heading, `H` and its
    /// level.
    pub open spec fn spec_name(self) -> Seq<u8> {
        match self {
            Self::Document => "Document".spec_bytes(),
            Self::DocumentFragment => "DocumentFragment".spec_bytes(),
            Self::Part => "Part".spec_bytes(),
            Self::Sect => "Sect".spec_bytes(),
            Self::Div => "Div".spec_bytes(),
            Self::Aside => "Aside".spec_bytes(),
            Self::NonStruct => "NonStruct".spec_bytes(),
            Self::P => "P".spec_bytes(),
            Self::Heading(level) => "H".spec_bytes() + decimal_digits(level as nat),
            Self::StructuredHeading => "H".spec_bytes(),
            Self::Title => "Title".spec_bytes(),
            Self::FENote => "FENote".spec_bytes(),
            Self::Sub => "Sub".spec_bytes(),
            Self::Lbl => "Lbl".spec_bytes(),
            Self::Span => "Span".spec_bytes(),
            Self::Em => "Em".spec_bytes(),
            Self::Strong => "Strong".spec_bytes(),
            Self::Link => "Link".spec_bytes(),
            Self::Annot => "Annot".spec_bytes(),
            Self::Form => "Form".spec_bytes(),
            Self::Ruby => "Ruby".spec_bytes(),
            Self::RB => "RB".spec_bytes(),
            Self::RT => "RT".spec_bytes(),
            Self::Warichu => "Warichu".spec_bytes(),
            Self::WT => "WT".spec_bytes(),
            Self::WP => "WP".spec_bytes(),
            Self::L => "L".spec_bytes(),
            Self::LI => "LI".spec_bytes(),
            Self::LBody => "LBody".spec_bytes(),
            Self::Table => "Table".spec_bytes(),
            Self::TR => "TR".spec_bytes(),
            Self::TH => "TH".spec_bytes(),
            Self::TD => "TD".spec_bytes(),
            Self::THead => "THead".spec_bytes(),
            Self::TBody => "TBody".spec_bytes(),
            Self::TFoot => "TFoot".spec_bytes(),
            Self::Caption => "Caption".spec_bytes(),
            Self::Figure => "Figure".spec_bytes(),
            Self::Formula => "Formula".spec_bytes(),
            Self::Artifact => "Artifact".spec_bytes(),
        }
    }

    /// The bytes of the role's name.
    pub fn to_name_bytes(self) -> (r: Vec<u8>)
        requires
            self.spec_valid(),
        ensures
            r@ == self.spec_name(),
    {
        let name: &str = match self {
            Self::Document => "Document",
            Self::DocumentFragment => "DocumentFragment",
            Self::Part => "Part",
            Self::Sect => "Sect",
            Self::Div => "Div",
            Self::Aside => "Aside",
            Self::NonStruct => "NonStruct",
            Self::P => "P",
            Self::Heading(level) => {
                let mut buf = Buf::new();
                buf.extend_slice("H".as_bytes());
                buf.push_decimal_usize(level as usize);
                return buf.into_bytes();
            },
            Self::StructuredHeading => "H",
            Self::Title => "Title",
            Self::FENote => "FENote",
            Self::Sub => "Sub",
            Self::Lbl => "Lbl",
            Self::Span => "Span",
            Self::Em => "Em",
            Self::Strong => "Strong",
            Self::Link => "Link",
            Self::Annot => "Annot",
            Self::Form => "Form",
            Self::Ruby => "Ruby",
            Self::RB => "RB",
            Self::RT => "RT",
            Self::Warichu => "Warichu",
            Self::WT => "WT",
            Self::WP => "WP",
            Self::L => "L",
            Self::LI => "LI",
            Self::LBody => "LBody",
            Self::Table => "Table",
            Self::TR => "TR",
            Self::TH => "TH",
            Self::TD => "TD",
            Self::THead => "THead",
            Self::TBody => "TBody",
            Self::TFoot => "TFoot",
            Self::Caption => "Caption",
            Self::Figure => "Figure",
            Self::Formula => "Formula",
            Self::Artifact => "Artifact",
        };
        let mut r: Vec<u8> = Vec::new();
        r.extend_from_slice(name.as_bytes());
        r
    }

    /// The corresponding PDF 1.7 role, if there is one.
    pub open spec fn spec_into_pdf_1_7(self) -> Option<StructRole> {
        match self {
            Self::Document => Some(StructRole::Document),
            Self::DocumentFragment => None,
            Self::Part => Some(StructRole::Part),
            Self::Sect => Some(StructRole::Sect),
            Self::Div => Some(StructRole::Div),
            Self::Aside => None,
            Self::NonStruct => Some(StructRole::NonStruct),
            Self::P => Some(StructRole::P),
            Self::Heading(n) => if n == 1 {
                Some(StructRole::H1)
            } else if n == 2 {
                Some(StructRole::H2)
            } else if n == 3 {
                Some(StructRole::H3)
            } else if n == 4 {
                Some(StructRole::H4)
            } else if n == 5 {
                Some(StructRole::H5)
            } else if n == 6 {
                Some(StructRole::H6)
            } else {
                None
            },
            Self::StructuredHeading => None,
            Self::Title => None,
            Self::FENote => None,
            Self::Sub => None,
            Self::Lbl => Some(StructRole::Lbl),
            Self::Span => Some(StructRole::Span),
            Self::Em => None,
            Self::Strong => None,
            Self::Link => Some(StructRole::Link),
            Self::Annot => Some(StructRole::Annot),
            Self::Form => Some(StructRole::Form),
            Self::Ruby => Some(StructRole::Ruby),
            Self::RB => Some(StructRole::RB),
            Self::RT => Some(StructRole::RT),
            Self::Warichu => Some(StructRole::Warichu),
            Self::WT => Some(StructRole::WT),
            Self::WP => Some(StructRole::WP),
            Self::L => Some(StructRole::L),
            Self::LI => Some(StructRole::LI),
            Self::LBody => Some(StructRole::LBody),
            Self::Table => Some(StructRole::Table),
            Self::TR => Some(StructRole::TR),
            Self::TH => Some(StructRole::TH),
            Self::TD => Some(StructRole::TD),
            Self::THead => Some(StructRole::THead),
            Self::TBody => Some(StructRole::TBody),
            Self::TFoot => Some(StructRole::TFoot),
            Self::Caption => Some(StructRole::Caption),
            Self::Figure => Some(StructRole::Figure),
            Self::Formula => Some(StructRole::Formula),
            Self::Artifact => None,
        }
    }

    /// Return the corresponding PDF 1.7 [`StructRole`] for this role or `None`.
    pub fn into_pdf_1_7(self) -> (r: Option<StructRole>)
        requires
            self.spec_valid(),
        ensures
            r == self.spec_into_pdf_1_7(),
    {
        match self {
            Self::Document => Some(StructRole::Document),
            Self::DocumentFragment => None,
            Self::Part => Some(StructRole::Part),
            Self::Sect => Some(StructRole::Sect),
            Self::Div => Some(StructRole::Div),
            Self::Aside => None,
            Self::NonStruct => Some(StructRole::NonStruct),
            Self::P => Some(StructRole::P),
            Self::Heading(n) if n == 1 => Some(StructRole::H1),
            Self::Heading(n) if n == 2 => Some(StructRole::H2),
            Self::Heading(n) if n == 3 => Some(StructRole::H3),
            Self::Heading(n) if n == 4 => Some(StructRole::H4),
            Self::Heading(n) if n == 5 => Some(StructRole::H5),
            Self::Heading(n) if n == 6 => Some(StructRole::H6),
            Self::Heading(_) => None,
            Self::StructuredHeading => None,
            Self::Title => None,
            Self::FENote => None,
            Self::Sub => None,
            Self::Lbl => Some(StructRole::Lbl),
            Self::Span => Some(StructRole::Span),
            Self::Em => None,
            Self::Strong => None,
            Self::Link => Some(StructRole::Link),
            Self::Annot => Some(StructRole::Annot),
            Self::Form => Some(StructRole::Form),
            Self::Ruby => Some(StructRole::Ruby),
            Self::RB => Some(StructRole::RB),
            Self::RT => Some(StructRole::RT),
            Self::Warichu => Some(StructRole::Warichu),
            Self::WT => Some(StructRole::WT),
            Self::WP => Some(StructRole::WP),
            Self::L => Some(StructRole::L),
            Self::LI => Some(StructRole::LI),
            Self::LBody => Some(StructRole::LBody),
            Self::Table => Some(StructRole::Table),
            Self::TR => Some(StructRole::TR),
            Self::TH => Some(StructRole::TH),
            Self::TD => Some(StructRole::TD),
            Self::THead => Some(StructRole::THead),
            Self::TBody => Some(StructRole::TBody),
            Self::TFoot => Some(StructRole::TFoot),
            Self::Caption => Some(StructRole::Caption),
            Self::Figure => Some(StructRole::Figure),
            Self::Formula => Some(StructRole::Formula),
            Self::Artifact => None,
        }
    }

    /// The closest equivalent role in the PDF 1.7 namespace, for a role that
    /// has no exact counterpart there.
    pub open spec fn spec_role_mapped_1_7(
        self,
        map_hn_to_h6: bool,
        map_title_to_h1: bool,
        map_sub_to_span: bool,
    ) -> Option<StructRole> {
        match self {
            Self::DocumentFragment | Self::Aside => Some(StructRole::Div),
            Self::Heading(n) => if 1 <= n <= 6 {
                None
            } else if map_hn_to_h6 {
                Some(StructRole::H6)
            } else {
                Some(StructRole::P)
            },
            Self::StructuredHeading => Some(StructRole::P),
            Self::Title => if map_title_to_h1 {
                Some(StructRole::H1)
            } else {
                Some(StructRole::P)
            },
            Self::FENote => Some(StructRole::Note),
            Self::Sub => if map_sub_to_span {
                Some(StructRole::Span)
            } else {
                Some(StructRole::Div)
            },
            Self::Em | Self::Strong => Some(StructRole::Span),
            Self::Artifact => Some(StructRole::Private),
            _ => None,
        }
    }

    /// Return the closest equivalent role in the PDF 1.7 namespace.
    ///
    /// Returns `None` if the role exactly matches a PDF 1.7 role (see
    /// [`Self::into_pdf_1_7`]).
    ///
    /// There are three parameters governing the role mapping:
    ///
    /// - `map_hn_to_h6`: Are headings with levels higher than 6 are mapped to
    ///   [`StructRole::H6`] (`true`) or [`StructRole::P`] (`false`)
    /// - `map_title_to_h1`: Is the `Title` role mapped to [`StructRole::H1`]
    ///   (`true`) or to [`StructRole::P`] (`false`)
    /// - `map_sub_to_span`: Is the `Sub` role mapped to [`StructRole::Span`]
    ///   (`true`) or to [`StructRole::Div`] (`false`)
    pub fn role_mapped_1_7(
        self,
        map_hn_to_h6: bool,
        map_title_to_h1: bool,
        map_sub_to_span: bool,
    ) -> (r: Option<StructRole>)
        requires
            self.spec_valid(),
        ensures
            r == self.spec_role_mapped_1_7(map_hn_to_h6, map_title_to_h1, map_sub_to_span),
    {
        match self {
            Self::Document => None,
            Self::DocumentFragment => Some(StructRole::Div),
            Self::Part => None,
            Self::Sect => None,
            Self::Div => None,
            Self::Aside => Some(StructRole::Div),
            Self::NonStruct => None,
            Self::P => None,
            Self::Heading(n) if 1 <= n && n <= 6 => None,
            Self::Heading(_) => Some(
                if map_hn_to_h6 {
                    StructRole::H6
                } else {
                    StructRole::P
                },
            ),
            Self::StructuredHeading => Some(StructRole::P),
            Self::Title => Some(
                if map_title_to_h1 {
                    StructRole::H1
                } else {
                    StructRole::P
                },
            ),
            Self::FENote => Some(StructRole::Note),
            Self::Sub => Some(
                if map_sub_to_span {
                    StructRole::Span
                } else {
                    StructRole::Div
                },
            ),
            Self::Lbl => None,
            Self::Span => None,
            Self::Em => Some(StructRole::Span),
            Self::Strong => Some(StructRole::Span),
            Self::Link => None,
            Self::Annot => None,
            Self::Form => None,
            Self::Ruby => None,
            Self::RB => None,
            Self::RT => None,
            Self::Warichu => None,
            Self::WT => None,
            Self::WP => None,
            Self::L => None,
            Self::LI => None,
            Self::LBody => None,
            Self::Table => None,
            Self::TR => None,
            Self::TH => None,
            Self::TD => None,
            Self::THead => None,
            Self::TBody => None,
            Self::TFoot => None,
            Self::Caption => None,
            Self::Figure => None,
            Self::Formula => None,
            Self::Artifact => Some(StructRole::Private),
        }
    }

    /// The type of the structure element.
    pub open spec fn spec_role_type(self) -> StructRoleType2 {
        match self {
            Self::Document | Self::DocumentFragment => StructRoleType2::Document,
            Self::Part | Self::Sect | Self::Div | Self::Aside | Self::NonStruct => {
                StructRoleType2::Grouping
            },
            Self::P | Self::Heading(_) | Self::StructuredHeading | Self::Title | Self::FENote => {
                StructRoleType2::BlockLevel
            },
            Self::Sub => StructRoleType2::SubBlockLevel,
            Self::Lbl | Self::Span | Self::Em | Self::Strong | Self::Link | Self::Annot
            | Self::Form => StructRoleType2::InlineLevel(InlineLevelRoleSubtype2::Generic),
            Self::Ruby | Self::RB | Self::RT | Self::Warichu | Self::WT | Self::WP => {
                StructRoleType2::InlineLevel(InlineLevelRoleSubtype2::RubyWarichu)
            },
            Self::L | Self::LI | Self::LBody => StructRoleType2::List,
            Self::Table | Self::TR | Self::TH | Self::TD | Self::THead | Self::TBody
            | Self::TFoot => StructRoleType2::Table,
            Self::Caption => StructRoleType2::Caption,
            Self::Figure => StructRoleType2::Figure,
            Self::Formula => StructRoleType2::Formula,
            Self::Artifact => StructRoleType2::Artifact,
        }
    }

    /// Return the type of the structure element.
    pub fn role_type(self) -> (r: StructRoleType2)
        requires
            self.spec_valid(),
        ensures
            r == self.spec_role_type(),
    {
        match self {
            Self::Document | Self::DocumentFragment => StructRoleType2::Document,
            Self::Part | Self::Sect | Self::Div | Self::Aside | Self::NonStruct => {
                StructRoleType2::Grouping
            },
            Self::P | Self::Heading(_) | Self::StructuredHeading | Self::Title | Self::FENote => {
                StructRoleType2::BlockLevel
            },
            Self::Sub => StructRoleType2::SubBlockLevel,
            Self::Lbl | Self::Span | Self::Em | Self::Strong | Self::Link | Self::Annot
            | Self::Form => StructRoleType2::InlineLevel(InlineLevelRoleSubtype2::Generic),
            Self::Ruby | Self::RB | Self::RT | Self::Warichu | Self::WT | Self::WP => {
                StructRoleType2::InlineLevel(InlineLevelRoleSubtype2::RubyWarichu)
            },
            Self::L | Self::LI | Self::LBody => StructRoleType2::List,
            Self::Table | Self::TR | Self::TH | Self::TD | Self::THead | Self::TBody
            | Self::TFoot => StructRoleType2::Table,
            Self::Caption => StructRoleType2::Caption,
            Self::Figure => StructRoleType2::Figure,
            Self::Formula => StructRoleType2::Formula,
            Self::Artifact => StructRoleType2::Artifact,
        }
    }
}

/// A PDF 2.0 role has a closest PDF 1.7 equivalent exactly when it has no
/// exact PDF 1.7 counterpart, whatever the mapping options.
pub proof fn lemma_role_mapped_iff_no_counterpart(
    role: StructRole2,
    map_hn_to_h6: bool,
    map_title_to_h1: bool,
    map_sub_to_span: bool,
)
    ensures
        role.spec_role_mapped_1_7(map_hn_to_h6, map_title_to_h1, map_sub_to_span) is None
            <==> role.spec_into_pdf_1_7() is Some,
{
}

/// Converting a PDF 2.0 role to its exact PDF 1.7 counterpart and back gives
/// the role back.
pub proof fn lemma_pdf_1_7_round_trip(role: StructRole2)
    requires
        role.spec_into_pdf_1_7() is Some,
    ensures
        role.spec_into_pdf_1_7()->0.spec_into_pdf_2_0() == Some(role),
{
}

/// Converting a PDF 1.7 role to PDF 2.0 and back gives the role back, except
/// for the roles that PDF 2.0 replaced (`Quote`, `Note`, `Reference`, `Code`
/// and `RP`).
pub proof fn lemma_pdf_2_0_round_trip(role: StructRole)
    requires
        role.spec_into_pdf_2_0() is Some,
        role != StructRole::Quote,
        role != StructRole::Note,
        role != StructRole::Reference,
        role != StructRole::Code,
        role != StructRole::RP,
    ensures
        role.spec_into_pdf_2_0()->0.spec_into_pdf_1_7() == Some(role),
{
}

/// The names `H1` to `H6` are `H` followed by the level's digit.
proof fn lemma_heading_names()
    ensures
        StructRole::H1.spec_name() == StructRole2::Heading(1).spec_name(),
        StructRole::H2.spec_name() == StructRole2::Heading(2).spec_name(),
        StructRole::H3.spec_name() == StructRole2::Heading(3).spec_name(),
        StructRole::H4.spec_name() == StructRole2::Heading(4).spec_name(),
        StructRole::H5.spec_name() == StructRole2::Heading(5).spec_name(),
        StructRole::H6.spec_name() == StructRole2::Heading(6).spec_name(),
{
    reveal_strlit("H");
    reveal_strlit("H1");
    reveal_strlit("H2");
    reveal_strlit("H3");
    reveal_strlit("H4");
    reveal_strlit("H5");
    reveal_strlit("H6");
    is_ascii_spec_bytes("H");
    is_ascii_spec_bytes("H1");
    is_ascii_spec_bytes("H2");
    is_ascii_spec_bytes("H3");
    is_ascii_spec_bytes("H4");
    is_ascii_spec_bytes("H5");
    is_ascii_spec_bytes("H6");
    reveal_with_fuel(decimal_digits, 2);
    assert("H1".spec_bytes() =~= "H".spec_bytes() + decimal_digits(1));
    assert("H2".spec_bytes() =~= "H".spec_bytes() + decimal_digits(2));
    assert("H3".spec_bytes() =~= "H".spec_bytes() + decimal_digits(3));
    assert("H4".spec_bytes() =~= "H".spec_bytes() + decimal_digits(4));
    assert("H5".spec_bytes() =~= "H".spec_bytes() + decimal_digits(5));
    assert("H6".spec_bytes() =~= "H".spec_bytes() + decimal_digits(6));
}

/// Converting a role between PDF 1.7 and PDF 2.0 keeps the name under which
/// it is written (so `H4` and the level-4 heading correspond), except for the
/// PDF 1.7 roles that PDF 2.0 replaces by a role of another name (`Quote`,
/// `Note`, `Reference`, `Code`, `RP`).
pub proof fn lemma_role_conversion_keeps_name(role: StructRole, role2: StructRole2)
    ensures
        role.spec_into_pdf_2_0() is Some && role != StructRole::Quote && role != StructRole::Note
            && role != StructRole::Reference && role != StructRole::Code && role != StructRole::RP
            ==> role.spec_into_pdf_2_0()->0.spec_name() == role.spec_name(),
        role2.spec_into_pdf_1_7() is Some ==> role2.spec_into_pdf_1_7()->0.spec_name() == role2.spec_name(),
{
    lemma_heading_names();
}

/// The PDF 1.7 headings `H1` to `H6` are the PDF 2.0 headings of levels one
/// to six, in both directions, and no other PDF 2.0 heading level has a PDF
/// 1.7 counterpart.
pub proof fn lemma_heading_levels(level: u16)
    ensures
        StructRole::H1.spec_into_pdf_2_0() == Some(StructRole2::Heading(1)),
        StructRole::H2.spec_into_pdf_2_0() == Some(StructRole2::Heading(2)),
        StructRole::H3.spec_into_pdf_2_0() == Some(StructRole2::Heading(3)),
        StructRole::H4.spec_into_pdf_2_0() == Some(StructRole2::Heading(4)),
        StructRole::H5.spec_into_pdf_2_0() == Some(StructRole2::Heading(5)),
        StructRole::H6.spec_into_pdf_2_0() == Some(StructRole2::Heading(6)),
        StructRole2::Heading(1).spec_into_pdf_1_7() == Some(StructRole::H1),
        StructRole2::Heading(2).spec_into_pdf_1_7() == Some(StructRole::H2),
        StructRole2::Heading(3).spec_into_pdf_1_7() == Some(StructRole::H3),
        StructRole2::Heading(4).spec_into_pdf_1_7() == Some(StructRole::H4),
        StructRole2::Heading(5).spec_into_pdf_1_7() == Some(StructRole::H5),
        StructRole2::Heading(6).spec_into_pdf_1_7() == Some(StructRole::H6),
        level > 6 ==> StructRole2::Heading(level).spec_into_pdf_1_7() is None,
{
}

// ---------------------------------------------------------------------------
// Further structure writers.
// ---------------------------------------------------------------------------

/// The name of the version `major.minor`.
pub open spec fn version_name(major: u8, minor: u8) -> Seq<u8> {
    decimal_digits(major as nat) + ".".spec_bytes() + decimal_digits(minor as nat)
}

/// The bytes of the name of the version `major.minor`.
fn version_bytes(major: u8, minor: u8) -> (r: Vec<u8>)
    ensures
        r@ == version_name(major, minor),
{
    let mut buf = Buf::new();
    buf.push_decimal_usize(major as usize);
    buf.extend_slice(".".as_bytes());
    buf.push_decimal_usize(minor as usize);
    buf.into_bytes()
}

impl Catalog<'_> {
    /// Write the `/Version` attribute to override the PDF version stated in
    /// the header. PDF 1.4+.
    pub fn version(&mut self, major: u8, minor: u8) -> (r: &mut Self)
        requires
            0 <= old(self).dict.len < i32::MAX,
        ensures
            dict_name_pair_appended(old(self).dict, r.dict, "Version".spec_bytes(), version_name(major, minor)),
            *final(r.dict.buf) == *final(old(self).dict.buf),
            *final(self) == *final(r),
    {
        let version = version_bytes(major, minor);
        self.dict.pair(Name("Version".as_bytes()), Name(version.as_slice()));
        self
    }
}

impl DeveloperExtension<'_> {
    /// Write the `/BaseVersion` attribute to specify the version of PDF this
    /// extension is based on. Required.
    pub fn base_version(&mut self, major: u8, minor: u8) -> (r: &mut Self)
        requires
            0 <= old(self).dict.len < i32::MAX,
        ensures
            dict_name_pair_appended(old(self).dict, r.dict, "BaseVersion".spec_bytes(), version_name(major, minor)),
            *final(r.dict.buf) == *final(old(self).dict.buf),
            *final(self) == *final(r),
    {
        let version = version_bytes(major, minor);
        self.dict.pair(Name("BaseVersion".as_bytes()), Name(version.as_slice()));
        self
    }
}

impl StructElement<'_> {
    /// Write the `/S` attribute to specify the role of this structure element
    /// in the PDF 2.0 namespace, together with the `/NS` attribute pointing to
    /// that namespace. PDF 2.0+.
    pub fn kind_2(&mut self, role: StructRole2, pdf_2_ns: Ref) -> (r: &mut Self)
        requires
            role.spec_valid(),
            0 <= old(self).dict.len < i32::MAX - 1,
        ensures
            dict_grown(
                old(self).dict,
                r.dict,
                dict_name_pair_bytes(
                    old(self).dict.buf@,
                    old(self).dict.settings.pretty,
                    old(self).dict.indent as int,
                    "S".spec_bytes(),
                    role.spec_name(),
                ) + dict_pair_bytes(
                    old(self).dict.buf@ + dict_name_pair_bytes(
                        old(self).dict.buf@,
                        old(self).dict.settings.pretty,
                        old(self).dict.indent as int,
                        "S".spec_bytes(),
                        role.spec_name(),
                    ),
                    old(self).dict.settings.pretty,
                    old(self).dict.indent as int,
                    "NS".spec_bytes(),
                    pdf_2_ns,
                ),
                2,
            ),
            *final(r.dict.buf) == *final(old(self).dict.buf),
            *final(self) == *final(r),
    {
        let name = role.to_name_bytes();
        self.dict.pair(Name("S".as_bytes()), Name(name.as_slice()));
        let ghost kind = self.dict.buf@;
        let ghost pretty = old(self).dict.settings.pretty;
        let ghost indent = old(self).dict.indent as int;
        let ghost s_bytes = dict_name_pair_bytes(old(self).dict.buf@, pretty, indent, "S".spec_bytes(), role.spec_name());
        assert(kind == old(self).dict.buf@ + s_bytes);
        let r = self.namespace(pdf_2_ns);
        let ghost ns_bytes = dict_pair_bytes(kind, pretty, indent, "NS".spec_bytes(), pdf_2_ns);
        assert(r.dict.buf@ == kind + ns_bytes);
        assert(r.dict.buf@ =~= old(self).dict.buf@ + (s_bytes + ns_bytes));
        r
    }

    /// Write the `/Ref` attribute to specify the structure elements of which
    /// this element is a part of. PDF 2.0+.
    pub fn refs(&mut self, refs: &[Ref]) -> (r: &mut Self)
        requires
            0 <= old(self).dict.len < i32::MAX,
            refs@.len() <= i32::MAX,
        ensures
            dict_items_appended(old(self).dict, r.dict, "Ref".spec_bytes(), refs@),
            *final(r.dict.buf) == *final(old(self).dict.buf),
            *final(self) == *final(r),
    {
        write_items_entry(&mut self.dict, Name("Ref".as_bytes()), refs);
        self
    }

    /// Start writing the `/K` attribute to specify the children elements and
    /// marked content sequences.
    pub fn children(&mut self) -> (r: StructChildren<'_>)
        requires
            0 <= old(self).dict.len < i32::MAX,
        ensures
            r.arr.buf@ == old(self).dict.buf@ + dict_key_bytes(
                old(self).dict.settings.pretty,
                old(self).dict.indent as int,
                "K".spec_bytes(),
            ) + seq![LBRACKET],
            r.arr.len == 0,
            r.arr.indirect == false,
            r.arr.indent == old(self).dict.indent,
            r.arr.settings == old(self).dict.settings,
            final(self).dict.len == old(self).dict.len + 1,
            final(self).dict.indirect == old(self).dict.indirect,
            final(self).dict.indent == old(self).dict.indent,
            final(self).dict.settings == old(self).dict.settings,
            *final(self).dict.buf == *final(r.arr.buf),
            *final(final(self).dict.buf) == *final(old(self).dict.buf),
            r.arr.buf.spec_limits() == old(self).dict.buf.spec_limits().with_name_len("K".spec_bytes().len() as int),
    {
        StructChildren::start(self.dict.insert(Name("K".as_bytes())))
    }
}

/// Writer for a _structure element children array_.
///
/// This struct is created by [`StructElement::children`].
pub struct StructChildren<'a> {
    /// The underlying array.
    pub arr: Array<'a>,
}

impl<'a> StructChildren<'a> {
    /// Start writing the array on an object.
    pub(crate) fn start(obj: Obj<'a>) -> (r: Self)
        ensures
            r.arr.buf@ == old(obj.buf)@.push(LBRACKET),
            *final(r.arr.buf) == *final(obj.buf),
            r.arr.indirect == obj.indirect,
            r.arr.indent == obj.indent,
            r.arr.settings == obj.settings,
            r.arr.len == 0,
            r.arr.buf.spec_limits() == old(obj.buf).spec_limits(),
    {
        Self { arr: obj.array() }
    }

    /// Write a structure element child as an indirect object.
    pub fn struct_element(&mut self, id: Ref) -> (r: &mut Self)
        requires
            0 <= old(self).arr.len < i32::MAX,
        ensures
            array_item_appended(old(self).arr, r.arr, id),
            *final(r.arr.buf) == *final(old(self).arr.buf),
            *final(self) == *final(r),
    {
        self.arr.item(id);
        self
    }

    /// Write an integer marked content identifier.
    pub fn marked_content_id(&mut self, id: i32) -> (r: &mut Self)
        requires
            0 <= old(self).arr.len < i32::MAX,
            id != i32::MIN,
        ensures
            array_item_appended(old(self).arr, r.arr, id),
            *final(r.arr.buf) == *final(old(self).arr.buf),
            *final(self) == *final(r),
    {
        self.arr.item(id);
        self
    }

    /// Start writing a marked content reference.
    pub fn marked_content_ref(&mut self) -> (r: MarkedRef<'_>)
        requires
            0 <= old(self).arr.len < i32::MAX,
        ensures
            dict_started(
                r.dict,
                old(self).arr.buf@ + array_separator(
                    old(self).arr.len as int,
                    old(self).arr.settings.pretty,
                ),
                false,
                old(self).arr.indent,
                old(self).arr.settings,
                Some("MCR".spec_bytes()),
                None,
            ),
            r.dict.buf.spec_limits() == dict_start_limits(
                old(self).arr.buf.spec_limits(),
                Some("MCR".spec_bytes()),
                None,
            ),
            final(self).arr.len == old(self).arr.len + 1,
            final(self).arr.indirect == old(self).arr.indirect,
            final(self).arr.indent == old(self).arr.indent,
            final(self).arr.settings == old(self).arr.settings,
            *final(self).arr.buf == *final(r.dict.buf),
            *final(final(self).arr.buf) == *final(old(self).arr.buf),
    {
        MarkedRef::start(self.arr.push())
    }

    /// Start writing a reference to an object.
    pub fn object_ref(&mut self) -> (r: ObjectRef<'_>)
        requires
            0 <= old(self).arr.len < i32::MAX,
        ensures
            dict_started(
                r.dict,
                old(self).arr.buf@ + array_separator(
                    old(self).arr.len as int,
                    old(self).arr.settings.pretty,
                ),
                false,
                old(self).arr.indent,
                old(self).arr.settings,
                Some("OBJR".spec_bytes()),
                None,
            ),
            r.dict.buf.spec_limits() == dict_start_limits(
                old(self).arr.buf.spec_limits(),
                Some("OBJR".spec_bytes()),
                None,
            ),
            final(self).arr.len == old(self).arr.len + 1,
            final(self).arr.indirect == old(self).arr.indirect,
            final(self).arr.indent == old(self).arr.indent,
            final(self).arr.settings == old(self).arr.settings,
            *final(self).arr.buf == *final(r.dict.buf),
            *final(final(self).arr.buf) == *final(old(self).arr.buf),
    {
        ObjectRef::start(self.arr.push())
    }

    /// Finish writing the array.
    pub fn finish(self)
        requires
            self.arr.len >= 0,
        ensures
            final(self.arr.buf)@ == old(self.arr.buf)@ + array_close_bytes(
                self.arr.indirect,
                self.arr.settings.pretty,
            ),
            final(self.arr.buf).spec_limits() == old(self.arr.buf).spec_limits().with_array_len(self.arr.len as int),
    {
        self.arr.finish();
    }
}

/// Writer for a _role map dictionary_.
///
/// This struct is created by [`StructTreeRoot::role_map`].
pub struct RoleMap<'a> {
    /// The underlying dictionary.
    pub dict: TypedDict<'a, Name<'a>>,
}

impl<'a> RoleMap<'a> {
    /// Start writing the dictionary on an object.
    pub(crate) fn start(obj: Obj<'a>) -> (r: Self)
        ensures
            dict_started(r.dict.dict, old(obj.buf)@, obj.indirect, obj.indent, obj.settings, None, None),
            *final(r.dict.dict.buf) == *final(obj.buf),
    {
        Self { dict: start_dict(obj, None, None).typed() }
    }

    /// Write an entry mapping a custom name to a pre-defined role.
    pub fn insert(&mut self, name: Name, role: StructRole) -> (r: &mut Self)
        requires
            0 <= old(self).dict.dict.len < i32::MAX,
        ensures
            dict_name_pair_appended(old(self).dict.dict, r.dict.dict, name.0@, role.spec_name()),
            *final(r.dict.dict.buf) == *final(old(self).dict.dict.buf),
            *final(self) == *final(r),
    {
        self.dict.dict.pair(name, role.to_name());
        self
    }

    /// Finish writing the dictionary.
    pub fn finish(self)
        requires
            self.dict.dict.len >= 0,
            self.dict.dict.indent >= 2,
        ensures
            final(self.dict.dict.buf)@ == old(self.dict.dict.buf)@ + dict_close_bytes(
                self.dict.dict.len as int,
                self.dict.dict.settings.pretty,
                self.dict.dict.indent as int,
                self.dict.dict.indirect,
            ),
            final(self.dict.dict.buf).spec_limits() == old(self.dict.dict.buf).spec_limits().with_dict_entries(self.dict.dict.len as int),
    {
        self.dict.dict.finish();
    }
}

impl StructTreeRoot<'_> {
    /// Start writing the `/RoleMap` attribute to map structure element names
    /// to standard names.
    pub fn role_map(&mut self) -> (r: RoleMap<'_>)
        requires
            0 <= old(self).dict.len < i32::MAX,
        ensures
            dict_started(
                r.dict.dict,
                old(self).dict.buf@ + dict_key_bytes(
                    old(self).dict.settings.pretty,
                    old(self).dict.indent as int,
                    "RoleMap".spec_bytes(),
                ),
                false,
                old(self).dict.indent,
                old(self).dict.settings,
                None,
                None,
            ),
            final(self).dict.len == old(self).dict.len + 1,
            final(self).dict.indirect == old(self).dict.indirect,
            final(self).dict.indent == old(self).dict.indent,
            final(self).dict.settings == old(self).dict.settings,
            *final(self).dict.buf == *final(r.dict.dict.buf),
            *final(final(self).dict.buf) == *final(old(self).dict.buf),
    {
        RoleMap::start(self.dict.insert(Name("RoleMap".as_bytes())))
    }
}

impl NamespaceRoleMap<'_> {
    /// Write an entry mapping a custom structure type to an element in the
    /// standard (PDF 1.7) namespace.
    pub fn to_pdf_1_7(&mut self, name: Name, role: StructRole) -> (r: &mut Self)
        requires
            0 <= old(self).dict.len < i32::MAX,
        ensures
            dict_name_pair_appended(old(self).dict, r.dict, name.0@, role.spec_name()),
            *final(r.dict.buf) == *final(old(self).dict.buf),
            *final(self) == *final(r),
    {
        self.dict.pair(name, role.to_name());
        self
    }
}

impl Namespace<'_> {
    /// Write the `/NS` attribute with the identifier `identifier` and finish
    /// the dictionary.
    fn ns_and_finish(self, identifier: &str)
        requires
            0 <= self.dict.len < i32::MAX,
            self.dict.indent >= 2,
        ensures
            final(self.dict.buf)@ == old(self.dict.buf)@ + dict_pair_bytes(
                old(self.dict.buf)@,
                self.dict.settings.pretty,
                self.dict.indent as int,
                "NS".spec_bytes(),
                TextStr(identifier),
            ) + dict_close_bytes(
                self.dict.len + 1,
                self.dict.settings.pretty,
                self.dict.indent as int,
                self.dict.indirect,
            ),
            final(self.dict.buf).spec_limits() == TextStr(identifier).spec_limits_after(
                old(self.dict.buf).spec_limits().with_name_len("NS".spec_bytes().len() as int),
            ).with_dict_entries(self.dict.len + 1),
    {
        let mut this = self;
        this.ns(TextStr(identifier));
        this.finish();
    }

    /// Set the namespace to be the PDF 2.0 standard structure namespace and
    /// finish the dictionary.
    pub fn pdf_2_ns(self)
        requires
            0 <= self.dict.len < i32::MAX,
            self.dict.indent >= 2,
        ensures
            final(self.dict.buf)@ == old(self.dict.buf)@ + dict_pair_bytes(
                old(self.dict.buf)@,
                self.dict.settings.pretty,
                self.dict.indent as int,
                "NS".spec_bytes(),
                TextStr("https://www.iso.org/pdf2/ssn"),
            ) + dict_close_bytes(
                self.dict.len + 1,
                self.dict.settings.pretty,
                self.dict.indent as int,
                self.dict.indirect,
            ),
            final(self.dict.buf).spec_limits() == TextStr("https://www.iso.org/pdf2/ssn").spec_limits_after(
                old(self.dict.buf).spec_limits().with_name_len("NS".spec_bytes().len() as int),
            ).with_dict_entries(self.dict.len + 1),
    {
        self.ns_and_finish("https://www.iso.org/pdf2/ssn");
    }

    /// Set the namespace to be the PDF 1.7 standard structure namespace and
    /// finish the dictionary.
    pub fn pdf_1_7_ns(self)
        requires
            0 <= self.dict.len < i32::MAX,
            self.dict.indent >= 2,
        ensures
            final(self.dict.buf)@ == old(self.dict.buf)@ + dict_pair_bytes(
                old(self.dict.buf)@,
                self.dict.settings.pretty,
                self.dict.indent as int,
                "NS".spec_bytes(),
                TextStr("https://www.iso.org/pdf/ssn"),
            ) + dict_close_bytes(
                self.dict.len + 1,
                self.dict.settings.pretty,
                self.dict.indent as int,
                self.dict.indirect,
            ),
            final(self.dict.buf).spec_limits() == TextStr("https://www.iso.org/pdf/ssn").spec_limits_after(
                old(self.dict.buf).spec_limits().with_name_len("NS".spec_bytes().len() as int),
            ).with_dict_entries(self.dict.len + 1),
    {
        self.ns_and_finish("https://www.iso.org/pdf/ssn");
    }

    /// Set the namespace to be the MathML 3.0 namespace and finish the
    /// dictionary.
    pub fn mathml_3_0_ns(self)
        requires
            0 <= self.dict.len < i32::MAX,
            self.dict.indent >= 2,
        ensures
            final(self.dict.buf)@ == old(self.dict.buf)@ + dict_pair_bytes(
                old(self.dict.buf)@,
                self.dict.settings.pretty,
                self.dict.indent as int,
                "NS".spec_bytes(),
                TextStr("https://www.w3.org/1998/Math/MathML"),
            ) + dict_close_bytes(
                self.dict.len + 1,
                self.dict.settings.pretty,
                self.dict.indent as int,
                self.dict.indirect,
            ),
            final(self.dict.buf).spec_limits() == TextStr("https://www.w3.org/1998/Math/MathML").spec_limits_after(
                old(self.dict.buf).spec_limits().with_name_len("NS".spec_bytes().len() as int),
            ).with_dict_entries(self.dict.len + 1),
    {
        self.ns_and_finish("https://www.w3.org/1998/Math/MathML");
    }
}

/// An entry mapping `name` to the role `role` of the namespace `ns`.
pub open spec fn namespace_role_entry_bytes(
    before: Seq<u8>,
    pretty: bool,
    indent: int,
    name: Seq<u8>,
    role: Name,
    ns: Ref,
) -> Seq<u8> {
    let key = dict_key_bytes(pretty, indent, name);
    let open = before + key + "<<".spec_bytes();
    let inner = nested_indent(indent as u8) as int;
    let role_entry = dict_pair_bytes(open, pretty, inner, "Role".spec_bytes(), role);
    let ns_entry = dict_pair_bytes(open + role_entry, pretty, inner, "NS".spec_bytes(), ns);
    key + "<<".spec_bytes() + role_entry + ns_entry + dict_close_bytes(2, pretty, inner, false)
}

impl NamespaceRoleMap<'_> {
    /// Write an entry mapping a custom structure type to an element in
    /// another namespace.
    pub fn to_namespace(&mut self, name: Name, role: Name, ns_ref: Ref) -> (r: &mut Self)
        requires
            0 <= old(self).dict.len < i32::MAX,
        ensures
            dict_grown(
                old(self).dict,
                r.dict,
                namespace_role_entry_bytes(
                    old(self).dict.buf@,
                    old(self).dict.settings.pretty,
                    old(self).dict.indent as int,
                    name.0@,
                    role,
                    ns_ref,
                ),
                1,
            ),
            *final(r.dict.buf) == *final(old(self).dict.buf),
            *final(self) == *final(r),
    {
        let ghost before = self.dict.buf@;
        let mut dict = self.dict.insert(name).dict();
        dict.pair(Name("Role".as_bytes()), role);
        dict.pair(Name("NS".as_bytes()), ns_ref);
        dict.finish();
        assert(self.dict.buf@ =~= before + namespace_role_entry_bytes(
            before,
            old(self).dict.settings.pretty,
            old(self).dict.indent as int,
            name.0@,
            role,
            ns_ref,
        ));
        self
    }
}

/// The bytes that write the final command `command` of a destination array
/// holding `len` items and close it.
pub open spec fn destination_end_bytes(before: Seq<u8>, len: int, pretty: bool, indirect: bool, command: Seq<u8>) -> Seq<u8> {
    array_item_enc_bytes(before, len, pretty, name_encoding(command), true) + array_close_bytes(
        indirect,
        pretty,
    )
}

/// Writer for a _destination array_.
///
/// A dictionary mapping to this struct is created by
/// [`Chunk::destinations`](crate::Chunk::destinations). This struct is also
/// created by [`Action::destination`](crate::writers::Action::destination),
/// [`OutlineItem::dest`] and [`Chunk::destination`](crate::Chunk::destination).
///
/// The commands that take coordinates are written by the code that handles
/// real numbers; the commands here take none.
pub struct Destination<'a> {
    /// The destination array being written.
    pub array: Array<'a>,
}

impl<'a> Destination<'a> {
    /// Start writing the array on an object.
    pub(crate) fn start(obj: Obj<'a>) -> (r: Self)
        ensures
            array_started(r.array, old(obj.buf)@, obj.indirect, obj.indent, obj.settings),
            *final(r.array.buf) == *final(obj.buf),
            r.array.buf.spec_limits() == old(obj.buf).spec_limits(),
    {
        Self { array: obj.array() }
    }

    /// The target page. Required.
    pub fn page(self, page: Ref) -> (r: Self)
        requires
            0 <= self.array.len < i32::MAX,
        ensures
            r.array.buf@ == old(self.array.buf)@ + array_item_bytes(
                old(self.array.buf)@,
                self.array.len as int,
                self.array.settings.pretty,
                page,
            ),
            r.array.len == self.array.len + 1,
            r.array.indirect == self.array.indirect,
            r.array.indent == self.array.indent,
            r.array.settings == self.array.settings,
            *final(r.array.buf) == *final(self.array.buf),
            r.array.buf.spec_limits() == old(self.array.buf).spec_limits().with_int(page.id()),
    {
        let mut this = self;
        this.array.item(page);
        this
    }

    /// Write the `/Fit` command which fits all of the referenced page on
    /// screen.
    pub fn fit(self)
        requires
            0 <= self.array.len < i32::MAX,
        ensures
            final(self.array.buf)@ == old(self.array.buf)@ + destination_end_bytes(
                old(self.array.buf)@,
                self.array.len as int,
                self.array.settings.pretty,
                self.array.indirect,
                "Fit".spec_bytes(),
            ),
            final(self.array.buf).spec_limits() == old(self.array.buf).spec_limits().with_name_len(
                "Fit".spec_bytes().len() as int,
            ).with_array_len(self.array.len + 1),
    {
        let mut array = self.array;
        array.item(Name("Fit".as_bytes()));
        array.finish();
    }

    /// Write the `/FitB` command which fits all of the referenced page's
    /// content on screen. PDF 1.1+.
    pub fn fit_bounding_box(self)
        requires
            0 <= self.array.len < i32::MAX,
        ensures
            final(self.array.buf)@ == old(self.array.buf)@ + destination_end_bytes(
                old(self.array.buf)@,
                self.array.len as int,
                self.array.settings.pretty,
                self.array.indirect,
                "FitB".spec_bytes(),
            ),
            final(self.array.buf).spec_limits() == old(self.array.buf).spec_limits().with_name_len(
                "FitB".spec_bytes().len() as int,
            ).with_array_len(self.array.len + 1),
    {
        let mut array = self.array;
        array.item(Name("FitB".as_bytes()));
        array.finish();
    }
}

/// The token of the zoom of a `/XYZ` destination: zero when there is none.
pub open spec fn zoom_token(zoom: Option<Real>) -> (Seq<u8>, bool) {
    match zoom {
        Some(z) => token(z),
        None => ("0".spec_bytes(), false),
    }
}

/// Destination commands with coordinates.
impl<'a> Destination<'a> {
    /// Write the `/XYZ` command which skips to the specified coordinated.
    ///
    /// Without a zoom, the zoom is written as zero.
    pub fn xyz(self, left: Real, top: Real, zoom: Option<Real>)
        requires
            0 <= self.array.len,
            self.array.len + 4 <= i32::MAX,
            left.spec_writable(),
            top.spec_writable(),
            zoom matches Some(z) ==> z.spec_writable(),
        ensures
            final(self.array.buf)@ == old(self.array.buf)@ + array_tokens_bytes(
                old(self.array.buf)@,
                self.array.len as int,
                self.array.settings.pretty,
                seq![name_token("XYZ".spec_bytes()), token(left), token(top), zoom_token(zoom)],
            ) + array_close_bytes(self.array.indirect, self.array.settings.pretty),
            final(self.array.buf).spec_limits() == old(self.array.buf).spec_limits().with_name_len(
                "XYZ".spec_bytes().len() as int,
            ).with_array_len(self.array.len + 4),
    {
        let ghost pretty = self.array.settings.pretty;
        let ghost start = self.array.buf@;
        let ghost len0 = self.array.len as int;
        let mut array = self.array;
        let zero = Real("0".as_bytes());
        proof {
            reveal_strlit("0");
            vstd::string::is_ascii_spec_bytes("0");
            assert("0".spec_bytes() =~= seq![48u8]);
            assert(is_digit(zero.0@[0]));
        }
        assert(array_tokens_bytes(start, len0, pretty, seq![]) =~= Seq::<u8>::empty());
        push_token_item(&mut array, Name("XYZ".as_bytes()), Ghost(start), Ghost(len0), Ghost(Seq::empty()));
        assert(Seq::empty().push(name_token("XYZ".spec_bytes())) =~= seq![name_token("XYZ".spec_bytes())]);
        let ghost toks = seq![name_token("XYZ".spec_bytes())];
        push_token_item(&mut array, left, Ghost(start), Ghost(len0), Ghost(toks));
        assert(seq![name_token("XYZ".spec_bytes())].push(token(left)) =~= seq![name_token("XYZ".spec_bytes()), token(left)]);
        let ghost toks = seq![name_token("XYZ".spec_bytes()), token(left)];
        push_token_item(&mut array, top, Ghost(start), Ghost(len0), Ghost(toks));
        assert(seq![name_token("XYZ".spec_bytes()), token(left)].push(token(top)) =~= seq![name_token("XYZ".spec_bytes()), token(left), token(top)]);
        let z = match zoom {
            Some(z) => z,
            None => zero,
        };
        assert(zero.0@ == "0".spec_bytes());
        assert(token(z) == zoom_token(zoom));
        let ghost toks = seq![name_token("XYZ".spec_bytes()), token(left), token(top)];
        push_token_item(&mut array, z, Ghost(start), Ghost(len0), Ghost(toks));
        assert(seq![name_token("XYZ".spec_bytes()), token(left), token(top)].push(zoom_token(zoom)) =~= seq![name_token("XYZ".spec_bytes()), token(left), token(top), zoom_token(zoom)]);
        array.finish();
    }
    /// Write the `/FitH` command which fits the referenced page to the screen
    /// width and skips to the specified offset.
    pub fn fit_horizontal(self, top: Real)
        requires
            0 <= self.array.len,
            self.array.len + 2 <= i32::MAX,
            top.spec_writable(),
        ensures
            final(self.array.buf)@ == old(self.array.buf)@ + array_tokens_bytes(
                old(self.array.buf)@,
                self.array.len as int,
                self.array.settings.pretty,
                seq![name_token("FitH".spec_bytes()), token(top)],
            ) + array_close_bytes(self.array.indirect, self.array.settings.pretty),
            final(self.array.buf).spec_limits() == old(self.array.buf).spec_limits().with_name_len(
                "FitH".spec_bytes().len() as int,
            ).with_array_len(self.array.len + 2),
    {
        let ghost pretty = self.array.settings.pretty;
        let ghost start = self.array.buf@;
        let ghost len0 = self.array.len as int;
        let mut array = self.array;
        assert(array_tokens_bytes(start, len0, pretty, seq![]) =~= Seq::<u8>::empty());
        push_token_item(&mut array, Name("FitH".as_bytes()), Ghost(start), Ghost(len0), Ghost(Seq::empty()));
        assert(Seq::empty().push(name_token("FitH".spec_bytes())) =~= seq![name_token("FitH".spec_bytes())]);
        let ghost toks = seq![name_token("FitH".spec_bytes())];
        push_token_item(&mut array, top, Ghost(start), Ghost(len0), Ghost(toks));
        assert(seq![name_token("FitH".spec_bytes())].push(token(top)) =~= seq![name_token("FitH".spec_bytes()), token(top)]);
        array.finish();
    }
    /// Write the `/FitV` command which fits the referenced page to the screen
    /// height and skips to the specified offset.
    pub fn fit_vertical(self, left: Real)
        requires
            0 <= self.array.len,
            self.array.len + 2 <= i32::MAX,
            left.spec_writable(),
        ensures
            final(self.array.buf)@ == old(self.array.buf)@ + array_tokens_bytes(
                old(self.array.buf)@,
                self.array.len as int,
                self.array.settings.pretty,
                seq![name_token("FitV".spec_bytes()), token(left)],
            ) + array_close_bytes(self.array.indirect, self.array.settings.pretty),
            final(self.array.buf).spec_limits() == old(self.array.buf).spec_limits().with_name_len(
                "FitV".spec_bytes().len() as int,
            ).with_array_len(self.array.len + 2),
    {
        let ghost pretty = self.array.settings.pretty;
        let ghost start = self.array.buf@;
        let ghost len0 = self.array.len as int;
        let mut array = self.array;
        assert(array_tokens_bytes(start, len0, pretty, seq![]) =~= Seq::<u8>::empty());
        push_token_item(&mut array, Name("FitV".as_bytes()), Ghost(start), Ghost(len0), Ghost(Seq::empty()));
        assert(Seq::empty().push(name_token("FitV".spec_bytes())) =~= seq![name_token("FitV".spec_bytes())]);
        let ghost toks = seq![name_token("FitV".spec_bytes())];
        push_token_item(&mut array, left, Ghost(start), Ghost(len0), Ghost(toks));
        assert(seq![name_token("FitV".spec_bytes())].push(token(left)) =~= seq![name_token("FitV".spec_bytes()), token(left)]);
        array.finish();
    }
    /// Write the `/FitR` command which fits the rectangle argument on the
    /// screen.
    pub fn fit_rect(self, rect: Rect)
        requires
            0 <= self.array.len,
            self.array.len + 5 <= i32::MAX,
            rect.spec_writable(),
        ensures
            final(self.array.buf)@ == old(self.array.buf)@ + array_tokens_bytes(
                old(self.array.buf)@,
                self.array.len as int,
                self.array.settings.pretty,
                seq![name_token("FitR".spec_bytes()), token(rect.x1), token(rect.y1), token(rect.x2), token(rect.y2)],
            ) + array_close_bytes(self.array.indirect, self.array.settings.pretty),
            final(self.array.buf).spec_limits() == old(self.array.buf).spec_limits().with_name_len(
                "FitR".spec_bytes().len() as int,
            ).with_array_len(self.array.len + 5),
    {
        let ghost pretty = self.array.settings.pretty;
        let ghost start = self.array.buf@;
        let ghost len0 = self.array.len as int;
        let mut array = self.array;
        assert(array_tokens_bytes(start, len0, pretty, seq![]) =~= Seq::<u8>::empty());
        push_token_item(&mut array, Name("FitR".as_bytes()), Ghost(start), Ghost(len0), Ghost(Seq::empty()));
        assert(Seq::empty().push(name_token("FitR".spec_bytes())) =~= seq![name_token("FitR".spec_bytes())]);
        let ghost toks = seq![name_token("FitR".spec_bytes())];
        push_token_item(&mut array, rect.x1, Ghost(start), Ghost(len0), Ghost(toks));
        assert(seq![name_token("FitR".spec_bytes())].push(token(rect.x1)) =~= seq![name_token("FitR".spec_bytes()), token(rect.x1)]);
        let ghost toks = seq![name_token("FitR".spec_bytes()), token(rect.x1)];
        push_token_item(&mut array, rect.y1, Ghost(start), Ghost(len0), Ghost(toks));
        assert(seq![name_token("FitR".spec_bytes()), token(rect.x1)].push(token(rect.y1)) =~= seq![name_token("FitR".spec_bytes()), token(rect.x1), token(rect.y1)]);
        let ghost toks = seq![name_token("FitR".spec_bytes()), token(rect.x1), token(rect.y1)];
        push_token_item(&mut array, rect.x2, Ghost(start), Ghost(len0), Ghost(toks));
        assert(seq![name_token("FitR".spec_bytes()), token(rect.x1), token(rect.y1)].push(token(rect.x2)) =~= seq![name_token("FitR".spec_bytes()), token(rect.x1), token(rect.y1), token(rect.x2)]);
        let ghost toks = seq![name_token("FitR".spec_bytes()), token(rect.x1), token(rect.y1), token(rect.x2)];
        push_token_item(&mut array, rect.y2, Ghost(start), Ghost(len0), Ghost(toks));
        assert(seq![name_token("FitR".spec_bytes()), token(rect.x1), token(rect.y1), token(rect.x2)].push(token(rect.y2)) =~= seq![name_token("FitR".spec_bytes()), token(rect.x1), token(rect.y1), token(rect.x2), token(rect.y2)]);
        array.finish();
    }
    /// Write the `/FitBH` command which fits the referenced page's content to
    /// the screen width and skips to the specified offset. PDF 1.1+.
    pub fn fit_bounding_box_horizontal(self, top: Real)
        requires
            0 <= self.array.len,
            self.array.len + 2 <= i32::MAX,
            top.spec_writable(),
        ensures
            final(self.array.buf)@ == old(self.array.buf)@ + array_tokens_bytes(
                old(self.array.buf)@,
                self.array.len as int,
                self.array.settings.pretty,
                seq![name_token("FitBH".spec_bytes()), token(top)],
            ) + array_close_bytes(self.array.indirect, self.array.settings.pretty),
            final(self.array.buf).spec_limits() == old(self.array.buf).spec_limits().with_name_len(
                "FitBH".spec_bytes().len() as int,
            ).with_array_len(self.array.len + 2),
    {
        let ghost pretty = self.array.settings.pretty;
        let ghost start = self.array.buf@;
        let ghost len0 = self.array.len as int;
        let mut array = self.array;
        assert(array_tokens_bytes(start, len0, pretty, seq![]) =~= Seq::<u8>::empty());
        push_token_item(&mut array, Name("FitBH".as_bytes()), Ghost(start), Ghost(len0), Ghost(Seq::empty()));
        assert(Seq::empty().push(name_token("FitBH".spec_bytes())) =~= seq![name_token("FitBH".spec_bytes())]);
        let ghost toks = seq![name_token("FitBH".spec_bytes())];
        push_token_item(&mut array, top, Ghost(start), Ghost(len0), Ghost(toks));
        assert(seq![name_token("FitBH".spec_bytes())].push(token(top)) =~= seq![name_token("FitBH".spec_bytes()), token(top)]);
        array.finish();
    }
    /// Write the `/FitBV` command which fits the referenced page's content to
    /// the screen height and skips to the specified offset. PDF 1.1+.
    pub fn fit_bounding_box_vertical(self, left: Real)
        requires
            0 <= self.array.len,
            self.array.len + 2 <= i32::MAX,
            left.spec_writable(),
        ensures
            final(self.array.buf)@ == old(self.array.buf)@ + array_tokens_bytes(
                old(self.array.buf)@,
                self.array.len as int,
                self.array.settings.pretty,
                seq![name_token("FitBV".spec_bytes()), token(left)],
            ) + array_close_bytes(self.array.indirect, self.array.settings.pretty),
            final(self.array.buf).spec_limits() == old(self.array.buf).spec_limits().with_name_len(
                "FitBV".spec_bytes().len() as int,
            ).with_array_len(self.array.len + 2),
    {
        let ghost pretty = self.array.settings.pretty;
        let ghost start = self.array.buf@;
        let ghost len0 = self.array.len as int;
        let mut array = self.array;
        assert(array_tokens_bytes(start, len0, pretty, seq![]) =~= Seq::<u8>::empty());
        push_token_item(&mut array, Name("FitBV".as_bytes()), Ghost(start), Ghost(len0), Ghost(Seq::empty()));
        assert(Seq::empty().push(name_token("FitBV".spec_bytes())) =~= seq![name_token("FitBV".spec_bytes())]);
        let ghost toks = seq![name_token("FitBV".spec_bytes())];
        push_token_item(&mut array, left, Ghost(start), Ghost(len0), Ghost(toks));
        assert(seq![name_token("FitBV".spec_bytes())].push(token(left)) =~= seq![name_token("FitBV".spec_bytes()), token(left)]);
        array.finish();
    }
}

impl OutlineItem<'_> {
    /// Start writing the `/Dest` attribute to set the destination of this
    /// outline item.
    pub fn dest(&mut self) -> (r: Destination<'_>)
        requires
            0 <= old(self).dict.len < i32::MAX,
        ensures
            array_started(
                r.array,
                old(self).dict.buf@ + dict_key_bytes(
                    old(self).dict.settings.pretty,
                    old(self).dict.indent as int,
                    "Dest".spec_bytes(),
                ),
                false,
                old(self).dict.indent,
                old(self).dict.settings,
            ),
            r.array.buf.spec_limits() == old(self).dict.buf.spec_limits().with_name_len("Dest".spec_bytes().len() as int),
            final(self).dict.len == old(self).dict.len + 1,
            final(self).dict.indirect == old(self).dict.indirect,
            final(self).dict.indent == old(self).dict.indent,
            final(self).dict.settings == old(self).dict.settings,
            *final(self).dict.buf == *final(r.array.buf),
            *final(final(self).dict.buf) == *final(old(self).dict.buf),
    {
        Destination::start(self.dict.insert(Name("Dest".as_bytes())))
    }
}

impl<'a, 'b> TypedDict<'a, Destination<'b>> {
    /// Start writing the destination stored under `key`.
    pub fn insert(&mut self, key: Name) -> (r: Destination<'_>)
        requires
            0 <= old(self).dict.len < i32::MAX,
        ensures
            array_started(
                r.array,
                old(self).dict.buf@ + dict_key_bytes(
                    old(self).dict.settings.pretty,
                    old(self).dict.indent as int,
                    key.0@,
                ),
                false,
                old(self).dict.indent,
                old(self).dict.settings,
            ),
            r.array.buf.spec_limits() == old(self).dict.buf.spec_limits().with_name_len(key.0@.len() as int),
            final(self).dict.len == old(self).dict.len + 1,
            final(self).dict.indirect == old(self).dict.indirect,
            final(self).dict.indent == old(self).dict.indent,
            final(self).dict.settings == old(self).dict.settings,
            *final(self).dict.buf == *final(r.array.buf),
            *final(final(self).dict.buf) == *final(old(self).dict.buf),
    {
        Destination::start(self.dict.insert(key))
    }
}

impl Catalog<'_> {
    /// Start writing the `/OutputIntents` array to specify the output
    /// destinations of the document. PDF 1.4+.
    pub fn output_intents(&mut self) -> (r: TypedArray<'_, OutputIntent<'_>>)
        requires
            0 <= old(self).dict.len < i32::MAX,
        ensures
            array_started(
                r.array,
                old(self).dict.buf@ + dict_key_bytes(
                    old(self).dict.settings.pretty,
                    old(self).dict.indent as int,
                    "OutputIntents".spec_bytes(),
                ),
                false,
                old(self).dict.indent,
                old(self).dict.settings,
            ),
            final(self).dict.len == old(self).dict.len + 1,
            final(self).dict.indirect == old(self).dict.indirect,
            final(self).dict.indent == old(self).dict.indent,
            final(self).dict.settings == old(self).dict.settings,
            *final(self).dict.buf == *final(r.array.buf),
            *final(final(self).dict.buf) == *final(old(self).dict.buf),
            r.array.buf.spec_limits() == old(self).dict.buf.spec_limits().with_name_len("OutputIntents".spec_bytes().len() as int),
    {
        self.dict.insert(Name("OutputIntents".as_bytes())).array().typed()
    }

    /// Start writing the `/AF` array to specify the associated files of the
    /// document. PDF 2.0+ or PDF/A-3.
    pub fn associated_files(&mut self) -> (r: TypedArray<'_, FileSpec<'_>>)
        requires
            0 <= old(self).dict.len < i32::MAX,
        ensures
            array_started(
                r.array,
                old(self).dict.buf@ + dict_key_bytes(
                    old(self).dict.settings.pretty,
                    old(self).dict.indent as int,
                    "AF".spec_bytes(),
                ),
                false,
                old(self).dict.indent,
                old(self).dict.settings,
            ),
            final(self).dict.len == old(self).dict.len + 1,
            final(self).dict.indirect == old(self).dict.indirect,
            final(self).dict.indent == old(self).dict.indent,
            final(self).dict.settings == old(self).dict.settings,
            *final(self).dict.buf == *final(r.array.buf),
            *final(final(self).dict.buf) == *final(old(self).dict.buf),
            r.array.buf.spec_limits() == old(self).dict.buf.spec_limits().with_name_len("AF".spec_bytes().len() as int),
    {
        self.dict.insert(Name("AF".as_bytes())).array().typed()
    }

    /// Start writing the `/Extensions` dictionary to specify which developer
    /// extensions are used in the document. PDF 1.7+.
    pub fn extensions(&mut self) -> (r: TypedDict<'_, DeveloperExtension<'_>>)
        requires
            0 <= old(self).dict.len < i32::MAX,
        ensures
            dict_started(
                r.dict,
                old(self).dict.buf@ + dict_key_bytes(
                    old(self).dict.settings.pretty,
                    old(self).dict.indent as int,
                    "Extensions".spec_bytes(),
                ),
                false,
                old(self).dict.indent,
                old(self).dict.settings,
                None,
                None,
            ),
            r.dict.buf.spec_limits() == old(self).dict.buf.spec_limits().with_name_len("Extensions".spec_bytes().len() as int),
            final(self).dict.len == old(self).dict.len + 1,
            final(self).dict.indirect == old(self).dict.indirect,
            final(self).dict.indent == old(self).dict.indent,
            final(self).dict.settings == old(self).dict.settings,
            *final(self).dict.buf == *final(r.dict.buf),
            *final(final(self).dict.buf) == *final(old(self).dict.buf),
    {
        start_dict(self.dict.insert(Name("Extensions".as_bytes())), None, None).typed()
    }
}

impl<'a, 'b> TypedDict<'a, DeveloperExtension<'b>> {
    /// Start writing the developer extension stored under `key`.
    pub fn insert(&mut self, key: Name) -> (r: DeveloperExtension<'_>)
        requires
            0 <= old(self).dict.len < i32::MAX,
        ensures
            dict_started(
                r.dict,
                old(self).dict.buf@ + dict_key_bytes(
                    old(self).dict.settings.pretty,
                    old(self).dict.indent as int,
                    key.0@,
                ),
                false,
                old(self).dict.indent,
                old(self).dict.settings,
                Some("DeveloperExtensions".spec_bytes()),
                None,
            ),
            r.dict.buf.spec_limits() == dict_start_limits(
                old(self).dict.buf.spec_limits().with_name_len(key.0@.len() as int),
                Some("DeveloperExtensions".spec_bytes()),
                None,
            ),
            final(self).dict.len == old(self).dict.len + 1,
            final(self).dict.indirect == old(self).dict.indirect,
            final(self).dict.indent == old(self).dict.indent,
            final(self).dict.settings == old(self).dict.settings,
            *final(self).dict.buf == *final(r.dict.buf),
            *final(final(self).dict.buf) == *final(old(self).dict.buf),
    {
        DeveloperExtension::start(self.dict.insert(key))
    }
}

impl StructTreeRoot<'_> {
    /// Start writing the `/AF` array to specify the associated files of the
    /// structure tree. PDF 2.0+ or PDF/A-3.
    pub fn associated_files(&mut self) -> (r: TypedArray<'_, FileSpec<'_>>)
        requires
            0 <= old(self).dict.len < i32::MAX,
        ensures
            array_started(
                r.array,
                old(self).dict.buf@ + dict_key_bytes(
                    old(self).dict.settings.pretty,
                    old(self).dict.indent as int,
                    "AF".spec_bytes(),
                ),
                false,
                old(self).dict.indent,
                old(self).dict.settings,
            ),
            final(self).dict.len == old(self).dict.len + 1,
            final(self).dict.indirect == old(self).dict.indirect,
            final(self).dict.indent == old(self).dict.indent,
            final(self).dict.settings == old(self).dict.settings,
            *final(self).dict.buf == *final(r.array.buf),
            *final(final(self).dict.buf) == *final(old(self).dict.buf),
            r.array.buf.spec_limits() == old(self).dict.buf.spec_limits().with_name_len("AF".spec_bytes().len() as int),
    {
        self.dict.insert(Name("AF".as_bytes())).array().typed()
    }
}

impl StructElement<'_> {
    /// Start writing the `/AF` array to specify the associated files of the
    /// structure element. PDF 2.0+ or PDF/A-3.
    pub fn associated_files(&mut self) -> (r: TypedArray<'_, FileSpec<'_>>)
        requires
            0 <= old(self).dict.len < i32::MAX,
        ensures
            array_started(
                r.array,
                old(self).dict.buf@ + dict_key_bytes(
                    old(self).dict.settings.pretty,
                    old(self).dict.indent as int,
                    "AF".spec_bytes(),
                ),
                false,
                old(self).dict.indent,
                old(self).dict.settings,
            ),
            final(self).dict.len == old(self).dict.len + 1,
            final(self).dict.indirect == old(self).dict.indirect,
            final(self).dict.indent == old(self).dict.indent,
            final(self).dict.settings == old(self).dict.settings,
            *final(self).dict.buf == *final(r.array.buf),
            *final(final(self).dict.buf) == *final(old(self).dict.buf),
            r.array.buf.spec_limits() == old(self).dict.buf.spec_limits().with_name_len("AF".spec_bytes().len() as int),
    {
        self.dict.insert(Name("AF".as_bytes())).array().typed()
    }
}

impl Page<'_> {
    /// Start writing the `/AF` array to specify the associated files of the
    /// page. PDF 2.0+ or PDF/A-3.
    pub fn associated_files(&mut self) -> (r: TypedArray<'_, FileSpec<'_>>)
        requires
            0 <= old(self).dict.len < i32::MAX,
        ensures
            array_started(
                r.array,
                old(self).dict.buf@ + dict_key_bytes(
                    old(self).dict.settings.pretty,
                    old(self).dict.indent as int,
                    "AF".spec_bytes(),
                ),
                false,
                old(self).dict.indent,
                old(self).dict.settings,
            ),
            final(self).dict.len == old(self).dict.len + 1,
            final(self).dict.indirect == old(self).dict.indirect,
            final(self).dict.indent == old(self).dict.indent,
            final(self).dict.settings == old(self).dict.settings,
            *final(self).dict.buf == *final(r.array.buf),
            *final(final(self).dict.buf) == *final(old(self).dict.buf),
            r.array.buf.spec_limits() == old(self).dict.buf.spec_limits().with_name_len("AF".spec_bytes().len() as int),
    {
        self.dict.insert(Name("AF".as_bytes())).array().typed()
    }
}

impl StructElement<'_> {
    /// Start writing the `/A` attribute to specify the attributes of this
    /// structure element.
    pub fn attributes(&mut self) -> (r: TypedArray<'_, Attributes<'_>>)
        requires
            0 <= old(self).dict.len < i32::MAX,
        ensures
            array_started(
                r.array,
                old(self).dict.buf@ + dict_key_bytes(
                    old(self).dict.settings.pretty,
                    old(self).dict.indent as int,
                    "A".spec_bytes(),
                ),
                false,
                old(self).dict.indent,
                old(self).dict.settings,
            ),
            final(self).dict.len == old(self).dict.len + 1,
            final(self).dict.indirect == old(self).dict.indirect,
            final(self).dict.indent == old(self).dict.indent,
            final(self).dict.settings == old(self).dict.settings,
            *final(self).dict.buf == *final(r.array.buf),
            *final(final(self).dict.buf) == *final(old(self).dict.buf),
            r.array.buf.spec_limits() == old(self).dict.buf.spec_limits().with_name_len("A".spec_bytes().len() as int),
    {
        self.dict.insert(Name("A".as_bytes())).array().typed()
    }
}

impl ClassMap<'_> {
    /// Start writing an attributes dictionary for a class name.
    pub fn single(&mut self, name: Name) -> (r: Attributes<'_>)
        requires
            0 <= old(self).dict.len < i32::MAX,
        ensures
            r.obj.buf@ == old(self).dict.buf@ + dict_key_bytes(
                old(self).dict.settings.pretty,
                old(self).dict.indent as int,
                name.0@,
            ),
            r.obj.needs_padding == !old(self).dict.settings.pretty,
            r.obj.indirect == false,
            r.obj.indent == old(self).dict.indent,
            r.obj.settings == old(self).dict.settings,
            final(self).dict.len == old(self).dict.len + 1,
            final(self).dict.indirect == old(self).dict.indirect,
            final(self).dict.indent == old(self).dict.indent,
            final(self).dict.settings == old(self).dict.settings,
            *final(self).dict.buf == *final(r.obj.buf),
            *final(final(self).dict.buf) == *final(old(self).dict.buf),
    {
        Attributes::start(self.dict.insert(name))
    }

    /// Start writing an array of attribute dictionaries for a class name.
    pub fn multiple(&mut self, name: Name) -> (r: TypedArray<'_, Attributes<'_>>)
        requires
            0 <= old(self).dict.len < i32::MAX,
        ensures
            array_started(
                r.array,
                old(self).dict.buf@ + dict_key_bytes(
                    old(self).dict.settings.pretty,
                    old(self).dict.indent as int,
                    name.0@,
                ),
                false,
                old(self).dict.indent,
                old(self).dict.settings,
            ),
            final(self).dict.len == old(self).dict.len + 1,
            final(self).dict.indirect == old(self).dict.indirect,
            final(self).dict.indent == old(self).dict.indent,
            final(self).dict.settings == old(self).dict.settings,
            *final(self).dict.buf == *final(r.array.buf),
            *final(final(self).dict.buf) == *final(old(self).dict.buf),
    {
        self.dict.insert(name).array().typed()
    }
}

/// Attributes with real-number values.
impl Pages<'_> {
    /// Write the `/MediaBox` attribute.
    pub fn media_box(&mut self, rect: Rect) -> (r: &mut Self)
        requires
            0 <= old(self).dict.len < i32::MAX,
            rect.spec_writable(),
        ensures
            dict_pair_appended(old(self).dict, r.dict, "MediaBox".spec_bytes(), rect),
            *final(r.dict.buf) == *final(old(self).dict.buf),
            *final(self) == *final(r),
    {
        self.dict.pair(Name("MediaBox".as_bytes()), rect);
        self
    }
}

/// Attributes with real-number values.
impl Page<'_> {
    /// Write the `/MediaBox` attribute. This is the size of the physical medium
    /// the page gets printed onto.
    pub fn media_box(&mut self, rect: Rect) -> (r: &mut Self)
        requires
            0 <= old(self).dict.len < i32::MAX,
            rect.spec_writable(),
        ensures
            dict_pair_appended(old(self).dict, r.dict, "MediaBox".spec_bytes(), rect),
            *final(r.dict.buf) == *final(old(self).dict.buf),
            *final(self) == *final(r),
    {
        self.dict.pair(Name("MediaBox".as_bytes()), rect);
        self
    }

    /// Write the `/CropBox` attribute. This is the size of the area within
    /// which content is visible.
    pub fn crop_box(&mut self, rect: Rect) -> (r: &mut Self)
        requires
            0 <= old(self).dict.len < i32::MAX,
            rect.spec_writable(),
        ensures
            dict_pair_appended(old(self).dict, r.dict, "CropBox".spec_bytes(), rect),
            *final(r.dict.buf) == *final(old(self).dict.buf),
            *final(self) == *final(r),
    {
        self.dict.pair(Name("CropBox".as_bytes()), rect);
        self
    }

    /// Write the `/BleedBox` attribute. This is the size of the area within
    /// which content is visible in a print production environment. Most
    /// production-aiding marks should be outside of this box. PDF 1.3+.
    pub fn bleed_box(&mut self, rect: Rect) -> (r: &mut Self)
        requires
            0 <= old(self).dict.len < i32::MAX,
            rect.spec_writable(),
        ensures
            dict_pair_appended(old(self).dict, r.dict, "BleedBox".spec_bytes(), rect),
            *final(r.dict.buf) == *final(old(self).dict.buf),
            *final(self) == *final(r),
    {
        self.dict.pair(Name("BleedBox".as_bytes()), rect);
        self
    }

    /// Write the `/TrimBox` attribute. This is the size of the produced
    /// document after trimming is applied. PDF 1.3+.
    pub fn trim_box(&mut self, rect: Rect) -> (r: &mut Self)
        requires
            0 <= old(self).dict.len < i32::MAX,
            rect.spec_writable(),
        ensures
            dict_pair_appended(old(self).dict, r.dict, "TrimBox".spec_bytes(), rect),
            *final(r.dict.buf) == *final(old(self).dict.buf),
            *final(self) == *final(r),
    {
        self.dict.pair(Name("TrimBox".as_bytes()), rect);
        self
    }

    /// Write the `/ArtBox` attribute. This is the area that another program
    /// importing this file should use. PDF 1.3+.
    pub fn art_box(&mut self, rect: Rect) -> (r: &mut Self)
        requires
            0 <= old(self).dict.len < i32::MAX,
            rect.spec_writable(),
        ensures
            dict_pair_appended(old(self).dict, r.dict, "ArtBox".spec_bytes(), rect),
            *final(r.dict.buf) == *final(old(self).dict.buf),
            *final(self) == *final(r),
    {
        self.dict.pair(Name("ArtBox".as_bytes()), rect);
        self
    }

    /// Write the `/Dur` attribute. This is the amount of seconds the page
    /// should be displayed before advancing to the next one. PDF 1.1+.
    pub fn duration(&mut self, seconds: Real) -> (r: &mut Self)
        requires
            0 <= old(self).dict.len < i32::MAX,
            seconds.spec_writable(),
        ensures
            dict_pair_appended(old(self).dict, r.dict, "Dur".spec_bytes(), seconds),
            *final(r.dict.buf) == *final(old(self).dict.buf),
            *final(self) == *final(r),
    {
        self.dict.pair(Name("Dur".as_bytes()), seconds);
        self
    }

    /// Write the `/UserUnit` attribute. This sets how large a user space unit
    /// is in printer's points (1/72 inch). This defaults to `1.0`. PDF 1.6+.
    pub fn user_unit(&mut self, value: Real) -> (r: &mut Self)
        requires
            0 <= old(self).dict.len < i32::MAX,
            value.spec_writable(),
        ensures
            dict_pair_appended(old(self).dict, r.dict, "UserUnit".spec_bytes(), value),
            *final(r.dict.buf) == *final(old(self).dict.buf),
            *final(self) == *final(r),
    {
        self.dict.pair(Name("UserUnit".as_bytes()), value);
        self
    }
}

/// Attributes with real-number values.
impl OutlineItem<'_> {
    /// Write the `/C` attribute using an RGB color. This sets the color in
    /// which the outline item's title should be rendered. PDF 1.4+.
    pub fn color_rgb(&mut self, r: Real, g: Real, b: Real) -> (this: &mut Self)
        requires
            0 <= old(self).dict.len < i32::MAX,
            r.spec_writable(),
            g.spec_writable(),
            b.spec_writable(),
        ensures
            dict_items_appended(old(self).dict, this.dict, "C".spec_bytes(), seq![r, g, b]),
            *final(this.dict.buf) == *final(old(self).dict.buf),
            *final(self) == *final(this),
    {
        let values = [r, g, b];
        assert(values@ =~= seq![r, g, b]);
        write_items_entry(&mut self.dict, Name("C".as_bytes()), values.as_slice());
        self
    }
}

// ---------------------------------------------------------------------------
// Writers.
// ---------------------------------------------------------------------------

/// Writer for a _document catalog dictionary_.
///
/// This struct is created by [`Pdf::catalog`].
pub struct Catalog<'a> {
    /// The underlying dictionary.
    pub dict: Dict<'a>,
}

impl<'a> Catalog<'a> {
    /// Start writing the dictionary on an object.
    pub(crate) fn start(obj: Obj<'a>) -> (r: Self)
        ensures
            dict_started(
                r.dict,
                old(obj.buf)@,
                obj.indirect,
                obj.indent,
                obj.settings,
                Some("Catalog".spec_bytes()),
                None,
            ),
            r.dict.buf.spec_limits() == dict_start_limits(old(obj.buf).spec_limits(), Some("Catalog".spec_bytes()), None),
            *final(r.dict.buf) == *final(obj.buf),
    {
        Self { dict: start_dict(obj, Some("Catalog"), None) }
    }

    /// Write the `/Pages` attribute pointing to the root page tree.
    pub fn pages(&mut self, id: Ref) -> (r: &mut Self)
        requires
            0 <= old(self).dict.len < i32::MAX,
        ensures
            dict_pair_appended(old(self).dict, r.dict, "Pages".spec_bytes(), id),
            *final(r.dict.buf) == *final(old(self).dict.buf),
            *final(self) == *final(r),
    {
        self.dict.pair(Name("Pages".as_bytes()), id);
        self
    }

    /// Write the `/PageLayout` attribute to determine how the viewer will
    /// display the document's pages.
    pub fn page_layout(&mut self, layout: PageLayout) -> (r: &mut Self)
        requires
            0 <= old(self).dict.len < i32::MAX,
        ensures
            dict_name_pair_appended(old(self).dict, r.dict, "PageLayout".spec_bytes(), layout.spec_name()),
            *final(r.dict.buf) == *final(old(self).dict.buf),
            *final(self) == *final(r),
    {
        self.dict.pair(Name("PageLayout".as_bytes()), layout.to_name());
        self
    }

    /// Start writing the `/PageLabels` number tree. PDF 1.3+.
    pub fn page_labels(&mut self) -> (r: NumberTree<'_, Ref>)
        requires
            0 <= old(self).dict.len < i32::MAX,
        ensures
            dict_started(
                r.dict,
                old(self).dict.buf@ + dict_key_bytes(
                    old(self).dict.settings.pretty,
                    old(self).dict.indent as int,
                    "PageLabels".spec_bytes(),
                ),
                false,
                old(self).dict.indent,
                old(self).dict.settings,
                None,
                None,
            ),
            r.dict.buf.spec_limits() == old(self).dict.buf.spec_limits().with_name_len("PageLabels".spec_bytes().len() as int),
            final(self).dict.len == old(self).dict.len + 1,
            final(self).dict.indirect == old(self).dict.indirect,
            final(self).dict.indent == old(self).dict.indent,
            final(self).dict.settings == old(self).dict.settings,
            *final(self).dict.buf == *final(r.dict.buf),
            *final(final(self).dict.buf) == *final(old(self).dict.buf),
    {
        NumberTree::start(self.dict.insert(Name("PageLabels".as_bytes())))
    }

    /// Write the `/PageMode` attribute to set which chrome elements the viewer
    /// should show.
    pub fn page_mode(&mut self, mode: PageMode) -> (r: &mut Self)
        requires
            0 <= old(self).dict.len < i32::MAX,
        ensures
            dict_name_pair_appended(old(self).dict, r.dict, "PageMode".spec_bytes(), mode.spec_name()),
            *final(r.dict.buf) == *final(old(self).dict.buf),
            *final(self) == *final(r),
    {
        self.dict.pair(Name("PageMode".as_bytes()), mode.to_name());
        self
    }

    /// Start writing the `/ViewerPreferences` dictionary. PDF 1.2+.
    pub fn viewer_preferences(&mut self) -> (r: ViewerPreferences<'_>)
        requires
            0 <= old(self).dict.len < i32::MAX,
        ensures
            dict_started(
                r.dict,
                old(self).dict.buf@ + dict_key_bytes(
                    old(self).dict.settings.pretty,
                    old(self).dict.indent as int,
                    "ViewerPreferences".spec_bytes(),
                ),
                false,
                old(self).dict.indent,
                old(self).dict.settings,
                None,
                None,
            ),
            r.dict.buf.spec_limits() == dict_start_limits(
                old(self).dict.buf.spec_limits().with_name_len("ViewerPreferences".spec_bytes().len() as int),
                None,
                None,
            ),
            final(self).dict.len == old(self).dict.len + 1,
            final(self).dict.indirect == old(self).dict.indirect,
            final(self).dict.indent == old(self).dict.indent,
            final(self).dict.settings == old(self).dict.settings,
            *final(self).dict.buf == *final(r.dict.buf),
            *final(final(self).dict.buf) == *final(old(self).dict.buf),
    {
        ViewerPreferences::start(self.dict.insert(Name("ViewerPreferences".as_bytes())))
    }

    /// Start writing the `/Names` dictionary. PDF 1.2+.
    pub fn names(&mut self) -> (r: Names<'_>)
        requires
            0 <= old(self).dict.len < i32::MAX,
        ensures
            dict_started(
                r.dict,
                old(self).dict.buf@ + dict_key_bytes(
                    old(self).dict.settings.pretty,
                    old(self).dict.indent as int,
                    "Names".spec_bytes(),
                ),
                false,
                old(self).dict.indent,
                old(self).dict.settings,
                None,
                None,
            ),
            r.dict.buf.spec_limits() == dict_start_limits(
                old(self).dict.buf.spec_limits().with_name_len("Names".spec_bytes().len() as int),
                None,
                None,
            ),
            final(self).dict.len == old(self).dict.len + 1,
            final(self).dict.indirect == old(self).dict.indirect,
            final(self).dict.indent == old(self).dict.indent,
            final(self).dict.settings == old(self).dict.settings,
            *final(self).dict.buf == *final(r.dict.buf),
            *final(final(self).dict.buf) == *final(old(self).dict.buf),
    {
        Names::start(self.dict.insert(Name("Names".as_bytes())))
    }

    /// Write the `/Dests` attribute pointing to a
    /// [named destinations dictionary](Chunk::destinations). PDF 1.1+.
    pub fn destinations(&mut self, id: Ref) -> (r: &mut Self)
        requires
            0 <= old(self).dict.len < i32::MAX,
        ensures
            dict_pair_appended(old(self).dict, r.dict, "Dests".spec_bytes(), id),
            *final(r.dict.buf) == *final(old(self).dict.buf),
            *final(self) == *final(r),
    {
        self.dict.pair(Name("Dests".as_bytes()), id);
        self
    }

    /// Write the `/Outlines` attribute pointing to the root
    /// [outline dictionary](Outline).
    pub fn outlines(&mut self, id: Ref) -> (r: &mut Self)
        requires
            0 <= old(self).dict.len < i32::MAX,
        ensures
            dict_pair_appended(old(self).dict, r.dict, "Outlines".spec_bytes(), id),
            *final(r.dict.buf) == *final(old(self).dict.buf),
            *final(self) == *final(r),
    {
        self.dict.pair(Name("Outlines".as_bytes()), id);
        self
    }

    /// Start writing the `/StructTreeRoot` attribute to specify the root of the
    /// document's structure tree. PDF 1.3+.
    ///
    /// Must be present in some PDF/A profiles like PDF/A-2a.
    pub fn struct_tree_root(&mut self) -> (r: StructTreeRoot<'_>)
        requires
            0 <= old(self).dict.len < i32::MAX,
        ensures
            dict_started(
                r.dict,
                old(self).dict.buf@ + dict_key_bytes(
                    old(self).dict.settings.pretty,
                    old(self).dict.indent as int,
                    "StructTreeRoot".spec_bytes(),
                ),
                false,
                old(self).dict.indent,
                old(self).dict.settings,
                Some("StructTreeRoot".spec_bytes()),
                None,
            ),
            r.dict.buf.spec_limits() == dict_start_limits(
                old(self).dict.buf.spec_limits().with_name_len("StructTreeRoot".spec_bytes().len() as int),
                Some("StructTreeRoot".spec_bytes()),
                None,
            ),
            final(self).dict.len == old(self).dict.len + 1,
            final(self).dict.indirect == old(self).dict.indirect,
            final(self).dict.indent == old(self).dict.indent,
            final(self).dict.settings == old(self).dict.settings,
            *final(self).dict.buf == *final(r.dict.buf),
            *final(final(self).dict.buf) == *final(old(self).dict.buf),
    {
        StructTreeRoot::start(self.dict.insert(Name("StructTreeRoot".as_bytes())))
    }

    /// Start writing the `/MarkInfo` dictionary to specify this document's
    /// conformance with the tagged PDF specification. PDF 1.4+.
    ///
    /// Must be present in some PDF/A profiles like PDF/A-2a.
    pub fn mark_info(&mut self) -> (r: MarkInfo<'_>)
        requires
            0 <= old(self).dict.len < i32::MAX,
        ensures
            dict_started(
                r.dict,
                old(self).dict.buf@ + dict_key_bytes(
                    old(self).dict.settings.pretty,
                    old(self).dict.indent as int,
                    "MarkInfo".spec_bytes(),
                ),
                false,
                old(self).dict.indent,
                old(self).dict.settings,
                None,
                None,
            ),
            r.dict.buf.spec_limits() == dict_start_limits(
                old(self).dict.buf.spec_limits().with_name_len("MarkInfo".spec_bytes().len() as int),
                None,
                None,
            ),
            final(self).dict.len == old(self).dict.len + 1,
            final(self).dict.indirect == old(self).dict.indirect,
            final(self).dict.indent == old(self).dict.indent,
            final(self).dict.settings == old(self).dict.settings,
            *final(self).dict.buf == *final(r.dict.buf),
            *final(final(self).dict.buf) == *final(old(self).dict.buf),
    {
        MarkInfo::start(self.dict.insert(Name("MarkInfo".as_bytes())))
    }

    /// Write the `/Lang` attribute to specify the language of the document as a
    /// RFC 3066 language tag. PDF 1.4+.
    ///
    /// Required in some PDF/A profiles like PDF/A-2a.
    pub fn lang(&mut self, lang: TextStr) -> (r: &mut Self)
        requires
            0 <= old(self).dict.len < i32::MAX,
        ensures
            dict_pair_appended(old(self).dict, r.dict, "Lang".spec_bytes(), lang),
            *final(r.dict.buf) == *final(old(self).dict.buf),
            *final(self) == *final(r),
    {
        self.dict.pair(Name("Lang".as_bytes()), lang);
        self
    }

    /// Start writing the `/AA` dictionary. This sets the additional actions for
    /// the whole document. PDF 1.4+.
    ///
    /// Note that this attribute is forbidden in PDF/A.
    pub fn additional_actions(&mut self) -> (r: AdditionalActions<'_>)
        requires
            0 <= old(self).dict.len < i32::MAX,
        ensures
            dict_started(
                r.dict,
                old(self).dict.buf@ + dict_key_bytes(
                    old(self).dict.settings.pretty,
                    old(self).dict.indent as int,
                    "AA".spec_bytes(),
                ),
                false,
                old(self).dict.indent,
                old(self).dict.settings,
                None,
                None,
            ),
            r.dict.buf.spec_limits() == dict_start_limits(
                old(self).dict.buf.spec_limits().with_name_len("AA".spec_bytes().len() as int),
                None,
                None,
            ),
            final(self).dict.len == old(self).dict.len + 1,
            final(self).dict.indirect == old(self).dict.indirect,
            final(self).dict.indent == old(self).dict.indent,
            final(self).dict.settings == old(self).dict.settings,
            *final(self).dict.buf == *final(r.dict.buf),
            *final(final(self).dict.buf) == *final(old(self).dict.buf),
    {
        AdditionalActions::start(self.dict.insert(Name("AA".as_bytes())))
    }

    /// Start writing the `/AcroForm` dictionary to specify the document wide
    /// form. PDF 1.2+.
    pub fn form(&mut self) -> (r: Form<'_>)
        requires
            0 <= old(self).dict.len < i32::MAX,
        ensures
            dict_started(
                r.dict,
                old(self).dict.buf@ + dict_key_bytes(
                    old(self).dict.settings.pretty,
                    old(self).dict.indent as int,
                    "AcroForm".spec_bytes(),
                ),
                false,
                old(self).dict.indent,
                old(self).dict.settings,
                None,
                None,
            ),
            r.dict.buf.spec_limits() == dict_start_limits(
                old(self).dict.buf.spec_limits().with_name_len("AcroForm".spec_bytes().len() as int),
                None,
                None,
            ),
            final(self).dict.len == old(self).dict.len + 1,
            final(self).dict.indirect == old(self).dict.indirect,
            final(self).dict.indent == old(self).dict.indent,
            final(self).dict.settings == old(self).dict.settings,
            *final(self).dict.buf == *final(r.dict.buf),
            *final(final(self).dict.buf) == *final(old(self).dict.buf),
    {
        Form::start(self.dict.insert(Name("AcroForm".as_bytes())))
    }

    /// Write the `/Metadata` attribute to specify the document's metadata. PDF
    /// 1.4+.
    ///
    /// The reference shall point to a [metadata stream](Metadata).
    pub fn metadata(&mut self, id: Ref) -> (r: &mut Self)
        requires
            0 <= old(self).dict.len < i32::MAX,
        ensures
            dict_pair_appended(old(self).dict, r.dict, "Metadata".spec_bytes(), id),
            *final(r.dict.buf) == *final(old(self).dict.buf),
            *final(self) == *final(r),
    {
        self.dict.pair(Name("Metadata".as_bytes()), id);
        self
    }

    /// Start writing the `/SeparationInfo` dictionary to specify which
    /// separation colors are in use on the page and how it relates to other
    /// pages in the document. PDF 1.3+.
    pub fn separation_info(&mut self) -> (r: SeparationInfo<'_>)
        requires
            0 <= old(self).dict.len < i32::MAX,
        ensures
            dict_started(
                r.dict,
                old(self).dict.buf@ + dict_key_bytes(
                    old(self).dict.settings.pretty,
                    old(self).dict.indent as int,
                    "SeparationInfo".spec_bytes(),
                ),
                false,
                old(self).dict.indent,
                old(self).dict.settings,
                None,
                None,
            ),
            r.dict.buf.spec_limits() == dict_start_limits(
                old(self).dict.buf.spec_limits().with_name_len("SeparationInfo".spec_bytes().len() as int),
                None,
                None,
            ),
            final(self).dict.len == old(self).dict.len + 1,
            final(self).dict.indirect == old(self).dict.indirect,
            final(self).dict.indent == old(self).dict.indent,
            final(self).dict.settings == old(self).dict.settings,
            *final(self).dict.buf == *final(r.dict.buf),
            *final(final(self).dict.buf) == *final(old(self).dict.buf),
    {
        SeparationInfo::start(self.dict.insert(Name("SeparationInfo".as_bytes())))
    }

    /// Finish writing the dictionary.
    pub fn finish(self)
        requires
            self.dict.len >= 0,
            self.dict.indent >= 2,
        ensures
            final(self.dict.buf)@ == old(self.dict.buf)@ + dict_close_bytes(
                self.dict.len as int,
                self.dict.settings.pretty,
                self.dict.indent as int,
                self.dict.indirect,
            ),
            final(self.dict.buf).spec_limits() == old(self.dict.buf).spec_limits().with_dict_entries(self.dict.len as int),
    {
        self.dict.finish();
    }
}

/// Writer for a _developer extension dictionary_. PDF 1.7+.
///
/// An array of this struct is created by [`Catalog::extensions`].
pub struct DeveloperExtension<'a> {
    /// The underlying dictionary.
    pub dict: Dict<'a>,
}

impl<'a> DeveloperExtension<'a> {
    /// Start writing the dictionary on an object.
    pub(crate) fn start(obj: Obj<'a>) -> (r: Self)
        ensures
            dict_started(
                r.dict,
                old(obj.buf)@,
                obj.indirect,
                obj.indent,
                obj.settings,
                Some("DeveloperExtensions".spec_bytes()),
                None,
            ),
            r.dict.buf.spec_limits() == dict_start_limits(old(obj.buf).spec_limits(), Some("DeveloperExtensions".spec_bytes()), None),
            *final(r.dict.buf) == *final(obj.buf),
    {
        Self { dict: start_dict(obj, Some("DeveloperExtensions"), None) }
    }

    /// Write the `/ExtensionLevel` attribute to specify the version of the
    /// extension. Required.
    pub fn extension_level(&mut self, level: i32) -> (r: &mut Self)
        requires
            0 <= old(self).dict.len < i32::MAX,
            level != i32::MIN,
        ensures
            dict_pair_appended(old(self).dict, r.dict, "ExtensionLevel".spec_bytes(), level),
            *final(r.dict.buf) == *final(old(self).dict.buf),
            *final(self) == *final(r),
    {
        self.dict.pair(Name("ExtensionLevel".as_bytes()), level);
        self
    }

    /// Finish writing the dictionary.
    pub fn finish(self)
        requires
            self.dict.len >= 0,
            self.dict.indent >= 2,
        ensures
            final(self.dict.buf)@ == old(self.dict.buf)@ + dict_close_bytes(
                self.dict.len as int,
                self.dict.settings.pretty,
                self.dict.indent as int,
                self.dict.indirect,
            ),
            final(self.dict.buf).spec_limits() == old(self.dict.buf).spec_limits().with_dict_entries(self.dict.len as int),
    {
        self.dict.finish();
    }
}

/// Writer for a _viewer preference dictionary_.
///
/// This struct is created by [`Catalog::viewer_preferences`].
pub struct ViewerPreferences<'a> {
    /// The underlying dictionary.
    pub dict: Dict<'a>,
}

impl<'a> ViewerPreferences<'a> {
    /// Start writing the dictionary on an object.
    pub(crate) fn start(obj: Obj<'a>) -> (r: Self)
        ensures
            dict_started(
                r.dict,
                old(obj.buf)@,
                obj.indirect,
                obj.indent,
                obj.settings,
                None,
                None,
            ),
            r.dict.buf.spec_limits() == dict_start_limits(old(obj.buf).spec_limits(), None, None),
            *final(r.dict.buf) == *final(obj.buf),
    {
        Self { dict: start_dict(obj, None, None) }
    }

    /// Write the `/HideToolbar` attribute to set whether the viewer should hide
    /// its toolbars while the document is open.
    pub fn hide_toolbar(&mut self, hide: bool) -> (r: &mut Self)
        requires
            0 <= old(self).dict.len < i32::MAX,
        ensures
            dict_pair_appended(old(self).dict, r.dict, "HideToolbar".spec_bytes(), hide),
            *final(r.dict.buf) == *final(old(self).dict.buf),
            *final(self) == *final(r),
    {
        self.dict.pair(Name("HideToolbar".as_bytes()), hide);
        self
    }

    /// Write the `/HideMenubar` attribute to set whether the viewer should hide
    /// its menu bar while the document is open.
    pub fn hide_menubar(&mut self, hide: bool) -> (r: &mut Self)
        requires
            0 <= old(self).dict.len < i32::MAX,
        ensures
            dict_pair_appended(old(self).dict, r.dict, "HideMenubar".spec_bytes(), hide),
            *final(r.dict.buf) == *final(old(self).dict.buf),
            *final(self) == *final(r),
    {
        self.dict.pair(Name("HideMenubar".as_bytes()), hide);
        self
    }

    /// Write the `/FitWindow` attribute to set whether the viewer should resize
    /// its window to the size of the first page.
    pub fn fit_window(&mut self, fit: bool) -> (r: &mut Self)
        requires
            0 <= old(self).dict.len < i32::MAX,
        ensures
            dict_pair_appended(old(self).dict, r.dict, "FitWindow".spec_bytes(), fit),
            *final(r.dict.buf) == *final(old(self).dict.buf),
            *final(self) == *final(r),
    {
        self.dict.pair(Name("FitWindow".as_bytes()), fit);
        self
    }

    /// Write the `/CenterWindow` attribute to set whether the viewer should
    /// center its window on the screen.
    pub fn center_window(&mut self, center: bool) -> (r: &mut Self)
        requires
            0 <= old(self).dict.len < i32::MAX,
        ensures
            dict_pair_appended(old(self).dict, r.dict, "CenterWindow".spec_bytes(), center),
            *final(r.dict.buf) == *final(old(self).dict.buf),
            *final(self) == *final(r),
    {
        self.dict.pair(Name("CenterWindow".as_bytes()), center);
        self
    }

    /// Write the `/DisplayDocTitle` attribute to set whether the viewer should
    /// display the document's title from the `Title` entry as the window's title.
    /// PDF 1.4+
    pub fn display_doc_title(&mut self, display: bool) -> (r: &mut Self)
        requires
            0 <= old(self).dict.len < i32::MAX,
        ensures
            dict_pair_appended(old(self).dict, r.dict, "DisplayDocTitle".spec_bytes(), display),
            *final(r.dict.buf) == *final(old(self).dict.buf),
            *final(self) == *final(r),
    {
        self.dict.pair(Name("DisplayDocTitle".as_bytes()), display);
        self
    }

    /// Write the `/NonFullScreenPageMode` attribute to set which chrome
    /// elements the viewer should show for a document which requests full
    /// screen rendering in its catalog when it is not shown in full screen
    /// mode.
    ///
    /// Panics if `mode` is [`PageMode::FullScreen`].
    pub fn non_full_screen_page_mode(&mut self, mode: PageMode) -> (r: &mut Self)
        requires
            0 <= old(self).dict.len < i32::MAX,
            !(mode is FullScreen),
        ensures
            dict_name_pair_appended(old(self).dict, r.dict, "NonFullScreenPageMode".spec_bytes(), mode.spec_name()),
            *final(r.dict.buf) == *final(old(self).dict.buf),
            *final(self) == *final(r),
    {
        self.dict.pair(Name("NonFullScreenPageMode".as_bytes()), mode.to_name());
        self
    }

    /// Write the `/Direction` attribute to aid the viewer in how to lay out the
    /// pages visually. PDF 1.3+.
    pub fn direction(&mut self, dir: Direction) -> (r: &mut Self)
        requires
            0 <= old(self).dict.len < i32::MAX,
        ensures
            dict_name_pair_appended(old(self).dict, r.dict, "Direction".spec_bytes(), dir.spec_name()),
            *final(r.dict.buf) == *final(old(self).dict.buf),
            *final(self) == *final(r),
    {
        self.dict.pair(Name("Direction".as_bytes()), dir.to_name());
        self
    }

    /// Finish writing the dictionary.
    pub fn finish(self)
        requires
            self.dict.len >= 0,
            self.dict.indent >= 2,
        ensures
            final(self.dict.buf)@ == old(self.dict.buf)@ + dict_close_bytes(
                self.dict.len as int,
                self.dict.settings.pretty,
                self.dict.indent as int,
                self.dict.indirect,
            ),
            final(self.dict.buf).spec_limits() == old(self.dict.buf).spec_limits().with_dict_entries(self.dict.len as int),
    {
        self.dict.finish();
    }
}

/// Writer for a _structure tree root dictionary_. PDF 1.3+
///
/// This struct is created by [`Catalog::struct_tree_root`].
pub struct StructTreeRoot<'a> {
    /// The underlying dictionary.
    pub dict: Dict<'a>,
}

impl<'a> StructTreeRoot<'a> {
    /// Start writing the dictionary on an object.
    pub(crate) fn start(obj: Obj<'a>) -> (r: Self)
        ensures
            dict_started(
                r.dict,
                old(obj.buf)@,
                obj.indirect,
                obj.indent,
                obj.settings,
                Some("StructTreeRoot".spec_bytes()),
                None,
            ),
            r.dict.buf.spec_limits() == dict_start_limits(old(obj.buf).spec_limits(), Some("StructTreeRoot".spec_bytes()), None),
            *final(r.dict.buf) == *final(obj.buf),
    {
        Self { dict: start_dict(obj, Some("StructTreeRoot"), None) }
    }

    /// Write the `/K` attribute to reference the immediate child of this
    /// element.
    pub fn child(&mut self, id: Ref) -> (r: &mut Self)
        requires
            0 <= old(self).dict.len < i32::MAX,
        ensures
            dict_pair_appended(old(self).dict, r.dict, "K".spec_bytes(), id),
            *final(r.dict.buf) == *final(old(self).dict.buf),
            *final(self) == *final(r),
    {
        self.dict.pair(Name("K".as_bytes()), id);
        self
    }

    /// Start writing the `/K` attribute to reference the immediate children of
    /// this element.
    pub fn children(&mut self) -> (r: TypedArray<'_, Ref>)
        requires
            0 <= old(self).dict.len < i32::MAX,
        ensures
            r.array.buf@ == old(self).dict.buf@ + dict_key_bytes(
                old(self).dict.settings.pretty,
                old(self).dict.indent as int,
                "K".spec_bytes(),
            ) + seq![LBRACKET],
            r.array.len == 0,
            r.array.indirect == false,
            r.array.indent == old(self).dict.indent,
            r.array.settings == old(self).dict.settings,
            final(self).dict.len == old(self).dict.len + 1,
            final(self).dict.indirect == old(self).dict.indirect,
            final(self).dict.indent == old(self).dict.indent,
            final(self).dict.settings == old(self).dict.settings,
            *final(self).dict.buf == *final(r.array.buf),
            *final(final(self).dict.buf) == *final(old(self).dict.buf),
            r.array.buf.spec_limits() == old(self).dict.buf.spec_limits().with_name_len("K".spec_bytes().len() as int),
    {
        self.dict.insert(Name("K".as_bytes())).array().typed()
    }

    /// Start writing the `/IDTree` attribute to map element identifiers to
    /// their corresponding structure element objects. Required if any elements
    /// have element identifiers.
    pub fn id_tree(&mut self) -> (r: NameTree<'_, Ref>)
        requires
            0 <= old(self).dict.len < i32::MAX,
        ensures
            dict_started(
                r.dict,
                old(self).dict.buf@ + dict_key_bytes(
                    old(self).dict.settings.pretty,
                    old(self).dict.indent as int,
                    "IDTree".spec_bytes(),
                ),
                false,
                old(self).dict.indent,
                old(self).dict.settings,
                None,
                None,
            ),
            r.dict.buf.spec_limits() == old(self).dict.buf.spec_limits().with_name_len("IDTree".spec_bytes().len() as int),
            final(self).dict.len == old(self).dict.len + 1,
            final(self).dict.indirect == old(self).dict.indirect,
            final(self).dict.indent == old(self).dict.indent,
            final(self).dict.settings == old(self).dict.settings,
            *final(self).dict.buf == *final(r.dict.buf),
            *final(final(self).dict.buf) == *final(old(self).dict.buf),
    {
        NameTree::start(self.dict.insert(Name("IDTree".as_bytes())))
    }

    /// Start writing the `/ParentTree` attribute to maps structure elements to
    /// the content items they belong to. Required if any structure elements
    /// contain content items.
    pub fn parent_tree(&mut self) -> (r: NumberTree<'_, Ref>)
        requires
            0 <= old(self).dict.len < i32::MAX,
        ensures
            dict_started(
                r.dict,
                old(self).dict.buf@ + dict_key_bytes(
                    old(self).dict.settings.pretty,
                    old(self).dict.indent as int,
                    "ParentTree".spec_bytes(),
                ),
                false,
                old(self).dict.indent,
                old(self).dict.settings,
                None,
                None,
            ),
            r.dict.buf.spec_limits() == old(self).dict.buf.spec_limits().with_name_len("ParentTree".spec_bytes().len() as int),
            final(self).dict.len == old(self).dict.len + 1,
            final(self).dict.indirect == old(self).dict.indirect,
            final(self).dict.indent == old(self).dict.indent,
            final(self).dict.settings == old(self).dict.settings,
            *final(self).dict.buf == *final(r.dict.buf),
            *final(final(self).dict.buf) == *final(old(self).dict.buf),
    {
        NumberTree::start(self.dict.insert(Name("ParentTree".as_bytes())))
    }

    /// Write the `/ParentTreeNextKey` attribute to specify the next available key
    /// for the `/ParentTree` dictionary.
    pub fn parent_tree_next_key(&mut self, key: i32) -> (r: &mut Self)
        requires
            0 <= old(self).dict.len < i32::MAX,
            key != i32::MIN,
        ensures
            dict_pair_appended(old(self).dict, r.dict, "ParentTreeNextKey".spec_bytes(), key),
            *final(r.dict.buf) == *final(old(self).dict.buf),
            *final(self) == *final(r),
    {
        self.dict.pair(Name("ParentTreeNextKey".as_bytes()), key);
        self
    }

    /// Start writing the `/ClassMap` attribute to map objects designating
    /// attribute classes to their corresponding attribute objects or arrays
    /// thereof.
    pub fn class_map(&mut self) -> (r: ClassMap<'_>)
        requires
            0 <= old(self).dict.len < i32::MAX,
        ensures
            dict_started(
                r.dict,
                old(self).dict.buf@ + dict_key_bytes(
                    old(self).dict.settings.pretty,
                    old(self).dict.indent as int,
                    "ClassMap".spec_bytes(),
                ),
                false,
                old(self).dict.indent,
                old(self).dict.settings,
                None,
                None,
            ),
            r.dict.buf.spec_limits() == dict_start_limits(
                old(self).dict.buf.spec_limits().with_name_len("ClassMap".spec_bytes().len() as int),
                None,
                None,
            ),
            final(self).dict.len == old(self).dict.len + 1,
            final(self).dict.indirect == old(self).dict.indirect,
            final(self).dict.indent == old(self).dict.indent,
            final(self).dict.settings == old(self).dict.settings,
            *final(self).dict.buf == *final(r.dict.buf),
            *final(final(self).dict.buf) == *final(old(self).dict.buf),
    {
        ClassMap::start(self.dict.insert(Name("ClassMap".as_bytes())))
    }

    /// Start writing the `/Namespaces` attribute to specify the namespaces
    /// occurring in the document. Required if namespaced structure types or
    /// attributes, including the standard namespace for PDF 2.0, are used.
    /// Create these dictionaries with [`Chunk::namespace`] PDF 2.0+.
    pub fn namespaces(&mut self) -> (r: TypedArray<'_, Ref>)
        requires
            0 <= old(self).dict.len < i32::MAX,
        ensures
            r.array.buf@ == old(self).dict.buf@ + dict_key_bytes(
                old(self).dict.settings.pretty,
                old(self).dict.indent as int,
                "Namespaces".spec_bytes(),
            ) + seq![LBRACKET],
            r.array.len == 0,
            r.array.indirect == false,
            r.array.indent == old(self).dict.indent,
            r.array.settings == old(self).dict.settings,
            final(self).dict.len == old(self).dict.len + 1,
            final(self).dict.indirect == old(self).dict.indirect,
            final(self).dict.indent == old(self).dict.indent,
            final(self).dict.settings == old(self).dict.settings,
            *final(self).dict.buf == *final(r.array.buf),
            *final(final(self).dict.buf) == *final(old(self).dict.buf),
            r.array.buf.spec_limits() == old(self).dict.buf.spec_limits().with_name_len("Namespaces".spec_bytes().len() as int),
    {
        self.dict.insert(Name("Namespaces".as_bytes())).array().typed()
    }

    /// Start writing the `PronunciationLexicon` attribute to specify one or
    /// multiple pronunciation lexicons for the document. PDF 2.0+.
    ///
    /// The lexicons shall be XML files conforming to the Pronunciation Lexicon
    /// Specification (PLS) Version 1.0. Each entry in the array is an indirect
    /// reference to a [`FileSpec`] dictionary for a lexicon file.
    pub fn pronunciation_lexicon(&mut self) -> (r: TypedArray<'_, Ref>)
        requires
            0 <= old(self).dict.len < i32::MAX,
        ensures
            r.array.buf@ == old(self).dict.buf@ + dict_key_bytes(
                old(self).dict.settings.pretty,
                old(self).dict.indent as int,
                "PronunciationLexicon".spec_bytes(),
            ) + seq![LBRACKET],
            r.array.len == 0,
            r.array.indirect == false,
            r.array.indent == old(self).dict.indent,
            r.array.settings == old(self).dict.settings,
            final(self).dict.len == old(self).dict.len + 1,
            final(self).dict.indirect == old(self).dict.indirect,
            final(self).dict.indent == old(self).dict.indent,
            final(self).dict.settings == old(self).dict.settings,
            *final(self).dict.buf == *final(r.array.buf),
            *final(final(self).dict.buf) == *final(old(self).dict.buf),
            r.array.buf.spec_limits() == old(self).dict.buf.spec_limits().with_name_len("PronunciationLexicon".spec_bytes().len() as int),
    {
        self.dict.insert(Name("PronunciationLexicon".as_bytes())).array().typed()
    }

    /// Finish writing the dictionary.
    pub fn finish(self)
        requires
            self.dict.len >= 0,
            self.dict.indent >= 2,
        ensures
            final(self.dict.buf)@ == old(self.dict.buf)@ + dict_close_bytes(
                self.dict.len as int,
                self.dict.settings.pretty,
                self.dict.indent as int,
                self.dict.indirect,
            ),
            final(self.dict.buf).spec_limits() == old(self.dict.buf).spec_limits().with_dict_entries(self.dict.len as int),
    {
        self.dict.finish();
    }
}

/// Writer for a _structure element dictionary_. PDF 1.3+
pub struct StructElement<'a> {
    /// The underlying dictionary.
    pub dict: Dict<'a>,
}

impl<'a> StructElement<'a> {
    /// Start writing the dictionary on an object.
    pub(crate) fn start(obj: Obj<'a>) -> (r: Self)
        ensures
            dict_started(
                r.dict,
                old(obj.buf)@,
                obj.indirect,
                obj.indent,
                obj.settings,
                Some("StructElem".spec_bytes()),
                None,
            ),
            r.dict.buf.spec_limits() == dict_start_limits(old(obj.buf).spec_limits(), Some("StructElem".spec_bytes()), None),
            *final(r.dict.buf) == *final(obj.buf),
    {
        Self { dict: start_dict(obj, Some("StructElem"), None) }
    }

    /// Write the `/S` attribute to specify the role of this structure element
    /// using elements from PDF 1.7 and below. Required if neither a PDF 2.0
    /// structure type is defined using [`Self::kind_2`] nor a custom type is
    /// specified using [`Self::custom_kind`].
    pub fn kind(&mut self, role: StructRole) -> (r: &mut Self)
        requires
            0 <= old(self).dict.len < i32::MAX,
        ensures
            dict_name_pair_appended(old(self).dict, r.dict, "S".spec_bytes(), role.spec_name()),
            *final(r.dict.buf) == *final(old(self).dict.buf),
            *final(self) == *final(r),
    {
        self.dict.pair(Name("S".as_bytes()), role.to_name());
        self
    }

    /// Write the `/S` attribute to specify the role of this structure element
    /// as a custom name. Required if no standard type is specified with
    /// [`Self::kind`].
    ///
    /// In some PDF/A profiles like PDF/A-2a, custom kinds must be mapped to
    /// their closest standard type in the role map.
    ///
    /// When using the namespaced model of PDF 2.0, using this may also require
    /// setting a namespace using [`Self::namespace`].
    pub fn custom_kind(&mut self, name: Name) -> (r: &mut Self)
        requires
            0 <= old(self).dict.len < i32::MAX,
        ensures
            dict_pair_appended(old(self).dict, r.dict, "S".spec_bytes(), name),
            *final(r.dict.buf) == *final(old(self).dict.buf),
            *final(self) == *final(r),
    {
        self.dict.pair(Name("S".as_bytes()), name);
        self
    }

    /// Write the `/P` attribute to specify the parent of this structure
    /// element. Required.
    pub fn parent(&mut self, parent: Ref) -> (r: &mut Self)
        requires
            0 <= old(self).dict.len < i32::MAX,
        ensures
            dict_pair_appended(old(self).dict, r.dict, "P".spec_bytes(), parent),
            *final(r.dict.buf) == *final(old(self).dict.buf),
            *final(self) == *final(r),
    {
        self.dict.pair(Name("P".as_bytes()), parent);
        self
    }

    /// Write the `/ID` attribute to specify the element identifier of this
    /// structure element.
    pub fn id(&mut self, id: Str) -> (r: &mut Self)
        requires
            0 <= old(self).dict.len < i32::MAX,
        ensures
            dict_pair_appended(old(self).dict, r.dict, "ID".spec_bytes(), id),
            *final(r.dict.buf) == *final(old(self).dict.buf),
            *final(self) == *final(r),
    {
        self.dict.pair(Name("ID".as_bytes()), id);
        self
    }

    /// Write the `/Pg` attribute to specify the page some or all of this
    /// structure element is located on.
    pub fn page(&mut self, page: Ref) -> (r: &mut Self)
        requires
            0 <= old(self).dict.len < i32::MAX,
        ensures
            dict_pair_appended(old(self).dict, r.dict, "Pg".spec_bytes(), page),
            *final(r.dict.buf) == *final(old(self).dict.buf),
            *final(self) == *final(r),
    {
        self.dict.pair(Name("Pg".as_bytes()), page);
        self
    }

    /// Write the `/K` attribute to reference the immediate child of this
    /// element.
    pub fn child(&mut self, id: Ref) -> (r: &mut Self)
        requires
            0 <= old(self).dict.len < i32::MAX,
        ensures
            dict_pair_appended(old(self).dict, r.dict, "K".spec_bytes(), id),
            *final(r.dict.buf) == *final(old(self).dict.buf),
            *final(self) == *final(r),
    {
        self.dict.pair(Name("K".as_bytes()), id);
        self
    }

    /// Start writing the `/K` attribute to reference the immediate marked
    /// content child of this element.
    pub fn marked_content_child(&mut self) -> (r: MarkedRef<'_>)
        requires
            0 <= old(self).dict.len < i32::MAX,
        ensures
            dict_started(
                r.dict,
                old(self).dict.buf@ + dict_key_bytes(
                    old(self).dict.settings.pretty,
                    old(self).dict.indent as int,
                    "K".spec_bytes(),
                ),
                false,
                old(self).dict.indent,
                old(self).dict.settings,
                Some("MCR".spec_bytes()),
                None,
            ),
            r.dict.buf.spec_limits() == dict_start_limits(
                old(self).dict.buf.spec_limits().with_name_len("K".spec_bytes().len() as int),
                Some("MCR".spec_bytes()),
                None,
            ),
            final(self).dict.len == old(self).dict.len + 1,
            final(self).dict.indirect == old(self).dict.indirect,
            final(self).dict.indent == old(self).dict.indent,
            final(self).dict.settings == old(self).dict.settings,
            *final(self).dict.buf == *final(r.dict.buf),
            *final(final(self).dict.buf) == *final(old(self).dict.buf),
    {
        MarkedRef::start(self.dict.insert(Name("K".as_bytes())))
    }

    /// Start writing the `/K` attribute to reference the immediate object child
    /// of this element.
    pub fn object_child(&mut self) -> (r: ObjectRef<'_>)
        requires
            0 <= old(self).dict.len < i32::MAX,
        ensures
            dict_started(
                r.dict,
                old(self).dict.buf@ + dict_key_bytes(
                    old(self).dict.settings.pretty,
                    old(self).dict.indent as int,
                    "K".spec_bytes(),
                ),
                false,
                old(self).dict.indent,
                old(self).dict.settings,
                Some("OBJR".spec_bytes()),
                None,
            ),
            r.dict.buf.spec_limits() == dict_start_limits(
                old(self).dict.buf.spec_limits().with_name_len("K".spec_bytes().len() as int),
                Some("OBJR".spec_bytes()),
                None,
            ),
            final(self).dict.len == old(self).dict.len + 1,
            final(self).dict.indirect == old(self).dict.indirect,
            final(self).dict.indent == old(self).dict.indent,
            final(self).dict.settings == old(self).dict.settings,
            *final(self).dict.buf == *final(r.dict.buf),
            *final(final(self).dict.buf) == *final(old(self).dict.buf),
    {
        ObjectRef::start(self.dict.insert(Name("K".as_bytes())))
    }

    /// Start writing the `/C` attribute to associate the structure element with
    /// an attribute class.
    pub fn attribute_class(&mut self) -> (r: TypedArray<'_, Name>)
        requires
            0 <= old(self).dict.len < i32::MAX,
        ensures
            r.array.buf@ == old(self).dict.buf@ + dict_key_bytes(
                old(self).dict.settings.pretty,
                old(self).dict.indent as int,
                "C".spec_bytes(),
            ) + seq![LBRACKET],
            r.array.len == 0,
            r.array.indirect == false,
            r.array.indent == old(self).dict.indent,
            r.array.settings == old(self).dict.settings,
            final(self).dict.len == old(self).dict.len + 1,
            final(self).dict.indirect == old(self).dict.indirect,
            final(self).dict.indent == old(self).dict.indent,
            final(self).dict.settings == old(self).dict.settings,
            *final(self).dict.buf == *final(r.array.buf),
            *final(final(self).dict.buf) == *final(old(self).dict.buf),
            r.array.buf.spec_limits() == old(self).dict.buf.spec_limits().with_name_len("C".spec_bytes().len() as int),
    {
        self.dict.insert(Name("C".as_bytes())).array().typed()
    }

    /// Write the `/R` attribute to specify the revision number, starting at 0.
    pub fn revision(&mut self, revision: i32) -> (r: &mut Self)
        requires
            0 <= old(self).dict.len < i32::MAX,
            revision != i32::MIN,
        ensures
            dict_pair_appended(old(self).dict, r.dict, "R".spec_bytes(), revision),
            *final(r.dict.buf) == *final(old(self).dict.buf),
            *final(self) == *final(r),
    {
        self.dict.pair(Name("R".as_bytes()), revision);
        self
    }

    /// Write the `/T` attribute to set a title.
    pub fn title(&mut self, title: TextStr) -> (r: &mut Self)
        requires
            0 <= old(self).dict.len < i32::MAX,
        ensures
            dict_pair_appended(old(self).dict, r.dict, "T".spec_bytes(), title),
            *final(r.dict.buf) == *final(old(self).dict.buf),
            *final(self) == *final(r),
    {
        self.dict.pair(Name("T".as_bytes()), title);
        self
    }

    /// Write the `/Lang` attribute to set a language. PDF 1.4+
    pub fn lang(&mut self, lang: TextStr) -> (r: &mut Self)
        requires
            0 <= old(self).dict.len < i32::MAX,
        ensures
            dict_pair_appended(old(self).dict, r.dict, "Lang".spec_bytes(), lang),
            *final(r.dict.buf) == *final(old(self).dict.buf),
            *final(self) == *final(r),
    {
        self.dict.pair(Name("Lang".as_bytes()), lang);
        self
    }

    /// Write the `/Alt` attribute to provide a description of the structure
    /// element.
    pub fn alt(&mut self, alt: TextStr) -> (r: &mut Self)
        requires
            0 <= old(self).dict.len < i32::MAX,
        ensures
            dict_pair_appended(old(self).dict, r.dict, "Alt".spec_bytes(), alt),
            *final(r.dict.buf) == *final(old(self).dict.buf),
            *final(self) == *final(r),
    {
        self.dict.pair(Name("Alt".as_bytes()), alt);
        self
    }

    /// Write the `/E` attribute to set the expanded form of the abbreviation
    /// in this structure element. PDF 1.5+
    pub fn expanded(&mut self, expanded: TextStr) -> (r: &mut Self)
        requires
            0 <= old(self).dict.len < i32::MAX,
        ensures
            dict_pair_appended(old(self).dict, r.dict, "E".spec_bytes(), expanded),
            *final(r.dict.buf) == *final(old(self).dict.buf),
            *final(self) == *final(r),
    {
        self.dict.pair(Name("E".as_bytes()), expanded);
        self
    }

    /// Write the `/ActualText` attribute to set the exact text replacement. PDF
    /// 1.4+
    pub fn actual_text(&mut self, actual_text: TextStr) -> (r: &mut Self)
        requires
            0 <= old(self).dict.len < i32::MAX,
        ensures
            dict_pair_appended(old(self).dict, r.dict, "ActualText".spec_bytes(), actual_text),
            *final(r.dict.buf) == *final(old(self).dict.buf),
            *final(self) == *final(r),
    {
        self.dict.pair(Name("ActualText".as_bytes()), actual_text);
        self
    }

    /// Write the `/NS` attribute to indirectly reference a namespace dictionary
    /// for this structure element type. PDF 2.0+
    pub fn namespace(&mut self, ns: Ref) -> (r: &mut Self)
        requires
            0 <= old(self).dict.len < i32::MAX,
        ensures
            dict_pair_appended(old(self).dict, r.dict, "NS".spec_bytes(), ns),
            *final(r.dict.buf) == *final(old(self).dict.buf),
            *final(self) == *final(r),
    {
        self.dict.pair(Name("NS".as_bytes()), ns);
        self
    }

    /// Write the `/PhoneticAlphabet` attribute to specify the phonetic alphabet
    /// used in the [StructElement::phoneme] attribute. PDF 2.0+
    pub fn phonetic_alphabet(&mut self, alphabet: PhoneticAlphabet) -> (r: &mut Self)
        requires
            0 <= old(self).dict.len < i32::MAX,
        ensures
            dict_name_pair_appended(old(self).dict, r.dict, "PhoneticAlphabet".spec_bytes(), alphabet.spec_name()),
            *final(r.dict.buf) == *final(old(self).dict.buf),
            *final(self) == *final(r),
    {
        self.dict.pair(Name("PhoneticAlphabet".as_bytes()), alphabet.to_name());
        self
    }

    /// Write the `/Phoneme` attribute to specify the phonetic pronunciation of
    /// the text in the structure element. PDF 2.0+
    pub fn phoneme(&mut self, phoneme: TextStr) -> (r: &mut Self)
        requires
            0 <= old(self).dict.len < i32::MAX,
        ensures
            dict_pair_appended(old(self).dict, r.dict, "Phoneme".spec_bytes(), phoneme),
            *final(r.dict.buf) == *final(old(self).dict.buf),
            *final(self) == *final(r),
    {
        self.dict.pair(Name("Phoneme".as_bytes()), phoneme);
        self
    }

    /// Finish writing the dictionary.
    pub fn finish(self)
        requires
            self.dict.len >= 0,
            self.dict.indent >= 2,
        ensures
            final(self.dict.buf)@ == old(self.dict.buf)@ + dict_close_bytes(
                self.dict.len as int,
                self.dict.settings.pretty,
                self.dict.indent as int,
                self.dict.indirect,
            ),
            final(self.dict.buf).spec_limits() == old(self.dict.buf).spec_limits().with_dict_entries(self.dict.len as int),
    {
        self.dict.finish();
    }
}

/// Writer for a _marked content reference dictionary_. PDF 1.3+
///
/// This struct is created by [`StructChildren::marked_content_ref`] and
/// [`StructElement::marked_content_child`].
pub struct MarkedRef<'a> {
    /// The underlying dictionary.
    pub dict: Dict<'a>,
}

impl<'a> MarkedRef<'a> {
    /// Start writing the dictionary on an object.
    pub(crate) fn start(obj: Obj<'a>) -> (r: Self)
        ensures
            dict_started(
                r.dict,
                old(obj.buf)@,
                obj.indirect,
                obj.indent,
                obj.settings,
                Some("MCR".spec_bytes()),
                None,
            ),
            r.dict.buf.spec_limits() == dict_start_limits(old(obj.buf).spec_limits(), Some("MCR".spec_bytes()), None),
            *final(r.dict.buf) == *final(obj.buf),
    {
        Self { dict: start_dict(obj, Some("MCR"), None) }
    }

    /// Write the `/Pg` attribute to specify the page the referenced marked
    /// content sequence is located on.
    pub fn page(&mut self, page: Ref) -> (r: &mut Self)
        requires
            0 <= old(self).dict.len < i32::MAX,
        ensures
            dict_pair_appended(old(self).dict, r.dict, "Pg".spec_bytes(), page),
            *final(r.dict.buf) == *final(old(self).dict.buf),
            *final(self) == *final(r),
    {
        self.dict.pair(Name("Pg".as_bytes()), page);
        self
    }

    /// Write the `/Stm` attribute to specify the content stream containing this
    /// marked content sequence if it was not on a page. If this content is
    /// missing, writing the page attribute here or in the associated structure
    /// element is required.
    pub fn stream(&mut self, stream: Ref) -> (r: &mut Self)
        requires
            0 <= old(self).dict.len < i32::MAX,
        ensures
            dict_pair_appended(old(self).dict, r.dict, "Stm".spec_bytes(), stream),
            *final(r.dict.buf) == *final(old(self).dict.buf),
            *final(self) == *final(r),
    {
        self.dict.pair(Name("Stm".as_bytes()), stream);
        self
    }

    /// Write the `/StmOwn` attribute to specify which object owns the content
    /// stream specified by the `/Stm` attribute.
    pub fn stream_owner(&mut self, owner: Ref) -> (r: &mut Self)
        requires
            0 <= old(self).dict.len < i32::MAX,
        ensures
            dict_pair_appended(old(self).dict, r.dict, "StmOwn".spec_bytes(), owner),
            *final(r.dict.buf) == *final(old(self).dict.buf),
            *final(self) == *final(r),
    {
        self.dict.pair(Name("StmOwn".as_bytes()), owner);
        self
    }

    /// Write the `/MCID` attribute to specify the integer marked content
    /// identifier. Required.
    pub fn marked_content_id(&mut self, id: i32) -> (r: &mut Self)
        requires
            0 <= old(self).dict.len < i32::MAX,
            id != i32::MIN,
        ensures
            dict_pair_appended(old(self).dict, r.dict, "MCID".spec_bytes(), id),
            *final(r.dict.buf) == *final(old(self).dict.buf),
            *final(self) == *final(r),
    {
        self.dict.pair(Name("MCID".as_bytes()), id);
        self
    }

    /// Finish writing the dictionary.
    pub fn finish(self)
        requires
            self.dict.len >= 0,
            self.dict.indent >= 2,
        ensures
            final(self.dict.buf)@ == old(self.dict.buf)@ + dict_close_bytes(
                self.dict.len as int,
                self.dict.settings.pretty,
                self.dict.indent as int,
                self.dict.indirect,
            ),
            final(self.dict.buf).spec_limits() == old(self.dict.buf).spec_limits().with_dict_entries(self.dict.len as int),
    {
        self.dict.finish();
    }
}

/// Writer for an _object reference dictionary_. PDF 1.3+
///
/// This struct is created by [`StructChildren::object_ref`].
pub struct ObjectRef<'a> {
    /// The underlying dictionary.
    pub dict: Dict<'a>,
}

impl<'a> ObjectRef<'a> {
    /// Start writing the dictionary on an object.
    pub(crate) fn start(obj: Obj<'a>) -> (r: Self)
        ensures
            dict_started(
                r.dict,
                old(obj.buf)@,
                obj.indirect,
                obj.indent,
                obj.settings,
                Some("OBJR".spec_bytes()),
                None,
            ),
            r.dict.buf.spec_limits() == dict_start_limits(old(obj.buf).spec_limits(), Some("OBJR".spec_bytes()), None),
            *final(r.dict.buf) == *final(obj.buf),
    {
        Self { dict: start_dict(obj, Some("OBJR"), None) }
    }

    /// Write the `/Pg` attribute to specify the page some or all of this
    /// structure element is located on.
    pub fn page(&mut self, page: Ref) -> (r: &mut Self)
        requires
            0 <= old(self).dict.len < i32::MAX,
        ensures
            dict_pair_appended(old(self).dict, r.dict, "Pg".spec_bytes(), page),
            *final(r.dict.buf) == *final(old(self).dict.buf),
            *final(self) == *final(r),
    {
        self.dict.pair(Name("Pg".as_bytes()), page);
        self
    }

    /// Write the `/Obj` attribute to specify the object to be referenced. Required.
    pub fn object(&mut self, obj: Ref) -> (r: &mut Self)
        requires
            0 <= old(self).dict.len < i32::MAX,
        ensures
            dict_pair_appended(old(self).dict, r.dict, "Obj".spec_bytes(), obj),
            *final(r.dict.buf) == *final(old(self).dict.buf),
            *final(self) == *final(r),
    {
        self.dict.pair(Name("Obj".as_bytes()), obj);
        self
    }

    /// Finish writing the dictionary.
    pub fn finish(self)
        requires
            self.dict.len >= 0,
            self.dict.indent >= 2,
        ensures
            final(self.dict.buf)@ == old(self.dict.buf)@ + dict_close_bytes(
                self.dict.len as int,
                self.dict.settings.pretty,
                self.dict.indent as int,
                self.dict.indirect,
            ),
            final(self.dict.buf).spec_limits() == old(self.dict.buf).spec_limits().with_dict_entries(self.dict.len as int),
    {
        self.dict.finish();
    }
}

/// Writer for a _class map dictionary_. PDF 1.4+
///
/// This struct is created by [`StructTreeRoot::class_map`].
pub struct ClassMap<'a> {
    /// The underlying dictionary.
    pub dict: Dict<'a>,
}

impl<'a> ClassMap<'a> {
    /// Start writing the dictionary on an object.
    pub(crate) fn start(obj: Obj<'a>) -> (r: Self)
        ensures
            dict_started(
                r.dict,
                old(obj.buf)@,
                obj.indirect,
                obj.indent,
                obj.settings,
                None,
                None,
            ),
            r.dict.buf.spec_limits() == dict_start_limits(old(obj.buf).spec_limits(), None, None),
            *final(r.dict.buf) == *final(obj.buf),
    {
        Self { dict: start_dict(obj, None, None) }
    }

    /// Finish writing the dictionary.
    pub fn finish(self)
        requires
            self.dict.len >= 0,
            self.dict.indent >= 2,
        ensures
            final(self.dict.buf)@ == old(self.dict.buf)@ + dict_close_bytes(
                self.dict.len as int,
                self.dict.settings.pretty,
                self.dict.indent as int,
                self.dict.indirect,
            ),
            final(self.dict.buf).spec_limits() == old(self.dict.buf).spec_limits().with_dict_entries(self.dict.len as int),
    {
        self.dict.finish();
    }
}

/// Writer for a _namespace dictionary_. PDF 2.0+
///
/// This struct is created by [`Chunk::namespace`].
pub struct Namespace<'a> {
    /// The underlying dictionary.
    pub dict: Dict<'a>,
}

impl<'a> Namespace<'a> {
    /// Start writing the dictionary on an object.
    pub(crate) fn start(obj: Obj<'a>) -> (r: Self)
        ensures
            dict_started(
                r.dict,
                old(obj.buf)@,
                obj.indirect,
                obj.indent,
                obj.settings,
                Some("Namespace".spec_bytes()),
                None,
            ),
            r.dict.buf.spec_limits() == dict_start_limits(old(obj.buf).spec_limits(), Some("Namespace".spec_bytes()), None),
            *final(r.dict.buf) == *final(obj.buf),
    {
        Self { dict: start_dict(obj, Some("Namespace"), None) }
    }

    /// Write the `/NS` attribute to specify the identifier (URI) of the namespace.
    pub fn ns(&mut self, identifier: TextStr) -> (r: &mut Self)
        requires
            0 <= old(self).dict.len < i32::MAX,
        ensures
            dict_pair_appended(old(self).dict, r.dict, "NS".spec_bytes(), identifier),
            *final(r.dict.buf) == *final(old(self).dict.buf),
            *final(self) == *final(r),
    {
        self.dict.pair(Name("NS".as_bytes()), identifier);
        self
    }

    /// Start writing the `/Schema` attribute to point to a schema definition
    /// for the namespace. Optional.
    pub fn schema(&mut self) -> (r: FileSpec<'_>)
        requires
            0 <= old(self).dict.len < i32::MAX,
        ensures
            dict_started(
                r.dict,
                old(self).dict.buf@ + dict_key_bytes(
                    old(self).dict.settings.pretty,
                    old(self).dict.indent as int,
                    "Schema".spec_bytes(),
                ),
                false,
                old(self).dict.indent,
                old(self).dict.settings,
                Some("Filespec".spec_bytes()),
                None,
            ),
            r.dict.buf.spec_limits() == dict_start_limits(
                old(self).dict.buf.spec_limits().with_name_len("Schema".spec_bytes().len() as int),
                Some("Filespec".spec_bytes()),
                None,
            ),
            final(self).dict.len == old(self).dict.len + 1,
            final(self).dict.indirect == old(self).dict.indirect,
            final(self).dict.indent == old(self).dict.indent,
            final(self).dict.settings == old(self).dict.settings,
            *final(self).dict.buf == *final(r.dict.buf),
            *final(final(self).dict.buf) == *final(old(self).dict.buf),
    {
        FileSpec::start(self.dict.insert(Name("Schema".as_bytes())))
    }

    /// Start writing the `/RoleMapNS` attribute to map structure elements to
    /// elements in another namespace. Optional.
    ///
    /// For a mechanism to define role mappings compatible with PDF 1.3 and
    /// above, see [`StructTreeRoot::role_map`].
    pub fn role_map_ns(&mut self) -> (r: NamespaceRoleMap<'_>)
        requires
            0 <= old(self).dict.len < i32::MAX,
        ensures
            dict_started(
                r.dict,
                old(self).dict.buf@ + dict_key_bytes(
                    old(self).dict.settings.pretty,
                    old(self).dict.indent as int,
                    "RoleMapNS".spec_bytes(),
                ),
                false,
                old(self).dict.indent,
                old(self).dict.settings,
                None,
                None,
            ),
            r.dict.buf.spec_limits() == dict_start_limits(
                old(self).dict.buf.spec_limits().with_name_len("RoleMapNS".spec_bytes().len() as int),
                None,
                None,
            ),
            final(self).dict.len == old(self).dict.len + 1,
            final(self).dict.indirect == old(self).dict.indirect,
            final(self).dict.indent == old(self).dict.indent,
            final(self).dict.settings == old(self).dict.settings,
            *final(self).dict.buf == *final(r.dict.buf),
            *final(final(self).dict.buf) == *final(old(self).dict.buf),
    {
        NamespaceRoleMap::start(self.dict.insert(Name("RoleMapNS".as_bytes())))
    }

    /// Finish writing the dictionary.
    pub fn finish(self)
        requires
            self.dict.len >= 0,
            self.dict.indent >= 2,
        ensures
            final(self.dict.buf)@ == old(self.dict.buf)@ + dict_close_bytes(
                self.dict.len as int,
                self.dict.settings.pretty,
                self.dict.indent as int,
                self.dict.indirect,
            ),
            final(self.dict.buf).spec_limits() == old(self.dict.buf).spec_limits().with_dict_entries(self.dict.len as int),
    {
        self.dict.finish();
    }
}

/// Writer for a _namespace role map dictionary_. PDF 2.0+
///
/// This struct is created by [`Namespace::role_map_ns`].
pub struct NamespaceRoleMap<'a> {
    /// The underlying dictionary.
    pub dict: Dict<'a>,
}

impl<'a> NamespaceRoleMap<'a> {
    /// Start writing the dictionary on an object.
    pub(crate) fn start(obj: Obj<'a>) -> (r: Self)
        ensures
            dict_started(
                r.dict,
                old(obj.buf)@,
                obj.indirect,
                obj.indent,
                obj.settings,
                None,
                None,
            ),
            r.dict.buf.spec_limits() == dict_start_limits(old(obj.buf).spec_limits(), None, None),
            *final(r.dict.buf) == *final(obj.buf),
    {
        Self { dict: start_dict(obj, None, None) }
    }

    /// Finish writing the dictionary.
    pub fn finish(self)
        requires
            self.dict.len >= 0,
            self.dict.indent >= 2,
        ensures
            final(self.dict.buf)@ == old(self.dict.buf)@ + dict_close_bytes(
                self.dict.len as int,
                self.dict.settings.pretty,
                self.dict.indent as int,
                self.dict.indirect,
            ),
            final(self.dict.buf).spec_limits() == old(self.dict.buf).spec_limits().with_dict_entries(self.dict.len as int),
    {
        self.dict.finish();
    }
}

/// Writer for a _mark information dictionary_. PDF 1.4+
///
/// This struct is created by [`Catalog::mark_info`].
pub struct MarkInfo<'a> {
    /// The underlying dictionary.
    pub dict: Dict<'a>,
}

impl<'a> MarkInfo<'a> {
    /// Start writing the dictionary on an object.
    pub(crate) fn start(obj: Obj<'a>) -> (r: Self)
        ensures
            dict_started(
                r.dict,
                old(obj.buf)@,
                obj.indirect,
                obj.indent,
                obj.settings,
                None,
                None,
            ),
            r.dict.buf.spec_limits() == dict_start_limits(old(obj.buf).spec_limits(), None, None),
            *final(r.dict.buf) == *final(obj.buf),
    {
        Self { dict: start_dict(obj, None, None) }
    }

    /// Write the `/Marked` attribute to indicate whether the document conforms
    /// to the Tagged PDF specification.
    ///
    /// Must be `true` in some PDF/A profiles like PDF/A-2a.
    pub fn marked(&mut self, conformant: bool) -> (r: &mut Self)
        requires
            0 <= old(self).dict.len < i32::MAX,
        ensures
            dict_pair_appended(old(self).dict, r.dict, "Marked".spec_bytes(), conformant),
            *final(r.dict.buf) == *final(old(self).dict.buf),
            *final(self) == *final(r),
    {
        self.dict.pair(Name("Marked".as_bytes()), conformant);
        self
    }

    /// Write the `/UserProperties` attribute to indicate whether the document
    /// contains structure elements with user properties. PDF 1.6+.
    pub fn user_properties(&mut self, present: bool) -> (r: &mut Self)
        requires
            0 <= old(self).dict.len < i32::MAX,
        ensures
            dict_pair_appended(old(self).dict, r.dict, "UserProperties".spec_bytes(), present),
            *final(r.dict.buf) == *final(old(self).dict.buf),
            *final(self) == *final(r),
    {
        self.dict.pair(Name("UserProperties".as_bytes()), present);
        self
    }

    /// Write the `/Suspects` attribute to indicate whether the document
    /// contains tag suspects. PDF 1.6+.
    pub fn suspects(&mut self, present: bool) -> (r: &mut Self)
        requires
            0 <= old(self).dict.len < i32::MAX,
        ensures
            dict_pair_appended(old(self).dict, r.dict, "Suspects".spec_bytes(), present),
            *final(r.dict.buf) == *final(old(self).dict.buf),
            *final(self) == *final(r),
    {
        self.dict.pair(Name("Suspects".as_bytes()), present);
        self
    }

    /// Finish writing the dictionary.
    pub fn finish(self)
        requires
            self.dict.len >= 0,
            self.dict.indent >= 2,
        ensures
            final(self.dict.buf)@ == old(self.dict.buf)@ + dict_close_bytes(
                self.dict.len as int,
                self.dict.settings.pretty,
                self.dict.indent as int,
                self.dict.indirect,
            ),
            final(self.dict.buf).spec_limits() == old(self.dict.buf).spec_limits().with_dict_entries(self.dict.len as int),
    {
        self.dict.finish();
    }
}

/// Writer for a _page label dictionary_.
pub struct PageLabel<'a> {
    /// The underlying dictionary.
    pub dict: Dict<'a>,
}

impl<'a> PageLabel<'a> {
    /// Start writing the dictionary on an object.
    pub(crate) fn start(obj: Obj<'a>) -> (r: Self)
        ensures
            dict_started(
                r.dict,
                old(obj.buf)@,
                obj.indirect,
                obj.indent,
                obj.settings,
                Some("PageLabel".spec_bytes()),
                None,
            ),
            r.dict.buf.spec_limits() == dict_start_limits(old(obj.buf).spec_limits(), Some("PageLabel".spec_bytes()), None),
            *final(r.dict.buf) == *final(obj.buf),
    {
        Self { dict: start_dict(obj, Some("PageLabel"), None) }
    }

    /// Write the `/S` attribute to set the page label's numbering style.
    ///
    /// If this attribute is omitted, only the prefix will be used, there will
    /// be no page number.
    pub fn style(&mut self, style: NumberingStyle) -> (r: &mut Self)
        requires
            0 <= old(self).dict.len < i32::MAX,
        ensures
            dict_name_pair_appended(old(self).dict, r.dict, "S".spec_bytes(), style.spec_name()),
            *final(r.dict.buf) == *final(old(self).dict.buf),
            *final(self) == *final(r),
    {
        self.dict.pair(Name("S".as_bytes()), style.to_name());
        self
    }

    /// Write the `/P` attribute to set the page label's prefix.
    pub fn prefix(&mut self, prefix: TextStr) -> (r: &mut Self)
        requires
            0 <= old(self).dict.len < i32::MAX,
        ensures
            dict_pair_appended(old(self).dict, r.dict, "P".spec_bytes(), prefix),
            *final(r.dict.buf) == *final(old(self).dict.buf),
            *final(self) == *final(r),
    {
        self.dict.pair(Name("P".as_bytes()), prefix);
        self
    }

    /// Write the `/St` attribute to set the page label's offset.
    ///
    /// This must be greater or equal to `1` if set.
    pub fn offset(&mut self, offset: i32) -> (r: &mut Self)
        requires
            0 <= old(self).dict.len < i32::MAX,
            offset != i32::MIN,
        ensures
            dict_pair_appended(old(self).dict, r.dict, "St".spec_bytes(), offset),
            *final(r.dict.buf) == *final(old(self).dict.buf),
            *final(self) == *final(r),
    {
        self.dict.pair(Name("St".as_bytes()), offset);
        self
    }

    /// Finish writing the dictionary.
    pub fn finish(self)
        requires
            self.dict.len >= 0,
            self.dict.indent >= 2,
        ensures
            final(self.dict.buf)@ == old(self.dict.buf)@ + dict_close_bytes(
                self.dict.len as int,
                self.dict.settings.pretty,
                self.dict.indent as int,
                self.dict.indirect,
            ),
            final(self.dict.buf).spec_limits() == old(self.dict.buf).spec_limits().with_dict_entries(self.dict.len as int),
    {
        self.dict.finish();
    }
}

/// Writer for a _document information dictionary_.
///
/// This struct is created by [`Pdf::document_info`].
pub struct DocumentInfo<'a> {
    /// The underlying dictionary.
    pub dict: Dict<'a>,
}

impl<'a> DocumentInfo<'a> {
    /// Start writing the dictionary on an object.
    pub(crate) fn start(obj: Obj<'a>) -> (r: Self)
        ensures
            dict_started(
                r.dict,
                old(obj.buf)@,
                obj.indirect,
                obj.indent,
                obj.settings,
                None,
                None,
            ),
            r.dict.buf.spec_limits() == dict_start_limits(old(obj.buf).spec_limits(), None, None),
            *final(r.dict.buf) == *final(obj.buf),
    {
        Self { dict: start_dict(obj, None, None) }
    }

    /// Write the `/Title` attribute to set the document's title. PDF 1.1+.
    pub fn title(&mut self, title: TextStr) -> (r: &mut Self)
        requires
            0 <= old(self).dict.len < i32::MAX,
        ensures
            dict_pair_appended(old(self).dict, r.dict, "Title".spec_bytes(), title),
            *final(r.dict.buf) == *final(old(self).dict.buf),
            *final(self) == *final(r),
    {
        self.dict.pair(Name("Title".as_bytes()), title);
        self
    }

    /// Write the `/Author` attribute to set the document's author.
    pub fn author(&mut self, author: TextStr) -> (r: &mut Self)
        requires
            0 <= old(self).dict.len < i32::MAX,
        ensures
            dict_pair_appended(old(self).dict, r.dict, "Author".spec_bytes(), author),
            *final(r.dict.buf) == *final(old(self).dict.buf),
            *final(self) == *final(r),
    {
        self.dict.pair(Name("Author".as_bytes()), author);
        self
    }

    /// Write the `/Subject` attribute to set the document's subject. PDF 1.1+.
    pub fn subject(&mut self, subject: TextStr) -> (r: &mut Self)
        requires
            0 <= old(self).dict.len < i32::MAX,
        ensures
            dict_pair_appended(old(self).dict, r.dict, "Subject".spec_bytes(), subject),
            *final(r.dict.buf) == *final(old(self).dict.buf),
            *final(self) == *final(r),
    {
        self.dict.pair(Name("Subject".as_bytes()), subject);
        self
    }

    /// Write the `/Keywords` attribute to set terms associated to the document.
    /// PDF 1.1+.
    pub fn keywords(&mut self, keywords: TextStr) -> (r: &mut Self)
        requires
            0 <= old(self).dict.len < i32::MAX,
        ensures
            dict_pair_appended(old(self).dict, r.dict, "Keywords".spec_bytes(), keywords),
            *final(r.dict.buf) == *final(old(self).dict.buf),
            *final(self) == *final(r),
    {
        self.dict.pair(Name("Keywords".as_bytes()), keywords);
        self
    }

    /// Write the `/Creator` attribute to set the name of the product that
    /// converted or wrote the file that this PDF has been converted from.
    pub fn creator(&mut self, creator: TextStr) -> (r: &mut Self)
        requires
            0 <= old(self).dict.len < i32::MAX,
        ensures
            dict_pair_appended(old(self).dict, r.dict, "Creator".spec_bytes(), creator),
            *final(r.dict.buf) == *final(old(self).dict.buf),
            *final(self) == *final(r),
    {
        self.dict.pair(Name("Creator".as_bytes()), creator);
        self
    }

    /// Write the `/Producer` attribute to set the name of the product that
    /// converted or wrote this PDF.
    pub fn producer(&mut self, producer: TextStr) -> (r: &mut Self)
        requires
            0 <= old(self).dict.len < i32::MAX,
        ensures
            dict_pair_appended(old(self).dict, r.dict, "Producer".spec_bytes(), producer),
            *final(r.dict.buf) == *final(old(self).dict.buf),
            *final(self) == *final(r),
    {
        self.dict.pair(Name("Producer".as_bytes()), producer);
        self
    }

    /// Write the `/CreationDate` attribute to set the date the document was
    /// created.
    pub fn creation_date(&mut self, date: Date) -> (r: &mut Self)
        requires
            0 <= old(self).dict.len < i32::MAX,
        ensures
            dict_pair_appended(old(self).dict, r.dict, "CreationDate".spec_bytes(), date),
            *final(r.dict.buf) == *final(old(self).dict.buf),
            *final(self) == *final(r),
    {
        self.dict.pair(Name("CreationDate".as_bytes()), date);
        self
    }

    /// Write the `/ModDate` attribute to set the date the document was last
    /// modified.
    ///
    /// Required if `/PieceInfo` is set in the document catalog.
    pub fn modified_date(&mut self, date: Date) -> (r: &mut Self)
        requires
            0 <= old(self).dict.len < i32::MAX,
        ensures
            dict_pair_appended(old(self).dict, r.dict, "ModDate".spec_bytes(), date),
            *final(r.dict.buf) == *final(old(self).dict.buf),
            *final(self) == *final(r),
    {
        self.dict.pair(Name("ModDate".as_bytes()), date);
        self
    }

    /// Write the `/Trapped` attribute to set whether the document is fully or
    /// partially trapped. PDF 1.3+.
    pub fn trapped(&mut self, trapped: TrappingStatus) -> (r: &mut Self)
        requires
            0 <= old(self).dict.len < i32::MAX,
        ensures
            dict_name_pair_appended(old(self).dict, r.dict, "Trapped".spec_bytes(), trapped.spec_name()),
            *final(r.dict.buf) == *final(old(self).dict.buf),
            *final(self) == *final(r),
    {
        self.dict.pair(Name("Trapped".as_bytes()), trapped.to_name());
        self
    }

    /// Finish writing the dictionary.
    pub fn finish(self)
        requires
            self.dict.len >= 0,
            self.dict.indent >= 2,
        ensures
            final(self.dict.buf)@ == old(self.dict.buf)@ + dict_close_bytes(
                self.dict.len as int,
                self.dict.settings.pretty,
                self.dict.indent as int,
                self.dict.indirect,
            ),
            final(self.dict.buf).spec_limits() == old(self.dict.buf).spec_limits().with_dict_entries(self.dict.len as int),
    {
        self.dict.finish();
    }
}

/// Writer for a _page tree dictionary_.
///
/// This struct is created by [`Chunk::pages`].
pub struct Pages<'a> {
    /// The underlying dictionary.
    pub dict: Dict<'a>,
}

impl<'a> Pages<'a> {
    /// Start writing the dictionary on an object.
    pub(crate) fn start(obj: Obj<'a>) -> (r: Self)
        ensures
            dict_started(
                r.dict,
                old(obj.buf)@,
                obj.indirect,
                obj.indent,
                obj.settings,
                Some("Pages".spec_bytes()),
                None,
            ),
            r.dict.buf.spec_limits() == dict_start_limits(old(obj.buf).spec_limits(), Some("Pages".spec_bytes()), None),
            *final(r.dict.buf) == *final(obj.buf),
    {
        Self { dict: start_dict(obj, Some("Pages"), None) }
    }

    /// Write the `/Parent` attribute. Required except in root node.
    pub fn parent(&mut self, parent: Ref) -> (r: &mut Self)
        requires
            0 <= old(self).dict.len < i32::MAX,
        ensures
            dict_pair_appended(old(self).dict, r.dict, "Parent".spec_bytes(), parent),
            *final(r.dict.buf) == *final(old(self).dict.buf),
            *final(self) == *final(r),
    {
        self.dict.pair(Name("Parent".as_bytes()), parent);
        self
    }

    /// Write the `/Kids` attributes, listing the immediate children of this
    /// node in the page tree. Required.
    pub fn kids(&mut self, kids: &[Ref]) -> (r: &mut Self)
        requires
            0 <= old(self).dict.len < i32::MAX,
            kids@.len() <= i32::MAX,
        ensures
            dict_items_appended(old(self).dict, r.dict, "Kids".spec_bytes(), kids@),
            *final(r.dict.buf) == *final(old(self).dict.buf),
            *final(self) == *final(r),
    {
        write_items_entry(&mut self.dict, Name("Kids".as_bytes()), kids);
        self
    }

    /// Write the `/Count` attribute, specifying how many descendants this node
    /// in the page tree has. This may be different to the length of `/Kids`
    /// when the tree has multiple layers. Required.
    pub fn count(&mut self, count: i32) -> (r: &mut Self)
        requires
            0 <= old(self).dict.len < i32::MAX,
            count != i32::MIN,
        ensures
            dict_pair_appended(old(self).dict, r.dict, "Count".spec_bytes(), count),
            *final(r.dict.buf) == *final(old(self).dict.buf),
            *final(self) == *final(r),
    {
        self.dict.pair(Name("Count".as_bytes()), count);
        self
    }

    /// Start writing the `/Resources` dictionary.
    pub fn resources(&mut self) -> (r: Resources<'_>)
        requires
            0 <= old(self).dict.len < i32::MAX,
        ensures
            dict_started(
                r.dict,
                old(self).dict.buf@ + dict_key_bytes(
                    old(self).dict.settings.pretty,
                    old(self).dict.indent as int,
                    "Resources".spec_bytes(),
                ),
                false,
                old(self).dict.indent,
                old(self).dict.settings,
                None,
                None,
            ),
            r.dict.buf.spec_limits() == dict_start_limits(
                old(self).dict.buf.spec_limits().with_name_len("Resources".spec_bytes().len() as int),
                None,
                None,
            ),
            final(self).dict.len == old(self).dict.len + 1,
            final(self).dict.indirect == old(self).dict.indirect,
            final(self).dict.indent == old(self).dict.indent,
            final(self).dict.settings == old(self).dict.settings,
            *final(self).dict.buf == *final(r.dict.buf),
            *final(final(self).dict.buf) == *final(old(self).dict.buf),
    {
        Resources::start(self.dict.insert(Name("Resources".as_bytes())))
    }

    /// Finish writing the dictionary.
    pub fn finish(self)
        requires
            self.dict.len >= 0,
            self.dict.indent >= 2,
        ensures
            final(self.dict.buf)@ == old(self.dict.buf)@ + dict_close_bytes(
                self.dict.len as int,
                self.dict.settings.pretty,
                self.dict.indent as int,
                self.dict.indirect,
            ),
            final(self.dict.buf).spec_limits() == old(self.dict.buf).spec_limits().with_dict_entries(self.dict.len as int),
    {
        self.dict.finish();
    }
}

/// Writer for a _page dictionary_.
///
/// This struct is created by [`Chunk::page`].
pub struct Page<'a> {
    /// The underlying dictionary.
    pub dict: Dict<'a>,
}

impl<'a> Page<'a> {
    /// Start writing the dictionary on an object.
    pub(crate) fn start(obj: Obj<'a>) -> (r: Self)
        ensures
            dict_started(
                r.dict,
                old(obj.buf)@,
                obj.indirect,
                obj.indent,
                obj.settings,
                Some("Page".spec_bytes()),
                None,
            ),
            r.dict.buf.spec_limits() == dict_start_limits(old(obj.buf).spec_limits(), Some("Page".spec_bytes()), None),
            *final(r.dict.buf) == *final(obj.buf),
    {
        Self { dict: start_dict(obj, Some("Page"), None) }
    }

    /// Write the `/Parent` attribute. Required.
    pub fn parent(&mut self, parent: Ref) -> (r: &mut Self)
        requires
            0 <= old(self).dict.len < i32::MAX,
        ensures
            dict_pair_appended(old(self).dict, r.dict, "Parent".spec_bytes(), parent),
            *final(r.dict.buf) == *final(old(self).dict.buf),
            *final(self) == *final(r),
    {
        self.dict.pair(Name("Parent".as_bytes()), parent);
        self
    }

    /// Write the `/LastModified` attribute. PDF 1.3+.
    pub fn last_modified(&mut self, date: Date) -> (r: &mut Self)
        requires
            0 <= old(self).dict.len < i32::MAX,
        ensures
            dict_pair_appended(old(self).dict, r.dict, "LastModified".spec_bytes(), date),
            *final(r.dict.buf) == *final(old(self).dict.buf),
            *final(self) == *final(r),
    {
        self.dict.pair(Name("LastModified".as_bytes()), date);
        self
    }

    /// Start writing the `/Resources` dictionary.
    pub fn resources(&mut self) -> (r: Resources<'_>)
        requires
            0 <= old(self).dict.len < i32::MAX,
        ensures
            dict_started(
                r.dict,
                old(self).dict.buf@ + dict_key_bytes(
                    old(self).dict.settings.pretty,
                    old(self).dict.indent as int,
                    "Resources".spec_bytes(),
                ),
                false,
                old(self).dict.indent,
                old(self).dict.settings,
                None,
                None,
            ),
            r.dict.buf.spec_limits() == dict_start_limits(
                old(self).dict.buf.spec_limits().with_name_len("Resources".spec_bytes().len() as int),
                None,
                None,
            ),
            final(self).dict.len == old(self).dict.len + 1,
            final(self).dict.indirect == old(self).dict.indirect,
            final(self).dict.indent == old(self).dict.indent,
            final(self).dict.settings == old(self).dict.settings,
            *final(self).dict.buf == *final(r.dict.buf),
            *final(final(self).dict.buf) == *final(old(self).dict.buf),
    {
        Resources::start(self.dict.insert(Name("Resources".as_bytes())))
    }

    /// Write the `/Contents` attribute as reference to a single content stream.
    ///
    /// Such a content stream can be created using the [`Content`] builder and
    /// written to the file using [`Chunk::stream`].
    pub fn contents(&mut self, id: Ref) -> (r: &mut Self)
        requires
            0 <= old(self).dict.len < i32::MAX,
        ensures
            dict_pair_appended(old(self).dict, r.dict, "Contents".spec_bytes(), id),
            *final(r.dict.buf) == *final(old(self).dict.buf),
            *final(self) == *final(r),
    {
        self.dict.pair(Name("Contents".as_bytes()), id);
        self
    }

    /// Write the `/Contents` attribute as an array.
    pub fn contents_array(&mut self, ids: &[Ref]) -> (r: &mut Self)
        requires
            0 <= old(self).dict.len < i32::MAX,
            ids@.len() <= i32::MAX,
        ensures
            dict_items_appended(old(self).dict, r.dict, "Contents".spec_bytes(), ids@),
            *final(r.dict.buf) == *final(old(self).dict.buf),
            *final(self) == *final(r),
    {
        write_items_entry(&mut self.dict, Name("Contents".as_bytes()), ids);
        self
    }

    /// Write the `/Rotate` attribute. This is the number of degrees the page
    /// should be rotated clockwise when displayed. This should be a multiple
    /// of 90.
    pub fn rotate(&mut self, degrees: i32) -> (r: &mut Self)
        requires
            0 <= old(self).dict.len < i32::MAX,
            degrees != i32::MIN,
        ensures
            dict_pair_appended(old(self).dict, r.dict, "Rotate".spec_bytes(), degrees),
            *final(r.dict.buf) == *final(old(self).dict.buf),
            *final(self) == *final(r),
    {
        self.dict.pair(Name("Rotate".as_bytes()), degrees);
        self
    }

    /// Start writing the `/Group` dictionary to set the transparency settings
    /// for the page. PDF 1.4+.
    ///
    /// Required for pages with transparency in PDF/A if no output intent is
    /// present.
    pub fn group(&mut self) -> (r: Group<'_>)
        requires
            0 <= old(self).dict.len < i32::MAX,
        ensures
            dict_started(
                r.dict,
                old(self).dict.buf@ + dict_key_bytes(
                    old(self).dict.settings.pretty,
                    old(self).dict.indent as int,
                    "Group".spec_bytes(),
                ),
                false,
                old(self).dict.indent,
                old(self).dict.settings,
                Some("Group".spec_bytes()),
                None,
            ),
            r.dict.buf.spec_limits() == dict_start_limits(
                old(self).dict.buf.spec_limits().with_name_len("Group".spec_bytes().len() as int),
                Some("Group".spec_bytes()),
                None,
            ),
            final(self).dict.len == old(self).dict.len + 1,
            final(self).dict.indirect == old(self).dict.indirect,
            final(self).dict.indent == old(self).dict.indent,
            final(self).dict.settings == old(self).dict.settings,
            *final(self).dict.buf == *final(r.dict.buf),
            *final(final(self).dict.buf) == *final(old(self).dict.buf),
    {
        Group::start(self.dict.insert(Name("Group".as_bytes())))
    }

    /// Write the `/Thumb` attribute to set an [image][ImageXObject] as the page
    /// thumbnail. Must be RGB, Grayscale, or an indexed color space based on
    /// the former two.
    pub fn thumbnail(&mut self, id: Ref) -> (r: &mut Self)
        requires
            0 <= old(self).dict.len < i32::MAX,
        ensures
            dict_pair_appended(old(self).dict, r.dict, "Thumb".spec_bytes(), id),
            *final(r.dict.buf) == *final(old(self).dict.buf),
            *final(self) == *final(r),
    {
        self.dict.pair(Name("Thumb".as_bytes()), id);
        self
    }

    /// Write the `/Annots` (annotations) array.
    pub fn annotations(&mut self, ids: &[Ref]) -> (r: &mut Self)
        requires
            0 <= old(self).dict.len < i32::MAX,
            ids@.len() <= i32::MAX,
        ensures
            dict_items_appended(old(self).dict, r.dict, "Annots".spec_bytes(), ids@),
            *final(r.dict.buf) == *final(old(self).dict.buf),
            *final(self) == *final(r),
    {
        write_items_entry(&mut self.dict, Name("Annots".as_bytes()), ids);
        self
    }

    /// Write the `/StructParents` attribute to indicate the [structure tree
    /// elements][StructElement] the contents of this XObject may belong to. PDF 1.3+.
    pub fn struct_parents(&mut self, key: i32) -> (r: &mut Self)
        requires
            0 <= old(self).dict.len < i32::MAX,
            key != i32::MIN,
        ensures
            dict_pair_appended(old(self).dict, r.dict, "StructParents".spec_bytes(), key),
            *final(r.dict.buf) == *final(old(self).dict.buf),
            *final(self) == *final(r),
    {
        self.dict.pair(Name("StructParents".as_bytes()), key);
        self
    }

    /// Write the `/Tabs` attribute. This specifies the order in which the
    /// annotations should be focused by hitting tab. PDF 1.5+.
    pub fn tab_order(&mut self, order: TabOrder) -> (r: &mut Self)
        requires
            0 <= old(self).dict.len < i32::MAX,
        ensures
            dict_name_pair_appended(old(self).dict, r.dict, "Tabs".spec_bytes(), order.spec_name()),
            *final(r.dict.buf) == *final(old(self).dict.buf),
            *final(self) == *final(r),
    {
        self.dict.pair(Name("Tabs".as_bytes()), order.to_name());
        self
    }

    /// Start writing the `/AA` dictionary. This sets the actions to perform
    /// when a page is opened or closed. PDF 1.2+.
    ///
    /// Note that this attribute is forbidden in PDF/A.
    pub fn additional_actions(&mut self) -> (r: AdditionalActions<'_>)
        requires
            0 <= old(self).dict.len < i32::MAX,
        ensures
            dict_started(
                r.dict,
                old(self).dict.buf@ + dict_key_bytes(
                    old(self).dict.settings.pretty,
                    old(self).dict.indent as int,
                    "AA".spec_bytes(),
                ),
                false,
                old(self).dict.indent,
                old(self).dict.settings,
                None,
                None,
            ),
            r.dict.buf.spec_limits() == dict_start_limits(
                old(self).dict.buf.spec_limits().with_name_len("AA".spec_bytes().len() as int),
                None,
                None,
            ),
            final(self).dict.len == old(self).dict.len + 1,
            final(self).dict.indirect == old(self).dict.indirect,
            final(self).dict.indent == old(self).dict.indent,
            final(self).dict.settings == old(self).dict.settings,
            *final(self).dict.buf == *final(r.dict.buf),
            *final(final(self).dict.buf) == *final(old(self).dict.buf),
    {
        AdditionalActions::start(self.dict.insert(Name("AA".as_bytes())))
    }

    /// Write the `/Metadata` attribute to specify the page's metadata. PDF
    /// 1.4+.
    ///
    /// The reference shall point to a [metadata stream](Metadata).
    ///
    /// Required in PDF/A.
    pub fn metadata(&mut self, id: Ref) -> (r: &mut Self)
        requires
            0 <= old(self).dict.len < i32::MAX,
        ensures
            dict_pair_appended(old(self).dict, r.dict, "Metadata".spec_bytes(), id),
            *final(r.dict.buf) == *final(old(self).dict.buf),
            *final(self) == *final(r),
    {
        self.dict.pair(Name("Metadata".as_bytes()), id);
        self
    }

    /// Finish writing the dictionary.
    pub fn finish(self)
        requires
            self.dict.len >= 0,
            self.dict.indent >= 2,
        ensures
            final(self.dict.buf)@ == old(self.dict.buf)@ + dict_close_bytes(
                self.dict.len as int,
                self.dict.settings.pretty,
                self.dict.indent as int,
                self.dict.indirect,
            ),
            final(self.dict.buf).spec_limits() == old(self.dict.buf).spec_limits().with_dict_entries(self.dict.len as int),
    {
        self.dict.finish();
    }
}

/// Writer for an _outline dictionary_.
///
/// This struct is created by [`Chunk::outline`].
pub struct Outline<'a> {
    /// The underlying dictionary.
    pub dict: Dict<'a>,
}

impl<'a> Outline<'a> {
    /// Start writing the dictionary on an object.
    pub(crate) fn start(obj: Obj<'a>) -> (r: Self)
        ensures
            dict_started(
                r.dict,
                old(obj.buf)@,
                obj.indirect,
                obj.indent,
                obj.settings,
                Some("Outlines".spec_bytes()),
                None,
            ),
            r.dict.buf.spec_limits() == dict_start_limits(old(obj.buf).spec_limits(), Some("Outlines".spec_bytes()), None),
            *final(r.dict.buf) == *final(obj.buf),
    {
        Self { dict: start_dict(obj, Some("Outlines"), None) }
    }

    /// Write the `/First` attribute which points to the first
    /// [item](OutlineItem) in the document's outline.
    pub fn first(&mut self, item: Ref) -> (r: &mut Self)
        requires
            0 <= old(self).dict.len < i32::MAX,
        ensures
            dict_pair_appended(old(self).dict, r.dict, "First".spec_bytes(), item),
            *final(r.dict.buf) == *final(old(self).dict.buf),
            *final(self) == *final(r),
    {
        self.dict.pair(Name("First".as_bytes()), item);
        self
    }

    /// Write the `/Last` attribute which points to the last [item](OutlineItem)
    /// in the document's outline.
    pub fn last(&mut self, item: Ref) -> (r: &mut Self)
        requires
            0 <= old(self).dict.len < i32::MAX,
        ensures
            dict_pair_appended(old(self).dict, r.dict, "Last".spec_bytes(), item),
            *final(r.dict.buf) == *final(old(self).dict.buf),
            *final(self) == *final(r),
    {
        self.dict.pair(Name("Last".as_bytes()), item);
        self
    }

    /// Write the `/Count` attribute. This tells the viewer how many outline
    /// elements (at all levels) are currently visible.
    ///
    /// Panics if `count` is negative.
    pub fn count(&mut self, count: i32) -> (r: &mut Self)
        requires
            0 <= old(self).dict.len < i32::MAX,
            count >= 0,
            count != i32::MIN,
        ensures
            dict_pair_appended(old(self).dict, r.dict, "Count".spec_bytes(), count),
            *final(r.dict.buf) == *final(old(self).dict.buf),
            *final(self) == *final(r),
    {
        self.dict.pair(Name("Count".as_bytes()), count);
        self
    }

    /// Finish writing the dictionary.
    pub fn finish(self)
        requires
            self.dict.len >= 0,
            self.dict.indent >= 2,
        ensures
            final(self.dict.buf)@ == old(self.dict.buf)@ + dict_close_bytes(
                self.dict.len as int,
                self.dict.settings.pretty,
                self.dict.indent as int,
                self.dict.indirect,
            ),
            final(self.dict.buf).spec_limits() == old(self.dict.buf).spec_limits().with_dict_entries(self.dict.len as int),
    {
        self.dict.finish();
    }
}

/// Writer for an _outline item dictionary_.
///
/// This struct is created by [`Chunk::outline_item`].
pub struct OutlineItem<'a> {
    /// The underlying dictionary.
    pub dict: Dict<'a>,
}

impl<'a> OutlineItem<'a> {
    /// Start writing the dictionary on an object.
    pub(crate) fn start(obj: Obj<'a>) -> (r: Self)
        ensures
            dict_started(
                r.dict,
                old(obj.buf)@,
                obj.indirect,
                obj.indent,
                obj.settings,
                None,
                None,
            ),
            r.dict.buf.spec_limits() == dict_start_limits(old(obj.buf).spec_limits(), None, None),
            *final(r.dict.buf) == *final(obj.buf),
    {
        Self { dict: start_dict(obj, None, None) }
    }

    /// Write the `/Title` attribute.
    pub fn title(&mut self, title: TextStr) -> (r: &mut Self)
        requires
            0 <= old(self).dict.len < i32::MAX,
        ensures
            dict_pair_appended(old(self).dict, r.dict, "Title".spec_bytes(), title),
            *final(r.dict.buf) == *final(old(self).dict.buf),
            *final(self) == *final(r),
    {
        self.dict.pair(Name("Title".as_bytes()), title);
        self
    }

    /// Write the `/Parent` attribute which points to the item's parent or the
    /// top-level outline dictionary.
    pub fn parent(&mut self, outline: Ref) -> (r: &mut Self)
        requires
            0 <= old(self).dict.len < i32::MAX,
        ensures
            dict_pair_appended(old(self).dict, r.dict, "Parent".spec_bytes(), outline),
            *final(r.dict.buf) == *final(old(self).dict.buf),
            *final(self) == *final(r),
    {
        self.dict.pair(Name("Parent".as_bytes()), outline);
        self
    }

    /// Write the `/Prev` attribute which points to the previous item on the
    /// item's level.
    pub fn prev(&mut self, outline: Ref) -> (r: &mut Self)
        requires
            0 <= old(self).dict.len < i32::MAX,
        ensures
            dict_pair_appended(old(self).dict, r.dict, "Prev".spec_bytes(), outline),
            *final(r.dict.buf) == *final(old(self).dict.buf),
            *final(self) == *final(r),
    {
        self.dict.pair(Name("Prev".as_bytes()), outline);
        self
    }

    /// Write the `/Next` attribute which points to the next item on the item's
    /// level.
    pub fn next(&mut self, outline: Ref) -> (r: &mut Self)
        requires
            0 <= old(self).dict.len < i32::MAX,
        ensures
            dict_pair_appended(old(self).dict, r.dict, "Next".spec_bytes(), outline),
            *final(r.dict.buf) == *final(old(self).dict.buf),
            *final(self) == *final(r),
    {
        self.dict.pair(Name("Next".as_bytes()), outline);
        self
    }

    /// Write the `/First` attribute which points to the item's first child.
    pub fn first(&mut self, outline: Ref) -> (r: &mut Self)
        requires
            0 <= old(self).dict.len < i32::MAX,
        ensures
            dict_pair_appended(old(self).dict, r.dict, "First".spec_bytes(), outline),
            *final(r.dict.buf) == *final(old(self).dict.buf),
            *final(self) == *final(r),
    {
        self.dict.pair(Name("First".as_bytes()), outline);
        self
    }

    /// Write the `/Last` attribute which points to the item's last child.
    pub fn last(&mut self, outline: Ref) -> (r: &mut Self)
        requires
            0 <= old(self).dict.len < i32::MAX,
        ensures
            dict_pair_appended(old(self).dict, r.dict, "Last".spec_bytes(), outline),
            *final(r.dict.buf) == *final(old(self).dict.buf),
            *final(self) == *final(r),
    {
        self.dict.pair(Name("Last".as_bytes()), outline);
        self
    }

    /// Write the `/Count` attribute. This tells the viewer how many outline
    /// element children are currently visible. If the item is collapsed, this
    /// number shall be negative indicating how many elements you would be able
    /// to see if it was open.
    pub fn count(&mut self, items: i32) -> (r: &mut Self)
        requires
            0 <= old(self).dict.len < i32::MAX,
            items != i32::MIN,
        ensures
            dict_pair_appended(old(self).dict, r.dict, "Count".spec_bytes(), items),
            *final(r.dict.buf) == *final(old(self).dict.buf),
            *final(self) == *final(r),
    {
        self.dict.pair(Name("Count".as_bytes()), items);
        self
    }

    /// Write the `/Dest` attribute to set the destination of this
    /// outline item to a named destination.
    pub fn dest_name(&mut self, name: Name) -> (r: &mut Self)
        requires
            0 <= old(self).dict.len < i32::MAX,
        ensures
            dict_pair_appended(old(self).dict, r.dict, "Dest".spec_bytes(), name),
            *final(r.dict.buf) == *final(old(self).dict.buf),
            *final(self) == *final(r),
    {
        self.dict.pair(Name("Dest".as_bytes()), name);
        self
    }

    /// Write the `/F` attribute. PDF 1.4+.
    ///
    /// The flags are given by their bits.
    pub fn flags(&mut self, flags: u32) -> (r: &mut Self)
        requires
            0 <= old(self).dict.len < i32::MAX,
            flags as i32 != i32::MIN,
        ensures
            dict_pair_appended(old(self).dict, r.dict, "F".spec_bytes(), flags as i32),
            *final(r.dict.buf) == *final(old(self).dict.buf),
            *final(self) == *final(r),
    {
        self.dict.pair(Name("F".as_bytes()), flags as i32);
        self
    }

    /// Finish writing the dictionary.
    pub fn finish(self)
        requires
            self.dict.len >= 0,
            self.dict.indent >= 2,
        ensures
            final(self.dict.buf)@ == old(self.dict.buf)@ + dict_close_bytes(
                self.dict.len as int,
                self.dict.settings.pretty,
                self.dict.indent as int,
                self.dict.indirect,
            ),
            final(self.dict.buf).spec_limits() == old(self.dict.buf).spec_limits().with_dict_entries(self.dict.len as int),
    {
        self.dict.finish();
    }
}

/// Writer for a _names dictionary_.
///
/// This dictionary can map various objects to names using name trees. This
/// struct is created by [`Catalog::names`].
pub struct Names<'a> {
    /// The underlying dictionary.
    pub dict: Dict<'a>,
}

impl<'a> Names<'a> {
    /// Start writing the dictionary on an object.
    pub(crate) fn start(obj: Obj<'a>) -> (r: Self)
        ensures
            dict_started(
                r.dict,
                old(obj.buf)@,
                obj.indirect,
                obj.indent,
                obj.settings,
                None,
                None,
            ),
            r.dict.buf.spec_limits() == dict_start_limits(old(obj.buf).spec_limits(), None, None),
            *final(r.dict.buf) == *final(obj.buf),
    {
        Self { dict: start_dict(obj, None, None) }
    }

    /// Start writing the `/Dests` attribute to provide associations for
    /// [destinations](Destination).
    pub fn destinations(&mut self) -> (r: NameTree<'_, Ref>)
        requires
            0 <= old(self).dict.len < i32::MAX,
        ensures
            dict_started(
                r.dict,
                old(self).dict.buf@ + dict_key_bytes(
                    old(self).dict.settings.pretty,
                    old(self).dict.indent as int,
                    "Dests".spec_bytes(),
                ),
                false,
                old(self).dict.indent,
                old(self).dict.settings,
                None,
                None,
            ),
            r.dict.buf.spec_limits() == old(self).dict.buf.spec_limits().with_name_len("Dests".spec_bytes().len() as int),
            final(self).dict.len == old(self).dict.len + 1,
            final(self).dict.indirect == old(self).dict.indirect,
            final(self).dict.indent == old(self).dict.indent,
            final(self).dict.settings == old(self).dict.settings,
            *final(self).dict.buf == *final(r.dict.buf),
            *final(final(self).dict.buf) == *final(old(self).dict.buf),
    {
        NameTree::start(self.dict.insert(Name("Dests".as_bytes())))
    }

    /// Start writing the `/AP` attribute to provide associations for appearance
    /// streams. PDF 1.3+.
    pub fn appearances(&mut self) -> (r: NameTree<'_, Ref>)
        requires
            0 <= old(self).dict.len < i32::MAX,
        ensures
            dict_started(
                r.dict,
                old(self).dict.buf@ + dict_key_bytes(
                    old(self).dict.settings.pretty,
                    old(self).dict.indent as int,
                    "AP".spec_bytes(),
                ),
                false,
                old(self).dict.indent,
                old(self).dict.settings,
                None,
                None,
            ),
            r.dict.buf.spec_limits() == old(self).dict.buf.spec_limits().with_name_len("AP".spec_bytes().len() as int),
            final(self).dict.len == old(self).dict.len + 1,
            final(self).dict.indirect == old(self).dict.indirect,
            final(self).dict.indent == old(self).dict.indent,
            final(self).dict.settings == old(self).dict.settings,
            *final(self).dict.buf == *final(r.dict.buf),
            *final(final(self).dict.buf) == *final(old(self).dict.buf),
    {
        NameTree::start(self.dict.insert(Name("AP".as_bytes())))
    }

    /// Start writing the `/JavaScript` attribute to provide associations for
    /// JavaScript actions. PDF 1.3+.
    pub fn javascript(&mut self) -> (r: NameTree<'_, Ref>)
        requires
            0 <= old(self).dict.len < i32::MAX,
        ensures
            dict_started(
                r.dict,
                old(self).dict.buf@ + dict_key_bytes(
                    old(self).dict.settings.pretty,
                    old(self).dict.indent as int,
                    "JavaScript".spec_bytes(),
                ),
                false,
                old(self).dict.indent,
                old(self).dict.settings,
                None,
                None,
            ),
            r.dict.buf.spec_limits() == old(self).dict.buf.spec_limits().with_name_len("JavaScript".spec_bytes().len() as int),
            final(self).dict.len == old(self).dict.len + 1,
            final(self).dict.indirect == old(self).dict.indirect,
            final(self).dict.indent == old(self).dict.indent,
            final(self).dict.settings == old(self).dict.settings,
            *final(self).dict.buf == *final(r.dict.buf),
            *final(final(self).dict.buf) == *final(old(self).dict.buf),
    {
        NameTree::start(self.dict.insert(Name("JavaScript".as_bytes())))
    }

    /// Start writing the `/Pages` attribute to name [pages](Page). PDF 1.3+.
    pub fn pages(&mut self) -> (r: NameTree<'_, Ref>)
        requires
            0 <= old(self).dict.len < i32::MAX,
        ensures
            dict_started(
                r.dict,
                old(self).dict.buf@ + dict_key_bytes(
                    old(self).dict.settings.pretty,
                    old(self).dict.indent as int,
                    "Pages".spec_bytes(),
                ),
                false,
                old(self).dict.indent,
                old(self).dict.settings,
                None,
                None,
            ),
            r.dict.buf.spec_limits() == old(self).dict.buf.spec_limits().with_name_len("Pages".spec_bytes().len() as int),
            final(self).dict.len == old(self).dict.len + 1,
            final(self).dict.indirect == old(self).dict.indirect,
            final(self).dict.indent == old(self).dict.indent,
            final(self).dict.settings == old(self).dict.settings,
            *final(self).dict.buf == *final(r.dict.buf),
            *final(final(self).dict.buf) == *final(old(self).dict.buf),
    {
        NameTree::start(self.dict.insert(Name("Pages".as_bytes())))
    }

    /// Start writing the `/Template` attribute to name [pages](Pages) outside
    /// of the page tree as templates for interactive forms. PDF 1.3+.
    pub fn templates(&mut self) -> (r: NameTree<'_, Ref>)
        requires
            0 <= old(self).dict.len < i32::MAX,
        ensures
            dict_started(
                r.dict,
                old(self).dict.buf@ + dict_key_bytes(
                    old(self).dict.settings.pretty,
                    old(self).dict.indent as int,
                    "Templates".spec_bytes(),
                ),
                false,
                old(self).dict.indent,
                old(self).dict.settings,
                None,
                None,
            ),
            r.dict.buf.spec_limits() == old(self).dict.buf.spec_limits().with_name_len("Templates".spec_bytes().len() as int),
            final(self).dict.len == old(self).dict.len + 1,
            final(self).dict.indirect == old(self).dict.indirect,
            final(self).dict.indent == old(self).dict.indent,
            final(self).dict.settings == old(self).dict.settings,
            *final(self).dict.buf == *final(r.dict.buf),
            *final(final(self).dict.buf) == *final(old(self).dict.buf),
    {
        NameTree::start(self.dict.insert(Name("Templates".as_bytes())))
    }

    /// Start writing the `/IDS` attribute to map identifiers to Web Capture
    /// content sets. PDF 1.3+.
    pub fn capture_ids(&mut self) -> (r: NameTree<'_, Ref>)
        requires
            0 <= old(self).dict.len < i32::MAX,
        ensures
            dict_started(
                r.dict,
                old(self).dict.buf@ + dict_key_bytes(
                    old(self).dict.settings.pretty,
                    old(self).dict.indent as int,
                    "IDS".spec_bytes(),
                ),
                false,
                old(self).dict.indent,
                old(self).dict.settings,
                None,
                None,
            ),
            r.dict.buf.spec_limits() == old(self).dict.buf.spec_limits().with_name_len("IDS".spec_bytes().len() as int),
            final(self).dict.len == old(self).dict.len + 1,
            final(self).dict.indirect == old(self).dict.indirect,
            final(self).dict.indent == old(self).dict.indent,
            final(self).dict.settings == old(self).dict.settings,
            *final(self).dict.buf == *final(r.dict.buf),
            *final(final(self).dict.buf) == *final(old(self).dict.buf),
    {
        NameTree::start(self.dict.insert(Name("IDS".as_bytes())))
    }

    /// Start writing the `/URLS` attribute to map URLs to Web Capture content
    /// sets. PDF 1.3+.
    pub fn capture_urls(&mut self) -> (r: NameTree<'_, Ref>)
        requires
            0 <= old(self).dict.len < i32::MAX,
        ensures
            dict_started(
                r.dict,
                old(self).dict.buf@ + dict_key_bytes(
                    old(self).dict.settings.pretty,
                    old(self).dict.indent as int,
                    "URLS".spec_bytes(),
                ),
                false,
                old(self).dict.indent,
                old(self).dict.settings,
                None,
                None,
            ),
            r.dict.buf.spec_limits() == old(self).dict.buf.spec_limits().with_name_len("URLS".spec_bytes().len() as int),
            final(self).dict.len == old(self).dict.len + 1,
            final(self).dict.indirect == old(self).dict.indirect,
            final(self).dict.indent == old(self).dict.indent,
            final(self).dict.settings == old(self).dict.settings,
            *final(self).dict.buf == *final(r.dict.buf),
            *final(final(self).dict.buf) == *final(old(self).dict.buf),
    {
        NameTree::start(self.dict.insert(Name("URLS".as_bytes())))
    }

    /// Start writing the `/EmbeddedFiles` attribute to name [embedded
    /// files](EmbeddedFile). PDF 1.4+.
    ///
    /// Note that this key is forbidden in PDF/A-1, and restricted in PDF/A-2
    /// and PDF/A-4.
    pub fn embedded_files(&mut self) -> (r: NameTree<'_, Ref>)
        requires
            0 <= old(self).dict.len < i32::MAX,
        ensures
            dict_started(
                r.dict,
                old(self).dict.buf@ + dict_key_bytes(
                    old(self).dict.settings.pretty,
                    old(self).dict.indent as int,
                    "EmbeddedFiles".spec_bytes(),
                ),
                false,
                old(self).dict.indent,
                old(self).dict.settings,
                None,
                None,
            ),
            r.dict.buf.spec_limits() == old(self).dict.buf.spec_limits().with_name_len("EmbeddedFiles".spec_bytes().len() as int),
            final(self).dict.len == old(self).dict.len + 1,
            final(self).dict.indirect == old(self).dict.indirect,
            final(self).dict.indent == old(self).dict.indent,
            final(self).dict.settings == old(self).dict.settings,
            *final(self).dict.buf == *final(r.dict.buf),
            *final(final(self).dict.buf) == *final(old(self).dict.buf),
    {
        NameTree::start(self.dict.insert(Name("EmbeddedFiles".as_bytes())))
    }

    /// Start writing the `/AlternatePresentations` attribute to name alternate
    /// presentations. PDF 1.4+.
    ///
    /// Note that this key is forbidden in PDF/A.
    pub fn alternate_presentations(&mut self) -> (r: NameTree<'_, Ref>)
        requires
            0 <= old(self).dict.len < i32::MAX,
        ensures
            dict_started(
                r.dict,
                old(self).dict.buf@ + dict_key_bytes(
                    old(self).dict.settings.pretty,
                    old(self).dict.indent as int,
                    "AlternatePresentations".spec_bytes(),
                ),
                false,
                old(self).dict.indent,
                old(self).dict.settings,
                None,
                None,
            ),
            r.dict.buf.spec_limits() == old(self).dict.buf.spec_limits().with_name_len("AlternatePresentations".spec_bytes().len() as int),
            final(self).dict.len == old(self).dict.len + 1,
            final(self).dict.indirect == old(self).dict.indirect,
            final(self).dict.indent == old(self).dict.indent,
            final(self).dict.settings == old(self).dict.settings,
            *final(self).dict.buf == *final(r.dict.buf),
            *final(final(self).dict.buf) == *final(old(self).dict.buf),
    {
        NameTree::start(self.dict.insert(Name("AlternatePresentations".as_bytes())))
    }

    /// Start writing the `/Renditions` attribute to name renditions. The names
    /// must conform to Unicode. PDF 1.5+.
    pub fn renditions(&mut self) -> (r: NameTree<'_, Ref>)
        requires
            0 <= old(self).dict.len < i32::MAX,
        ensures
            dict_started(
                r.dict,
                old(self).dict.buf@ + dict_key_bytes(
                    old(self).dict.settings.pretty,
                    old(self).dict.indent as int,
                    "Renditions".spec_bytes(),
                ),
                false,
                old(self).dict.indent,
                old(self).dict.settings,
                None,
                None,
            ),
            r.dict.buf.spec_limits() == old(self).dict.buf.spec_limits().with_name_len("Renditions".spec_bytes().len() as int),
            final(self).dict.len == old(self).dict.len + 1,
            final(self).dict.indirect == old(self).dict.indirect,
            final(self).dict.indent == old(self).dict.indent,
            final(self).dict.settings == old(self).dict.settings,
            *final(self).dict.buf == *final(r.dict.buf),
            *final(final(self).dict.buf) == *final(old(self).dict.buf),
    {
        NameTree::start(self.dict.insert(Name("Renditions".as_bytes())))
    }

    /// Finish writing the dictionary.
    pub fn finish(self)
        requires
            self.dict.len >= 0,
            self.dict.indent >= 2,
        ensures
            final(self.dict.buf)@ == old(self.dict.buf)@ + dict_close_bytes(
                self.dict.len as int,
                self.dict.settings.pretty,
                self.dict.indent as int,
                self.dict.indirect,
            ),
            final(self.dict.buf).spec_limits() == old(self.dict.buf).spec_limits().with_dict_entries(self.dict.len as int),
    {
        self.dict.finish();
    }
}

/// Writer for a _metadata stream_. PDF 1.4+.
///
/// This struct is created by [`Chunk::metadata`].
pub struct Metadata<'a> {
    /// The underlying stream.
    pub stream: Stream<'a>,
}

impl<'a> Metadata<'a> {
    /// Start writing the stream's dictionary entries.
    pub(crate) fn start(stream: Stream<'a>) -> (r: Self)
        requires
            0 <= stream.dict.len < i32::MAX - 2,
        ensures
            r.stream.dict.buf@ == old(stream.dict.buf)@ + type_entries_bytes(
                old(stream.dict.buf)@,
                stream.dict.settings.pretty,
                stream.dict.indent as int,
                Some("Metadata".spec_bytes()),
                Some("XML".spec_bytes()),
            ),
            r.stream.dict.len == stream.dict.len + 2,
            r.stream.dict.indirect == stream.dict.indirect,
            r.stream.dict.indent == stream.dict.indent,
            r.stream.dict.settings == stream.dict.settings,
            r.stream.data == stream.data,
            *final(r.stream.dict.buf) == *final(stream.dict.buf),
            r.stream.dict.buf.spec_limits() == dict_start_limits(
                old(stream.dict.buf).spec_limits(),
                Some("Metadata".spec_bytes()),
                Some("XML".spec_bytes()),
            ),
    {
        Self { stream: type_stream(stream, Some("Metadata"), Some("XML")) }
    }

    /// Finish the stream: close its dictionary, write its data and close the
    /// object.
    pub fn finish(self)
        requires
            self.stream.dict.len >= 0,
        ensures
            final(self.stream.dict.buf)@ == old(self.stream.dict.buf)@ + stream_close_bytes(
                self.stream.dict.settings.pretty,
                self.stream.data@,
            ),
            final(self.stream.dict.buf).spec_limits() == old(self.stream.dict.buf).spec_limits().with_dict_entries(self.stream.dict.len as int),
    {
        self.stream.finish();
    }
}


/// The names under which the values of [`PageLayout`] are written, as PDF
/// defines them.
pub proof fn lemma_page_layout_names()
    ensures
        PageLayout::SinglePage.spec_name() == "SinglePage".spec_bytes(),
        PageLayout::OneColumn.spec_name() == "OneColumn".spec_bytes(),
        PageLayout::TwoColumnLeft.spec_name() == "TwoColumnLeft".spec_bytes(),
        PageLayout::TwoColumnRight.spec_name() == "TwoColumnRight".spec_bytes(),
        PageLayout::TwoPageLeft.spec_name() == "TwoPageLeft".spec_bytes(),
        PageLayout::TwoPageRight.spec_name() == "TwoPageRight".spec_bytes(),
{
}

/// The names under which the values of [`PageMode`] are written, as PDF
/// defines them.
pub proof fn lemma_page_mode_names()
    ensures
        PageMode::UseNone.spec_name() == "UseNone".spec_bytes(),
        PageMode::UseOutlines.spec_name() == "UseOutlines".spec_bytes(),
        PageMode::UseThumbs.spec_name() == "UseThumbs".spec_bytes(),
        PageMode::FullScreen.spec_name() == "FullScreen".spec_bytes(),
        PageMode::UseOC.spec_name() == "UseOC".spec_bytes(),
        PageMode::UseAttachments.spec_name() == "UseAttachments".spec_bytes(),
{
}

/// The names under which the values of [`StructRole`] are written, as PDF
/// defines them.
pub proof fn lemma_struct_role_names()
    ensures
        StructRole::Document.spec_name() == "Document".spec_bytes(),
        StructRole::Part.spec_name() == "Part".spec_bytes(),
        StructRole::Art.spec_name() == "Art".spec_bytes(),
        StructRole::Sect.spec_name() == "Sect".spec_bytes(),
        StructRole::Div.spec_name() == "Div".spec_bytes(),
        StructRole::BlockQuote.spec_name() == "BlockQuote".spec_bytes(),
        StructRole::Caption.spec_name() == "Caption".spec_bytes(),
        StructRole::TOC.spec_name() == "TOC".spec_bytes(),
        StructRole::TOCI.spec_name() == "TOCI".spec_bytes(),
        StructRole::Index.spec_name() == "Index".spec_bytes(),
        StructRole::NonStruct.spec_name() == "NonStruct".spec_bytes(),
        StructRole::Private.spec_name() == "Private".spec_bytes(),
        StructRole::P.spec_name() == "P".spec_bytes(),
        StructRole::H1.spec_name() == "H1".spec_bytes(),
        StructRole::H2.spec_name() == "H2".spec_bytes(),
        StructRole::H3.spec_name() == "H3".spec_bytes(),
        StructRole::H4.spec_name() == "H4".spec_bytes(),
        StructRole::H5.spec_name() == "H5".spec_bytes(),
        StructRole::H6.spec_name() == "H6".spec_bytes(),
        StructRole::L.spec_name() == "L".spec_bytes(),
        StructRole::LI.spec_name() == "LI".spec_bytes(),
        StructRole::Lbl.spec_name() == "Lbl".spec_bytes(),
        StructRole::LBody.spec_name() == "LBody".spec_bytes(),
        StructRole::Table.spec_name() == "Table".spec_bytes(),
        StructRole::TR.spec_name() == "TR".spec_bytes(),
        StructRole::TH.spec_name() == "TH".spec_bytes(),
        StructRole::TD.spec_name() == "TD".spec_bytes(),
        StructRole::THead.spec_name() == "THead".spec_bytes(),
        StructRole::TBody.spec_name() == "TBody".spec_bytes(),
        StructRole::TFoot.spec_name() == "TFoot".spec_bytes(),
        StructRole::Span.spec_name() == "Span".spec_bytes(),
        StructRole::Quote.spec_name() == "Quote".spec_bytes(),
        StructRole::Note.spec_name() == "Note".spec_bytes(),
        StructRole::Reference.spec_name() == "Reference".spec_bytes(),
        StructRole::BibEntry.spec_name() == "BibEntry".spec_bytes(),
        StructRole::Code.spec_name() == "Code".spec_bytes(),
        StructRole::Link.spec_name() == "Link".spec_bytes(),
        StructRole::Annot.spec_name() == "Annot".spec_bytes(),
        StructRole::Ruby.spec_name() == "Ruby".spec_bytes(),
        StructRole::Warichu.spec_name() == "Warichu".spec_bytes(),
        StructRole::RB.spec_name() == "RB".spec_bytes(),
        StructRole::RT.spec_name() == "RT".spec_bytes(),
        StructRole::RP.spec_name() == "RP".spec_bytes(),
        StructRole::WT.spec_name() == "WT".spec_bytes(),
        StructRole::WP.spec_name() == "WP".spec_bytes(),
        StructRole::Figure.spec_name() == "Figure".spec_bytes(),
        StructRole::Formula.spec_name() == "Formula".spec_bytes(),
        StructRole::Form.spec_name() == "Form".spec_bytes(),
{
}

/// The names under which the values of [`PhoneticAlphabet`] are written, as PDF
/// defines them.
pub proof fn lemma_phonetic_alphabet_names()
    ensures
        PhoneticAlphabet::Ipa.spec_name() == "ipa".spec_bytes(),
        PhoneticAlphabet::XSampa.spec_name() == "x-sampa".spec_bytes(),
        PhoneticAlphabet::Pinyin.spec_name() == "zh-Latn-pinyin".spec_bytes(),
        PhoneticAlphabet::WadeGiles.spec_name() == "zh-Latn-wadegile".spec_bytes(),
{
}

/// The names under which the values of [`Direction`] are written, as PDF
/// defines them.
pub proof fn lemma_direction_names()
    ensures
        Direction::L2R.spec_name() == "L2R".spec_bytes(),
        Direction::R2L.spec_name() == "R2L".spec_bytes(),
{
}

/// The names under which the values of [`NumberingStyle`] are written, as PDF
/// defines them.
pub proof fn lemma_numbering_style_names()
    ensures
        NumberingStyle::Arabic.spec_name() == "D".spec_bytes(),
        NumberingStyle::LowerRoman.spec_name() == "r".spec_bytes(),
        NumberingStyle::UpperRoman.spec_name() == "R".spec_bytes(),
        NumberingStyle::LowerAlpha.spec_name() == "a".spec_bytes(),
        NumberingStyle::UpperAlpha.spec_name() == "A".spec_bytes(),
{
}

/// The names under which the values of [`TrappingStatus`] are written, as PDF
/// defines them.
pub proof fn lemma_trapping_status_names()
    ensures
        TrappingStatus::Trapped.spec_name() == "True".spec_bytes(),
        TrappingStatus::NotTrapped.spec_name() == "False".spec_bytes(),
        TrappingStatus::Unknown.spec_name() == "Unknown".spec_bytes(),
{
}

/// The names under which the values of [`TabOrder`] are written, as PDF
/// defines them.
pub proof fn lemma_tab_order_names()
    ensures
        TabOrder::RowOrder.spec_name() == "R".spec_bytes(),
        TabOrder::ColumnOrder.spec_name() == "C".spec_bytes(),
        TabOrder::StructureOrder.spec_name() == "S".spec_bytes(),
{
}


/// The names under which the PDF 2.0 structure roles are written, as PDF
/// defines them; a heading's name is `H` followed by its level in decimal.
pub proof fn lemma_struct_role_2_names(level: u16)
    ensures
        StructRole2::Document.spec_name() == "Document".spec_bytes(),
        StructRole2::DocumentFragment.spec_name() == "DocumentFragment".spec_bytes(),
        StructRole2::Part.spec_name() == "Part".spec_bytes(),
        StructRole2::Sect.spec_name() == "Sect".spec_bytes(),
        StructRole2::Div.spec_name() == "Div".spec_bytes(),
        StructRole2::Aside.spec_name() == "Aside".spec_bytes(),
        StructRole2::NonStruct.spec_name() == "NonStruct".spec_bytes(),
        StructRole2::P.spec_name() == "P".spec_bytes(),
        StructRole2::StructuredHeading.spec_name() == "H".spec_bytes(),
        StructRole2::Title.spec_name() == "Title".spec_bytes(),
        StructRole2::FENote.spec_name() == "FENote".spec_bytes(),
        StructRole2::Sub.spec_name() == "Sub".spec_bytes(),
        StructRole2::Lbl.spec_name() == "Lbl".spec_bytes(),
        StructRole2::Span.spec_name() == "Span".spec_bytes(),
        StructRole2::Em.spec_name() == "Em".spec_bytes(),
        StructRole2::Strong.spec_name() == "Strong".spec_bytes(),
        StructRole2::Link.spec_name() == "Link".spec_bytes(),
        StructRole2::Annot.spec_name() == "Annot".spec_bytes(),
        StructRole2::Form.spec_name() == "Form".spec_bytes(),
        StructRole2::Ruby.spec_name() == "Ruby".spec_bytes(),
        StructRole2::RB.spec_name() == "RB".spec_bytes(),
        StructRole2::RT.spec_name() == "RT".spec_bytes(),
        StructRole2::Warichu.spec_name() == "Warichu".spec_bytes(),
        StructRole2::WT.spec_name() == "WT".spec_bytes(),
        StructRole2::WP.spec_name() == "WP".spec_bytes(),
        StructRole2::L.spec_name() == "L".spec_bytes(),
        StructRole2::LI.spec_name() == "LI".spec_bytes(),
        StructRole2::LBody.spec_name() == "LBody".spec_bytes(),
        StructRole2::Table.spec_name() == "Table".spec_bytes(),
        StructRole2::TR.spec_name() == "TR".spec_bytes(),
        StructRole2::TH.spec_name() == "TH".spec_bytes(),
        StructRole2::TD.spec_name() == "TD".spec_bytes(),
        StructRole2::THead.spec_name() == "THead".spec_bytes(),
        StructRole2::TBody.spec_name() == "TBody".spec_bytes(),
        StructRole2::TFoot.spec_name() == "TFoot".spec_bytes(),
        StructRole2::Caption.spec_name() == "Caption".spec_bytes(),
        StructRole2::Figure.spec_name() == "Figure".spec_bytes(),
        StructRole2::Formula.spec_name() == "Formula".spec_bytes(),
        StructRole2::Artifact.spec_name() == "Artifact".spec_bytes(),
        StructRole2::Heading(level).spec_name() == "H".spec_bytes() + decimal_digits(level as nat),
{
}

} // verus!
