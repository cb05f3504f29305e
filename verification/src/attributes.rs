use vstd::prelude::*;
use vstd::string::*;

use crate::object::{
    dict_items_appended,
    Rect,
    Primitive,
    Real, all_writable, dict_items_entry_bytes, write_items_entry, dict_grown,
    Array, Dict, Name, Obj, Str, TextStr, TypedArray, array_separator, array_started, dict_close_bytes,
    dict_key_bytes, dict_name_pair_appended, dict_name_pair_bytes, dict_pair_appended, nested_indent,
};
use crate::chunk::Settings;

verus! {

/// Placement of an element. PDF 1.4+.
#[derive(Debug, Copy, Clone, Eq, PartialEq, Hash)]
pub enum Placement {
    /// Stacked in the block order.
    Block,
    /// Stacked in the inline order.
    Inline,
    /// Before edge coincides with that of reference area.
    Before,
    /// Start edge coincides with that of reference area.
    Start,
    /// End edge coincides with that of reference area.
    End,
}

impl Placement {
    /// The name under which the value is written.
    pub open spec fn spec_name(self) -> Seq<u8> {
        match self {
            Self::Block => "Block".spec_bytes(),
            Self::Inline => "Inline".spec_bytes(),
            Self::Before => "Before".spec_bytes(),
            Self::Start => "Start".spec_bytes(),
            Self::End => "End".spec_bytes(),
        }
    }

    pub(crate) fn to_name(self) -> (r: Name<'static>)
        ensures
            r.0@ == self.spec_name(),
    {
        match self {
            Self::Block => Name("Block".as_bytes()),
            Self::Inline => Name("Inline".as_bytes()),
            Self::Before => Name("Before".as_bytes()),
            Self::Start => Name("Start".as_bytes()),
            Self::End => Name("End".as_bytes()),
        }
    }
}

/// Writing direction. PDF 1.4+.
#[derive(Debug, Copy, Clone, Eq, PartialEq, Hash)]
pub enum WritingMode {
    /// Horizontal writing mode, left-to-right.
    HorizontalLeftToRight,
    /// Horizontal writing mode, right-to-left.
    HorizontalRightToLeft,
    /// Vertical writing mode, right-to-left.
    VerticalRightToLeft,
}

impl WritingMode {
    /// The name under which the value is written.
    pub open spec fn spec_name(self) -> Seq<u8> {
        match self {
            Self::HorizontalLeftToRight => "LrTb".spec_bytes(),
            Self::HorizontalRightToLeft => "RlTb".spec_bytes(),
            Self::VerticalRightToLeft => "TbRl".spec_bytes(),
        }
    }

    pub(crate) fn to_name(self) -> (r: Name<'static>)
        ensures
            r.0@ == self.spec_name(),
    {
        match self {
            Self::HorizontalLeftToRight => Name("LrTb".as_bytes()),
            Self::HorizontalRightToLeft => Name("RlTb".as_bytes()),
            Self::VerticalRightToLeft => Name("TbRl".as_bytes()),
        }
    }
}

/// Layout border style. PDF 1.4+.
#[derive(Debug, Copy, Clone, Eq, PartialEq, Hash)]
pub enum LayoutBorderStyle {
    /// No border.
    NoBorder,
    /// Hidden border.
    Hidden,
    /// Solid border.
    Solid,
    /// Dashed border.
    Dashed,
    /// Dotted border.
    Dotted,
    /// Double border.
    Double,
    /// Groove border.
    Groove,
    /// Ridge border.
    Ridge,
    /// Inset border.
    Inset,
    /// Outset border.
    Outset,
}

impl LayoutBorderStyle {
    /// The name under which the value is written.
    pub open spec fn spec_name(self) -> Seq<u8> {
        match self {
            Self::NoBorder => "None".spec_bytes(),
            Self::Hidden => "Hidden".spec_bytes(),
            Self::Solid => "Solid".spec_bytes(),
            Self::Dashed => "Dashed".spec_bytes(),
            Self::Dotted => "Dotted".spec_bytes(),
            Self::Double => "Double".spec_bytes(),
            Self::Groove => "Groove".spec_bytes(),
            Self::Ridge => "Ridge".spec_bytes(),
            Self::Inset => "Inset".spec_bytes(),
            Self::Outset => "Outset".spec_bytes(),
        }
    }

    pub(crate) fn to_name(self) -> (r: Name<'static>)
        ensures
            r.0@ == self.spec_name(),
    {
        match self {
            Self::NoBorder => Name("None".as_bytes()),
            Self::Hidden => Name("Hidden".as_bytes()),
            Self::Solid => Name("Solid".as_bytes()),
            Self::Dashed => Name("Dashed".as_bytes()),
            Self::Dotted => Name("Dotted".as_bytes()),
            Self::Double => Name("Double".as_bytes()),
            Self::Groove => Name("Groove".as_bytes()),
            Self::Ridge => Name("Ridge".as_bytes()),
            Self::Inset => Name("Inset".as_bytes()),
            Self::Outset => Name("Outset".as_bytes()),
        }
    }
}

/// The text alignment.
#[derive(Debug, Copy, Clone, Eq, PartialEq, Hash)]
pub enum TextAlign {
    /// At the start of the inline advance direction.
    Start,
    /// Centered.
    Center,
    /// At the end of the inline advance direction.
    End,
    /// Justified.
    Justify,
}

impl TextAlign {
    /// The name under which the value is written.
    pub open spec fn spec_name(self) -> Seq<u8> {
        match self {
            Self::Start => "Start".spec_bytes(),
            Self::Center => "Center".spec_bytes(),
            Self::End => "End".spec_bytes(),
            Self::Justify => "Justify".spec_bytes(),
        }
    }

    pub(crate) fn to_name(self) -> (r: Name<'static>)
        ensures
            r.0@ == self.spec_name(),
    {
        match self {
            Self::Start => Name("Start".as_bytes()),
            Self::Center => Name("Center".as_bytes()),
            Self::End => Name("End".as_bytes()),
            Self::Justify => Name("Justify".as_bytes()),
        }
    }
}

/// The block alignment.
#[derive(Debug, Copy, Clone, Eq, PartialEq, Hash)]
pub enum BlockAlign {
    /// At the start of the block advance direction.
    Begin,
    /// Centered.
    Middle,
    /// At the end of the block advance direction.
    After,
    /// Justified.
    Justify,
}

impl BlockAlign {
    /// The name under which the value is written.
    pub open spec fn spec_name(self) -> Seq<u8> {
        match self {
            Self::Begin => "Begin".spec_bytes(),
            Self::Middle => "Middle".spec_bytes(),
            Self::After => "After".spec_bytes(),
            Self::Justify => "Justify".spec_bytes(),
        }
    }

    pub(crate) fn to_name(self) -> (r: Name<'static>)
        ensures
            r.0@ == self.spec_name(),
    {
        match self {
            Self::Begin => Name("Begin".as_bytes()),
            Self::Middle => Name("Middle".as_bytes()),
            Self::After => Name("After".as_bytes()),
            Self::Justify => Name("Justify".as_bytes()),
        }
    }
}

/// The inline alignment.
#[derive(Debug, Copy, Clone, Eq, PartialEq, Hash)]
pub enum InlineAlign {
    /// At the start of the inline advance direction.
    Start,
    /// Centered.
    Center,
    /// At the end of the inline advance direction.
    End,
}

impl InlineAlign {
    /// The name under which the value is written.
    pub open spec fn spec_name(self) -> Seq<u8> {
        match self {
            Self::Start => "Start".spec_bytes(),
            Self::Center => "Center".spec_bytes(),
            Self::End => "End".spec_bytes(),
        }
    }

    pub(crate) fn to_name(self) -> (r: Name<'static>)
        ensures
            r.0@ == self.spec_name(),
    {
        match self {
            Self::Start => Name("Start".as_bytes()),
            Self::Center => Name("Center".as_bytes()),
            Self::End => Name("End".as_bytes()),
        }
    }
}

/// The text decoration type (over- and underlines).
#[derive(Debug, Copy, Clone, Eq, PartialEq, Hash)]
pub enum TextDecorationType {
    /// No decoration.
    NoDecoration,
    /// Underlined.
    Underline,
    /// Line over the text.
    Overline,
    /// Strike the text.
    LineThrough,
}

impl TextDecorationType {
    /// The name under which the value is written.
    pub open spec fn spec_name(self) -> Seq<u8> {
        match self {
            Self::NoDecoration => "None".spec_bytes(),
            Self::Underline => "Underline".spec_bytes(),
            Self::Overline => "Overline".spec_bytes(),
            Self::LineThrough => "LineThrough".spec_bytes(),
        }
    }

    pub(crate) fn to_name(self) -> (r: Name<'static>)
        ensures
            r.0@ == self.spec_name(),
    {
        match self {
            Self::NoDecoration => Name("None".as_bytes()),
            Self::Underline => Name("Underline".as_bytes()),
            Self::Overline => Name("Overline".as_bytes()),
            Self::LineThrough => Name("LineThrough".as_bytes()),
        }
    }
}

/// The alignment of a ruby annotation.
#[derive(Debug, Copy, Clone, Eq, PartialEq, Hash)]
pub enum RubyAlign {
    /// At the start of the inline advance direction.
    Start,
    /// Centered.
    Center,
    /// At the end of the inline advance direction.
    End,
    /// Justified.
    Justify,
    /// Distribute along the full width of the line with additional space.
    Distribute,
}

impl RubyAlign {
    /// The name under which the value is written.
    pub open spec fn spec_name(self) -> Seq<u8> {
        match self {
            Self::Start => "Start".spec_bytes(),
            Self::Center => "Center".spec_bytes(),
            Self::End => "End".spec_bytes(),
            Self::Justify => "Justify".spec_bytes(),
            Self::Distribute => "Distribute".spec_bytes(),
        }
    }

    pub(crate) fn to_name(self) -> (r: Name<'static>)
        ensures
            r.0@ == self.spec_name(),
    {
        match self {
            Self::Start => Name("Start".as_bytes()),
            Self::Center => Name("Center".as_bytes()),
            Self::End => Name("End".as_bytes()),
            Self::Justify => Name("Justify".as_bytes()),
            Self::Distribute => Name("Distribute".as_bytes()),
        }
    }
}

/// The position of a ruby annotation.
#[derive(Debug, Copy, Clone, Eq, PartialEq, Hash)]
pub enum RubyPosition {
    /// Before edge of the element.
    Before,
    /// After edge of the element.
    After,
    /// Render as a Warichu.
    Warichu,
    /// Render in-line.
    Inline,
}

impl RubyPosition {
    /// The name under which the value is written.
    pub open spec fn spec_name(self) -> Seq<u8> {
        match self {
            Self::Before => "Before".spec_bytes(),
            Self::After => "After".spec_bytes(),
            Self::Warichu => "Warichu".spec_bytes(),
            Self::Inline => "Inline".spec_bytes(),
        }
    }

    pub(crate) fn to_name(self) -> (r: Name<'static>)
        ensures
            r.0@ == self.spec_name(),
    {
        match self {
            Self::Before => Name("Before".as_bytes()),
            Self::After => Name("After".as_bytes()),
            Self::Warichu => Name("Warichu".as_bytes()),
            Self::Inline => Name("Inline".as_bytes()),
        }
    }
}

/// The list numbering type.
#[derive(Debug, Copy, Clone, Eq, PartialEq, Hash)]
pub enum ListNumbering {
    /// No numbering.
    NoNumbering,
    /// Solid circular bullets.
    Disc,
    /// Open circular bullets.
    Circle,
    /// Solid square bullets.
    Square,
    /// Decimal numbers.
    Decimal,
    /// Lowercase Roman numerals.
    LowerRoman,
    /// Uppercase Roman numerals.
    UpperRoman,
    /// Lowercase letters.
    LowerAlpha,
    /// Uppercase letters.
    UpperAlpha,
}

impl ListNumbering {
    /// The name under which the value is written.
    pub open spec fn spec_name(self) -> Seq<u8> {
        match self {
            Self::NoNumbering => "None".spec_bytes(),
            Self::Disc => "Disc".spec_bytes(),
            Self::Circle => "Circle".spec_bytes(),
            Self::Square => "Square".spec_bytes(),
            Self::Decimal => "Decimal".spec_bytes(),
            Self::LowerRoman => "LowerRoman".spec_bytes(),
            Self::UpperRoman => "UpperRoman".spec_bytes(),
            Self::LowerAlpha => "LowerAlpha".spec_bytes(),
            Self::UpperAlpha => "UpperAlpha".spec_bytes(),
        }
    }

    pub(crate) fn to_name(self) -> (r: Name<'static>)
        ensures
            r.0@ == self.spec_name(),
    {
        match self {
            Self::NoNumbering => Name("None".as_bytes()),
            Self::Disc => Name("Disc".as_bytes()),
            Self::Circle => Name("Circle".as_bytes()),
            Self::Square => Name("Square".as_bytes()),
            Self::Decimal => Name("Decimal".as_bytes()),
            Self::LowerRoman => Name("LowerRoman".as_bytes()),
            Self::UpperRoman => Name("UpperRoman".as_bytes()),
            Self::LowerAlpha => Name("LowerAlpha".as_bytes()),
            Self::UpperAlpha => Name("UpperAlpha".as_bytes()),
        }
    }
}

/// The kind of form control.
#[derive(Debug, Copy, Clone, Eq, PartialEq, Hash)]
pub enum FieldRole {
    /// A button.
    Button,
    /// A checkbox.
    CheckBox,
    /// A radio button.
    RadioButton,
    /// A text field.
    TextField,
}

impl FieldRole {
    /// The name under which the value is written.
    pub open spec fn spec_name(self) -> Seq<u8> {
        match self {
            Self::Button => "pb".spec_bytes(),
            Self::CheckBox => "cb".spec_bytes(),
            Self::RadioButton => "rb".spec_bytes(),
            Self::TextField => "tv".spec_bytes(),
        }
    }

    pub(crate) fn to_name(self) -> (r: Name<'static>)
        ensures
            r.0@ == self.spec_name(),
    {
        match self {
            Self::Button => Name("pb".as_bytes()),
            Self::CheckBox => Name("cb".as_bytes()),
            Self::RadioButton => Name("rb".as_bytes()),
            Self::TextField => Name("tv".as_bytes()),
        }
    }
}

/// The checked state of a check box or radio button.
#[derive(Debug, Copy, Clone, Eq, PartialEq, Hash)]
pub enum FieldCheckState {
    /// The check box or radio button is unchecked.
    Unchecked,
    /// The check box or radio button is checked.
    Checked,
    /// The check box or radio button is in a quantum superstate.
    Neutral,
}

impl FieldCheckState {
    /// The name under which the value is written.
    pub open spec fn spec_name(self) -> Seq<u8> {
        match self {
            Self::Unchecked => "off".spec_bytes(),
            Self::Checked => "on".spec_bytes(),
            Self::Neutral => "neutral".spec_bytes(),
        }
    }

    pub(crate) fn to_name(self) -> (r: Name<'static>)
        ensures
            r.0@ == self.spec_name(),
    {
        match self {
            Self::Unchecked => Name("off".as_bytes()),
            Self::Checked => Name("on".as_bytes()),
            Self::Neutral => Name("neutral".as_bytes()),
        }
    }
}

/// The scope of a table header cell.
#[derive(Debug, Copy, Clone, Eq, PartialEq, Hash)]
pub enum TableHeadingScope {
    /// The header cell refers to the row.
    Row,
    /// The header cell refers to the column.
    Column,
    /// The header cell refers to both the row and the column.
    Both,
}

impl TableHeadingScope {
    /// The name under which the value is written.
    pub open spec fn spec_name(self) -> Seq<u8> {
        match self {
            Self::Row => "Row".spec_bytes(),
            Self::Column => "Column".spec_bytes(),
            Self::Both => "Both".spec_bytes(),
        }
    }

    pub(crate) fn to_name(self) -> (r: Name<'static>)
        ensures
            r.0@ == self.spec_name(),
    {
        match self {
            Self::Row => Name("Row".as_bytes()),
            Self::Column => Name("Column".as_bytes()),
            Self::Both => Name("Both".as_bytes()),
        }
    }
}

/// Owner of the attribute dictionary. PDF 1.4+.
#[derive(Debug, Copy, Clone, Eq, PartialEq, Hash)]
pub enum AttributeOwner {
    /// General layout attributes.
    Layout,
    /// List attributes.
    List,
    /// Attributes governing the print out behavior of form fields. PDF 1.7+.
    PrintField,
    /// Table attributes.
    Table,
    /// Hints for conversion to XML 1.0.
    Xml,
    /// Hints for conversion to HTML 3.2.
    Html3_2,
    /// Hints for conversion to HTML 4.01.
    Html4,
    /// Hints for conversion to OEB 1.0.
    Oeb,
    /// Hints for conversion to RTF 1.05.
    Rtf1_05,
    /// Hints for conversion to CSS 1.
    Css1,
    /// Hints for conversion to CSS 2.
    Css2,
    /// User-defined attributes. Requires to set the `/UserProperties` attribute
    /// of the [`MarkInfo`] dictionary to true. PDF 1.6+
    User,
}

impl AttributeOwner {
    /// The name under which the value is written.
    pub open spec fn spec_name(self) -> Seq<u8> {
        match self {
            Self::Layout => "Layout".spec_bytes(),
            Self::List => "List".spec_bytes(),
            Self::PrintField => "PrintField".spec_bytes(),
            Self::Table => "Table".spec_bytes(),
            Self::Xml => "XML-1.00".spec_bytes(),
            Self::Html3_2 => "HTML-3.20".spec_bytes(),
            Self::Html4 => "HTML-4.01".spec_bytes(),
            Self::Oeb => "OEB-1.00".spec_bytes(),
            Self::Rtf1_05 => "RTF-1.05".spec_bytes(),
            Self::Css1 => "CSS-1.00".spec_bytes(),
            Self::Css2 => "CSS-2.00".spec_bytes(),
            Self::User => "UserDefined".spec_bytes(),
        }
    }

    pub(crate) fn to_name(self) -> (r: Name<'static>)
        ensures
            r.0@ == self.spec_name(),
    {
        match self {
            Self::Layout => Name("Layout".as_bytes()),
            Self::List => Name("List".as_bytes()),
            Self::PrintField => Name("PrintField".as_bytes()),
            Self::Table => Name("Table".as_bytes()),
            Self::Xml => Name("XML-1.00".as_bytes()),
            Self::Html3_2 => Name("HTML-3.20".as_bytes()),
            Self::Html4 => Name("HTML-4.01".as_bytes()),
            Self::Oeb => Name("OEB-1.00".as_bytes()),
            Self::Rtf1_05 => Name("RTF-1.05".as_bytes()),
            Self::Css1 => Name("CSS-1.00".as_bytes()),
            Self::Css2 => Name("CSS-2.00".as_bytes()),
            Self::User => Name("UserDefined".as_bytes()),
        }
    }
}

/// Attributes with real-number values.
impl LayoutAttributes<'_> {
    /// Write the `/BackgroundColor` attribute to set the background color in
    /// RGB between `0` and `1`. PDF 1.5+
    pub fn background_color(&mut self, color: [Real; 3]) -> (r: &mut Self)
        requires
            0 <= old(self).dict.len < i32::MAX,
            all_writable(color@),
        ensures
            dict_items_appended(old(self).dict, r.dict, "BackgroundColor".spec_bytes(), color@),
            *final(r.dict.buf) == *final(old(self).dict.buf),
            *final(self) == *final(r),
    {
        write_items_entry(&mut self.dict, Name("BackgroundColor".as_bytes()), color.as_slice());
        self
    }

    /// Write the `/BorderColor` attribute.
    pub fn border_color(&mut self, color: [Real; 3]) -> (r: &mut Self)
        requires
            0 <= old(self).dict.len < i32::MAX,
            all_writable(color@),
        ensures
            dict_items_appended(old(self).dict, r.dict, "BorderColor".spec_bytes(), color@),
            *final(r.dict.buf) == *final(old(self).dict.buf),
            *final(self) == *final(r),
    {
        write_items_entry(&mut self.dict, Name("BorderColor".as_bytes()), color.as_slice());
        self
    }

    /// Write the `/BorderThickness` attribute.
    pub fn border_thickness(&mut self, thickness: Real) -> (r: &mut Self)
        requires
            0 <= old(self).dict.len < i32::MAX,
            thickness.spec_writable(),
        ensures
            dict_pair_appended(old(self).dict, r.dict, "BorderThickness".spec_bytes(), thickness),
            *final(r.dict.buf) == *final(old(self).dict.buf),
            *final(self) == *final(r),
    {
        self.dict.pair(Name("BorderThickness".as_bytes()), thickness);
        self
    }

    /// Write the `/Color` attribute.
    pub fn color(&mut self, color: [Real; 3]) -> (r: &mut Self)
        requires
            0 <= old(self).dict.len < i32::MAX,
            all_writable(color@),
        ensures
            dict_items_appended(old(self).dict, r.dict, "Color".spec_bytes(), color@),
            *final(r.dict.buf) == *final(old(self).dict.buf),
            *final(self) == *final(r),
    {
        write_items_entry(&mut self.dict, Name("Color".as_bytes()), color.as_slice());
        self
    }

    /// Write the `/SpaceBefore` attribute.
    pub fn space_before(&mut self, space: Real) -> (r: &mut Self)
        requires
            0 <= old(self).dict.len < i32::MAX,
            space.spec_writable(),
        ensures
            dict_pair_appended(old(self).dict, r.dict, "SpaceBefore".spec_bytes(), space),
            *final(r.dict.buf) == *final(old(self).dict.buf),
            *final(self) == *final(r),
    {
        self.dict.pair(Name("SpaceBefore".as_bytes()), space);
        self
    }

    /// Write the `/SpaceAfter` attribute.
    pub fn space_after(&mut self, space: Real) -> (r: &mut Self)
        requires
            0 <= old(self).dict.len < i32::MAX,
            space.spec_writable(),
        ensures
            dict_pair_appended(old(self).dict, r.dict, "SpaceAfter".spec_bytes(), space),
            *final(r.dict.buf) == *final(old(self).dict.buf),
            *final(self) == *final(r),
    {
        self.dict.pair(Name("SpaceAfter".as_bytes()), space);
        self
    }

    /// Write the `/StartIndent` attribute.
    pub fn start_indent(&mut self, indent: Real) -> (r: &mut Self)
        requires
            0 <= old(self).dict.len < i32::MAX,
            indent.spec_writable(),
        ensures
            dict_pair_appended(old(self).dict, r.dict, "StartIndent".spec_bytes(), indent),
            *final(r.dict.buf) == *final(old(self).dict.buf),
            *final(self) == *final(r),
    {
        self.dict.pair(Name("StartIndent".as_bytes()), indent);
        self
    }

    /// Write the `/EndIndent` attribute.
    pub fn end_indent(&mut self, indent: Real) -> (r: &mut Self)
        requires
            0 <= old(self).dict.len < i32::MAX,
            indent.spec_writable(),
        ensures
            dict_pair_appended(old(self).dict, r.dict, "EndIndent".spec_bytes(), indent),
            *final(r.dict.buf) == *final(old(self).dict.buf),
            *final(self) == *final(r),
    {
        self.dict.pair(Name("EndIndent".as_bytes()), indent);
        self
    }

    /// Write the `/TextIndent` attribute.
    pub fn text_indent(&mut self, indent: Real) -> (r: &mut Self)
        requires
            0 <= old(self).dict.len < i32::MAX,
            indent.spec_writable(),
        ensures
            dict_pair_appended(old(self).dict, r.dict, "TextIndent".spec_bytes(), indent),
            *final(r.dict.buf) == *final(old(self).dict.buf),
            *final(self) == *final(r),
    {
        self.dict.pair(Name("TextIndent".as_bytes()), indent);
        self
    }

    /// Write the `/Width` attribute for table row groups and illustrative
    /// elements. No instrinsic height will be assumed if left empty.
    pub fn width(&mut self, width: Real) -> (r: &mut Self)
        requires
            0 <= old(self).dict.len < i32::MAX,
            width.spec_writable(),
        ensures
            dict_pair_appended(old(self).dict, r.dict, "Width".spec_bytes(), width),
            *final(r.dict.buf) == *final(old(self).dict.buf),
            *final(self) == *final(r),
    {
        self.dict.pair(Name("Width".as_bytes()), width);
        self
    }

    /// Write the `/LineHeight` attribute.
    pub fn line_height(&mut self, height: Real) -> (r: &mut Self)
        requires
            0 <= old(self).dict.len < i32::MAX,
            height.spec_writable(),
        ensures
            dict_pair_appended(old(self).dict, r.dict, "LineHeight".spec_bytes(), height),
            *final(r.dict.buf) == *final(old(self).dict.buf),
            *final(self) == *final(r),
    {
        self.dict.pair(Name("LineHeight".as_bytes()), height);
        self
    }

    /// Write the `/BaselineShift` attribute.
    pub fn baseline_shift(&mut self, shift: Real) -> (r: &mut Self)
        requires
            0 <= old(self).dict.len < i32::MAX,
            shift.spec_writable(),
        ensures
            dict_pair_appended(old(self).dict, r.dict, "BaselineShift".spec_bytes(), shift),
            *final(r.dict.buf) == *final(old(self).dict.buf),
            *final(self) == *final(r),
    {
        self.dict.pair(Name("BaselineShift".as_bytes()), shift);
        self
    }

    /// Write the `/TextDecorationColor` attribute in RGB. PDF 1.5+.
    pub fn text_decoration_color(&mut self, color: [Real; 3]) -> (r: &mut Self)
        requires
            0 <= old(self).dict.len < i32::MAX,
            all_writable(color@),
        ensures
            dict_items_appended(old(self).dict, r.dict, "TextDecorationColor".spec_bytes(), color@),
            *final(r.dict.buf) == *final(old(self).dict.buf),
            *final(self) == *final(r),
    {
        write_items_entry(&mut self.dict, Name("TextDecorationColor".as_bytes()), color.as_slice());
        self
    }

    /// Start writing the `/ColumnWidths` array. The last number in the array is
    /// used for all extra columns. PDF 1.6+.
    pub fn column_widths(&mut self) -> (r: TypedArray<'_, Real<'_>>)
        requires
            0 <= old(self).dict.len < i32::MAX,
        ensures
            array_started(
                r.array,
                old(self).dict.buf@ + dict_key_bytes(
                    old(self).dict.settings.pretty,
                    old(self).dict.indent as int,
                    "ColumnWidths".spec_bytes(),
                ),
                false,
                old(self).dict.indent,
                old(self).dict.settings,
            ),
            final(self).dict.len == old(self).dict.len + 1,
            final(self).dict.indirect == old(self).dict.indirect,
            final(self).dict.indent == old(self).dict.indent,
            final(self).dict.settings == old(self).dict.settings,
            *final(self).dict.buf == *final(r.array.buf),
            *final(final(self).dict.buf) == *final(old(self).dict.buf),
            r.array.buf.spec_limits() == old(self).dict.buf.spec_limits().with_name_len("ColumnWidths".spec_bytes().len() as int),
    {
        self.dict.insert(Name("ColumnWidths".as_bytes())).array().typed()
    }
}

/// Attributes with real-number values.
impl LayoutAttributes<'_> {
    /// Write the `/Padding` attribute.
    pub fn padding(&mut self, padding: [Real; 4]) -> (r: &mut Self)
        requires
            0 <= old(self).dict.len < i32::MAX,
            all_writable(padding@),
        ensures
            dict_items_appended(old(self).dict, r.dict, "Padding".spec_bytes(), padding@),
            *final(r.dict.buf) == *final(old(self).dict.buf),
            *final(self) == *final(r),
    {
        write_items_entry(&mut self.dict, Name("Padding".as_bytes()), padding.as_slice());
        self
    }

    /// Write the `/Height` attribute for table row groups and illustrative
    /// elements. No instrinsic height will be assumed if left empty.
    pub fn height(&mut self, height: Real) -> (r: &mut Self)
        requires
            0 <= old(self).dict.len < i32::MAX,
            height.spec_writable(),
        ensures
            dict_pair_appended(old(self).dict, r.dict, "Height".spec_bytes(), height),
            *final(r.dict.buf) == *final(old(self).dict.buf),
            *final(self) == *final(r),
    {
        self.dict.pair(Name("Height".as_bytes()), height);
        self
    }

    /// Write the `/BBox` attribute.
    pub fn bbox(&mut self, bbox: Rect) -> (r: &mut Self)
        requires
            0 <= old(self).dict.len < i32::MAX,
            bbox.spec_writable(),
        ensures
            dict_pair_appended(old(self).dict, r.dict, "BBox".spec_bytes(), bbox),
            *final(r.dict.buf) == *final(old(self).dict.buf),
            *final(self) == *final(r),
    {
        self.dict.pair(Name("BBox".as_bytes()), bbox);
        self
    }

    /// Write the `/TPadding` attribute. PDF 1.5+.
    pub fn table_padding(&mut self, padding: [Real; 4]) -> (r: &mut Self)
        requires
            0 <= old(self).dict.len < i32::MAX,
            all_writable(padding@),
        ensures
            dict_items_appended(old(self).dict, r.dict, "TPadding".spec_bytes(), padding@),
            *final(r.dict.buf) == *final(old(self).dict.buf),
            *final(self) == *final(r),
    {
        write_items_entry(&mut self.dict, Name("TPadding".as_bytes()), padding.as_slice());
        self
    }

    /// Write the `/TextDecorationThickness` attribute. PDF 1.5+.
    pub fn text_decoration_thickness(&mut self, thickness: Real) -> (r: &mut Self)
        requires
            0 <= old(self).dict.len < i32::MAX,
            thickness.spec_writable(),
        ensures
            dict_pair_appended(old(self).dict, r.dict, "TextDecorationThickness".spec_bytes(), thickness),
            *final(r.dict.buf) == *final(old(self).dict.buf),
            *final(self) == *final(r),
    {
        self.dict.pair(Name("TextDecorationThickness".as_bytes()), thickness);
        self
    }

    /// Start writing the `/ColumnGap` array. The last number in the array is used
    /// for all extra columns. PDF 1.6+.
    pub fn column_gap(&mut self) -> (r: TypedArray<'_, Real<'_>>)
        requires
            0 <= old(self).dict.len < i32::MAX,
        ensures
            array_started(
                r.array,
                old(self).dict.buf@ + dict_key_bytes(
                    old(self).dict.settings.pretty,
                    old(self).dict.indent as int,
                    "ColumnGap".spec_bytes(),
                ),
                false,
                old(self).dict.indent,
                old(self).dict.settings,
            ),
            final(self).dict.len == old(self).dict.len + 1,
            final(self).dict.indirect == old(self).dict.indirect,
            final(self).dict.indent == old(self).dict.indent,
            final(self).dict.settings == old(self).dict.settings,
            *final(self).dict.buf == *final(r.array.buf),
            *final(final(self).dict.buf) == *final(old(self).dict.buf),
            r.array.buf.spec_limits() == old(self).dict.buf.spec_limits().with_name_len("ColumnGap".spec_bytes().len() as int),
    {
        self.dict.insert(Name("ColumnGap".as_bytes())).array().typed()
    }

    /// Write the `/GlyphOrientationVertical` attribute as an angle between 0 and 360. PDF 1.5+.
    pub fn glyph_orientation_vertical(&mut self, angle: Real) -> (r: &mut Self)
        requires
            0 <= old(self).dict.len < i32::MAX,
            angle.spec_writable(),
        ensures
            dict_pair_appended(old(self).dict, r.dict, "GlyphOrientationVertical".spec_bytes(), angle),
            *final(r.dict.buf) == *final(old(self).dict.buf),
            *final(self) == *final(r),
    {
        self.dict.pair(Name("GlyphOrientationVertical".as_bytes()), angle);
        self
    }
}

// ---------------------------------------------------------------------------
// Writers.
// ---------------------------------------------------------------------------

/// `dict` is a dictionary just opened after `before` whose only entry so far
/// is `/O` with the owner `owner`.
pub open spec fn owner_dict_started(
    dict: Dict,
    before: Seq<u8>,
    indirect: bool,
    obj_indent: u8,
    settings: Settings,
    owner: Seq<u8>,
) -> bool {
    let open = before + "<<".spec_bytes();
    &&& dict.buf@ == open + dict_name_pair_bytes(
        open,
        settings.pretty,
        nested_indent(obj_indent) as int,
        "O".spec_bytes(),
        owner,
    )
    &&& dict.len == 1
    &&& dict.indirect == indirect
    &&& dict.indent == nested_indent(obj_indent)
    &&& dict.settings == settings
}

/// Open a dictionary on an object and write its owner.
fn owner_dict<'a>(obj: Obj<'a>, owner: AttributeOwner) -> (r: Dict<'a>)
    ensures
        owner_dict_started(
            r,
            old(obj.buf)@,
            obj.indirect,
            obj.indent,
            obj.settings,
            owner.spec_name(),
        ),
        *final(r.buf) == *final(obj.buf),
{
    let mut dict = obj.dict();
    dict.pair(Name("O".as_bytes()), owner.to_name());
    dict
}

/// Writer for an _attribute array_. PDF 1.4+
///
/// This struct is created by [`StructElement::attributes`](crate::writers::StructElement::attributes).
pub struct AttributeArray<'a> {
    /// The array being written.
    pub array: Array<'a>,
}

impl<'a> AttributeArray<'a> {
    /// Start writing the array on an object.
    pub(crate) fn start(obj: Obj<'a>) -> (r: Self)
        ensures
            array_started(r.array, old(obj.buf)@, obj.indirect, obj.indent, obj.settings),
            *final(r.array.buf) == *final(obj.buf),
            r.array.buf.spec_limits() == old(obj.buf).spec_limits(),
    {
        Self { array: obj.array() }
    }

    /// Start writing an attribute dictionary.
    pub fn attributes(&mut self) -> (r: Attributes<'_>)
        requires
            0 <= old(self).array.len < i32::MAX,
        ensures
            r.obj.buf@ == old(self).array.buf@ + array_separator(
                old(self).array.len as int,
                old(self).array.settings.pretty,
            ),
            r.obj.needs_padding == (old(self).array.len != 0 && !old(self).array.settings.pretty),
            r.obj.indirect == false,
            r.obj.indent == old(self).array.indent,
            r.obj.settings == old(self).array.settings,
            final(self).array.len == old(self).array.len + 1,
            final(self).array.indirect == old(self).array.indirect,
            final(self).array.indent == old(self).array.indent,
            final(self).array.settings == old(self).array.settings,
            *final(self).array.buf == *final(r.obj.buf),
            *final(final(self).array.buf) == *final(old(self).array.buf),
    {
        Attributes::start(self.array.push())
    }

    /// Finish the array.
    pub fn finish(self)
        requires
            self.array.len >= 0,
        ensures
            final(self.array.buf)@ == old(self.array.buf)@ + seq![crate::object::RBRACKET]
                + crate::object::obj_end(self.array.indirect, self.array.settings.pretty),
            final(self.array.buf).spec_limits() == old(self.array.buf).spec_limits().with_array_len(self.array.len as int),
    {
        self.array.finish();
    }
}

impl<'a, 'b> TypedArray<'a, Attributes<'b>> {
    /// Start writing an attribute dictionary as the next item.
    pub fn push(&mut self) -> (r: Attributes<'_>)
        requires
            0 <= old(self).array.len < i32::MAX,
        ensures
            r.obj.buf@ == old(self).array.buf@ + array_separator(
                old(self).array.len as int,
                old(self).array.settings.pretty,
            ),
            r.obj.needs_padding == (old(self).array.len != 0 && !old(self).array.settings.pretty),
            r.obj.indirect == false,
            r.obj.indent == old(self).array.indent,
            r.obj.settings == old(self).array.settings,
            final(self).array.len == old(self).array.len + 1,
            final(self).array.indirect == old(self).array.indirect,
            final(self).array.indent == old(self).array.indent,
            final(self).array.settings == old(self).array.settings,
            *final(self).array.buf == *final(r.obj.buf),
            *final(final(self).array.buf) == *final(old(self).array.buf),
    {
        Attributes::start(self.array.push())
    }
}

/// Writer for an _attribute dictionary_. PDF 1.4+
///
/// This struct is created by [`AttributeArray::attributes`]. Each of its
/// methods writes the `/O` attribute and consumes the writer.
pub struct Attributes<'a> {
    /// The object the dictionary is written to.
    pub obj: Obj<'a>,
}

impl<'a> Attributes<'a> {
    /// Start writing the attributes on an object.
    pub(crate) fn start(obj: Obj<'a>) -> (r: Self)
        ensures
            r.obj == obj,
    {
        Self { obj }
    }

    /// Set the `/O` attribute to user-defined and start writing the `/P` array
    /// with user properties. PDF 1.6+
    pub fn user_properties(self) -> (r: PropertyAttributes<'a>)
        ensures
            owner_dict_started(
                r.dict,
                old(self.obj.buf)@,
                self.obj.indirect,
                self.obj.indent,
                self.obj.settings,
                AttributeOwner::User.spec_name(),
            ),
            *final(r.dict.buf) == *final(self.obj.buf),
    {
        PropertyAttributes::start(self.obj)
    }

    /// Set the `/O` attribute to `Layout` to write layout parameters.
    pub fn layout(self) -> (r: LayoutAttributes<'a>)
        ensures
            owner_dict_started(
                r.dict,
                old(self.obj.buf)@,
                self.obj.indirect,
                self.obj.indent,
                self.obj.settings,
                AttributeOwner::Layout.spec_name(),
            ),
            *final(r.dict.buf) == *final(self.obj.buf),
    {
        LayoutAttributes::start(self.obj)
    }

    /// Set the `/O` attribute to `List` to write list attributes.
    pub fn list(self) -> (r: ListAttributes<'a>)
        ensures
            owner_dict_started(
                r.dict,
                old(self.obj.buf)@,
                self.obj.indirect,
                self.obj.indent,
                self.obj.settings,
                AttributeOwner::List.spec_name(),
            ),
            *final(r.dict.buf) == *final(self.obj.buf),
    {
        ListAttributes::start(self.obj)
    }

    /// Set the `/O` attribute to `PrintField` to write attributes for the
    /// appearance of form fields. PDF 1.6+
    pub fn field(self) -> (r: FieldAttributes<'a>)
        ensures
            owner_dict_started(
                r.dict,
                old(self.obj.buf)@,
                self.obj.indirect,
                self.obj.indent,
                self.obj.settings,
                AttributeOwner::PrintField.spec_name(),
            ),
            *final(r.dict.buf) == *final(self.obj.buf),
    {
        FieldAttributes::start(self.obj)
    }

    /// Set the `/O` attribute to `Table` to write table attributes.
    pub fn table(self) -> (r: TableAttributes<'a>)
        ensures
            owner_dict_started(
                r.dict,
                old(self.obj.buf)@,
                self.obj.indirect,
                self.obj.indent,
                self.obj.settings,
                AttributeOwner::Table.spec_name(),
            ),
            *final(r.dict.buf) == *final(self.obj.buf),
    {
        TableAttributes::start(self.obj)
    }

    /// Write the `/O` attribute.
    pub fn custom(self, owner: AttributeOwner) -> (r: Dict<'a>)
        ensures
            owner_dict_started(
                r,
                old(self.obj.buf)@,
                self.obj.indirect,
                self.obj.indent,
                self.obj.settings,
                owner.spec_name(),
            ),
            *final(r.buf) == *final(self.obj.buf),
    {
        owner_dict(self.obj, owner)
    }
}

/// Writer for an _user property attributes dictionary_. PDF 1.6+
///
/// This struct is created by [`Attributes::user_properties`].
pub struct PropertyAttributes<'a> {
    /// The underlying dictionary.
    pub dict: Dict<'a>,
}

impl<'a> PropertyAttributes<'a> {
    /// Start writing the dictionary on an object, with its owner.
    pub(crate) fn start(obj: Obj<'a>) -> (r: Self)
        ensures
            owner_dict_started(
                r.dict,
                old(obj.buf)@,
                obj.indirect,
                obj.indent,
                obj.settings,
                AttributeOwner::User.spec_name(),
            ),
            *final(r.dict.buf) == *final(obj.buf),
    {
        Self { dict: owner_dict(obj, AttributeOwner::User) }
    }
    /// Start writing the `/P` array of user properties.
    pub fn properties(&mut self) -> (r: UserProperties<'_>)
        requires
            0 <= old(self).dict.len < i32::MAX,
        ensures
            array_started(
                r.array,
                old(self).dict.buf@ + dict_key_bytes(
                    old(self).dict.settings.pretty,
                    old(self).dict.indent as int,
                    "P".spec_bytes(),
                ),
                false,
                old(self).dict.indent,
                old(self).dict.settings,
            ),
            r.array.buf.spec_limits() == old(self).dict.buf.spec_limits().with_name_len("P".spec_bytes().len() as int),
            final(self).dict.len == old(self).dict.len + 1,
            final(self).dict.indirect == old(self).dict.indirect,
            final(self).dict.indent == old(self).dict.indent,
            final(self).dict.settings == old(self).dict.settings,
            *final(self).dict.buf == *final(r.array.buf),
            *final(final(self).dict.buf) == *final(old(self).dict.buf),
    {
        UserProperties::start(self.dict.insert(Name("P".as_bytes())))
    }

    /// Finish writing the dictionary.
    pub fn finish(self)
        requires
            self.dict.len >= 0,
            self.dict.indent >= 2,
        ensures
            final(self.dict.buf)@ == old(self.dict.buf)@ + dict_close_bytes(
                self.dict.len as int,
                self.dict.settings.pretty,
                self.dict.indent as int,
                self.dict.indirect,
            ),
            final(self.dict.buf).spec_limits() == old(self.dict.buf).spec_limits().with_dict_entries(self.dict.len as int),
    {
        self.dict.finish();
    }
}

/// Writer for an _user property array_. PDF 1.6+
///
/// This struct is created by [`PropertyAttributes::properties`].
pub struct UserProperties<'a> {
    /// The array being written.
    pub array: Array<'a>,
}

impl<'a> UserProperties<'a> {
    /// Start writing the array on an object.
    pub(crate) fn start(obj: Obj<'a>) -> (r: Self)
        ensures
            array_started(r.array, old(obj.buf)@, obj.indirect, obj.indent, obj.settings),
            *final(r.array.buf) == *final(obj.buf),
            r.array.buf.spec_limits() == old(obj.buf).spec_limits(),
    {
        Self { array: obj.array() }
    }

    /// Write a user property.
    pub fn property(&mut self) -> (r: UserProperty<'_>)
        requires
            0 <= old(self).array.len < i32::MAX,
        ensures
            r.dict.buf@ == old(self).array.buf@ + array_separator(
                old(self).array.len as int,
                old(self).array.settings.pretty,
            ) + "<<".spec_bytes(),
            r.dict.len == 0,
            r.dict.indirect == false,
            r.dict.indent == nested_indent(old(self).array.indent),
            r.dict.settings == old(self).array.settings,
            final(self).array.len == old(self).array.len + 1,
            final(self).array.indirect == old(self).array.indirect,
            final(self).array.indent == old(self).array.indent,
            final(self).array.settings == old(self).array.settings,
            *final(self).array.buf == *final(r.dict.buf),
            *final(final(self).array.buf) == *final(old(self).array.buf),
    {
        UserProperty { dict: self.array.push().dict() }
    }

    /// Finish the array.
    pub fn finish(self)
        requires
            self.array.len >= 0,
        ensures
            final(self.array.buf)@ == old(self.array.buf)@ + seq![crate::object::RBRACKET]
                + crate::object::obj_end(self.array.indirect, self.array.settings.pretty),
            final(self.array.buf).spec_limits() == old(self.array.buf).spec_limits().with_array_len(self.array.len as int),
    {
        self.array.finish();
    }
}

/// Writer for an _user property dictionary_. PDF 1.6+
///
/// This struct is created by [`UserProperties::property`].
pub struct UserProperty<'a> {
    /// The underlying dictionary.
    pub dict: Dict<'a>,
}

impl<'a> UserProperty<'a> {
    /// Write the `/N` attribute to set the name of the property.
    pub fn name(&mut self, name: TextStr) -> (r: &mut Self)
        requires
            0 <= old(self).dict.len < i32::MAX,
        ensures
            dict_pair_appended(old(self).dict, r.dict, "N".spec_bytes(), name),
            *final(r.dict.buf) == *final(old(self).dict.buf),
            *final(self) == *final(r),
    {
        self.dict.pair(Name("N".as_bytes()), name);
        self
    }

    /// Start writing the `/V` attribute to set the value of the property.
    pub fn value(&mut self) -> (r: Obj<'_>)
        requires
            0 <= old(self).dict.len < i32::MAX,
        ensures
            r.buf@ == old(self).dict.buf@ + dict_key_bytes(
                old(self).dict.settings.pretty,
                old(self).dict.indent as int,
                "V".spec_bytes(),
            ),
            r.needs_padding == !old(self).dict.settings.pretty,
            r.indirect == false,
            r.indent == old(self).dict.indent,
            r.settings == old(self).dict.settings,
            final(self).dict.len == old(self).dict.len + 1,
            final(self).dict.indirect == old(self).dict.indirect,
            final(self).dict.indent == old(self).dict.indent,
            final(self).dict.settings == old(self).dict.settings,
            *final(self).dict.buf == *final(r.buf),
            *final(final(self).dict.buf) == *final(old(self).dict.buf),
    {
        self.dict.insert(Name("V".as_bytes()))
    }

    /// Write the `/F` attribute to set the format of the property.
    pub fn format(&mut self, format: TextStr) -> (r: &mut Self)
        requires
            0 <= old(self).dict.len < i32::MAX,
        ensures
            dict_pair_appended(old(self).dict, r.dict, "F".spec_bytes(), format),
            *final(r.dict.buf) == *final(old(self).dict.buf),
            *final(self) == *final(r),
    {
        self.dict.pair(Name("F".as_bytes()), format);
        self
    }

    /// Write the `/H` attribute to determine whether this property is hidden.
    pub fn hidden(&mut self, hide: bool) -> (r: &mut Self)
        requires
            0 <= old(self).dict.len < i32::MAX,
        ensures
            dict_pair_appended(old(self).dict, r.dict, "H".spec_bytes(), hide),
            *final(r.dict.buf) == *final(old(self).dict.buf),
            *final(self) == *final(r),
    {
        self.dict.pair(Name("H".as_bytes()), hide);
        self
    }

    /// Finish writing the dictionary.
    pub fn finish(self)
        requires
            self.dict.len >= 0,
            self.dict.indent >= 2,
        ensures
            final(self.dict.buf)@ == old(self.dict.buf)@ + dict_close_bytes(
                self.dict.len as int,
                self.dict.settings.pretty,
                self.dict.indent as int,
                self.dict.indirect,
            ),
            final(self.dict.buf).spec_limits() == old(self.dict.buf).spec_limits().with_dict_entries(self.dict.len as int),
    {
        self.dict.finish();
    }
}

/// Writer for an _layout attributes dictionary_. PDF 1.4+
///
/// This struct is created by [`Attributes::layout`]. The attributes whose
/// values are real numbers are written by the code that handles them.
pub struct LayoutAttributes<'a> {
    /// The underlying dictionary.
    pub dict: Dict<'a>,
}

impl<'a> LayoutAttributes<'a> {
    /// Start writing the dictionary on an object, with its owner.
    pub(crate) fn start(obj: Obj<'a>) -> (r: Self)
        ensures
            owner_dict_started(
                r.dict,
                old(obj.buf)@,
                obj.indirect,
                obj.indent,
                obj.settings,
                AttributeOwner::Layout.spec_name(),
            ),
            *final(r.dict.buf) == *final(obj.buf),
    {
        Self { dict: owner_dict(obj, AttributeOwner::Layout) }
    }
    /// Write the `/Placement` attribute.
    pub fn placement(&mut self, placement: Placement) -> (r: &mut Self)
        requires
            0 <= old(self).dict.len < i32::MAX,
        ensures
            dict_name_pair_appended(old(self).dict, r.dict, "Placement".spec_bytes(), placement.spec_name()),
            *final(r.dict.buf) == *final(old(self).dict.buf),
            *final(self) == *final(r),
    {
        self.dict.pair(Name("Placement".as_bytes()), placement.to_name());
        self
    }

    /// Write the `/WritingMode` attribute to set the writing direction.
    pub fn writing_mode(&mut self, mode: WritingMode) -> (r: &mut Self)
        requires
            0 <= old(self).dict.len < i32::MAX,
        ensures
            dict_name_pair_appended(old(self).dict, r.dict, "WritingMode".spec_bytes(), mode.spec_name()),
            *final(r.dict.buf) == *final(old(self).dict.buf),
            *final(self) == *final(r),
    {
        self.dict.pair(Name("WritingMode".as_bytes()), mode.to_name());
        self
    }

    /// Write the `/BorderStyle` attribute.
    pub fn border_style(&mut self, style: LayoutBorderStyle) -> (r: &mut Self)
        requires
            0 <= old(self).dict.len < i32::MAX,
        ensures
            dict_name_pair_appended(old(self).dict, r.dict, "BorderStyle".spec_bytes(), style.spec_name()),
            *final(r.dict.buf) == *final(old(self).dict.buf),
            *final(self) == *final(r),
    {
        self.dict.pair(Name("BorderStyle".as_bytes()), style.to_name());
        self
    }

    /// Write the `/TextAlign` attribute.
    pub fn text_align(&mut self, align: TextAlign) -> (r: &mut Self)
        requires
            0 <= old(self).dict.len < i32::MAX,
        ensures
            dict_name_pair_appended(old(self).dict, r.dict, "TextAlign".spec_bytes(), align.spec_name()),
            *final(r.dict.buf) == *final(old(self).dict.buf),
            *final(self) == *final(r),
    {
        self.dict.pair(Name("TextAlign".as_bytes()), align.to_name());
        self
    }

    /// Write the `/BlockAlign` attribute.
    pub fn block_align(&mut self, align: BlockAlign) -> (r: &mut Self)
        requires
            0 <= old(self).dict.len < i32::MAX,
        ensures
            dict_name_pair_appended(old(self).dict, r.dict, "BlockAlign".spec_bytes(), align.spec_name()),
            *final(r.dict.buf) == *final(old(self).dict.buf),
            *final(self) == *final(r),
    {
        self.dict.pair(Name("BlockAlign".as_bytes()), align.to_name());
        self
    }

    /// Write the `/InlineAlign` attribute.
    pub fn inline_align(&mut self, align: InlineAlign) -> (r: &mut Self)
        requires
            0 <= old(self).dict.len < i32::MAX,
        ensures
            dict_name_pair_appended(old(self).dict, r.dict, "InlineAlign".spec_bytes(), align.spec_name()),
            *final(r.dict.buf) == *final(old(self).dict.buf),
            *final(self) == *final(r),
    {
        self.dict.pair(Name("InlineAlign".as_bytes()), align.to_name());
        self
    }

    /// Write the `/TBorderStyle` attribute. PDF 1.5+.
    pub fn table_border_style(&mut self, style: LayoutBorderStyle) -> (r: &mut Self)
        requires
            0 <= old(self).dict.len < i32::MAX,
        ensures
            dict_name_pair_appended(old(self).dict, r.dict, "TBorderStyle".spec_bytes(), style.spec_name()),
            *final(r.dict.buf) == *final(old(self).dict.buf),
            *final(self) == *final(r),
    {
        self.dict.pair(Name("TBorderStyle".as_bytes()), style.to_name());
        self
    }

    /// Write the `/TextDecorationType` attribute.
    pub fn text_decoration_type(&mut self, decoration: TextDecorationType) -> (r: &mut Self)
        requires
            0 <= old(self).dict.len < i32::MAX,
        ensures
            dict_name_pair_appended(old(self).dict, r.dict, "TextDecorationType".spec_bytes(), decoration.spec_name()),
            *final(r.dict.buf) == *final(old(self).dict.buf),
            *final(self) == *final(r),
    {
        self.dict.pair(Name("TextDecorationType".as_bytes()), decoration.to_name());
        self
    }

    /// Write the `/ColumnCount` attribute. PDF 1.6+.
    pub fn column_count(&mut self, count: i32) -> (r: &mut Self)
        requires
            0 <= old(self).dict.len < i32::MAX,
            count != i32::MIN,
        ensures
            dict_pair_appended(old(self).dict, r.dict, "ColumnCount".spec_bytes(), count),
            *final(r.dict.buf) == *final(old(self).dict.buf),
            *final(self) == *final(r),
    {
        self.dict.pair(Name("ColumnCount".as_bytes()), count);
        self
    }

    /// Write the `/RubyAlign` attribute. PDF 1.5+.
    pub fn ruby_align(&mut self, align: RubyAlign) -> (r: &mut Self)
        requires
            0 <= old(self).dict.len < i32::MAX,
        ensures
            dict_name_pair_appended(old(self).dict, r.dict, "RubyAlign".spec_bytes(), align.spec_name()),
            *final(r.dict.buf) == *final(old(self).dict.buf),
            *final(self) == *final(r),
    {
        self.dict.pair(Name("RubyAlign".as_bytes()), align.to_name());
        self
    }

    /// Write the `/RubyPosition` attribute. PDF 1.5+.
    pub fn ruby_position(&mut self, position: RubyPosition) -> (r: &mut Self)
        requires
            0 <= old(self).dict.len < i32::MAX,
        ensures
            dict_name_pair_appended(old(self).dict, r.dict, "RubyPosition".spec_bytes(), position.spec_name()),
            *final(r.dict.buf) == *final(old(self).dict.buf),
            *final(self) == *final(r),
    {
        self.dict.pair(Name("RubyPosition".as_bytes()), position.to_name());
        self
    }

    /// Finish writing the dictionary.
    pub fn finish(self)
        requires
            self.dict.len >= 0,
            self.dict.indent >= 2,
        ensures
            final(self.dict.buf)@ == old(self.dict.buf)@ + dict_close_bytes(
                self.dict.len as int,
                self.dict.settings.pretty,
                self.dict.indent as int,
                self.dict.indirect,
            ),
            final(self.dict.buf).spec_limits() == old(self.dict.buf).spec_limits().with_dict_entries(self.dict.len as int),
    {
        self.dict.finish();
    }
}

/// Writer for a _list attributes dictionary_. PDF 1.4+
///
/// This struct is created by [`Attributes::list`].
pub struct ListAttributes<'a> {
    /// The underlying dictionary.
    pub dict: Dict<'a>,
}

impl<'a> ListAttributes<'a> {
    /// Start writing the dictionary on an object, with its owner.
    pub(crate) fn start(obj: Obj<'a>) -> (r: Self)
        ensures
            owner_dict_started(
                r.dict,
                old(obj.buf)@,
                obj.indirect,
                obj.indent,
                obj.settings,
                AttributeOwner::List.spec_name(),
            ),
            *final(r.dict.buf) == *final(obj.buf),
    {
        Self { dict: owner_dict(obj, AttributeOwner::List) }
    }
    /// Write the `/ListNumbering` attribute.
    pub fn list_numbering(&mut self, numbering: ListNumbering) -> (r: &mut Self)
        requires
            0 <= old(self).dict.len < i32::MAX,
        ensures
            dict_name_pair_appended(old(self).dict, r.dict, "ListNumbering".spec_bytes(), numbering.spec_name()),
            *final(r.dict.buf) == *final(old(self).dict.buf),
            *final(self) == *final(r),
    {
        self.dict.pair(Name("ListNumbering".as_bytes()), numbering.to_name());
        self
    }

    /// Finish writing the dictionary.
    pub fn finish(self)
        requires
            self.dict.len >= 0,
            self.dict.indent >= 2,
        ensures
            final(self.dict.buf)@ == old(self.dict.buf)@ + dict_close_bytes(
                self.dict.len as int,
                self.dict.settings.pretty,
                self.dict.indent as int,
                self.dict.indirect,
            ),
            final(self.dict.buf).spec_limits() == old(self.dict.buf).spec_limits().with_dict_entries(self.dict.len as int),
    {
        self.dict.finish();
    }
}

/// Writer for a _field attributes dictionary_. PDF 1.6+
///
/// This struct is created by [`Attributes::field`].
pub struct FieldAttributes<'a> {
    /// The underlying dictionary.
    pub dict: Dict<'a>,
}

impl<'a> FieldAttributes<'a> {
    /// Start writing the dictionary on an object, with its owner.
    pub(crate) fn start(obj: Obj<'a>) -> (r: Self)
        ensures
            owner_dict_started(
                r.dict,
                old(obj.buf)@,
                obj.indirect,
                obj.indent,
                obj.settings,
                AttributeOwner::PrintField.spec_name(),
            ),
            *final(r.dict.buf) == *final(obj.buf),
    {
        Self { dict: owner_dict(obj, AttributeOwner::PrintField) }
    }
    /// Write the `/Role` attribute to determine the kind of form control.
    pub fn role(&mut self, role: FieldRole) -> (r: &mut Self)
        requires
            0 <= old(self).dict.len < i32::MAX,
        ensures
            dict_name_pair_appended(old(self).dict, r.dict, "Role".spec_bytes(), role.spec_name()),
            *final(r.dict.buf) == *final(old(self).dict.buf),
            *final(self) == *final(r),
    {
        self.dict.pair(Name("Role".as_bytes()), role.to_name());
        self
    }

    /// Write the `/checked` attribute to set whether a check box or radio
    /// button is checked.
    pub fn checked(&mut self, checked: FieldCheckState) -> (r: &mut Self)
        requires
            0 <= old(self).dict.len < i32::MAX,
        ensures
            dict_name_pair_appended(old(self).dict, r.dict, "checked".spec_bytes(), checked.spec_name()),
            *final(r.dict.buf) == *final(old(self).dict.buf),
            *final(self) == *final(r),
    {
        self.dict.pair(Name("checked".as_bytes()), checked.to_name());
        self
    }

    /// Write the `/Desc` attribute to set the description of the form control.
    pub fn desc(&mut self, desc: TextStr) -> (r: &mut Self)
        requires
            0 <= old(self).dict.len < i32::MAX,
        ensures
            dict_pair_appended(old(self).dict, r.dict, "Desc".spec_bytes(), desc),
            *final(r.dict.buf) == *final(old(self).dict.buf),
            *final(self) == *final(r),
    {
        self.dict.pair(Name("Desc".as_bytes()), desc);
        self
    }

    /// Finish writing the dictionary.
    pub fn finish(self)
        requires
            self.dict.len >= 0,
            self.dict.indent >= 2,
        ensures
            final(self.dict.buf)@ == old(self.dict.buf)@ + dict_close_bytes(
                self.dict.len as int,
                self.dict.settings.pretty,
                self.dict.indent as int,
                self.dict.indirect,
            ),
            final(self.dict.buf).spec_limits() == old(self.dict.buf).spec_limits().with_dict_entries(self.dict.len as int),
    {
        self.dict.finish();
    }
}

/// Writer for a _table attributes dictionary_. PDF 1.4+
///
/// This struct is created by [`Attributes::table`].
pub struct TableAttributes<'a> {
    /// The underlying dictionary.
    pub dict: Dict<'a>,
}

impl<'a> TableAttributes<'a> {
    /// Start writing the dictionary on an object, with its owner.
    pub(crate) fn start(obj: Obj<'a>) -> (r: Self)
        ensures
            owner_dict_started(
                r.dict,
                old(obj.buf)@,
                obj.indirect,
                obj.indent,
                obj.settings,
                AttributeOwner::Table.spec_name(),
            ),
            *final(r.dict.buf) == *final(obj.buf),
    {
        Self { dict: owner_dict(obj, AttributeOwner::Table) }
    }
    /// Write the `/RowSpan` attribute to set the number of rows that shall be
    /// spanned by this cell.
    pub fn row_span(&mut self, row_span: i32) -> (r: &mut Self)
        requires
            0 <= old(self).dict.len < i32::MAX,
            row_span != i32::MIN,
        ensures
            dict_pair_appended(old(self).dict, r.dict, "RowSpan".spec_bytes(), row_span),
            *final(r.dict.buf) == *final(old(self).dict.buf),
            *final(self) == *final(r),
    {
        self.dict.pair(Name("RowSpan".as_bytes()), row_span);
        self
    }

    /// Write the `/ColSpan` attribute to set the number of columns that shall
    /// be spanned by this cell.
    pub fn col_span(&mut self, col_span: i32) -> (r: &mut Self)
        requires
            0 <= old(self).dict.len < i32::MAX,
            col_span != i32::MIN,
        ensures
            dict_pair_appended(old(self).dict, r.dict, "ColSpan".spec_bytes(), col_span),
            *final(r.dict.buf) == *final(old(self).dict.buf),
            *final(self) == *final(r),
    {
        self.dict.pair(Name("ColSpan".as_bytes()), col_span);
        self
    }

    /// Write the `/Headers` attribute to refer to the header cells of the
    /// table. PDF 1.6+.
    pub fn headers(&mut self) -> (r: TypedArray<'_, Str<'_>>)
        requires
            0 <= old(self).dict.len < i32::MAX,
        ensures
            array_started(
                r.array,
                old(self).dict.buf@ + dict_key_bytes(
                    old(self).dict.settings.pretty,
                    old(self).dict.indent as int,
                    "Headers".spec_bytes(),
                ),
                false,
                old(self).dict.indent,
                old(self).dict.settings,
            ),
            final(self).dict.len == old(self).dict.len + 1,
            final(self).dict.indirect == old(self).dict.indirect,
            final(self).dict.indent == old(self).dict.indent,
            final(self).dict.settings == old(self).dict.settings,
            *final(self).dict.buf == *final(r.array.buf),
            *final(final(self).dict.buf) == *final(old(self).dict.buf),
            r.array.buf.spec_limits() == old(self).dict.buf.spec_limits().with_name_len("Headers".spec_bytes().len() as int),
    {
        self.dict.insert(Name("Headers".as_bytes())).array().typed()
    }

    /// Write the `/Scope` attribute to define whether a table header cell
    /// refers to its row or column.
    pub fn scope(&mut self, scope: TableHeadingScope) -> (r: &mut Self)
        requires
            0 <= old(self).dict.len < i32::MAX,
        ensures
            dict_name_pair_appended(old(self).dict, r.dict, "Scope".spec_bytes(), scope.spec_name()),
            *final(r.dict.buf) == *final(old(self).dict.buf),
            *final(self) == *final(r),
    {
        self.dict.pair(Name("Scope".as_bytes()), scope.to_name());
        self
    }

    /// Write the `/Summary` attribute to set the summary of the table. PDF 1.7+.
    pub fn summary(&mut self, summary: TextStr) -> (r: &mut Self)
        requires
            0 <= old(self).dict.len < i32::MAX,
        ensures
            dict_pair_appended(old(self).dict, r.dict, "Summary".spec_bytes(), summary),
            *final(r.dict.buf) == *final(old(self).dict.buf),
            *final(self) == *final(r),
    {
        self.dict.pair(Name("Summary".as_bytes()), summary);
        self
    }

    /// Finish writing the dictionary.
    pub fn finish(self)
        requires
            self.dict.len >= 0,
            self.dict.indent >= 2,
        ensures
            final(self.dict.buf)@ == old(self.dict.buf)@ + dict_close_bytes(
                self.dict.len as int,
                self.dict.settings.pretty,
                self.dict.indent as int,
                self.dict.indirect,
            ),
            final(self.dict.buf).spec_limits() == old(self.dict.buf).spec_limits().with_dict_entries(self.dict.len as int),
    {
        self.dict.finish();
    }
}



/// The names under which the values of [`Placement`] are written, as PDF
/// defines them.
pub proof fn lemma_placement_names()
    ensures
        Placement::Block.spec_name() == "Block".spec_bytes(),
        Placement::Inline.spec_name() == "Inline".spec_bytes(),
        Placement::Before.spec_name() == "Before".spec_bytes(),
        Placement::Start.spec_name() == "Start".spec_bytes(),
        Placement::End.spec_name() == "End".spec_bytes(),
{
}

/// The names under which the values of [`WritingMode`] are written, as PDF
/// defines them.
pub proof fn lemma_writing_mode_names()
    ensures
        WritingMode::HorizontalLeftToRight.spec_name() == "LrTb".spec_bytes(),
        WritingMode::HorizontalRightToLeft.spec_name() == "RlTb".spec_bytes(),
        WritingMode::VerticalRightToLeft.spec_name() == "TbRl".spec_bytes(),
{
}

/// The names under which the values of [`LayoutBorderStyle`] are written, as PDF
/// defines them.
pub proof fn lemma_layout_border_style_names()
    ensures
        LayoutBorderStyle::NoBorder.spec_name() == "None".spec_bytes(),
        LayoutBorderStyle::Hidden.spec_name() == "Hidden".spec_bytes(),
        LayoutBorderStyle::Solid.spec_name() == "Solid".spec_bytes(),
        LayoutBorderStyle::Dashed.spec_name() == "Dashed".spec_bytes(),
        LayoutBorderStyle::Dotted.spec_name() == "Dotted".spec_bytes(),
        LayoutBorderStyle::Double.spec_name() == "Double".spec_bytes(),
        LayoutBorderStyle::Groove.spec_name() == "Groove".spec_bytes(),
        LayoutBorderStyle::Ridge.spec_name() == "Ridge".spec_bytes(),
        LayoutBorderStyle::Inset.spec_name() == "Inset".spec_bytes(),
        LayoutBorderStyle::Outset.spec_name() == "Outset".spec_bytes(),
{
}

/// The names under which the values of [`TextAlign`] are written, as PDF
/// defines them.
pub proof fn lemma_text_align_names()
    ensures
        TextAlign::Start.spec_name() == "Start".spec_bytes(),
        TextAlign::Center.spec_name() == "Center".spec_bytes(),
        TextAlign::End.spec_name() == "End".spec_bytes(),
        TextAlign::Justify.spec_name() == "Justify".spec_bytes(),
{
}

/// The names under which the values of [`BlockAlign`] are written, as PDF
/// defines them.
pub proof fn lemma_block_align_names()
    ensures
        BlockAlign::Begin.spec_name() == "Begin".spec_bytes(),
        BlockAlign::Middle.spec_name() == "Middle".spec_bytes(),
        BlockAlign::After.spec_name() == "After".spec_bytes(),
        BlockAlign::Justify.spec_name() == "Justify".spec_bytes(),
{
}

/// The names under which the values of [`InlineAlign`] are written, as PDF
/// defines them.
pub proof fn lemma_inline_align_names()
    ensures
        InlineAlign::Start.spec_name() == "Start".spec_bytes(),
        InlineAlign::Center.spec_name() == "Center".spec_bytes(),
        InlineAlign::End.spec_name() == "End".spec_bytes(),
{
}

/// The names under which the values of [`TextDecorationType`] are written, as PDF
/// defines them.
pub proof fn lemma_text_decoration_type_names()
    ensures
        TextDecorationType::NoDecoration.spec_name() == "None".spec_bytes(),
        TextDecorationType::Underline.spec_name() == "Underline".spec_bytes(),
        TextDecorationType::Overline.spec_name() == "Overline".spec_bytes(),
        TextDecorationType::LineThrough.spec_name() == "LineThrough".spec_bytes(),
{
}

/// The names under which the values of [`RubyAlign`] are written, as PDF
/// defines them.
pub proof fn lemma_ruby_align_names()
    ensures
        RubyAlign::Start.spec_name() == "Start".spec_bytes(),
        RubyAlign::Center.spec_name() == "Center".spec_bytes(),
        RubyAlign::End.spec_name() == "End".spec_bytes(),
        RubyAlign::Justify.spec_name() == "Justify".spec_bytes(),
        RubyAlign::Distribute.spec_name() == "Distribute".spec_bytes(),
{
}

/// The names under which the values of [`RubyPosition`] are written, as PDF
/// defines them.
pub proof fn lemma_ruby_position_names()
    ensures
        RubyPosition::Before.spec_name() == "Before".spec_bytes(),
        RubyPosition::After.spec_name() == "After".spec_bytes(),
        RubyPosition::Warichu.spec_name() == "Warichu".spec_bytes(),
        RubyPosition::Inline.spec_name() == "Inline".spec_bytes(),
{
}

/// The names under which the values of [`ListNumbering`] are written, as PDF
/// defines them.
pub proof fn lemma_list_numbering_names()
    ensures
        ListNumbering::NoNumbering.spec_name() == "None".spec_bytes(),
        ListNumbering::Disc.spec_name() == "Disc".spec_bytes(),
        ListNumbering::Circle.spec_name() == "Circle".spec_bytes(),
        ListNumbering::Square.spec_name() == "Square".spec_bytes(),
        ListNumbering::Decimal.spec_name() == "Decimal".spec_bytes(),
        ListNumbering::LowerRoman.spec_name() == "LowerRoman".spec_bytes(),
        ListNumbering::UpperRoman.spec_name() == "UpperRoman".spec_bytes(),
        ListNumbering::LowerAlpha.spec_name() == "LowerAlpha".spec_bytes(),
        ListNumbering::UpperAlpha.spec_name() == "UpperAlpha".spec_bytes(),
{
}

/// The names under which the values of [`FieldRole`] are written, as PDF
/// defines them.
pub proof fn lemma_field_role_names()
    ensures
        FieldRole::Button.spec_name() == "pb".spec_bytes(),
        FieldRole::CheckBox.spec_name() == "cb".spec_bytes(),
        FieldRole::RadioButton.spec_name() == "rb".spec_bytes(),
        FieldRole::TextField.spec_name() == "tv".spec_bytes(),
{
}

/// The names under which the values of [`FieldCheckState`] are written, as PDF
/// defines them.
pub proof fn lemma_field_check_state_names()
    ensures
        FieldCheckState::Unchecked.spec_name() == "off".spec_bytes(),
        FieldCheckState::Checked.spec_name() == "on".spec_bytes(),
        FieldCheckState::Neutral.spec_name() == "neutral".spec_bytes(),
{
}

/// The names under which the values of [`TableHeadingScope`] are written, as PDF
/// defines them.
pub proof fn lemma_table_heading_scope_names()
    ensures
        TableHeadingScope::Row.spec_name() == "Row".spec_bytes(),
        TableHeadingScope::Column.spec_name() == "Column".spec_bytes(),
        TableHeadingScope::Both.spec_name() == "Both".spec_bytes(),
{
}

/// The names under which the values of [`AttributeOwner`] are written, as PDF
/// defines them.
pub proof fn lemma_attribute_owner_names()
    ensures
        AttributeOwner::Layout.spec_name() == "Layout".spec_bytes(),
        AttributeOwner::List.spec_name() == "List".spec_bytes(),
        AttributeOwner::PrintField.spec_name() == "PrintField".spec_bytes(),
        AttributeOwner::Table.spec_name() == "Table".spec_bytes(),
        AttributeOwner::Xml.spec_name() == "XML-1.00".spec_bytes(),
        AttributeOwner::Html3_2.spec_name() == "HTML-3.20".spec_bytes(),
        AttributeOwner::Html4.spec_name() == "HTML-4.01".spec_bytes(),
        AttributeOwner::Oeb.spec_name() == "OEB-1.00".spec_bytes(),
        AttributeOwner::Rtf1_05.spec_name() == "RTF-1.05".spec_bytes(),
        AttributeOwner::Css1.spec_name() == "CSS-1.00".spec_bytes(),
        AttributeOwner::Css2.spec_name() == "CSS-2.00".spec_bytes(),
        AttributeOwner::User.spec_name() == "UserDefined".spec_bytes(),
{
}

} // verus!
