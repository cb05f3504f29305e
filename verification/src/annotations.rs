use vstd::prelude::*;
use vstd::string::*;

use crate::object::{
    dict_start_limits,
    dict_items_appended,
    array_close_bytes, array_items_bytes, array_separator,
    Primitive,
    Real, Rect, all_writable,
    array_tokens_bytes, dict_tokens_entry_bytes,
    Date, Dict, LBRACKET, Name, NameTree, NumberTree, Obj, Ref, Str, Stream, TextStr, TextStrLike, TypedArray, dict_close_bytes, dict_grown, dict_items_entry_bytes, dict_key_bytes, dict_name_pair_appended, dict_pair_appended, dict_started, start_dict, stream_close_bytes, type_entries_bytes, type_stream, write_items_entry,
};
use crate::actions::{Action};
use crate::files::{FileSpec};

verus! {

/// Kind of the annotation to produce.
#[derive(Debug, Copy, Clone, Eq, PartialEq, Hash)]
pub enum AnnotationType {
    /// Inline text.
    Text,
    /// A link.
    Link,
    /// A line. PDF 1.3+.
    Line,
    /// A square. PDF 1.3+.
    Square,
    /// A circle. PDF 1.3+.
    Circle,
    /// Highlighting the text on the page. PDF 1.3+.
    Highlight,
    /// Underline the text on the page. PDF 1.3+.
    Underline,
    /// Squiggly underline of the text on the page. PDF 1.4+.
    Squiggly,
    /// Strike out the text on the page. PDF 1.3+.
    StrikeOut,
    /// A reference to another file. PDF 1.3+.
    FileAttachment,
    /// A widget annotation. PDF 1.2+.
    Widget,
}

impl AnnotationType {
    /// The name under which the value is written.
    pub open spec fn spec_name(self) -> Seq<u8> {
        match self {
            Self::Text => "Text".spec_bytes(),
            Self::Link => "Link".spec_bytes(),
            Self::Line => "Line".spec_bytes(),
            Self::Square => "Square".spec_bytes(),
            Self::Circle => "Circle".spec_bytes(),
            Self::Highlight => "Highlight".spec_bytes(),
            Self::Underline => "Underline".spec_bytes(),
            Self::Squiggly => "Squiggly".spec_bytes(),
            Self::StrikeOut => "StrikeOut".spec_bytes(),
            Self::FileAttachment => "FileAttachment".spec_bytes(),
            Self::Widget => "Widget".spec_bytes(),
        }
    }

    pub(crate) fn to_name(self) -> (r: Name<'static>)
        ensures
            r.0@ == self.spec_name(),
    {
        match self {
            Self::Text => Name("Text".as_bytes()),
            Self::Link => Name("Link".as_bytes()),
            Self::Line => Name("Line".as_bytes()),
            Self::Square => Name("Square".as_bytes()),
            Self::Circle => Name("Circle".as_bytes()),
            Self::Highlight => Name("Highlight".as_bytes()),
            Self::Underline => Name("Underline".as_bytes()),
            Self::Squiggly => Name("Squiggly".as_bytes()),
            Self::StrikeOut => Name("StrikeOut".as_bytes()),
            Self::FileAttachment => Name("FileAttachment".as_bytes()),
            Self::Widget => Name("Widget".as_bytes()),
        }
    }
}

/// Possible icons for an annotation.
#[derive(Debug, Copy, Clone, Eq, PartialEq, Hash)]
pub enum AnnotationIcon<'a> {
    /// Speech bubble. For use with text annotations.
    Comment,
    /// For use with text annotations.
    Key,
    /// Sticky note. For use with text annotations.
    Note,
    /// Question mark or manual. For use with text annotations.
    Help,
    /// For use with text annotations.
    NewParagraph,
    /// For use with text annotations.
    Paragraph,
    /// A plus or similar. For use with text annotations.
    Insert,
    /// Chart. For use with file attachment annotations.
    Graph,
    /// For use with file attachment annotations.
    PushPin,
    /// For use with file attachment annotations.
    Paperclip,
    /// For use with file attachment annotations.
    Tag,
    /// A custom icon name.
    Custom(Name<'a>),
}

impl<'a> AnnotationIcon<'a> {
    /// The name under which the value is written.
    pub open spec fn spec_name(self) -> Seq<u8> {
        match self {
            Self::Comment => "Comment".spec_bytes(),
            Self::Key => "Key".spec_bytes(),
            Self::Note => "Note".spec_bytes(),
            Self::Help => "Help".spec_bytes(),
            Self::NewParagraph => "NewParagraph".spec_bytes(),
            Self::Paragraph => "Paragraph".spec_bytes(),
            Self::Insert => "Insert".spec_bytes(),
            Self::Graph => "Graph".spec_bytes(),
            Self::PushPin => "PushPin".spec_bytes(),
            Self::Paperclip => "Paperclip".spec_bytes(),
            Self::Tag => "Tag".spec_bytes(),
            Self::Custom(name) => name.0@,
        }
    }

    pub(crate) fn to_name(self) -> (r: Name<'a>)
        ensures
            r.0@ == self.spec_name(),
    {
        match self {
            Self::Comment => Name("Comment".as_bytes()),
            Self::Key => Name("Key".as_bytes()),
            Self::Note => Name("Note".as_bytes()),
            Self::Help => Name("Help".as_bytes()),
            Self::NewParagraph => Name("NewParagraph".as_bytes()),
            Self::Paragraph => Name("Paragraph".as_bytes()),
            Self::Insert => Name("Insert".as_bytes()),
            Self::Graph => Name("Graph".as_bytes()),
            Self::PushPin => Name("PushPin".as_bytes()),
            Self::Paperclip => Name("Paperclip".as_bytes()),
            Self::Tag => Name("Tag".as_bytes()),
            Self::Custom(name) => name,
        }
    }
}

/// How the icon in a push button field should be scaled.
#[derive(Debug, Copy, Clone, Eq, PartialEq, Hash)]
pub enum IconScale {
    /// Always scale the icon.
    Always,
    /// Scale the icon only when the icon is bigger than the annotation
    /// rectangle.
    Bigger,
    /// Scale the icon only when the icon is smaller than the annotation
    /// rectangle.
    Smaller,
    /// Never scale the icon.
    Never,
}

impl IconScale {
    /// The name under which the value is written.
    pub open spec fn spec_name(self) -> Seq<u8> {
        match self {
            Self::Always => "A".spec_bytes(),
            Self::Bigger => "B".spec_bytes(),
            Self::Smaller => "S".spec_bytes(),
            Self::Never => "N".spec_bytes(),
        }
    }

    pub(crate) fn to_name(self) -> (r: Name<'static>)
        ensures
            r.0@ == self.spec_name(),
    {
        match self {
            Self::Always => Name("A".as_bytes()),
            Self::Bigger => Name("B".as_bytes()),
            Self::Smaller => Name("S".as_bytes()),
            Self::Never => Name("N".as_bytes()),
        }
    }
}

/// How the icon in a push button field should be scaled.
#[derive(Debug, Copy, Clone, Eq, PartialEq, Hash)]
pub enum IconScaleType {
    /// Scale the icon to fill the annotation rectangle exactly, without regard
    /// to its original aspect ratio (ratio of width to height).
    Anamorphic,
    /// Scale the icon to fit the width or height of the annotation rectangle
    /// while maintaining the icon’s original aspect ratio. If the required
    /// horizontal and vertical scaling factors are different, use the smaller
    /// of the two, centering the icon within the annotation rectangle in the
    /// other dimension.
    Proportional,
}

impl IconScaleType {
    /// The name under which the value is written.
    pub open spec fn spec_name(self) -> Seq<u8> {
        match self {
            Self::Anamorphic => "A".spec_bytes(),
            Self::Proportional => "P".spec_bytes(),
        }
    }

    pub(crate) fn to_name(self) -> (r: Name<'static>)
        ensures
            r.0@ == self.spec_name(),
    {
        match self {
            Self::Anamorphic => Name("A".as_bytes()),
            Self::Proportional => Name("P".as_bytes()),
        }
    }
}

/// Highlighting effect applied when a user holds the mouse button over an
/// annotation.
#[derive(Debug, Copy, Clone, Eq, PartialEq, Hash)]
pub enum HighlightEffect {
    /// No effect.
    NoEffect,
    /// Invert the colors inside of the annotation rect.
    Invert,
    /// Invert the colors on the annotation border.
    Outline,
    /// Make the annotation rect's area appear depressed.
    Push,
}

impl HighlightEffect {
    /// The name under which the value is written.
    pub open spec fn spec_name(self) -> Seq<u8> {
        match self {
            Self::NoEffect => "N".spec_bytes(),
            Self::Invert => "I".spec_bytes(),
            Self::Outline => "O".spec_bytes(),
            Self::Push => "P".spec_bytes(),
        }
    }

    pub(crate) fn to_name(self) -> (r: Name<'static>)
        ensures
            r.0@ == self.spec_name(),
    {
        match self {
            Self::NoEffect => Name("N".as_bytes()),
            Self::Invert => Name("I".as_bytes()),
            Self::Outline => Name("O".as_bytes()),
            Self::Push => Name("P".as_bytes()),
        }
    }
}

/// The kind of line to draw on the border.
#[derive(Debug, Copy, Clone, Eq, PartialEq, Hash)]
pub enum BorderType {
    /// A solid line.
    Solid,
    /// A dashed line, dash pattern may be specified further elsewhere.
    Dashed,
    /// A line with a 3D effect.
    Beveled,
    /// A line that makes the rectangle appear depressed.
    Inset,
    /// A single line at the bottom of the border rectangle.
    Underline,
}

impl BorderType {
    /// The name under which the value is written.
    pub open spec fn spec_name(self) -> Seq<u8> {
        match self {
            Self::Solid => "S".spec_bytes(),
            Self::Dashed => "D".spec_bytes(),
            Self::Beveled => "B".spec_bytes(),
            Self::Inset => "I".spec_bytes(),
            Self::Underline => "U".spec_bytes(),
        }
    }

    pub(crate) fn to_name(self) -> (r: Name<'static>)
        ensures
            r.0@ == self.spec_name(),
    {
        match self {
            Self::Solid => Name("S".as_bytes()),
            Self::Dashed => Name("D".as_bytes()),
            Self::Beveled => Name("B".as_bytes()),
            Self::Inset => Name("I".as_bytes()),
            Self::Underline => Name("U".as_bytes()),
        }
    }
}

/// The position the text of the widget annotation's caption relative to its
/// icon.
#[derive(Debug, Copy, Clone, Eq, PartialEq, Hash)]
pub enum TextPosition {
    /// Hide icon, show only caption.
    CaptionOnly,
    /// Hide caption, show only icon.
    IconOnly,
    /// The caption should be placed below the icon.
    Below,
    /// The caption should be placed above the icon.
    Above,
    /// The caption should be placed to the right of the icon.
    Right,
    /// The caption should be placed to the left of the icon.
    Left,
    /// The caption should be placed overlaid directly on the icon.
    Overlaid,
}

impl TextPosition {
    /// The number under which the position is written.
    pub open spec fn spec_int(self) -> i32 {
        match self {
            Self::CaptionOnly => 0,
            Self::IconOnly => 1,
            Self::Below => 2,
            Self::Above => 3,
            Self::Right => 4,
            Self::Left => 5,
            Self::Overlaid => 6,
        }
    }

    pub(crate) fn to_int(self) -> (r: i32)
        ensures
            r == self.spec_int(),
    {
        match self {
            Self::CaptionOnly => 0,
            Self::IconOnly => 1,
            Self::Below => 2,
            Self::Above => 3,
            Self::Right => 4,
            Self::Left => 5,
            Self::Overlaid => 6,
        }
    }
}

impl Annotation<'_> {
    /// Write the `/C` attribute forcing a transparent color. This sets the
    /// annotations background color and its popup title bar color. PDF 1.1+.
    pub fn color_transparent(&mut self) -> (r: &mut Self)
        requires
            0 <= old(self).dict.len < i32::MAX,
        ensures
            dict_grown(
                old(self).dict,
                r.dict,
                dict_tokens_entry_bytes(
                    old(self).dict.buf@,
                    old(self).dict.settings.pretty,
                    old(self).dict.indent as int,
                    "C".spec_bytes(),
                    Seq::empty(),
                ),
                1,
            ),
            *final(r.dict.buf) == *final(old(self).dict.buf),
            *final(self) == *final(r),
    {
        let ghost before = self.dict.buf@;
        let ghost pretty = self.dict.settings.pretty;
        let ghost indent = self.dict.indent as int;
        let ghost k = dict_key_bytes(pretty, indent, "C".spec_bytes());
        self.dict.insert(Name("C".as_bytes())).array().finish();
        assert(array_tokens_bytes(before + k + seq![LBRACKET], 0, pretty, Seq::empty())
            =~= Seq::<u8>::empty());
        assert(self.dict.buf@ =~= before + dict_tokens_entry_bytes(
            before,
            pretty,
            indent,
            "C".spec_bytes(),
            Seq::empty(),
        ));
        self
    }
}

impl Appearance<'_> {
    /// Write the `/BC` attribute forcing a transparent color. This sets the
    /// widget annotation's border color.
    pub fn border_color_transparent(&mut self) -> (r: &mut Self)
        requires
            0 <= old(self).dict.len < i32::MAX,
        ensures
            dict_grown(
                old(self).dict,
                r.dict,
                dict_tokens_entry_bytes(
                    old(self).dict.buf@,
                    old(self).dict.settings.pretty,
                    old(self).dict.indent as int,
                    "BC".spec_bytes(),
                    Seq::empty(),
                ),
                1,
            ),
            *final(r.dict.buf) == *final(old(self).dict.buf),
            *final(self) == *final(r),
    {
        let ghost before = self.dict.buf@;
        let ghost pretty = self.dict.settings.pretty;
        let ghost indent = self.dict.indent as int;
        let ghost k = dict_key_bytes(pretty, indent, "BC".spec_bytes());
        self.dict.insert(Name("BC".as_bytes())).array().finish();
        assert(array_tokens_bytes(before + k + seq![LBRACKET], 0, pretty, Seq::empty())
            =~= Seq::<u8>::empty());
        assert(self.dict.buf@ =~= before + dict_tokens_entry_bytes(
            before,
            pretty,
            indent,
            "BC".spec_bytes(),
            Seq::empty(),
        ));
        self
    }

    /// Write the `/BG` attribute forcing a transparent color. This sets the
    /// widget annotation's background color.
    pub fn background_color_transparent(&mut self) -> (r: &mut Self)
        requires
            0 <= old(self).dict.len < i32::MAX,
        ensures
            dict_grown(
                old(self).dict,
                r.dict,
                dict_tokens_entry_bytes(
                    old(self).dict.buf@,
                    old(self).dict.settings.pretty,
                    old(self).dict.indent as int,
                    "BG".spec_bytes(),
                    Seq::empty(),
                ),
                1,
            ),
            *final(r.dict.buf) == *final(old(self).dict.buf),
            *final(self) == *final(r),
    {
        let ghost before = self.dict.buf@;
        let ghost pretty = self.dict.settings.pretty;
        let ghost indent = self.dict.indent as int;
        let ghost k = dict_key_bytes(pretty, indent, "BG".spec_bytes());
        self.dict.insert(Name("BG".as_bytes())).array().finish();
        assert(array_tokens_bytes(before + k + seq![LBRACKET], 0, pretty, Seq::empty())
            =~= Seq::<u8>::empty());
        assert(self.dict.buf@ =~= before + dict_tokens_entry_bytes(
            before,
            pretty,
            indent,
            "BG".spec_bytes(),
            Seq::empty(),
        ));
        self
    }
}

/// Attributes with real-number values.
impl Annotation<'_> {
    /// Write the `/Rect` attribute. This is the location and dimensions of the
    /// annotation on the page.
    pub fn rect(&mut self, rect: Rect) -> (r: &mut Self)
        requires
            0 <= old(self).dict.len < i32::MAX,
            rect.spec_writable(),
        ensures
            dict_pair_appended(old(self).dict, r.dict, "Rect".spec_bytes(), rect),
            *final(r.dict.buf) == *final(old(self).dict.buf),
            *final(self) == *final(r),
    {
        self.dict.pair(Name("Rect".as_bytes()), rect);
        self
    }

    /// Write the `/C` attribute using a grayscale color. This sets the
    /// annotations background color and its popup title bar color. PDF 1.1+.
    pub fn color_gray(&mut self, gray: Real) -> (r: &mut Self)
        requires
            0 <= old(self).dict.len < i32::MAX,
            gray.spec_writable(),
        ensures
            dict_items_appended(old(self).dict, r.dict, "C".spec_bytes(), seq![gray]),
            *final(r.dict.buf) == *final(old(self).dict.buf),
            *final(self) == *final(r),
    {
        let values = [gray];
        assert(values@ =~= seq![gray]);
        write_items_entry(&mut self.dict, Name("C".as_bytes()), values.as_slice());
        self
    }

    /// Write the `/C` attribute using an RGB color. This sets the annotations
    /// background color and its popup title bar color. PDF 1.1+.
    pub fn color_rgb(&mut self, r: Real, g: Real, b: Real) -> (this: &mut Self)
        requires
            0 <= old(self).dict.len < i32::MAX,
            r.spec_writable(),
            g.spec_writable(),
            b.spec_writable(),
        ensures
            dict_items_appended(old(self).dict, this.dict, "C".spec_bytes(), seq![r, g, b]),
            *final(this.dict.buf) == *final(old(self).dict.buf),
            *final(self) == *final(this),
    {
        let values = [r, g, b];
        assert(values@ =~= seq![r, g, b]);
        write_items_entry(&mut self.dict, Name("C".as_bytes()), values.as_slice());
        self
    }

    /// Write the `/C` attribute using a CMYK color. This sets the annotations
    /// background color and its popup title bar color. PDF 1.1+.
    pub fn color_cmyk(&mut self, c: Real, m: Real, y: Real, k: Real) -> (r: &mut Self)
        requires
            0 <= old(self).dict.len < i32::MAX,
            c.spec_writable(),
            m.spec_writable(),
            y.spec_writable(),
            k.spec_writable(),
        ensures
            dict_items_appended(old(self).dict, r.dict, "C".spec_bytes(), seq![c, m, y, k]),
            *final(r.dict.buf) == *final(old(self).dict.buf),
            *final(self) == *final(r),
    {
        let values = [c, m, y, k];
        assert(values@ =~= seq![c, m, y, k]);
        write_items_entry(&mut self.dict, Name("C".as_bytes()), values.as_slice());
        self
    }

    /// Write the `/QuadPoints` attribute, specifying the region in which the
    /// link should be activated. PDF 1.6+.
    pub fn quad_points(&mut self, coordinates: &[Real]) -> (r: &mut Self)
        requires
            0 <= old(self).dict.len < i32::MAX,
            coordinates@.len() <= i32::MAX,
            all_writable(coordinates@),
        ensures
            dict_items_appended(old(self).dict, r.dict, "QuadPoints".spec_bytes(), coordinates@),
            *final(r.dict.buf) == *final(old(self).dict.buf),
            *final(self) == *final(r),
    {
        write_items_entry(&mut self.dict, Name("QuadPoints".as_bytes()), coordinates);
        self
    }

    /// Write the `/L` attribute. This defines the start and end point of a
    /// line annotation
    pub fn line_to(&mut self, x1: Real, y1: Real, x2: Real, y2: Real) -> (r: &mut Self)
        requires
            0 <= old(self).dict.len < i32::MAX,
            x1.spec_writable(),
            y1.spec_writable(),
            x2.spec_writable(),
            y2.spec_writable(),
        ensures
            dict_items_appended(old(self).dict, r.dict, "L".spec_bytes(), seq![x1, y1, x2, y2]),
            *final(r.dict.buf) == *final(old(self).dict.buf),
            *final(self) == *final(r),
    {
        let values = [x1, y1, x2, y2];
        assert(values@ =~= seq![x1, y1, x2, y2]);
        write_items_entry(&mut self.dict, Name("L".as_bytes()), values.as_slice());
        self
    }
}

/// Attributes with real-number values.
impl Appearance<'_> {
    /// Write the `/BC` attribute using a grayscale color. This sets the
    /// widget annotation's border color.
    pub fn border_color_gray(&mut self, gray: Real) -> (r: &mut Self)
        requires
            0 <= old(self).dict.len < i32::MAX,
            gray.spec_writable(),
        ensures
            dict_items_appended(old(self).dict, r.dict, "BC".spec_bytes(), seq![gray]),
            *final(r.dict.buf) == *final(old(self).dict.buf),
            *final(self) == *final(r),
    {
        let values = [gray];
        assert(values@ =~= seq![gray]);
        write_items_entry(&mut self.dict, Name("BC".as_bytes()), values.as_slice());
        self
    }

    /// Write the `/BC` attribute using an RGB color. This sets the widget
    /// annotation's border color.
    pub fn border_color_rgb(&mut self, r: Real, g: Real, b: Real) -> (this: &mut Self)
        requires
            0 <= old(self).dict.len < i32::MAX,
            r.spec_writable(),
            g.spec_writable(),
            b.spec_writable(),
        ensures
            dict_items_appended(old(self).dict, this.dict, "BC".spec_bytes(), seq![r, g, b]),
            *final(this.dict.buf) == *final(old(self).dict.buf),
            *final(self) == *final(this),
    {
        let values = [r, g, b];
        assert(values@ =~= seq![r, g, b]);
        write_items_entry(&mut self.dict, Name("BC".as_bytes()), values.as_slice());
        self
    }

    /// Write the `/BC` attribute using an RGB color. This sets the widget
    /// annotation's border color.
    pub fn border_color_cymk(&mut self, c: Real, y: Real, m: Real, k: Real) -> (r: &mut Self)
        requires
            0 <= old(self).dict.len < i32::MAX,
            c.spec_writable(),
            y.spec_writable(),
            m.spec_writable(),
            k.spec_writable(),
        ensures
            dict_items_appended(old(self).dict, r.dict, "BC".spec_bytes(), seq![c, y, m, k]),
            *final(r.dict.buf) == *final(old(self).dict.buf),
            *final(self) == *final(r),
    {
        let values = [c, y, m, k];
        assert(values@ =~= seq![c, y, m, k]);
        write_items_entry(&mut self.dict, Name("BC".as_bytes()), values.as_slice());
        self
    }

    /// Write the `/BG` attribute using a grayscale color. This sets the
    /// widget annotation's backround color.
    pub fn background_color_gray(&mut self, gray: Real) -> (r: &mut Self)
        requires
            0 <= old(self).dict.len < i32::MAX,
            gray.spec_writable(),
        ensures
            dict_items_appended(old(self).dict, r.dict, "BG".spec_bytes(), seq![gray]),
            *final(r.dict.buf) == *final(old(self).dict.buf),
            *final(self) == *final(r),
    {
        let values = [gray];
        assert(values@ =~= seq![gray]);
        write_items_entry(&mut self.dict, Name("BG".as_bytes()), values.as_slice());
        self
    }

    /// Write the `/BG` attribute using an RGB color. This sets the widget
    /// annotation's backround color.
    pub fn background_color_rgb(&mut self, r: Real, g: Real, b: Real) -> (this: &mut Self)
        requires
            0 <= old(self).dict.len < i32::MAX,
            r.spec_writable(),
            g.spec_writable(),
            b.spec_writable(),
        ensures
            dict_items_appended(old(self).dict, this.dict, "BG".spec_bytes(), seq![r, g, b]),
            *final(this.dict.buf) == *final(old(self).dict.buf),
            *final(self) == *final(this),
    {
        let values = [r, g, b];
        assert(values@ =~= seq![r, g, b]);
        write_items_entry(&mut self.dict, Name("BG".as_bytes()), values.as_slice());
        self
    }

    /// Write the `/BG` attribute using an RGB color. This sets the widget
    /// annotation's backround color.
    pub fn background_color_cymk(&mut self, c: Real, y: Real, m: Real, k: Real) -> (r: &mut Self)
        requires
            0 <= old(self).dict.len < i32::MAX,
            c.spec_writable(),
            y.spec_writable(),
            m.spec_writable(),
            k.spec_writable(),
        ensures
            dict_items_appended(old(self).dict, r.dict, "BG".spec_bytes(), seq![c, y, m, k]),
            *final(r.dict.buf) == *final(old(self).dict.buf),
            *final(self) == *final(r),
    {
        let values = [c, y, m, k];
        assert(values@ =~= seq![c, y, m, k]);
        write_items_entry(&mut self.dict, Name("BG".as_bytes()), values.as_slice());
        self
    }
}

/// Attributes with real-number values.
impl IconFit<'_> {
    /// Write the `/A` attribute. This sets the widget annotation's leftover
    /// space if proportional scaling is applied given as fractions between
    /// `0.0` and `1.0`.
    pub fn leftover_space(&mut self, x: Real, y: Real) -> (r: &mut Self)
        requires
            0 <= old(self).dict.len < i32::MAX,
            x.spec_writable(),
            y.spec_writable(),
        ensures
            dict_items_appended(old(self).dict, r.dict, "A".spec_bytes(), seq![x, y]),
            *final(r.dict.buf) == *final(old(self).dict.buf),
            *final(self) == *final(r),
    {
        let values = [x, y];
        assert(values@ =~= seq![x, y]);
        write_items_entry(&mut self.dict, Name("A".as_bytes()), values.as_slice());
        self
    }
}

/// Attributes with real-number values.
impl BorderStyle<'_> {
    /// Write the `/W` attribute. This is the width of the border in points.
    pub fn width(&mut self, points: Real) -> (r: &mut Self)
        requires
            0 <= old(self).dict.len < i32::MAX,
            points.spec_writable(),
        ensures
            dict_pair_appended(old(self).dict, r.dict, "W".spec_bytes(), points),
            *final(r.dict.buf) == *final(old(self).dict.buf),
            *final(self) == *final(r),
    {
        self.dict.pair(Name("W".as_bytes()), points);
        self
    }
}

/// Attributes with real-number values.
impl BorderStyle<'_> {
    /// Write the `/D` attribute to set the repeating lengths of dashes and gaps
    /// in between.
    pub fn dashes(&mut self, dash_pattern: &[Real]) -> (r: &mut Self)
        requires
            0 <= old(self).dict.len < i32::MAX,
            dash_pattern@.len() <= i32::MAX,
            all_writable(dash_pattern@),
        ensures
            dict_items_appended(old(self).dict, r.dict, "D".spec_bytes(), dash_pattern@),
            *final(r.dict.buf) == *final(old(self).dict.buf),
            *final(self) == *final(r),
    {
        write_items_entry(&mut self.dict, Name("D".as_bytes()), dash_pattern);
        self
    }
}

/// The `/Border` entry of an annotation: the horizontal and vertical corner
/// radii, the width and, if there is one, the dash pattern.
pub open spec fn border_entry_bytes(
    before: Seq<u8>,
    pretty: bool,
    indent: int,
    h_radius: Real,
    v_radius: Real,
    width: Real,
    dash_pattern: Option<Seq<Real>>,
) -> Seq<u8> {
    let k = dict_key_bytes(pretty, indent, "Border".spec_bytes());
    let open = before + k + seq![LBRACKET];
    let three = array_items_bytes(open, 0, pretty, seq![h_radius, v_radius, width]);
    let dash = match dash_pattern {
        Some(pattern) => {
            let sep = array_separator(3, pretty);
            sep + seq![LBRACKET] + array_items_bytes(open + three + sep + seq![LBRACKET], 0, pretty, pattern)
                + array_close_bytes(false, pretty)
        },
        None => Seq::empty(),
    };
    k + seq![LBRACKET] + three + dash + array_close_bytes(false, pretty)
}

impl Annotation<'_> {
    /// Write the `/Border` attribute. This describes the look of the border
    /// around the annotation, including width and horizontal and vertical
    /// border radii. The function may also receive a dash pattern which
    /// specifies the lengths and gaps of the border segments on a dashed
    /// border. Although all PDF versions accept `/Border`, this feature
    /// specifically is only known to be implemented in Acrobat.
    pub fn border(
        &mut self,
        h_radius: Real,
        v_radius: Real,
        width: Real,
        dash_pattern: Option<&[Real]>,
    ) -> (r: &mut Self)
        requires
            0 <= old(self).dict.len < i32::MAX,
            h_radius.spec_writable(),
            v_radius.spec_writable(),
            width.spec_writable(),
            dash_pattern matches Some(p) ==> p@.len() <= i32::MAX && all_writable(p@),
        ensures
            dict_grown(
                old(self).dict,
                r.dict,
                border_entry_bytes(
                    old(self).dict.buf@,
                    old(self).dict.settings.pretty,
                    old(self).dict.indent as int,
                    h_radius,
                    v_radius,
                    width,
                    match dash_pattern {
                        Some(p) => Some(p@),
                        None => None,
                    },
                ),
                1,
            ),
            *final(r.dict.buf) == *final(old(self).dict.buf),
            *final(self) == *final(r),
    {
        let ghost before = self.dict.buf@;
        let ghost pretty = self.dict.settings.pretty;
        let ghost indent = self.dict.indent as int;
        let ghost k = dict_key_bytes(pretty, indent, "Border".spec_bytes());
        let mut array = self.dict.insert(Name("Border".as_bytes())).array();
        let ghost open = array.buf@;
        assert(open == before + k + seq![LBRACKET]);
        let values = [h_radius, v_radius, width];
        assert(values@ =~= seq![h_radius, v_radius, width]);
        array.items(values.as_slice());
        let ghost three = array_items_bytes(open, 0, pretty, seq![h_radius, v_radius, width]);
        assert(array.buf@ == open + three);
        let ghost dash = match dash_pattern {
            Some(p) => {
                let sep = array_separator(3, pretty);
                sep + seq![LBRACKET] + array_items_bytes(open + three + sep + seq![LBRACKET], 0, pretty, p@)
                    + array_close_bytes(false, pretty)
            },
            None => Seq::empty(),
        };
        match dash_pattern {
            Some(pattern) => {
                let mut inner = array.push().array();
                assert(inner.buf@ =~= open + three + array_separator(3, pretty) + seq![LBRACKET]);
                inner.items(pattern);
                inner.finish();
            },
            None => {},
        }
        assert(array.buf@ =~= open + three + dash);
        array.finish();
        assert(self.dict.buf@ =~= before + border_entry_bytes(
            before,
            pretty,
            indent,
            h_radius,
            v_radius,
            width,
            match dash_pattern {
                Some(p) => Some(p@),
                None => None,
            },
        ));
        self
    }
}

// ---------------------------------------------------------------------------
// Writers.
// ---------------------------------------------------------------------------

/// Writer for an _annotation dictionary_.
///
/// An array of this struct is created by [`Page::annotations`].
pub struct Annotation<'a> {
    /// The underlying dictionary.
    pub dict: Dict<'a>,
}

impl<'a> Annotation<'a> {
    /// Start writing the dictionary on an object.
    pub(crate) fn start(obj: Obj<'a>) -> (r: Self)
        ensures
            dict_started(
                r.dict,
                old(obj.buf)@,
                obj.indirect,
                obj.indent,
                obj.settings,
                Some("Annot".spec_bytes()),
                None,
            ),
            r.dict.buf.spec_limits() == dict_start_limits(old(obj.buf).spec_limits(), Some("Annot".spec_bytes()), None),
            *final(r.dict.buf) == *final(obj.buf),
    {
        Self { dict: start_dict(obj, Some("Annot"), None) }
    }

    /// Write the `/Subtype` attribute to tell the viewer the type of this
    /// particular annotation.
    pub fn subtype(&mut self, kind: AnnotationType) -> (r: &mut Self)
        requires
            0 <= old(self).dict.len < i32::MAX,
        ensures
            dict_name_pair_appended(old(self).dict, r.dict, "Subtype".spec_bytes(), kind.spec_name()),
            *final(r.dict.buf) == *final(old(self).dict.buf),
            *final(self) == *final(r),
    {
        self.dict.pair(Name("Subtype".as_bytes()), kind.to_name());
        self
    }

    /// Write the `/Contents` attribute. This is the content or alt-text,
    /// depending on the [`AnnotationType`].
    pub fn contents(&mut self, text: TextStr) -> (r: &mut Self)
        requires
            0 <= old(self).dict.len < i32::MAX,
        ensures
            dict_pair_appended(old(self).dict, r.dict, "Contents".spec_bytes(), text),
            *final(r.dict.buf) == *final(old(self).dict.buf),
            *final(self) == *final(r),
    {
        self.dict.pair(Name("Contents".as_bytes()), text);
        self
    }

    /// Write the `/NM` attribute. This uniquely identifies the annotation on the
    /// page. PDF 1.3+.
    pub fn name(&mut self, text: TextStr) -> (r: &mut Self)
        requires
            0 <= old(self).dict.len < i32::MAX,
        ensures
            dict_pair_appended(old(self).dict, r.dict, "NM".spec_bytes(), text),
            *final(r.dict.buf) == *final(old(self).dict.buf),
            *final(self) == *final(r),
    {
        self.dict.pair(Name("NM".as_bytes()), text);
        self
    }

    /// Write the `/M` attribute, specifying the date the annotation was last
    /// modified. PDF 1.1+.
    pub fn modified(&mut self, date: Date) -> (r: &mut Self)
        requires
            0 <= old(self).dict.len < i32::MAX,
        ensures
            dict_pair_appended(old(self).dict, r.dict, "M".spec_bytes(), date),
            *final(r.dict.buf) == *final(old(self).dict.buf),
            *final(self) == *final(r),
    {
        self.dict.pair(Name("M".as_bytes()), date);
        self
    }

    /// Write the `/F` attribute.
    ///
    /// The flags are given by their bits.
    pub fn flags(&mut self, flags: u32) -> (r: &mut Self)
        requires
            0 <= old(self).dict.len < i32::MAX,
            flags as i32 != i32::MIN,
        ensures
            dict_pair_appended(old(self).dict, r.dict, "F".spec_bytes(), flags as i32),
            *final(r.dict.buf) == *final(old(self).dict.buf),
            *final(self) == *final(r),
    {
        self.dict.pair(Name("F".as_bytes()), flags as i32);
        self
    }

    /// Start writing the `/BS` attribute. These are some more elaborate border
    /// settings taking precedence over `/B` for some annotation types. PDF 1.2+.
    pub fn border_style(&mut self) -> (r: BorderStyle<'_>)
        requires
            0 <= old(self).dict.len < i32::MAX,
        ensures
            dict_started(
                r.dict,
                old(self).dict.buf@ + dict_key_bytes(
                    old(self).dict.settings.pretty,
                    old(self).dict.indent as int,
                    "BS".spec_bytes(),
                ),
                false,
                old(self).dict.indent,
                old(self).dict.settings,
                Some("Border".spec_bytes()),
                None,
            ),
            r.dict.buf.spec_limits() == dict_start_limits(
                old(self).dict.buf.spec_limits().with_name_len("BS".spec_bytes().len() as int),
                Some("Border".spec_bytes()),
                None,
            ),
            final(self).dict.len == old(self).dict.len + 1,
            final(self).dict.indirect == old(self).dict.indirect,
            final(self).dict.indent == old(self).dict.indent,
            final(self).dict.settings == old(self).dict.settings,
            *final(self).dict.buf == *final(r.dict.buf),
            *final(final(self).dict.buf) == *final(old(self).dict.buf),
    {
        BorderStyle::start(self.dict.insert(Name("BS".as_bytes())))
    }

    /// Write the `/StructParent` attribute to indicate the [structure tree
    /// element][StructElement] this annotation belongs to. PDF 1.3+.
    pub fn struct_parent(&mut self, key: i32) -> (r: &mut Self)
        requires
            0 <= old(self).dict.len < i32::MAX,
            key != i32::MIN,
        ensures
            dict_pair_appended(old(self).dict, r.dict, "StructParent".spec_bytes(), key),
            *final(r.dict.buf) == *final(old(self).dict.buf),
            *final(self) == *final(r),
    {
        self.dict.pair(Name("StructParent".as_bytes()), key);
        self
    }

    /// Start writing the `/A` dictionary. Only permissible for the subtypes
    /// `Link` and `Widget`.
    pub fn action(&mut self) -> (r: Action<'_>)
        requires
            0 <= old(self).dict.len < i32::MAX,
        ensures
            dict_started(
                r.dict,
                old(self).dict.buf@ + dict_key_bytes(
                    old(self).dict.settings.pretty,
                    old(self).dict.indent as int,
                    "A".spec_bytes(),
                ),
                false,
                old(self).dict.indent,
                old(self).dict.settings,
                Some("Action".spec_bytes()),
                None,
            ),
            r.dict.buf.spec_limits() == dict_start_limits(
                old(self).dict.buf.spec_limits().with_name_len("A".spec_bytes().len() as int),
                Some("Action".spec_bytes()),
                None,
            ),
            final(self).dict.len == old(self).dict.len + 1,
            final(self).dict.indirect == old(self).dict.indirect,
            final(self).dict.indent == old(self).dict.indent,
            final(self).dict.settings == old(self).dict.settings,
            *final(self).dict.buf == *final(r.dict.buf),
            *final(final(self).dict.buf) == *final(old(self).dict.buf),
    {
        Action::start(self.dict.insert(Name("A".as_bytes())))
    }

    /// Write the `/H` attribute to set what effect is used to convey that the
    /// user is pressing a link or widget annotation. Only permissible for the
    /// subtypes `Link` and `Widget`. PDF 1.2+.
    pub fn highlight(&mut self, effect: HighlightEffect) -> (r: &mut Self)
        requires
            0 <= old(self).dict.len < i32::MAX,
        ensures
            dict_name_pair_appended(old(self).dict, r.dict, "H".spec_bytes(), effect.spec_name()),
            *final(r.dict.buf) == *final(old(self).dict.buf),
            *final(self) == *final(r),
    {
        self.dict.pair(Name("H".as_bytes()), effect.to_name());
        self
    }

    /// Write the `/T` attribute. This is in the title bar of markup annotations
    /// and should be the name of the annotation author. PDF 1.1+.
    pub fn author(&mut self, text: TextStr) -> (r: &mut Self)
        requires
            0 <= old(self).dict.len < i32::MAX,
        ensures
            dict_pair_appended(old(self).dict, r.dict, "T".spec_bytes(), text),
            *final(r.dict.buf) == *final(old(self).dict.buf),
            *final(self) == *final(r),
    {
        self.dict.pair(Name("T".as_bytes()), text);
        self
    }

    /// Write the `/Subj` attribute. This is the subject of the annotation.
    /// PDF 1.5+.
    pub fn subject(&mut self, text: TextStr) -> (r: &mut Self)
        requires
            0 <= old(self).dict.len < i32::MAX,
        ensures
            dict_pair_appended(old(self).dict, r.dict, "Subj".spec_bytes(), text),
            *final(r.dict.buf) == *final(old(self).dict.buf),
            *final(self) == *final(r),
    {
        self.dict.pair(Name("Subj".as_bytes()), text);
        self
    }

    /// Start writing the `/FS` attribute, setting which file to reference.
    pub fn file_spec(&mut self) -> (r: FileSpec<'_>)
        requires
            0 <= old(self).dict.len < i32::MAX,
        ensures
            dict_started(
                r.dict,
                old(self).dict.buf@ + dict_key_bytes(
                    old(self).dict.settings.pretty,
                    old(self).dict.indent as int,
                    "FS".spec_bytes(),
                ),
                false,
                old(self).dict.indent,
                old(self).dict.settings,
                Some("Filespec".spec_bytes()),
                None,
            ),
            r.dict.buf.spec_limits() == dict_start_limits(
                old(self).dict.buf.spec_limits().with_name_len("FS".spec_bytes().len() as int),
                Some("Filespec".spec_bytes()),
                None,
            ),
            final(self).dict.len == old(self).dict.len + 1,
            final(self).dict.indirect == old(self).dict.indirect,
            final(self).dict.indent == old(self).dict.indent,
            final(self).dict.settings == old(self).dict.settings,
            *final(self).dict.buf == *final(r.dict.buf),
            *final(final(self).dict.buf) == *final(old(self).dict.buf),
    {
        FileSpec::start(self.dict.insert(Name("FS".as_bytes())))
    }

    /// Write the `/Name` attribute. Refer to the specification to see which
    /// names are allowed for which annotation types.
    pub fn icon(&mut self, icon: AnnotationIcon) -> (r: &mut Self)
        requires
            0 <= old(self).dict.len < i32::MAX,
        ensures
            dict_name_pair_appended(old(self).dict, r.dict, "Name".spec_bytes(), icon.spec_name()),
            *final(r.dict.buf) == *final(old(self).dict.buf),
            *final(self) == *final(r),
    {
        self.dict.pair(Name("Name".as_bytes()), icon.to_name());
        self
    }

    /// Start writing the `/MK` dictionary. Only permissible for the subtype
    /// `Widget`.
    pub fn appearance(&mut self) -> (r: Appearance<'_>)
        requires
            0 <= old(self).dict.len < i32::MAX,
        ensures
            dict_started(
                r.dict,
                old(self).dict.buf@ + dict_key_bytes(
                    old(self).dict.settings.pretty,
                    old(self).dict.indent as int,
                    "MK".spec_bytes(),
                ),
                false,
                old(self).dict.indent,
                old(self).dict.settings,
                None,
                None,
            ),
            r.dict.buf.spec_limits() == dict_start_limits(
                old(self).dict.buf.spec_limits().with_name_len("MK".spec_bytes().len() as int),
                None,
                None,
            ),
            final(self).dict.len == old(self).dict.len + 1,
            final(self).dict.indirect == old(self).dict.indirect,
            final(self).dict.indent == old(self).dict.indent,
            final(self).dict.settings == old(self).dict.settings,
            *final(self).dict.buf == *final(r.dict.buf),
            *final(final(self).dict.buf) == *final(old(self).dict.buf),
    {
        Appearance::start(self.dict.insert(Name("MK".as_bytes())))
    }

    /// Write the `/Parent` attribute. Only permissible for the subtype
    /// `Widget`.
    pub fn parent(&mut self, id: Ref) -> (r: &mut Self)
        requires
            0 <= old(self).dict.len < i32::MAX,
        ensures
            dict_pair_appended(old(self).dict, r.dict, "Parent".spec_bytes(), id),
            *final(r.dict.buf) == *final(old(self).dict.buf),
            *final(self) == *final(r),
    {
        self.dict.pair(Name("Parent".as_bytes()), id);
        self
    }

    /// Finish writing the dictionary.
    pub fn finish(self)
        requires
            self.dict.len >= 0,
            self.dict.indent >= 2,
        ensures
            final(self.dict.buf)@ == old(self.dict.buf)@ + dict_close_bytes(
                self.dict.len as int,
                self.dict.settings.pretty,
                self.dict.indent as int,
                self.dict.indirect,
            ),
            final(self.dict.buf).spec_limits() == old(self.dict.buf).spec_limits().with_dict_entries(self.dict.len as int),
    {
        self.dict.finish();
    }
}

/// Writer for an _appearance dictionary_.
///
/// This struct is created by [`Annotation::appearance`].
pub struct Appearance<'a> {
    /// The underlying dictionary.
    pub dict: Dict<'a>,
}

impl<'a> Appearance<'a> {
    /// Start writing the dictionary on an object.
    pub(crate) fn start(obj: Obj<'a>) -> (r: Self)
        ensures
            dict_started(
                r.dict,
                old(obj.buf)@,
                obj.indirect,
                obj.indent,
                obj.settings,
                None,
                None,
            ),
            r.dict.buf.spec_limits() == dict_start_limits(old(obj.buf).spec_limits(), None, None),
            *final(r.dict.buf) == *final(obj.buf),
    {
        Self { dict: start_dict(obj, None, None) }
    }

    /// Write the `/R` attribute. This is the number of degrees the widget
    /// annotation should be rotated by counterclockwise relative to its page
    /// when displayed. This should be a multiple of 90.
    pub fn rotate(&mut self, degrees: i32) -> (r: &mut Self)
        requires
            0 <= old(self).dict.len < i32::MAX,
            degrees != i32::MIN,
        ensures
            dict_pair_appended(old(self).dict, r.dict, "R".spec_bytes(), degrees),
            *final(r.dict.buf) == *final(old(self).dict.buf),
            *final(self) == *final(r),
    {
        self.dict.pair(Name("R".as_bytes()), degrees);
        self
    }

    /// Write the `/CA` attribute. This sets the widget annotation's normal
    /// caption. Only permissible for button fields.
    pub fn normal_caption(&mut self, caption: TextStr) -> (r: &mut Self)
        requires
            0 <= old(self).dict.len < i32::MAX,
        ensures
            dict_pair_appended(old(self).dict, r.dict, "CA".spec_bytes(), caption),
            *final(r.dict.buf) == *final(old(self).dict.buf),
            *final(self) == *final(r),
    {
        self.dict.pair(Name("CA".as_bytes()), caption);
        self
    }

    /// Write the `/RC` attribute. This sets the widget annotation's rollover
    /// (hover) caption. Only permissible for push button fields.
    pub fn rollover_caption(&mut self, caption: TextStr) -> (r: &mut Self)
        requires
            0 <= old(self).dict.len < i32::MAX,
        ensures
            dict_pair_appended(old(self).dict, r.dict, "RC".spec_bytes(), caption),
            *final(r.dict.buf) == *final(old(self).dict.buf),
            *final(self) == *final(r),
    {
        self.dict.pair(Name("RC".as_bytes()), caption);
        self
    }

    /// Write the `/AC` attribute. This sets the widget annotation's alternate
    /// (down) caption. Only permissible for push button fields.
    pub fn alterante_caption(&mut self, caption: TextStr) -> (r: &mut Self)
        requires
            0 <= old(self).dict.len < i32::MAX,
        ensures
            dict_pair_appended(old(self).dict, r.dict, "AC".spec_bytes(), caption),
            *final(r.dict.buf) == *final(old(self).dict.buf),
            *final(self) == *final(r),
    {
        self.dict.pair(Name("AC".as_bytes()), caption);
        self
    }

    /// Write the `/I` attribute. This sets the widget annotation's normal icon
    /// as a reference to a [`FormXObject`]. Only permissible for push button
    /// fields.
    pub fn normal_icon(&mut self, id: Ref) -> (r: &mut Self)
        requires
            0 <= old(self).dict.len < i32::MAX,
        ensures
            dict_pair_appended(old(self).dict, r.dict, "I".spec_bytes(), id),
            *final(r.dict.buf) == *final(old(self).dict.buf),
            *final(self) == *final(r),
    {
        self.dict.pair(Name("I".as_bytes()), id);
        self
    }

    /// Write the `/RI` attribute. This sets the widget annotation's rollover
    /// (hover) icon as a reference to a [`FormXObject`]. Only permissible for
    /// push button fields.
    pub fn rollover_icon(&mut self, id: Ref) -> (r: &mut Self)
        requires
            0 <= old(self).dict.len < i32::MAX,
        ensures
            dict_pair_appended(old(self).dict, r.dict, "RI".spec_bytes(), id),
            *final(r.dict.buf) == *final(old(self).dict.buf),
            *final(self) == *final(r),
    {
        self.dict.pair(Name("RI".as_bytes()), id);
        self
    }

    /// Write the `/IX` attribute. This sets the widget annotation's alternate
    /// (down) icon as a reference to a [`FormXObject`]. Only permissible for
    /// push button fields.
    pub fn alternate_icon(&mut self, id: Ref) -> (r: &mut Self)
        requires
            0 <= old(self).dict.len < i32::MAX,
        ensures
            dict_pair_appended(old(self).dict, r.dict, "IX".spec_bytes(), id),
            *final(r.dict.buf) == *final(old(self).dict.buf),
            *final(self) == *final(r),
    {
        self.dict.pair(Name("IX".as_bytes()), id);
        self
    }

    /// Start writing the `/IF` dictonary. This sets the widget annotation's
    /// icon display characteristics. Only permissible for push button fields.
    pub fn icon_fit(&mut self) -> (r: IconFit<'_>)
        requires
            0 <= old(self).dict.len < i32::MAX,
        ensures
            dict_started(
                r.dict,
                old(self).dict.buf@ + dict_key_bytes(
                    old(self).dict.settings.pretty,
                    old(self).dict.indent as int,
                    "IF".spec_bytes(),
                ),
                false,
                old(self).dict.indent,
                old(self).dict.settings,
                None,
                None,
            ),
            r.dict.buf.spec_limits() == dict_start_limits(
                old(self).dict.buf.spec_limits().with_name_len("IF".spec_bytes().len() as int),
                None,
                None,
            ),
            final(self).dict.len == old(self).dict.len + 1,
            final(self).dict.indirect == old(self).dict.indirect,
            final(self).dict.indent == old(self).dict.indent,
            final(self).dict.settings == old(self).dict.settings,
            *final(self).dict.buf == *final(r.dict.buf),
            *final(final(self).dict.buf) == *final(old(self).dict.buf),
    {
        IconFit::start(self.dict.insert(Name("IF".as_bytes())))
    }

    /// Write the `/TP` attribute. This sets the widget annotation's caption
    /// position relative to the annotation's icon. Only permissible for push
    /// button fields.
    pub fn text_position(&mut self, position: TextPosition) -> (r: &mut Self)
        requires
            0 <= old(self).dict.len < i32::MAX,
        ensures
            dict_pair_appended(old(self).dict, r.dict, "TP".spec_bytes(), position.spec_int()),
            *final(r.dict.buf) == *final(old(self).dict.buf),
            *final(self) == *final(r),
    {
        self.dict.pair(Name("TP".as_bytes()), position.to_int());
        self
    }

    /// Finish writing the dictionary.
    pub fn finish(self)
        requires
            self.dict.len >= 0,
            self.dict.indent >= 2,
        ensures
            final(self.dict.buf)@ == old(self.dict.buf)@ + dict_close_bytes(
                self.dict.len as int,
                self.dict.settings.pretty,
                self.dict.indent as int,
                self.dict.indirect,
            ),
            final(self.dict.buf).spec_limits() == old(self.dict.buf).spec_limits().with_dict_entries(self.dict.len as int),
    {
        self.dict.finish();
    }
}

/// Writer for an _icon fit dictionary_.
///
/// This struct is created by [`Appearance::icon_fit`].
pub struct IconFit<'a> {
    /// The underlying dictionary.
    pub dict: Dict<'a>,
}

impl<'a> IconFit<'a> {
    /// Start writing the dictionary on an object.
    pub(crate) fn start(obj: Obj<'a>) -> (r: Self)
        ensures
            dict_started(
                r.dict,
                old(obj.buf)@,
                obj.indirect,
                obj.indent,
                obj.settings,
                None,
                None,
            ),
            r.dict.buf.spec_limits() == dict_start_limits(old(obj.buf).spec_limits(), None, None),
            *final(r.dict.buf) == *final(obj.buf),
    {
        Self { dict: start_dict(obj, None, None) }
    }

    /// Write the `/SW` attribute. This sets under which circumstances the icon
    /// of the widget annotation should be scaled.
    pub fn scale(&mut self, value: IconScale) -> (r: &mut Self)
        requires
            0 <= old(self).dict.len < i32::MAX,
        ensures
            dict_name_pair_appended(old(self).dict, r.dict, "SW".spec_bytes(), value.spec_name()),
            *final(r.dict.buf) == *final(old(self).dict.buf),
            *final(self) == *final(r),
    {
        self.dict.pair(Name("SW".as_bytes()), value.to_name());
        self
    }

    /// Write the `/S` attribute. This sets the scaling type of this annoation.
    pub fn scale_type(&mut self, value: IconScaleType) -> (r: &mut Self)
        requires
            0 <= old(self).dict.len < i32::MAX,
        ensures
            dict_name_pair_appended(old(self).dict, r.dict, "S".spec_bytes(), value.spec_name()),
            *final(r.dict.buf) == *final(old(self).dict.buf),
            *final(self) == *final(r),
    {
        self.dict.pair(Name("S".as_bytes()), value.to_name());
        self
    }

    /// Wrtite the `/FB` attribute. This sets whether the border line width
    /// should be ignored when scaling the icon to fit the annotation bounds.
    /// PDF 1.5+.
    pub fn fit_bounds(&mut self, fit: bool) -> (r: &mut Self)
        requires
            0 <= old(self).dict.len < i32::MAX,
        ensures
            dict_pair_appended(old(self).dict, r.dict, "FB".spec_bytes(), fit),
            *final(r.dict.buf) == *final(old(self).dict.buf),
            *final(self) == *final(r),
    {
        self.dict.pair(Name("FB".as_bytes()), fit);
        self
    }

    /// Finish writing the dictionary.
    pub fn finish(self)
        requires
            self.dict.len >= 0,
            self.dict.indent >= 2,
        ensures
            final(self.dict.buf)@ == old(self.dict.buf)@ + dict_close_bytes(
                self.dict.len as int,
                self.dict.settings.pretty,
                self.dict.indent as int,
                self.dict.indirect,
            ),
            final(self.dict.buf).spec_limits() == old(self.dict.buf).spec_limits().with_dict_entries(self.dict.len as int),
    {
        self.dict.finish();
    }
}

/// Writer for an _border style dictionary_.
///
/// This struct is created by [`Annotation::border_style`].
pub struct BorderStyle<'a> {
    /// The underlying dictionary.
    pub dict: Dict<'a>,
}

impl<'a> BorderStyle<'a> {
    /// Start writing the dictionary on an object.
    pub(crate) fn start(obj: Obj<'a>) -> (r: Self)
        ensures
            dict_started(
                r.dict,
                old(obj.buf)@,
                obj.indirect,
                obj.indent,
                obj.settings,
                Some("Border".spec_bytes()),
                None,
            ),
            r.dict.buf.spec_limits() == dict_start_limits(old(obj.buf).spec_limits(), Some("Border".spec_bytes()), None),
            *final(r.dict.buf) == *final(obj.buf),
    {
        Self { dict: start_dict(obj, Some("Border"), None) }
    }

    /// Write the `/S` attribute.
    pub fn style(&mut self, style: BorderType) -> (r: &mut Self)
        requires
            0 <= old(self).dict.len < i32::MAX,
        ensures
            dict_name_pair_appended(old(self).dict, r.dict, "S".spec_bytes(), style.spec_name()),
            *final(r.dict.buf) == *final(old(self).dict.buf),
            *final(self) == *final(r),
    {
        self.dict.pair(Name("S".as_bytes()), style.to_name());
        self
    }

    /// Finish writing the dictionary.
    pub fn finish(self)
        requires
            self.dict.len >= 0,
            self.dict.indent >= 2,
        ensures
            final(self.dict.buf)@ == old(self.dict.buf)@ + dict_close_bytes(
                self.dict.len as int,
                self.dict.settings.pretty,
                self.dict.indent as int,
                self.dict.indirect,
            ),
            final(self.dict.buf).spec_limits() == old(self.dict.buf).spec_limits().with_dict_entries(self.dict.len as int),
    {
        self.dict.finish();
    }
}


/// The names under which the values of [`AnnotationType`] are written, as PDF
/// defines them.
pub proof fn lemma_annotation_type_names()
    ensures
        AnnotationType::Text.spec_name() == "Text".spec_bytes(),
        AnnotationType::Link.spec_name() == "Link".spec_bytes(),
        AnnotationType::Line.spec_name() == "Line".spec_bytes(),
        AnnotationType::Square.spec_name() == "Square".spec_bytes(),
        AnnotationType::Circle.spec_name() == "Circle".spec_bytes(),
        AnnotationType::Highlight.spec_name() == "Highlight".spec_bytes(),
        AnnotationType::Underline.spec_name() == "Underline".spec_bytes(),
        AnnotationType::Squiggly.spec_name() == "Squiggly".spec_bytes(),
        AnnotationType::StrikeOut.spec_name() == "StrikeOut".spec_bytes(),
        AnnotationType::FileAttachment.spec_name() == "FileAttachment".spec_bytes(),
        AnnotationType::Widget.spec_name() == "Widget".spec_bytes(),
{
}

/// The names under which the values of [`AnnotationIcon`] are written, as PDF
/// defines them.
pub proof fn lemma_annotation_icon_names()
    ensures
        AnnotationIcon::Comment.spec_name() == "Comment".spec_bytes(),
        AnnotationIcon::Key.spec_name() == "Key".spec_bytes(),
        AnnotationIcon::Note.spec_name() == "Note".spec_bytes(),
        AnnotationIcon::Help.spec_name() == "Help".spec_bytes(),
        AnnotationIcon::NewParagraph.spec_name() == "NewParagraph".spec_bytes(),
        AnnotationIcon::Paragraph.spec_name() == "Paragraph".spec_bytes(),
        AnnotationIcon::Insert.spec_name() == "Insert".spec_bytes(),
        AnnotationIcon::Graph.spec_name() == "Graph".spec_bytes(),
        AnnotationIcon::PushPin.spec_name() == "PushPin".spec_bytes(),
        AnnotationIcon::Paperclip.spec_name() == "Paperclip".spec_bytes(),
        AnnotationIcon::Tag.spec_name() == "Tag".spec_bytes(),
{
}

/// The names under which the values of [`IconScale`] are written, as PDF
/// defines them.
pub proof fn lemma_icon_scale_names()
    ensures
        IconScale::Always.spec_name() == "A".spec_bytes(),
        IconScale::Bigger.spec_name() == "B".spec_bytes(),
        IconScale::Smaller.spec_name() == "S".spec_bytes(),
        IconScale::Never.spec_name() == "N".spec_bytes(),
{
}

/// The names under which the values of [`IconScaleType`] are written, as PDF
/// defines them.
pub proof fn lemma_icon_scale_type_names()
    ensures
        IconScaleType::Anamorphic.spec_name() == "A".spec_bytes(),
        IconScaleType::Proportional.spec_name() == "P".spec_bytes(),
{
}

/// The names under which the values of [`HighlightEffect`] are written, as PDF
/// defines them.
pub proof fn lemma_highlight_effect_names()
    ensures
        HighlightEffect::NoEffect.spec_name() == "N".spec_bytes(),
        HighlightEffect::Invert.spec_name() == "I".spec_bytes(),
        HighlightEffect::Outline.spec_name() == "O".spec_bytes(),
        HighlightEffect::Push.spec_name() == "P".spec_bytes(),
{
}

/// The names under which the values of [`BorderType`] are written, as PDF
/// defines them.
pub proof fn lemma_border_type_names()
    ensures
        BorderType::Solid.spec_name() == "S".spec_bytes(),
        BorderType::Dashed.spec_name() == "D".spec_bytes(),
        BorderType::Beveled.spec_name() == "B".spec_bytes(),
        BorderType::Inset.spec_name() == "I".spec_bytes(),
        BorderType::Underline.spec_name() == "U".spec_bytes(),
{
}

} // verus!
