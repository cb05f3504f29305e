use vstd::prelude::*;
use vstd::string::*;

use crate::buf::{
    Buf, LimitsView, abs, decimal, digit_byte, flat_map, hex_byte, hex_u16, lemma_flat_map_append,
    lemma_flat_map_step, lemma_take_full,
    octal_byte, padded_decimal, repeat_byte,
};
use crate::chunk::Settings;

verus! {

broadcast use vstd::string::axiom_spec_iter, vstd::string::is_ascii_spec_bytes;

// ASCII codes used by the PDF syntax.
pub const NEWLINE: u8 = 10;
pub const SPACE: u8 = 32;
pub const HASH: u8 = 35;
pub const PERCENT: u8 = 37;
pub const LPAREN: u8 = 40;
pub const RPAREN: u8 = 41;
pub const SLASH: u8 = 47;
pub const LT: u8 = 60;
pub const GT: u8 = 62;
pub const LBRACKET: u8 = 91;
pub const BACKSLASH: u8 = 92;
pub const RBRACKET: u8 = 93;
pub const LBRACE: u8 = 123;
pub const RBRACE: u8 = 125;

// ---------------------------------------------------------------------------
// Primitive objects.
// ---------------------------------------------------------------------------

/// A primitive PDF object.
pub trait Primitive: Sized {
    /// The bytes that [`Primitive::write`] appends.
    spec fn spec_encoding(&self) -> Seq<u8>;

    /// Whether the encoding starts with one of the PDF delimiter characters.
    spec fn spec_starts_with_delimiter(&self) -> bool;

    /// What writing the object records in the buffer's limits.
    spec fn spec_limits_after(&self, before: LimitsView) -> LimitsView;

    /// Whether the object can be written without arithmetic overflow.
    spec fn spec_writable(&self) -> bool;

    /// Whether the primitive object starts with one of the PDF delimiter
    /// characters.
    fn starts_with_delimiter(&self) -> (r: bool)
        ensures
            r == self.spec_starts_with_delimiter(),
    ;

    /// Write the object into a buffer.
    fn write(self, buf: &mut Buf)
        requires
            self.spec_writable(),
        ensures
            final(buf)@ == old(buf)@ + self.spec_encoding(),
            final(buf).spec_limits() == self.spec_limits_after(old(buf).spec_limits()),
    ;
}

impl Primitive for bool {
    open spec fn spec_encoding(&self) -> Seq<u8> {
        if *self {
            "true".spec_bytes()
        } else {
            "false".spec_bytes()
        }
    }

    open spec fn spec_starts_with_delimiter(&self) -> bool {
        false
    }

    open spec fn spec_limits_after(&self, before: LimitsView) -> LimitsView {
        before
    }

    open spec fn spec_writable(&self) -> bool {
        true
    }

    fn starts_with_delimiter(&self) -> (r: bool) {
        false
    }

    fn write(self, buf: &mut Buf) {
        if self {
            buf.extend_slice("true".as_bytes());
        } else {
            buf.extend_slice("false".as_bytes());
        }
    }
}

impl Primitive for i32 {
    open spec fn spec_encoding(&self) -> Seq<u8> {
        decimal(*self as int)
    }

    open spec fn spec_starts_with_delimiter(&self) -> bool {
        false
    }

    open spec fn spec_limits_after(&self, before: LimitsView) -> LimitsView {
        before.with_int(*self as int)
    }

    open spec fn spec_writable(&self) -> bool {
        *self != i32::MIN
    }

    fn starts_with_delimiter(&self) -> (r: bool) {
        false
    }

    fn write(self, buf: &mut Buf) {
        buf.push_int(self);
    }
}

// ---------------------------------------------------------------------------
// Strings.
// ---------------------------------------------------------------------------

/// Whether the parentheses in `s` are balanced when the scan starts at the
/// given nesting depth: no closing parenthesis without an open one, and none
/// left open at the end.
pub open spec fn parens_balanced_from(s: Seq<u8>, depth: int) -> bool
    decreases s.len(),
{
    if s.len() == 0 {
        depth == 0
    } else if s[0] == LPAREN {
        parens_balanced_from(s.drop_first(), depth + 1)
    } else if s[0] == RPAREN {
        depth > 0 && parens_balanced_from(s.drop_first(), depth - 1)
    } else {
        parens_balanced_from(s.drop_first(), depth)
    }
}

/// Whether the parentheses in `s` are balanced.
pub open spec fn parens_balanced(s: Seq<u8>) -> bool {
    parens_balanced_from(s, 0)
}

/// Whether every byte of `s` is ASCII.
pub open spec fn all_ascii(s: Seq<u8>) -> bool {
    forall|i: int| 0 <= i < s.len() ==> s[i] < 128
}

/// How a byte of an ASCII string is written inside a literal string.
pub open spec fn literal_str_byte(b: u8, escape_parens: bool) -> Seq<u8> {
    if b == LPAREN || b == RPAREN {
        if escape_parens {
            seq![BACKSLASH, b]
        } else {
            seq![b]
        }
    } else if b == BACKSLASH {
        seq![BACKSLASH, BACKSLASH]
    } else if 32 <= b <= 126 {
        seq![b]
    } else if b == 10 {
        seq![BACKSLASH, 110u8]
    } else if b == 13 {
        seq![BACKSLASH, 114u8]
    } else if b == 9 {
        seq![BACKSLASH, 116u8]
    } else if b == 8 {
        seq![BACKSLASH, 98u8]
    } else if b == 12 {
        seq![BACKSLASH, 102u8]
    } else {
        seq![BACKSLASH] + octal_byte(b)
    }
}

/// The encoding of a byte string: a literal string `(...)` for ASCII
/// content, where parentheses are escaped unless they are balanced, and a
/// hexadecimal string `<...>` otherwise.
pub open spec fn str_encoding(s: Seq<u8>) -> Seq<u8> {
    if all_ascii(s) {
        seq![LPAREN] + flat_map(s, |b: u8| literal_str_byte(b, !parens_balanced(s))) + seq![
            RPAREN,
        ]
    } else {
        seq![LT] + flat_map(s, |b: u8| hex_byte(b)) + seq![GT]
    }
}

/// A string object (any byte sequence).
///
/// This is written as `(Thing)`.
#[derive(Debug, Copy, Clone, Eq, PartialEq, Ord, PartialOrd, Hash)]
pub struct Str<'a>(pub &'a [u8]);

impl Str<'_> {
    /// Whether the parentheses in the byte string are balanced.
    pub(crate) fn is_balanced(self) -> (r: bool)
        ensures
            r == parens_balanced(self.0@),
    {
        let s = self.0;
        let mut depth: usize = 0;
        let mut i: usize = 0;
        assert(s@.skip(0) =~= s@);
        while i < s.len()
            invariant
                i <= s@.len(),
                depth <= i,
                s@ == self.0@,
                parens_balanced(s@) == parens_balanced_from(s@.skip(i as int), depth as int),
            decreases s@.len() - i,
        {
            let byte = s[i];
            assert(s@.skip(i as int).drop_first() =~= s@.skip(i + 1));
            assert(s@.skip(i as int)[0] == byte);
            if byte == LPAREN {
                depth = depth + 1;
            } else if byte == RPAREN {
                if depth > 0 {
                    depth = depth - 1;
                } else {
                    assert(!parens_balanced_from(s@.skip(i as int), depth as int));
                    return false;
                }
            }
            i = i + 1;
        }
        assert(s@.skip(i as int).len() == 0);
        depth == 0
    }
}

/// Whether every byte of the slice is ASCII.
fn bytes_are_ascii(s: &[u8]) -> (r: bool)
    ensures
        r == all_ascii(s@),
{
    let mut i: usize = 0;
    while i < s.len()
        invariant
            i <= s@.len(),
            forall|j: int| 0 <= j < i ==> s@[j] < 128,
        decreases s@.len() - i,
    {
        if s[i] >= 128 {
            return false;
        }
        i = i + 1;
    }
    true
}

impl Primitive for Str<'_> {
    open spec fn spec_encoding(&self) -> Seq<u8> {
        str_encoding(self.0@)
    }

    open spec fn spec_starts_with_delimiter(&self) -> bool {
        true
    }

    open spec fn spec_limits_after(&self, before: LimitsView) -> LimitsView {
        before.with_str_len(self.0@.len() as int)
    }

    open spec fn spec_writable(&self) -> bool {
        true
    }

    fn starts_with_delimiter(&self) -> (r: bool) {
        true
    }

    #[verifier::spinoff_prover]
    fn write(self, buf: &mut Buf) {
        let s = self.0;
        buf.register_str_len(s.len());

        // We use:
        // - Literal strings for ASCII with nice escape sequences to make it
        //   also be represented fully in visible ASCII. We also escape
        //   parentheses because they are delimiters.
        // - Hex strings for anything non-ASCII.
        if bytes_are_ascii(s) {
            buf.reserve(s.len());
            buf.push(LPAREN);
            let ghost start = buf@;
            let ghost esc = !parens_balanced(s@);
            let ghost f = |b: u8| literal_str_byte(b, esc);
            let mut balanced: Option<bool> = None;
            let mut i: usize = 0;
            assert(s@.skip(0) =~= s@);
            while i < s.len()
                invariant
                    i <= s@.len(),
                    s@ == self.0@,
                    all_ascii(s@),
                    buf@ == start + flat_map(s@.take(i as int), f),
                    buf.spec_limits() == old(buf).spec_limits().with_str_len(s@.len() as int),
                    f == (|b: u8| literal_str_byte(b, esc)),
                    esc == !parens_balanced(s@),
                    balanced.is_some() ==> balanced == Some(parens_balanced(s@)),
                    balanced.is_none() ==> parens_balanced(s@) == parens_balanced_from(
                        s@.skip(i as int),
                        0,
                    ),
                decreases s@.len() - i,
            {
                let byte = s[i];
                proof {
                    lemma_flat_map_step(s@, i as int, f);
                    assert(s@.skip(i as int).drop_first() =~= s@.skip(i + 1));
                    assert(s@.skip(i as int)[0] == byte);
                }
                let ghost expected = literal_str_byte(byte, esc);
                if byte == LPAREN || byte == RPAREN {
                    let b = match balanced {
                        Some(b) => b,
                        None => {
                            assert(byte == RPAREN ==> !parens_balanced_from(
                                s@.skip(i as int),
                                0,
                            ));
                            let b = byte != RPAREN && self.is_balanced();
                            balanced = Some(b);
                            b
                        },
                    };
                    assert(b == !esc);
                    if !b {
                        buf.push(BACKSLASH);
                    }
                    buf.push(byte);
                } else if byte == BACKSLASH {
                    buf.push(BACKSLASH);
                    buf.push(BACKSLASH);
                } else if 32 <= byte && byte <= 126 {
                    buf.push(byte);
                } else if byte == 10 {
                    buf.push(BACKSLASH);
                    buf.push(110u8);
                } else if byte == 13 {
                    buf.push(BACKSLASH);
                    buf.push(114u8);
                } else if byte == 9 {
                    buf.push(BACKSLASH);
                    buf.push(116u8);
                } else if byte == 8 {
                    buf.push(BACKSLASH);
                    buf.push(98u8);
                } else if byte == 12 {
                    buf.push(BACKSLASH);
                    buf.push(102u8);
                } else {
                    buf.push(BACKSLASH);
                    buf.push_octal(byte);
                }
                assert(buf@ =~= start + flat_map(s@.take(i as int), f) + expected);
                assert(buf@ =~= start + flat_map(s@.take(i + 1), f));
                i = i + 1;
            }
            buf.push(RPAREN);
            proof {
                lemma_take_full(s@);
                assert(buf@ =~= old(buf)@ + str_encoding(s@));
            }
            assert(buf@ == old(buf)@ + self.spec_encoding());
            assert(buf.spec_limits() == self.spec_limits_after(old(buf).spec_limits()));
        } else {
            if s.len() <= (usize::MAX - 2) / 2 {
                buf.reserve(2 + 2 * s.len());
            }
            buf.push(LT);
            let ghost start = buf@;
            let ghost f = |b: u8| hex_byte(b);
            let mut i: usize = 0;
            while i < s.len()
                invariant
                    i <= s@.len(),
                    buf@ == start + flat_map(s@.take(i as int), f),
                    buf.spec_limits() == old(buf).spec_limits().with_str_len(s@.len() as int),
                    f == (|b: u8| hex_byte(b)),
                decreases s@.len() - i,
            {
                proof {
                    lemma_flat_map_step(s@, i as int, f);
                }
                buf.push_hex(s[i]);
                assert(buf@ =~= start + flat_map(s@.take(i + 1), f));
                i = i + 1;
            }
            buf.push(GT);
            proof {
                lemma_take_full(s@);
                assert(buf@ =~= old(buf)@ + str_encoding(s@));
            }
            assert(buf@ == old(buf)@ + self.spec_encoding());
            assert(buf.spec_limits() == self.spec_limits_after(old(buf).spec_limits()));
        }
    }
}

// ---------------------------------------------------------------------------
// Names, null and references.
// ---------------------------------------------------------------------------

/// Regular characters are a PDF concept: every byte that is neither
/// whitespace nor a delimiter.
pub open spec fn spec_is_regular_character(byte: u8) -> bool {
    !(byte == 0 || byte == 9 || byte == 10 || byte == 12 || byte == 13 || byte == SPACE
        || byte == LPAREN || byte == RPAREN || byte == LT || byte == GT || byte == LBRACKET
        || byte == RBRACKET || byte == LBRACE || byte == RBRACE || byte == SLASH || byte
        == PERCENT)
}

/// The delimiter characters that end the token before them.
pub open spec fn spec_is_delimiter_character(byte: u8) -> bool {
    byte == LPAREN || byte == RPAREN || byte == LT || byte == GT || byte == LBRACKET || byte
        == RBRACKET || byte == SLASH || byte == PERCENT
}

/// Regular characters are a PDF concept.
pub fn is_regular_character(byte: u8) -> (r: bool)
    ensures
        r == spec_is_regular_character(byte),
{
    !(byte == 0 || byte == 9 || byte == 10 || byte == 12 || byte == 13 || byte == SPACE
        || byte == LPAREN || byte == RPAREN || byte == LT || byte == GT || byte == LBRACKET
        || byte == RBRACKET || byte == LBRACE || byte == RBRACE || byte == SLASH || byte
        == PERCENT)
}

/// Whether the byte is one of the PDF delimiter characters.
pub fn is_delimiter_character(byte: u8) -> (r: bool)
    ensures
        r == spec_is_delimiter_character(byte),
{
    byte == LPAREN || byte == RPAREN || byte == LT || byte == GT || byte == LBRACKET || byte
        == RBRACKET || byte == SLASH || byte == PERCENT
}

/// How a byte of a name is written: regular visible characters other than
/// the number sign as they are, every other byte as `#` and two hexadecimal
/// digits.
pub open spec fn name_byte(b: u8) -> Seq<u8> {
    if b != HASH && 33 <= b <= 126 && spec_is_regular_character(b) {
        seq![b]
    } else {
        seq![HASH] + hex_byte(b)
    }
}

/// The encoding of a name: a slash followed by its escaped bytes.
pub open spec fn name_encoding(s: Seq<u8>) -> Seq<u8> {
    seq![SLASH] + flat_map(s, |b: u8| name_byte(b))
}

/// A name object.
///
/// Written as `/Thing`.
#[derive(Debug, Copy, Clone, Eq, PartialEq, Ord, PartialOrd, Hash)]
pub struct Name<'a>(pub &'a [u8]);

impl Primitive for Name<'_> {
    open spec fn spec_encoding(&self) -> Seq<u8> {
        name_encoding(self.0@)
    }

    open spec fn spec_starts_with_delimiter(&self) -> bool {
        true
    }

    open spec fn spec_limits_after(&self, before: LimitsView) -> LimitsView {
        before.with_name_len(self.0@.len() as int)
    }

    open spec fn spec_writable(&self) -> bool {
        true
    }

    fn starts_with_delimiter(&self) -> (r: bool) {
        true
    }

    fn write(self, buf: &mut Buf) {
        let s = self.0;
        buf.register_name_len(s.len());
        if s.len() < usize::MAX {
            buf.reserve(1 + s.len());
        }
        buf.push(SLASH);
        let ghost start = buf@;
        let ghost f = |b: u8| name_byte(b);
        let mut i: usize = 0;
        while i < s.len()
            invariant
                i <= s@.len(),
                s@ == self.0@,
                buf@ == start + flat_map(s@.take(i as int), f),
                buf.spec_limits() == old(buf).spec_limits().with_name_len(s@.len() as int),
                f == (|b: u8| name_byte(b)),
            decreases s@.len() - i,
        {
            let byte = s[i];
            proof {
                lemma_flat_map_step(s@, i as int, f);
            }
            // - Number sign shall use hexadecimal escape
            // - Regular characters within the range exclamation mark .. tilde
            //   can be written directly
            if byte != HASH && 33 <= byte && byte <= 126 && is_regular_character(byte) {
                buf.push(byte);
            } else {
                buf.push(HASH);
                buf.push_hex(byte);
            }
            assert(buf@ =~= start + flat_map(s@.take(i + 1), f));
            i = i + 1;
        }
        proof {
            lemma_take_full(s@);
        }
        assert(buf@ =~= old(buf)@ + name_encoding(s@));
    }
}

/// The null object.
#[derive(Debug, Copy, Clone, Eq, PartialEq, Ord, PartialOrd, Hash)]
pub struct Null;

impl Primitive for Null {
    open spec fn spec_encoding(&self) -> Seq<u8> {
        "null".spec_bytes()
    }

    open spec fn spec_starts_with_delimiter(&self) -> bool {
        false
    }

    open spec fn spec_limits_after(&self, before: LimitsView) -> LimitsView {
        before
    }

    open spec fn spec_writable(&self) -> bool {
        true
    }

    fn starts_with_delimiter(&self) -> (r: bool) {
        false
    }

    fn write(self, buf: &mut Buf) {
        buf.extend_slice("null".as_bytes());
    }
}

/// The ASCII code of the minus sign.
pub const MINUS: u8 = 45;

/// The ASCII code of the decimal point.
pub const DOT: u8 = 46;

/// Whether a byte is an ASCII digit.
pub open spec fn is_digit(b: u8) -> bool {
    48 <= b <= 57
}

/// Whether `s` is the text of a real number as PDF writes it: digits with at
/// most one decimal point among them and an optional leading minus sign, and
/// at least one digit.
pub open spec fn number_text(s: Seq<u8>) -> bool {
    &&& exists|i: int| 0 <= i < s.len() && is_digit(#[trigger] s[i])
    &&& forall|i: int|
        0 <= i < s.len() ==> is_digit(#[trigger] s[i]) || s[i] == DOT || (i == 0 && s[i] == MINUS)
    &&& forall|i: int, j: int| 0 <= i < j < s.len() && #[trigger] s[i] == DOT ==> #[trigger] s[j] != DOT
}

/// Whether the number text starts with a minus sign.
pub open spec fn negative_text(s: Seq<u8>) -> bool {
    s.len() > 0 && s[0] == MINUS
}

/// Whether every digit of the number text is zero.
pub open spec fn zero_text(s: Seq<u8>) -> bool {
    forall|i: int| 0 <= i < s.len() && is_digit(#[trigger] s[i]) ==> s[i] == 48
}

/// A real number, given by its decimal text.
///
/// The text is written as it is: formatting a floating-point value (as the
/// shortest decimal that reads back as the same value, without a decimal
/// point for whole numbers) is left to the caller.
#[derive(Debug, Copy, Clone, Eq, PartialEq, Ord, PartialOrd, Hash)]
pub struct Real<'a>(pub &'a [u8]);

impl Real<'_> {
    /// Whether the text is that of a real number, which every writer taking
    /// it requires.
    pub fn is_valid(&self) -> (r: bool)
        ensures
            r == number_text(self.0@),
    {
        let s = self.0;
        let mut i: usize = 0;
        let mut digits = false;
        let mut dot = false;
        let ghost mut dot_at: int = 0;
        while i < s.len()
            invariant
                i <= s@.len(),
                s@ == self.0@,
                digits == (exists|j: int| 0 <= j < i && is_digit(#[trigger] s@[j])),
                dot ==> 0 <= dot_at < i && s@[dot_at] == DOT,
                !dot ==> forall|j: int| 0 <= j < i ==> #[trigger] s@[j] != DOT,
                forall|j: int|
                    0 <= j < i ==> is_digit(#[trigger] s@[j]) || s@[j] == DOT || (j == 0 && s@[j]
                        == MINUS),
                forall|j: int, k: int| 0 <= j < k < i && #[trigger] s@[j] == DOT ==> #[trigger] s@[k] != DOT,
            decreases s@.len() - i,
        {
            let b = s[i];
            if 48 <= b && b <= 57 {
                digits = true;
            } else if b == DOT {
                if dot {
                    assert(s@[dot_at] == DOT && s@[i as int] == DOT);
                    return false;
                }
                dot = true;
                proof {
                    dot_at = i as int;
                }
            } else if b == MINUS && i == 0 {
            } else {
                assert(!(is_digit(s@[i as int]) || s@[i as int] == DOT || (i == 0 && s@[i as int] == MINUS)));
                return false;
            }
            i = i + 1;
        }
        digits
    }
}

impl Primitive for Real<'_> {
    open spec fn spec_encoding(&self) -> Seq<u8> {
        self.0@
    }

    open spec fn spec_starts_with_delimiter(&self) -> bool {
        false
    }

    open spec fn spec_limits_after(&self, before: LimitsView) -> LimitsView {
        before
    }

    open spec fn spec_writable(&self) -> bool {
        number_text(self.0@)
    }

    fn starts_with_delimiter(&self) -> (r: bool) {
        false
    }

    fn write(self, buf: &mut Buf) {
        buf.extend_slice(self.0);
    }
}

/// A rectangle, specified by two opposite corners.
#[derive(Debug, Copy, Clone, PartialEq, Eq, Hash)]
pub struct Rect<'a> {
    /// The x-coordinate of the first (typically, lower-left) corner.
    pub x1: Real<'a>,
    /// The y-coordinate of the first (typically, lower-left) corner.
    pub y1: Real<'a>,
    /// The x-coordinate of the second (typically, upper-right) corner.
    pub x2: Real<'a>,
    /// The y-coordinate of the second (typically, upper-right) corner.
    pub y2: Real<'a>,
}

impl<'a> Rect<'a> {
    /// Create a new rectangle from four coordinate values.
    pub fn new(x1: Real<'a>, y1: Real<'a>, x2: Real<'a>, y2: Real<'a>) -> (r: Self)
        ensures
            r.x1 == x1,
            r.y1 == y1,
            r.x2 == x2,
            r.y2 == y2,
    {
        Self { x1, y1, x2, y2 }
    }

    /// Convert this rectangle into 8 coordinates describing the four corners
    /// of the rectangle in counterclockwise order.
    pub fn to_quad_points(self) -> (r: [Real<'a>; 8])
        ensures
            r@ == seq![self.x1, self.y1, self.x2, self.y1, self.x2, self.y2, self.x1, self.y2],
    {
        let r = [self.x1, self.y1, self.x2, self.y1, self.x2, self.y2, self.x1, self.y2];
        assert(r@ =~= seq![self.x1, self.y1, self.x2, self.y1, self.x2, self.y2, self.x1, self.y2]);
        r
    }
}

impl Primitive for Rect<'_> {
    open spec fn spec_encoding(&self) -> Seq<u8> {
        seq![LBRACKET] + self.x1.0@ + seq![SPACE] + self.y1.0@ + seq![SPACE] + self.x2.0@ + seq![SPACE]
            + self.y2.0@ + seq![RBRACKET]
    }

    open spec fn spec_starts_with_delimiter(&self) -> bool {
        true
    }

    open spec fn spec_limits_after(&self, before: LimitsView) -> LimitsView {
        before
    }

    open spec fn spec_writable(&self) -> bool {
        &&& self.x1.spec_writable()
        &&& self.y1.spec_writable()
        &&& self.x2.spec_writable()
        &&& self.y2.spec_writable()
    }

    fn starts_with_delimiter(&self) -> (r: bool) {
        true
    }

    fn write(self, buf: &mut Buf) {
        buf.push(LBRACKET);
        self.x1.write(buf);
        buf.push(SPACE);
        self.y1.write(buf);
        buf.push(SPACE);
        self.x2.write(buf);
        buf.push(SPACE);
        self.y2.write(buf);
        buf.push(RBRACKET);
        assert(buf@ =~= old(buf)@ + self.spec_encoding());
    }
}

/// A reference to an indirect object.
#[derive(Debug, Copy, Clone, Eq, PartialEq, Ord, PartialOrd, Hash)]
pub struct Ref(i32);

impl Ref {
    #[verifier::type_invariant]
    spec fn inv(self) -> bool {
        self.0 > 0
    }

    /// The number of the referenced object.
    pub closed spec fn id(self) -> int {
        self.0 as int
    }

    /// Create a new indirect reference.
    ///
    /// The provided value must be greater than zero.
    pub fn new(id: i32) -> (r: Ref)
        requires
            id > 0,
        ensures
            r.id() == id,
    {
        Ref(id)
    }

    /// Return the underlying number as a primitive type.
    pub fn get(self) -> (r: i32)
        ensures
            r == self.id(),
            r > 0,
    {
        proof {
            use_type_invariant(self);
        }
        self.0
    }

    /// The next consecutive ID.
    pub fn next(self) -> (r: Ref)
        requires
            self.id() < i32::MAX,
        ensures
            r.id() == self.id() + 1,
    {
        Self::new(self.get() + 1)
    }

    /// Increase this ID by one and return the old one. Useful to turn this ID
    /// into a bump allocator of sorts.
    pub fn bump(&mut self) -> (r: Ref)
        requires
            old(self).id() < i32::MAX,
        ensures
            r == *old(self),
            final(self).id() == old(self).id() + 1,
    {
        let prev = *self;
        *self = self.next();
        prev
    }
}

/// A reference is determined by its object number: two references with the
/// same number are the same reference, so `Ref::new(r.get())` gives back `r`.
pub proof fn lemma_ref_id_injective(a: Ref, b: Ref)
    ensures
        a.id() == b.id() <==> a == b,
{
}

impl Primitive for Ref {
    open spec fn spec_encoding(&self) -> Seq<u8> {
        decimal(self.id()) + " 0 R".spec_bytes()
    }

    open spec fn spec_starts_with_delimiter(&self) -> bool {
        false
    }

    open spec fn spec_limits_after(&self, before: LimitsView) -> LimitsView {
        before.with_int(self.id())
    }

    open spec fn spec_writable(&self) -> bool {
        true
    }

    fn starts_with_delimiter(&self) -> (r: bool) {
        false
    }

    fn write(self, buf: &mut Buf) {
        buf.push_int(self.get());
        buf.extend_slice(" 0 R".as_bytes());
        assert(buf@ =~= old(buf)@ + self.spec_encoding());
    }
}

// ---------------------------------------------------------------------------
// Text strings.
// ---------------------------------------------------------------------------

/// Whether every byte of `s` is a visible ASCII character or a space
/// (`32..=126`), the range where ASCII and PDFDocEncoding agree.
pub open spec fn printable_ascii(s: Seq<u8>) -> bool {
    forall|i: int| 0 <= i < s.len() ==> 32 <= #[trigger] s[i] <= 126
}

/// The UTF-16 code units of a character, as hexadecimal text.
pub open spec fn utf16_hex(c: char) -> Seq<u8> {
    let v = c as int;
    if v < 0x10000 {
        hex_u16(v as u16)
    } else {
        hex_u16((0xD800 + (v - 0x10000) / 1024) as u16) + hex_u16(
            (0xDC00 + (v - 0x10000) % 1024) as u16,
        )
    }
}

/// The opening of a UTF-16BE hexadecimal text string: `<` and the byte
/// order mark.
pub open spec fn utf16be_header() -> Seq<u8> {
    seq![LT] + hex_byte(254) + hex_byte(255)
}

/// A UTF-16BE hexadecimal text string holding the given characters.
pub open spec fn utf16be_text(chars: Seq<char>) -> Seq<u8> {
    utf16be_header() + flat_map(chars, |c: char| utf16_hex(c)) + seq![GT]
}

/// The encoding of a text string: the plain string when all its bytes are
/// printable ASCII, UTF-16BE otherwise.
pub open spec fn text_str_encoding(s: &str) -> Seq<u8> {
    if printable_ascii(s.spec_bytes()) {
        str_encoding(s.spec_bytes())
    } else {
        utf16be_text(s@)
    }
}

/// Append the UTF-16 code units of a character as hexadecimal text.
pub(crate) fn push_utf16(buf: &mut Buf, c: char)
    ensures
        final(buf)@ == old(buf)@ + utf16_hex(c),
        final(buf).spec_limits() == old(buf).spec_limits(),
{
    let v = c as u32;
    if v < 0x10000 {
        buf.push_hex_u16(v as u16);
    } else {
        let w = v - 0x10000;
        buf.push_hex_u16((0xD800 + w / 1024) as u16);
        buf.push_hex_u16((0xDC00 + w % 1024) as u16);
        assert(buf@ =~= old(buf)@ + utf16_hex(c));
    }
}

/// Append the UTF-16BE hexadecimal form of every character of `s`.
fn push_utf16_chars(buf: &mut Buf, s: &str)
    ensures
        final(buf)@ == old(buf)@ + flat_map(s@, |c: char| utf16_hex(c)),
        final(buf).spec_limits() == old(buf).spec_limits(),
{
    let ghost start = buf@;
    let ghost f = |c: char| utf16_hex(c);
    for c in it: s.chars()
        invariant
            it.seq() == s@,
            buf@ == start + flat_map(s@.take(it.index() as int), f),
            buf.spec_limits() == old(buf).spec_limits(),
            start == old(buf)@,
            f == (|c: char| utf16_hex(c)),
    {
        proof {
            lemma_flat_map_step(s@, it.index() as int, f);
        }
        push_utf16(buf, c);
        assert(buf@ =~= start + flat_map(s@.take(it.index() + 1), f));
    }
    proof {
        lemma_take_full(s@);
    }
}

/// Whether every byte of the slice is in `32..=126`.
fn bytes_are_printable_ascii(s: &[u8]) -> (r: bool)
    ensures
        r == printable_ascii(s@),
{
    let mut i: usize = 0;
    while i < s.len()
        invariant
            i <= s@.len(),
            forall|j: int| 0 <= j < i ==> 32 <= #[trigger] s@[j] <= 126,
        decreases s@.len() - i,
    {
        if s[i] < 32 || s[i] > 126 {
            return false;
        }
        i = i + 1;
    }
    true
}

/// A unicode text string object.
///
/// This is written as a [`Str`] containing either bare ASCII (if possible) or a
/// byte order mark followed by UTF-16-BE bytes.
///
/// The natural language is inherited from the document catalog's
/// `/Lang` key. If you need to specify another language
/// or if the string contains multiple natural languages, see
/// [`TextStrWithLang`].
#[derive(Debug, Copy, Clone, Eq, PartialEq, Ord, PartialOrd, Hash)]
pub struct TextStr<'a>(pub &'a str);

impl Primitive for TextStr<'_> {
    open spec fn spec_encoding(&self) -> Seq<u8> {
        text_str_encoding(self.0)
    }

    open spec fn spec_starts_with_delimiter(&self) -> bool {
        true
    }

    open spec fn spec_limits_after(&self, before: LimitsView) -> LimitsView {
        before.with_str_len(self.0.spec_bytes().len() as int)
    }

    open spec fn spec_writable(&self) -> bool {
        true
    }

    fn starts_with_delimiter(&self) -> (r: bool) {
        true
    }

    fn write(self, buf: &mut Buf) {
        let bytes = self.0.as_bytes();
        buf.register_str_len(bytes.len());

        // ASCII and PDFDocEncoding match for 32 up to 126.
        if bytes_are_printable_ascii(bytes) {
            Str(bytes).write(buf);
        } else {
            if bytes.len() <= (usize::MAX - 6) / 4 {
                buf.reserve(6 + 4 * bytes.len());
            }
            write_utf16be_text_str_header(buf);
            push_utf16_chars(buf, self.0);
            write_utf16be_text_str_footer(buf);
            assert(buf@ =~= old(buf)@ + text_str_encoding(self.0));
        }
    }
}

fn write_utf16be_text_str_header(buf: &mut Buf)
    ensures
        final(buf)@ == old(buf)@ + utf16be_header(),
        final(buf).spec_limits() == old(buf).spec_limits(),
{
    buf.push(LT);
    buf.push_hex(254);
    buf.push_hex(255);
    assert(buf@ =~= old(buf)@ + utf16be_header());
}

fn write_utf16be_text_str_footer(buf: &mut Buf)
    ensures
        final(buf)@ == old(buf)@.push(GT),
        final(buf).spec_limits() == old(buf).spec_limits(),
{
    buf.push(GT);
}

/// Whether a byte is an ASCII letter or digit.
pub open spec fn spec_is_ascii_alphanumeric(b: u8) -> bool {
    (48 <= b <= 57) || (65 <= b <= 90) || (97 <= b <= 122)
}

/// The abstract content of a [`LanguageIdentifier`].
pub struct LanguageIdentifierView {
    pub lang: Seq<u8>,
    pub region: Option<Seq<u8>>,
}

/// An identifier for the natural language in a section of a
/// [`TextStrWithLang`].
#[derive(Debug, Copy, Clone, Eq, PartialEq, Ord, PartialOrd, Hash)]
pub struct LanguageIdentifier {
    /// A two-byte ISO 639 language code.
    lang: [u8; 2],
    /// A two-byte ISO 3166 country code.
    region: Option<[u8; 2]>,
}

impl View for LanguageIdentifier {
    type V = LanguageIdentifierView;

    closed spec fn view(&self) -> LanguageIdentifierView {
        LanguageIdentifierView {
            lang: self.lang@,
            region: match self.region {
                Some(r) => Some(r@),
                None => None,
            },
        }
    }
}

/// The code held by the UTF-8 bytes of a string, when they are exactly two
/// ASCII letters or digits. (A character outside ASCII is encoded with bytes
/// above 127, so this is the same as asking for two alphanumeric ASCII
/// characters.)
pub open spec fn spec_code(s: Seq<u8>) -> Option<Seq<u8>> {
    if s.len() == 2 && spec_is_ascii_alphanumeric(s[0]) && spec_is_ascii_alphanumeric(s[1]) {
        Some(s)
    } else {
        None
    }
}

/// The hexadecimal UTF-16 escape sequence that carries a language tag.
pub open spec fn lang_code_hex(l: LanguageIdentifierView) -> Seq<u8> {
    hex_u16(0x1B) + hex_u16(l.lang[0] as u16) + hex_u16(l.lang[1] as u16) + match l.region {
        Some(r) => hex_u16(r[0] as u16) + hex_u16(r[1] as u16),
        None => Seq::empty(),
    } + hex_u16(0x1B)
}

/// The length of a language tag without its enclosing escape characters.
pub open spec fn lang_len(l: LanguageIdentifierView) -> int {
    if l.region is Some {
        4
    } else {
        2
    }
}

impl LanguageIdentifier {
    /// Create a new language identifier.
    ///
    /// Language and region codes are not checked for validity.
    pub fn new(lang: [u8; 2], region: Option<[u8; 2]>) -> (r: Self)
        ensures
            r@.lang == lang@,
            r@.region == (match region {
                Some(x) => Some(x@),
                None => None::<Seq<u8>>,
            }),
    {
        Self { lang, region }
    }

    /// Create a new language identifier from a language, with an unset region.
    ///
    /// The method returns `Some` if the argument has two alphanumeric ASCII
    /// bytes.
    pub fn from_lang(lang: &str) -> (r: Option<Self>)
        ensures
            r is Some <==> spec_code(lang.spec_bytes()) is Some,
            r matches Some(l) ==> l@.lang == spec_code(lang.spec_bytes())->0 && l@.region is None,
    {
        let lang = Self::str_to_code(lang)?;
        Some(Self::new(lang, None))
    }

    /// Create a new language identifier from a language and a region
    ///
    /// The method returns `Some` if both arguments have two alphanumeric ASCII
    /// bytes.
    pub fn from_lang_region(lang: &str, region: &str) -> (r: Option<Self>)
        ensures
            r is Some <==> spec_code(lang.spec_bytes()) is Some && spec_code(region.spec_bytes()) is Some,
            r matches Some(l) ==> l@.lang == spec_code(lang.spec_bytes())->0 && l@.region == Some(
                spec_code(region.spec_bytes())->0,
            ),
    {
        let lang = Self::str_to_code(lang)?;
        let region = Self::str_to_code(region)?;
        Some(Self::new(lang, Some(region)))
    }

    /// Returns the length of the language identifier. It does not include the
    /// enclosing escape bytes.
    fn len(self) -> (r: usize)
        ensures
            r == lang_len(self@),
    {
        if self.region.is_some() {
            4
        } else {
            2
        }
    }

    fn str_to_code(string: &str) -> (r: Option<[u8; 2]>)
        ensures
            r matches Some(c) ==> spec_code(string.spec_bytes()) == Some(c@),
            r is None ==> spec_code(string.spec_bytes()) is None,
    {
        let bytes = string.as_bytes();
        let mut i: usize = 0;
        while i < bytes.len()
            invariant
                i <= bytes@.len(),
                bytes@ == string.spec_bytes(),
                forall|j: int| 0 <= j < i ==> spec_is_ascii_alphanumeric(#[trigger] bytes@[j]),
            decreases bytes@.len() - i,
        {
            if !is_ascii_alphanumeric(bytes[i]) {
                assert(!spec_is_ascii_alphanumeric(bytes@[i as int]));
                assert(bytes@.len() == 2 ==> (i == 0 || i == 1));
                return None;
            }
            i = i + 1;
        }
        if bytes.len() == 2 {
            let code = [bytes[0], bytes[1]];
            assert(code@ =~= bytes@);
            Some(code)
        } else {
            None
        }
    }
}

/// Whether a byte is an ASCII letter or digit.
fn is_ascii_alphanumeric(b: u8) -> (r: bool)
    ensures
        r == spec_is_ascii_alphanumeric(b),
{
    (48 <= b && b <= 57) || (65 <= b && b <= 90) || (97 <= b && b <= 122)
}

/// A text string with a natural language specified.
///
///
/// This is written as a string containing either bare ASCII (if possible) or a
/// byte order mark followed by UTF-16-BE bytes. Both forms are interspersed by
/// the requisite ASCII language escape sequences.
///
/// For a text string with an undefined natural language, see [`TextStr`].
#[derive(Debug, Copy, Clone, Eq, PartialEq, Ord, PartialOrd, Hash)]
pub struct TextStrWithLang<'a, 'b>(pub &'b [(LanguageIdentifier, &'a str)]);

/// One section of a text string with languages: its language tag, then its
/// characters.
pub open spec fn lang_section_hex(section: (LanguageIdentifier, &str)) -> Seq<u8> {
    lang_code_hex(section.0@) + flat_map(section.1@, |c: char| utf16_hex(c))
}

/// The string length recorded for the sections `s`: each text plus its
/// language tag and the two escape characters.
pub open spec fn lang_sections_len(s: Seq<(LanguageIdentifier, &str)>) -> int
    decreases s.len(),
{
    if s.len() == 0 {
        0
    } else {
        lang_sections_len(s.drop_last()) + s.last().1.spec_bytes().len() + lang_len(s.last().0@)
            + 2
    }
}

/// The room reserved in the buffer for the sections `s`.
pub open spec fn lang_sections_capacity(s: Seq<(LanguageIdentifier, &str)>) -> int
    decreases s.len(),
{
    if s.len() == 0 {
        6
    } else {
        lang_sections_capacity(s.drop_last()) + 4 * s.last().1.spec_bytes().len() + lang_len(
            s.last().0@,
        ) * 2 + 4
    }
}

proof fn lemma_lang_sections_len_le_capacity(s: Seq<(LanguageIdentifier, &str)>)
    ensures
        0 <= lang_sections_len(s) <= lang_sections_capacity(s) - 6,
    decreases s.len(),
{
    if s.len() > 0 {
        lemma_lang_sections_len_le_capacity(s.drop_last());
    }
}

proof fn lemma_lang_sections_capacity_prefix(s: Seq<(LanguageIdentifier, &str)>, i: int)
    requires
        0 <= i <= s.len(),
    ensures
        lang_sections_capacity(s.take(i)) <= lang_sections_capacity(s),
    decreases s.len() - i,
{
    if i < s.len() {
        lemma_lang_sections_capacity_prefix(s, i + 1);
        assert(s.take(i + 1).drop_last() =~= s.take(i));
    } else {
        assert(s.take(i) =~= s);
    }
}

impl Primitive for TextStrWithLang<'_, '_> {
    open spec fn spec_encoding(&self) -> Seq<u8> {
        utf16be_header() + flat_map(
            self.0@,
            |section: (LanguageIdentifier, &str)| lang_section_hex(section),
        ) + seq![GT]
    }

    open spec fn spec_starts_with_delimiter(&self) -> bool {
        true
    }

    open spec fn spec_limits_after(&self, before: LimitsView) -> LimitsView {
        before.with_str_len(lang_sections_len(self.0@))
    }

    open spec fn spec_writable(&self) -> bool {
        lang_sections_capacity(self.0@) <= usize::MAX
    }

    fn starts_with_delimiter(&self) -> (r: bool) {
        true
    }

    fn write(self, buf: &mut Buf) {
        let sections = self.0;
        let mut len: usize = 0;
        let mut buf_len: usize = 6;
        let mut i: usize = 0;
        while i < sections.len()
            invariant
                i <= sections@.len(),
                sections@ == self.0@,
                lang_sections_capacity(sections@) <= usize::MAX,
                len == lang_sections_len(sections@.take(i as int)),
                buf_len == lang_sections_capacity(sections@.take(i as int)),
            decreases sections@.len() - i,
        {
            let (lang, text) = sections[i];
            proof {
                lemma_lang_sections_capacity_prefix(sections@, i + 1);
                lemma_lang_sections_len_le_capacity(sections@.take(i + 1));
                assert(sections@.take(i + 1).drop_last() =~= sections@.take(i as int));
            }
            // Each language tag is enclosed in two escape characters, plus the
            // two-letter language code and optional two-letter region code.
            len = len + text.len() + lang.len() + 2;
            // Each hexadecimal character is four bytes long, plus four bytes
            // for the escape sequence. The language tag is encoded in
            // hexadecimal, so each byte becomes two hexadecimal characters.
            buf_len = buf_len + 4 * text.len() + lang.len() * 2 + 4;
            i = i + 1;
        }
        proof {
            lemma_take_full(sections@);
        }
        buf.register_str_len(len);

        // Escape sequences for languages may only appear in Unicode-encoded
        // text strings, see clause 7.9.2.2 of ISO 32000-1:2008.
        buf.reserve(buf_len);
        write_utf16be_text_str_header(buf);
        let ghost start = buf@;
        let ghost f = |section: (LanguageIdentifier, &str)| lang_section_hex(section);
        let mut i: usize = 0;
        while i < sections.len()
            invariant
                i <= sections@.len(),
                sections@ == self.0@,
                buf@ == start + flat_map(sections@.take(i as int), f),
                buf.spec_limits() == old(buf).spec_limits().with_str_len(
                    lang_sections_len(sections@),
                ),
                f == (|section: (LanguageIdentifier, &str)| lang_section_hex(section)),
            decreases sections@.len() - i,
        {
            let (lang, text) = sections[i];
            proof {
                lemma_flat_map_step(sections@, i as int, f);
            }
            write_utf16be_lang_code(lang, buf);
            push_utf16_chars(buf, text);
            assert(buf@ =~= start + flat_map(sections@.take(i + 1), f));
            i = i + 1;
        }
        proof {
            lemma_take_full(sections@);
        }
        write_utf16be_text_str_footer(buf);
        assert(buf@ =~= old(buf)@ + self.spec_encoding());
    }
}

fn write_utf16be_lang_code(lang: LanguageIdentifier, buf: &mut Buf)
    ensures
        final(buf)@ == old(buf)@ + lang_code_hex(lang@),
        final(buf).spec_limits() == old(buf).spec_limits(),
{
    // The escape character U+001B encloses the language tag. It must not
    // otherwise appear in a text string and the spec offers no opportunity to
    // escape it.
    buf.push_hex_u16(0x001B);
    buf.push_hex_u16(lang.lang[0] as u16);
    buf.push_hex_u16(lang.lang[1] as u16);
    if let Some(region) = lang.region {
        buf.push_hex_u16(region[0] as u16);
        buf.push_hex_u16(region[1] as u16);
    }
    buf.push_hex_u16(0x001B);
    assert(buf@ =~= old(buf)@ + lang_code_hex(lang@));
}

/// A trait for types that can be used everywhere a text string is expected.
/// This includes both [`TextStr`] and [`TextStrWithLang`].
///
/// Methods that accept an implementor of this trait expect strings in natural
/// language for which a language specification makes sense, often for use in
/// the UI or with AT.
pub trait TextStrLike: Primitive {}

impl<'a> TextStrLike for TextStr<'a> {}

impl<'a, 'b> TextStrLike for TextStrWithLang<'a, 'b> {}

// ---------------------------------------------------------------------------
// Dates.
// ---------------------------------------------------------------------------

/// The abstract content of a [`Date`].
pub struct DateView {
    pub year: int,
    pub month: Option<int>,
    pub day: Option<int>,
    pub hour: Option<int>,
    pub minute: Option<int>,
    pub second: Option<int>,
    pub utc_offset_hour: Option<int>,
    pub utc_offset_minute: int,
}

/// The time zone part of a date: `Z` for UTC, otherwise the signed hour
/// offset, an apostrophe and the minute offset.
pub open spec fn date_zone(hour: int, minute: int) -> Seq<u8> {
    if hour == 0 && minute == 0 {
        seq![90u8]
    } else {
        (if hour < 0 {
            seq![45u8]
        } else {
            seq![43u8]
        }) + padded_decimal(abs(hour) as nat, 2) + seq![39u8] + padded_decimal(minute as nat, 2)
    }
}

/// The time zone of a date, if one is present.
pub open spec fn date_zone_field(d: DateView) -> Seq<u8> {
    match d.utc_offset_hour {
        None => Seq::empty(),
        Some(h) => date_zone(h, d.utc_offset_minute),
    }
}

/// The second of a date and what follows it, if present.
pub open spec fn date_from_second(d: DateView) -> Seq<u8> {
    match d.second {
        None => Seq::empty(),
        Some(v) => padded_decimal(v as nat, 2) + date_zone_field(d),
    }
}

/// The minute of a date and what follows it, if present.
pub open spec fn date_from_minute(d: DateView) -> Seq<u8> {
    match d.minute {
        None => Seq::empty(),
        Some(v) => padded_decimal(v as nat, 2) + date_from_second(d),
    }
}

/// The hour of a date and what follows it, if present.
pub open spec fn date_from_hour(d: DateView) -> Seq<u8> {
    match d.hour {
        None => Seq::empty(),
        Some(v) => padded_decimal(v as nat, 2) + date_from_minute(d),
    }
}

/// The day of a date and what follows it, if present.
pub open spec fn date_from_day(d: DateView) -> Seq<u8> {
    match d.day {
        None => Seq::empty(),
        Some(v) => padded_decimal(v as nat, 2) + date_from_hour(d),
    }
}

/// The fields of a date after the year. A field is only written if all
/// superior fields are present.
pub open spec fn date_fields(d: DateView) -> Seq<u8> {
    match d.month {
        None => Seq::empty(),
        Some(v) => padded_decimal(v as nat, 2) + date_from_day(d),
    }
}

/// The encoding of a date: `(D:` followed by the four-digit year and the
/// present fields, then `)`.
pub open spec fn date_encoding(d: DateView) -> Seq<u8> {
    "(D:".spec_bytes() + padded_decimal(d.year as nat, 4) + date_fields(d) + seq![RPAREN]
}

/// A date, written as a text string.
///
/// A field is only respected if all superior fields are supplied. For example,
/// to set the minute, the hour, day, etc. have to be set. Similarly, in order
/// for the time zone information to be written, all time information (including
/// seconds) must be written. `utc_offset_minute` is optional if supplying time
/// zone info. It must only be used to specify sub-hour time zone offsets.
#[derive(Debug, Copy, Clone, Eq, PartialEq)]
pub struct Date {
    /// The year (0-9999).
    year: u16,
    /// The month (0-11).
    month: Option<u8>,
    /// The month (0-30).
    day: Option<u8>,
    /// The hour (0-23).
    hour: Option<u8>,
    /// The minute (0-59).
    minute: Option<u8>,
    /// The second (0-59).
    second: Option<u8>,
    /// The hour offset from UTC (-23 through 23).
    utc_offset_hour: Option<i8>,
    /// The minute offset from UTC (0-59). Will carry over the sign from
    /// `utc_offset_hour`.
    utc_offset_minute: u8,
}

/// `v` clamped into `lo..=hi`.
pub open spec fn clamp(v: int, lo: int, hi: int) -> int {
    if v < lo {
        lo
    } else if v > hi {
        hi
    } else {
        v
    }
}

pub open spec fn opt_u8(o: Option<u8>) -> Option<int> {
    match o {
        Some(v) => Some(v as int),
        None => None,
    }
}

impl View for Date {
    type V = DateView;

    closed spec fn view(&self) -> DateView {
        DateView {
            year: self.year as int,
            month: opt_u8(self.month),
            day: opt_u8(self.day),
            hour: opt_u8(self.hour),
            minute: opt_u8(self.minute),
            second: opt_u8(self.second),
            utc_offset_hour: match self.utc_offset_hour {
                Some(v) => Some(v as int),
                None => None,
            },
            utc_offset_minute: self.utc_offset_minute as int,
        }
    }
}

impl Date {
    /// Create a new, minimal date. The year will be clamped within the range
    /// 0-9999.
    pub fn new(year: u16) -> (r: Self)
        ensures
            r@ == (DateView {
                year: clamp(year as int, 0, 9999),
                month: None,
                day: None,
                hour: None,
                minute: None,
                second: None,
                utc_offset_hour: None,
                utc_offset_minute: 0,
            }),
    {
        Self {
            year: if year > 9999 {
                9999
            } else {
                year
            },
            month: None,
            day: None,
            hour: None,
            minute: None,
            second: None,
            utc_offset_hour: None,
            utc_offset_minute: 0,
        }
    }

    /// Add the month field. It will be clamped within the range 1-12.
    pub fn month(self, month: u8) -> (r: Self)
        ensures
            r@ == (DateView { month: Some(clamp(month as int, 1, 12)), ..self@ }),
    {
        let mut d = self;
        d.month = Some(
            if month < 1 {
                1
            } else if month > 12 {
                12
            } else {
                month
            },
        );
        d
    }

    /// Add the day field. It will be clamped within the range 1-31.
    pub fn day(self, day: u8) -> (r: Self)
        ensures
            r@ == (DateView { day: Some(clamp(day as int, 1, 31)), ..self@ }),
    {
        let mut d = self;
        d.day = Some(
            if day < 1 {
                1
            } else if day > 31 {
                31
            } else {
                day
            },
        );
        d
    }

    /// Add the hour field. It will be clamped within the range 0-23.
    pub fn hour(self, hour: u8) -> (r: Self)
        ensures
            r@ == (DateView { hour: Some(clamp(hour as int, 0, 23)), ..self@ }),
    {
        let mut d = self;
        d.hour = Some(
            if hour > 23 {
                23
            } else {
                hour
            },
        );
        d
    }

    /// Add the minute field. It will be clamped within the range 0-59.
    pub fn minute(self, minute: u8) -> (r: Self)
        ensures
            r@ == (DateView { minute: Some(clamp(minute as int, 0, 59)), ..self@ }),
    {
        let mut d = self;
        d.minute = Some(
            if minute > 59 {
                59
            } else {
                minute
            },
        );
        d
    }

    /// Add the second field. It will be clamped within the range 0-59.
    pub fn second(self, second: u8) -> (r: Self)
        ensures
            r@ == (DateView { second: Some(clamp(second as int, 0, 59)), ..self@ }),
    {
        let mut d = self;
        d.second = Some(
            if second > 59 {
                59
            } else {
                second
            },
        );
        d
    }

    /// Add the offset from UTC in hours. If not specified, the time will be
    /// assumed to be local to the viewer's time zone. It will be clamped within
    /// the range -23-23.
    pub fn utc_offset_hour(self, hour: i8) -> (r: Self)
        ensures
            r@ == (DateView { utc_offset_hour: Some(clamp(hour as int, -23, 23)), ..self@ }),
    {
        let mut d = self;
        d.utc_offset_hour = Some(
            if hour < -23 {
                -23
            } else if hour > 23 {
                23
            } else {
                hour
            },
        );
        d
    }

    /// Add the offset from UTC in minutes. This will have the same sign as set in
    /// [`Self::utc_offset_hour`]. It will be clamped within the range 0-59.
    pub fn utc_offset_minute(self, minute: u8) -> (r: Self)
        ensures
            r@ == (DateView { utc_offset_minute: clamp(minute as int, 0, 59), ..self@ }),
    {
        let mut d = self;
        d.utc_offset_minute = if minute > 59 {
            59
        } else {
            minute
        };
        d
    }
}

impl Primitive for Date {
    open spec fn spec_encoding(&self) -> Seq<u8> {
        date_encoding(self@)
    }

    open spec fn spec_starts_with_delimiter(&self) -> bool {
        true
    }

    open spec fn spec_limits_after(&self, before: LimitsView) -> LimitsView {
        before
    }

    open spec fn spec_writable(&self) -> bool {
        true
    }

    fn starts_with_delimiter(&self) -> (r: bool) {
        true
    }

    fn write(self, buf: &mut Buf) {
        buf.extend_slice("(D:".as_bytes());
        buf.push_padded_usize(self.year as usize, 4);
        write_date_fields(buf, self);
        buf.push(RPAREN);
        assert(buf@ =~= old(buf)@ + date_encoding(self@));
    }
}

/// Append the fields of a date after its year.
fn write_date_fields(buf: &mut Buf, date: Date)
    ensures
        final(buf)@ == old(buf)@ + date_fields(date@),
        final(buf).spec_limits() == old(buf).spec_limits(),
{
    if let Some(v) = date.month {
        buf.push_padded_usize(v as usize, 2);
        write_date_from_day(buf, date);
    }
    assert(buf@ =~= old(buf)@ + date_fields(date@));
}

fn write_date_from_day(buf: &mut Buf, date: Date)
    ensures
        final(buf)@ == old(buf)@ + date_from_day(date@),
        final(buf).spec_limits() == old(buf).spec_limits(),
{
    if let Some(v) = date.day {
        buf.push_padded_usize(v as usize, 2);
        write_date_from_hour(buf, date);
    }
    assert(buf@ =~= old(buf)@ + date_from_day(date@));
}

fn write_date_from_hour(buf: &mut Buf, date: Date)
    ensures
        final(buf)@ == old(buf)@ + date_from_hour(date@),
        final(buf).spec_limits() == old(buf).spec_limits(),
{
    if let Some(v) = date.hour {
        buf.push_padded_usize(v as usize, 2);
        write_date_from_minute(buf, date);
    }
    assert(buf@ =~= old(buf)@ + date_from_hour(date@));
}

fn write_date_from_minute(buf: &mut Buf, date: Date)
    ensures
        final(buf)@ == old(buf)@ + date_from_minute(date@),
        final(buf).spec_limits() == old(buf).spec_limits(),
{
    if let Some(v) = date.minute {
        buf.push_padded_usize(v as usize, 2);
        write_date_from_second(buf, date);
    }
    assert(buf@ =~= old(buf)@ + date_from_minute(date@));
}

fn write_date_from_second(buf: &mut Buf, date: Date)
    ensures
        final(buf)@ == old(buf)@ + date_from_second(date@),
        final(buf).spec_limits() == old(buf).spec_limits(),
{
    if let Some(v) = date.second {
        buf.push_padded_usize(v as usize, 2);
        if let Some(h) = date.utc_offset_hour {
            write_date_zone(buf, h, date.utc_offset_minute);
        }
    }
    assert(buf@ =~= old(buf)@ + date_from_second(date@));
}

/// Append the time zone part of a date.
fn write_date_zone(buf: &mut Buf, hour: i8, minute: u8)
    ensures
        final(buf)@ == old(buf)@ + date_zone(hour as int, minute as int),
        final(buf).spec_limits() == old(buf).spec_limits(),
{
    if hour == 0 && minute == 0 {
        buf.push(90u8);
    } else {
        if hour < 0 {
            buf.push(45u8);
        } else {
            buf.push(43u8);
        }
        let a: u8 = if hour < 0 {
            (0 - (hour as i16)) as u8
        } else {
            hour as u8
        };
        buf.push_padded_usize(a as usize, 2);
        buf.push(39u8);
        buf.push_padded_usize(minute as usize, 2);
    }
    assert(buf@ =~= old(buf)@ + date_zone(hour as int, minute as int));
}

// ---------------------------------------------------------------------------
// Writers.
// ---------------------------------------------------------------------------

/// What closes an object: for an indirect object the `endobj` keyword, with
/// an empty line after it when pretty-printing.
pub open spec fn obj_end(indirect: bool, pretty: bool) -> Seq<u8> {
    if indirect {
        "\nendobj\n".spec_bytes() + if pretty {
            seq![NEWLINE]
        } else {
            Seq::empty()
        }
    } else {
        Seq::empty()
    }
}

/// Whether a space must separate a token from the bytes before it: only when
/// the writer asks for padding and neither the previous byte nor the token
/// itself is a delimiter.
pub open spec fn needs_space(needs_padding: bool, starts_with_delimiter: bool, before: Seq<u8>) -> bool {
    needs_padding && !starts_with_delimiter && !(before.len() > 0
        && spec_is_delimiter_character(before.last()))
}

/// The bytes a writer appends for a primitive object with the given encoding,
/// given the bytes already in the buffer.
pub open spec fn primitive_enc_bytes(
    before: Seq<u8>,
    needs_padding: bool,
    encoding: Seq<u8>,
    starts_with_delimiter: bool,
    indirect: bool,
    pretty: bool,
) -> Seq<u8> {
    (if needs_space(needs_padding, starts_with_delimiter, before) {
        seq![SPACE]
    } else {
        Seq::empty()
    }) + encoding + obj_end(indirect, pretty)
}

/// The bytes a writer appends for a primitive object, given the bytes already
/// in the buffer.
pub open spec fn primitive_bytes<T: Primitive>(
    before: Seq<u8>,
    needs_padding: bool,
    value: T,
    indirect: bool,
    pretty: bool,
) -> Seq<u8> {
    primitive_enc_bytes(
        before,
        needs_padding,
        value.spec_encoding(),
        value.spec_starts_with_delimiter(),
        indirect,
        pretty,
    )
}

/// The bytes that start a dictionary entry: on its own indented line when
/// pretty-printing, then the key, then a space when pretty-printing.
pub open spec fn dict_key_bytes(pretty: bool, indent: int, key: Seq<u8>) -> Seq<u8> {
    (if pretty {
        seq![NEWLINE] + repeat_byte(SPACE, indent as nat)
    } else {
        Seq::empty()
    }) + name_encoding(key) + if pretty {
        seq![SPACE]
    } else {
        Seq::empty()
    }
}

/// The bytes that separate an array item from the previous one when
/// pretty-printing.
pub open spec fn array_separator(len: int, pretty: bool) -> Seq<u8> {
    if len != 0 && pretty {
        seq![SPACE]
    } else {
        Seq::empty()
    }
}

/// The bytes an array item adds whose value has the given encoding, when the
/// array holds `len` items so far.
pub open spec fn array_item_enc_bytes(
    before: Seq<u8>,
    len: int,
    pretty: bool,
    encoding: Seq<u8>,
    starts_with_delimiter: bool,
) -> Seq<u8> {
    array_separator(len, pretty) + primitive_enc_bytes(
        before + array_separator(len, pretty),
        len != 0 && !pretty,
        encoding,
        starts_with_delimiter,
        false,
        pretty,
    )
}

/// The bytes an array item with a primitive value adds, when the array holds
/// `len` items so far.
pub open spec fn array_item_bytes<T: Primitive>(before: Seq<u8>, len: int, pretty: bool, value: T) -> Seq<u8> {
    array_item_enc_bytes(
        before,
        len,
        pretty,
        value.spec_encoding(),
        value.spec_starts_with_delimiter(),
    )
}

/// The bytes a dictionary entry adds whose value has the given encoding.
pub open spec fn dict_pair_enc_bytes(
    before: Seq<u8>,
    pretty: bool,
    indent: int,
    key: Seq<u8>,
    encoding: Seq<u8>,
    starts_with_delimiter: bool,
) -> Seq<u8> {
    dict_key_bytes(pretty, indent, key) + primitive_enc_bytes(
        before + dict_key_bytes(pretty, indent, key),
        !pretty,
        encoding,
        starts_with_delimiter,
        false,
        pretty,
    )
}

/// The bytes a dictionary entry with a primitive value adds.
pub open spec fn dict_pair_bytes<T: Primitive>(
    before: Seq<u8>,
    pretty: bool,
    indent: int,
    key: Seq<u8>,
    value: T,
) -> Seq<u8> {
    dict_pair_enc_bytes(
        before,
        pretty,
        indent,
        key,
        value.spec_encoding(),
        value.spec_starts_with_delimiter(),
    )
}

/// The bytes a dictionary entry with a name value adds.
pub open spec fn dict_name_pair_bytes(
    before: Seq<u8>,
    pretty: bool,
    indent: int,
    key: Seq<u8>,
    value: Seq<u8>,
) -> Seq<u8> {
    dict_pair_enc_bytes(before, pretty, indent, key, name_encoding(value), true)
}

/// `after` is `before` with one more entry: `key` with the primitive `value`.
pub open spec fn dict_pair_appended<T: Primitive>(
    before: Dict,
    after: Dict,
    key: Seq<u8>,
    value: T,
) -> bool {
    dict_appended(
        before,
        after,
        dict_pair_bytes(before.buf@, before.settings.pretty, before.indent as int, key, value),
        value.spec_limits_after(before.buf.spec_limits().with_name_len(key.len() as int)),
        1,
    )
}

/// `after` is `before` with one more entry: `key` with the name `value`.
pub open spec fn dict_name_pair_appended(
    before: Dict,
    after: Dict,
    key: Seq<u8>,
    value: Seq<u8>,
) -> bool {
    dict_appended(
        before,
        after,
        dict_name_pair_bytes(before.buf@, before.settings.pretty, before.indent as int, key, value),
        before.buf.spec_limits().with_name_len(key.len() as int).with_name_len(value.len() as int),
        1,
    )
}

/// `after` is `before` with `bytes` appended, the given limits, `added` more
/// entries and otherwise the same settings.
pub open spec fn dict_appended(
    before: Dict,
    after: Dict,
    bytes: Seq<u8>,
    limits: LimitsView,
    added: int,
) -> bool {
    &&& after.buf@ == before.buf@ + bytes
    &&& after.buf.spec_limits() == limits
    &&& after.len == before.len + added
    &&& after.indirect == before.indirect
    &&& after.indent == before.indent
    &&& after.settings == before.settings
}

/// The bytes that close a dictionary holding `len` entries.
pub open spec fn dict_close_bytes(len: int, pretty: bool, indent: int, indirect: bool) -> Seq<u8> {
    (if len != 0 && pretty {
        seq![NEWLINE] + repeat_byte(SPACE, (indent - 2) as nat)
    } else {
        Seq::empty()
    }) + ">>".spec_bytes() + obj_end(indirect, pretty)
}

/// Append the end of an object.
fn write_obj_end(buf: &mut Buf, indirect: bool, pretty: bool)
    ensures
        final(buf)@ == old(buf)@ + obj_end(indirect, pretty),
        final(buf).spec_limits() == old(buf).spec_limits(),
{
    if indirect {
        buf.extend_slice("\nendobj\n".as_bytes());
        if pretty {
            buf.push(NEWLINE);
        }
    }
    assert(buf@ =~= old(buf)@ + obj_end(indirect, pretty));
}

/// Append `n` spaces.
fn push_spaces(buf: &mut Buf, n: u8)
    ensures
        final(buf)@ == old(buf)@ + repeat_byte(SPACE, n as nat),
        final(buf).spec_limits() == old(buf).spec_limits(),
{
    let mut i: u8 = 0;
    while i < n
        invariant
            i <= n,
            buf@ == old(buf)@ + repeat_byte(SPACE, i as nat),
            buf.spec_limits() == old(buf).spec_limits(),
        decreases n - i,
    {
        buf.push(SPACE);
        i = i + 1;
        assert(buf@ =~= old(buf)@ + repeat_byte(SPACE, i as nat));
    }
}

/// Writer for an arbitrary object.
///
/// The fields are public so that contracts can name the buffer a writer is
/// bound to; they are meant to be read, not set.
pub struct Obj<'a> {
    /// The buffer the object is written to.
    pub buf: &'a mut Buf,
    /// Whether this is a top-level indirect object.
    pub indirect: bool,
    /// The indentation of the enclosing dictionary.
    pub indent: u8,
    /// How the object is written.
    pub settings: Settings,
    /// Whether a space must separate the object from a previous token.
    pub needs_padding: bool,
}

impl<'a> Obj<'a> {
    /// Start a new direct object.
    pub(crate) fn direct(
        buf: &'a mut Buf,
        indent: u8,
        settings: Settings,
        needs_padding: bool,
    ) -> (r: Self)
        ensures
            *r.buf == *old(buf),
            *final(r.buf) == *final(buf),
            r.indirect == false,
            r.indent == indent,
            r.settings == settings,
            r.needs_padding == needs_padding,
    {
        Self { buf, indirect: false, indent, settings, needs_padding }
    }

    /// Start a new indirect object.
    pub(crate) fn indirect(buf: &'a mut Buf, id: Ref, settings: Settings) -> (r: Self)
        ensures
            r.buf@ == old(buf)@ + decimal(id.id()) + " 0 obj\n".spec_bytes(),
            r.buf.spec_limits() == old(buf).spec_limits().with_int(id.id()),
            *final(r.buf) == *final(buf),
            r.indirect == true,
            r.indent == 0,
            r.settings == settings,
            r.needs_padding == false,
    {
        buf.push_int(id.get());
        buf.extend_slice(" 0 obj\n".as_bytes());
        Self { buf, indirect: true, indent: 0, settings, needs_padding: false }
    }

    /// Write a primitive object.
    pub fn primitive<T: Primitive>(self, value: T)
        requires
            value.spec_writable(),
        ensures
            final(self.buf)@ == old(self.buf)@ + primitive_bytes(
                old(self.buf)@,
                self.needs_padding,
                value,
                self.indirect,
                self.settings.pretty,
            ),
            final(self.buf).spec_limits() == value.spec_limits_after(old(self.buf).spec_limits()),
    {
        // Normally, we need to separate different PDF objects by a whitespace.
        // As explained in 7.2.3 in the PDF reference, the delimiter characters
        // (, ), <, >, [, ], /, and % terminate the entity preceding them, so if
        // either the previous byte is a delimiter character or the current
        // token starts with one, no padding is needed.
        let ends_with_delimiter = match self.buf.last() {
            Some(b) => is_delimiter_character(b),
            None => false,
        };
        let starts = value.starts_with_delimiter();
        if self.needs_padding && !starts && !ends_with_delimiter {
            self.buf.push(SPACE);
        }
        let ghost mid = self.buf@;
        let ghost mid_limits = self.buf.spec_limits();
        value.write(self.buf);
        let ghost after_value = self.buf@;
        write_obj_end(self.buf, self.indirect, self.settings.pretty);
        assert(self.buf@ =~= old(self.buf)@ + primitive_bytes(
            old(self.buf)@,
            self.needs_padding,
            value,
            self.indirect,
            self.settings.pretty,
        ));
    }

    // Arrays and dictionaries always start with a delimiter, so no padding is
    // needed before them.

    /// Start writing an array.
    pub fn array(self) -> (r: Array<'a>)
        ensures
            r.buf@ == old(self.buf)@.push(LBRACKET),
            r.buf.spec_limits() == old(self.buf).spec_limits(),
            *final(r.buf) == *final(self.buf),
            r.indirect == self.indirect,
            r.indent == self.indent,
            r.settings == self.settings,
            r.len == 0,
    {
        self.buf.push(LBRACKET);
        Array {
            buf: self.buf,
            indirect: self.indirect,
            indent: self.indent,
            settings: self.settings,
            len: 0,
        }
    }

    /// Start writing a dictionary.
    pub fn dict(self) -> (r: Dict<'a>)
        ensures
            r.buf@ == old(self.buf)@ + "<<".spec_bytes(),
            r.buf.spec_limits() == old(self.buf).spec_limits(),
            *final(r.buf) == *final(self.buf),
            r.indirect == self.indirect,
            r.indent == (if self.indent > 253 {
                255
            } else {
                self.indent + 2
            }),
            r.settings == self.settings,
            r.len == 0,
    {
        self.buf.extend_slice("<<".as_bytes());
        let indent = if self.indent > 253 {
            255
        } else {
            self.indent + 2
        };
        Dict { buf: self.buf, indirect: self.indirect, indent, settings: self.settings, len: 0 }
    }
}

/// Writer for an array.
///
/// Call [`Array::finish`] to close the array.
pub struct Array<'a> {
    /// The buffer the array is written to.
    pub buf: &'a mut Buf,
    /// Whether the array is a top-level indirect object.
    pub indirect: bool,
    /// The indentation of the enclosing dictionary.
    pub indent: u8,
    /// How the array is written.
    pub settings: Settings,
    /// The number of items written so far.
    pub len: i32,
}

impl<'a> Array<'a> {
    /// The number of written items.
    pub fn len(&self) -> (r: i32)
        ensures
            r == self.len,
    {
        self.len
    }

    /// Whether no items have been written so far.
    pub fn is_empty(&self) -> (r: bool)
        ensures
            r == (self.len == 0),
    {
        self.len == 0
    }

    /// Start writing an arbitrary item.
    pub fn push(&mut self) -> (r: Obj<'_>)
        requires
            0 <= old(self).len < i32::MAX,
        ensures
            r.buf@ == old(self).buf@ + array_separator(
                old(self).len as int,
                old(self).settings.pretty,
            ),
            r.buf.spec_limits() == old(self).buf.spec_limits(),
            r.needs_padding == (old(self).len != 0 && !old(self).settings.pretty),
            r.indirect == false,
            r.indent == old(self).indent,
            r.settings == old(self).settings,
            final(self).len == old(self).len + 1,
            final(self).indirect == old(self).indirect,
            final(self).indent == old(self).indent,
            final(self).settings == old(self).settings,
            *final(self).buf == *final(r.buf),
            *final(final(self).buf) == *final(old(self).buf),
    {
        let needs_padding = if self.len != 0 {
            if self.settings.pretty {
                self.buf.push(SPACE);
                false
            } else {
                true
            }
        } else {
            false
        };
        self.len = self.len + 1;
        assert(self.buf@ =~= old(self).buf@ + array_separator(
            old(self).len as int,
            old(self).settings.pretty,
        ));
        Obj::direct(self.buf, self.indent, self.settings, needs_padding)
    }

    /// Write an item with a primitive value.
    ///
    /// This is a shorthand for `array.push().primitive(value)`.
    pub fn item<T: Primitive>(&mut self, value: T) -> (r: &mut Self)
        requires
            0 <= old(self).len < i32::MAX,
            value.spec_writable(),
        ensures
            r.buf@ == old(self).buf@ + array_item_bytes(
                old(self).buf@,
                old(self).len as int,
                old(self).settings.pretty,
                value,
            ),
            r.buf.spec_limits() == value.spec_limits_after(old(self).buf.spec_limits()),
            r.len == old(self).len + 1,
            r.indirect == old(self).indirect,
            r.indent == old(self).indent,
            r.settings == old(self).settings,
            *final(r.buf) == *final(old(self).buf),
            *final(self) == *final(r),
    {
        self.push().primitive(value);
        assert(self.buf@ =~= old(self).buf@ + array_item_bytes(
            old(self).buf@,
            old(self).len as int,
            old(self).settings.pretty,
            value,
        ));
        self
    }

    /// Finish the array: write the closing bracket and, for an indirect
    /// object, the `endobj` keyword.
    pub fn finish(self)
        requires
            self.len >= 0,
        ensures
            final(self.buf)@ == old(self.buf)@ + seq![RBRACKET] + obj_end(
                self.indirect,
                self.settings.pretty,
            ),
            final(self.buf).spec_limits() == old(self.buf).spec_limits().with_array_len(
                self.len as int,
            ),
    {
        self.buf.register_array_len(self.len as usize);
        self.buf.push(RBRACKET);
        write_obj_end(self.buf, self.indirect, self.settings.pretty);
        assert(self.buf@ =~= old(self.buf)@ + seq![RBRACKET] + obj_end(
            self.indirect,
            self.settings.pretty,
        ));
    }
}

/// Writer for a dictionary.
///
/// Call [`Dict::finish`] to close the dictionary.
pub struct Dict<'a> {
    /// The buffer the dictionary is written to.
    pub buf: &'a mut Buf,
    /// Whether the dictionary is a top-level indirect object.
    pub indirect: bool,
    /// The indentation of the dictionary's entries.
    pub indent: u8,
    /// How the dictionary is written.
    pub settings: Settings,
    /// The number of entries written so far.
    pub len: i32,
}

impl<'a> Dict<'a> {
    /// The number of written pairs.
    pub fn len(&self) -> (r: i32)
        ensures
            r == self.len,
    {
        self.len
    }

    /// Whether no pairs have been written so far.
    pub fn is_empty(&self) -> (r: bool)
        ensures
            r == (self.len == 0),
    {
        self.len == 0
    }

    /// Start writing a pair with an arbitrary value.
    pub fn insert(&mut self, key: Name) -> (r: Obj<'_>)
        requires
            0 <= old(self).len < i32::MAX,
        ensures
            r.buf@ == old(self).buf@ + dict_key_bytes(
                old(self).settings.pretty,
                old(self).indent as int,
                key.0@,
            ),
            r.buf.spec_limits() == old(self).buf.spec_limits().with_name_len(key.0@.len() as int),
            r.needs_padding == !old(self).settings.pretty,
            r.indirect == false,
            r.indent == old(self).indent,
            r.settings == old(self).settings,
            final(self).len == old(self).len + 1,
            final(self).indirect == old(self).indirect,
            final(self).indent == old(self).indent,
            final(self).settings == old(self).settings,
            *final(self).buf == *final(r.buf),
            *final(final(self).buf) == *final(old(self).buf),
    {
        self.len = self.len + 1;

        // Keys always start with a delimiter since they are names, so we never need
        // padding unless `pretty` is activated.
        if self.settings.pretty {
            self.buf.push(NEWLINE);
            push_spaces(self.buf, self.indent);
        }
        key.write(self.buf);
        let needs_padding = if self.settings.pretty {
            self.buf.push(SPACE);
            false
        } else {
            true
        };
        assert(self.buf@ =~= old(self).buf@ + dict_key_bytes(
            old(self).settings.pretty,
            old(self).indent as int,
            key.0@,
        ));
        Obj::direct(self.buf, self.indent, self.settings, needs_padding)
    }

    /// Write a pair with a primitive value.
    ///
    /// This is a shorthand for `dict.insert(key).primitive(value)`.
    pub fn pair<T: Primitive>(&mut self, key: Name, value: T) -> (r: &mut Self)
        requires
            0 <= old(self).len < i32::MAX,
            value.spec_writable(),
        ensures
            r.buf@ == old(self).buf@ + dict_pair_bytes(
                old(self).buf@,
                old(self).settings.pretty,
                old(self).indent as int,
                key.0@,
                value,
            ),
            r.buf.spec_limits() == value.spec_limits_after(
                old(self).buf.spec_limits().with_name_len(key.0@.len() as int),
            ),
            r.len == old(self).len + 1,
            r.indirect == old(self).indirect,
            r.indent == old(self).indent,
            r.settings == old(self).settings,
            *final(r.buf) == *final(old(self).buf),
            *final(self) == *final(r),
    {
        self.insert(key).primitive(value);
        assert(self.buf@ =~= old(self).buf@ + dict_pair_bytes(
            old(self).buf@,
            old(self).settings.pretty,
            old(self).indent as int,
            key.0@,
            value,
        ));
        self
    }

    /// Finish the dictionary: write the closing brackets and, for an
    /// indirect object, the `endobj` keyword.
    pub fn finish(self)
        requires
            self.len >= 0,
            self.indent >= 2,
        ensures
            final(self.buf)@ == old(self.buf)@ + dict_close_bytes(
                self.len as int,
                self.settings.pretty,
                self.indent as int,
                self.indirect,
            ),
            final(self.buf).spec_limits() == old(self.buf).spec_limits().with_dict_entries(
                self.len as int,
            ),
    {
        self.buf.register_dict_entries(self.len as usize);
        if self.len != 0 && self.settings.pretty {
            self.buf.push(NEWLINE);
            push_spaces(self.buf, self.indent - 2);
        }
        self.buf.extend_slice(">>".as_bytes());
        write_obj_end(self.buf, self.indirect, self.settings.pretty);
        assert(self.buf@ =~= old(self.buf)@ + dict_close_bytes(
            self.len as int,
            self.settings.pretty,
            self.indent as int,
            self.indirect,
        ));
    }
}

/// The bytes a sequence of primitive array items adds to an array that holds
/// `len` items, given the bytes before them.
pub open spec fn array_items_bytes<T: Primitive>(
    before: Seq<u8>,
    len: int,
    pretty: bool,
    values: Seq<T>,
) -> Seq<u8>
    decreases values.len(),
{
    if values.len() == 0 {
        Seq::empty()
    } else {
        let prev = array_items_bytes(before, len, pretty, values.drop_last());
        prev + array_item_bytes(before + prev, len + values.len() - 1, pretty, values.last())
    }
}

/// The limits after writing all of `values`, in order.
pub open spec fn limits_after_all<T: Primitive>(before: LimitsView, values: Seq<T>) -> LimitsView
    decreases values.len(),
{
    if values.len() == 0 {
        before
    } else {
        values.last().spec_limits_after(limits_after_all(before, values.drop_last()))
    }
}

/// Real numbers leave the limits as they are.
pub broadcast proof fn lemma_reals_keep_limits(before: LimitsView, values: Seq<Real>)
    ensures
        #[trigger] limits_after_all(before, values) == before,
    decreases values.len(),
{
    if values.len() > 0 {
        lemma_reals_keep_limits(before, values.drop_last());
    }
}

/// Whether every value can be written.
pub open spec fn all_writable<T: Primitive>(values: Seq<T>) -> bool {
    forall|i: int| 0 <= i < values.len() ==> (#[trigger] values[i]).spec_writable()
}

/// The bytes a sequence of dictionary entries with primitive values adds.
pub open spec fn dict_pairs_bytes<T: Primitive>(
    before: Seq<u8>,
    pretty: bool,
    indent: int,
    pairs: Seq<(Name, T)>,
) -> Seq<u8>
    decreases pairs.len(),
{
    if pairs.len() == 0 {
        Seq::empty()
    } else {
        let prev = dict_pairs_bytes(before, pretty, indent, pairs.drop_last());
        prev + dict_pair_bytes(before + prev, pretty, indent, pairs.last().0.0@, pairs.last().1)
    }
}

/// The limits after writing all of `pairs`, in order.
pub open spec fn limits_after_pairs<T: Primitive>(before: LimitsView, pairs: Seq<(Name, T)>) -> LimitsView
    decreases pairs.len(),
{
    if pairs.len() == 0 {
        before
    } else {
        pairs.last().1.spec_limits_after(
            limits_after_pairs(before, pairs.drop_last()).with_name_len(
                pairs.last().0.0@.len() as int,
            ),
        )
    }
}

impl<'a> Array<'a> {
    /// Write a sequence of items with primitive values.
    pub fn items<T: Primitive + Copy>(&mut self, values: &[T]) -> (r: &mut Self)
        requires
            0 <= old(self).len,
            old(self).len + values@.len() <= i32::MAX,
            all_writable(values@),
        ensures
            r.buf@ == old(self).buf@ + array_items_bytes(
                old(self).buf@,
                old(self).len as int,
                old(self).settings.pretty,
                values@,
            ),
            r.buf.spec_limits() == limits_after_all(old(self).buf.spec_limits(), values@),
            r.len == old(self).len + values@.len(),
            r.indirect == old(self).indirect,
            r.indent == old(self).indent,
            r.settings == old(self).settings,
            *final(r.buf) == *final(old(self).buf),
            *final(self) == *final(r),
    {
        let ghost start = self.buf@;
        let mut i: usize = 0;
        while i < values.len()
            invariant
                i <= values@.len(),
                0 <= old(self).len,
                old(self).len + values@.len() <= i32::MAX,
                all_writable(values@),
                start == old(self).buf@,
                self.len == old(self).len + i,
                self.indirect == old(self).indirect,
                self.indent == old(self).indent,
                self.settings == old(self).settings,
                self.buf@ == start + array_items_bytes(
                    start,
                    old(self).len as int,
                    self.settings.pretty,
                    values@.take(i as int),
                ),
                self.buf.spec_limits() == limits_after_all(
                    old(self).buf.spec_limits(),
                    values@.take(i as int),
                ),
                *final(self.buf) == *final(old(self).buf),
            decreases values@.len() - i,
        {
            let v = values[i];
            assert(values@.take(i + 1).drop_last() =~= values@.take(i as int));
            assert(values@[i as int].spec_writable());
            self.item(v);
            i = i + 1;
        }
        proof {
            lemma_take_full(values@);
        }
        self
    }
}

impl<'a> Dict<'a> {
    /// Write a sequence of pairs with primitive values.
    pub fn pairs<T: Primitive + Copy>(&mut self, pairs: &[(Name, T)]) -> (r: &mut Self)
        requires
            0 <= old(self).len,
            old(self).len + pairs@.len() <= i32::MAX,
            forall|i: int| 0 <= i < pairs@.len() ==> (#[trigger] pairs@[i]).1.spec_writable(),
        ensures
            r.buf@ == old(self).buf@ + dict_pairs_bytes(
                old(self).buf@,
                old(self).settings.pretty,
                old(self).indent as int,
                pairs@,
            ),
            r.buf.spec_limits() == limits_after_pairs(old(self).buf.spec_limits(), pairs@),
            r.len == old(self).len + pairs@.len(),
            r.indirect == old(self).indirect,
            r.indent == old(self).indent,
            r.settings == old(self).settings,
            *final(r.buf) == *final(old(self).buf),
            *final(self) == *final(r),
    {
        let ghost start = self.buf@;
        let mut i: usize = 0;
        while i < pairs.len()
            invariant
                i <= pairs@.len(),
                0 <= old(self).len,
                old(self).len + pairs@.len() <= i32::MAX,
                forall|i: int| 0 <= i < pairs@.len() ==> (#[trigger] pairs@[i]).1.spec_writable(),
                start == old(self).buf@,
                self.len == old(self).len + i,
                self.indirect == old(self).indirect,
                self.indent == old(self).indent,
                self.settings == old(self).settings,
                self.buf@ == start + dict_pairs_bytes(
                    start,
                    self.settings.pretty,
                    self.indent as int,
                    pairs@.take(i as int),
                ),
                self.buf.spec_limits() == limits_after_pairs(
                    old(self).buf.spec_limits(),
                    pairs@.take(i as int),
                ),
                *final(self.buf) == *final(old(self).buf),
            decreases pairs@.len() - i,
        {
            let (key, value) = pairs[i];
            assert(pairs@.take(i + 1).drop_last() =~= pairs@.take(i as int));
            assert(pairs@[i as int].1.spec_writable());
            self.pair(key, value);
            i = i + 1;
        }
        proof {
            lemma_take_full(pairs@);
        }
        self
    }
}

// ---------------------------------------------------------------------------
// Streams and filters.
// ---------------------------------------------------------------------------

/// Writer for an indirect stream object.
///
/// Call [`Stream::finish`] to write the data and close the object.
pub struct Stream<'a> {
    /// The stream's dictionary.
    pub dict: Dict<'a>,
    /// The stream's data.
    pub data: &'a [u8],
}

/// The bytes that close a stream: the end of its dictionary, then its data
/// between the `stream` and `endstream` keywords, then `endobj`.
pub open spec fn stream_close_bytes(pretty: bool, data: Seq<u8>) -> Seq<u8> {
    (if pretty {
        seq![NEWLINE]
    } else {
        Seq::empty()
    }) + ">>".spec_bytes() + "\nstream\n".spec_bytes() + data + "\nendstream".spec_bytes()
        + obj_end(true, pretty)
}

impl<'a> Stream<'a> {
    /// Start writing a stream.
    ///
    /// The object writer must be indirect and the stream length must not
    /// exceed `i32::MAX`.
    pub(crate) fn start(obj: Obj<'a>, data: &'a [u8]) -> (r: Self)
        requires
            obj.indirect,
            data@.len() <= i32::MAX,
        ensures
            r.dict.buf@ == old(obj.buf)@ + "<<".spec_bytes() + dict_pair_bytes(
                old(obj.buf)@ + "<<".spec_bytes(),
                obj.settings.pretty,
                r.dict.indent as int,
                "Length".spec_bytes(),
                data@.len() as i32,
            ),
            r.dict.buf.spec_limits() == old(obj.buf).spec_limits().with_name_len(
                "Length".spec_bytes().len() as int,
            ).with_int(data@.len() as int),
            *final(r.dict.buf) == *final(obj.buf),
            r.dict.indirect,
            r.dict.len == 1,
            r.dict.indent == (if obj.indent > 253 {
                255
            } else {
                obj.indent + 2
            }),
            r.dict.settings == obj.settings,
            r.data == data,
    {
        let mut dict = obj.dict();
        dict.pair(Name("Length".as_bytes()), data.len() as i32);
        Self { dict, data }
    }

    /// Write a pair with a primitive value into the stream dictionary.
    pub fn pair<T: Primitive>(&mut self, key: Name, value: T) -> (r: &mut Self)
        requires
            0 <= old(self).dict.len < i32::MAX,
            value.spec_writable(),
        ensures
            dict_pair_appended(old(self).dict, r.dict, key.0@, value),
            r.data == old(self).data,
            *final(r.dict.buf) == *final(old(self).dict.buf),
            *final(self) == *final(r),
    {
        self.dict.pair(key, value);
        self
    }

    /// Start writing a pair with an arbitrary value into the stream
    /// dictionary.
    pub fn insert(&mut self, key: Name) -> (r: Obj<'_>)
        requires
            0 <= old(self).dict.len < i32::MAX,
        ensures
            r.buf@ == old(self).dict.buf@ + dict_key_bytes(
                old(self).dict.settings.pretty,
                old(self).dict.indent as int,
                key.0@,
            ),
            r.buf.spec_limits() == old(self).dict.buf.spec_limits().with_name_len(
                key.0@.len() as int,
            ),
            r.needs_padding == !old(self).dict.settings.pretty,
            r.indirect == false,
            r.indent == old(self).dict.indent,
            r.settings == old(self).dict.settings,
            final(self).dict.len == old(self).dict.len + 1,
            final(self).dict.indirect == old(self).dict.indirect,
            final(self).dict.indent == old(self).dict.indent,
            final(self).dict.settings == old(self).dict.settings,
            final(self).data == old(self).data,
            *final(self).dict.buf == *final(r.buf),
            *final(final(self).dict.buf) == *final(old(self).dict.buf),
    {
        self.dict.insert(key)
    }

    /// Write the `/Filter` attribute.
    pub fn filter(&mut self, filter: Filter) -> (r: &mut Self)
        requires
            0 <= old(self).dict.len < i32::MAX,
        ensures
            dict_name_pair_appended(old(self).dict, r.dict, "Filter".spec_bytes(), filter.spec_name()),
            r.data == old(self).data,
            *final(r.dict.buf) == *final(old(self).dict.buf),
            *final(self) == *final(r),
    {
        self.dict.pair(Name("Filter".as_bytes()), filter.to_name());
        self
    }

    /// Start writing the `/DecodeParms` attribute.
    ///
    /// This is a dictionary that specifies parameters to be used in decoding
    /// the stream data using the filter specified by the
    /// [`/Filter`](Self::filter) attribute.
    pub fn decode_parms(&mut self) -> (r: DecodeParms<'_>)
        requires
            0 <= old(self).dict.len < i32::MAX,
        ensures
            r.dict.buf@ == old(self).dict.buf@ + dict_key_bytes(
                old(self).dict.settings.pretty,
                old(self).dict.indent as int,
                "DecodeParms".spec_bytes(),
            ) + "<<".spec_bytes(),
            r.dict.len == 0,
            r.dict.indirect == false,
            r.dict.settings == old(self).dict.settings,
            r.dict.indent >= 2,
            final(self).dict.len == old(self).dict.len + 1,
            final(self).data == old(self).data,
            *final(self).dict.buf == *final(r.dict.buf),
            *final(final(self).dict.buf) == *final(old(self).dict.buf),
    {
        DecodeParms::start(self.dict.insert(Name("DecodeParms".as_bytes())))
    }

    /// Finish the stream: close its dictionary, write its data and close the
    /// object.
    pub fn finish(self)
        requires
            self.dict.len >= 0,
        ensures
            final(self.dict.buf)@ == old(self.dict.buf)@ + stream_close_bytes(
                self.dict.settings.pretty,
                self.data@,
            ),
            final(self.dict.buf).spec_limits() == old(
                self.dict.buf,
            ).spec_limits().with_dict_entries(self.dict.len as int),
    {
        let dict = self.dict;
        let pretty = dict.settings.pretty;
        dict.buf.register_dict_entries(dict.len as usize);
        if pretty {
            dict.buf.push(NEWLINE);
        }
        dict.buf.extend_slice(">>".as_bytes());
        dict.buf.extend_slice("\nstream\n".as_bytes());
        dict.buf.extend_slice(self.data);
        dict.buf.extend_slice("\nendstream".as_bytes());
        write_obj_end(dict.buf, true, pretty);
        assert(dict.buf@ =~= old(self.dict.buf)@ + stream_close_bytes(pretty, self.data@));
    }
}

/// The indentation of the entries of a dictionary or array nested in an
/// object with indentation `indent`.
pub open spec fn nested_indent(indent: u8) -> u8 {
    if indent > 253 {
        255
    } else {
        (indent + 2) as u8
    }
}

/// The `/Type` entry if there is a `kind` and the `/Subtype` entry if there
/// is a `subtype`, written after `before`.
pub open spec fn type_entries_bytes(
    before: Seq<u8>,
    pretty: bool,
    indent: int,
    kind: Option<Seq<u8>>,
    subtype: Option<Seq<u8>>,
) -> Seq<u8> {
    let k = match kind {
        Some(k) => dict_name_pair_bytes(before, pretty, indent, "Type".spec_bytes(), k),
        None => Seq::empty(),
    };
    let s = match subtype {
        Some(s) => dict_name_pair_bytes(before + k, pretty, indent, "Subtype".spec_bytes(), s),
        None => Seq::empty(),
    };
    k + s
}

/// The bytes that start a dictionary writer after `before`: the opening of
/// the dictionary, then its `/Type` entry if there is a `kind` and its
/// `/Subtype` entry if there is a `subtype`.
pub open spec fn writer_dict_start(
    before: Seq<u8>,
    pretty: bool,
    indent: int,
    kind: Option<Seq<u8>>,
    subtype: Option<Seq<u8>>,
) -> Seq<u8> {
    "<<".spec_bytes() + type_entries_bytes(before + "<<".spec_bytes(), pretty, indent, kind, subtype)
}

/// The number of entries of an optional value: one if it is there.
pub open spec fn opt_count<T>(v: Option<T>) -> int {
    if v is Some {
        1
    } else {
        0
    }
}

/// `dict` was just started after `before` by an object writer with the
/// given properties, with the `/Type` and `/Subtype` entries that are given.
pub open spec fn dict_started(
    dict: Dict,
    before: Seq<u8>,
    indirect: bool,
    obj_indent: u8,
    settings: Settings,
    kind: Option<Seq<u8>>,
    subtype: Option<Seq<u8>>,
) -> bool {
    &&& dict.buf@ == before + writer_dict_start(
        before,
        settings.pretty,
        nested_indent(obj_indent) as int,
        kind,
        subtype,
    )
    &&& dict.len == opt_count(kind) + opt_count(subtype)
    &&& dict.indirect == indirect
    &&& dict.indent == nested_indent(obj_indent)
    &&& dict.settings == settings
}

/// The bytes of an optional string.
pub open spec fn opt_bytes(v: Option<&str>) -> Option<Seq<u8>> {
    match v {
        Some(k) => Some(k.spec_bytes()),
        None => None,
    }
}

/// `after` is `before` with `bytes` appended, `added` more entries and
/// otherwise the same settings.
pub open spec fn dict_grown(before: Dict, after: Dict, bytes: Seq<u8>, added: int) -> bool {
    &&& after.buf@ == before.buf@ + bytes
    &&& after.len == before.len + added
    &&& after.indirect == before.indirect
    &&& after.indent == before.indent
    &&& after.settings == before.settings
}

/// The limits after the `/Type` and `/Subtype` entries that are given.
pub open spec fn dict_start_limits(
    before: LimitsView,
    kind: Option<Seq<u8>>,
    subtype: Option<Seq<u8>>,
) -> LimitsView {
    let k = match kind {
        Some(k) => before.with_name_len("Type".spec_bytes().len() as int).with_name_len(k.len() as int),
        None => before,
    };
    match subtype {
        Some(s) => k.with_name_len("Subtype".spec_bytes().len() as int).with_name_len(s.len() as int),
        None => k,
    }
}

/// Start a dictionary writer on an object, with a `/Type` entry if `kind`
/// is given and a `/Subtype` entry if `subtype` is given.
pub(crate) fn start_dict<'a>(obj: Obj<'a>, kind: Option<&str>, subtype: Option<&str>) -> (r: Dict<'a>)
    ensures
        r.buf.spec_limits() == dict_start_limits(old(obj.buf).spec_limits(), opt_bytes(kind), opt_bytes(subtype)),
        dict_started(
            r,
            old(obj.buf)@,
            obj.indirect,
            obj.indent,
            obj.settings,
            opt_bytes(kind),
            opt_bytes(subtype),
        ),
        *final(r.buf) == *final(obj.buf),
{
    let ghost before = obj.buf@;
    let mut dict = obj.dict();
    let ghost open = dict.buf@;
    if let Some(k) = kind {
        dict.pair(Name("Type".as_bytes()), Name(k.as_bytes()));
    }
    let ghost k = dict.buf@.subrange(open.len() as int, dict.buf@.len() as int);
    assert(dict.buf@ =~= open + k);
    if let Some(s) = subtype {
        dict.pair(Name("Subtype".as_bytes()), Name(s.as_bytes()));
    }
    assert(dict.buf@ =~= before + writer_dict_start(
        before,
        dict.settings.pretty,
        dict.indent as int,
        opt_bytes(kind),
        opt_bytes(subtype),
    ));
    dict
}

/// Write the `/Type` and `/Subtype` entries that are given into a stream
/// dictionary.
pub(crate) fn type_stream<'a>(stream: Stream<'a>, kind: Option<&str>, subtype: Option<&str>) -> (r: Stream<'a>)
    requires
        0 <= stream.dict.len < i32::MAX - 2,
    ensures
        r.dict.buf@ == old(stream.dict.buf)@ + type_entries_bytes(
            old(stream.dict.buf)@,
            stream.dict.settings.pretty,
            stream.dict.indent as int,
            opt_bytes(kind),
            opt_bytes(subtype),
        ),
        r.dict.buf.spec_limits() == dict_start_limits(
            old(stream.dict.buf).spec_limits(),
            opt_bytes(kind),
            opt_bytes(subtype),
        ),
        r.dict.len == stream.dict.len + opt_count(opt_bytes(kind)) + opt_count(opt_bytes(subtype)),
        r.dict.indirect == stream.dict.indirect,
        r.dict.indent == stream.dict.indent,
        r.dict.settings == stream.dict.settings,
        r.data == stream.data,
        *final(r.dict.buf) == *final(stream.dict.buf),
{
    let ghost before = stream.dict.buf@;
    let mut stream = stream;
    if let Some(k) = kind {
        stream.pair(Name("Type".as_bytes()), Name(k.as_bytes()));
    }
    let ghost k = stream.dict.buf@.subrange(before.len() as int, stream.dict.buf@.len() as int);
    assert(stream.dict.buf@ =~= before + k);
    if let Some(s) = subtype {
        stream.pair(Name("Subtype".as_bytes()), Name(s.as_bytes()));
    }
    assert(stream.dict.buf@ =~= before + type_entries_bytes(
        before,
        stream.dict.settings.pretty,
        stream.dict.indent as int,
        opt_bytes(kind),
        opt_bytes(subtype),
    ));
    stream
}

/// The entry `key` with an array of primitive items, written after
/// `before`.
pub open spec fn dict_items_entry_bytes<T: Primitive>(
    before: Seq<u8>,
    pretty: bool,
    indent: int,
    key: Seq<u8>,
    items: Seq<T>,
) -> Seq<u8> {
    let k = dict_key_bytes(pretty, indent, key);
    k + seq![LBRACKET] + array_items_bytes(before + k + seq![LBRACKET], 0, pretty, items)
        + array_close_bytes(false, pretty)
}

/// The limits after an entry `key` with an array of `items`.
pub open spec fn items_entry_limits<T: Primitive>(before: LimitsView, key: Seq<u8>, items: Seq<T>) -> LimitsView {
    limits_after_all(before.with_name_len(key.len() as int), items).with_array_len(items.len() as int)
}

/// `after` is `before` with one more entry: `key` with an array of `items`.
pub open spec fn dict_items_appended<T: Primitive>(before: Dict, after: Dict, key: Seq<u8>, items: Seq<T>) -> bool {
    &&& dict_grown(
        before,
        after,
        dict_items_entry_bytes(before.buf@, before.settings.pretty, before.indent as int, key, items),
        1,
    )
    &&& after.buf.spec_limits() == items_entry_limits(before.buf.spec_limits(), key, items)
}

/// Write the entry `key` with an array of primitive items.
pub(crate) fn write_items_entry<T: Primitive + Copy>(dict: &mut Dict, key: Name, items: &[T])
    requires
        0 <= old(dict).len < i32::MAX,
        items@.len() <= i32::MAX,
        all_writable(items@),
    ensures
        final(dict).buf@ == old(dict).buf@ + dict_items_entry_bytes(
            old(dict).buf@,
            old(dict).settings.pretty,
            old(dict).indent as int,
            key.0@,
            items@,
        ),
        final(dict).buf.spec_limits() == items_entry_limits(old(dict).buf.spec_limits(), key.0@, items@),
        final(dict).len == old(dict).len + 1,
        final(dict).indent == old(dict).indent,
        final(dict).indirect == old(dict).indirect,
        final(dict).settings == old(dict).settings,
        *final(final(dict).buf) == *final(old(dict).buf),
{
    let ghost k = dict_key_bytes(old(dict).settings.pretty, old(dict).indent as int, key.0@);
    let ghost pretty = old(dict).settings.pretty;
    let mut array = dict.insert(key).array();
    let ghost start = array.buf@;
    assert(start =~= old(dict).buf@ + k + seq![LBRACKET]);
    array.items(items);
    assert(array.buf@ == start + array_items_bytes(start, 0, pretty, items@));
    array.finish();
    assert(dict.buf@ =~= old(dict).buf@ + dict_items_entry_bytes(
        old(dict).buf@,
        old(dict).settings.pretty,
        old(dict).indent as int,
        key.0@,
        items@,
    ));
}

/// A compression filter for a stream.
#[derive(Debug, Copy, Clone, Eq, PartialEq, Hash)]
#[allow(missing_docs)]
pub enum Filter {
    AsciiHexDecode,
    Ascii85Decode,
    /// Lempel-Ziv-Welch (LZW) compression.
    ///
    /// Note that this filter is forbidden in PDF/A.
    LzwDecode,
    FlateDecode,
    RunLengthDecode,
    CcittFaxDecode,
    Jbig2Decode,
    /// Decodes JPEG/JFIF files with a SOF0, SOF1, or (PDF 1.3+) SOF2 marker.
    ///
    /// See ISO 32000-1:2008, Section 7.4.8 and Adobe Technical Note #5116.
    DctDecode,
    /// Decodes JPEG2000 files with a JPX baseline marker.
    ///
    /// Note that additional restrictions are imposed by PDF/A and PDF/X.
    JpxDecode,
    /// Encrypt the stream.
    ///
    /// Note that this filter is restricted in PDF/A.
    Crypt,
}

impl Filter {
    /// The name under which the filter is written.
    pub open spec fn spec_name(self) -> Seq<u8> {
        match self {
            Self::AsciiHexDecode => "ASCIIHexDecode".spec_bytes(),
            Self::Ascii85Decode => "ASCII85Decode".spec_bytes(),
            Self::LzwDecode => "LZWDecode".spec_bytes(),
            Self::FlateDecode => "FlateDecode".spec_bytes(),
            Self::RunLengthDecode => "RunLengthDecode".spec_bytes(),
            Self::CcittFaxDecode => "CCITTFaxDecode".spec_bytes(),
            Self::Jbig2Decode => "JBIG2Decode".spec_bytes(),
            Self::DctDecode => "DCTDecode".spec_bytes(),
            Self::JpxDecode => "JPXDecode".spec_bytes(),
            Self::Crypt => "Crypt".spec_bytes(),
        }
    }

    pub(crate) fn to_name(self) -> (r: Name<'static>)
        ensures
            r.0@ == self.spec_name(),
    {
        match self {
            Self::AsciiHexDecode => Name("ASCIIHexDecode".as_bytes()),
            Self::Ascii85Decode => Name("ASCII85Decode".as_bytes()),
            Self::LzwDecode => Name("LZWDecode".as_bytes()),
            Self::FlateDecode => Name("FlateDecode".as_bytes()),
            Self::RunLengthDecode => Name("RunLengthDecode".as_bytes()),
            Self::CcittFaxDecode => Name("CCITTFaxDecode".as_bytes()),
            Self::Jbig2Decode => Name("JBIG2Decode".as_bytes()),
            Self::DctDecode => Name("DCTDecode".as_bytes()),
            Self::JpxDecode => Name("JPXDecode".as_bytes()),
            Self::Crypt => Name("Crypt".as_bytes()),
        }
    }
}

/// Which kind of predictor to use for a `FlateDecode` or `LzwDecode` stream.
#[derive(Debug, Copy, Clone, Eq, PartialEq, Hash)]
#[allow(missing_docs)]
pub enum Predictor {
    /// No prediction.
    NoPrediction,
    /// TIFF Predictor 2.
    Tiff,
    PngNone,
    PngSub,
    PngUp,
    PngAverage,
    PngPaeth,
    PngOptimum,
}

impl Default for Predictor {
    fn default() -> (r: Predictor)
        ensures
            r == Predictor::NoPrediction,
    {
        Predictor::NoPrediction
    }
}

impl Predictor {
    /// The integer representation of the predictor according to ISO
    /// 32000-2:2020, Table E.
    pub open spec fn spec_to_i32(self) -> i32 {
        match self {
            Self::NoPrediction => 1,
            Self::Tiff => 2,
            Self::PngNone => 10,
            Self::PngSub => 11,
            Self::PngUp => 12,
            Self::PngAverage => 13,
            Self::PngPaeth => 14,
            Self::PngOptimum => 15,
        }
    }

    /// Convert the predictor to its integer representation according to ISO
    /// 32000-2:2020, Table E.
    fn to_i32(self) -> (r: i32)
        ensures
            r == self.spec_to_i32(),
    {
        match self {
            Self::NoPrediction => 1,
            Self::Tiff => 2,
            Self::PngNone => 10,
            Self::PngSub => 11,
            Self::PngUp => 12,
            Self::PngAverage => 13,
            Self::PngPaeth => 14,
            Self::PngOptimum => 15,
        }
    }
}

/// Writer for an _filter decode parameters dictionary_.
///
/// This struct is created by [`Stream::decode_parms`].
pub struct DecodeParms<'a> {
    /// The dictionary being written.
    pub dict: Dict<'a>,
}

impl<'a> DecodeParms<'a> {
    /// Start writing decode parameters into the given object.
    pub fn start(obj: Obj<'a>) -> (r: Self)
        ensures
            r.dict.buf@ == old(obj.buf)@ + "<<".spec_bytes(),
            r.dict.buf.spec_limits() == old(obj.buf).spec_limits(),
            *final(r.dict.buf) == *final(obj.buf),
            r.dict.indirect == obj.indirect,
            r.dict.indent >= 2,
            r.dict.indent == (if obj.indent > 253 {
                255
            } else {
                obj.indent + 2
            }),
            r.dict.settings == obj.settings,
            r.dict.len == 0,
    {
        Self { dict: obj.dict() }
    }

    /// Finish the dictionary.
    pub fn finish(self)
        requires
            self.dict.len >= 0,
            self.dict.indent >= 2,
        ensures
            final(self.dict.buf)@ == old(self.dict.buf)@ + dict_close_bytes(
                self.dict.len as int,
                self.dict.settings.pretty,
                self.dict.indent as int,
                self.dict.indirect,
            ),
            final(self.dict.buf).spec_limits() == old(
                self.dict.buf,
            ).spec_limits().with_dict_entries(self.dict.len as int),
    {
        self.dict.finish();
    }
}

/// Properties for `FlateDecode` and `LzwDecode`.
impl DecodeParms<'_> {
    /// Write the `/Predictor` attribute for `FlateDecode` and `LzwDecode`.
    ///
    /// No predictor is used by default.
    #[verifier::spinoff_prover]
    pub fn predictor(&mut self, predictor: Predictor) -> (r: &mut Self)
        requires
            0 <= old(self).dict.len < i32::MAX,
        ensures
            dict_pair_appended(old(self).dict, r.dict, "Predictor".spec_bytes(), predictor.spec_to_i32()),
            *final(r.dict.buf) == *final(old(self).dict.buf),
            *final(self) == *final(r),
    {
        self.dict.pair(Name("Predictor".as_bytes()), predictor.to_i32());
        self
    }

    /// Write the `/Colors` attribute for `FlateDecode` and `LzwDecode`.
    ///
    /// Must be greater than 0. [`/Predictor`](Self::predictor) must be set.
    /// Defaults to 1.
    pub fn colors(&mut self, colors: i32) -> (r: &mut Self)
        requires
            0 <= old(self).dict.len < i32::MAX,
            colors > 0,
        ensures
            dict_pair_appended(old(self).dict, r.dict, "Colors".spec_bytes(), colors),
            *final(r.dict.buf) == *final(old(self).dict.buf),
            *final(self) == *final(r),
    {
        self.dict.pair(Name("Colors".as_bytes()), colors);
        self
    }

    /// Write the `/BitsPerComponent` attribute for `FlateDecode` and
    /// `LzwDecode`.
    ///
    /// Must be one of 1, 2, 4, 8, or 16. [`/Predictor`](Self::predictor) must
    /// be set. Defaults to 8.
    pub fn bits_per_component(&mut self, bits: i32) -> (r: &mut Self)
        requires
            0 <= old(self).dict.len < i32::MAX,
            bits == 1 || bits == 2 || bits == 4 || bits == 8 || bits == 16,
        ensures
            dict_pair_appended(old(self).dict, r.dict, "BitsPerComponent".spec_bytes(), bits),
            *final(r.dict.buf) == *final(old(self).dict.buf),
            *final(self) == *final(r),
    {
        self.dict.pair(Name("BitsPerComponent".as_bytes()), bits);
        self
    }

    /// Write the `/Columns` attribute for `FlateDecode` and `LzwDecode` or
    /// `CcittFaxDecode`.
    ///
    /// When used with `FlateDecode` and `LzwDecode`, it indicates the number of
    /// samples in each row. In that case, [`/Predictor`](Self::predictor) must
    /// be set and the default is 1.
    ///
    /// When used with `CcittFaxDecode` it denominates the width of the image in
    /// pixels and defaults to 1728.
    pub fn columns(&mut self, columns: i32) -> (r: &mut Self)
        requires
            0 <= old(self).dict.len < i32::MAX,
            columns != i32::MIN,
        ensures
            dict_pair_appended(old(self).dict, r.dict, "Columns".spec_bytes(), columns),
            *final(r.dict.buf) == *final(old(self).dict.buf),
            *final(self) == *final(r),
    {
        self.dict.pair(Name("Columns".as_bytes()), columns);
        self
    }

    /// Write the `/EarlyChange` attribute for `LzwDecode`.
    ///
    /// If `true` (1), the code length increases one code earlier, if `false`
    /// (0), length change is postponed as long as possible.
    ///
    /// Defaults to 1.
    pub fn early_change(&mut self, early_change: bool) -> (r: &mut Self)
        requires
            0 <= old(self).dict.len < i32::MAX,
        ensures
            dict_pair_appended(old(self).dict, r.dict, "EarlyChange".spec_bytes(), (if early_change {
                    1i32
                } else {
                    0i32
                })),
            *final(r.dict.buf) == *final(old(self).dict.buf),
            *final(self) == *final(r),
    {
        self.dict.pair(Name("EarlyChange".as_bytes()), if early_change {
            1i32
        } else {
            0i32
        });
        self
    }
}

/// Properties for `CcittFaxDecode`. Also see [`Self::columns`].
impl DecodeParms<'_> {
    /// Write the `/K` attribute for `CcittFaxDecode`.
    ///
    /// Defaults to 0.
    pub fn k(&mut self, k: i32) -> (r: &mut Self)
        requires
            0 <= old(self).dict.len < i32::MAX,
            k != i32::MIN,
        ensures
            dict_pair_appended(old(self).dict, r.dict, "K".spec_bytes(), k),
            *final(r.dict.buf) == *final(old(self).dict.buf),
            *final(self) == *final(r),
    {
        self.dict.pair(Name("K".as_bytes()), k);
        self
    }

    /// Write the `/EndOfLine` attribute for `CcittFaxDecode`.
    ///
    /// Whether the EOL bit pattern is present in the encoding. Defaults to
    /// `false`.
    pub fn end_of_line(&mut self, eol: bool) -> (r: &mut Self)
        requires
            0 <= old(self).dict.len < i32::MAX,
        ensures
            dict_pair_appended(old(self).dict, r.dict, "EndOfLine".spec_bytes(), eol),
            *final(r.dict.buf) == *final(old(self).dict.buf),
            *final(self) == *final(r),
    {
        self.dict.pair(Name("EndOfLine".as_bytes()), eol);
        self
    }

    /// Write the `/EncodedByteAlign` attribute for `CcittFaxDecode`.
    ///
    /// Whether to expect zero bits before each encoded line. Defaults to
    /// `false`.
    pub fn encoded_byte_align(&mut self, encoded_byte_align: bool) -> (r: &mut Self)
        requires
            0 <= old(self).dict.len < i32::MAX,
        ensures
            dict_pair_appended(old(self).dict, r.dict, "EncodedByteAlign".spec_bytes(), encoded_byte_align),
            *final(r.dict.buf) == *final(old(self).dict.buf),
            *final(self) == *final(r),
    {
        self.dict.pair(Name("EncodedByteAlign".as_bytes()), encoded_byte_align);
        self
    }

    /// Write the `/Rows` attribute for `CcittFaxDecode`.
    ///
    /// The image's height. Defaults to 0.
    pub fn rows(&mut self, rows: i32) -> (r: &mut Self)
        requires
            0 <= old(self).dict.len < i32::MAX,
            rows != i32::MIN,
        ensures
            dict_pair_appended(old(self).dict, r.dict, "Rows".spec_bytes(), rows),
            *final(r.dict.buf) == *final(old(self).dict.buf),
            *final(self) == *final(r),
    {
        self.dict.pair(Name("Rows".as_bytes()), rows);
        self
    }

    /// Write the `/EndOfBlock` attribute for `CcittFaxDecode`.
    ///
    /// Whether to expect an EOB code at the end of the data. Defaults to
    /// `true`.
    pub fn end_of_block(&mut self, end_of_block: bool) -> (r: &mut Self)
        requires
            0 <= old(self).dict.len < i32::MAX,
        ensures
            dict_pair_appended(old(self).dict, r.dict, "EndOfBlock".spec_bytes(), end_of_block),
            *final(r.dict.buf) == *final(old(self).dict.buf),
            *final(self) == *final(r),
    {
        self.dict.pair(Name("EndOfBlock".as_bytes()), end_of_block);
        self
    }

    /// Write the `/BlackIs1` attribute for `CcittFaxDecode`.
    ///
    /// Whether to invert the bits in the image. Defaults to `false`.
    pub fn black_is_1(&mut self, black_is_1: bool) -> (r: &mut Self)
        requires
            0 <= old(self).dict.len < i32::MAX,
        ensures
            dict_pair_appended(old(self).dict, r.dict, "BlackIs1".spec_bytes(), black_is_1),
            *final(r.dict.buf) == *final(old(self).dict.buf),
            *final(self) == *final(r),
    {
        self.dict.pair(Name("BlackIs1".as_bytes()), black_is_1);
        self
    }

    /// Write the `/DamagedRowsBeforeError` attribute for `CcittFaxDecode`.
    ///
    /// How many damaged rows are allowed before an error is raised. Defaults to
    /// 0.
    pub fn damaged_rows_before_error(&mut self, count: i32) -> (r: &mut Self)
        requires
            0 <= old(self).dict.len < i32::MAX,
            count != i32::MIN,
        ensures
            dict_pair_appended(old(self).dict, r.dict, "DamagedRowsBeforeError".spec_bytes(), count),
            *final(r.dict.buf) == *final(old(self).dict.buf),
            *final(self) == *final(r),
    {
        self.dict.pair(Name("DamagedRowsBeforeError".as_bytes()), count);
        self
    }
}

/// Properties for `Jbig2Decode`.
impl DecodeParms<'_> {
    /// Write the `/JBIG2Globals` attribute for `Jbig2Decode`.
    ///
    /// A reference to a stream containing global segments.
    pub fn jbig2_globals(&mut self, globals: Ref) -> (r: &mut Self)
        requires
            0 <= old(self).dict.len < i32::MAX,
        ensures
            dict_pair_appended(old(self).dict, r.dict, "JBIG2Globals".spec_bytes(), globals),
            *final(r.dict.buf) == *final(old(self).dict.buf),
            *final(self) == *final(r),
    {
        self.dict.pair(Name("JBIG2Globals".as_bytes()), globals);
        self
    }
}

/// Properties for `JpxDecode`.
impl DecodeParms<'_> {
    /// Write the `/ColorTransform` attribute for `JpxDecode`.
    ///
    /// How to handle color data. If `true` (1), images with three color
    /// channels shall be decoded from the YCbCr space and images with four
    /// color channels are decoded from YCbCrK. If `false` (0), no
    /// transformation is applied. The default depends on the `APP14` marker in
    /// the data stream.
    pub fn color_transform(&mut self, color_transform: bool) -> (r: &mut Self)
        requires
            0 <= old(self).dict.len < i32::MAX,
        ensures
            dict_pair_appended(old(self).dict, r.dict, "ColorTransform".spec_bytes(), (if color_transform {
                    1i32
                } else {
                    0i32
                })),
            *final(r.dict.buf) == *final(old(self).dict.buf),
            *final(self) == *final(r),
    {
        self.dict.pair(Name("ColorTransform".as_bytes()), if color_transform {
            1i32
        } else {
            0i32
        });
        self
    }
}

/// Properties for `Crypt`.
impl DecodeParms<'_> {
    /// Write the `/Type` attribute for `Crypt` as `CryptFilterDecodeParms`.
    pub fn crypt_type(&mut self) -> (r: &mut Self)
        requires
            0 <= old(self).dict.len < i32::MAX,
        ensures
            dict_name_pair_appended(old(self).dict, r.dict, "Type".spec_bytes(), "CryptFilterDecodeParms".spec_bytes()),
            *final(r.dict.buf) == *final(old(self).dict.buf),
            *final(self) == *final(r),
    {
        self.dict.pair(Name("Type".as_bytes()), Name("CryptFilterDecodeParms".as_bytes()));
        self
    }

    /// Write the `/Name` attribute for `Crypt`.
    ///
    /// The name of the crypt filter corresponding to a `CF` entry of the
    /// encryption dictionary.
    pub fn name(&mut self, name: Name) -> (r: &mut Self)
        requires
            0 <= old(self).dict.len < i32::MAX,
        ensures
            dict_pair_appended(old(self).dict, r.dict, "Name".spec_bytes(), name),
            *final(r.dict.buf) == *final(old(self).dict.buf),
            *final(self) == *final(r),
    {
        self.dict.pair(Name("Name".as_bytes()), name);
        self
    }
}

// ---------------------------------------------------------------------------
// Typed writers and trees.
// ---------------------------------------------------------------------------

/// `after` is `before` with `bytes` appended, the given limits, `added` more
/// items and otherwise the same settings.
pub open spec fn array_appended(
    before: Array,
    after: Array,
    bytes: Seq<u8>,
    limits: LimitsView,
    added: int,
) -> bool {
    &&& after.buf@ == before.buf@ + bytes
    &&& after.buf.spec_limits() == limits
    &&& after.len == before.len + added
    &&& after.indirect == before.indirect
    &&& after.indent == before.indent
    &&& after.settings == before.settings
}

/// `after` is `before` with one more primitive item.
pub open spec fn array_item_appended<T: Primitive>(before: Array, after: Array, value: T) -> bool {
    array_appended(
        before,
        after,
        array_item_bytes(before.buf@, before.len as int, before.settings.pretty, value),
        value.spec_limits_after(before.buf.spec_limits()),
        1,
    )
}

/// The bytes that close an array.
pub open spec fn array_close_bytes(indirect: bool, pretty: bool) -> Seq<u8> {
    seq![RBRACKET] + obj_end(indirect, pretty)
}

/// `array` is an empty array just opened after `before`.
pub open spec fn array_started(
    array: Array,
    before: Seq<u8>,
    indirect: bool,
    indent: u8,
    settings: Settings,
) -> bool {
    &&& array.buf@ == before.push(LBRACKET)
    &&& array.len == 0
    &&& array.indirect == indirect
    &&& array.indent == indent
    &&& array.settings == settings
}

/// `after` is `before` with one more item: the name `name`.
pub open spec fn array_name_item_appended(before: Array, after: Array, name: Seq<u8>) -> bool {
    array_appended(
        before,
        after,
        array_item_enc_bytes(
            before.buf@,
            before.len as int,
            before.settings.pretty,
            name_encoding(name),
            true,
        ),
        before.buf.spec_limits().with_name_len(name.len() as int),
        1,
    )
}

/// The encoding of a primitive value together with whether it starts with a
/// delimiter: what decides the bytes it adds as an array item.
pub open spec fn token<T: Primitive>(value: T) -> (Seq<u8>, bool) {
    (value.spec_encoding(), value.spec_starts_with_delimiter())
}

/// The token of the name with the given bytes.
pub open spec fn name_token(name: Seq<u8>) -> (Seq<u8>, bool) {
    (name_encoding(name), true)
}

/// The bytes that items with the given tokens add to an array that holds
/// `len` items, given the bytes before them.
pub open spec fn array_tokens_bytes(
    before: Seq<u8>,
    len: int,
    pretty: bool,
    tokens: Seq<(Seq<u8>, bool)>,
) -> Seq<u8>
    decreases tokens.len(),
{
    if tokens.len() == 0 {
        Seq::empty()
    } else {
        let prev = array_tokens_bytes(before, len, pretty, tokens.drop_last());
        prev + array_item_enc_bytes(
            before + prev,
            len + tokens.len() - 1,
            pretty,
            tokens.last().0,
            tokens.last().1,
        )
    }
}

/// A whole array whose items have the given tokens, written after `before`.
pub open spec fn token_array_bytes(
    before: Seq<u8>,
    pretty: bool,
    indirect: bool,
    tokens: Seq<(Seq<u8>, bool)>,
) -> Seq<u8> {
    seq![LBRACKET] + array_tokens_bytes(before.push(LBRACKET), 0, pretty, tokens)
        + array_close_bytes(indirect, pretty)
}

/// The dictionary entry `key` with an array whose items have the given
/// tokens, written after `before`.
pub open spec fn dict_tokens_entry_bytes(
    before: Seq<u8>,
    pretty: bool,
    indent: int,
    key: Seq<u8>,
    tokens: Seq<(Seq<u8>, bool)>,
) -> Seq<u8> {
    let k = dict_key_bytes(pretty, indent, key);
    k + seq![LBRACKET] + array_tokens_bytes(before + k + seq![LBRACKET], 0, pretty, tokens)
        + array_close_bytes(false, pretty)
}

/// Primitive items add the bytes of their tokens.
pub proof fn lemma_items_as_tokens<T: Primitive>(
    before: Seq<u8>,
    len: int,
    pretty: bool,
    values: Seq<T>,
)
    ensures
        array_items_bytes(before, len, pretty, values) == array_tokens_bytes(
            before,
            len,
            pretty,
            values.map_values(|v: T| token(v)),
        ),
    decreases values.len(),
{
    if values.len() > 0 {
        lemma_items_as_tokens(before, len, pretty, values.drop_last());
        assert(values.map_values(|v: T| token(v)).drop_last() =~= values.drop_last().map_values(
            |v: T| token(v),
        ));
    }
}

/// Write a primitive item into an array whose items so far, after `start`
/// and `len0` earlier ones, have the given tokens.
pub(crate) fn push_token_item<T: Primitive>(
    array: &mut Array,
    value: T,
    Ghost(start): Ghost<Seq<u8>>,
    Ghost(len0): Ghost<int>,
    Ghost(tokens): Ghost<Seq<(Seq<u8>, bool)>>,
)
    requires
        0 <= old(array).len < i32::MAX,
        value.spec_writable(),
        old(array).len == len0 + tokens.len(),
        old(array).buf@ == start + array_tokens_bytes(start, len0, old(array).settings.pretty, tokens),
    ensures
        final(array).buf@ == start + array_tokens_bytes(
            start,
            len0,
            old(array).settings.pretty,
            tokens.push(token(value)),
        ),
        final(array).buf.spec_limits() == value.spec_limits_after(old(array).buf.spec_limits()),
        final(array).len == old(array).len + 1,
        final(array).indirect == old(array).indirect,
        final(array).indent == old(array).indent,
        final(array).settings == old(array).settings,
        *final(final(array).buf) == *final(old(array).buf),
{
    proof {
        lemma_tokens_push(start, len0, old(array).settings.pretty, tokens, token(value));
    }
    array.item(value);
}

/// The bytes that dictionary entries add, each given by its key and the
/// token of its value, written after `before`.
pub open spec fn dict_entries_bytes(
    before: Seq<u8>,
    pretty: bool,
    indent: int,
    entries: Seq<(Seq<u8>, (Seq<u8>, bool))>,
) -> Seq<u8>
    decreases entries.len(),
{
    if entries.len() == 0 {
        Seq::empty()
    } else {
        let prev = dict_entries_bytes(before, pretty, indent, entries.drop_last());
        prev + dict_pair_enc_bytes(
            before + prev,
            pretty,
            indent,
            entries.last().0,
            entries.last().1.0,
            entries.last().1.1,
        )
    }
}

/// The dictionary entry `key` whose value is a dictionary with the given
/// entries, written after `before` into a dictionary with indentation
/// `indent`.
pub open spec fn nested_dict_entry_bytes(
    before: Seq<u8>,
    pretty: bool,
    indent: int,
    key: Seq<u8>,
    entries: Seq<(Seq<u8>, (Seq<u8>, bool))>,
) -> Seq<u8> {
    let k = dict_key_bytes(pretty, indent, key);
    let inner = nested_indent(indent as u8) as int;
    k + "<<".spec_bytes() + dict_entries_bytes(before + k + "<<".spec_bytes(), pretty, inner, entries)
        + dict_close_bytes(entries.len() as int, pretty, inner, false)
}

/// One more entry extends the bytes of the entries before it.
pub proof fn lemma_entries_push(
    before: Seq<u8>,
    pretty: bool,
    indent: int,
    entries: Seq<(Seq<u8>, (Seq<u8>, bool))>,
    e: (Seq<u8>, (Seq<u8>, bool)),
)
    ensures
        dict_entries_bytes(before, pretty, indent, entries.push(e)) == dict_entries_bytes(
            before,
            pretty,
            indent,
            entries,
        ) + dict_pair_enc_bytes(
            before + dict_entries_bytes(before, pretty, indent, entries),
            pretty,
            indent,
            e.0,
            e.1.0,
            e.1.1,
        ),
{
    assert(entries.push(e).drop_last() =~= entries);
}

/// One more item extends the bytes of the items before it.
pub proof fn lemma_tokens_push(
    before: Seq<u8>,
    len: int,
    pretty: bool,
    tokens: Seq<(Seq<u8>, bool)>,
    t: (Seq<u8>, bool),
)
    ensures
        array_tokens_bytes(before, len, pretty, tokens.push(t)) == array_tokens_bytes(
            before,
            len,
            pretty,
            tokens,
        ) + array_item_enc_bytes(
            before + array_tokens_bytes(before, len, pretty, tokens),
            len + tokens.len(),
            pretty,
            t.0,
            t.1,
        ),
{
    assert(tokens.push(t).drop_last() =~= tokens);
}

impl<'a> Array<'a> {
    /// Convert into a typed version.
    pub fn typed<T>(self) -> (r: TypedArray<'a, T>)
        ensures
            r.array == self,
    {
        TypedArray::wrap(self)
    }
}

impl<'a> Dict<'a> {
    /// Convert into a typed version.
    pub fn typed<T>(self) -> (r: TypedDict<'a, T>)
        ensures
            r.dict == self,
    {
        TypedDict::wrap(self)
    }
}

/// Writer for an array of items of a fixed type.
pub struct TypedArray<'a, T> {
    /// The array being written.
    pub array: Array<'a>,
    /// Marks the item type.
    pub phantom: core::marker::PhantomData<T>,
}

impl<'a, T> TypedArray<'a, T> {
    /// Wrap an array to make it type-safe.
    pub fn wrap(array: Array<'a>) -> (r: Self)
        ensures
            r.array == array,
    {
        Self { array, phantom: core::marker::PhantomData }
    }

    /// The number of written items.
    pub fn len(&self) -> (r: i32)
        ensures
            r == self.array.len,
    {
        self.array.len()
    }

    /// Whether no items have been written so far.
    pub fn is_empty(&self) -> (r: bool)
        ensures
            r == (self.array.len == 0),
    {
        self.len() == 0
    }

    /// Finish the array.
    pub fn finish(self)
        requires
            self.array.len >= 0,
        ensures
            final(self.array.buf)@ == old(self.array.buf)@ + array_close_bytes(
                self.array.indirect,
                self.array.settings.pretty,
            ),
            final(self.array.buf).spec_limits() == old(
                self.array.buf,
            ).spec_limits().with_array_len(self.array.len as int),
    {
        self.array.finish();
    }
}

impl<'a, T: Primitive> TypedArray<'a, T> {
    /// Write an item.
    pub fn item(&mut self, value: T) -> (r: &mut Self)
        requires
            0 <= old(self).array.len < i32::MAX,
            value.spec_writable(),
        ensures
            array_item_appended(old(self).array, r.array, value),
            *final(r.array.buf) == *final(old(self).array.buf),
            *final(self) == *final(r),
    {
        self.array.item(value);
        self
    }
}

impl<'a, T: Primitive + Copy> TypedArray<'a, T> {
    /// Write a sequence of items.
    pub fn items(&mut self, values: &[T]) -> (r: &mut Self)
        requires
            0 <= old(self).array.len,
            old(self).array.len + values@.len() <= i32::MAX,
            all_writable(values@),
        ensures
            array_appended(
                old(self).array,
                r.array,
                array_items_bytes(
                    old(self).array.buf@,
                    old(self).array.len as int,
                    old(self).array.settings.pretty,
                    values@,
                ),
                limits_after_all(old(self).array.buf.spec_limits(), values@),
                values@.len() as int,
            ),
            *final(r.array.buf) == *final(old(self).array.buf),
            *final(self) == *final(r),
    {
        self.array.items(values);
        self
    }
}

/// Writer for a dictionary mapping to a fixed type.
pub struct TypedDict<'a, T> {
    /// The dictionary being written.
    pub dict: Dict<'a>,
    /// Marks the item type.
    pub phantom: core::marker::PhantomData<T>,
}

impl<'a, T> TypedDict<'a, T> {
    /// Wrap a dictionary to make it type-safe.
    pub fn wrap(dict: Dict<'a>) -> (r: Self)
        ensures
            r.dict == dict,
    {
        Self { dict, phantom: core::marker::PhantomData }
    }

    /// The number of written pairs.
    pub fn len(&self) -> (r: i32)
        ensures
            r == self.dict.len,
    {
        self.dict.len()
    }

    /// Whether no pairs have been written so far.
    pub fn is_empty(&self) -> (r: bool)
        ensures
            r == (self.dict.len == 0),
    {
        self.len() == 0
    }

    /// Finish the dictionary.
    pub fn finish(self)
        requires
            self.dict.len >= 0,
            self.dict.indent >= 2,
        ensures
            final(self.dict.buf)@ == old(self.dict.buf)@ + dict_close_bytes(
                self.dict.len as int,
                self.dict.settings.pretty,
                self.dict.indent as int,
                self.dict.indirect,
            ),
            final(self.dict.buf).spec_limits() == old(
                self.dict.buf,
            ).spec_limits().with_dict_entries(self.dict.len as int),
    {
        self.dict.finish();
    }
}

impl<'a, T: Primitive> TypedDict<'a, T> {
    /// Write a key-value pair.
    pub fn pair(&mut self, key: Name, value: T) -> (r: &mut Self)
        requires
            0 <= old(self).dict.len < i32::MAX,
            value.spec_writable(),
        ensures
            dict_pair_appended(old(self).dict, r.dict, key.0@, value),
            *final(r.dict.buf) == *final(old(self).dict.buf),
            *final(self) == *final(r),
    {
        self.dict.pair(key, value);
        self
    }
}

impl<'a, T: Primitive + Copy> TypedDict<'a, T> {
    /// Write a sequence of key-value pairs.
    pub fn pairs(&mut self, pairs: &[(Name, T)]) -> (r: &mut Self)
        requires
            0 <= old(self).dict.len,
            old(self).dict.len + pairs@.len() <= i32::MAX,
            forall|i: int| 0 <= i < pairs@.len() ==> (#[trigger] pairs@[i]).1.spec_writable(),
        ensures
            dict_appended(
                old(self).dict,
                r.dict,
                dict_pairs_bytes(
                    old(self).dict.buf@,
                    old(self).dict.settings.pretty,
                    old(self).dict.indent as int,
                    pairs@,
                ),
                limits_after_pairs(old(self).dict.buf.spec_limits(), pairs@),
                pairs@.len() as int,
            ),
            *final(r.dict.buf) == *final(old(self).dict.buf),
            *final(self) == *final(r),
    {
        self.dict.pairs(pairs);
        self
    }
}

/// The bytes of a two-item array of primitive values that is the value of a
/// dictionary entry.
pub open spec fn pair_array_bytes<T: Primitive>(before: Seq<u8>, pretty: bool, a: T, b: T) -> Seq<u8> {
    let open = before + seq![LBRACKET];
    let first = array_item_bytes(open, 0, pretty, a);
    seq![LBRACKET] + first + array_item_bytes(open + first, 1, pretty, b) + array_close_bytes(
        false,
        pretty,
    )
}

/// Write a dictionary entry whose value is a two-item array.
fn write_pair_array<'a, T: Primitive>(dict: &mut Dict<'a>, key: Name, a: T, b: T)
    requires
        0 <= old(dict).len < i32::MAX,
        a.spec_writable(),
        b.spec_writable(),
    ensures
        *final(final(dict).buf) == *final(old(dict).buf),
        final(dict).len == old(dict).len + 1,
        final(dict).buf.spec_limits() == b.spec_limits_after(
            a.spec_limits_after(old(dict).buf.spec_limits().with_name_len(key.0@.len() as int)),
        ).with_array_len(2),
        final(dict).buf@ == old(dict).buf@ + dict_key_bytes(old(dict).settings.pretty, old(dict).indent as int, key.0@)
                + pair_array_bytes(
                old(dict).buf@ + dict_key_bytes(
                    old(dict).settings.pretty,
                    old(dict).indent as int,
                    key.0@,
                ),
                old(dict).settings.pretty,
                a,
                b,
            ),
        final(dict).indent == old(dict).indent,
        final(dict).settings == old(dict).settings,
        final(dict).indirect == old(dict).indirect,
{
    let ghost kb = dict_key_bytes(old(dict).settings.pretty, old(dict).indent as int, key.0@);
    let ghost pretty = old(dict).settings.pretty;
    let mut arr = dict.insert(key).array();
    assert(arr.buf@ == old(dict).buf@ + kb + seq![LBRACKET]);
    let ghost open = arr.buf@;
    arr.item(a);
    let ghost first = array_item_bytes(open, 0, pretty, a);
    assert(arr.buf@ == open + first);
    arr.item(b);
    assert(arr.buf@ == open + first + array_item_bytes(open + first, 1, pretty, b));
    assert(arr.len == 2);
    arr.finish();
    assert(dict.buf.spec_limits() == b.spec_limits_after(
        a.spec_limits_after(old(dict).buf.spec_limits().with_name_len(key.0@.len() as int)),
    ).with_array_len(2));
    assert(dict.buf@ =~= old(dict).buf@ + dict_key_bytes(
        old(dict).settings.pretty,
        old(dict).indent as int,
        key.0@,
    ) + pair_array_bytes(
        old(dict).buf@ + dict_key_bytes(old(dict).settings.pretty, old(dict).indent as int, key.0@),
        old(dict).settings.pretty,
        a,
        b,
    ));
}

/// Writer for a _name tree node_.
///
/// Name trees associate a large number of names with PDF objects. They are
/// lexically ordered search trees. Root nodes may directly contain all leafs,
/// however, this might degrade performance for very large numbers of
/// name-object pairs.
///
/// For each node, either the `/Kids` or `/Names` attribute must be set, but
/// never both.
pub struct NameTree<'a, T> {
    /// The node's dictionary.
    pub dict: Dict<'a>,
    /// Marks the item type.
    pub phantom: core::marker::PhantomData<T>,
}

impl<'a, T> NameTree<'a, T> {
    /// Start writing a name tree node into the given object.
    pub fn start(obj: Obj<'a>) -> (r: Self)
        ensures
            r.dict.buf@ == old(obj.buf)@ + "<<".spec_bytes(),
            r.dict.buf.spec_limits() == old(obj.buf).spec_limits(),
            *final(r.dict.buf) == *final(obj.buf),
            r.dict.indirect == obj.indirect,
            r.dict.indent >= 2,
            r.dict.indent == (if obj.indent > 253 {
                255
            } else {
                obj.indent + 2
            }),
            r.dict.settings == obj.settings,
            r.dict.len == 0,
            dict_started(r.dict, old(obj.buf)@, obj.indirect, obj.indent, obj.settings, None, None),
    {
        let r = Self { dict: obj.dict(), phantom: core::marker::PhantomData };
        assert(r.dict.buf@ =~= old(obj.buf)@ + writer_dict_start(old(obj.buf)@, obj.settings.pretty, r.dict.indent as int, None, None));
        r
    }

    /// Start writing the `/Kids` attribute with the children of this node.
    pub fn kids(&mut self) -> (r: TypedArray<'_, Ref>)
        requires
            0 <= old(self).dict.len < i32::MAX,
        ensures
            r.array.buf@ == old(self).dict.buf@ + dict_key_bytes(
                old(self).dict.settings.pretty,
                old(self).dict.indent as int,
                "Kids".spec_bytes(),
            ) + seq![LBRACKET],
            r.array.len == 0,
            r.array.indirect == false,
            r.array.settings == old(self).dict.settings,
            final(self).dict.len == old(self).dict.len + 1,
            final(self).dict.indent == old(self).dict.indent,
            final(self).dict.indirect == old(self).dict.indirect,
            final(self).dict.settings == old(self).dict.settings,
            *final(self).dict.buf == *final(r.array.buf),
            *final(final(self).dict.buf) == *final(old(self).dict.buf),
            r.array.buf.spec_limits() == old(self).dict.buf.spec_limits().with_name_len("Kids".spec_bytes().len() as int),
    {
        self.dict.insert(Name("Kids".as_bytes())).array().typed()
    }

    /// Start writing the `/Names` attribute to set the immediate name-to-object
    /// mappings of this node.
    pub fn names(&mut self) -> (r: NameTreeEntries<'_, T>)
        requires
            0 <= old(self).dict.len < i32::MAX,
        ensures
            r.arr.buf@ == old(self).dict.buf@ + dict_key_bytes(
                old(self).dict.settings.pretty,
                old(self).dict.indent as int,
                "Names".spec_bytes(),
            ) + seq![LBRACKET],
            r.arr.len == 0,
            r.arr.indirect == false,
            r.arr.settings == old(self).dict.settings,
            final(self).dict.len == old(self).dict.len + 1,
            final(self).dict.indent == old(self).dict.indent,
            final(self).dict.indirect == old(self).dict.indirect,
            final(self).dict.settings == old(self).dict.settings,
            *final(self).dict.buf == *final(r.arr.buf),
            *final(final(self).dict.buf) == *final(old(self).dict.buf),
            r.arr.buf.spec_limits() == old(self).dict.buf.spec_limits().with_name_len("Names".spec_bytes().len() as int),
    {
        NameTreeEntries::start(self.dict.insert(Name("Names".as_bytes())))
    }

    /// Write the `/Limits` array to set the range of names in this node. This
    /// is required for every node except the root node.
    pub fn limits(&mut self, min: Name, max: Name) -> (r: &mut Self)
        requires
            0 <= old(self).dict.len < i32::MAX,
        ensures
            r.dict.buf@ == old(self).dict.buf@ + dict_key_bytes(
                    old(self).dict.settings.pretty,
                    old(self).dict.indent as int,
                    "Limits".spec_bytes(),
                ) + pair_array_bytes(
                    old(self).dict.buf@ + dict_key_bytes(
                        old(self).dict.settings.pretty,
                        old(self).dict.indent as int,
                        "Limits".spec_bytes(),
                    ),
                    old(self).dict.settings.pretty,
                    min,
                    max,
                ),
            r.dict.buf.spec_limits() == max.spec_limits_after(
                    min.spec_limits_after(
                        old(self).dict.buf.spec_limits().with_name_len(
                            "Limits".spec_bytes().len() as int,
                        ),
                    ),
                ).with_array_len(2),
            r.dict.len == old(self).dict.len + 1,
            r.dict.indirect == old(self).dict.indirect,
            r.dict.indent == old(self).dict.indent,
            r.dict.settings == old(self).dict.settings,
            *final(r.dict.buf) == *final(old(self).dict.buf),
            *final(self) == *final(r),
    {
        write_pair_array(&mut self.dict, Name("Limits".as_bytes()), min, max);
        assert(self.dict.len == old(self).dict.len + 1);
        assert(self.dict.buf@ == old(self).dict.buf@ + dict_key_bytes(
                    old(self).dict.settings.pretty,
                    old(self).dict.indent as int,
                    "Limits".spec_bytes(),
                ) + pair_array_bytes(
                    old(self).dict.buf@ + dict_key_bytes(
                        old(self).dict.settings.pretty,
                        old(self).dict.indent as int,
                        "Limits".spec_bytes(),
                    ),
                    old(self).dict.settings.pretty,
                    min,
                    max,
                ));
        assert(self.dict.buf.spec_limits() == max.spec_limits_after(
                    min.spec_limits_after(
                        old(self).dict.buf.spec_limits().with_name_len(
                            "Limits".spec_bytes().len() as int,
                        ),
                    ),
                ).with_array_len(2));
        self
    }

    /// Finish the node.
    pub fn finish(self)
        requires
            self.dict.len >= 0,
            self.dict.indent >= 2,
        ensures
            final(self.dict.buf)@ == old(self.dict.buf)@ + dict_close_bytes(
                self.dict.len as int,
                self.dict.settings.pretty,
                self.dict.indent as int,
                self.dict.indirect,
            ),
            final(self.dict.buf).spec_limits() == old(
                self.dict.buf,
            ).spec_limits().with_dict_entries(self.dict.len as int),
    {
        self.dict.finish();
    }
}

/// Writer for a _name tree names_ array.
///
/// The children must be added in ascending lexical order. Their minimum and
/// maximum keys must not exceed the `/Limits` property of the parent [`NameTree`]
/// node. This struct is created by [`NameTree::names`].
pub struct NameTreeEntries<'a, T> {
    /// The array being written.
    pub arr: Array<'a>,
    /// Marks the item type.
    pub phantom: core::marker::PhantomData<T>,
}

impl<'a, T> NameTreeEntries<'a, T> {
    /// Start writing name tree entries into the given object.
    pub fn start(obj: Obj<'a>) -> (r: Self)
        ensures
            r.arr.buf@ == old(obj.buf)@.push(LBRACKET),
            r.arr.buf.spec_limits() == old(obj.buf).spec_limits(),
            *final(r.arr.buf) == *final(obj.buf),
            r.arr.indirect == obj.indirect,
            r.arr.indent == obj.indent,
            r.arr.settings == obj.settings,
            r.arr.len == 0,
    {
        Self { arr: obj.array(), phantom: core::marker::PhantomData }
    }

    /// Finish the array.
    pub fn finish(self)
        requires
            self.arr.len >= 0,
        ensures
            final(self.arr.buf)@ == old(self.arr.buf)@ + array_close_bytes(
                self.arr.indirect,
                self.arr.settings.pretty,
            ),
            final(self.arr.buf).spec_limits() == old(self.arr.buf).spec_limits().with_array_len(
                self.arr.len as int,
            ),
    {
        self.arr.finish();
    }
}

impl<'a, T: Primitive> NameTreeEntries<'a, T> {
    /// Insert a name-value pair.
    pub fn insert(&mut self, key: Str, value: T) -> (r: &mut Self)
        requires
            0 <= old(self).arr.len < i32::MAX - 1,
            value.spec_writable(),
        ensures
            exists|mid: Array|
                array_item_appended(old(self).arr, mid, key) && array_item_appended(
                    mid,
                    r.arr,
                    value,
                ),
            *final(r.arr.buf) == *final(old(self).arr.buf),
            *final(self) == *final(r),
    {
        self.arr.item(key);
        let ghost mid = self.arr;
        self.arr.item(value);
        assert(array_item_appended(old(self).arr, mid, key));
        self
    }
}

/// Writer for a _number tree node_.
///
/// Number trees associate a many integers with PDF objects. They are search
/// trees in ascending order. Root nodes may directly contain all leafs,
/// however, this might degrade performance for very large numbers of
/// integer-object pairs.
///
/// For each node, either the `/Kids` or `/Nums` attribute must be set, but
/// never both.
pub struct NumberTree<'a, T> {
    /// The node's dictionary.
    pub dict: Dict<'a>,
    /// Marks the item type.
    pub phantom: core::marker::PhantomData<T>,
}

impl<'a, T> NumberTree<'a, T> {
    /// Start writing a number tree node into the given object.
    pub fn start(obj: Obj<'a>) -> (r: Self)
        ensures
            r.dict.buf@ == old(obj.buf)@ + "<<".spec_bytes(),
            r.dict.buf.spec_limits() == old(obj.buf).spec_limits(),
            *final(r.dict.buf) == *final(obj.buf),
            r.dict.indirect == obj.indirect,
            r.dict.indent >= 2,
            r.dict.indent == (if obj.indent > 253 {
                255
            } else {
                obj.indent + 2
            }),
            r.dict.settings == obj.settings,
            r.dict.len == 0,
            dict_started(r.dict, old(obj.buf)@, obj.indirect, obj.indent, obj.settings, None, None),
    {
        let r = Self { dict: obj.dict(), phantom: core::marker::PhantomData };
        assert(r.dict.buf@ =~= old(obj.buf)@ + writer_dict_start(old(obj.buf)@, obj.settings.pretty, r.dict.indent as int, None, None));
        r
    }

    /// Start writing the `/Kids` attribute with the children of this node.
    pub fn kids(&mut self) -> (r: TypedArray<'_, Ref>)
        requires
            0 <= old(self).dict.len < i32::MAX,
        ensures
            r.array.buf@ == old(self).dict.buf@ + dict_key_bytes(
                old(self).dict.settings.pretty,
                old(self).dict.indent as int,
                "Kids".spec_bytes(),
            ) + seq![LBRACKET],
            r.array.len == 0,
            r.array.indirect == false,
            r.array.settings == old(self).dict.settings,
            final(self).dict.len == old(self).dict.len + 1,
            final(self).dict.indent == old(self).dict.indent,
            final(self).dict.indirect == old(self).dict.indirect,
            final(self).dict.settings == old(self).dict.settings,
            *final(self).dict.buf == *final(r.array.buf),
            *final(final(self).dict.buf) == *final(old(self).dict.buf),
            r.array.buf.spec_limits() == old(self).dict.buf.spec_limits().with_name_len("Kids".spec_bytes().len() as int),
    {
        self.dict.insert(Name("Kids".as_bytes())).array().typed()
    }

    /// Start writing the `/Nums` attribute to set the immediate
    /// number-to-object mappings of this node.
    pub fn nums(&mut self) -> (r: NumberTreeEntries<'_, T>)
        requires
            0 <= old(self).dict.len < i32::MAX,
        ensures
            r.arr.buf@ == old(self).dict.buf@ + dict_key_bytes(
                old(self).dict.settings.pretty,
                old(self).dict.indent as int,
                "Nums".spec_bytes(),
            ) + seq![LBRACKET],
            r.arr.len == 0,
            r.arr.indirect == false,
            r.arr.settings == old(self).dict.settings,
            final(self).dict.len == old(self).dict.len + 1,
            final(self).dict.indent == old(self).dict.indent,
            final(self).dict.indirect == old(self).dict.indirect,
            final(self).dict.settings == old(self).dict.settings,
            *final(self).dict.buf == *final(r.arr.buf),
            *final(final(self).dict.buf) == *final(old(self).dict.buf),
            r.arr.buf.spec_limits() == old(self).dict.buf.spec_limits().with_name_len("Nums".spec_bytes().len() as int),
    {
        NumberTreeEntries::start(self.dict.insert(Name("Nums".as_bytes())))
    }

    /// Write the `/Limits` array to set the range of numbers in this node. This
    /// is required for every node except the root node.
    pub fn limits(&mut self, min: i32, max: i32) -> (r: &mut Self)
        requires
            0 <= old(self).dict.len < i32::MAX,
            min != i32::MIN,
            max != i32::MIN,
        ensures
            r.dict.buf@ == old(self).dict.buf@ + dict_key_bytes(
                    old(self).dict.settings.pretty,
                    old(self).dict.indent as int,
                    "Limits".spec_bytes(),
                ) + pair_array_bytes(
                    old(self).dict.buf@ + dict_key_bytes(
                        old(self).dict.settings.pretty,
                        old(self).dict.indent as int,
                        "Limits".spec_bytes(),
                    ),
                    old(self).dict.settings.pretty,
                    min,
                    max,
                ),
            r.dict.buf.spec_limits() == max.spec_limits_after(
                    min.spec_limits_after(
                        old(self).dict.buf.spec_limits().with_name_len(
                            "Limits".spec_bytes().len() as int,
                        ),
                    ),
                ).with_array_len(2),
            r.dict.len == old(self).dict.len + 1,
            r.dict.indirect == old(self).dict.indirect,
            r.dict.indent == old(self).dict.indent,
            r.dict.settings == old(self).dict.settings,
            *final(r.dict.buf) == *final(old(self).dict.buf),
            *final(self) == *final(r),
    {
        write_pair_array(&mut self.dict, Name("Limits".as_bytes()), min, max);
        self
    }

    /// Finish the node.
    pub fn finish(self)
        requires
            self.dict.len >= 0,
            self.dict.indent >= 2,
        ensures
            final(self.dict.buf)@ == old(self.dict.buf)@ + dict_close_bytes(
                self.dict.len as int,
                self.dict.settings.pretty,
                self.dict.indent as int,
                self.dict.indirect,
            ),
            final(self.dict.buf).spec_limits() == old(
                self.dict.buf,
            ).spec_limits().with_dict_entries(self.dict.len as int),
    {
        self.dict.finish();
    }
}

/// Writer for a _number tree numbers_ array.
///
/// The children must be added in ascending order. Their minimum and
/// maximum keys must not exceed the `/Limits` property of the parent [`NumberTree`]
/// node. This struct is created by [`NumberTree::nums`].
pub struct NumberTreeEntries<'a, T> {
    /// The array being written.
    pub arr: Array<'a>,
    /// Marks the item type.
    pub phantom: core::marker::PhantomData<T>,
}

impl<'a, T> NumberTreeEntries<'a, T> {
    /// Start writing number tree entries into the given object.
    pub fn start(obj: Obj<'a>) -> (r: Self)
        ensures
            r.arr.buf@ == old(obj.buf)@.push(LBRACKET),
            r.arr.buf.spec_limits() == old(obj.buf).spec_limits(),
            *final(r.arr.buf) == *final(obj.buf),
            r.arr.indirect == obj.indirect,
            r.arr.indent == obj.indent,
            r.arr.settings == obj.settings,
            r.arr.len == 0,
    {
        Self { arr: obj.array(), phantom: core::marker::PhantomData }
    }

    /// Finish the array.
    pub fn finish(self)
        requires
            self.arr.len >= 0,
        ensures
            final(self.arr.buf)@ == old(self.arr.buf)@ + array_close_bytes(
                self.arr.indirect,
                self.arr.settings.pretty,
            ),
            final(self.arr.buf).spec_limits() == old(self.arr.buf).spec_limits().with_array_len(
                self.arr.len as int,
            ),
    {
        self.arr.finish();
    }
}

impl<'a, T: Primitive> NumberTreeEntries<'a, T> {
    /// Insert a number-value pair.
    pub fn insert(&mut self, key: i32, value: T) -> (r: &mut Self)
        requires
            0 <= old(self).arr.len < i32::MAX - 1,
            key != i32::MIN,
            value.spec_writable(),
        ensures
            exists|mid: Array|
                array_item_appended(old(self).arr, mid, key) && array_item_appended(
                    mid,
                    r.arr,
                    value,
                ),
            *final(r.arr.buf) == *final(old(self).arr.buf),
            *final(self) == *final(r),
    {
        self.arr.item(key);
        let ghost mid = self.arr;
        self.arr.item(value);
        assert(array_item_appended(old(self).arr, mid, key));
        self
    }
}

/// Finish objects in postfix-style.
///
/// Writers in this library close their objects in their own `finish`
/// methods, which take precedence over this trait's method. For any other
/// value, `finish` does nothing but move `self`, which is equivalent to
/// [`drop`].
pub trait Finish: Sized {
    /// Does nothing but move `self`, equivalent to [`drop`].
    fn finish(self) {
    }
}

impl<T> Finish for T {

}


// ---------------------------------------------------------------------------
// Reading strings and names back.
// ---------------------------------------------------------------------------

/// Whether a byte is an octal digit.
pub open spec fn is_octal_digit(b: u8) -> bool {
    48 <= b <= 55
}

/// Whether a byte is a hexadecimal digit (either case).
pub open spec fn is_hex_digit(b: u8) -> bool {
    (48 <= b <= 57) || (65 <= b <= 70) || (97 <= b <= 102)
}

/// The value of a hexadecimal digit.
pub open spec fn hex_value(b: u8) -> int {
    if 48 <= b <= 57 {
        b - 48
    } else if 65 <= b <= 70 {
        b - 55
    } else if 97 <= b <= 102 {
        b - 87
    } else {
        0
    }
}

/// The bytes that a reader gets from the inside of a literal string (between
/// its outer parentheses), by the rules of PDF: `\n`, `\r`, `\t`, `\b` and
/// `\f` stand for line feed, carriage return, tab, backspace and form feed;
/// a backslash and one to three octal digits stand for the byte with that
/// value; a backslash before an end of line continues the line; a
/// backslash before any other byte stands for that byte; an end of line
/// (carriage return, line feed, or both) that is not escaped reads as a
/// line feed.
pub open spec fn literal_string_decode(t: Seq<u8>) -> Seq<u8>
    decreases t.len(),
{
    if t.len() == 0 {
        Seq::empty()
    } else if t[0] == 92 {
        if t.len() == 1 {
            Seq::empty()
        } else {
            let c = t[1];
            if c == 110 {
                seq![10u8] + literal_string_decode(t.skip(2))
            } else if c == 114 {
                seq![13u8] + literal_string_decode(t.skip(2))
            } else if c == 116 {
                seq![9u8] + literal_string_decode(t.skip(2))
            } else if c == 98 {
                seq![8u8] + literal_string_decode(t.skip(2))
            } else if c == 102 {
                seq![12u8] + literal_string_decode(t.skip(2))
            } else if is_octal_digit(c) {
                if t.len() >= 3 && is_octal_digit(t[2]) {
                    if t.len() >= 4 && is_octal_digit(t[3]) {
                        seq![(((c - 48) * 64 + (t[2] - 48) * 8 + (t[3] - 48)) % 256) as u8]
                            + literal_string_decode(t.skip(4))
                    } else {
                        seq![((c - 48) * 8 + (t[2] - 48)) as u8] + literal_string_decode(t.skip(3))
                    }
                } else {
                    seq![(c - 48) as u8] + literal_string_decode(t.skip(2))
                }
            } else if c == 13 {
                if t.len() >= 3 && t[2] == 10 {
                    literal_string_decode(t.skip(3))
                } else {
                    literal_string_decode(t.skip(2))
                }
            } else if c == 10 {
                literal_string_decode(t.skip(2))
            } else {
                seq![c] + literal_string_decode(t.skip(2))
            }
        }
    } else if t[0] == 13 {
        if t.len() >= 2 && t[1] == 10 {
            seq![10u8] + literal_string_decode(t.skip(2))
        } else {
            seq![10u8] + literal_string_decode(t.skip(1))
        }
    } else {
        seq![t[0]] + literal_string_decode(t.skip(1))
    }
}

/// Whether a byte is white space in PDF.
pub open spec fn is_white_space(b: u8) -> bool {
    b == 0 || b == 9 || b == 10 || b == 12 || b == 13 || b == 32
}

/// The bytes that a reader gets from the inside of a hexadecimal string
/// (between its angle brackets): white space is skipped, each pair of digits
/// is one byte, and a last lone digit is read as if a zero followed it.
pub open spec fn hex_string_decode(t: Seq<u8>) -> Seq<u8>
    decreases t.len(),
{
    if t.len() == 0 {
        Seq::empty()
    } else if is_white_space(t[0]) {
        hex_string_decode(t.skip(1))
    } else if t.len() == 1 {
        seq![(hex_value(t[0]) * 16) as u8]
    } else {
        seq![(hex_value(t[0]) * 16 + hex_value(t[1])) as u8] + hex_string_decode(t.skip(2))
    }
}

/// Whether a byte can stand in a name token: a visible ASCII character that
/// is none of the delimiters `( ) < > [ ] { } / %`.
pub open spec fn is_name_token_byte(b: u8) -> bool {
    &&& 33 <= b <= 126
    &&& b != 40 && b != 41 && b != 60 && b != 62 && b != 91 && b != 93
    &&& b != 123 && b != 125 && b != 47 && b != 37
}

/// The bytes that a reader gets from a name after its slash: `#` and two
/// hexadecimal digits stand for the byte with that value, any other byte
/// stands for itself.
pub open spec fn name_decode(t: Seq<u8>) -> Seq<u8>
    decreases t.len(),
{
    if t.len() == 0 {
        Seq::empty()
    } else if t.len() >= 3 && t[0] == 35 && is_hex_digit(t[1]) && is_hex_digit(t[2]) {
        seq![(hex_value(t[1]) * 16 + hex_value(t[2])) as u8] + name_decode(t.skip(3))
    } else {
        seq![t[0]] + name_decode(t.skip(1))
    }
}

/// A mapped sequence starts with the image of its first element.
proof fn lemma_flat_map_first<T>(s: Seq<T>, f: spec_fn(T) -> Seq<u8>)
    requires
        s.len() > 0,
    ensures
        flat_map(s, f) == f(s[0]) + flat_map(s.drop_first(), f),
{
    lemma_flat_map_append(seq![s[0]], s.drop_first(), f);
    assert(seq![s[0]] + s.drop_first() =~= s);
    let one = seq![s[0]];
    assert(one.drop_last() =~= Seq::<T>::empty());
    assert(flat_map(one.drop_last(), f) == Seq::<u8>::empty());
    assert(one.last() == s[0]);
    assert(flat_map(one, f) == flat_map(one.drop_last(), f) + f(one.last()));
    assert(flat_map(one, f) =~= f(s[0]));
}

/// The two hexadecimal digits of a byte read back as the byte.
proof fn lemma_hex_byte_value(b: u8)
    ensures
        is_hex_digit(hex_byte(b)[0]),
        is_hex_digit(hex_byte(b)[1]),
        !is_white_space(hex_byte(b)[0]),
        !is_white_space(hex_byte(b)[1]),
        hex_value(hex_byte(b)[0]) * 16 + hex_value(hex_byte(b)[1]) == b,
        hex_byte(b).len() == 2,
{
    let hi = b as int / 16;
    let lo = b as int % 16;
    assert(0 <= hi < 16 && 0 <= lo < 16);
    assert(hi * 16 + lo == b);
}

/// Reading the two hexadecimal digits of a byte, then the rest.
pub(crate) proof fn lemma_hex_pair_decode(b: u8, t: Seq<u8>)
    ensures
        hex_string_decode(hex_byte(b) + t) == seq![b] + hex_string_decode(t),
{
    lemma_hex_byte_value(b);
    assert((hex_byte(b) + t).skip(2) =~= t);
}

/// Reading one written byte of a literal string, then the rest.
proof fn lemma_literal_byte_decode(b: u8, escape_parens: bool, t: Seq<u8>)
    requires
        b < 128,
    ensures
        literal_string_decode(literal_str_byte(b, escape_parens) + t) == seq![b] + literal_string_decode(t),
{
    let w = literal_str_byte(b, escape_parens) + t;
    if w[0] == 92 && literal_str_byte(b, escape_parens).len() == 2 {
        assert(w.skip(2) =~= t);
    } else if literal_str_byte(b, escape_parens).len() == 1 {
        assert(w.skip(1) =~= t);
    } else {
        let d1 = b as int / 64;
        let d2 = (b as int / 8) % 8;
        let d3 = b as int % 8;
        assert(d1 * 64 + d2 * 8 + d3 == b);
        assert(w[1] == digit_byte(d1) && w[2] == digit_byte(d2) && w[3] == digit_byte(d3));
        assert(w.skip(4) =~= t);
    }
}

/// Reading a written ASCII string back.
proof fn lemma_literal_decode_all(s: Seq<u8>, escape_parens: bool)
    requires
        all_ascii(s),
    ensures
        literal_string_decode(flat_map(s, |b: u8| literal_str_byte(b, escape_parens))) == s,
    decreases s.len(),
{
    let f = |b: u8| literal_str_byte(b, escape_parens);
    if s.len() > 0 {
        lemma_flat_map_first(s, f);
        lemma_literal_decode_all(s.drop_first(), escape_parens);
        lemma_literal_byte_decode(s[0], escape_parens, flat_map(s.drop_first(), f));
        assert(seq![s[0]] + s.drop_first() =~= s);
    }
}

/// Reading written hexadecimal digits back.
proof fn lemma_hex_decode_all(s: Seq<u8>)
    ensures
        hex_string_decode(flat_map(s, |b: u8| hex_byte(b))) == s,
    decreases s.len(),
{
    let f = |b: u8| hex_byte(b);
    if s.len() > 0 {
        lemma_flat_map_first(s, f);
        lemma_hex_decode_all(s.drop_first());
        lemma_hex_byte_value(s[0]);
        let w = hex_byte(s[0]) + flat_map(s.drop_first(), f);
        assert(w.skip(2) =~= flat_map(s.drop_first(), f));
        assert(seq![s[0]] + s.drop_first() =~= s);
    }
}

/// A string is written so that a reader gets back exactly its bytes: an
/// ASCII string as a literal string in parentheses whose escapes decode to
/// the bytes, any other string as hexadecimal digits in angle brackets.
pub proof fn lemma_str_round_trip(s: Seq<u8>)
    ensures
        str_encoding(s).len() >= 2,
        all_ascii(s) ==> str_encoding(s)[0] == 40 && str_encoding(s).last() == 41
            && literal_string_decode(str_encoding(s).subrange(1, str_encoding(s).len() - 1)) == s,
        !all_ascii(s) ==> str_encoding(s)[0] == 60 && str_encoding(s).last() == 62
            && hex_string_decode(str_encoding(s).subrange(1, str_encoding(s).len() - 1)) == s,
{
    let e = str_encoding(s);
    if all_ascii(s) {
        let inner = flat_map(s, |b: u8| literal_str_byte(b, !parens_balanced(s)));
        assert(e.subrange(1, e.len() - 1) =~= inner);
        lemma_literal_decode_all(s, !parens_balanced(s));
    } else {
        let inner = flat_map(s, |b: u8| hex_byte(b));
        assert(e.subrange(1, e.len() - 1) =~= inner);
        lemma_hex_decode_all(s);
    }
}

/// Reading one written byte of a name, then the rest.
proof fn lemma_name_byte_decode(b: u8, t: Seq<u8>)
    ensures
        name_decode(name_byte(b) + t) == seq![b] + name_decode(t),
        forall|j: int| 0 <= j < name_byte(b).len() ==> is_name_token_byte(#[trigger] name_byte(b)[j]),
{
    let w = name_byte(b) + t;
    if name_byte(b).len() == 1 {
        assert(w.skip(1) =~= t);
    } else {
        lemma_hex_byte_value(b);
        assert(w.skip(3) =~= t);
    }
}

/// The escaped bytes of a name, after its slash.
spec fn name_body(s: Seq<u8>) -> Seq<u8> {
    flat_map(s, |b: u8| name_byte(b))
}

/// Reading written name bytes back, and what bytes they are.
proof fn lemma_name_decode_all(s: Seq<u8>)
    ensures
        name_decode(name_body(s)) == s,
        forall|i: int| 0 <= i < name_body(s).len() ==> is_name_token_byte(#[trigger] name_body(s)[i]),
    decreases s.len(),
{
    let f = |b: u8| name_byte(b);
    if s.len() > 0 {
        lemma_flat_map_first(s, f);
        lemma_name_decode_all(s.drop_first());
        lemma_name_byte_decode(s[0], flat_map(s.drop_first(), f));
        assert(seq![s[0]] + s.drop_first() =~= s);
        let a = name_byte(s[0]);
        let r = flat_map(s.drop_first(), f);
        assert forall|i: int| 0 <= i < (a + r).len() implies is_name_token_byte(#[trigger] (a + r)[i]) by {
            if i < a.len() {
                assert((a + r)[i] == a[i]);
            } else {
                assert((a + r)[i] == r[i - a.len()]);
            }
        }
    }
}

/// A name is written as a slash and then bytes that can all stand in a name
/// token, so the name ends exactly where its text ends, and reading its
/// `#` escapes gives back exactly the name's bytes.
pub proof fn lemma_name_round_trip(s: Seq<u8>)
    ensures
        name_encoding(s).len() >= 1,
        name_encoding(s)[0] == 47,
        forall|i: int| 1 <= i < name_encoding(s).len() ==> is_name_token_byte(#[trigger] name_encoding(s)[i]),
        name_decode(name_encoding(s).skip(1)) == s,
{
    let e = name_encoding(s);
    lemma_name_decode_all(s);
    assert(e.skip(1) =~= name_body(s));
    assert forall|i: int| 1 <= i < e.len() implies is_name_token_byte(#[trigger] e[i]) by {
        assert(e[i] == name_body(s)[i - 1]);
    }
}


/// The names under which the values of [`Filter`] are written, as PDF
/// defines them.
pub proof fn lemma_filter_names()
    ensures
        Filter::AsciiHexDecode.spec_name() == "ASCIIHexDecode".spec_bytes(),
        Filter::Ascii85Decode.spec_name() == "ASCII85Decode".spec_bytes(),
        Filter::LzwDecode.spec_name() == "LZWDecode".spec_bytes(),
        Filter::FlateDecode.spec_name() == "FlateDecode".spec_bytes(),
        Filter::RunLengthDecode.spec_name() == "RunLengthDecode".spec_bytes(),
        Filter::CcittFaxDecode.spec_name() == "CCITTFaxDecode".spec_bytes(),
        Filter::Jbig2Decode.spec_name() == "JBIG2Decode".spec_bytes(),
        Filter::DctDecode.spec_name() == "DCTDecode".spec_bytes(),
        Filter::JpxDecode.spec_name() == "JPXDecode".spec_bytes(),
        Filter::Crypt.spec_name() == "Crypt".spec_bytes(),
{
}


/// The code points that a reader gets from UTF-16BE bytes: each pair of
/// bytes is a code unit, and a high surrogate followed by a low surrogate
/// stands for one code point beyond the basic plane.
pub open spec fn utf16be_decode(b: Seq<u8>) -> Seq<int>
    decreases b.len(),
{
    if b.len() < 2 {
        Seq::empty()
    } else {
        let u = b[0] * 256 + b[1];
        if 0xD800 <= u < 0xDC00 && b.len() >= 4 && 0xDC00 <= b[2] * 256 + b[3] < 0xE000 {
            seq![0x10000 + (u - 0xD800) * 1024 + (b[2] * 256 + b[3] - 0xDC00)] + utf16be_decode(b.skip(4))
        } else {
            seq![u] + utf16be_decode(b.skip(2))
        }
    }
}

/// The code points of a character sequence.
pub open spec fn code_points(s: Seq<char>) -> Seq<int> {
    s.map_values(|c: char| c as int)
}

/// The bytes of the UTF-16 code units of a code point, big-endian.
spec fn utf16_unit_bytes(c: char) -> Seq<u8> {
    let v = c as int;
    if v < 0x10000 {
        seq![(v / 256) as u8, (v % 256) as u8]
    } else {
        let hi = 0xD800 + (v - 0x10000) / 1024;
        let lo = 0xDC00 + (v - 0x10000) % 1024;
        seq![(hi / 256) as u8, (hi % 256) as u8, (lo / 256) as u8, (lo % 256) as u8]
    }
}

/// Reading the hexadecimal digits of one character's code units, then the
/// rest.
proof fn lemma_utf16_hex_decode(c: char, t: Seq<u8>)
    ensures
        hex_string_decode(utf16_hex(c) + t) == utf16_unit_bytes(c) + hex_string_decode(t),
{
    let v = c as int;
    if v < 0x10000 {
        let x = (v / 256) as u8;
        let y = (v % 256) as u8;
        assert(utf16_hex(c) + t =~= hex_byte(x) + (hex_byte(y) + t));
        lemma_hex_pair_decode(x, hex_byte(y) + t);
        lemma_hex_pair_decode(y, t);
        assert(utf16_unit_bytes(c) + hex_string_decode(t) =~= seq![x] + (seq![y] + hex_string_decode(t)));
    } else {
        let hi = (0xD800 + (v - 0x10000) / 1024) as u16;
        let lo = (0xDC00 + (v - 0x10000) % 1024) as u16;
        let x1 = (hi as int / 256) as u8;
        let x2 = (hi as int % 256) as u8;
        let y1 = (lo as int / 256) as u8;
        let y2 = (lo as int % 256) as u8;
        assert(utf16_hex(c) + t =~= hex_byte(x1) + (hex_byte(x2) + (hex_byte(y1) + (hex_byte(y2) + t))));
        lemma_hex_pair_decode(y2, t);
        lemma_hex_pair_decode(y1, hex_byte(y2) + t);
        lemma_hex_pair_decode(x2, hex_byte(y1) + (hex_byte(y2) + t));
        lemma_hex_pair_decode(x1, hex_byte(x2) + (hex_byte(y1) + (hex_byte(y2) + t)));
        assert(utf16_unit_bytes(c) + hex_string_decode(t) =~= seq![x1] + (seq![x2] + (seq![y1] + (seq![y2]
            + hex_string_decode(t)))));
    }
}

/// Reading one character's code units, then the rest.
proof fn lemma_utf16_units_decode(c: char, t: Seq<u8>)
    ensures
        utf16be_decode(utf16_unit_bytes(c) + t) == seq![c as int] + utf16be_decode(t),
{
    let v = c as int;
    let w = utf16_unit_bytes(c) + t;
    if v < 0x10000 {
        assert(v < 0xD800 || v >= 0xE000);
        assert(w.skip(2) =~= t);
        assert(w[0] * 256 + w[1] == v);
    } else {
        let hi = 0xD800 + (v - 0x10000) / 1024;
        let lo = 0xDC00 + (v - 0x10000) % 1024;
        assert(v <= 0x10FFFF);
        assert(w[0] * 256 + w[1] == hi);
        assert(w[2] * 256 + w[3] == lo);
        assert(0x10000 + (hi - 0xD800) * 1024 + (lo - 0xDC00) == v);
        assert(w.skip(4) =~= t);
    }
}

/// The code units of written characters read back as the characters.
pub(crate) proof fn lemma_utf16_decode_all(s: Seq<char>)
    ensures
        utf16be_decode(hex_string_decode(flat_map(s, |c: char| utf16_hex(c)))) == code_points(s),
    decreases s.len(),
{
    let f = |c: char| utf16_hex(c);
    if s.len() > 0 {
        lemma_flat_map_first(s, f);
        lemma_utf16_decode_all(s.drop_first());
        lemma_utf16_hex_decode(s[0], flat_map(s.drop_first(), f));
        lemma_utf16_units_decode(s[0], hex_string_decode(flat_map(s.drop_first(), f)));
        assert(code_points(s) =~= seq![s[0] as int] + code_points(s.drop_first()));
    } else {
        assert(code_points(s) =~= Seq::<int>::empty());
    }
}

/// A text string is written so that a reader gets back exactly its text:
/// printable ASCII text as a string whose bytes read back as the text's
/// bytes, any other text as hexadecimal UTF-16BE with a byte order mark,
/// whose code units read back as the text's characters.
pub proof fn lemma_text_str_round_trip(s: &str)
    ensures
        printable_ascii(s.spec_bytes()) ==> text_str_encoding(s) == str_encoding(s.spec_bytes()),
        !printable_ascii(s.spec_bytes()) ==> {
            let e = text_str_encoding(s);
            let bytes = hex_string_decode(e.subrange(1, e.len() - 1));
            &&& e.len() >= 2
            &&& e[0] == 60 && e.last() == 62
            &&& bytes.take(2) == seq![254u8, 255u8]
            &&& utf16be_decode(bytes.skip(2)) == code_points(s@)
        },
{
    if !printable_ascii(s.spec_bytes()) {
        let e = text_str_encoding(s);
        let body = flat_map(s@, |c: char| utf16_hex(c));
        lemma_hex_byte_value(254);
        lemma_hex_byte_value(255);
        let hb = hex_byte(254) + hex_byte(255);
        assert(e.subrange(1, e.len() - 1) =~= hb + body);
        assert((hb + body).skip(2) =~= hex_byte(255) + body);
        assert((hex_byte(255) + body).skip(2) =~= body);
        lemma_utf16_decode_all(s@);
        let bytes = hex_string_decode(hb + body);
        assert(hb + body =~= hex_byte(254) + (hex_byte(255) + body));
        lemma_hex_pair_decode(255, body);
        lemma_hex_pair_decode(254, hex_byte(255) + body);
        assert(bytes =~= seq![254u8, 255u8] + hex_string_decode(body));
        assert(bytes.take(2) =~= seq![254u8, 255u8]);
        assert(bytes.skip(2) =~= hex_string_decode(body));
    }
}


/// The numbers under which the predictors are written, as ISO 32000-2:2020,
/// Table E, defines them.
pub proof fn lemma_predictor_numbers()
    ensures
        Predictor::NoPrediction.spec_to_i32() == 1,
        Predictor::Tiff.spec_to_i32() == 2,
        Predictor::PngNone.spec_to_i32() == 10,
        Predictor::PngSub.spec_to_i32() == 11,
        Predictor::PngUp.spec_to_i32() == 12,
        Predictor::PngAverage.spec_to_i32() == 13,
        Predictor::PngPaeth.spec_to_i32() == 14,
        Predictor::PngOptimum.spec_to_i32() == 15,
{
}

} // verus!
