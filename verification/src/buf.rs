use vstd::prelude::*;

verus! {

// ---------------------------------------------------------------------------
// Byte-level encodings shared by all writers.
// ---------------------------------------------------------------------------

/// The ASCII digit for a value in `0..10`.
pub open spec fn digit_byte(d: int) -> u8 {
    (48 + d) as u8
}

/// Decimal digits of a natural number, most significant first, without
/// leading zeros (`0` is written as a single `0`).
pub open spec fn decimal_digits(n: nat) -> Seq<u8>
    decreases n,
{
    if n < 10 {
        seq![digit_byte(n as int)]
    } else {
        decimal_digits(n / 10).push(digit_byte((n % 10) as int))
    }
}

/// Canonical decimal text of an integer: an optional minus sign followed by
/// the digits of its absolute value.
pub open spec fn decimal(v: int) -> Seq<u8> {
    if v < 0 {
        seq![45u8] + decimal_digits((-v) as nat)
    } else {
        decimal_digits(v as nat)
    }
}

/// `n` copies of the byte `b`.
pub open spec fn repeat_byte(b: u8, n: nat) -> Seq<u8> {
    Seq::new(n, |_i: int| b)
}

/// Decimal digits of `n`, left-padded with zeros to at least `width` bytes.
pub open spec fn padded_decimal(n: nat, width: nat) -> Seq<u8> {
    let d = decimal_digits(n);
    if d.len() < width {
        repeat_byte(48u8, (width - d.len()) as nat) + d
    } else {
        d
    }
}

/// The upper-case hexadecimal digit for a value in `0..16`.
pub open spec fn hex_digit(d: int) -> u8 {
    if d < 10 {
        (48 + d) as u8
    } else {
        (65 + (d - 10)) as u8
    }
}

/// Two upper-case hexadecimal digits of a byte.
pub open spec fn hex_byte(b: u8) -> Seq<u8> {
    seq![hex_digit(b as int / 16), hex_digit(b as int % 16)]
}

/// Four upper-case hexadecimal digits of a 16-bit value, big-endian.
pub open spec fn hex_u16(v: u16) -> Seq<u8> {
    hex_byte((v as int / 256) as u8) + hex_byte((v as int % 256) as u8)
}

/// Three octal digits of a byte.
pub open spec fn octal_byte(b: u8) -> Seq<u8> {
    seq![digit_byte(b as int / 64), digit_byte((b as int / 8) % 8), digit_byte(b as int % 8)]
}

/// Concatenation of `f` applied to every element of `s`, in order.
pub open spec fn flat_map<T>(s: Seq<T>, f: spec_fn(T) -> Seq<u8>) -> Seq<u8>
    decreases s.len(),
{
    if s.len() == 0 {
        Seq::empty()
    } else {
        flat_map(s.drop_last(), f) + f(s.last())
    }
}

/// Extending the input by one element extends the output by that element's
/// image.
pub proof fn lemma_flat_map_step<T>(s: Seq<T>, i: int, f: spec_fn(T) -> Seq<u8>)
    requires
        0 <= i < s.len(),
    ensures
        flat_map(s.take(i + 1), f) == flat_map(s.take(i), f) + f(s[i]),
{
    assert(s.take(i + 1).drop_last() =~= s.take(i));
}

/// Mapping a concatenation is the concatenation of the mapped parts.
pub proof fn lemma_flat_map_append<T>(a: Seq<T>, b: Seq<T>, f: spec_fn(T) -> Seq<u8>)
    ensures
        flat_map(a + b, f) == flat_map(a, f) + flat_map(b, f),
    decreases b.len(),
{
    if b.len() == 0 {
        assert(a + b =~= a);
        assert(flat_map(a, f) + flat_map(b, f) =~= flat_map(a, f));
    } else {
        lemma_flat_map_append(a, b.drop_last(), f);
        assert((a + b).drop_last() =~= a + b.drop_last());
    }
}

/// The whole sequence is its own full prefix.
pub proof fn lemma_take_full<T>(s: Seq<T>)
    ensures
        s.take(s.len() as int) == s,
{
    assert(s.take(s.len() as int) =~= s);
}

/// Absolute value of an integer.
pub open spec fn abs(v: int) -> int {
    if v < 0 {
        -v
    } else {
        v
    }
}

/// The larger of two integers.
pub open spec fn max(a: int, b: int) -> int {
    if a < b {
        b
    } else {
        a
    }
}

// ---------------------------------------------------------------------------
// Limits.
// ---------------------------------------------------------------------------

/// The abstract content of [`Limits`]: the largest value seen for each kind
/// of data.
pub struct LimitsView {
    pub int: int,
    pub name_len: int,
    pub str_len: int,
    pub array_len: int,
    pub dict_entries: int,
}

impl LimitsView {
    /// Limits that have recorded nothing yet.
    pub open spec fn zero() -> LimitsView {
        LimitsView { int: 0, name_len: 0, str_len: 0, array_len: 0, dict_entries: 0 }
    }

    /// Record an integer number.
    pub open spec fn with_int(self, v: int) -> LimitsView {
        LimitsView { int: max(self.int, abs(v)), ..self }
    }

    /// Record a name of the given length.
    pub open spec fn with_name_len(self, n: int) -> LimitsView {
        LimitsView { name_len: max(self.name_len, n), ..self }
    }

    /// Record a string of the given length.
    pub open spec fn with_str_len(self, n: int) -> LimitsView {
        LimitsView { str_len: max(self.str_len, n), ..self }
    }

    /// Record an array of the given length.
    pub open spec fn with_array_len(self, n: int) -> LimitsView {
        LimitsView { array_len: max(self.array_len, n), ..self }
    }

    /// Record a dictionary with the given number of entries.
    pub open spec fn with_dict_entries(self, n: int) -> LimitsView {
        LimitsView { dict_entries: max(self.dict_entries, n), ..self }
    }

    /// The field-wise maximum of two limits.
    pub open spec fn merged(self, other: LimitsView) -> LimitsView {
        LimitsView {
            int: max(self.int, other.int),
            name_len: max(self.name_len, other.name_len),
            str_len: max(self.str_len, other.str_len),
            array_len: max(self.array_len, other.array_len),
            dict_entries: max(self.dict_entries, other.dict_entries),
        }
    }
}

/// Tracks the limits of data types used in a buffer.
///
/// Real numbers are not tracked here: the library does not handle floating
/// point values.
#[derive(Debug)]
pub struct Limits {
    int: i32,
    name_len: usize,
    str_len: usize,
    array_len: usize,
    dict_entries: usize,
}

impl View for Limits {
    type V = LimitsView;

    closed spec fn view(&self) -> LimitsView {
        LimitsView {
            int: self.int as int,
            name_len: self.name_len as int,
            str_len: self.str_len as int,
            array_len: self.array_len as int,
            dict_entries: self.dict_entries as int,
        }
    }
}

impl Limits {
    #[verifier::type_invariant]
    spec fn inv(self) -> bool {
        self.int >= 0
    }

    /// Create a new `Limits` struct with all values initialized to zero.
    pub fn new() -> (r: Limits)
        ensures
            r@ == LimitsView::zero(),
    {
        Limits { int: 0, name_len: 0, str_len: 0, array_len: 0, dict_entries: 0 }
    }

    /// Get the absolute value of the largest positive/negative integer number.
    pub fn int_limit(&self) -> (r: i32)
        ensures
            r == self@.int,
            r >= 0,
    {
        proof {
            use_type_invariant(self);
        }
        self.int
    }

    /// Get the maximum length of any used name.
    pub fn name_len(&self) -> (r: usize)
        ensures
            r == self@.name_len,
    {
        self.name_len
    }

    /// Get the maximum length of any used array.
    pub fn array_len(&self) -> (r: usize)
        ensures
            r == self@.array_len,
    {
        self.array_len
    }

    /// Get the maximum number of entries in any dictionary.
    pub fn dict_entries(&self) -> (r: usize)
        ensures
            r == self@.dict_entries,
    {
        self.dict_entries
    }

    /// Get the maximum length of any used string.
    pub fn str_len(&self) -> (r: usize)
        ensures
            r == self@.str_len,
    {
        self.str_len
    }

    pub(crate) fn register_int(&mut self, val: i32)
        requires
            val != i32::MIN,
        ensures
            final(self)@ == old(self)@.with_int(val as int),
    {
        proof {
            use_type_invariant(&*self);
        }
        let a: i32 = if val < 0 {
            -val
        } else {
            val
        };
        if self.int < a {
            self.int = a;
        }
    }

    pub(crate) fn register_name_len(&mut self, len: usize)
        ensures
            final(self)@ == old(self)@.with_name_len(len as int),
    {
        proof {
            use_type_invariant(&*self);
        }
        if self.name_len < len {
            self.name_len = len;
        }
    }

    pub(crate) fn register_str_len(&mut self, len: usize)
        ensures
            final(self)@ == old(self)@.with_str_len(len as int),
    {
        proof {
            use_type_invariant(&*self);
        }
        if self.str_len < len {
            self.str_len = len;
        }
    }

    pub(crate) fn register_array_len(&mut self, len: usize)
        ensures
            final(self)@ == old(self)@.with_array_len(len as int),
    {
        proof {
            use_type_invariant(&*self);
        }
        if self.array_len < len {
            self.array_len = len;
        }
    }

    pub(crate) fn register_dict_entries(&mut self, len: usize)
        ensures
            final(self)@ == old(self)@.with_dict_entries(len as int),
    {
        proof {
            use_type_invariant(&*self);
        }
        if self.dict_entries < len {
            self.dict_entries = len;
        }
    }

    /// Merge two `Limits` with each other, taking the maximum
    /// of each field from both.
    pub fn merge(&mut self, other: &Limits)
        ensures
            final(self)@ == old(self)@.merged(other@),
    {
        proof {
            use_type_invariant(other);
        }
        self.register_int(other.int);
        self.register_name_len(other.name_len);
        self.register_str_len(other.str_len);
        self.register_array_len(other.array_len);
        self.register_dict_entries(other.dict_entries);
    }
}

impl Clone for Limits {
    fn clone(&self) -> (r: Limits)
        ensures
            r@ == self@,
    {
        proof {
            use_type_invariant(self);
        }
        Limits {
            int: self.int,
            name_len: self.name_len,
            str_len: self.str_len,
            array_len: self.array_len,
            dict_entries: self.dict_entries,
        }
    }
}

impl Default for Limits {
    fn default() -> (r: Limits)
        ensures
            r@ == LimitsView::zero(),
    {
        Limits::new()
    }
}

// ---------------------------------------------------------------------------
// Buf.
// ---------------------------------------------------------------------------

/// Formats an integer with `itoa::Buffer::format`, whose documented result is
/// the integer's canonical decimal text (a minus sign for negative values,
/// then the digits without leading zeros).
#[verifier::external_body]
pub(crate) fn itoa_decimal(value: i32) -> (r: Vec<u8>)
    ensures
        r@ == decimal(value as int),
{
    itoa::Buffer::new().format(value).as_bytes().to_vec()
}

/// A buffer of arbitrary PDF content.
#[derive(Clone, Debug)]
pub struct Buf {
    inner: Vec<u8>,
    limits: Limits,
}

impl View for Buf {
    type V = Seq<u8>;

    closed spec fn view(&self) -> Seq<u8> {
        self.inner@
    }
}

impl Buf {
    /// The limits recorded by this buffer.
    pub closed spec fn spec_limits(&self) -> LimitsView {
        self.limits@
    }

    /// Create an empty buffer.
    pub fn new() -> (r: Buf)
        ensures
            r@ == Seq::<u8>::empty(),
            r.spec_limits() == LimitsView::zero(),
    {
        Buf { inner: Vec::new(), limits: Limits::new() }
    }

    /// Create an empty buffer with room for `capacity` bytes.
    pub fn with_capacity(capacity: usize) -> (r: Buf)
        ensures
            r@ == Seq::<u8>::empty(),
            r.spec_limits() == LimitsView::zero(),
    {
        Buf { inner: Vec::with_capacity(capacity), limits: Limits::new() }
    }

    /// Get the underlying bytes of the buffer.
    pub fn into_bytes(self) -> (r: Vec<u8>)
        ensures
            r@ == self@,
    {
        self.inner
    }

    /// Return the limits of the buffer.
    pub fn limits(&self) -> (r: &Limits)
        ensures
            r@ == self.spec_limits(),
    {
        &self.limits
    }

    /// The number of bytes in the buffer.
    pub fn len(&self) -> (r: usize)
        ensures
            r == self@.len(),
    {
        self.inner.len()
    }

    /// The bytes of the buffer.
    pub fn as_slice(&self) -> (r: &[u8])
        ensures
            r@ == self@,
    {
        self.inner.as_slice()
    }

    /// The last byte of the buffer, if any.
    pub fn last(&self) -> (r: Option<u8>)
        ensures
            r == (if self@.len() == 0 {
                None
            } else {
                Some(self@.last())
            }),
    {
        let n = self.inner.len();
        if n == 0 {
            None
        } else {
            Some(self.inner[n - 1])
        }
    }

    /// Overwrite the byte at `index`.
    pub(crate) fn set_byte(&mut self, index: usize, value: u8)
        requires
            index < old(self)@.len(),
        ensures
            final(self)@ == old(self)@.update(index as int, value),
            final(self).spec_limits() == old(self).spec_limits(),
    {
        self.inner.set(index, value);
    }

    /// Merge the given limits into this buffer's limits.
    pub(crate) fn merge_limits(&mut self, other: &Limits)
        ensures
            final(self)@ == old(self)@,
            final(self).spec_limits() == old(self).spec_limits().merged(other@),
    {
        self.limits.merge(other);
    }

    /// Record a string of the given length.
    pub(crate) fn register_str_len(&mut self, len: usize)
        ensures
            final(self)@ == old(self)@,
            final(self).spec_limits() == old(self).spec_limits().with_str_len(len as int),
    {
        self.limits.register_str_len(len);
    }

    /// Record a name of the given length.
    pub(crate) fn register_name_len(&mut self, len: usize)
        ensures
            final(self)@ == old(self)@,
            final(self).spec_limits() == old(self).spec_limits().with_name_len(len as int),
    {
        self.limits.register_name_len(len);
    }

    /// Record an array of the given length.
    pub(crate) fn register_array_len(&mut self, len: usize)
        ensures
            final(self)@ == old(self)@,
            final(self).spec_limits() == old(self).spec_limits().with_array_len(len as int),
    {
        self.limits.register_array_len(len);
    }

    /// Record a dictionary with the given number of entries.
    pub(crate) fn register_dict_entries(&mut self, len: usize)
        ensures
            final(self)@ == old(self)@,
            final(self).spec_limits() == old(self).spec_limits().with_dict_entries(len as int),
    {
        self.limits.register_dict_entries(len);
    }

    /// Append an integer in decimal and record it in the limits.
    pub(crate) fn push_int(&mut self, value: i32)
        requires
            value != i32::MIN,
        ensures
            final(self)@ == old(self)@ + decimal(value as int),
            final(self).spec_limits() == old(self).spec_limits().with_int(value as int),
    {
        self.limits.register_int(value);
        let digits = itoa_decimal(value);
        self.extend_slice(digits.as_slice());
    }

    /// Append a slice of bytes.
    pub(crate) fn extend_slice(&mut self, other: &[u8])
        ensures
            final(self)@ == old(self)@ + other@,
            final(self).spec_limits() == old(self).spec_limits(),
    {
        self.inner.extend_from_slice(other);
        assert(self.inner@ =~= old(self).inner@ + other@);
    }

    /// Append another buffer, merging its limits into this one's.
    pub(crate) fn extend(&mut self, other: &Buf)
        ensures
            final(self)@ == old(self)@ + other@,
            final(self).spec_limits() == old(self).spec_limits().merged(other.spec_limits()),
    {
        self.limits.merge(&other.limits);
        self.inner.extend_from_slice(other.inner.as_slice());
        assert(self.inner@ =~= old(self).inner@ + other.inner@);
    }

    /// Remove the last byte.
    pub(crate) fn pop(&mut self)
        requires
            old(self)@.len() > 0,
        ensures
            final(self)@ == old(self)@.drop_last(),
            final(self).spec_limits() == old(self).spec_limits(),
    {
        self.inner.pop();
    }

    /// Append a single byte.
    pub(crate) fn push(&mut self, b: u8)
        ensures
            final(self)@ == old(self)@.push(b),
            final(self).spec_limits() == old(self).spec_limits(),
    {
        self.inner.push(b);
    }

    /// Append two upper-case hexadecimal digits.
    pub(crate) fn push_hex(&mut self, value: u8)
        ensures
            final(self)@ == old(self)@ + hex_byte(value),
            final(self).spec_limits() == old(self).spec_limits(),
    {
        let hi = value >> 4;
        let lo = value & 0xF;
        assert(hi == value / 16 && lo == value % 16) by (bit_vector)
            requires
                hi == value >> 4,
                lo == value & 0xF,
        ;
        self.push(hex_char(hi));
        self.push(hex_char(lo));
        assert(self@ =~= old(self)@ + hex_byte(value));
    }

    /// Append four upper-case hexadecimal digits, big-endian.
    pub(crate) fn push_hex_u16(&mut self, value: u16)
        ensures
            final(self)@ == old(self)@ + hex_u16(value),
            final(self).spec_limits() == old(self).spec_limits(),
    {
        let hi = (value >> 8) as u8;
        let lo = value as u8;
        assert(hi == value / 256 && lo == value % 256) by (bit_vector)
            requires
                hi == (value >> 8) as u8,
                lo == value as u8,
        ;
        self.push_hex(hi);
        self.push_hex(lo);
        assert(self@ =~= old(self)@ + hex_u16(value));
    }

    /// Append three octal digits.
    pub(crate) fn push_octal(&mut self, value: u8)
        ensures
            final(self)@ == old(self)@ + octal_byte(value),
            final(self).spec_limits() == old(self).spec_limits(),
    {
        let a = value >> 6;
        let b = (value >> 3) & 7;
        let c = value & 7;
        assert(a == value / 64 && b == (value / 8) % 8 && c == value % 8 && a < 4) by (bit_vector)
            requires
                a == value >> 6,
                b == (value >> 3) & 7,
                c == value & 7,
        ;
        self.push(48u8 + a);
        self.push(48u8 + b);
        self.push(48u8 + c);
        assert(self@ =~= old(self)@ + octal_byte(value));
    }

    /// Append the decimal digits of `value`.
    pub(crate) fn push_decimal_usize(&mut self, value: usize)
        ensures
            final(self)@ == old(self)@ + decimal_digits(value as nat),
            final(self).spec_limits() == old(self).spec_limits(),
        decreases value,
    {
        if value >= 10 {
            self.push_decimal_usize(value / 10);
        }
        self.push(48u8 + (value % 10) as u8);
        assert(self@ =~= old(self)@ + decimal_digits(value as nat));
    }

    /// Append the decimal digits of `value`, left-padded with zeros to
    /// `width` bytes.
    pub(crate) fn push_padded_usize(&mut self, value: usize, width: usize)
        ensures
            final(self)@ == old(self)@ + padded_decimal(value as nat, width as nat),
            final(self).spec_limits() == old(self).spec_limits(),
    {
        let n = decimal_len(value);
        let mut i = n;
        while i < width
            invariant
                n <= i <= width || (n > width && i == n),
                self@ == old(self)@ + repeat_byte(48u8, (i - n) as nat),
                self.spec_limits() == old(self).spec_limits(),
            decreases width - i,
        {
            self.push(48u8);
            i = i + 1;
            assert(self@ =~= old(self)@ + repeat_byte(48u8, (i - n) as nat));
        }
        let ghost mid = self@;
        self.push_decimal_usize(value);
        if n < width {
            assert(self@ =~= old(self)@ + padded_decimal(value as nat, width as nat));
        } else {
            assert(mid =~= old(self)@);
            assert(self@ =~= old(self)@ + padded_decimal(value as nat, width as nat));
        }
    }

    /// Reserve room for `additional` more bytes.
    pub(crate) fn reserve(&mut self, additional: usize)
        ensures
            final(self)@ == old(self)@,
            final(self).spec_limits() == old(self).spec_limits(),
    {
        self.inner.reserve(additional);
    }
}

impl core::ops::Deref for Buf {
    type Target = [u8];

    fn deref(&self) -> (r: &[u8])
        ensures
            r@ == self@,
    {
        self.inner.as_slice()
    }
}

/// The upper-case hexadecimal digit for a value below 16.
fn hex_char(d: u8) -> (r: u8)
    requires
        d < 16,
    ensures
        r == hex_digit(d as int),
{
    if d < 10 {
        48u8 + d
    } else {
        65u8 + (d - 10)
    }
}

/// Ten to the power `k`.
pub open spec fn pow10(k: nat) -> nat
    decreases k,
{
    if k == 0 {
        1
    } else {
        10 * pow10((k - 1) as nat)
    }
}

/// A number below `10^k` has at most `k` decimal digits.
pub proof fn lemma_decimal_digits_len(n: nat, k: nat)
    requires
        k >= 1,
        n < pow10(k),
    ensures
        1 <= decimal_digits(n).len() <= k,
    decreases k,
{
    if n >= 10 {
        assert(k >= 2) by {
            if k == 1 {
                assert(pow10(1) == 10 * pow10(0));
            }
        }
        assert(n / 10 < pow10((k - 1) as nat));
        lemma_decimal_digits_len(n / 10, (k - 1) as nat);
    }
}

/// The number of decimal digits of `value`.
pub(crate) fn decimal_len(value: usize) -> (r: usize)
    ensures
        r == decimal_digits(value as nat).len(),
        1 <= r <= 20,
{
    proof {
        reveal_with_fuel(pow10, 21);
        assert(pow10(20) == 100000000000000000000);
        lemma_decimal_digits_len(value as nat, 20);
    }
    let mut n: usize = 1;
    let mut v = value;
    while v >= 10
        invariant
            n + decimal_digits(v as nat).len() == decimal_digits(value as nat).len() + 1,
            decimal_digits(value as nat).len() <= 20,
            decimal_digits(v as nat).len() >= 1,
        decreases v,
    {
        v = v / 10;
        n = n + 1;
    }
    n
}


/// The number that a sequence of decimal digits stands for.
pub open spec fn digits_value(s: Seq<u8>) -> int
    decreases s.len(),
{
    if s.len() == 0 {
        0
    } else {
        digits_value(s.drop_last()) * 10 + (s.last() - 48)
    }
}

/// A natural number is written as decimal digits without leading zeros that
/// read back as the number.
pub proof fn lemma_decimal_digits_read_back(n: nat)
    ensures
        decimal_digits(n).len() >= 1,
        forall|i: int| 0 <= i < decimal_digits(n).len() ==> 48 <= #[trigger] decimal_digits(n)[i] <= 57,
        n > 0 ==> decimal_digits(n)[0] != 48,
        digits_value(decimal_digits(n)) == n,
    decreases n,
{
    if n >= 10 {
        lemma_decimal_digits_read_back(n / 10);
        let d = decimal_digits(n / 10);
        let x = digit_byte((n % 10) as int);
        assert(decimal_digits(n) == d.push(x));
        assert(d.push(x).drop_last() =~= d);
        assert(x == 48 + n % 10);
        assert(digits_value(d.push(x)) == digits_value(d) * 10 + (x - 48));
        assert(n == 10 * (n / 10) + n % 10);
        assert(decimal_digits(n)[0] == d[0]);
    } else {
        assert(decimal_digits(n) =~= seq![digit_byte(n as int)]);
        assert(seq![digit_byte(n as int)].drop_last() =~= Seq::<u8>::empty());
        assert(digits_value(seq![digit_byte(n as int)]) == digits_value(Seq::<u8>::empty()) * 10 + (digit_byte(
            n as int,
        ) - 48));
    }
}

/// An integer is written as an optional minus sign and decimal digits that
/// read back as its absolute value; the sign is there exactly for negative
/// numbers.
pub proof fn lemma_decimal_read_back(v: int)
    ensures
        decimal(v).len() >= 1,
        (decimal(v)[0] == 45) == (v < 0),
        v < 0 ==> digits_value(decimal(v).skip(1)) == -v,
        v >= 0 ==> digits_value(decimal(v)) == v,
{
    if v < 0 {
        lemma_decimal_digits_read_back((-v) as nat);
        assert(decimal(v).skip(1) =~= decimal_digits((-v) as nat));
    } else {
        lemma_decimal_digits_read_back(v as nat);
    }
}

} // verus!
