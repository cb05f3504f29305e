use vstd::prelude::*;
use vstd::string::*;

use crate::buf::{decimal, itoa_decimal, LimitsView};
use crate::object::{
    lemma_reals_keep_limits,
    dict_items_appended,
    Array, DOT, LBRACE, NEWLINE, RBRACE, Dict, LBRACKET, Name, Obj, Primitive, Real, Ref, Stream, all_writable, array_close_bytes, array_items_bytes,
    array_separator, dict_close_bytes, dict_grown, dict_items_entry_bytes, dict_key_bytes, dict_pair_appended,
    dict_pair_bytes, nested_indent, stream_close_bytes, write_items_entry,
};

verus! {

/// Way the function is defined in.
#[derive(Debug, Copy, Clone, Eq, PartialEq, Hash)]
pub enum FunctionType {
    /// A function that is derived from a set of sampled data.
    Sampled,
    /// A exponential function.
    Exponential,
    /// A composite function made up of multiple other functions.
    Stitching,
    /// A postscript function.
    PostScript,
}

impl FunctionType {
    /// The number under which the value is written.
    pub open spec fn spec_int(self) -> i32 {
        match self {
            Self::Sampled => 0,
            Self::Exponential => 2,
            Self::Stitching => 3,
            Self::PostScript => 4,
        }
    }

    pub(crate) fn to_int(self) -> (r: i32)
        ensures
            r == self.spec_int(),
    {
        match self {
            Self::Sampled => 0,
            Self::Exponential => 2,
            Self::Stitching => 3,
            Self::PostScript => 4,
        }
    }
}

/// How to interpolate between the samples in a function of the
/// sampled type.
#[derive(Debug, Copy, Clone, Eq, PartialEq, Hash)]
pub enum InterpolationOrder {
    /// Linear spline interpolation.
    Linear,
    /// Cubic spline interpolation.
    Cubic,
}

impl InterpolationOrder {
    /// The number under which the value is written.
    pub open spec fn spec_int(self) -> i32 {
        match self {
            Self::Linear => 1,
            Self::Cubic => 3,
        }
    }

    pub(crate) fn to_int(self) -> (r: i32)
        ensures
            r == self.spec_int(),
    {
        match self {
            Self::Linear => 1,
            Self::Cubic => 3,
        }
    }
}


/// The bytes an array of real numbers adds as an item of an array holding
/// `len` items.
pub open spec fn real_array_item_bytes(before: Seq<u8>, len: int, pretty: bool, values: Seq<Real>) -> Seq<u8> {
    let sep = array_separator(len, pretty);
    sep + seq![LBRACKET] + array_items_bytes(before + sep + seq![LBRACKET], 0, pretty, values)
        + array_close_bytes(false, pretty)
}

/// The bytes arrays of real numbers add as the items of an array holding
/// `len` items.
pub open spec fn real_arrays_bytes(before: Seq<u8>, len: int, pretty: bool, sides: Seq<Seq<Real>>) -> Seq<u8>
    decreases sides.len(),
{
    if sides.len() == 0 {
        Seq::empty()
    } else {
        let prev = real_arrays_bytes(before, len, pretty, sides.drop_last());
        prev + real_array_item_bytes(before + prev, len + sides.len() - 1, pretty, sides.last())
    }
}

/// The dictionary entry `key` with an array of arrays of real numbers.
pub open spec fn real_arrays_entry_bytes(
    before: Seq<u8>,
    pretty: bool,
    indent: int,
    key: Seq<u8>,
    sides: Seq<Seq<Real>>,
) -> Seq<u8> {
    let k = dict_key_bytes(pretty, indent, key);
    k + seq![LBRACKET] + real_arrays_bytes(before + k + seq![LBRACKET], 0, pretty, sides)
        + array_close_bytes(false, pretty)
}

/// The limits after arrays of real numbers: each array records its length.
pub open spec fn real_arrays_limits(before: LimitsView, sides: Seq<Seq<Real>>) -> LimitsView
    decreases sides.len(),
{
    if sides.len() == 0 {
        before
    } else {
        real_arrays_limits(before, sides.drop_last()).with_array_len(sides.last().len() as int)
    }
}

/// The limits after an entry `key` with an array of arrays of real numbers.
pub open spec fn real_arrays_entry_limits(before: LimitsView, key: Seq<u8>, sides: Seq<Seq<Real>>) -> LimitsView {
    real_arrays_limits(before.with_name_len(key.len() as int), sides).with_array_len(sides.len() as int)
}

/// `after` is `before` with one more entry: `key` with an array of arrays of
/// real numbers.
pub open spec fn dict_real_arrays_appended(before: Dict, after: Dict, key: Seq<u8>, sides: Seq<Seq<Real>>) -> bool {
    &&& dict_grown(
        before,
        after,
        real_arrays_entry_bytes(before.buf@, before.settings.pretty, before.indent as int, key, sides),
        1,
    )
    &&& after.buf.spec_limits() == real_arrays_entry_limits(before.buf.spec_limits(), key, sides)
}

/// The views of a slice of slices of real numbers.
pub open spec fn real_slices<'a>(sides: Seq<&'a [Real<'a>]>) -> Seq<Seq<Real<'a>>> {
    sides.map_values(|s: &[Real]| s@)
}

/// Whether every inner slice can be written as an array.
pub open spec fn writable_sides(sides: Seq<&[Real]>) -> bool {
    forall|i: int| 0 <= i < sides.len() ==> (#[trigger] sides[i])@.len() <= i32::MAX && all_writable(sides[i]@)
}

/// Write the entry `key` with an array of arrays of real numbers.
fn write_real_arrays_entry(dict: &mut Dict, key: Name, sides: &[&[Real]])
    requires
        0 <= old(dict).len < i32::MAX,
        sides@.len() <= i32::MAX,
        writable_sides(sides@),
    ensures
        final(dict).buf@ == old(dict).buf@ + real_arrays_entry_bytes(
            old(dict).buf@,
            old(dict).settings.pretty,
            old(dict).indent as int,
            key.0@,
            real_slices(sides@),
        ),
        final(dict).buf.spec_limits() == real_arrays_entry_limits(
            old(dict).buf.spec_limits(),
            key.0@,
            real_slices(sides@),
        ),
        final(dict).len == old(dict).len + 1,
        final(dict).indent == old(dict).indent,
        final(dict).indirect == old(dict).indirect,
        final(dict).settings == old(dict).settings,
        *final(final(dict).buf) == *final(old(dict).buf),
{
    let ghost pretty = old(dict).settings.pretty;
    let ghost k = dict_key_bytes(pretty, old(dict).indent as int, key.0@);
    let mut array = dict.insert(key).array();
    let ghost start = array.buf@;
    assert(start =~= old(dict).buf@ + k + seq![LBRACKET]);
    write_real_arrays(&mut array, sides);
    array.finish();
    assert(dict.buf@ =~= old(dict).buf@ + real_arrays_entry_bytes(
        old(dict).buf@,
        pretty,
        old(dict).indent as int,
        key.0@,
        real_slices(sides@),
    ));
}

/// Write arrays of real numbers as items of an array.
fn write_real_arrays(array: &mut Array, sides: &[&[Real]])
    requires
        0 <= old(array).len,
        old(array).len + sides@.len() <= i32::MAX,
        writable_sides(sides@),
    ensures
        final(array).buf@ == old(array).buf@ + real_arrays_bytes(
            old(array).buf@,
            old(array).len as int,
            old(array).settings.pretty,
            real_slices(sides@),
        ),
        final(array).buf.spec_limits() == real_arrays_limits(old(array).buf.spec_limits(), real_slices(sides@)),
        final(array).len == old(array).len + sides@.len(),
        final(array).indirect == old(array).indirect,
        final(array).indent == old(array).indent,
        final(array).settings == old(array).settings,
        *final(final(array).buf) == *final(old(array).buf),
{
    let ghost start = array.buf@;
    let ghost pretty = array.settings.pretty;
    let ghost all = real_slices(sides@);
    let mut i: usize = 0;
    while i < sides.len()
        invariant
            i <= sides@.len(),
            0 <= old(array).len,
            old(array).len + sides@.len() <= i32::MAX,
            writable_sides(sides@),
            start == old(array).buf@,
            pretty == old(array).settings.pretty,
            all == real_slices(sides@),
            array.len == old(array).len + i,
            array.indirect == old(array).indirect,
            array.indent == old(array).indent,
            array.settings == old(array).settings,
            array.buf@ == start + real_arrays_bytes(start, old(array).len as int, pretty, all.take(i as int)),
            array.buf.spec_limits() == real_arrays_limits(old(array).buf.spec_limits(), all.take(i as int)),
            *final(array.buf) == *final(old(array).buf),
        decreases sides@.len() - i,
    {
        let side = sides[i];
        assert(side@.len() <= i32::MAX && all_writable(side@)) by {
            assert(sides@[i as int] == side);
        }
        let ghost prev = array.buf@;
        let ghost prev_limits = array.buf.spec_limits();
        proof {
            lemma_reals_keep_limits(prev_limits, side@);
        }
        let mut inner = array.push().array();
        assert(inner.buf@ =~= prev + array_separator(old(array).len + i, pretty) + seq![LBRACKET]);
        assert(!inner.indirect);
        inner.items(side);
        inner.finish();
        assert(all.take(i + 1).drop_last() =~= all.take(i as int));
        assert(all.take(i + 1).last() == side@);
        assert(array.buf@ =~= prev + real_array_item_bytes(prev, old(array).len + i, pretty, side@));
        i = i + 1;
    }
    assert(all.take(sides@.len() as int) =~= all);
}

/// Writer for a _sampled function stream_. PDF 1.2+.
///
/// This struct is created by [`Chunk::sampled_function`](crate::Chunk::sampled_function).
pub struct SampledFunction<'a> {
    /// The underlying stream.
    pub stream: Stream<'a>,
}

impl<'a> SampledFunction<'a> {
    /// Start writing the stream's dictionary entries.
    pub(crate) fn start(stream: Stream<'a>) -> (r: Self)
        requires
            0 <= stream.dict.len < i32::MAX,
        ensures
            dict_pair_appended(stream.dict, r.stream.dict, "FunctionType".spec_bytes(), FunctionType::Sampled.spec_int()),
            r.stream.data == stream.data,
            *final(r.stream.dict.buf) == *final(stream.dict.buf),
    {
        let mut stream = stream;
        stream.dict.pair(Name("FunctionType".as_bytes()), FunctionType::Sampled.to_int());
        Self { stream }
    }

    /// Write the `/Domain` attribute to set where the function is defined.
    /// Required.
    pub fn domain(&mut self, domain: &[&[Real]]) -> (r: &mut Self)
        requires
            0 <= old(self).stream.dict.len < i32::MAX,
            domain@.len() <= i32::MAX,
            writable_sides(domain@),
        ensures
            dict_real_arrays_appended(old(self).stream.dict, r.stream.dict, "Domain".spec_bytes(), real_slices(domain@)),
            r.stream.data == old(self).stream.data,
            *final(r.stream.dict.buf) == *final(old(self).stream.dict.buf),
            *final(self) == *final(r),
    {
        write_real_arrays_entry(&mut self.stream.dict, Name("Domain".as_bytes()), domain);
        self
    }

    /// Write the `/Range` attribute.
    ///
    /// Required for sampled and PostScript functions.
    pub fn range(&mut self, range: &[&[Real]]) -> (r: &mut Self)
        requires
            0 <= old(self).stream.dict.len < i32::MAX,
            range@.len() <= i32::MAX,
            writable_sides(range@),
        ensures
            dict_real_arrays_appended(old(self).stream.dict, r.stream.dict, "Range".spec_bytes(), real_slices(range@)),
            r.stream.data == old(self).stream.data,
            *final(r.stream.dict.buf) == *final(old(self).stream.dict.buf),
            *final(self) == *final(r),
    {
        write_real_arrays_entry(&mut self.stream.dict, Name("Range".as_bytes()), range);
        self
    }

    /// Write the `/Size` attribute.
    ///
    /// Sets the number of input samples per dimension. Required.
    pub fn size(&mut self, size: &[i32]) -> (r: &mut Self)
        requires
            0 <= old(self).stream.dict.len < i32::MAX,
            size@.len() <= i32::MAX,
            all_writable(size@),
        ensures
            dict_items_appended(old(self).stream.dict, r.stream.dict, "Size".spec_bytes(), size@),
            r.stream.data == old(self).stream.data,
            *final(r.stream.dict.buf) == *final(old(self).stream.dict.buf),
            *final(self) == *final(r),
    {
        write_items_entry(&mut self.stream.dict, Name("Size".as_bytes()), size);
        self
    }

    /// Write the `/BitsPerSample` attribute.
    ///
    /// Sets the number of bits per input sample. Required.
    pub fn bits_per_sample(&mut self, bits: i32) -> (r: &mut Self)
        requires
            0 <= old(self).stream.dict.len < i32::MAX,
            bits != i32::MIN,
        ensures
            dict_pair_appended(old(self).stream.dict, r.stream.dict, "BitsPerSample".spec_bytes(), bits),
            r.stream.data == old(self).stream.data,
            *final(r.stream.dict.buf) == *final(old(self).stream.dict.buf),
            *final(self) == *final(r),
    {
        self.stream.dict.pair(Name("BitsPerSample".as_bytes()), bits);
        self
    }

    /// Write the `/Order` attribute.
    ///
    /// Choose the implementation kind.
    pub fn order(&mut self, order: InterpolationOrder) -> (r: &mut Self)
        requires
            0 <= old(self).stream.dict.len < i32::MAX,
        ensures
            dict_pair_appended(old(self).stream.dict, r.stream.dict, "Order".spec_bytes(), order.spec_int()),
            r.stream.data == old(self).stream.data,
            *final(r.stream.dict.buf) == *final(old(self).stream.dict.buf),
            *final(self) == *final(r),
    {
        self.stream.dict.pair(Name("Order".as_bytes()), order.to_int());
        self
    }

    /// Write the `/Encode` attribute.
    ///
    /// For each sample, define how the input is mapped to the domain range.
    pub fn encode(&mut self, encode: &[&[Real]]) -> (r: &mut Self)
        requires
            0 <= old(self).stream.dict.len < i32::MAX,
            encode@.len() <= i32::MAX,
            writable_sides(encode@),
        ensures
            dict_real_arrays_appended(old(self).stream.dict, r.stream.dict, "Encode".spec_bytes(), real_slices(encode@)),
            r.stream.data == old(self).stream.data,
            *final(r.stream.dict.buf) == *final(old(self).stream.dict.buf),
            *final(self) == *final(r),
    {
        write_real_arrays_entry(&mut self.stream.dict, Name("Encode".as_bytes()), encode);
        self
    }

    /// Write the `/Decode` attribute.
    ///
    /// For each sample, define how the output is mapped to the output range.
    pub fn decode(&mut self, decode: &[&[Real]]) -> (r: &mut Self)
        requires
            0 <= old(self).stream.dict.len < i32::MAX,
            decode@.len() <= i32::MAX,
            writable_sides(decode@),
        ensures
            dict_real_arrays_appended(old(self).stream.dict, r.stream.dict, "Decode".spec_bytes(), real_slices(decode@)),
            r.stream.data == old(self).stream.data,
            *final(r.stream.dict.buf) == *final(old(self).stream.dict.buf),
            *final(self) == *final(r),
    {
        write_real_arrays_entry(&mut self.stream.dict, Name("Decode".as_bytes()), decode);
        self
    }

    /// Finish the stream: close its dictionary, write its data and close the
    /// object.
    pub fn finish(self)
        requires
            self.stream.dict.len >= 0,
        ensures
            final(self.stream.dict.buf)@ == old(self.stream.dict.buf)@ + stream_close_bytes(
                self.stream.dict.settings.pretty,
                self.stream.data@,
            ),
            final(self.stream.dict.buf).spec_limits() == old(self.stream.dict.buf).spec_limits().with_dict_entries(self.stream.dict.len as int),
    {
        self.stream.finish();
    }
}

/// Writer for an _exponential function dictionary_. PDF 1.3+.
///
/// The function result is `y_i = C0_i + x^N * (C1_i - C0_i)` where `i` is the
/// current dimension.
///
/// This struct is created by [`Chunk::exponential_function`](crate::Chunk::exponential_function)
/// and [`Separation::tint_exponential`](crate::writers::Separation::tint_exponential).
pub struct ExponentialFunction<'a> {
    /// The underlying dictionary.
    pub dict: Dict<'a>,
}

impl<'a> ExponentialFunction<'a> {
    /// Start writing the dictionary on an object.
    pub(crate) fn start(obj: Obj<'a>) -> (r: Self)
        ensures
            r.dict.buf@ == old(obj.buf)@ + "<<".spec_bytes() + dict_pair_bytes(
                old(obj.buf)@ + "<<".spec_bytes(),
                obj.settings.pretty,
                nested_indent(obj.indent) as int,
                "FunctionType".spec_bytes(),
                FunctionType::Exponential.spec_int(),
            ),
            r.dict.len == 1,
            r.dict.indirect == obj.indirect,
            r.dict.indent == nested_indent(obj.indent),
            r.dict.settings == obj.settings,
            *final(r.dict.buf) == *final(obj.buf),
    {
        let mut dict = obj.dict();
        dict.pair(Name("FunctionType".as_bytes()), FunctionType::Exponential.to_int());
        Self { dict }
    }

    /// Write the `/Domain` attribute to set where the function is defined.
    /// Required.
    pub fn domain(&mut self, domain: &[&[Real]]) -> (r: &mut Self)
        requires
            0 <= old(self).dict.len < i32::MAX,
            domain@.len() <= i32::MAX,
            writable_sides(domain@),
        ensures
            dict_real_arrays_appended(old(self).dict, r.dict, "Domain".spec_bytes(), real_slices(domain@)),
            *final(r.dict.buf) == *final(old(self).dict.buf),
            *final(self) == *final(r),
    {
        write_real_arrays_entry(&mut self.dict, Name("Domain".as_bytes()), domain);
        self
    }

    /// Write the `/Range` attribute.
    ///
    /// Required for sampled and PostScript functions.
    pub fn range(&mut self, range: &[&[Real]]) -> (r: &mut Self)
        requires
            0 <= old(self).dict.len < i32::MAX,
            range@.len() <= i32::MAX,
            writable_sides(range@),
        ensures
            dict_real_arrays_appended(old(self).dict, r.dict, "Range".spec_bytes(), real_slices(range@)),
            *final(r.dict.buf) == *final(old(self).dict.buf),
            *final(self) == *final(r),
    {
        write_real_arrays_entry(&mut self.dict, Name("Range".as_bytes()), range);
        self
    }

    /// Write the `/C0` array.
    ///
    /// Function result when input is zero. Default is `0.0`.
    pub fn c0(&mut self, c0: &[Real]) -> (r: &mut Self)
        requires
            0 <= old(self).dict.len < i32::MAX,
            c0@.len() <= i32::MAX,
            all_writable(c0@),
        ensures
            dict_items_appended(old(self).dict, r.dict, "C0".spec_bytes(), c0@),
            *final(r.dict.buf) == *final(old(self).dict.buf),
            *final(self) == *final(r),
    {
        write_items_entry(&mut self.dict, Name("C0".as_bytes()), c0);
        self
    }

    /// Write the `/C1` array.
    ///
    /// Function result when input is one. Default is `1.0`.
    pub fn c1(&mut self, c1: &[Real]) -> (r: &mut Self)
        requires
            0 <= old(self).dict.len < i32::MAX,
            c1@.len() <= i32::MAX,
            all_writable(c1@),
        ensures
            dict_items_appended(old(self).dict, r.dict, "C1".spec_bytes(), c1@),
            *final(r.dict.buf) == *final(old(self).dict.buf),
            *final(self) == *final(r),
    {
        write_items_entry(&mut self.dict, Name("C1".as_bytes()), c1);
        self
    }

    /// Write the `/N` attribute.
    ///
    /// The interpolation exponent. Required.
    pub fn n(&mut self, n: Real) -> (r: &mut Self)
        requires
            0 <= old(self).dict.len < i32::MAX,
            n.spec_writable(),
        ensures
            dict_pair_appended(old(self).dict, r.dict, "N".spec_bytes(), n),
            *final(r.dict.buf) == *final(old(self).dict.buf),
            *final(self) == *final(r),
    {
        self.dict.pair(Name("N".as_bytes()), n);
        self
    }

    /// Finish writing the dictionary.
    pub fn finish(self)
        requires
            self.dict.len >= 0,
            self.dict.indent >= 2,
        ensures
            final(self.dict.buf)@ == old(self.dict.buf)@ + dict_close_bytes(
                self.dict.len as int,
                self.dict.settings.pretty,
                self.dict.indent as int,
                self.dict.indirect,
            ),
            final(self.dict.buf).spec_limits() == old(self.dict.buf).spec_limits().with_dict_entries(self.dict.len as int),
    {
        self.dict.finish();
    }
}

/// Writer for a _stitching function dictionary_. PDF 1.3+.
///
/// The function result is `y_i = C0_i + x^N * (C1_i - C0_i)` where `i` is the
/// current dimension.
///
/// This struct is created by [`Chunk::stitching_function`](crate::Chunk::stitching_function)
/// and [`Separation::tint_stitching`](crate::writers::Separation::tint_stitching).
pub struct StitchingFunction<'a> {
    /// The underlying dictionary.
    pub dict: Dict<'a>,
}

impl<'a> StitchingFunction<'a> {
    /// Start writing the dictionary on an object.
    pub(crate) fn start(obj: Obj<'a>) -> (r: Self)
        ensures
            r.dict.buf@ == old(obj.buf)@ + "<<".spec_bytes() + dict_pair_bytes(
                old(obj.buf)@ + "<<".spec_bytes(),
                obj.settings.pretty,
                nested_indent(obj.indent) as int,
                "FunctionType".spec_bytes(),
                FunctionType::Stitching.spec_int(),
            ),
            r.dict.len == 1,
            r.dict.indirect == obj.indirect,
            r.dict.indent == nested_indent(obj.indent),
            r.dict.settings == obj.settings,
            *final(r.dict.buf) == *final(obj.buf),
    {
        let mut dict = obj.dict();
        dict.pair(Name("FunctionType".as_bytes()), FunctionType::Stitching.to_int());
        Self { dict }
    }

    /// Write the `/Domain` attribute to set where the function is defined.
    /// Required.
    pub fn domain(&mut self, domain: &[&[Real]]) -> (r: &mut Self)
        requires
            0 <= old(self).dict.len < i32::MAX,
            domain@.len() <= i32::MAX,
            writable_sides(domain@),
        ensures
            dict_real_arrays_appended(old(self).dict, r.dict, "Domain".spec_bytes(), real_slices(domain@)),
            *final(r.dict.buf) == *final(old(self).dict.buf),
            *final(self) == *final(r),
    {
        write_real_arrays_entry(&mut self.dict, Name("Domain".as_bytes()), domain);
        self
    }

    /// Write the `/Range` attribute.
    ///
    /// Required for sampled and PostScript functions.
    pub fn range(&mut self, range: &[&[Real]]) -> (r: &mut Self)
        requires
            0 <= old(self).dict.len < i32::MAX,
            range@.len() <= i32::MAX,
            writable_sides(range@),
        ensures
            dict_real_arrays_appended(old(self).dict, r.dict, "Range".spec_bytes(), real_slices(range@)),
            *final(r.dict.buf) == *final(old(self).dict.buf),
            *final(self) == *final(r),
    {
        write_real_arrays_entry(&mut self.dict, Name("Range".as_bytes()), range);
        self
    }

    /// Write the `/Functions` array.
    ///
    /// The functions to be stitched. Required.
    pub fn functions(&mut self, functions: &[Ref]) -> (r: &mut Self)
        requires
            0 <= old(self).dict.len < i32::MAX,
            functions@.len() <= i32::MAX,
            all_writable(functions@),
        ensures
            dict_items_appended(old(self).dict, r.dict, "Functions".spec_bytes(), functions@),
            *final(r.dict.buf) == *final(old(self).dict.buf),
            *final(self) == *final(r),
    {
        write_items_entry(&mut self.dict, Name("Functions".as_bytes()), functions);
        self
    }

    /// Write the `/Bounds` array.
    ///
    /// The boundaries of the intervals that each function is called in. The
    /// array has one less entry than there are stiched functions. Required.
    pub fn bounds(&mut self, bounds: &[Real]) -> (r: &mut Self)
        requires
            0 <= old(self).dict.len < i32::MAX,
            bounds@.len() <= i32::MAX,
            all_writable(bounds@),
        ensures
            dict_items_appended(old(self).dict, r.dict, "Bounds".spec_bytes(), bounds@),
            *final(r.dict.buf) == *final(old(self).dict.buf),
            *final(self) == *final(r),
    {
        write_items_entry(&mut self.dict, Name("Bounds".as_bytes()), bounds);
        self
    }

    /// Write the `/Encode` array.
    ///
    /// Pair of values for each function that maps the stitching domain subsets
    /// to the function domain. Required.
    pub fn encode(&mut self, encode: &[Real]) -> (r: &mut Self)
        requires
            0 <= old(self).dict.len < i32::MAX,
            encode@.len() <= i32::MAX,
            all_writable(encode@),
        ensures
            dict_items_appended(old(self).dict, r.dict, "Encode".spec_bytes(), encode@),
            *final(r.dict.buf) == *final(old(self).dict.buf),
            *final(self) == *final(r),
    {
        write_items_entry(&mut self.dict, Name("Encode".as_bytes()), encode);
        self
    }

    /// Finish writing the dictionary.
    pub fn finish(self)
        requires
            self.dict.len >= 0,
            self.dict.indent >= 2,
        ensures
            final(self.dict.buf)@ == old(self.dict.buf)@ + dict_close_bytes(
                self.dict.len as int,
                self.dict.settings.pretty,
                self.dict.indent as int,
                self.dict.indirect,
            ),
            final(self.dict.buf).spec_limits() == old(self.dict.buf).spec_limits().with_dict_entries(self.dict.len as int),
    {
        self.dict.finish();
    }
}

/// Writer for a _PostScript function stream_. PDF 1.3+.
///
/// This struct is created by [`Chunk::post_script_function`](crate::Chunk::post_script_function).
pub struct PostScriptFunction<'a> {
    /// The underlying stream.
    pub stream: Stream<'a>,
}

impl<'a> PostScriptFunction<'a> {
    /// Start writing the stream's dictionary entries.
    pub(crate) fn start(stream: Stream<'a>) -> (r: Self)
        requires
            0 <= stream.dict.len < i32::MAX,
        ensures
            dict_pair_appended(stream.dict, r.stream.dict, "FunctionType".spec_bytes(), FunctionType::PostScript.spec_int()),
            r.stream.data == stream.data,
            *final(r.stream.dict.buf) == *final(stream.dict.buf),
    {
        let mut stream = stream;
        stream.dict.pair(Name("FunctionType".as_bytes()), FunctionType::PostScript.to_int());
        Self { stream }
    }

    /// Write the `/Domain` attribute to set where the function is defined.
    /// Required.
    pub fn domain(&mut self, domain: &[&[Real]]) -> (r: &mut Self)
        requires
            0 <= old(self).stream.dict.len < i32::MAX,
            domain@.len() <= i32::MAX,
            writable_sides(domain@),
        ensures
            dict_real_arrays_appended(old(self).stream.dict, r.stream.dict, "Domain".spec_bytes(), real_slices(domain@)),
            r.stream.data == old(self).stream.data,
            *final(r.stream.dict.buf) == *final(old(self).stream.dict.buf),
            *final(self) == *final(r),
    {
        write_real_arrays_entry(&mut self.stream.dict, Name("Domain".as_bytes()), domain);
        self
    }

    /// Write the `/Range` attribute.
    ///
    /// Required for sampled and PostScript functions.
    pub fn range(&mut self, range: &[&[Real]]) -> (r: &mut Self)
        requires
            0 <= old(self).stream.dict.len < i32::MAX,
            range@.len() <= i32::MAX,
            writable_sides(range@),
        ensures
            dict_real_arrays_appended(old(self).stream.dict, r.stream.dict, "Range".spec_bytes(), real_slices(range@)),
            r.stream.data == old(self).stream.data,
            *final(r.stream.dict.buf) == *final(old(self).stream.dict.buf),
            *final(self) == *final(r),
    {
        write_real_arrays_entry(&mut self.stream.dict, Name("Range".as_bytes()), range);
        self
    }

    /// Finish the stream: close its dictionary, write its data and close the
    /// object.
    pub fn finish(self)
        requires
            self.stream.dict.len >= 0,
        ensures
            final(self.stream.dict.buf)@ == old(self.stream.dict.buf)@ + stream_close_bytes(
                self.stream.dict.settings.pretty,
                self.stream.data@,
            ),
            final(self.stream.dict.buf).spec_limits() == old(self.stream.dict.buf).spec_limits().with_dict_entries(self.stream.dict.len as int),
    {
        self.stream.finish();
    }
}


/// PostScript operators for use in Type 4 functions.
///
/// The branches of a conditional own their operations, so that each
/// conditional is smaller than the sequence it stands in.
#[derive(Debug, PartialEq)]
pub enum PostScriptOp<'a> {
    /// Push a real number, given by its decimal text.
    Real(Real<'a>),
    /// Push an integer number.
    Integer(i32),

    /// Absolute value. One number argument.
    Abs,
    /// Addition. Two number arguments.
    Add,
    /// Arc tangent. One number argument.
    Atan,
    /// Round up to the nearest integer. One number argument.
    Ceiling,
    /// Cosine. One number argument.
    Cos,
    /// Convert to integer. One real number argument.
    Cvi,
    /// Convert to real. One integer argument.
    Cvr,
    /// Divide. Two number arguments.
    Div,
    /// Raise the base to the exponent. Two number arguments.
    Exp,
    /// Round down to the nearest integer. One number argument.
    Floor,
    /// Integer division. Two integer arguments.
    Idiv,
    /// Natural logarithm. One number argument.
    Ln,
    /// Logarithm base 10. One number argument.
    Log,
    /// Modulo. Two integer arguments.
    Mod,
    /// Multiply. Two number arguments.
    Mul,
    /// Negate. One number argument.
    Neg,
    /// Round to the nearest integer. One number argument.
    Round,
    /// Sine. One number argument.
    Sin,
    /// Square root. One number argument.
    Sqrt,
    /// Subtract. Two number arguments.
    Sub,
    /// Remove fractional part. One number argument.
    Truncate,

    /// Logical bitwise And. Two integer or boolean arguments.
    And,
    /// Bitwise shift left. Negative shifts possible. Two integer arguments.
    Bitshift,
    /// Equals. Any two arguments of the same type.
    Eq,
    /// Constant false.
    False,
    /// Greater than or equal. Two number arguments.
    Ge,
    /// Greater than. Two number arguments.
    Gt,
    /// Less than or equal. Two number arguments.
    Le,
    /// Less than. Two number arguments.
    Lt,
    /// Not equals. Any two arguments of the same type.
    Ne,
    /// Bitwise logical not. One integer or boolean argument.
    Not,
    /// Bitwise logical or. Two integer or boolean arguments.
    Or,
    /// Constant true.
    True,
    /// Bitwise logical exclusive or. Two integer or boolean arguments.
    Xor,

    /// Conditional. Runs if boolean argument is true.
    If(Vec<PostScriptOp<'a>>),
    /// Conditional. Decides which branch to run depending on boolean argument.
    IfElse(Vec<PostScriptOp<'a>>, Vec<PostScriptOp<'a>>),

    /// Copy the top elements. One integer argument.
    Copy,
    /// Duplicate the top element.
    Dup,
    /// Exchange the two top elements.
    Exch,
    /// Duplicate any element. One integer argument.
    Index,
    /// Discard the top element.
    Pop,
    /// Roll `n` elements up `j` times. Two integer arguments.
    Roll,
}

/// The name of the operator that an operation ends with (none for a number).
pub open spec fn ps_operator(op: PostScriptOp) -> Seq<u8> {
    match op {
        PostScriptOp::Real(_) | PostScriptOp::Integer(_) => Seq::empty(),
        PostScriptOp::Abs => "abs".spec_bytes(),
        PostScriptOp::Add => "add".spec_bytes(),
        PostScriptOp::Atan => "atan".spec_bytes(),
        PostScriptOp::Ceiling => "ceiling".spec_bytes(),
        PostScriptOp::Cos => "cos".spec_bytes(),
        PostScriptOp::Cvi => "cvi".spec_bytes(),
        PostScriptOp::Cvr => "cvr".spec_bytes(),
        PostScriptOp::Div => "div".spec_bytes(),
        PostScriptOp::Exp => "exp".spec_bytes(),
        PostScriptOp::Floor => "floor".spec_bytes(),
        PostScriptOp::Idiv => "idiv".spec_bytes(),
        PostScriptOp::Ln => "ln".spec_bytes(),
        PostScriptOp::Log => "log".spec_bytes(),
        PostScriptOp::Mod => "mod".spec_bytes(),
        PostScriptOp::Mul => "mul".spec_bytes(),
        PostScriptOp::Neg => "neg".spec_bytes(),
        PostScriptOp::Round => "round".spec_bytes(),
        PostScriptOp::Sin => "sin".spec_bytes(),
        PostScriptOp::Sqrt => "sqrt".spec_bytes(),
        PostScriptOp::Sub => "sub".spec_bytes(),
        PostScriptOp::Truncate => "truncate".spec_bytes(),
        PostScriptOp::And => "and".spec_bytes(),
        PostScriptOp::Bitshift => "bitshift".spec_bytes(),
        PostScriptOp::Eq => "eq".spec_bytes(),
        PostScriptOp::False => "false".spec_bytes(),
        PostScriptOp::Ge => "ge".spec_bytes(),
        PostScriptOp::Gt => "gt".spec_bytes(),
        PostScriptOp::Le => "le".spec_bytes(),
        PostScriptOp::Lt => "lt".spec_bytes(),
        PostScriptOp::Ne => "ne".spec_bytes(),
        PostScriptOp::Not => "not".spec_bytes(),
        PostScriptOp::Or => "or".spec_bytes(),
        PostScriptOp::True => "true".spec_bytes(),
        PostScriptOp::Xor => "xor".spec_bytes(),
        PostScriptOp::If(_) => "if".spec_bytes(),
        PostScriptOp::IfElse(_, _) => "ifelse".spec_bytes(),
        PostScriptOp::Copy => "copy".spec_bytes(),
        PostScriptOp::Dup => "dup".spec_bytes(),
        PostScriptOp::Exch => "exch".spec_bytes(),
        PostScriptOp::Index => "index".spec_bytes(),
        PostScriptOp::Pop => "pop".spec_bytes(),
        PostScriptOp::Roll => "roll".spec_bytes(),
    }
}

/// The text of a real operand: its decimal text, with `.0` added where the
/// text has no decimal point, since PostScript tells reals from integers by
/// it.
pub open spec fn ps_real_bytes(text: Seq<u8>) -> Seq<u8> {
    if text.contains(DOT) {
        text
    } else {
        text + seq![DOT, 48u8]
    }
}

/// A block of operations: `{`, then the lines of the operations, each ended
/// by a newline and all of them on a line of their own after the brace when
/// there are several, and `}`.
pub open spec fn ps_block(lines: Seq<u8>, n: nat) -> Seq<u8> {
    seq![LBRACE] + (if n > 1 {
        seq![NEWLINE]
    } else {
        Seq::empty()
    }) + (if n == 1 {
        lines.drop_last()
    } else {
        lines
    }) + seq![RBRACE]
}

/// The bytes of one operation.
pub open spec fn ps_op_bytes(op: PostScriptOp) -> Seq<u8>
    decreases op,
{
    match op {
        PostScriptOp::Real(r) => ps_real_bytes(r.0@),
        PostScriptOp::Integer(i) => decimal(i as int),
        PostScriptOp::If(ops) => ps_block(ps_lines(ops@), ops@.len()) + seq![NEWLINE] + ps_operator(op),
        PostScriptOp::IfElse(a, b) => ps_block(ps_lines(a@), a@.len()) + seq![NEWLINE] + ps_block(
            ps_lines(b@),
            b@.len(),
        ) + seq![NEWLINE] + ps_operator(op),
        _ => ps_operator(op),
    }
}

/// The operations one after the other, each followed by a newline.
pub open spec fn ps_lines(ops: Seq<PostScriptOp>) -> Seq<u8>
    decreases ops,
{
    if ops.len() == 0 {
        Seq::empty()
    } else {
        ps_lines(ops.drop_last()) + ps_op_bytes(ops.last()) + seq![NEWLINE]
    }
}

/// The code of a PostScript function made of the operations.
pub open spec fn ps_code(ops: Seq<PostScriptOp>) -> Seq<u8> {
    ps_block(ps_lines(ops), ops.len())
}

/// Whether the text holds a decimal point.
fn contains_dot(text: &[u8]) -> (r: bool)
    ensures
        r == text@.contains(DOT),
{
    let mut i: usize = 0;
    while i < text.len()
        invariant
            i <= text@.len(),
            forall|j: int| 0 <= j < i ==> text@[j] != DOT,
        decreases text@.len() - i,
    {
        if text[i] == DOT {
            assert(text@[i as int] == DOT);
            return true;
        }
        i = i + 1;
    }
    false
}

impl<'a> PostScriptOp<'a> {
    /// Encode a slice of operations into a byte stream.
    pub fn encode(ops: &[Self]) -> (r: Vec<u8>)
        ensures
            r@ == ps_code(ops@),
    {
        let mut buf = Vec::new();
        Self::write_slice(ops, &mut buf);
        assert(buf@ =~= ps_code(ops@));
        buf
    }

    fn write_slice(ops: &[Self], buf: &mut Vec<u8>)
        ensures
            final(buf)@ == old(buf)@ + ps_code(ops@),
        decreases ops@,
    {
        let ghost start = buf@;
        buf.push(LBRACE);
        if ops.len() > 1 {
            buf.push(NEWLINE);
        }
        let ghost open = buf@;
        let mut i: usize = 0;
        while i < ops.len()
            invariant
                i <= ops@.len(),
                buf@ == open + ps_lines(ops@.subrange(0, i as int)),
            decreases ops@.len() - i,
        {
            assert(ops@.subrange(0, i + 1).drop_last() =~= ops@.subrange(0, i as int));
            proof {
                assert(decreases_to!(ops@ => ops@[i as int]));
            }
            ops[i].write(buf);
            buf.push(NEWLINE);
            i = i + 1;
        }
        assert(ops@.subrange(0, i as int) =~= ops@);
        let ghost lines = ps_lines(ops@);
        if ops.len() == 1 {
            buf.pop();
            assert(buf@ =~= open + lines.drop_last());
        }
        buf.push(RBRACE);
        assert(buf@ =~= start + ps_code(ops@));
    }

    fn write(&self, buf: &mut Vec<u8>)
        ensures
            final(buf)@ == old(buf)@ + ps_op_bytes(*self),
        decreases *self,
    {
        let ghost start = buf@;
        match self {
            Self::Real(r) => {
                let text = r.0;
                buf.extend_from_slice(text);
                if !contains_dot(text) {
                    buf.push(DOT);
                    buf.push(48);
                }
                assert(buf@ =~= start + ps_op_bytes(*self));
            },
            Self::Integer(i) => {
                let digits = itoa_decimal(*i);
                buf.extend_from_slice(digits.as_slice());
                assert(buf@ =~= start + ps_op_bytes(*self));
            },
            Self::If(ops) => {
                Self::write_slice(ops.as_slice(), buf);
                buf.push(NEWLINE);
                buf.extend_from_slice(self.operator());
                assert(buf@ =~= start + ps_op_bytes(*self));
            },
            Self::IfElse(ops1, ops2) => {
                Self::write_slice(ops1.as_slice(), buf);
                buf.push(NEWLINE);
                Self::write_slice(ops2.as_slice(), buf);
                buf.push(NEWLINE);
                buf.extend_from_slice(self.operator());
                assert(buf@ =~= start + ps_op_bytes(*self));
            },
            _ => {
                buf.extend_from_slice(self.operator());
                assert(buf@ =~= start + ps_op_bytes(*self));
            },
        }
    }

    /// The name of the operator that the operation ends with.
    fn operator(&self) -> (r: &'static [u8])
        ensures
            r@ == ps_operator(*self),
    {
        match self {
            Self::Real(_) | Self::Integer(_) => &[],
            Self::Abs => "abs".as_bytes(),
            Self::Add => "add".as_bytes(),
            Self::Atan => "atan".as_bytes(),
            Self::Ceiling => "ceiling".as_bytes(),
            Self::Cos => "cos".as_bytes(),
            Self::Cvi => "cvi".as_bytes(),
            Self::Cvr => "cvr".as_bytes(),
            Self::Div => "div".as_bytes(),
            Self::Exp => "exp".as_bytes(),
            Self::Floor => "floor".as_bytes(),
            Self::Idiv => "idiv".as_bytes(),
            Self::Ln => "ln".as_bytes(),
            Self::Log => "log".as_bytes(),
            Self::Mod => "mod".as_bytes(),
            Self::Mul => "mul".as_bytes(),
            Self::Neg => "neg".as_bytes(),
            Self::Round => "round".as_bytes(),
            Self::Sin => "sin".as_bytes(),
            Self::Sqrt => "sqrt".as_bytes(),
            Self::Sub => "sub".as_bytes(),
            Self::Truncate => "truncate".as_bytes(),
            Self::And => "and".as_bytes(),
            Self::Bitshift => "bitshift".as_bytes(),
            Self::Eq => "eq".as_bytes(),
            Self::False => "false".as_bytes(),
            Self::Ge => "ge".as_bytes(),
            Self::Gt => "gt".as_bytes(),
            Self::Le => "le".as_bytes(),
            Self::Lt => "lt".as_bytes(),
            Self::Ne => "ne".as_bytes(),
            Self::Not => "not".as_bytes(),
            Self::Or => "or".as_bytes(),
            Self::True => "true".as_bytes(),
            Self::Xor => "xor".as_bytes(),
            Self::If(_) => "if".as_bytes(),
            Self::IfElse(_, _) => "ifelse".as_bytes(),
            Self::Copy => "copy".as_bytes(),
            Self::Dup => "dup".as_bytes(),
            Self::Exch => "exch".as_bytes(),
            Self::Index => "index".as_bytes(),
            Self::Pop => "pop".as_bytes(),
            Self::Roll => "roll".as_bytes(),
        }
    }
}


/// The numbers under which the values of [`FunctionType`] are written, as PDF
/// defines them.
pub proof fn lemma_function_type_numbers()
    ensures
        FunctionType::Sampled.spec_int() == 0,
        FunctionType::Exponential.spec_int() == 2,
        FunctionType::Stitching.spec_int() == 3,
        FunctionType::PostScript.spec_int() == 4,
{
}

/// The numbers under which the values of [`InterpolationOrder`] are written, as PDF
/// defines them.
pub proof fn lemma_interpolation_order_numbers()
    ensures
        InterpolationOrder::Linear.spec_int() == 1,
        InterpolationOrder::Cubic.spec_int() == 3,
{
}


/// Each PostScript operation ends with its own operator keyword, as the
/// PostScript language defines it.
pub proof fn lemma_ps_operator_keywords<'a>(ops: Vec<PostScriptOp<'a>>, ops2: Vec<PostScriptOp<'a>>)
    ensures
        ps_operator(PostScriptOp::Abs) == "abs".spec_bytes(),
        ps_operator(PostScriptOp::Add) == "add".spec_bytes(),
        ps_operator(PostScriptOp::Atan) == "atan".spec_bytes(),
        ps_operator(PostScriptOp::Ceiling) == "ceiling".spec_bytes(),
        ps_operator(PostScriptOp::Cos) == "cos".spec_bytes(),
        ps_operator(PostScriptOp::Cvi) == "cvi".spec_bytes(),
        ps_operator(PostScriptOp::Cvr) == "cvr".spec_bytes(),
        ps_operator(PostScriptOp::Div) == "div".spec_bytes(),
        ps_operator(PostScriptOp::Exp) == "exp".spec_bytes(),
        ps_operator(PostScriptOp::Floor) == "floor".spec_bytes(),
        ps_operator(PostScriptOp::Idiv) == "idiv".spec_bytes(),
        ps_operator(PostScriptOp::Ln) == "ln".spec_bytes(),
        ps_operator(PostScriptOp::Log) == "log".spec_bytes(),
        ps_operator(PostScriptOp::Mod) == "mod".spec_bytes(),
        ps_operator(PostScriptOp::Mul) == "mul".spec_bytes(),
        ps_operator(PostScriptOp::Neg) == "neg".spec_bytes(),
        ps_operator(PostScriptOp::Round) == "round".spec_bytes(),
        ps_operator(PostScriptOp::Sin) == "sin".spec_bytes(),
        ps_operator(PostScriptOp::Sqrt) == "sqrt".spec_bytes(),
        ps_operator(PostScriptOp::Sub) == "sub".spec_bytes(),
        ps_operator(PostScriptOp::Truncate) == "truncate".spec_bytes(),
        ps_operator(PostScriptOp::And) == "and".spec_bytes(),
        ps_operator(PostScriptOp::Bitshift) == "bitshift".spec_bytes(),
        ps_operator(PostScriptOp::Eq) == "eq".spec_bytes(),
        ps_operator(PostScriptOp::False) == "false".spec_bytes(),
        ps_operator(PostScriptOp::Ge) == "ge".spec_bytes(),
        ps_operator(PostScriptOp::Gt) == "gt".spec_bytes(),
        ps_operator(PostScriptOp::Le) == "le".spec_bytes(),
        ps_operator(PostScriptOp::Lt) == "lt".spec_bytes(),
        ps_operator(PostScriptOp::Ne) == "ne".spec_bytes(),
        ps_operator(PostScriptOp::Not) == "not".spec_bytes(),
        ps_operator(PostScriptOp::Or) == "or".spec_bytes(),
        ps_operator(PostScriptOp::True) == "true".spec_bytes(),
        ps_operator(PostScriptOp::Xor) == "xor".spec_bytes(),
        ps_operator(PostScriptOp::If(ops)) == "if".spec_bytes(),
        ps_operator(PostScriptOp::IfElse(ops, ops2)) == "ifelse".spec_bytes(),
        ps_operator(PostScriptOp::Copy) == "copy".spec_bytes(),
        ps_operator(PostScriptOp::Dup) == "dup".spec_bytes(),
        ps_operator(PostScriptOp::Exch) == "exch".spec_bytes(),
        ps_operator(PostScriptOp::Index) == "index".spec_bytes(),
        ps_operator(PostScriptOp::Pop) == "pop".spec_bytes(),
        ps_operator(PostScriptOp::Roll) == "roll".spec_bytes(),
{
}

} // verus!
