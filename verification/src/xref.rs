use vstd::prelude::*;

use vstd::string::*;

use crate::buf::{
    Buf, decimal, flat_map, lemma_flat_map_step, max, padded_decimal,
};
use crate::object::{NEWLINE, Ref, SPACE};

verus! {

// ---------------------------------------------------------------------------
// The cross-reference table as a mathematical object.
// ---------------------------------------------------------------------------

/// One entry of a cross-reference table.
pub enum XRefEntry {
    /// An unused object number, linked to the next free one.
    Free { next: int, generation: int },
    /// An object that starts at the given byte offset.
    Occupied { offset: int, generation: int },
}

/// Whether some object in `offsets` has the number `id`.
pub open spec fn has_id(offsets: Seq<(Ref, usize)>, id: int) -> bool {
    exists|i: int| 0 <= i < offsets.len() && (#[trigger] offsets[i]).0.id() == id
}

/// Whether no object number occurs twice.
pub open spec fn distinct_ids(offsets: Seq<(Ref, usize)>) -> bool {
    forall|i: int, j: int|
        0 <= i < offsets.len() && 0 <= j < offsets.len() && i != j ==> (#[trigger] offsets[i]).0.id()
            != (#[trigger] offsets[j]).0.id()
}

/// Whether the object numbers strictly increase.
pub open spec fn sorted_ids(offsets: Seq<(Ref, usize)>) -> bool {
    forall|i: int, j: int|
        0 <= i < j < offsets.len() ==> (#[trigger] offsets[i]).0.id() < (#[trigger] offsets[j]).0.id()
}

/// The byte offset of the object with number `id`.
pub open spec fn offset_of(offsets: Seq<(Ref, usize)>, id: int) -> int {
    offsets[choose|i: int| 0 <= i < offsets.len() && (#[trigger] offsets[i]).0.id() == id].1 as int
}

/// The largest object number, or zero when there is none.
pub open spec fn max_id(offsets: Seq<(Ref, usize)>) -> int
    decreases offsets.len(),
{
    if offsets.len() == 0 {
        0
    } else {
        max(max_id(offsets.drop_last()), offsets.last().0.id())
    }
}

/// The number of entries of the cross-reference table: one more than the
/// largest object number, since entry zero is always there.
pub open spec fn table_len(offsets: Seq<(Ref, usize)>) -> int {
    1 + max_id(offsets)
}

/// The first number from `j` on that no object uses, or `len` if there is
/// none below `len`.
pub open spec fn next_free_from(offsets: Seq<(Ref, usize)>, j: int, len: int) -> int
    decreases len - j,
{
    if j >= len {
        len
    } else if has_id(offsets, j) {
        next_free_from(offsets, j + 1, len)
    } else {
        j
    }
}

/// The entry for object number `k`: used numbers point to their object,
/// free numbers form a list that links each free number to the next one and
/// the last one back to zero. Entry zero has generation 65535, all others
/// generation 0.
pub open spec fn xref_entry(offsets: Seq<(Ref, usize)>, k: int) -> XRefEntry {
    let len = table_len(offsets);
    if has_id(offsets, k) {
        XRefEntry::Occupied { offset: offset_of(offsets, k), generation: 0 }
    } else {
        XRefEntry::Free {
            next: next_free_from(offsets, k + 1, len) % len,
            generation: if k == 0 {
                65535
            } else {
                0
            },
        }
    }
}

/// The cross-reference table of a set of objects: one entry for every
/// number from zero to the largest object number.
pub open spec fn xref_entries(offsets: Seq<(Ref, usize)>) -> Seq<XRefEntry> {
    Seq::new(table_len(offsets) as nat, |k: int| xref_entry(offsets, k))
}

/// `a` and `b` hold the same (number, offset) pairs.
pub open spec fn same_pairs(a: Seq<(Ref, usize)>, b: Seq<(Ref, usize)>) -> bool {
    forall|p: (Ref, usize)| #[trigger] a.contains(p) <==> b.contains(p)
}

// ---------------------------------------------------------------------------
// Lemmas.
// ---------------------------------------------------------------------------

/// The largest number is at least every number, and is one of them unless
/// there is none.
pub proof fn lemma_max_id(offsets: Seq<(Ref, usize)>)
    ensures
        forall|i: int| 0 <= i < offsets.len() ==> (#[trigger] offsets[i]).0.id() <= max_id(offsets),
        offsets.len() == 0 ==> max_id(offsets) == 0,
        offsets.len() > 0 ==> has_id(offsets, max_id(offsets)) || max_id(offsets) == 0,
        max_id(offsets) >= 0,
    decreases offsets.len(),
{
    if offsets.len() > 0 {
        let s = offsets.drop_last();
        lemma_max_id(s);
        assert forall|i: int| 0 <= i < offsets.len() implies (#[trigger] offsets[i]).0.id()
            <= max_id(offsets) by {
            if i < s.len() {
                assert(offsets[i] == s[i]);
            }
        }
        if max_id(offsets) == offsets.last().0.id() {
            assert(offsets[offsets.len() - 1] == offsets.last());
        } else if max_id(s) > 0 {
            let w = choose|i: int| 0 <= i < s.len() && (#[trigger] s[i]).0.id() == max_id(s);
            assert(offsets[w] == s[w]);
        }
    }
}

/// For sorted numbers, the largest is the last one.
pub proof fn lemma_sorted_max_id(offsets: Seq<(Ref, usize)>)
    requires
        sorted_ids(offsets),
        offsets.len() > 0,
        offsets.last().0.id() >= 0,
    ensures
        max_id(offsets) == offsets.last().0.id(),
{
    lemma_max_id(offsets);
    lemma_max_id(offsets.drop_last());
    assert(offsets[offsets.len() - 1] == offsets.last());
    if offsets.len() > 1 {
        assert(offsets.drop_last().last() == offsets[offsets.len() - 2]);
    }
    if max_id(offsets.drop_last()) > offsets.last().0.id() {
        let w = choose|i: int|
            0 <= i < offsets.drop_last().len() && (#[trigger] offsets.drop_last()[i]).0.id()
                == max_id(offsets.drop_last());
        assert(offsets.drop_last()[w] == offsets[w]);
    }
}

/// Two sequences with the same pairs and no repeated numbers have the same
/// cross-reference table.
pub proof fn lemma_same_pairs_same_entries(a: Seq<(Ref, usize)>, b: Seq<(Ref, usize)>)
    requires
        same_pairs(a, b),
        distinct_ids(a),
        distinct_ids(b),
    ensures
        xref_entries(a) == xref_entries(b),
{
    assert forall|id: int| has_id(a, id) <==> has_id(b, id) by {
        if has_id(a, id) {
            let i = choose|i: int| 0 <= i < a.len() && (#[trigger] a[i]).0.id() == id;
            assert(a.contains(a[i]));
            assert(b.contains(a[i]));
        }
        if has_id(b, id) {
            let i = choose|i: int| 0 <= i < b.len() && (#[trigger] b[i]).0.id() == id;
            assert(b.contains(b[i]));
            assert(a.contains(b[i]));
        }
    }
    assert forall|id: int| has_id(a, id) implies offset_of(a, id) == offset_of(b, id) by {
        let i = choose|i: int| 0 <= i < a.len() && (#[trigger] a[i]).0.id() == id;
        assert(a.contains(a[i]));
        assert(b.contains(a[i]));
        let j = choose|j: int| 0 <= j < b.len() && b[j] == a[i];
        let j2 = choose|j: int| 0 <= j < b.len() && (#[trigger] b[j]).0.id() == id;
        assert(j == j2);
    }
    lemma_max_id(a);
    lemma_max_id(b);
    if max_id(a) < max_id(b) {
        assert(has_id(b, max_id(b)));
        let j = choose|j: int| 0 <= j < b.len() && (#[trigger] b[j]).0.id() == max_id(b);
        assert(has_id(a, max_id(b)));
        let i = choose|i: int| 0 <= i < a.len() && (#[trigger] a[i]).0.id() == max_id(b);
        assert(a[i].0.id() <= max_id(a));
    }
    if max_id(b) < max_id(a) {
        assert(has_id(a, max_id(a)));
        assert(has_id(b, max_id(a)));
        let i = choose|i: int| 0 <= i < b.len() && (#[trigger] b[i]).0.id() == max_id(a);
        assert(b[i].0.id() <= max_id(b));
    }
    assert(max_id(a) == max_id(b));
    let len = table_len(a);
    assert forall|j: int| j <= len implies #[trigger] next_free_from(a, j, len) == next_free_from(
        b,
        j,
        len,
    ) by {
        lemma_next_free_same(a, b, j, len);
    }
    assert(xref_entries(a) =~= xref_entries(b));
}

proof fn lemma_next_free_same(a: Seq<(Ref, usize)>, b: Seq<(Ref, usize)>, j: int, len: int)
    requires
        forall|id: int| has_id(a, id) <==> has_id(b, id),
    ensures
        next_free_from(a, j, len) == next_free_from(b, j, len),
    decreases len - j,
{
    if j < len {
        lemma_next_free_same(a, b, j + 1, len);
    }
}

/// When no number of `offsets` lies in `j..k`, the next free number from `j`
/// is `j` (if `j` is below `len`).
pub proof fn lemma_next_free_unused(offsets: Seq<(Ref, usize)>, j: int, len: int)
    requires
        j < len,
        !has_id(offsets, j),
    ensures
        next_free_from(offsets, j, len) == j,
{
}

/// A used number is skipped by the free list.
pub proof fn lemma_next_free_used(offsets: Seq<(Ref, usize)>, j: int, len: int)
    requires
        j < len,
        has_id(offsets, j),
    ensures
        next_free_from(offsets, j, len) == next_free_from(offsets, j + 1, len),
{
}

// ---------------------------------------------------------------------------
// Sorting the objects by number.
// ---------------------------------------------------------------------------

/// Sort the objects by their number.
pub(crate) fn sort_by_id(offsets: Vec<(Ref, usize)>) -> (r: Vec<(Ref, usize)>)
    requires
        distinct_ids(offsets@),
    ensures
        sorted_ids(r@),
        same_pairs(r@, offsets@),
        distinct_ids(r@),
        r@.len() == offsets@.len(),
{
    let mut sorted: Vec<(Ref, usize)> = Vec::new();
    let mut i: usize = 0;
    while i < offsets.len()
        invariant
            i <= offsets@.len(),
            distinct_ids(offsets@),
            sorted@.len() == i,
            sorted_ids(sorted@),
            forall|p: (Ref, usize)| #[trigger] sorted@.contains(p) <==> offsets@.take(i as int).contains(p),
        decreases offsets@.len() - i,
    {
        let e = offsets[i];
        let id = e.0.get();
        // Find the first position whose number is larger.
        let mut pos: usize = 0;
        while pos < sorted.len() && sorted[pos].0.get() < id
            invariant
                pos <= sorted@.len(),
                sorted_ids(sorted@),
                id == e.0.id(),
                forall|k: int| 0 <= k < pos ==> (#[trigger] sorted@[k]).0.id() < id,
            decreases sorted@.len() - pos,
        {
            pos = pos + 1;
        }
        proof {
            // No element of `sorted` has the number of `e`.
            assert forall|k: int| 0 <= k < sorted@.len() implies (#[trigger] sorted@[k]).0.id()
                != id by {
                assert(sorted@.contains(sorted@[k]));
                assert(offsets@.take(i as int).contains(sorted@[k]));
                let t = offsets@.take(i as int);
                let w = choose|w: int| 0 <= w < t.len() && t[w] == sorted@[k];
                assert(offsets@[w] == sorted@[k]);
            }
        }
        let ghost old_sorted = sorted@;
        sorted.insert(pos, e);
        proof {
            old_sorted.insert_ensures(pos as int, e);
            assert(pos < old_sorted.len() ==> old_sorted[pos as int].0.id() > id);
            assert forall|a: int, b: int|
                0 <= a < b < sorted@.len() implies (#[trigger] sorted@[a]).0.id() < (
                #[trigger] sorted@[b]).0.id() by {
                if b < pos {
                } else if b == pos {
                } else if a < pos {
                    assert(sorted@[b] == old_sorted[b - 1]);
                    assert(old_sorted[pos as int].0.id() <= old_sorted[b - 1].0.id());
                } else if a == pos {
                    assert(sorted@[b] == old_sorted[b - 1]);
                    assert(old_sorted[pos as int].0.id() <= old_sorted[b - 1].0.id());
                } else {
                    assert(sorted@[a] == old_sorted[a - 1]);
                    assert(sorted@[b] == old_sorted[b - 1]);
                }
            }
            assert(offsets@.take(i + 1) =~= offsets@.take(i as int).push(e));
            assert forall|p: (Ref, usize)| #[trigger] sorted@.contains(p) <==> offsets@.take(
                i + 1,
            ).contains(p) by {
                if sorted@.contains(p) {
                    let k = choose|k: int| 0 <= k < sorted@.len() && sorted@[k] == p;
                    let t = offsets@.take(i as int);
                    let t1 = offsets@.take(i + 1);
                    if k == pos {
                        assert(t1[i as int] == p);
                    } else {
                        if k < pos {
                            assert(old_sorted[k] == p);
                        } else {
                            assert(sorted@[k] == old_sorted[k - 1]);
                        }
                        assert(old_sorted.contains(p));
                        assert(t.contains(p));
                        let w = choose|w: int| 0 <= w < t.len() && t[w] == p;
                        assert(t1[w] == p);
                    }
                }
                if offsets@.take(i + 1).contains(p) {
                    let t = offsets@.take(i + 1);
                    let k = choose|k: int| 0 <= k < t.len() && t[k] == p;
                    if k < i {
                        assert(offsets@.take(i as int)[k] == p);
                        assert(offsets@.take(i as int).contains(p));
                        assert(old_sorted.contains(p));
                        let m = choose|m: int| 0 <= m < old_sorted.len() && old_sorted[m] == p;
                        if m < pos {
                            assert(sorted@[m] == p);
                        } else {
                            assert(sorted@[m + 1] == p);
                        }
                    } else {
                        assert(sorted@[pos as int] == p);
                    }
                }
            }
        }
        i = i + 1;
    }
    proof {
        assert(offsets@.take(offsets@.len() as int) =~= offsets@);
        assert forall|a: int, b: int|
            0 <= a < sorted@.len() && 0 <= b < sorted@.len() && a != b implies (
            #[trigger] sorted@[a]).0.id() != (#[trigger] sorted@[b]).0.id() by {
            if a < b {
            } else {
            }
        }
    }
    sorted
}

// ---------------------------------------------------------------------------
// Writing the table.
// ---------------------------------------------------------------------------

/// The first line of a cross-reference table with `len` entries.
pub open spec fn plain_prologue(len: int) -> Seq<u8> {
    "xref\n0 ".spec_bytes() + decimal(len) + seq![NEWLINE]
}

/// One line of a cross-reference table: the ten-digit offset (or next free
/// number), the five-digit generation and the entry's kind.
pub open spec fn plain_entry_bytes(e: XRefEntry) -> Seq<u8> {
    match e {
        XRefEntry::Free { next, generation } => padded_decimal(next as nat, 10) + seq![SPACE]
            + padded_decimal(generation as nat, 5) + " f\r\n".spec_bytes(),
        XRefEntry::Occupied { offset, generation } => padded_decimal(offset as nat, 10) + seq![
            SPACE,
        ] + padded_decimal(generation as nat, 5) + " n\r\n".spec_bytes(),
    }
}

/// A cross-reference table with the given entries.
pub open spec fn plain_table(entries: Seq<XRefEntry>, len: int) -> Seq<u8> {
    plain_prologue(len) + flat_map(entries, |e: XRefEntry| plain_entry_bytes(e))
}

/// The low `n` bytes of `v`, most significant first.
pub open spec fn be_bytes(v: nat, n: nat) -> Seq<u8>
    decreases n,
{
    if n == 0 {
        Seq::empty()
    } else {
        be_bytes(v / 256, (n - 1) as nat).push((v % 256) as u8)
    }
}

/// One entry of a cross-reference stream: its kind (0 for free, 1 for used),
/// the offset (or next free number) in `width` bytes and the generation in
/// two bytes, all big-endian.
pub open spec fn stream_entry_bytes(e: XRefEntry, width: nat) -> Seq<u8> {
    match e {
        XRefEntry::Free { next, generation } => seq![0u8] + be_bytes(next as nat, width) + be_bytes(
            generation as nat,
            2,
        ),
        XRefEntry::Occupied { offset, generation } => seq![1u8] + be_bytes(offset as nat, width)
            + be_bytes(generation as nat, 2),
    }
}

/// The data of a cross-reference stream with the given entries.
pub open spec fn stream_table(entries: Seq<XRefEntry>, width: nat) -> Seq<u8> {
    flat_map(entries, |e: XRefEntry| stream_entry_bytes(e, width))
}

/// The number of bytes needed to write `v` big-endian without leading
/// zeros (none for zero).
pub open spec fn byte_width(v: nat) -> nat
    decreases v,
{
    if v == 0 {
        0
    } else {
        1 + byte_width(v / 256)
    }
}

/// Determine the number of bytes needed for the offsets of a cross-reference
/// stream whose largest offset is `offset`.
pub fn determine_field_width(offset: usize) -> (r: u32)
    ensures
        r == byte_width(offset as nat),
        r <= 8,
{
    let mut w: u32 = 0;
    let mut v = offset;
    proof {
        lemma_byte_width_bound(offset as nat);
    }
    while v > 0
        invariant
            w + byte_width(v as nat) == byte_width(offset as nat),
            byte_width(offset as nat) <= 8,
        decreases v,
    {
        v = v / 256;
        w = w + 1;
    }
    w
}

/// Numbers that fit a machine word need at most eight bytes.
proof fn lemma_byte_width_bound(v: nat)
    requires
        v <= u64::MAX,
    ensures
        byte_width(v) <= 8,
{
    reveal_with_fuel(pow256, 9);
    assert(pow256(8) == 18446744073709551616);
    lemma_byte_width_pow(v, 8);
}

/// A number below `256^k` needs at most `k` bytes.
proof fn lemma_byte_width_pow(v: nat, k: nat)
    requires
        v < pow256(k),
    ensures
        byte_width(v) <= k,
    decreases k,
{
    if v > 0 {
        if k == 0 {
            assert(pow256(0) == 1);
        } else {
            assert(v / 256 < pow256((k - 1) as nat));
            lemma_byte_width_pow(v / 256, (k - 1) as nat);
        }
    }
}

/// 256 to the power `k`.
pub open spec fn pow256(k: nat) -> nat
    decreases k,
{
    if k == 0 {
        1
    } else {
        256 * pow256((k - 1) as nat)
    }
}

/// A sink for the entries of a cross-reference table.
pub(crate) trait XRefWriter {
    /// The entries written so far.
    spec fn spec_entries(&self) -> Seq<XRefEntry>;

    /// The table length given to [`XRefWriter::prologue`], once it was called.
    spec fn spec_prologue(&self) -> Option<int>;

    /// The writer's bytes match its entries.
    spec fn spec_wf(&self) -> bool;

    /// What the writer's output holds before the table.
    spec fn spec_frame(&self) -> Seq<u8>;

    /// The number of bytes the writer gives each offset, where it has one.
    spec fn spec_width(&self) -> nat;

    fn prologue(&mut self, xref_len: i32)
        requires
            old(self).spec_wf(),
            old(self).spec_entries().len() == 0,
            old(self).spec_prologue() is None,
            xref_len > 0,
        ensures
            final(self).spec_wf(),
            final(self).spec_entries() == old(self).spec_entries(),
            final(self).spec_prologue() == Some(xref_len as int),
            final(self).spec_frame() == old(self).spec_frame(),
            final(self).spec_width() == old(self).spec_width(),
    ;

    fn write_free_entry(&mut self, offset: usize, gen_number: u16)
        requires
            old(self).spec_wf(),
            old(self).spec_prologue() is Some,
        ensures
            final(self).spec_wf(),
            final(self).spec_entries() == old(self).spec_entries().push(
                XRefEntry::Free { next: offset as int, generation: gen_number as int },
            ),
            final(self).spec_prologue() == old(self).spec_prologue(),
            final(self).spec_frame() == old(self).spec_frame(),
            final(self).spec_width() == old(self).spec_width(),
    ;

    fn write_occupied_entry(&mut self, offset: usize, gen_number: u16)
        requires
            old(self).spec_wf(),
            old(self).spec_prologue() is Some,
        ensures
            final(self).spec_wf(),
            final(self).spec_entries() == old(self).spec_entries().push(
                XRefEntry::Occupied { offset: offset as int, generation: gen_number as int },
            ),
            final(self).spec_prologue() == old(self).spec_prologue(),
            final(self).spec_frame() == old(self).spec_frame(),
            final(self).spec_width() == old(self).spec_width(),
    ;
}

/// Writes the entries of a cross-reference stream.
pub(crate) struct XRefStreamWriter {
    pub(crate) buf: Vec<u8>,
    pub(crate) field_width: u32,
    pub(crate) entries: Ghost<Seq<XRefEntry>>,
    pub(crate) prologue: Ghost<Option<int>>,
}

/// Append the low `n` bytes of `v`, most significant first.
fn push_be(buf: &mut Vec<u8>, v: u64, n: u32)
    ensures
        final(buf)@ == old(buf)@ + be_bytes(v as nat, n as nat),
    decreases n,
{
    if n > 0 {
        push_be(buf, v / 256, n - 1);
        buf.push((v % 256) as u8);
        assert(buf@ =~= old(buf)@ + be_bytes(v as nat, n as nat));
    } else {
        assert(buf@ =~= old(buf)@ + be_bytes(v as nat, n as nat));
    }
}

impl XRefStreamWriter {
    pub(crate) fn new(field_width: u32) -> (r: Self)
        requires
            field_width <= 8,
        ensures
            r.spec_wf(),
            r.spec_entries() == Seq::<XRefEntry>::empty(),
            r.spec_prologue() is None,
            r.field_width == field_width,
    {
        let r = Self {
            buf: Vec::new(),
            field_width,
            entries: Ghost(Seq::empty()),
            prologue: Ghost(None),
        };
        assert(r.buf@ =~= stream_table(r.entries@, field_width as nat));
        r
    }

    pub(crate) fn write(&mut self, entry_type: u8, offset: usize, gen_number: u16)
        requires
            old(self).field_width <= 8,
        ensures
            final(self).buf@ == old(self).buf@ + seq![entry_type] + be_bytes(
                offset as nat,
                old(self).field_width as nat,
            ) + be_bytes(gen_number as nat, 2),
            final(self).field_width == old(self).field_width,
            final(self).entries == old(self).entries,
            final(self).prologue == old(self).prologue,
    {
        self.buf.push(entry_type);
        push_be(&mut self.buf, offset as u64, self.field_width);
        push_be(&mut self.buf, gen_number as u64, 2);
        assert(self.buf@ =~= old(self).buf@ + seq![entry_type] + be_bytes(
            offset as nat,
            old(self).field_width as nat,
        ) + be_bytes(gen_number as nat, 2));
    }
}

impl XRefWriter for XRefStreamWriter {
    open spec fn spec_entries(&self) -> Seq<XRefEntry> {
        self.entries@
    }

    open spec fn spec_prologue(&self) -> Option<int> {
        self.prologue@
    }

    open spec fn spec_frame(&self) -> Seq<u8> {
        Seq::empty()
    }

    open spec fn spec_width(&self) -> nat {
        self.field_width as nat
    }

    open spec fn spec_wf(&self) -> bool {
        &&& self.field_width <= 8
        &&& self.buf@ == stream_table(self.entries@, self.field_width as nat)
    }

    fn prologue(&mut self, xref_len: i32) {
        self.prologue = Ghost(Some(xref_len as int));
    }

    fn write_free_entry(&mut self, offset: usize, gen_number: u16) {
        let ghost e = XRefEntry::Free { next: offset as int, generation: gen_number as int };
        proof {
            lemma_flat_map_step(
                self.entries@.push(e),
                self.entries@.len() as int,
                |e: XRefEntry| stream_entry_bytes(e, self.field_width as nat),
            );
            assert(self.entries@.push(e).take(self.entries@.len() as int) =~= self.entries@);
            assert(self.entries@.push(e).take(self.entries@.len() as int + 1) =~= self.entries@.push(e));
        }
        self.write(0, offset, gen_number);
        self.entries = Ghost(self.entries@.push(e));
        assert(self.buf@ =~= stream_table(self.entries@, self.field_width as nat));
    }

    fn write_occupied_entry(&mut self, offset: usize, gen_number: u16) {
        let ghost e = XRefEntry::Occupied { offset: offset as int, generation: gen_number as int };
        proof {
            lemma_flat_map_step(
                self.entries@.push(e),
                self.entries@.len() as int,
                |e: XRefEntry| stream_entry_bytes(e, self.field_width as nat),
            );
            assert(self.entries@.push(e).take(self.entries@.len() as int) =~= self.entries@);
            assert(self.entries@.push(e).take(self.entries@.len() as int + 1) =~= self.entries@.push(e));
        }
        self.write(1, offset, gen_number);
        self.entries = Ghost(self.entries@.push(e));
        assert(self.buf@ =~= stream_table(self.entries@, self.field_width as nat));
    }
}

/// Writes a cross-reference table into a buffer.
pub(crate) struct PlainXRefWriter {
    pub(crate) buf: Buf,
    pub(crate) start: Ghost<Seq<u8>>,
    pub(crate) entries: Ghost<Seq<XRefEntry>>,
    pub(crate) prologue: Ghost<Option<int>>,
}

impl PlainXRefWriter {
    pub(crate) fn new(buf: Buf) -> (r: Self)
        ensures
            r.spec_wf(),
            r.spec_entries() == Seq::<XRefEntry>::empty(),
            r.spec_prologue() is None,
            r.start@ == buf@,
            r.buf == buf,
    {
        let ghost start = buf@;
        let r = Self { buf, start: Ghost(start), entries: Ghost(Seq::empty()), prologue: Ghost(None) };
        assert(r.buf@ =~= r.start@);
        r
    }

    /// Give back the buffer that the table was written into.
    pub(crate) fn into_buf(self) -> (r: Buf)
        ensures
            r == self.buf,
    {
        self.buf
    }

    fn write_line(&mut self, offset: usize, gen_number: u16, used: bool)
        ensures
            final(self).buf@ == old(self).buf@ + padded_decimal(offset as nat, 10) + seq![SPACE]
                + padded_decimal(gen_number as nat, 5) + if used {
                " n\r\n".spec_bytes()
            } else {
                " f\r\n".spec_bytes()
            },
            final(self).start == old(self).start,
            final(self).entries == old(self).entries,
            final(self).prologue == old(self).prologue,
            final(self).buf.spec_limits() == old(self).buf.spec_limits(),
    {
        self.buf.push_padded_usize(offset, 10);
        self.buf.push(SPACE);
        self.buf.push_padded_usize(gen_number as usize, 5);
        if used {
            self.buf.extend_slice(" n\r\n".as_bytes());
        } else {
            self.buf.extend_slice(" f\r\n".as_bytes());
        }
    }
}

impl XRefWriter for PlainXRefWriter {
    open spec fn spec_entries(&self) -> Seq<XRefEntry> {
        self.entries@
    }

    open spec fn spec_prologue(&self) -> Option<int> {
        self.prologue@
    }

    open spec fn spec_frame(&self) -> Seq<u8> {
        self.start@
    }

    open spec fn spec_width(&self) -> nat {
        0
    }

    open spec fn spec_wf(&self) -> bool {
        match self.prologue@ {
            None => self.buf@ == self.start@ && self.entries@.len() == 0,
            Some(len) => self.buf@ == self.start@ + plain_table(self.entries@, len),
        }
    }

    fn prologue(&mut self, xref_len: i32) {
        self.buf.extend_slice("xref\n0 ".as_bytes());
        self.buf.push_int(xref_len);
        self.buf.push(NEWLINE);
        self.prologue = Ghost(Some(xref_len as int));
        assert(self.entries@ =~= Seq::<XRefEntry>::empty());
        assert(flat_map(self.entries@, |e: XRefEntry| plain_entry_bytes(e)) =~= Seq::<u8>::empty());
        assert(self.buf@ =~= self.start@ + plain_table(self.entries@, xref_len as int));
    }

    fn write_free_entry(&mut self, offset: usize, gen_number: u16) {
        let ghost e = XRefEntry::Free { next: offset as int, generation: gen_number as int };
        let ghost f = |e: XRefEntry| plain_entry_bytes(e);
        proof {
            lemma_flat_map_step(self.entries@.push(e), self.entries@.len() as int, f);
            assert(self.entries@.push(e).take(self.entries@.len() as int) =~= self.entries@);
            assert(self.entries@.push(e).take(self.entries@.len() as int + 1) =~= self.entries@.push(e));
        }
        self.write_line(offset, gen_number, false);
        self.entries = Ghost(self.entries@.push(e));
        assert(self.buf@ =~= self.start@ + plain_table(self.entries@, self.prologue@->0));
    }

    fn write_occupied_entry(&mut self, offset: usize, gen_number: u16) {
        let ghost e = XRefEntry::Occupied { offset: offset as int, generation: gen_number as int };
        let ghost f = |e: XRefEntry| plain_entry_bytes(e);
        proof {
            lemma_flat_map_step(self.entries@.push(e), self.entries@.len() as int, f);
            assert(self.entries@.push(e).take(self.entries@.len() as int) =~= self.entries@);
            assert(self.entries@.push(e).take(self.entries@.len() as int + 1) =~= self.entries@.push(e));
        }
        self.write_line(offset, gen_number, true);
        self.entries = Ghost(self.entries@.push(e));
        assert(self.buf@ =~= self.start@ + plain_table(self.entries@, self.prologue@->0));
    }
}

/// No number of a sorted sequence lies strictly between the numbers at
/// positions `i - 1` and `i` (or below the first one).
proof fn lemma_sorted_gap(offsets: Seq<(Ref, usize)>, i: int, lo: int, x: int)
    requires
        sorted_ids(offsets),
        0 <= i <= offsets.len(),
        forall|k: int| 0 <= k < i ==> (#[trigger] offsets[k]).0.id() < lo,
        lo <= x,
        i < offsets.len() ==> x < offsets[i].0.id(),
    ensures
        !has_id(offsets, x),
{
    if has_id(offsets, x) {
        let k = choose|k: int| 0 <= k < offsets.len() && (#[trigger] offsets[k]).0.id() == x;
        if k >= i {
            assert(offsets[i].0.id() <= offsets[k].0.id());
        }
    }
}

/// Write the cross-reference entries of the given objects, from number zero
/// to the largest object number, and return the number of entries.
pub(crate) fn write_offsets<W: XRefWriter>(offsets: Vec<(Ref, usize)>, writer: &mut W) -> (r: i32)
    requires
        distinct_ids(offsets@),
        max_id(offsets@) < i32::MAX,
        old(writer).spec_wf(),
        old(writer).spec_entries().len() == 0,
        old(writer).spec_prologue() is None,
    ensures
        r == table_len(offsets@),
        final(writer).spec_wf(),
        final(writer).spec_entries() == xref_entries(offsets@),
        final(writer).spec_prologue() == Some(r as int),
        final(writer).spec_frame() == old(writer).spec_frame(),
        final(writer).spec_width() == old(writer).spec_width(),
{
    let ghost original = offsets@;
    let ghost frame = writer.spec_frame();
    let ghost width = writer.spec_width();
    let sorted = sort_by_id(offsets);
    let ghost s = sorted@;
    proof {
        lemma_same_pairs_same_entries(s, original);
        lemma_max_id(s);
        lemma_max_id(original);
        assert(xref_entries(s).len() == xref_entries(original).len());
    }
    let ghost len = table_len(s);
    let ghost entries = xref_entries(s);
    let n = sorted.len();
    let xref_len: i32 = if n == 0 {
        1
    } else {
        let last = sorted[n - 1].0.get();
        proof {
            lemma_sorted_max_id(s);
        }
        last + 1
    };
    writer.prologue(xref_len);

    if n == 0 {
        writer.write_free_entry(0, 65535);
        proof {
            assert(!has_id(s, 0));
            assert(entries =~= seq![XRefEntry::Free { next: 0, generation: 65535 }]);
            assert(writer.spec_entries() =~= entries);
        }
        return xref_len;
    }
    let mut written: i32 = 0;
    let mut i: usize = 0;
    assert(entries.take(0) =~= Seq::<XRefEntry>::empty());
    while i < n
        invariant
            n == s.len(),
            s == sorted@,
            n > 0,
            0 <= i <= n,
            sorted_ids(s),
            distinct_ids(s),
            len == table_len(s),
            len == xref_len as int,
            xref_len == s[n - 1].0.id() + 1,
            xref_len <= i32::MAX,
            entries == xref_entries(s),
            written == (if i == 0 {
                0
            } else {
                s[i - 1].0.id() + 1
            }),
            forall|k: int| 0 <= k < i ==> (#[trigger] s[k]).0.id() < written,
            written >= 0,
            writer.spec_wf(),
            writer.spec_frame() == frame,
            writer.spec_width() == width,
            writer.spec_prologue() == Some(len),
            writer.spec_entries() == entries.take(written as int),
        decreases n - i,
    {
        let (object_id, offset) = sorted[i];
        let id = object_id.get();
        proof {
            if i > 0 {
                assert(s[i - 1].0.id() < s[i as int].0.id());
            }
        }
        // Fill in the free list.
        let start = written;
        while written < id
            invariant
                n == s.len(),
                s == sorted@,
                0 <= i < n,
                sorted_ids(s),
                distinct_ids(s),
                len == table_len(s),
                len == xref_len as int,
                xref_len == s[n - 1].0.id() + 1,
                xref_len <= i32::MAX,
                entries == xref_entries(s),
                id == s[i as int].0.id(),
                0 <= start <= written <= id,
                forall|k: int| 0 <= k < i ==> (#[trigger] s[k]).0.id() < start,
                writer.spec_wf(),
                writer.spec_frame() == frame,
            writer.spec_width() == width,
                writer.spec_prologue() == Some(len),
                writer.spec_entries() == entries.take(written as int),
            decreases id - written,
        {
            let free_id = written;
            let mut next = free_id + 1;
            if next == id {
                // Find the next free id after the run of used ids.
                let mut j = i;
                while j < n
                    invariant_except_break
                        i <= j <= n,
                        j > i ==> next == s[j - 1].0.id() + 1,
                    invariant
                        n == s.len(),
                        s == sorted@,
                        0 <= i < n,
                        sorted_ids(s),
                        len == table_len(s),
                        xref_len == s[n - 1].0.id() + 1,
                        xref_len <= i32::MAX,
                        next >= id,
                        next <= xref_len,
                        forall|k: int| 0 <= k < j ==> (#[trigger] s[k]).0.id() < next,
                        forall|k: int| j <= k < n ==> (#[trigger] s[k]).0.id() >= next,
                        next_free_from(s, free_id + 1, len) == next_free_from(s, next as int, len),
                    ensures
                        next_free_from(s, free_id + 1, len) == next as int,
                    decreases n - j,
                {
                    let used = sorted[j].0.get();
                    if next < used {
                        proof {
                            lemma_sorted_gap(s, j as int, next as int, next as int);
                            lemma_next_free_unused(s, next as int, len);
                        }
                        break;
                    } else {
                        proof {
                            assert(has_id(s, next as int));
                            lemma_next_free_used(s, next as int, len);
                            assert forall|k: int| j < k < n implies (#[trigger] s[k]).0.id() >= used
                                + 1 by {
                                assert(s[j as int].0.id() < s[k].0.id());
                            }
                        }
                        next = used + 1;
                    }
                    j = j + 1;
                }
                proof {
                    if j == n {
                        assert(next == xref_len);
                    }
                }
            } else {
                proof {
                    lemma_sorted_gap(s, i as int, start as int, next as int);
                    lemma_next_free_unused(s, next as int, len);
                }
            }
            let gen: u16 = if free_id == 0 {
                65535
            } else {
                0
            };
            proof {
                lemma_sorted_gap(s, i as int, start as int, free_id as int);
                assert(entries[free_id as int] == xref_entry(s, free_id as int));
                assert(entries.take(free_id + 1) =~= entries.take(free_id as int).push(
                    entries[free_id as int],
                ));
            }
            writer.write_free_entry((next % xref_len) as usize, gen);
            written = written + 1;
        }
        proof {
            assert(has_id(s, id as int));
            let w = choose|w: int| 0 <= w < s.len() && (#[trigger] s[w]).0.id() == id;
            assert(w == i);
            assert(entries[id as int] == xref_entry(s, id as int));
            assert(entries.take(id + 1) =~= entries.take(id as int).push(entries[id as int]));
        }
        writer.write_occupied_entry(offset, 0);
        written = written + 1;
        i = i + 1;
    }
    proof {
        assert(entries.take(written as int) =~= entries);
    }
    xref_len
}

} // verus!
