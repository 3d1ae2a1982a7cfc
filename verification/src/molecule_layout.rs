//! The parts of the Molecule serialization format that the Groth16 wire
//! schema is made of: fixed-size arrays, `fixvec`s of fixed-size items,
//! `table`s and single-variant `union`s. Numbers are 4-byte little-endian.
//!
//! A `table` with `n` fields is `total_size ‖ offset_0 ‖ … ‖ offset_{n-1} ‖
//! field_0 ‖ … ‖ field_{n-1}`, where field `i` spans
//! `offset_i .. offset_{i+1}` and `offset_n` stands for `total_size`.
//! A `fixvec` is `item_count ‖ items`. A `union` is `item_id ‖ item`.
use vstd::prelude::*;
use vstd::bytes::{
    lemma_auto_spec_u32_to_from_le_bytes, spec_u32_from_le_bytes, spec_u32_to_le_bytes,
    u32_from_le_bytes, u32_to_le_bytes,
};
use vstd::slice::slice_subrange;

verus! {

/// The little-endian `u32` at `pos`.
pub open spec fn u32_at(s: Seq<u8>, pos: int) -> nat {
    spec_u32_from_le_bytes(s.subrange(pos, pos + 4)) as nat
}

/// The start of field `i` of a table with `n` fields; `i == n` gives the end
/// of the last field, which is the total size.
pub open spec fn table_offset(s: Seq<u8>, n: nat, i: int) -> nat {
    if i < n {
        u32_at(s, 4 + 4 * i)
    } else {
        s.len()
    }
}

/// `s` passes Molecule's verification of a table with exactly `n` fields:
/// the header is complete, `total_size` is the length of `s`, the first
/// offset is the header size `4 * (n + 1)` (so the field count is exactly
/// `n`), and the offsets never decrease up to the total size.
pub open spec fn is_table(s: Seq<u8>, n: nat) -> bool {
    &&& n >= 1
    &&& s.len() >= 4 * n + 4
    &&& u32_at(s, 0) == s.len()
    &&& u32_at(s, 4) == 4 * n + 4
    &&& forall|i: int, j: int|
        0 <= i <= j <= n ==> #[trigger] table_offset(s, n, i) <= #[trigger] table_offset(s, n, j)
}

/// Field `i` of a table with `n` fields.
pub open spec fn table_field(s: Seq<u8>, n: nat, i: int) -> Seq<u8> {
    s.subrange(table_offset(s, n, i) as int, table_offset(s, n, i + 1) as int)
}

/// `s` passes Molecule's verification of a `fixvec` of `item_size`-byte items.
pub open spec fn is_fixvec(s: Seq<u8>, item_size: nat) -> bool {
    &&& s.len() >= 4
    &&& s.len() == 4 + item_size * u32_at(s, 0)
}

/// The number of items of a `fixvec`.
pub open spec fn fixvec_count(s: Seq<u8>) -> nat {
    u32_at(s, 0)
}

/// `s` passes Molecule's verification of a union whose only variant has id 0
/// (the item itself is verified separately).
pub open spec fn is_first_variant(s: Seq<u8>) -> bool {
    &&& s.len() >= 4
    &&& u32_at(s, 0) == 0
}

/// The item of a union.
pub open spec fn union_item(s: Seq<u8>) -> Seq<u8> {
    s.subrange(4, s.len() as int)
}

/// The total length of a sequence of fields.
pub open spec fn fields_size(fs: Seq<Seq<u8>>) -> nat
    decreases fs.len(),
{
    if fs.len() == 0 {
        0
    } else {
        fields_size(fs.drop_last()) + fs.last().len()
    }
}

/// Where field `i` starts in the table that [`build_table`] makes of `fs`.
pub open spec fn built_offset(fs: Seq<Seq<u8>>, i: int) -> nat {
    4 * fs.len() + 4 + fields_size(fs.take(i))
}

/// Each further field adds its length.
pub proof fn lemma_fields_size_take_step(fs: Seq<Seq<u8>>, i: int)
    requires
        0 <= i < fs.len(),
    ensures
        fields_size(fs.take(i + 1)) == fields_size(fs.take(i)) + fs[i].len(),
{
    assert(fs.take(i + 1).drop_last() =~= fs.take(i));
}

/// No fields have no length.
pub proof fn lemma_fields_size_empty(fs: Seq<Seq<u8>>)
    ensures
        fields_size(fs.take(0)) == 0,
{
    assert(fs.take(0).len() == 0);
}

proof fn lemma_fields_size_monotone(fs: Seq<Seq<u8>>, i: int, j: int)
    requires
        0 <= i <= j <= fs.len(),
    ensures
        fields_size(fs.take(i)) <= fields_size(fs.take(j)),
    decreases j - i,
{
    if i < j {
        lemma_fields_size_take_step(fs, j - 1);
        lemma_fields_size_monotone(fs, i, j - 1);
    }
}

/// Appending bytes leaves every little-endian number that was already
/// complete unchanged.
proof fn lemma_u32_at_append(s: Seq<u8>, t: Seq<u8>, pos: int)
    requires
        0 <= pos,
        pos + 4 <= s.len(),
    ensures
        u32_at(s + t, pos) == u32_at(s, pos),
{
    assert((s + t).subrange(pos, pos + 4) =~= s.subrange(pos, pos + 4));
}

/// A 4-byte little-endian number is determined by its value.
pub proof fn lemma_u32_chunk_determined(s1: Seq<u8>, p1: int, s2: Seq<u8>, p2: int)
    requires
        0 <= p1,
        p1 + 4 <= s1.len(),
        0 <= p2,
        p2 + 4 <= s2.len(),
        u32_at(s1, p1) == u32_at(s2, p2),
    ensures
        s1.subrange(p1, p1 + 4) == s2.subrange(p2, p2 + 4),
{
    lemma_auto_spec_u32_to_from_le_bytes();
    let c1 = s1.subrange(p1, p1 + 4);
    let c2 = s2.subrange(p2, p2 + 4);
    assert(spec_u32_to_le_bytes(spec_u32_from_le_bytes(c1)) == c1);
    assert(spec_u32_to_le_bytes(spec_u32_from_le_bytes(c2)) == c2);
}

/// Each field of a table is as long as the distance between its offsets.
pub proof fn lemma_table_offsets_step(s: Seq<u8>, n: nat, i: int)
    requires
        is_table(s, n),
        0 <= i < n,
    ensures
        table_offset(s, n, i + 1) == table_offset(s, n, i) + table_field(s, n, i).len(),
        table_offset(s, n, i + 1) <= s.len(),
{
    assert(table_offset(s, n, i) <= table_offset(s, n, i + 1));
    assert(table_offset(s, n, i + 1) <= table_offset(s, n, n as int));
}

/// Two tables with the same fields have the same offsets.
proof fn lemma_table_offsets_agree(s1: Seq<u8>, s2: Seq<u8>, n: nat, i: int)
    requires
        is_table(s1, n),
        is_table(s2, n),
        forall|k: int| 0 <= k < n ==> #[trigger] table_field(s1, n, k) == table_field(s2, n, k),
        0 <= i <= n,
    ensures
        table_offset(s1, n, i) == table_offset(s2, n, i),
    decreases i,
{
    if i > 0 {
        lemma_table_offsets_agree(s1, s2, n, i - 1);
        lemma_table_offsets_step(s1, n, i - 1);
        lemma_table_offsets_step(s2, n, i - 1);
        assert(table_field(s1, n, i - 1) == table_field(s2, n, i - 1));
    }
}

/// The field of a table that byte `p` of its body lies in.
proof fn lemma_locate_field(s: Seq<u8>, n: nat, p: int, j: int) -> (i: int)
    requires
        is_table(s, n),
        1 <= j <= n,
        table_offset(s, n, 0) <= p < table_offset(s, n, j),
    ensures
        0 <= i < j,
        table_offset(s, n, i) <= p < table_offset(s, n, i + 1),
    decreases j,
{
    if p >= table_offset(s, n, j - 1) {
        j - 1
    } else {
        lemma_locate_field(s, n, p, j - 1)
    }
}

/// Molecule tables are canonical: a table is determined by its fields.
pub proof fn lemma_table_unique(s1: Seq<u8>, s2: Seq<u8>, n: nat)
    requires
        is_table(s1, n),
        is_table(s2, n),
        forall|k: int| 0 <= k < n ==> #[trigger] table_field(s1, n, k) == table_field(s2, n, k),
    ensures
        s1 == s2,
{
    lemma_table_offsets_agree(s1, s2, n, n as int);
    assert(s1.len() == s2.len());
    assert forall|p: int| 0 <= p < s1.len() implies s1[p] == s2[p] by {
        if p < 4 * n + 4 {
            let k = p / 4;
            assert(0 <= k <= n);
            if k == 0 {
                lemma_u32_chunk_determined(s1, 0, s2, 0);
                assert(s1[p] == s1.subrange(0, 4)[p]);
                assert(s2[p] == s2.subrange(0, 4)[p]);
            } else {
                lemma_table_offsets_agree(s1, s2, n, k - 1);
                assert(u32_at(s1, 4 + 4 * (k - 1)) == table_offset(s1, n, k - 1));
                assert(u32_at(s2, 4 + 4 * (k - 1)) == table_offset(s2, n, k - 1));
                lemma_u32_chunk_determined(s1, 4 * k, s2, 4 * k);
                assert(s1[p] == s1.subrange(4 * k, 4 * k + 4)[p - 4 * k]);
                assert(s2[p] == s2.subrange(4 * k, 4 * k + 4)[p - 4 * k]);
            }
        } else {
            let i = lemma_locate_field(s1, n, p, n as int);
            lemma_table_offsets_agree(s1, s2, n, i);
            lemma_table_offsets_agree(s1, s2, n, i + 1);
            let o = table_offset(s1, n, i) as int;
            assert(table_field(s1, n, i) == table_field(s2, n, i));
            assert(s1[p] == table_field(s1, n, i)[p - o]);
            assert(s2[p] == table_field(s2, n, i)[p - o]);
        }
    }
    assert(s1 =~= s2);
}

/// Reads the little-endian `u32` at `pos`.
pub fn read_u32(s: &[u8], pos: usize) -> (x: u32)
    requires
        pos + 4 <= s.len(),
    ensures
        x as nat == u32_at(s@, pos as int),
{
    u32_from_le_bytes(slice_subrange(s, pos, pos + 4))
}

/// Verifies `s` as a table with `n` fields and returns its `n + 1` offsets
/// (the last one being the total size), or `None` if verification fails.
pub fn read_table(s: &[u8], n: usize) -> (offsets: Option<Vec<usize>>)
    requires
        1 <= n <= 8,
    ensures
        offsets is Some <==> is_table(s@, n as nat),
        offsets matches Some(o) ==> o@.len() == n + 1 && forall|i: int|
            0 <= i <= n ==> #[trigger] o@[i] == table_offset(s@, n as nat, i),
{
    let len = s.len();
    if len < 4 {
        return None;
    }
    let total = read_u32(s, 0);
    if total as usize != len {
        return None;
    }
    if len < 8 {
        return None;
    }
    let first = read_u32(s, 4) as usize;
    if first % 4 != 0 || first < 8 {
        return None;
    }
    if len < first {
        return None;
    }
    if first / 4 - 1 != n {
        return None;
    }
    assert(first == 4 * n + 4);
    let ghost sv = s@;
    let mut offsets: Vec<usize> = Vec::new();
    offsets.push(first);
    let mut i: usize = 1;
    while i < n
        invariant
            1 <= i <= n <= 8,
            sv == s@,
            len == sv.len(),
            first == 4 * n + 4,
            len >= first,
            u32_at(sv, 0) == len,
            u32_at(sv, 4) == first,
            offsets@.len() == i,
            forall|k: int| 0 <= k < i ==> #[trigger] offsets@[k] == table_offset(sv, n as nat, k),
            forall|a: int, b: int|
                0 <= a <= b < i ==> #[trigger] table_offset(sv, n as nat, a) <= #[trigger] table_offset(sv, n as nat, b),
        decreases n - i,
    {
        let o = read_u32(s, 4 + 4 * i) as usize;
        let prev = offsets[i - 1];
        if prev > o {
            assert(table_offset(sv, n as nat, i - 1) > table_offset(sv, n as nat, i as int));
            return None;
        }
        assert(o == table_offset(sv, n as nat, i as int));
        offsets.push(o);
        i = i + 1;
    }
    let last = offsets[n - 1];
    if last > len {
        assert(table_offset(sv, n as nat, n - 1) > table_offset(sv, n as nat, n as int));
        return None;
    }
    offsets.push(len);
    assert forall|a: int, b: int| 0 <= a <= b <= n implies #[trigger] table_offset(sv, n as nat, a)
        <= #[trigger] table_offset(sv, n as nat, b) by {
        if b == n && a < n {
            assert(table_offset(sv, n as nat, a) <= table_offset(sv, n as nat, n - 1));
        }
    }
    Some(offsets)
}

/// Field `i` of the table `s` with `n` fields, given the offsets that
/// [`read_table`] returned for it.
pub fn table_field_slice<'a>(s: &'a [u8], offsets: &Vec<usize>, n: usize, i: usize) -> (field: &'a [u8])
    requires
        is_table(s@, n as nat),
        i < n,
        offsets@.len() == n + 1,
        forall|k: int| 0 <= k <= n ==> #[trigger] offsets@[k] == table_offset(s@, n as nat, k),
    ensures
        field@ == table_field(s@, n as nat, i as int),
{
    assert(table_offset(s@, n as nat, i as int) <= table_offset(s@, n as nat, i + 1));
    assert(table_offset(s@, n as nat, i + 1) <= table_offset(s@, n as nat, n as int));
    slice_subrange(s, offsets[i], offsets[i + 1])
}

/// Verifies `s` as a `fixvec` of `item_size`-byte items and returns its item
/// count, or `None` if verification fails.
pub fn read_fixvec(s: &[u8], item_size: usize) -> (count: Option<u32>)
    requires
        1 <= item_size <= 64,
    ensures
        count is Some <==> is_fixvec(s@, item_size as nat),
        count matches Some(c) ==> c as nat == fixvec_count(s@),
{
    let len = s.len();
    if len < 4 {
        return None;
    }
    let c = read_u32(s, 0);
    // The item bytes alone would not fit in any buffer.
    if (c as u64) > ((usize::MAX - 4) / item_size) as u64 {
        assert(4 + item_size * c > usize::MAX) by (nonlinear_arith)
            requires
                c > (usize::MAX - 4) / (item_size as int),
                item_size >= 1,
        ;
        return None;
    }
    assert(item_size * c <= usize::MAX - 4) by (nonlinear_arith)
        requires
            c <= (usize::MAX - 4) / (item_size as int),
            item_size >= 1,
    ;
    if len != 4 + item_size * (c as usize) {
        return None;
    }
    Some(c)
}

/// Verifies `s` as a union whose only variant has id 0; `true` when it is.
pub fn is_first_variant_union(s: &[u8]) -> (ok: bool)
    ensures
        ok == is_first_variant(s@),
{
    if s.len() < 4 {
        return false;
    }
    read_u32(s, 0) == 0
}

/// Appends `t` to `v`.
pub fn append_bytes(v: &mut Vec<u8>, t: &[u8])
    ensures
        final(v)@ == old(v)@ + t@,
{
    let ghost v0 = v@;
    let n = t.len();
    for i in 0..n
        invariant
            n == t@.len(),
            v@ == v0 + t@.subrange(0, i as int),
    {
        v.push(t[i]);
        assert(v0 + t@.subrange(0, i + 1) =~= v0 + t@.subrange(0, i as int) + seq![t@[i as int]]);
    }
    assert(t@.subrange(0, n as int) =~= t@);
}

/// Builds the table whose fields are `fields`, or `None` when its size does
/// not fit the 4-byte `total_size` field.
pub fn build_table(fields: &Vec<&[u8]>) -> (table: Option<Vec<u8>>)
    requires
        1 <= fields@.len() <= 8,
    ensures
        ({
            let fs = fields@.map_values(|f: &[u8]| f@);
            &&& table is Some <==> built_offset(fs, fs.len() as int) <= u32::MAX
            &&& table matches Some(t) ==> {
                &&& is_table(t@, fs.len())
                &&& t@.len() == built_offset(fs, fs.len() as int)
                &&& forall|i: int| 0 <= i < fs.len() ==> #[trigger] table_field(t@, fs.len(), i) == fs[i]
            }
        }),
{
    let ghost fs = fields@.map_values(|f: &[u8]| f@);
    let n = fields.len();
    let header: usize = 4 * n + 4;
    // The total size, summed without overflow.
    let mut total: usize = header;
    let mut i: usize = 0;
    while i < n
        invariant
            n == fields@.len(),
            n == fs.len(),
            fs == fields@.map_values(|f: &[u8]| f@),
            header == 4 * n + 4,
            1 <= n <= 8,
            i <= n,
            total == built_offset(fs, i as int),
            total <= u32::MAX,
        decreases n - i,
    {
        proof {
            lemma_fields_size_take_step(fs, i as int);
        }
        let flen = fields[i].len();
        if flen > u32::MAX as usize - total {
            proof {
                lemma_fields_size_monotone(fs, i + 1, n as int);
            }
            return None;
        }
        total = total + flen;
        i = i + 1;
    }
    let mut t: Vec<u8> = Vec::new();
    let tb = u32_to_le_bytes(total as u32);
    append_bytes(&mut t, tb.as_slice());
    proof {
        lemma_auto_spec_u32_to_from_le_bytes();
        assert(t@.subrange(0, 4) =~= tb@);
    }
    // The offsets.
    let mut offset: usize = header;
    let mut i: usize = 0;
    while i < n
        invariant
            n == fields@.len(),
            n == fs.len(),
            fs == fields@.map_values(|f: &[u8]| f@),
            header == 4 * n + 4,
            1 <= n <= 8,
            i <= n,
            total == built_offset(fs, n as int),
            total <= u32::MAX,
            offset == built_offset(fs, i as int),
            t@.len() == 4 + 4 * i,
            u32_at(t@, 0) == total,
            forall|k: int| 0 <= k < i ==> #[trigger] u32_at(t@, 4 + 4 * k) == built_offset(fs, k),
        decreases n - i,
    {
        proof {
            lemma_fields_size_take_step(fs, i as int);
            lemma_fields_size_monotone(fs, i + 1, n as int);
            lemma_auto_spec_u32_to_from_le_bytes();
        }
        let ob = u32_to_le_bytes(offset as u32);
        let ghost t0 = t@;
        append_bytes(&mut t, ob.as_slice());
        proof {
            assert forall|k: int| 0 <= k < i + 1 implies #[trigger] u32_at(t@, 4 + 4 * k) == built_offset(fs, k) by {
                if k < i {
                    lemma_u32_at_append(t0, ob@, 4 + 4 * k);
                } else {
                    assert(t@.subrange(4 + 4 * k, 8 + 4 * k) =~= ob@);
                }
            }
            lemma_u32_at_append(t0, ob@, 0);
        }
        offset = offset + fields[i].len();
        i = i + 1;
    }
    // The fields.
    let mut i: usize = 0;
    while i < n
        invariant
            n == fields@.len(),
            n == fs.len(),
            fs == fields@.map_values(|f: &[u8]| f@),
            1 <= n <= 8,
            i <= n,
            total == built_offset(fs, n as int),
            total <= u32::MAX,
            t@.len() == built_offset(fs, i as int),
            u32_at(t@, 0) == total,
            forall|k: int| 0 <= k < n ==> #[trigger] u32_at(t@, 4 + 4 * k) == built_offset(fs, k),
            forall|k: int|
                0 <= k < i ==> #[trigger] t@.subrange(built_offset(fs, k) as int, built_offset(fs, k + 1) as int)
                    == fs[k],
        decreases n - i,
    {
        proof {
            lemma_fields_size_take_step(fs, i as int);
            lemma_fields_size_monotone(fs, i + 1, n as int);
        }
        let ghost t0 = t@;
        append_bytes(&mut t, fields[i]);
        proof {
            assert forall|k: int| 0 <= k < n implies #[trigger] u32_at(t@, 4 + 4 * k) == built_offset(fs, k) by {
                lemma_u32_at_append(t0, fs[i as int], 4 + 4 * k);
            }
            lemma_u32_at_append(t0, fs[i as int], 0);
            assert forall|k: int| 0 <= k < i + 1 implies #[trigger] t@.subrange(
                built_offset(fs, k) as int,
                built_offset(fs, k + 1) as int,
            ) == fs[k] by {
                if k < i {
                    lemma_fields_size_monotone(fs, k + 1, i as int);
                    lemma_fields_size_monotone(fs, k, k + 1);
                    assert(t@.subrange(built_offset(fs, k) as int, built_offset(fs, k + 1) as int)
                        =~= t0.subrange(built_offset(fs, k) as int, built_offset(fs, k + 1) as int));
                } else {
                    assert(t@.subrange(built_offset(fs, k) as int, built_offset(fs, k + 1) as int) =~= fs[k]);
                }
            }
        }
        i = i + 1;
    }
    proof {
        let nn = n as nat;
        assert(t@.len() == total);
        assert forall|k: int| 0 <= k <= n implies #[trigger] table_offset(t@, nn, k) == built_offset(fs, k) by {
        }
        assert(u32_at(t@, 4) == 4 * nn + 4) by {
            assert(fs.take(0) =~= Seq::<Seq<u8>>::empty());
            assert(u32_at(t@, 4 + 4 * 0int) == built_offset(fs, 0));
        }
        assert forall|a: int, b: int| 0 <= a <= b <= nn implies #[trigger] table_offset(t@, nn, a)
            <= #[trigger] table_offset(t@, nn, b) by {
            lemma_fields_size_monotone(fs, a, b);
        }
        assert forall|k: int| 0 <= k < nn implies #[trigger] table_field(t@, nn, k) == fs[k] by {
            assert(table_offset(t@, nn, k) == built_offset(fs, k));
            assert(table_offset(t@, nn, k + 1) == built_offset(fs, k + 1));
        }
    }
    Some(t)
}

} // verus!
