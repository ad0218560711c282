//! Wire codec for serialized header maps.
//!
//! A header map travels through guest memory as: a little-endian `u32` pair
//! count; then, for each pair, two little-endian `u32` lengths (key, value);
//! then, for each pair, the key bytes, a `0x00` terminator, the value bytes
//! and a second `0x00` terminator.
//!
//! `serialize_header_map` and `deserialize_header_map` are exact inverses on
//! well-formed maps; `lemma_header_map_round_trip` states that law.

use vstd::prelude::*;
use vstd::slice::slice_subrange;
use vstd::slice::slice_to_vec;

verus! {

/// Byte pairs small enough for the wire format's `u32` length fields.
pub open spec fn spec_header_map_wf(pairs: Seq<(Seq<u8>, Seq<u8>)>) -> bool {
    &&& pairs.len() < 0x1_0000_0000
    &&& forall|i: int|
        0 <= i < pairs.len() ==> (#[trigger] pairs[i]).0.len() < 0x1_0000_0000
            && pairs[i].1.len() < 0x1_0000_0000
}

/// The four little-endian bytes of a `u32`.
pub open spec fn spec_u32_le(n: u32) -> Seq<u8> {
    seq![
        (n & 0xff) as u8,
        ((n >> 8) & 0xff) as u8,
        ((n >> 16) & 0xff) as u8,
        ((n >> 24) & 0xff) as u8,
    ]
}

/// The `u32` stored little-endian at `off`.
pub open spec fn spec_read_u32_le(bytes: Seq<u8>, off: int) -> u32 {
    (bytes[off] as u32) | ((bytes[off + 1] as u32) << 8) | ((bytes[off + 2] as u32) << 16) | ((
    bytes[off + 3] as u32) << 24)
}

/// The length table: one `u32` key length and one `u32` value length per pair.
pub open spec fn spec_size_table(pairs: Seq<(Seq<u8>, Seq<u8>)>) -> Seq<u8>
    decreases pairs.len(),
{
    if pairs.len() == 0 {
        Seq::empty()
    } else {
        spec_u32_le(pairs[0].0.len() as u32) + spec_u32_le(pairs[0].1.len() as u32)
            + spec_size_table(pairs.drop_first())
    }
}

/// The entry block: key bytes, `0x00`, value bytes, `0x00`, for each pair.
pub open spec fn spec_entry_block(pairs: Seq<(Seq<u8>, Seq<u8>)>) -> Seq<u8>
    decreases pairs.len(),
{
    if pairs.len() == 0 {
        Seq::empty()
    } else {
        pairs[0].0 + seq![0u8] + pairs[0].1 + seq![0u8] + spec_entry_block(pairs.drop_first())
    }
}

/// The whole serialized form of a header map.
pub open spec fn spec_serialize_header_map(pairs: Seq<(Seq<u8>, Seq<u8>)>) -> Seq<u8> {
    spec_u32_le(pairs.len() as u32) + spec_size_table(pairs) + spec_entry_block(pairs)
}

/// The key and value lengths of each pair, in order.
pub open spec fn spec_size_list(pairs: Seq<(Seq<u8>, Seq<u8>)>) -> Seq<(int, int)>
    decreases pairs.len(),
{
    if pairs.len() == 0 {
        Seq::empty()
    } else {
        seq![(pairs[0].0.len() as int, pairs[0].1.len() as int)] + spec_size_list(
            pairs.drop_first(),
        )
    }
}

/// Parse `count` pairs of `u32` lengths starting at `off`.
pub open spec fn spec_parse_sizes(bytes: Seq<u8>, off: int, count: int) -> Option<Seq<(int, int)>>
    decreases count,
{
    if count <= 0 {
        Some(Seq::empty())
    } else if off + 8 <= bytes.len() {
        match spec_parse_sizes(bytes, off + 8, count - 1) {
            Some(rest) => Some(
                seq![
                    (
                        spec_read_u32_le(bytes, off) as int,
                        spec_read_u32_le(bytes, off + 4) as int,
                    ),
                ] + rest,
            ),
            None => None,
        }
    } else {
        None
    }
}

/// Parse null-terminated entries with the given lengths, starting at `off`
/// and consuming the input exactly.
pub open spec fn spec_parse_entries(bytes: Seq<u8>, sizes: Seq<(int, int)>, off: int) -> Option<
    Seq<(Seq<u8>, Seq<u8>)>,
>
    decreases sizes.len(),
{
    if sizes.len() == 0 {
        if off == bytes.len() {
            Some(Seq::empty())
        } else {
            None
        }
    } else {
        let kl = sizes[0].0;
        let vl = sizes[0].1;
        if kl >= 0 && vl >= 0 && off + kl + vl + 2 <= bytes.len() && bytes[off + kl] == 0u8
            && bytes[off + kl + 1 + vl] == 0u8 {
            match spec_parse_entries(bytes, sizes.drop_first(), off + kl + vl + 2) {
                Some(rest) => Some(
                    seq![
                        (
                            bytes.subrange(off, off + kl),
                            bytes.subrange(off + kl + 1, off + kl + 1 + vl),
                        ),
                    ] + rest,
                ),
                None => None,
            }
        } else {
            None
        }
    }
}

/// The header map a byte string decodes to, if it is a well-formed
/// serialization.
pub open spec fn spec_deserialize_header_map(bytes: Seq<u8>) -> Option<Seq<(Seq<u8>, Seq<u8>)>> {
    if bytes.len() < 4 {
        None
    } else {
        let count = spec_read_u32_le(bytes, 0) as int;
        match spec_parse_sizes(bytes, 4, count) {
            Some(sizes) => spec_parse_entries(bytes, sizes, 4 + 8 * count),
            None => None,
        }
    }
}

/// Append the four little-endian bytes of `value`.
pub fn write_u32_le(out: &mut Vec<u8>, value: u32)
    ensures
        final(out)@ == old(out)@ + spec_u32_le(value),
{
    out.push((value & 0xff) as u8);
    out.push(((value >> 8) & 0xff) as u8);
    out.push(((value >> 16) & 0xff) as u8);
    out.push(((value >> 24) & 0xff) as u8);
    assert(out@ =~= old(out)@ + spec_u32_le(value));
}

/// Read the `u32` stored little-endian at `off`.
pub fn read_u32_le(bytes: &[u8], off: usize) -> (value: u32)
    requires
        off + 4 <= bytes@.len(),
    ensures
        value == spec_read_u32_le(bytes@, off as int),
{
    (bytes[off] as u32) | ((bytes[off + 1] as u32) << 8) | ((bytes[off + 2] as u32) << 16) | ((
    bytes[off + 3] as u32) << 24)
}

/// Appending a pair extends the length table by its two length words.
pub proof fn lemma_size_table_push(pairs: Seq<(Seq<u8>, Seq<u8>)>, pair: (Seq<u8>, Seq<u8>))
    ensures
        spec_size_table(pairs.push(pair)) == spec_size_table(pairs) + spec_u32_le(
            pair.0.len() as u32,
        ) + spec_u32_le(pair.1.len() as u32),
    decreases pairs.len(),
{
    if pairs.len() == 0 {
        assert(pairs.push(pair)[0] == pair);
        assert(pairs.push(pair).drop_first() =~= pairs);
        assert(spec_size_table(pairs.push(pair)) =~= spec_size_table(pairs) + spec_u32_le(
            pair.0.len() as u32,
        ) + spec_u32_le(pair.1.len() as u32));
    } else {
        assert(pairs.push(pair).drop_first() =~= pairs.drop_first().push(pair));
        lemma_size_table_push(pairs.drop_first(), pair);
        assert(pairs.push(pair)[0] == pairs[0]);
        assert(spec_size_table(pairs.push(pair)) =~= spec_size_table(pairs) + spec_u32_le(
            pair.0.len() as u32,
        ) + spec_u32_le(pair.1.len() as u32));
    }
}

/// Appending a pair extends the entry block by its terminated key and value.
pub proof fn lemma_entry_block_push(pairs: Seq<(Seq<u8>, Seq<u8>)>, pair: (Seq<u8>, Seq<u8>))
    ensures
        spec_entry_block(pairs.push(pair)) == spec_entry_block(pairs) + pair.0 + seq![0u8] + pair.1
            + seq![0u8],
    decreases pairs.len(),
{
    if pairs.len() == 0 {
        assert(pairs.push(pair)[0] == pair);
        assert(pairs.push(pair).drop_first() =~= pairs);
        assert(spec_entry_block(pairs.push(pair)) =~= spec_entry_block(pairs) + pair.0 + seq![0u8]
            + pair.1 + seq![0u8]);
    } else {
        assert(pairs.push(pair).drop_first() =~= pairs.drop_first().push(pair));
        lemma_entry_block_push(pairs.drop_first(), pair);
        assert(pairs.push(pair)[0] == pairs[0]);
        assert(spec_entry_block(pairs.push(pair)) =~= spec_entry_block(pairs) + pair.0 + seq![0u8]
            + pair.1 + seq![0u8]);
    }
}

/// The length table holds eight bytes per pair.
pub proof fn lemma_size_table_len(pairs: Seq<(Seq<u8>, Seq<u8>)>)
    ensures
        spec_size_table(pairs).len() == 8 * pairs.len(),
    decreases pairs.len(),
{
    if pairs.len() > 0 {
        lemma_size_table_len(pairs.drop_first());
    }
}

/// Serialize a header map to its wire form.
pub fn serialize_header_map(pairs: &Vec<(Vec<u8>, Vec<u8>)>) -> (out: Vec<u8>)
    requires
        spec_header_map_wf(pairs.deep_view()),
    ensures
        out@ == spec_serialize_header_map(pairs.deep_view()),
{
    let ghost dv = pairs.deep_view();
    proof {
        assert forall|i: int| 0 <= i < pairs@.len() implies #[trigger] dv[i]
            == (pairs@[i].0@, pairs@[i].1@) by {
        }
    }
    let count: u32 = pairs.len() as u32;
    let mut out: Vec<u8> = Vec::new();
    write_u32_le(&mut out, count);
    let mut i: usize = 0;
    while i < pairs.len()
        invariant
            i <= pairs@.len(),
            dv == pairs.deep_view(),
            spec_header_map_wf(dv),
            count == dv.len() as u32,
            forall|k: int| 0 <= k < pairs@.len() ==> #[trigger] dv[k] == (pairs@[k].0@, pairs@[k].1@),
            out@ == spec_u32_le(count) + spec_size_table(dv.take(i as int)),
        decreases pairs@.len() - i,
    {
        let kl: u32 = pairs[i].0.len() as u32;
        let vl: u32 = pairs[i].1.len() as u32;
        write_u32_le(&mut out, kl);
        write_u32_le(&mut out, vl);
        proof {
            lemma_size_table_push(dv.take(i as int), dv[i as int]);
            assert(dv.take(i + 1 as int) =~= dv.take(i as int).push(dv[i as int]));
            assert(out@ =~= spec_u32_le(count) + spec_size_table(dv.take(i + 1 as int)));
        }
        i += 1;
    }
    proof {
        assert(dv.take(pairs@.len() as int) =~= dv);
    }
    let mut j: usize = 0;
    while j < pairs.len()
        invariant
            j <= pairs@.len(),
            dv == pairs.deep_view(),
            spec_header_map_wf(dv),
            count == dv.len() as u32,
            forall|k: int| 0 <= k < pairs@.len() ==> #[trigger] dv[k] == (pairs@[k].0@, pairs@[k].1@),
            out@ == spec_u32_le(count) + spec_size_table(dv) + spec_entry_block(dv.take(j as int)),
        decreases pairs@.len() - j,
    {
        let ghost out_before = out@;
        let mut b: usize = 0;
        while b < pairs[j].0.len()
            invariant
                j < pairs@.len(),
                b <= pairs@[j as int].0@.len(),
                out@ == out_before + pairs@[j as int].0@.take(b as int),
            decreases pairs@[j as int].0@.len() - b,
        {
            let byte = pairs[j].0[b];
            out.push(byte);
            proof {
                assert(out@ =~= out_before + pairs@[j as int].0@.take(b + 1 as int));
            }
            b += 1;
        }
        proof {
            assert(pairs@[j as int].0@.take(pairs@[j as int].0@.len() as int) =~= pairs@[j as int].0@);
        }
        out.push(0u8);
        let ghost out_mid = out@;
        let mut c: usize = 0;
        while c < pairs[j].1.len()
            invariant
                j < pairs@.len(),
                c <= pairs@[j as int].1@.len(),
                out@ == out_mid + pairs@[j as int].1@.take(c as int),
            decreases pairs@[j as int].1@.len() - c,
        {
            let byte = pairs[j].1[c];
            out.push(byte);
            proof {
                assert(out@ =~= out_mid + pairs@[j as int].1@.take(c + 1 as int));
            }
            c += 1;
        }
        proof {
            assert(pairs@[j as int].1@.take(pairs@[j as int].1@.len() as int) =~= pairs@[j as int].1@);
        }
        out.push(0u8);
        proof {
            lemma_entry_block_push(dv.take(j as int), dv[j as int]);
            assert(dv.take(j + 1 as int) =~= dv.take(j as int).push(dv[j as int]));
            assert(out@ =~= spec_u32_le(count) + spec_size_table(dv) + spec_entry_block(
                dv.take(j + 1 as int),
            ));
        }
        j += 1;
    }
    proof {
        assert(dv.take(pairs@.len() as int) =~= dv);
        assert(out@ =~= spec_serialize_header_map(dv));
    }
    out
}

/// Reading four little-endian bytes back yields the written value.
pub proof fn lemma_u32_le_round_trip(bytes: Seq<u8>, off: int, n: u32)
    requires
        0 <= off,
        off + 4 <= bytes.len(),
        bytes.subrange(off, off + 4) == spec_u32_le(n),
    ensures
        spec_read_u32_le(bytes, off) == n,
{
    assert(bytes[off] == spec_u32_le(n)[0]) by {
        assert(bytes.subrange(off, off + 4)[0] == bytes[off]);
    }
    assert(bytes[off + 1] == spec_u32_le(n)[1]) by {
        assert(bytes.subrange(off, off + 4)[1] == bytes[off + 1]);
    }
    assert(bytes[off + 2] == spec_u32_le(n)[2]) by {
        assert(bytes.subrange(off, off + 4)[2] == bytes[off + 2]);
    }
    assert(bytes[off + 3] == spec_u32_le(n)[3]) by {
        assert(bytes.subrange(off, off + 4)[3] == bytes[off + 3]);
    }
    assert(((n & 0xff) as u8 as u32) | ((((n >> 8) & 0xff) as u8 as u32) << 8) | ((((n >> 16)
        & 0xff) as u8 as u32) << 16) | ((((n >> 24) & 0xff) as u8 as u32) << 24) == n)
        by (bit_vector);
}

/// The integer view of an executable length table.
pub open spec fn spec_sizes_int(sizes: Seq<(u32, u32)>) -> Seq<(int, int)> {
    Seq::new(sizes.len(), |i: int| (sizes[i].0 as int, sizes[i].1 as int))
}

spec fn join_sizes(prefix: Seq<(u32, u32)>, rest: Option<Seq<(int, int)>>) -> Option<
    Seq<(int, int)>,
> {
    match rest {
        Some(r) => Some(spec_sizes_int(prefix) + r),
        None => None,
    }
}

spec fn join_entries(
    prefix: Seq<(Seq<u8>, Seq<u8>)>,
    rest: Option<Seq<(Seq<u8>, Seq<u8>)>>,
) -> Option<Seq<(Seq<u8>, Seq<u8>)>> {
    match rest {
        Some(r) => Some(prefix + r),
        None => None,
    }
}

/// Decode a serialized header map, or report that the bytes are not a
/// well-formed serialization.
pub fn deserialize_header_map(bytes: &[u8]) -> (r: Option<Vec<(Vec<u8>, Vec<u8>)>>)
    ensures
        match r {
            Some(pairs) => spec_deserialize_header_map(bytes@) == Some(pairs.deep_view()),
            None => spec_deserialize_header_map(bytes@) is None,
        },
{
    if bytes.len() < 4 {
        return None;
    }
    let count: u32 = read_u32_le(bytes, 0);
    let ghost count_i = count as int;
    let mut sizes: Vec<(u32, u32)> = Vec::new();
    let mut off: usize = 4;
    let mut i: u32 = 0;
    while i < count
        invariant
            i <= count,
            4 <= off <= bytes@.len(),
            off == 4 + 8 * i,
            sizes@.len() == i,
            count_i == count as int,
            bytes@.len() >= 4,
            count == spec_read_u32_le(bytes@, 0),
            spec_parse_sizes(bytes@, 4, count_i) == join_sizes(
                sizes@,
                spec_parse_sizes(bytes@, off as int, count_i - i),
            ),
        decreases count - i,
    {
        if bytes.len() - off < 8 {
            proof {
                assert(spec_parse_sizes(bytes@, off as int, count_i - i) is None);
            }
            return None;
        }
        let kl: u32 = read_u32_le(bytes, off);
        let vl: u32 = read_u32_le(bytes, off + 4);
        proof {
            let rest = spec_parse_sizes(bytes@, off + 8, count_i - i - 1);
            if rest is Some {
                assert(spec_sizes_int(sizes@.push((kl, vl))) =~= spec_sizes_int(sizes@) + seq![
                    (kl as int, vl as int),
                ]);
                assert(spec_sizes_int(sizes@) + (seq![(kl as int, vl as int)] + rest->Some_0)
                    =~= (spec_sizes_int(sizes@) + seq![(kl as int, vl as int)]) + rest->Some_0);
            }
        }
        sizes.push((kl, vl));
        off = off + 8;
        i = i + 1;
    }
    proof {
        assert(spec_parse_sizes(bytes@, off as int, 0) == Some(Seq::<(int, int)>::empty()));
        assert(spec_sizes_int(sizes@) + Seq::<(int, int)>::empty() =~= spec_sizes_int(sizes@));
        assert(spec_parse_sizes(bytes@, 4, count_i) == Some(spec_sizes_int(sizes@)));
    }
    let ghost sizes_int = spec_sizes_int(sizes@);
    let mut result: Vec<(Vec<u8>, Vec<u8>)> = Vec::new();
    proof {
        assert(sizes_int.skip(0) =~= sizes_int);
        assert(result.deep_view() =~= Seq::<(Seq<u8>, Seq<u8>)>::empty());
        let first = spec_parse_entries(bytes@, sizes_int, off as int);
        if first is Some {
            assert(Seq::<(Seq<u8>, Seq<u8>)>::empty() + first->Some_0 =~= first->Some_0);
        }
    }
    let mut j: usize = 0;
    while j < sizes.len()
        invariant
            j <= sizes@.len(),
            4 <= off <= bytes@.len(),
            result.deep_view().len() == j,
            sizes_int == spec_sizes_int(sizes@),
            bytes@.len() >= 4,
            count == spec_read_u32_le(bytes@, 0),
            count_i == count as int,
            spec_parse_sizes(bytes@, 4, count_i) == Some(sizes_int),
            spec_parse_entries(bytes@, sizes_int, 4 + 8 * count_i) == join_entries(
                result.deep_view(),
                spec_parse_entries(bytes@, sizes_int.skip(j as int), off as int),
            ),
        decreases sizes@.len() - j,
    {
        let kl: u32 = sizes[j].0;
        let vl: u32 = sizes[j].1;
        proof {
            assert(sizes_int.skip(j as int)[0] == (kl as int, vl as int));
        }
        let rem: u64 = (bytes.len() - off) as u64;
        if (kl as u64) + (vl as u64) + 2 > rem {
            proof {
                assert(spec_parse_entries(bytes@, sizes_int.skip(j as int), off as int) is None);
            }
            return None;
        }
        let klu: usize = kl as usize;
        let vlu: usize = vl as usize;
        if bytes[off + klu] != 0 {
            proof {
                assert(spec_parse_entries(bytes@, sizes_int.skip(j as int), off as int) is None);
            }
            return None;
        }
        if bytes[off + klu + 1 + vlu] != 0 {
            proof {
                assert(spec_parse_entries(bytes@, sizes_int.skip(j as int), off as int) is None);
            }
            return None;
        }
        let key: Vec<u8> = slice_to_vec(slice_subrange(bytes, off, off + klu));
        let value: Vec<u8> = slice_to_vec(slice_subrange(bytes, off + klu + 1, off + klu + 1 + vlu));
        proof {
            let rest = spec_parse_entries(
                bytes@,
                sizes_int.skip(j as int).drop_first(),
                off + klu + vlu + 2,
            );
            assert(sizes_int.skip(j as int).drop_first() =~= sizes_int.skip(j + 1 as int));
            if rest is Some {
                let head = (bytes@.subrange(off as int, off + klu), bytes@.subrange(
                    off + klu + 1,
                    off + klu + 1 + vlu,
                ));
                assert(result.deep_view().push(head) =~~= result.deep_view() + seq![head]);
                assert(result.deep_view() + (seq![head] + rest->Some_0) =~= (result.deep_view()
                    + seq![head]) + rest->Some_0);
            }
        }
        let ghost old_dv = result.deep_view();
        result.push((key, value));
        proof {
            assert(result.deep_view() =~~= old_dv.push((key@, value@)));
        }
        off = off + klu + vlu + 2;
        j = j + 1;
    }
    if off != bytes.len() {
        proof {
            assert(sizes_int.skip(sizes@.len() as int) =~= Seq::<(int, int)>::empty());
            assert(spec_parse_entries(bytes@, sizes_int.skip(sizes@.len() as int), off as int)
                is None);
        }
        return None;
    }
    proof {
        assert(sizes_int.skip(sizes@.len() as int) =~= Seq::<(int, int)>::empty());
        assert(spec_parse_entries(bytes@, sizes_int.skip(sizes@.len() as int), off as int) == Some(
            Seq::<(Seq<u8>, Seq<u8>)>::empty(),
        ));
        assert(result.deep_view() + Seq::<(Seq<u8>, Seq<u8>)>::empty() =~= result.deep_view());
    }
    Some(result)
}

/// Parsing the length table of a well-formed map yields its length list.
proof fn lemma_parse_sizes_of_table(bytes: Seq<u8>, off: int, pairs: Seq<(Seq<u8>, Seq<u8>)>)
    requires
        spec_header_map_wf(pairs),
        0 <= off,
        off + 8 * pairs.len() <= bytes.len(),
        bytes.subrange(off, off + 8 * pairs.len()) == spec_size_table(pairs),
    ensures
        spec_parse_sizes(bytes, off, pairs.len() as int) == Some(spec_size_list(pairs)),
    decreases pairs.len(),
{
    if pairs.len() == 0 {
    } else {
        let kl = pairs[0].0.len() as int;
        let vl = pairs[0].1.len() as int;
        let table = spec_size_table(pairs);
        let rest_pairs = pairs.drop_first();
        lemma_size_table_len(rest_pairs);
        assert(table == spec_u32_le(pairs[0].0.len() as u32) + spec_u32_le(
            pairs[0].1.len() as u32,
        ) + spec_size_table(rest_pairs));
        let whole = bytes.subrange(off, off + 8 * pairs.len());
        assert(whole.subrange(0, 4) =~= spec_u32_le(pairs[0].0.len() as u32));
        assert(bytes.subrange(off, off + 4) =~= whole.subrange(0, 4));
        lemma_u32_le_round_trip(bytes, off, pairs[0].0.len() as u32);
        assert(whole.subrange(4, 8) =~= spec_u32_le(pairs[0].1.len() as u32));
        assert(bytes.subrange(off + 4, off + 8) =~= whole.subrange(4, 8));
        lemma_u32_le_round_trip(bytes, off + 4, pairs[0].1.len() as u32);
        assert(whole.subrange(8, 8 * pairs.len() as int) =~= spec_size_table(rest_pairs));
        assert(bytes.subrange(off + 8, off + 8 + 8 * rest_pairs.len()) =~= whole.subrange(
            8,
            8 * pairs.len() as int,
        ));
        lemma_parse_sizes_of_table(bytes, off + 8, rest_pairs);
        assert(spec_size_list(pairs) =~= seq![(kl, vl)] + spec_size_list(rest_pairs));
        assert(spec_parse_sizes(bytes, off, pairs.len() as int) == Some(
            seq![(kl, vl)] + spec_size_list(rest_pairs),
        ));
    }
}

/// Parsing the entry block of a well-formed map yields its pairs.
proof fn lemma_parse_entries_of_block(bytes: Seq<u8>, off: int, pairs: Seq<(Seq<u8>, Seq<u8>)>)
    requires
        spec_header_map_wf(pairs),
        0 <= off <= bytes.len(),
        bytes.subrange(off, bytes.len() as int) == spec_entry_block(pairs),
    ensures
        spec_parse_entries(bytes, spec_size_list(pairs), off) == Some(pairs),
    decreases pairs.len(),
{
    if pairs.len() == 0 {
        assert(bytes.len() - off == spec_entry_block(pairs).len());
        assert(spec_size_list(pairs).len() == 0);
    } else {
        let k = pairs[0].0;
        let v = pairs[0].1;
        let kl = k.len() as int;
        let vl = v.len() as int;
        let rest_pairs = pairs.drop_first();
        let block = spec_entry_block(pairs);
        assert(block == k + seq![0u8] + v + seq![0u8] + spec_entry_block(rest_pairs));
        assert(bytes.len() - off == block.len());
        let whole = bytes.subrange(off, bytes.len() as int);
        assert(whole[kl] == 0u8);
        assert(bytes[off + kl] == whole[kl]);
        assert(whole[kl + 1 + vl] == 0u8);
        assert(bytes[off + kl + 1 + vl] == whole[kl + 1 + vl]);
        assert(whole.subrange(0, kl) =~= k);
        assert(bytes.subrange(off, off + kl) =~= whole.subrange(0, kl));
        assert(whole.subrange(kl + 1, kl + 1 + vl) =~= v);
        assert(bytes.subrange(off + kl + 1, off + kl + 1 + vl) =~= whole.subrange(
            kl + 1,
            kl + 1 + vl,
        ));
        assert(whole.subrange(kl + vl + 2, whole.len() as int) =~= spec_entry_block(rest_pairs));
        assert(bytes.subrange(off + kl + vl + 2, bytes.len() as int) =~= whole.subrange(
            kl + vl + 2,
            whole.len() as int,
        ));
        lemma_parse_entries_of_block(bytes, off + kl + vl + 2, rest_pairs);
        assert(spec_size_list(pairs)[0] == (kl, vl));
        assert(spec_size_list(pairs).drop_first() =~= spec_size_list(rest_pairs));
        assert(seq![(bytes.subrange(off, off + kl), bytes.subrange(off + kl + 1, off + kl + 1 + vl))]
            + rest_pairs =~= pairs);
    }
}

/// A serialized well-formed header map decodes back to the original ordered
/// list of pairs.
pub proof fn lemma_header_map_round_trip(pairs: Seq<(Seq<u8>, Seq<u8>)>)
    requires
        spec_header_map_wf(pairs),
    ensures
        spec_deserialize_header_map(spec_serialize_header_map(pairs)) == Some(pairs),
{
    let b = spec_serialize_header_map(pairs);
    let header = spec_u32_le(pairs.len() as u32);
    let table = spec_size_table(pairs);
    let block = spec_entry_block(pairs);
    let count = pairs.len() as int;
    lemma_size_table_len(pairs);
    assert(b == header + table + block);
    assert(b.len() == 4 + 8 * count + block.len());
    assert(b.subrange(0, 4) =~= header);
    lemma_u32_le_round_trip(b, 0, pairs.len() as u32);
    assert(spec_read_u32_le(b, 0) == pairs.len() as u32);
    assert(b.subrange(4, 4 + 8 * count) =~= table);
    lemma_parse_sizes_of_table(b, 4, pairs);
    assert(b.subrange(4 + 8 * count, b.len() as int) =~= block);
    lemma_parse_entries_of_block(b, 4 + 8 * count, pairs);
}

} // verus!
