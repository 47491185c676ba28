//! Additional HTTP/3 settings as Java hands them over: two byte arrays that
//! pack the setting identifiers and their values as big-endian 64-bit
//! integers, pair by pair.

use vstd::prelude::*;

verus! {

/// The value of eight bytes read as a big-endian unsigned integer.
pub open spec fn be_u64_value(b: Seq<u8>) -> int
    recommends
        b.len() == 8,
{
    b[0] * 0x100000000000000 + b[1] * 0x1000000000000 + b[2] * 0x10000000000 + b[3]
        * 0x100000000 + b[4] * 0x1000000 + b[5] * 0x10000 + b[6] * 0x100 + b[7]
}

/// The eight bytes of a 64-bit integer, most significant first.
pub open spec fn be_u64_bytes(x: u64) -> Seq<u8> {
    seq![
        (x / 0x100000000000000) as u8,
        ((x / 0x1000000000000) % 0x100) as u8,
        ((x / 0x10000000000) % 0x100) as u8,
        ((x / 0x100000000) % 0x100) as u8,
        ((x / 0x1000000) % 0x100) as u8,
        ((x / 0x10000) % 0x100) as u8,
        ((x / 0x100) % 0x100) as u8,
        (x % 0x100) as u8,
    ]
}

/// The bytes of the `i`-th integer of a packed array.
pub open spec fn packed_entry(packed: Seq<u8>, i: int) -> Seq<u8> {
    packed.subrange(8 * i, 8 * i + 8)
}

/// The `i`-th integer of a packed array.
pub open spec fn packed_value(packed: Seq<u8>, i: int) -> u64 {
    be_u64_value(packed_entry(packed, i)) as u64
}

/// A sequence of integers packed as big-endian bytes, one after the other.
pub open spec fn pack_u64s(xs: Seq<u64>) -> Seq<u8>
    decreases xs.len(),
{
    if xs.len() == 0 {
        seq![]
    } else {
        pack_u64s(xs.drop_last()) + be_u64_bytes(xs.last())
    }
}

/// The settings that a packed key array and a packed value array describe:
/// one pair for each whole key in `keys`, with the value at the same place in
/// `vals`. Trailing key bytes that do not make up a whole key are ignored.
pub open spec fn decoded_settings(keys: Seq<u8>, vals: Seq<u8>) -> Seq<(u64, u64)> {
    Seq::new((keys.len() / 8) as nat, |i: int| (packed_value(keys, i), packed_value(vals, i)))
}

/// Setting identifiers that quiche sends on its own behalf and therefore
/// refuses among additional settings: QPACK_MAX_TABLE_CAPACITY,
/// MAX_FIELD_SECTION_SIZE, QPACK_BLOCKED_STREAMS, ENABLE_CONNECT_PROTOCOL and
/// the two H3_DATAGRAM identifiers.
pub open spec fn reserved_setting_id(id: u64) -> bool {
    id == 0x1 || id == 0x6 || id == 0x7 || id == 0x8 || id == 0x33 || id == 0x276
}

/// Additional settings that quiche takes: no identifier twice, and none that
/// it sends on its own behalf.
pub open spec fn settings_acceptable(settings: Seq<(u64, u64)>) -> bool {
    &&& forall|i: int, j: int|
        0 <= i < j < settings.len() ==> #[trigger] settings[i].0 != #[trigger] settings[j].0
    &&& forall|i: int| 0 <= i < settings.len() ==> !reserved_setting_id(#[trigger] settings[i].0)
}

/// The identifiers of a list of settings.
pub open spec fn setting_ids(settings: Seq<(u64, u64)>) -> Seq<u64> {
    settings.map_values(|p: (u64, u64)| p.0)
}

/// The values of a list of settings.
pub open spec fn setting_values(settings: Seq<(u64, u64)>) -> Seq<u64> {
    settings.map_values(|p: (u64, u64)| p.1)
}

/// Reads the big-endian integer at `off`.
fn read_be_u64(b: &[u8], off: usize) -> (v: u64)
    requires
        off + 8 <= b.len(),
    ensures
        v == be_u64_value(b@.subrange(off as int, off + 8)),
{
    let v = (b[off] as u64) * 0x100000000000000 + (b[off + 1] as u64) * 0x1000000000000 + (b[off
        + 2] as u64) * 0x10000000000 + (b[off + 3] as u64) * 0x100000000 + (b[off + 4] as u64)
        * 0x1000000 + (b[off + 5] as u64) * 0x10000 + (b[off + 6] as u64) * 0x100 + (b[off
        + 7] as u64);
    assert(b@.subrange(off as int, off + 8)[0] == b[off as int]);
    v
}

/// Unpacks the settings: `keys.len() / 8` pairs, the `i`-th made of the
/// `i`-th big-endian integer of `keys` and of `vals`.
pub fn decode_settings(keys: &[u8], vals: &[u8]) -> (settings: Vec<(u64, u64)>)
    requires
        vals.len() >= keys.len() / 8 * 8,
    ensures
        settings@ == decoded_settings(keys@, vals@),
{
    let count = keys.len() / 8;
    let mut settings: Vec<(u64, u64)> = Vec::with_capacity(count);
    let mut i: usize = 0;
    while i < count
        invariant
            count == keys.len() / 8,
            vals.len() >= count * 8,
            i <= count,
            settings@ == decoded_settings(keys@, vals@).take(i as int),
        decreases count - i,
    {
        let off = i * 8;
        let key = read_be_u64(keys, off);
        let val = read_be_u64(vals, off);
        settings.push((key, val));
        i = i + 1;
    }
    settings
}

proof fn lemma_be_roundtrip(x: u64)
    ensures
        be_u64_value(be_u64_bytes(x)) == x,
{
    assert(x == (x / 0x100000000000000) * 0x100000000000000 + ((x / 0x1000000000000) % 0x100)
        * 0x1000000000000 + ((x / 0x10000000000) % 0x100) * 0x10000000000 + ((x / 0x100000000)
        % 0x100) * 0x100000000 + ((x / 0x1000000) % 0x100) * 0x1000000 + ((x / 0x10000) % 0x100)
        * 0x10000 + ((x / 0x100) % 0x100) * 0x100 + (x % 0x100)) by (bit_vector);
    assert(x / 0x100000000000000 < 0x100) by (bit_vector);
}

proof fn lemma_pack_len(xs: Seq<u64>)
    ensures
        pack_u64s(xs).len() == 8 * xs.len(),
    decreases xs.len(),
{
    if xs.len() > 0 {
        lemma_pack_len(xs.drop_last());
    }
}

proof fn lemma_pack_entry(xs: Seq<u64>, i: int)
    requires
        0 <= i < xs.len(),
    ensures
        packed_entry(pack_u64s(xs), i) == be_u64_bytes(xs[i]),
    decreases xs.len(),
{
    let prefix = pack_u64s(xs.drop_last());
    lemma_pack_len(xs.drop_last());
    assert(pack_u64s(xs) == prefix + be_u64_bytes(xs.last()));
    if i == xs.len() - 1 {
        assert(packed_entry(pack_u64s(xs), i) =~= be_u64_bytes(xs.last()));
    } else {
        lemma_pack_entry(xs.drop_last(), i);
        assert(packed_entry(pack_u64s(xs), i) =~= packed_entry(prefix, i));
    }
}

/// Packing settings into the two arrays and unpacking them gives the
/// settings back: each pair is found again, in its place.
pub proof fn lemma_settings_roundtrip(settings: Seq<(u64, u64)>)
    ensures
        decoded_settings(pack_u64s(setting_ids(settings)), pack_u64s(setting_values(settings)))
            == settings,
{
    let keys = pack_u64s(setting_ids(settings));
    let vals = pack_u64s(setting_values(settings));
    lemma_pack_len(setting_ids(settings));
    lemma_pack_len(setting_values(settings));
    assert(keys.len() / 8 == settings.len());
    assert forall|i: int| 0 <= i < settings.len() implies #[trigger] decoded_settings(
        keys,
        vals,
    )[i] == settings[i] by {
        lemma_pack_entry(setting_ids(settings), i);
        lemma_pack_entry(setting_values(settings), i);
        lemma_be_roundtrip(settings[i].0);
        lemma_be_roundtrip(settings[i].1);
    }
    assert(decoded_settings(keys, vals) =~= settings);
}

/// Whether quiche takes settings that Java packed into the two arrays
/// depends on the settings alone: unpacking gives back exactly the pairs
/// that were packed, so their identifiers are judged as they were given.
pub proof fn lemma_packed_settings_judged_as_given(settings: Seq<(u64, u64)>)
    ensures
        settings_acceptable(
            decoded_settings(pack_u64s(setting_ids(settings)), pack_u64s(setting_values(settings))),
        ) == settings_acceptable(settings),
{
    lemma_settings_roundtrip(settings);
}

} // verus!
