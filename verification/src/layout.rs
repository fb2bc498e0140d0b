//! The stored form of a bot record: a fixed-width run of bytes.
//!
//! In order: the owner's address, the identifier hash, the vault's address,
//! the creation time in eight bytes (least significant first), the
//! derivation nonce, and the pause flag as a byte that is zero or one.

use vstd::prelude::*;
use vstd::bytes::{
    lemma_auto_spec_u64_to_from_le_bytes, spec_u64_from_le_bytes, spec_u64_to_le_bytes,
    u64_from_le_bytes, u64_to_le_bytes,
};
use vstd::slice::slice_subrange;
use crate::state::{Address, BotMeta};

verus! {

/// The byte that stands for a pause flag.
pub open spec fn flag_byte(paused: bool) -> u8 {
    if paused {
        1
    } else {
        0
    }
}

/// The stored form of a record.
pub open spec fn record_bytes(m: BotMeta) -> Seq<u8> {
    m.owner@ + m.bot_id_hash@ + m.vault@ + spec_u64_to_le_bytes(m.created_at as u64)
        + seq![m.bump] + seq![flag_byte(m.paused)]
}

/// Whether bytes are the stored form of some record: the right width, and
/// a pause flag that is zero or one.
pub open spec fn is_record(bytes: Seq<u8>) -> bool {
    bytes.len() == 106 && bytes[105] <= 1
}

/// Whether `m` is the record that `bytes` store, field by field.
pub open spec fn stores(bytes: Seq<u8>, m: BotMeta) -> bool {
    &&& m.owner@ == bytes.subrange(0, 32)
    &&& m.bot_id_hash@ == bytes.subrange(32, 64)
    &&& m.vault@ == bytes.subrange(64, 96)
    &&& m.created_at == spec_u64_from_le_bytes(bytes.subrange(96, 104)) as i64
    &&& m.bump == bytes[104]
    &&& m.paused == (bytes[105] == 1)
}

/// Appends `part` to `out`.
pub(crate) fn append(out: &mut Vec<u8>, part: &[u8])
    ensures
        final(out)@ == old(out)@ + part@,
{
    let mut i: usize = 0;
    while i < part.len()
        invariant
            i <= part@.len(),
            out@ == old(out)@ + part@.subrange(0, i as int),
        decreases part@.len() - i,
    {
        out.push(part[i]);
        i += 1;
        assert(out@ =~= old(out)@ + part@.subrange(0, i as int));
    }
    assert(part@.subrange(0, part@.len() as int) =~= part@);
}

fn read_32(bytes: &[u8], at: usize) -> (out: [u8; 32])
    requires
        at + 32 <= bytes@.len(),
    ensures
        out@ == bytes@.subrange(at as int, at + 32),
{
    let mut out: [u8; 32] = [0u8; 32];
    let n: usize = bytes.len();
    let mut i: usize = 0;
    while i < 32
        invariant
            i <= 32,
            n == bytes@.len(),
            at + 32 <= n,
            forall|j: int| 0 <= j < i ==> out@[j] == bytes@[at + j],
        decreases 32 - i,
    {
        out[i] = bytes[at + i];
        i += 1;
    }
    assert(out@ =~= bytes@.subrange(at as int, at + 32));
    out
}

/// Writes a record in its stored form.
pub fn encode(m: &BotMeta) -> (bytes: Vec<u8>)
    ensures
        bytes@ == record_bytes(*m),
        bytes@.len() == 106,
{
    let mut bytes: Vec<u8> = Vec::with_capacity(106);
    append(&mut bytes, m.owner.bytes.as_slice());
    append(&mut bytes, m.bot_id_hash.as_slice());
    append(&mut bytes, m.vault.bytes.as_slice());
    let time = u64_to_le_bytes(m.created_at as u64);
    append(&mut bytes, time.as_slice());
    bytes.push(m.bump);
    bytes.push(if m.paused { 1 } else { 0 });
    assert(bytes@ =~= record_bytes(*m));
    bytes
}

/// Reads a record from its stored form: `Some` exactly for bytes of the
/// right width whose pause flag is zero or one, and then the record whose
/// every field is what the bytes store.
pub fn decode(bytes: &[u8]) -> (r: Option<BotMeta>)
    ensures
        r is Some <==> is_record(bytes@),
        r is Some ==> stores(bytes@, r->Some_0),
{
    if bytes.len() != 106 || bytes[105] > 1 {
        return None;
    }
    let owner = read_32(bytes, 0);
    let bot_id_hash = read_32(bytes, 32);
    let vault = read_32(bytes, 64);
    let time = u64_from_le_bytes(slice_subrange(bytes, 96, 104));
    Some(BotMeta {
        owner: Address { bytes: owner },
        bot_id_hash,
        vault: Address { bytes: vault },
        created_at: time as i64,
        bump: bytes[104],
        paused: bytes[105] == 1,
    })
}

/// What is written is what is read back: the stored form of any record is
/// well formed and stores that record, so that decoding after encoding
/// yields the record's own fields.
pub proof fn stored_form_round_trips(m: BotMeta)
    ensures
        is_record(record_bytes(m)),
        stores(record_bytes(m), m),
{
    lemma_auto_spec_u64_to_from_le_bytes();
    let b = record_bytes(m);
    let t = spec_u64_to_le_bytes(m.created_at as u64);
    assert(t.len() == 8);
    assert(b.subrange(0, 32) =~= m.owner@);
    assert(b.subrange(32, 64) =~= m.bot_id_hash@);
    assert(b.subrange(64, 96) =~= m.vault@);
    assert(b.subrange(96, 104) =~= t);
    assert(spec_u64_from_le_bytes(t) == m.created_at as u64);
    let x = m.created_at;
    assert((x as u64) as i64 == x) by (bit_vector);
}

} // verus!
