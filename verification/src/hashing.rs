//! The fossil fingerprint: the exact byte string hashed at a mutation and
//! the SHA-256 digest taken over it.

use vstd::prelude::*;

use vstd::bytes::{spec_u64_to_le_bytes, u64_to_le_bytes};

verus! {

/// The SHA-256 digest of a byte string: 32 bytes, a function of the input
/// bytes alone.
pub uninterp spec fn sha256_of(data: Seq<u8>) -> Seq<u8>;

/// Relies on solana_sha256_hasher::hash: the SHA-256 digest of the input
/// bytes, a pure function of them; Hash::to_bytes returns the 32 digest
/// bytes unchanged.
#[verifier::external_body]
fn sha256_32(data: &Vec<u8>) -> (r: [u8; 32])
    ensures
        r@ == sha256_of(data@),
{
    solana_sha256_hasher::hash(data.as_slice()).to_bytes()
}

/// The exact byte string fingerprinted at a mutation: the little-endian
/// completed epoch id, transfer count and volume, the single classification
/// byte, and the little-endian mutation timestamp, in that order. The
/// timestamp contributes its two's-complement bytes, which the cast to `u64`
/// preserves.
pub open spec fn genome_message_spec(
    epoch_id: u64,
    tx_count: u64,
    total_volume: u64,
    state_code: u8,
    now: i64,
) -> Seq<u8> {
    spec_u64_to_le_bytes(epoch_id) + spec_u64_to_le_bytes(tx_count) + spec_u64_to_le_bytes(
        total_volume,
    ) + seq![state_code] + spec_u64_to_le_bytes(now as u64)
}

/// The fossil fingerprint: the SHA-256 digest of the genome message.
pub open spec fn genome_hash_spec(
    epoch_id: u64,
    tx_count: u64,
    total_volume: u64,
    state_code: u8,
    now: i64,
) -> Seq<u8> {
    sha256_of(genome_message_spec(epoch_id, tx_count, total_volume, state_code, now))
}

fn genome_message(
    epoch_id: u64,
    tx_count: u64,
    total_volume: u64,
    state_code: u8,
    now: i64,
) -> (m: Vec<u8>)
    ensures
        m@ == genome_message_spec(epoch_id, tx_count, total_volume, state_code, now),
{
    let mut m = u64_to_le_bytes(epoch_id);
    let mut part = u64_to_le_bytes(tx_count);
    m.append(&mut part);
    let mut part = u64_to_le_bytes(total_volume);
    m.append(&mut part);
    m.push(state_code);
    let mut part = u64_to_le_bytes(#[verifier::truncate] (now as u64));
    m.append(&mut part);
    assert(m@ =~= genome_message_spec(epoch_id, tx_count, total_volume, state_code, now));
    m
}

/// Computes the fingerprint of one completed epoch from its five defining
/// inputs. Bit-reproducible: the result depends on these inputs alone.
pub fn genome_hash(
    epoch_id: u64,
    tx_count: u64,
    total_volume: u64,
    state_code: u8,
    now: i64,
) -> (h: [u8; 32])
    ensures
        h@ == genome_hash_spec(epoch_id, tx_count, total_volume, state_code, now),
{
    let m = genome_message(epoch_id, tx_count, total_volume, state_code, now);
    sha256_32(&m)
}

} // verus!
