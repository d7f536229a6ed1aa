//! Stable hashes of job ids and the shard function built on them.
//!
//! Both hashes are fixed algorithms over the UTF-8 bytes of the id: the same
//! id hashes to the same number in every process, after every restart and on
//! every platform. FNV-1a is computed here and proved against its
//! definition; XXH64, on which sharding rests, is computed by `twox_hash`.

use vstd::prelude::*;
use vstd::string::*;

verus! {

/// Offset basis of 64-bit FNV-1a.
pub const FNV_OFFSET_BASIS: u64 = 0xcbf2_9ce4_8422_2325;

/// Prime of 64-bit FNV-1a.
pub const FNV_PRIME: u64 = 0x0000_0100_0000_01b3;

/// One round of FNV-1a: mix the byte in, then multiply modulo 2^64.
pub open spec fn fnv1a_round(h: u64, b: u8) -> u64 {
    (((h ^ (b as u64)) as int * FNV_PRIME as int) % 0x1_0000_0000_0000_0000) as u64
}

/// 64-bit FNV-1a of a byte sequence.
pub open spec fn fnv1a64(bytes: Seq<u8>) -> u64
    decreases bytes.len(),
{
    if bytes.len() == 0 {
        FNV_OFFSET_BASIS
    } else {
        fnv1a_round(fnv1a64(bytes.drop_last()), bytes.last())
    }
}

/// The UTF-8 bytes of a job id.
pub open spec fn id_bytes(job_id: Seq<char>) -> Seq<u8> {
    vstd::utf8::encode_utf8(job_id)
}

/// 64-bit FNV-1a of the UTF-8 bytes of `job_id`.
pub fn hash_job_id_u64(job_id: &str) -> (h: u64)
    ensures
        h == fnv1a64(id_bytes(job_id@)),
{
    let bytes = job_id.as_bytes();
    let mut h: u64 = FNV_OFFSET_BASIS;
    let mut i: usize = 0;
    assert(bytes@.take(0) =~= Seq::<u8>::empty());
    while i < bytes.len()
        invariant
            i <= bytes@.len(),
            bytes@ == id_bytes(job_id@),
            h == fnv1a64(bytes@.take(i as int)),
        decreases bytes@.len() - i,
    {
        let b: u8 = bytes[i];
        proof {
            let next = bytes@.take(i + 1);
            assert(next.drop_last() =~= bytes@.take(i as int));
            assert(next.last() == b);
        }
        h = (h ^ (b as u64)).wrapping_mul(FNV_PRIME);
        i = i + 1;
    }
    assert(bytes@.take(i as int) =~= bytes@);
    h
}

/// A hash of a job id: 64-bit FNV-1a of its UTF-8 bytes, cut to the width
/// of `usize`.
pub fn hash_job_id(job_id: &str) -> (h: usize)
    ensures
        h as int == fnv1a64(id_bytes(job_id@)) as int % (usize::MAX as int + 1),
{
    cut_to_usize(hash_job_id_u64(job_id))
}

/// A 64-bit hash cut to the width of `usize`: its low bits.
pub fn cut_to_usize(hash: u64) -> (low: usize)
    ensures
        low as int == hash as int % (usize::MAX as int + 1),
{
    let low = hash & (usize::MAX as u64);
    assert(low as int == hash as int % (usize::MAX as int + 1)) by {
        lemma_low_bits(hash);
    }
    low as usize
}

/// The shard of a 64-bit hash among `total_shards` shards: the hash modulo
/// the shard count, taken on all 64 bits.
pub fn shard_of_hash(hash: u64, total_shards: usize) -> (shard: usize)
    requires
        total_shards > 0,
    ensures
        shard as int == hash as int % total_shards as int,
        shard < total_shards,
{
    (hash % (total_shards as u64)) as usize
}

proof fn lemma_low_bits(x: u64)
    ensures
        (x & (usize::MAX as u64)) as int == x as int % (usize::MAX as int + 1),
{
    let mask = usize::MAX as u64;
    if usize::BITS == 32 {
        assert(mask == 0xffff_ffffu64);
        assert(x & 0xffff_ffffu64 == x % 0x1_0000_0000u64) by (bit_vector);
    } else {
        assert(usize::BITS == 64);
        assert(mask == 0xffff_ffff_ffff_ffffu64);
        assert(x & 0xffff_ffff_ffff_ffffu64 == x) by (bit_vector);
    }
}

/// What `twox_hash::XxHash64::oneshot` returns for a seed and a byte string.
pub uninterp spec fn xxh64(seed: u64, data: Seq<u8>) -> u64;

/// `twox_hash::XxHash64::oneshot`: the XXH64 digest of `data` under `seed`.
/// The digest is a function of the two arguments alone; nothing more is
/// claimed of it.
#[verifier::external_body]
fn xxh64_oneshot(seed: u64, data: &[u8]) -> (h: u64)
    ensures
        h == xxh64(seed, data@),
{
    twox_hash::XxHash64::oneshot(seed, data)
}

/// The hash by which jobs are sharded: XXH64, seed 0, of the UTF-8 bytes of
/// the id.
pub open spec fn stable_hash(job_id: Seq<char>) -> u64 {
    xxh64(0, id_bytes(job_id))
}

/// The stable hash of a job id, cut to the width of `usize`.
pub fn stable_hash_job_id(job_id: &str) -> (h: usize)
    ensures
        h as int == stable_hash(job_id@) as int % (usize::MAX as int + 1),
{
    cut_to_usize(xxh64_oneshot(0, job_id.as_bytes()))
}

/// The shard that owns `job_id` among `total_shards` shards.
pub open spec fn shard_of(job_id: Seq<char>, total_shards: int) -> int {
    stable_hash(job_id) as int % total_shards
}

/// `shard_index(id, n) = hash(id) mod n`, taken on the full 64-bit hash so
/// that the answer does not depend on the width of `usize`.
pub fn shard_index(job_id: &str, total_shards: usize) -> (shard: usize)
    requires
        total_shards > 0,
    ensures
        shard as int == shard_of(job_id@, total_shards as int),
        shard < total_shards,
{
    shard_of_hash(xxh64_oneshot(0, job_id.as_bytes()), total_shards)
}

/// Shard determinism: the shard of an id is a function of the id and the
/// shard count, and it always names one of the shards.
pub proof fn lemma_shard_in_range(job_id: Seq<char>, total_shards: int)
    requires
        total_shards > 0,
    ensures
        0 <= shard_of(job_id, total_shards) < total_shards,
{
}

} // verus!
