//! What one frame copies into the GPU's sample storage.
//!
//! GPU buffers hold little-endian words, so a sample's bit pattern is laid
//! out as four bytes, least significant first.
use vstd::prelude::*;

verus! {

/// Byte `k` of `x`, counting from the least significant.
pub open spec fn byte_of(x: u32, k: int) -> u8 {
    ((x >> ((8 * k) as u32)) & 0xffu32) as u8
}

/// The little-endian bytes of `s`, four per sample.
pub open spec fn le_bytes(s: Seq<u32>) -> Seq<u8> {
    Seq::new(4 * s.len(), |j: int| byte_of(s[j / 4], j % 4))
}

/// The word made of bytes `4 * i .. 4 * i + 4` of `b`, little-endian.
pub open spec fn word_at(b: Seq<u8>, i: int) -> u32 {
    (b[4 * i] as u32) | ((b[4 * i + 1] as u32) << 8u32) | ((b[4 * i + 2] as u32) << 16u32) | ((
    b[4 * i + 3] as u32) << 24u32)
}

/// `storage` after the first `size` bytes of `staging` are copied over its
/// first `size` bytes.
pub open spec fn after_copy(storage: Seq<u8>, staging: Seq<u8>, size: nat) -> Seq<u8> {
    staging.take(size as int) + storage.skip(size as int)
}

/// The little-endian bytes of `samples`.
pub fn sample_bytes(samples: &Vec<u32>) -> (r: Vec<u8>)
    ensures
        r@ == le_bytes(samples@),
{
    let mut out: Vec<u8> = Vec::new();
    let mut i: usize = 0;
    while i < samples.len()
        invariant
            i <= samples@.len(),
            out@ == le_bytes(samples@.take(i as int)),
        decreases samples@.len() - i,
    {
        let x = samples[i];
        out.push((x & 0xffu32) as u8);
        out.push(((x >> 8u32) & 0xffu32) as u8);
        out.push(((x >> 16u32) & 0xffu32) as u8);
        out.push(((x >> 24u32) & 0xffu32) as u8);
        proof {
            assert(x >> 0u32 == x) by (bit_vector);
            assert(out@ =~= le_bytes(samples@.take(i + 1)));
        }
        i = i + 1;
    }
    assert(samples@.take(i as int) == samples@);
    out
}

/// One frame's upload: a staging buffer, copied from its offset 0 to the
/// storage buffer's offset 0 for `copy_size` bytes.
pub struct UploadPlan {
    pub bytes: Vec<u8>,
    pub copy_size: u64,
}

/// Why a snapshot cannot be uploaded.
#[derive(Clone, Copy, Debug, PartialEq, Eq, Structural)]
pub enum UploadError {
    /// The snapshot holds more samples than the storage buffer.
    SnapshotTooLarge,
}

/// The upload of `snapshot` into a storage buffer of `storage_len` samples.
pub fn plan_upload(snapshot: &Vec<u32>, storage_len: usize) -> (r: Result<UploadPlan, UploadError>)
    requires
        4 * storage_len <= u64::MAX,
    ensures
        r is Err <==> snapshot@.len() > storage_len,
        r matches Ok(p) ==> {
            &&& p.bytes@ == le_bytes(snapshot@)
            &&& p.copy_size == 4 * snapshot@.len()
        },
{
    if snapshot.len() > storage_len {
        return Err(UploadError::SnapshotTooLarge);
    }
    let bytes = sample_bytes(snapshot);
    let copy_size: u64 = 4 * snapshot.len() as u64;
    Ok(UploadPlan { bytes, copy_size })
}

proof fn lemma_word_of_bytes(x: u32)
    ensures
        (byte_of(x, 0) as u32) | ((byte_of(x, 1) as u32) << 8u32) | ((byte_of(x, 2) as u32)
            << 16u32) | ((byte_of(x, 3) as u32) << 24u32) == x,
{
    assert((((x >> 0u32) & 0xffu32) as u8 as u32) | (((((x >> 8u32) & 0xffu32) as u8) as u32)
        << 8u32) | (((((x >> 16u32) & 0xffu32) as u8) as u32) << 16u32) | (((((x >> 24u32)
        & 0xffu32) as u8) as u32) << 24u32) == x) by (bit_vector);
}

/// After a frame's copy, the storage buffer starts with the snapshot, byte
/// for byte; each of its first words reads back as the sample; the rest of
/// the buffer is as it was.
pub proof fn lemma_upload_faithful(storage: Seq<u8>, snapshot: Seq<u32>, plan_bytes: Seq<u8>, copy_size: nat)
    requires
        plan_bytes == le_bytes(snapshot),
        copy_size == 4 * snapshot.len(),
        copy_size <= storage.len(),
    ensures
        after_copy(storage, plan_bytes, copy_size).len() == storage.len(),
        after_copy(storage, plan_bytes, copy_size).take(copy_size as int) == le_bytes(snapshot),
        after_copy(storage, plan_bytes, copy_size).skip(copy_size as int) == storage.skip(copy_size as int),
        forall|i: int| 0 <= i < snapshot.len() ==> word_at(after_copy(storage, plan_bytes, copy_size), i) == snapshot[i],
{
    let after = after_copy(storage, plan_bytes, copy_size);
    assert(after.take(copy_size as int) =~= le_bytes(snapshot));
    assert(after.skip(copy_size as int) =~= storage.skip(copy_size as int));
    assert forall|i: int| 0 <= i < snapshot.len() implies word_at(after, i) == snapshot[i] by {
        assert(after[4 * i] == byte_of(snapshot[i], 0));
        assert(after[4 * i + 1] == byte_of(snapshot[i], 1));
        assert(after[4 * i + 2] == byte_of(snapshot[i], 2));
        assert(after[4 * i + 3] == byte_of(snapshot[i], 3));
        lemma_word_of_bytes(snapshot[i]);
    }
}

} // verus!
