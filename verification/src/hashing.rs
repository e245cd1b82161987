//! The randomness of a new kitty: the hash of the encoded random seed, sender and
//! extrinsic index.

use vstd::prelude::*;

verus! {

/// What `sp_io::hashing::blake2_128` returns on `data`: the 16-byte Blake2b digest.
pub uninterp spec fn spec_blake2_128(data: Seq<u8>) -> Seq<u8>;

/// Calls `sp_io::hashing::blake2_128`, the Blake2b hash with a 128-bit output.
/// Claimed: the digest is the value of `spec_blake2_128` on the input bytes.
#[verifier::external_body]
fn blake2_128(data: &[u8]) -> (r: [u8; 16])
    ensures
        r@ == spec_blake2_128(data@),
{
    sp_io::hashing::blake2_128(data)
}

/// The `n` little-endian bytes of `x` (the SCALE encoding of a fixed-width unsigned integer).
pub open spec fn le_bytes(x: nat, n: nat) -> Seq<u8>
    decreases n,
{
    if n == 0 {
        Seq::empty()
    } else {
        seq![(x % 256) as u8] + le_bytes(x / 256, (n - 1) as nat)
    }
}

/// The SCALE encoding of an `Option<u32>`: a tag byte, then the value if present.
pub open spec fn scale_option_u32(x: Option<u32>) -> Seq<u8> {
    match x {
        None => seq![0u8],
        Some(v) => seq![1u8] + le_bytes(v as nat, 4),
    }
}

/// The SCALE encoding of the tuple `(seed, who, extrinsic_index)` where `seed` is a
/// 32-byte hash: the seed bytes, the 8 little-endian bytes of `who`, then the option.
pub open spec fn scale_payload(seed: Seq<u8>, who: u64, extrinsic_index: Option<u32>) -> Seq<u8> {
    seed + le_bytes(who as nat, 8) + scale_option_u32(extrinsic_index)
}

/// Appends the `n` little-endian bytes of `x` to `out`.
fn push_le(out: &mut Vec<u8>, x: u64, n: usize)
    requires
        n <= 8,
    ensures
        final(out)@ == old(out)@ + le_bytes(x as nat, n as nat),
    decreases n,
{
    if n > 0 {
        let ghost start = out@;
        out.push((x % 256) as u8);
        push_le(out, x / 256, n - 1);
        assert(out@ =~= start + le_bytes(x as nat, n as nat));
    } else {
        assert(out@ =~= old(out)@ + le_bytes(x as nat, n as nat));
    }
}

/// The SCALE encoding of `(seed, who, extrinsic_index)` with `seed` a 32-byte hash.
pub fn encode_payload(seed: &[u8; 32], who: u64, extrinsic_index: Option<u32>) -> (r: Vec<u8>)
    ensures
        r@ == scale_payload(seed@, who, extrinsic_index),
{
    let mut out: Vec<u8> = Vec::new();
    for i in 0..32
        invariant
            seed@.len() == 32,
            out@ == seed@.subrange(0, i as int),
    {
        out.push(seed[i]);
        assert(out@ =~= seed@.subrange(0, i + 1));
    }
    assert(out@ =~= seed@);
    push_le(&mut out, who, 8);
    let ghost before_index = out@;
    match extrinsic_index {
        None => {
            out.push(0);
        },
        Some(v) => {
            out.push(1);
            push_le(&mut out, v as u64, 4);
        },
    }
    assert(out@ =~= before_index + scale_option_u32(extrinsic_index));
    out
}

/// The 16 random bytes drawn for `who`: the Blake2b-128 hash of the encoded payload.
pub open spec fn spec_random_value(seed: Seq<u8>, who: u64, extrinsic_index: Option<u32>) -> Seq<u8> {
    spec_blake2_128(scale_payload(seed, who, extrinsic_index))
}

/// Draws 16 random bytes for `who` from the block's random seed and the index of the
/// extrinsic being applied.
pub fn random_value(seed: &[u8; 32], who: u64, extrinsic_index: Option<u32>) -> (r: [u8; 16])
    ensures
        r@ == spec_random_value(seed@, who, extrinsic_index),
{
    let payload = encode_payload(seed, who, extrinsic_index);
    blake2_128(payload.as_slice())
}

} // verus!
