//! The entropy synthesizer: derives a 128-bit pseudo-random value from the
//! epoch's random seed, the caller's identity, and a per-epoch sequence
//! counter that advances once per call. The three inputs are concatenated in
//! a fixed little-endian encoding and passed through a 128-bit Blake2 hash,
//! so identical inputs always yield identical output.

use vstd::prelude::*;

use crate::currency::AccountId;

verus! {

/// The 16-byte Blake2b digest of `input`. The digest is a function of the
/// input bytes alone; no short formula states it, so it is only named here,
/// and every contract that mentions a synthesized value speaks through this
/// name.
pub uninterp spec fn blake2_128_of(input: Seq<u8>) -> Seq<u8>;

/// Relies on `sp_io::hashing::blake2_128` (which delegates to
/// `sp_crypto_hashing::blake2_128`): the 16-byte Blake2b digest of `data`,
/// a pure function of the input bytes alone.
#[verifier::external_body]
fn blake2_128(data: &[u8]) -> (r: [u8; 16])
    ensures
        r@ == blake2_128_of(data@),
{
    sp_io::hashing::blake2_128(data)
}

/// Byte `i` of the little-endian encoding of `x`.
pub open spec fn u64_le_byte(x: u64, i: int) -> u8 {
    ((x >> ((8 * i) as u64)) & 0xff) as u8
}

/// The 8-byte little-endian encoding of `x`.
pub open spec fn u64_le_bytes(x: u64) -> Seq<u8> {
    Seq::new(8, |i: int| u64_le_byte(x, i))
}

/// The fixed encoding hashed by the synthesizer: the 16 seed bytes, then the
/// caller's identity, then the sequence counter, both little-endian.
pub open spec fn synth_payload(seed: Seq<u8>, who: AccountId, counter: u64) -> Seq<u8> {
    seed + u64_le_bytes(who) + u64_le_bytes(counter)
}

/// The sequence counter after one call, wrapping at the top of the range.
pub open spec fn counter_step(c: u64) -> u64 {
    if c == u64::MAX {
        0
    } else {
        (c + 1) as u64
    }
}

/// Append the little-endian bytes of `x` to `out`.
fn push_u64_le(out: &mut Vec<u8>, x: u64)
    ensures
        final(out)@ == old(out)@ + u64_le_bytes(x),
{
    let mut i: usize = 0;
    while i < 8
        invariant
            i <= 8,
            out@ == old(out)@ + u64_le_bytes(x).take(i as int),
        decreases 8 - i,
    {
        let b: u8 = ((x >> ((8 * i) as u64)) & 0xff) as u8;
        out.push(b);
        proof {
            assert(b == u64_le_byte(x, i as int));
            assert(u64_le_bytes(x).take(i + 1 as int) =~= u64_le_bytes(x).take(i as int).push(b));
            assert(out@ =~= old(out)@ + u64_le_bytes(x).take(i + 1 as int));
        }
        i = i + 1;
    }
    proof {
        assert(u64_le_bytes(x).take(8) =~= u64_le_bytes(x));
        assert(out@ =~= old(out)@ + u64_le_bytes(x));
    }
}

/// The entropy synthesizer: the epoch's externally supplied random seed and
/// the per-epoch sequence counter.
pub struct Synthesizer {
    pub seed: [u8; 16],
    pub counter: u64,
}

impl Synthesizer {
    /// A synthesizer for a fresh epoch: the given seed, counter at zero.
    pub fn new(seed: [u8; 16]) -> (s: Synthesizer)
        ensures
            s.seed == seed,
            s.counter == 0,
    {
        Synthesizer { seed, counter: 0 }
    }

    /// Derive a 128-bit value for `who` and advance the sequence counter.
    /// Never fails; identical (seed, identity, counter) inputs always yield
    /// the identical value.
    pub fn synthesize(&mut self, who: AccountId) -> (r: [u8; 16])
        ensures
            r@ == blake2_128_of(synth_payload(old(self).seed@, who, old(self).counter)),
            final(self).seed == old(self).seed,
            final(self).counter == counter_step(old(self).counter),
    {
        let seed = self.seed;
        let mut payload: Vec<u8> = Vec::new();
        let mut i: usize = 0;
        while i < 16
            invariant
                i <= 16,
                seed == old(self).seed,
                payload@ == seed@.take(i as int),
        decreases 16 - i,
        {
            payload.push(seed[i]);
            proof {
                assert(seed@.take(i + 1 as int) =~= seed@.take(i as int).push(seed@[i as int]));
            }
            i = i + 1;
        }
        proof {
            assert(seed@.take(16) =~= seed@);
        }
        push_u64_le(&mut payload, who);
        push_u64_le(&mut payload, self.counter);
        let digest = blake2_128(payload.as_slice());
        if self.counter == u64::MAX {
            self.counter = 0;
        } else {
            self.counter = self.counter + 1;
        }
        digest
    }
}

} // verus!
