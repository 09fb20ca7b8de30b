use vstd::prelude::*;

verus! {

/// A 256-bit digest held as four 64-bit words.
///
/// Block roots, proposal roots and signing roots are all 32-byte values;
/// four plain words keep every bit of a digest visible to the verifier.
#[derive(Clone, Copy, Debug, PartialEq, Eq, Structural)]
pub struct Hash256 {
    pub w0: u64,
    pub w1: u64,
    pub w2: u64,
    pub w3: u64,
}

/// One absorption step of the word hash: fold `x` into the running state
/// `h`, then diffuse the result with xor-shifts.
pub open spec fn mix(h: u64, x: u64) -> u64 {
    let a = h ^ x;
    let b = a ^ (a << 13);
    let c = b ^ (b >> 7);
    c ^ (c << 17)
}

fn mix_step(h: u64, x: u64) -> (r: u64)
    ensures
        r == mix(h, x),
{
    let a: u64 = h ^ x;
    let b: u64 = a ^ (a << 13);
    let c: u64 = b ^ (b >> 7);
    c ^ (c << 17)
}

/// The running state after absorbing every word of `ws`, starting from `seed`.
pub open spec fn spec_words_hash(seed: u64, ws: Seq<u64>) -> u64
    decreases ws.len(),
{
    if ws.len() == 0 {
        seed
    } else {
        mix(spec_words_hash(seed, ws.drop_last()), ws.last())
    }
}

/// A digest of a word sequence under a domain `seed`: fold the words into one
/// state, then squeeze four output words by chained finalisation steps.
pub open spec fn spec_words_digest(seed: u64, ws: Seq<u64>) -> Hash256 {
    let h = spec_words_hash(seed, ws);
    let w0 = mix(h, 1);
    let w1 = mix(w0, 2);
    let w2 = mix(w1, 3);
    let w3 = mix(w2, 4);
    Hash256 { w0, w1, w2, w3 }
}

/// Digest a word sequence under a domain seed.
pub fn words_digest(seed: u64, ws: &Vec<u64>) -> (r: Hash256)
    ensures
        r == spec_words_digest(seed, ws@),
{
    let mut h: u64 = seed;
    let mut i: usize = 0;
    while i < ws.len()
        invariant
            i <= ws@.len(),
            h == spec_words_hash(seed, ws@.subrange(0, i as int)),
        decreases ws@.len() - i,
    {
        proof {
            assert(ws@.subrange(0, i + 1).drop_last() =~= ws@.subrange(0, i as int));
            assert(ws@.subrange(0, i + 1).last() == ws@[i as int]);
        }
        h = mix_step(h, ws[i]);
        i = i + 1;
    }
    proof {
        assert(ws@.subrange(0, ws@.len() as int) =~= ws@);
    }
    let w0 = mix_step(h, 1);
    let w1 = mix_step(w0, 2);
    let w2 = mix_step(w1, 3);
    let w3 = mix_step(w2, 4);
    Hash256 { w0, w1, w2, w3 }
}

} // verus!
