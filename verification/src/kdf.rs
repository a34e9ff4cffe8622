//! The single-step concatenation key-derivation function (Concat KDF) with
//! SHA-256, keyed by the algorithm context read from the header.

use vstd::prelude::*;

use crate::backend::{sha256, sha256_of};
use crate::errors::Reason;
use vstd::string::StringSliceAdditionalSpecFns;

verus! {

/// The big-endian four-byte encoding of a 32-bit integer.
pub open spec fn be32(n: u32) -> Seq<u8> {
    seq![(n >> 24) as u8, (n >> 16) as u8, (n >> 8) as u8, n as u8]
}

/// The bytes a sequence option contributes to a hash round: an absent
/// value contributes nothing.
pub open spec fn opt_bytes(b: Option<Seq<u8>>) -> Seq<u8> {
    match b {
        Some(s) => s,
        None => Seq::empty(),
    }
}

/// The input of hash round `i`: the round counter, the shared secret, the
/// content-encryption algorithm identifier, the optional party infos, and
/// the requested key length in bits.
pub open spec fn kdf_round_input(
    i: u32,
    z: Seq<u8>,
    enc: Seq<u8>,
    apu: Option<Seq<u8>>,
    apv: Option<Seq<u8>>,
    out_len: usize,
) -> Seq<u8> {
    be32(i) + z + enc + opt_bytes(apu) + opt_bytes(apv) + be32((out_len * 8) as u32)
}

/// The concatenation of the first `rounds` hash rounds, in order.
pub open spec fn kdf_accum(
    rounds: nat,
    z: Seq<u8>,
    enc: Seq<u8>,
    apu: Option<Seq<u8>>,
    apv: Option<Seq<u8>>,
    out_len: usize,
) -> Seq<u8>
    decreases rounds,
{
    if rounds == 0 {
        Seq::empty()
    } else {
        kdf_accum((rounds - 1) as nat, z, enc, apu, apv, out_len) + sha256_of(
            kdf_round_input(rounds as u32, z, enc, apu, apv, out_len),
        )
    }
}

/// How many hash rounds a key of `out_len` bytes needs: enough whole
/// SHA-256 blocks to cover it.
pub open spec fn kdf_rounds_needed(out_len: usize) -> nat {
    ((out_len + 31) / 32) as nat
}

/// The derived key: the accumulated hash rounds, truncated to the
/// requested length.
pub open spec fn concat_kdf_spec(
    z: Seq<u8>,
    enc: Seq<u8>,
    apu: Option<Seq<u8>>,
    apv: Option<Seq<u8>>,
    out_len: usize,
) -> Seq<u8> {
    kdf_accum(kdf_rounds_needed(out_len), z, enc, apu, apv, out_len).take(out_len as int)
}

/// The view of an optional borrowed byte string.
pub open spec fn opt_view(o: Option<&Vec<u8>>) -> Option<Seq<u8>> {
    match o {
        Some(v) => Some(v@),
        None => None,
    }
}

/// Appends a byte slice to a vector.
fn push_all(dst: &mut Vec<u8>, src: &[u8])
    ensures
        final(dst)@ == old(dst)@ + src@,
{
    let n = src.len();
    let mut i: usize = 0;
    while i < n
        invariant
            n == src@.len(),
            i <= n,
            dst@ == old(dst)@ + src@.take(i as int),
        decreases n - i,
    {
        let b: u8 = *vstd::slice::slice_index_get(src, i);
        dst.push(b);
        proof {
            assert(src@.take(i + 1) == src@.take(i as int).push(src@[i as int]));
            assert(old(dst)@ + src@.take(i + 1) == (old(dst)@ + src@.take(i as int)).push(
                src@[i as int],
            ));
        }
        i = i + 1;
    }
    proof {
        assert(src@.take(n as int) == src@);
    }
}

/// The largest key length whose bit count fits the four-byte counter that
/// the KDF hashes.
pub open spec fn max_kdf_len() -> usize {
    536870911usize
}

fn be32_bytes(n: u32) -> (r: Vec<u8>)
    ensures
        r@ == be32(n),
{
    let mut v: Vec<u8> = Vec::new();
    v.push((n >> 24) as u8);
    v.push((n >> 16) as u8);
    v.push((n >> 8) as u8);
    v.push(n as u8);
    proof {
        assert(v@ =~= be32(n));
    }
    v
}

/// Derives `out_len` bytes from the shared secret `z` and the algorithm
/// context: rounds of SHA-256 over a counter and the context are
/// concatenated until they cover the requested length, then truncated to
/// it exactly. Deterministic in all of its inputs; fails only if the hash
/// backend fails.
pub fn concat_kdf(
    z: &Vec<u8>,
    enc: &str,
    apu: Option<&Vec<u8>>,
    apv: Option<&Vec<u8>>,
    out_len: usize,
) -> (r: Result<Vec<u8>, Reason>)
    requires
        out_len <= max_kdf_len(),
    ensures
        match r {
            Ok(k) => k@ == concat_kdf_spec(z@, enc.spec_bytes(), opt_view(apu), opt_view(apv), out_len)
                && k@.len() == out_len,
            Err(rea) => rea == Reason::BackendFailure,
        },
{
    let ghost genc: Seq<u8> = enc.spec_bytes();
    let ghost gapu: Option<Seq<u8>> = opt_view(apu);
    let ghost gapv: Option<Seq<u8>> = opt_view(apv);
    let enc_bytes: &[u8] = enc.as_bytes();
    let rounds: usize = (out_len + 31) / 32;
    let mut key: Vec<u8> = Vec::new();
    let mut i: usize = 0;
    while i < rounds
        invariant
            rounds == kdf_rounds_needed(out_len),
            out_len <= max_kdf_len(),
            i <= rounds,
            enc_bytes@ == genc,
            gapu == opt_view(apu),
            gapv == opt_view(apv),
            key@ == kdf_accum(i as nat, z@, genc, gapu, gapv, out_len),
            key@.len() == i * 32,
        decreases rounds - i,
    {
        let counter: u32 = (i as u32) + 1;
        let mut input: Vec<u8> = Vec::new();
        let counter_bytes = be32_bytes(counter);
        push_all(&mut input, counter_bytes.as_slice());
        push_all(&mut input, z.as_slice());
        push_all(&mut input, enc_bytes);
        match apu {
            Some(v) => push_all(&mut input, v.as_slice()),
            None => (),
        }
        match apv {
            Some(v) => push_all(&mut input, v.as_slice()),
            None => (),
        }
        let bits_bytes = be32_bytes((out_len as u32) * 8);
        push_all(&mut input, bits_bytes.as_slice());
        proof {
            assert(input@ =~= kdf_round_input(counter, z@, genc, gapu, gapv, out_len));
        }
        let digest = match sha256(&input) {
            Ok(d) => d,
            Err(_) => {
                return Err(Reason::BackendFailure);
            },
        };
        push_all(&mut key, digest.as_slice());
        proof {
            assert(key@ == kdf_accum((i + 1) as nat, z@, genc, gapu, gapv, out_len));
        }
        i = i + 1;
    }
    if key.len() != out_len {
        key.truncate(out_len);
    }
    proof {
        assert(rounds * 32 >= out_len) by (nonlinear_arith)
            requires
                rounds == ((out_len + 31) / 32),
        ;
        assert(key@ =~= concat_kdf_spec(z@, genc, gapu, gapv, out_len));
    }
    Ok(key)
}

} // verus!
