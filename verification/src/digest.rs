//! Byte strings and the cryptographic digest every other module builds on.

use vstd::prelude::*;

verus! {

/// Width in bytes of a digest.
pub const DIGEST_LEN: usize = 32;

/// The SHA-256 digest of `data`, as a mathematical function of the bytes.
pub uninterp spec fn sha256_digest(data: Seq<u8>) -> Seq<u8>;

/// Trusted, not proved: calls `soroban_sdk::crypto::Crypto::sha256` on a
/// host of its own, whose metering is switched off so that no budget runs
/// out. The call is taken to return the SHA-256 digest of exactly the bytes
/// handed in, 32 bytes long (the SDK returns a `Hash<32>`). A host byte
/// string holds at most `u32::MAX` bytes, so longer inputs are left out.
#[verifier::external_body]
pub(crate) fn sha256(data: &Vec<u8>) -> (digest: Vec<u8>)
    requires
        data@.len() <= u32::MAX,
    ensures
        digest@ == sha256_digest(data@),
        digest@.len() == 32,
{
    let config = soroban_sdk::testutils::EnvTestConfig { capture_snapshot_at_drop: false };
    let env = soroban_sdk::Env::new_with_config(config);
    env.cost_estimate().budget().reset_unlimited();
    let input = soroban_sdk::Bytes::from_slice(&env, data.as_slice());
    env.crypto().sha256(&input).to_array().to_vec()
}

/// True exactly when the two byte strings hold the same bytes.
pub fn bytes_equal(a: &Vec<u8>, b: &Vec<u8>) -> (same: bool)
    ensures
        same == (a@ == b@),
{
    if a.len() != b.len() {
        return false;
    }
    let mut i: usize = 0;
    while i < a.len()
        invariant
            i <= a.len(),
            a.len() == b.len(),
            forall|k: int| 0 <= k < i ==> a@[k] == b@[k],
        decreases a.len() - i,
    {
        if a[i] != b[i] {
            return false;
        }
        i += 1;
    }
    assert(a@ =~= b@);
    true
}

/// A fresh copy of a byte string.
pub fn copy_bytes(src: &Vec<u8>) -> (out: Vec<u8>)
    ensures
        out@ == src@,
{
    let mut out: Vec<u8> = Vec::new();
    let mut i: usize = 0;
    while i < src.len()
        invariant
            i <= src.len(),
            out@ == src@.subrange(0, i as int),
        decreases src.len() - i,
    {
        out.push(src[i]);
        assert(out@ =~= src@.subrange(0, i + 1));
        i += 1;
    }
    assert(src@.subrange(0, src@.len() as int) =~= src@);
    out
}

/// Appends `src` to the end of `dst`.
pub fn append_bytes(dst: &mut Vec<u8>, src: &Vec<u8>)
    ensures
        final(dst)@ == old(dst)@ + src@,
{
    let mut i: usize = 0;
    while i < src.len()
        invariant
            i <= src.len(),
            dst@ == old(dst)@ + src@.subrange(0, i as int),
        decreases src.len() - i,
    {
        dst.push(src[i]);
        assert(dst@ =~= old(dst)@ + src@.subrange(0, i + 1));
        i += 1;
    }
    assert(src@.subrange(0, src@.len() as int) =~= src@);
}

/// A byte string brought to the width of a digest: its first 32 bytes,
/// followed by zeros where it has fewer.
pub open spec fn normalize32(data: Seq<u8>) -> Seq<u8> {
    Seq::new(
        32,
        |i: int|
            if i < data.len() {
                data[i]
            } else {
                0u8
            },
    )
}

/// Brings a byte string to the width of a digest, cutting it or filling it
/// with zeros.
pub fn normalized(data: &Vec<u8>) -> (out: Vec<u8>)
    ensures
        out@ == normalize32(data@),
        out@.len() == 32,
{
    let mut out: Vec<u8> = Vec::new();
    let mut i: usize = 0;
    while i < DIGEST_LEN
        invariant
            i <= 32,
            out@.len() == i,
            forall|k: int| 0 <= k < i ==> out@[k] == normalize32(data@)[k],
        decreases 32 - i,
    {
        if i < data.len() {
            out.push(data[i]);
        } else {
            out.push(0);
        }
        i += 1;
    }
    assert(out@ =~= normalize32(data@));
    out
}

} // verus!
