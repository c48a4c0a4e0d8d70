use vstd::prelude::*;

use crate::errors::RouterError;
use crate::types::OutboxEntry;

verus! {

/// The SHA-256 digest of a byte string.
pub uninterp spec fn sha256_of(data: Seq<u8>) -> Seq<u8>;

/// Relies on `solana_sha256_hasher::hash`: the SHA-256 digest of `data`,
/// handed back as its 32 bytes.
#[verifier::external_body]
pub(crate) fn sha256(data: &[u8]) -> (r: [u8; 32])
    ensures
        r@ == sha256_of(data@),
{
    solana_sha256_hasher::hash(data).to_bytes()
}

/// Whether `sig` is a valid Ed25519 signature of `msg` under the public key
/// `pk`, by the strict rules (canonical encodings, no small-order points).
pub uninterp spec fn ed25519_valid(pk: Seq<u8>, msg: Seq<u8>, sig: Seq<u8>) -> bool;

/// Relies on `ed25519_dalek::VerifyingKey::from_bytes` and `verify_strict`:
/// true exactly when `pk` decodes to a public key under which `sig` is a
/// valid signature of `msg`.
#[verifier::external_body]
fn ed25519_verify(pk: &[u8; 32], msg: &[u8; 32], sig: &[u8; 64]) -> (r: bool)
    ensures
        r == ed25519_valid(pk@, msg@, sig@),
{
    match ed25519_dalek::VerifyingKey::from_bytes(pk) {
        Ok(key) => key.verify_strict(msg, &ed25519_dalek::Signature::from_bytes(sig)).is_ok(),
        Err(_) => false,
    }
}

/// The `n` lowest bytes of `x`, least significant first.
pub open spec fn le_bytes(x: nat, n: nat) -> Seq<u8>
    decreases n,
{
    if n == 0 {
        Seq::empty()
    } else {
        seq![(x % 256) as u8] + le_bytes(x / 256, (n - 1) as nat)
    }
}

/// Canonical byte encoding of the fields an entry digest commits to: owner,
/// session, fee budget and message nonce, integers in little-endian order.
pub open spec fn entry_encoding(entry: OutboxEntry) -> Seq<u8> {
    entry.owner@ + entry.session@ + le_bytes(entry.fee_budget as nat, 8) + le_bytes(
        entry.msg.nonce as nat,
        8,
    )
}

/// Digest of an entry: SHA-256 over its canonical encoding.
pub open spec fn entry_digest(entry: OutboxEntry) -> Seq<u8> {
    sha256_of(entry_encoding(entry))
}

/// Appends the bytes of `src` to `buf`.
pub fn extend_bytes(buf: &mut Vec<u8>, src: &[u8])
    ensures
        final(buf)@ == old(buf)@ + src@,
{
    let ghost start = buf@;
    let mut i: usize = 0;
    while i < src.len()
        invariant
            i <= src@.len(),
            buf@ == start + src@.subrange(0, i as int),
        decreases src@.len() - i,
    {
        buf.push(src[i]);
        assert(src@.subrange(0, i + 1) == src@.subrange(0, i as int).push(src@[i as int]));
        i += 1;
    }
    assert(src@.subrange(0, src@.len() as int) == src@);
}

/// Appends the eight bytes of `x` to `buf`, least significant first.
pub fn extend_le_u64(buf: &mut Vec<u8>, x: u64)
    ensures
        final(buf)@ == old(buf)@ + le_bytes(x as nat, 8),
{
    let ghost start = buf@;
    let mut v: u64 = x;
    let mut i: usize = 0;
    while i < 8
        invariant
            i <= 8,
            buf@ + le_bytes(v as nat, (8 - i) as nat) == start + le_bytes(x as nat, 8),
        decreases 8 - i,
    {
        let b: u8 = (v % 256) as u8;
        let ghost rest = le_bytes((v / 256) as nat, (8 - i - 1) as nat);
        assert(le_bytes(v as nat, (8 - i) as nat) == seq![b] + rest);
        assert(buf@.push(b) + rest == buf@ + (seq![b] + rest));
        buf.push(b);
        v = v / 256;
        i += 1;
    }
    assert(buf@ + le_bytes(v as nat, 0) == buf@);
}

/// Computes the digest of an entry: SHA-256 over the owner, the session, the
/// fee budget and the message nonce, integers in little-endian order.
pub fn compute_entry_hash(entry: &OutboxEntry) -> (r: Result<[u8; 32], RouterError>)
    ensures
        r.is_ok(),
        r.unwrap()@ == entry_digest(*entry),
{
    let mut buf: Vec<u8> = Vec::new();
    extend_bytes(&mut buf, &entry.owner);
    extend_bytes(&mut buf, &entry.session);
    extend_le_u64(&mut buf, entry.fee_budget);
    extend_le_u64(&mut buf, entry.msg.nonce);
    Ok(sha256(buf.as_slice()))
}

/// Whether `signature` is a valid Ed25519 signature, under the entry owner's
/// public key, of the entry's digest.
pub fn verify_entry_signature(entry: &OutboxEntry, signature: &[u8; 64]) -> (r: Result<
    bool,
    RouterError,
>)
    ensures
        r == Ok::<bool, RouterError>(
            ed25519_valid(entry.owner@, entry_digest(*entry), signature@),
        ),
{
    let digest = match compute_entry_hash(entry) {
        Ok(d) => d,
        Err(e) => {
            return Err(e);
        },
    };
    Ok(ed25519_verify(&entry.owner, &digest, signature))
}

} // verus!
