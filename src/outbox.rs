use vstd::prelude::*;

use crate::errors::RouterError;
use crate::utils::{extend_bytes, sha256, sha256_of};

verus! {

/// The all-zero 32-byte seed the chain starts from.
pub open spec fn zero_root() -> Seq<u8> {
    Seq::new(32, |i: int| 0u8)
}

/// One link of the chain: the hash of the previous root followed by a digest.
pub open spec fn chain_step(root: Seq<u8>, digest: Seq<u8>) -> Seq<u8> {
    sha256_of(root + digest)
}

/// The root reached from `root` by folding in `digests` one after another.
pub open spec fn chain_from(root: Seq<u8>, digests: Seq<Seq<u8>>) -> Seq<u8>
    decreases digests.len(),
{
    if digests.len() == 0 {
        root
    } else {
        chain_step(chain_from(root, digests.drop_last()), digests.last())
    }
}

/// The root of a ledger whose committed digests are `digests`, in order.
pub open spec fn chain_root(digests: Seq<Seq<u8>>) -> Seq<u8> {
    chain_from(zero_root(), digests)
}

/// The byte strings held by a sequence of 32-byte digests.
pub open spec fn digest_views(digests: Seq<[u8; 32]>) -> Seq<Seq<u8>> {
    digests.map_values(|d: [u8; 32]| d@)
}

/// Folding two runs of digests one after the other reaches the same root as
/// folding their concatenation: appending in batches and replaying the whole
/// history agree.
pub proof fn lemma_chain_concat(root: Seq<u8>, first: Seq<Seq<u8>>, second: Seq<Seq<u8>>)
    ensures
        chain_from(chain_from(root, first), second) == chain_from(root, first + second),
    decreases second.len(),
{
    if second.len() == 0 {
        assert(first + second == first);
    } else {
        lemma_chain_concat(root, first, second.drop_last());
        assert((first + second).drop_last() == first + second.drop_last());
        assert((first + second).last() == second.last());
    }
}

/// Each append extends the fold by one digest: a ledger whose root is the
/// fold of `digests` from the zero seed has, after appending `digest`, the
/// fold of `digests` followed by `digest`.
pub proof fn lemma_append_extends_fold(digests: Seq<Seq<u8>>, digest: Seq<u8>)
    ensures
        chain_step(chain_root(digests), digest) == chain_root(digests.push(digest)),
{
    assert(digests.push(digest).drop_last() == digests);
}

/// Roots never reconverge without breaking the hash: two different
/// histories of 32-byte digests, of equal length, that reach one root yield
/// two different inputs on which the hash agrees.
pub proof fn lemma_shared_root_needs_collision(ds1: Seq<Seq<u8>>, ds2: Seq<Seq<u8>>)
    requires
        ds1.len() == ds2.len(),
        forall|i: int| 0 <= i < ds1.len() ==> (#[trigger] ds1[i]).len() == 32,
        forall|i: int| 0 <= i < ds2.len() ==> (#[trigger] ds2[i]).len() == 32,
        ds1 != ds2,
        chain_root(ds1) == chain_root(ds2),
    ensures
        exists|x: Seq<u8>, y: Seq<u8>| x != y && sha256_of(x) == sha256_of(y),
    decreases ds1.len(),
{
    if ds1.len() == 0 {
        assert(ds1 == ds2);
    }
    let p1 = chain_root(ds1.drop_last());
    let p2 = chain_root(ds2.drop_last());
    let d1 = ds1.last();
    let d2 = ds2.last();
    assert(sha256_of(p1 + d1) == sha256_of(p2 + d2));
    if p1 + d1 != p2 + d2 {
        assert(p1 + d1 != p2 + d2 && sha256_of(p1 + d1) == sha256_of(p2 + d2));
    } else {
        assert(d1.len() == 32 && d2.len() == 32);
        assert(p1 == (p1 + d1).subrange(0, p1.len() as int));
        assert(p2 == (p2 + d2).subrange(0, p2.len() as int));
        assert(d1 == (p1 + d1).subrange(p1.len() as int, (p1 + d1).len() as int));
        assert(d2 == (p2 + d2).subrange(p2.len() as int, (p2 + d2).len() as int));
        assert(ds1 == ds1.drop_last().push(d1));
        assert(ds2 == ds2.drop_last().push(d2));
        assert(ds1.drop_last() != ds2.drop_last());
        lemma_shared_root_needs_collision(ds1.drop_last(), ds2.drop_last());
    }
}

/// Recomputes the root of a ledger from the full sequence of its digests.
pub fn replay_root(digests: &Vec<[u8; 32]>) -> (r: [u8; 32])
    ensures
        r@ == chain_root(digest_views(digests@)),
{
    let ghost views = digest_views(digests@);
    let mut root: [u8; 32] = [0u8; 32];
    assert(root@ == zero_root());
    let mut i: usize = 0;
    while i < digests.len()
        invariant
            i <= digests@.len(),
            views == digest_views(digests@),
            root@ == chain_root(views.subrange(0, i as int)),
        decreases digests@.len() - i,
    {
        let mut buf: Vec<u8> = Vec::new();
        extend_bytes(&mut buf, &root);
        extend_bytes(&mut buf, &digests[i]);
        root = sha256(buf.as_slice());
        assert(views.subrange(0, i + 1).drop_last() == views.subrange(0, i as int));
        i += 1;
    }
    assert(views.subrange(0, digests@.len() as int) == views);
    root
}

/// Append-only log of the intents one principal dispatched. Its root is a
/// hash chain over the entry digests: `hash(previous_root || entry_digest)`,
/// starting from 32 zero bytes.
#[derive(Debug, Clone, Copy, PartialEq, Eq)]
pub struct Outbox {
    /// Principal that may append to this outbox.
    pub authority: [u8; 32],
    /// Number of entries committed.
    pub entry_count: u64,
    /// Running root of the hash chain over all committed digests.
    pub merkle_root: [u8; 32],
    /// Bump seed of the record's derived address.
    pub bump: u8,
}

impl Outbox {
    /// An empty outbox for `authority`: no entries, and the all-zero root.
    pub fn new(authority: [u8; 32], bump: u8) -> (r: Outbox)
        ensures
            r.authority == authority,
            r.entry_count == 0,
            r.merkle_root@ == zero_root(),
            r.merkle_root@ == chain_root(Seq::empty()),
            r.bump == bump,
    {
        let merkle_root: [u8; 32] = [0u8; 32];
        assert(merkle_root@ == zero_root());
        Outbox { authority, entry_count: 0, merkle_root, bump }
    }

    /// Folds `entry_hash` into the root, `hash(previous_root || entry_hash)`,
    /// and returns the new root. The entry count is left to the caller.
    pub fn update_merkle_root(&mut self, entry_hash: [u8; 32]) -> (r: [u8; 32])
        ensures
            r@ == chain_step(old(self).merkle_root@, entry_hash@),
            final(self).merkle_root == r,
            final(self).authority == old(self).authority,
            final(self).entry_count == old(self).entry_count,
            final(self).bump == old(self).bump,
    {
        let mut buf: Vec<u8> = Vec::new();
        extend_bytes(&mut buf, &self.merkle_root);
        extend_bytes(&mut buf, &entry_hash);
        let new_root = sha256(buf.as_slice());
        self.merkle_root = new_root;
        new_root
    }

    /// Commits one entry digest: the root takes one more link of the chain
    /// and the entry count grows by one. Fails with `ArithmeticOverflow`,
    /// changing nothing, when the count is already `u64::MAX`.
    pub fn append(&mut self, entry_hash: [u8; 32]) -> (r: Result<[u8; 32], RouterError>)
        ensures
            old(self).entry_count < u64::MAX ==> {
                &&& r.is_ok()
                &&& r.unwrap() == final(self).merkle_root
                &&& final(self).merkle_root@ == chain_step(old(self).merkle_root@, entry_hash@)
                &&& final(self).entry_count == old(self).entry_count + 1
            },
            old(self).entry_count == u64::MAX ==> r == Err::<[u8; 32], RouterError>(
                RouterError::ArithmeticOverflow,
            ) && *final(self) == *old(self),
            final(self).authority == old(self).authority,
            final(self).bump == old(self).bump,
    {
        if self.entry_count == u64::MAX {
            return Err(RouterError::ArithmeticOverflow);
        }
        self.entry_count = self.entry_count + 1;
        Ok(self.update_merkle_root(entry_hash))
    }

    /// Whether `digests` is this outbox's history: as many digests as
    /// committed entries, whose fold from the zero seed reproduces the root.
    pub fn matches_history(&self, digests: &Vec<[u8; 32]>) -> (r: bool)
        ensures
            r == (digests@.len() == self.entry_count && self.merkle_root@ == chain_root(
                digest_views(digests@),
            )),
    {
        if digests.len() as u128 != self.entry_count as u128 {
            return false;
        }
        let root = replay_root(digests);
        let mut i: usize = 0;
        while i < 32
            invariant
                i <= 32,
                root@ == chain_root(digest_views(digests@)),
                root@.len() == 32,
                self.merkle_root@.len() == 32,
                forall|j: int| 0 <= j < i ==> root@[j] == self.merkle_root@[j],
            decreases 32 - i,
        {
            if root[i] != self.merkle_root[i] {
                assert(root@[i as int] != self.merkle_root@[i as int]);
                return false;
            }
            i += 1;
        }
        assert(root@ == self.merkle_root@);
        true
    }
}

} // verus!
