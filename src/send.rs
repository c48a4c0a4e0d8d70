use vstd::prelude::*;

use crate::errors::RouterError;
use crate::fee_vault::FeeVault;
use crate::outbox::{chain_step, Outbox};
use crate::session::{dispatch_error, dispatched, Session};
use crate::types::{is_known_kind, OutboxEntry};
use crate::utils::{compute_entry_hash, ed25519_valid, entry_digest, verify_entry_signature};

verus! {

/// Why dispatching `entry` to `target` with operation `op` at tick `now` is
/// refused, checked in this order, or `None` when it is accepted. The fee
/// budget and the nonce are the entry's.
pub open spec fn send_error(
    session: Session,
    vault: FeeVault,
    outbox: Outbox,
    target: Seq<u8>,
    op: u8,
    entry: OutboxEntry,
    signature: Seq<u8>,
    now: u64,
) -> Option<RouterError> {
    let authorized = dispatch_error(session, target, op, entry.fee_budget, entry.msg.nonce, now);
    if authorized is Some {
        authorized
    } else if vault.balance < entry.fee_budget {
        Some(RouterError::InsufficientFees)
    } else if !is_known_kind(entry.msg.kind) {
        Some(RouterError::InvalidMessageKind)
    } else if !ed25519_valid(entry.owner@, entry_digest(entry), signature) {
        Some(RouterError::InvalidSignature)
    } else if outbox.entry_count == u64::MAX {
        Some(RouterError::ArithmeticOverflow)
    } else {
        None
    }
}

/// Dispatches one routing intent, all or nothing: the session accepts it,
/// the vault pays its fee budget, and its digest is committed to the outbox.
/// Returns the entry digest and the new outbox root. On any failure the
/// session, the vault and the outbox are left exactly as they were.
pub fn send(
    session: &mut Session,
    vault: &mut FeeVault,
    outbox: &mut Outbox,
    target: &[u8; 32],
    op: u8,
    entry: &OutboxEntry,
    signature: &[u8; 64],
    now: u64,
) -> (r: Result<([u8; 32], [u8; 32]), RouterError>)
    ensures
        old(session).wf() ==> final(session).wf(),
        match send_error(
            *old(session),
            *old(vault),
            *old(outbox),
            target@,
            op,
            *entry,
            signature@,
            now,
        ) {
            Some(e) => {
                &&& r == Err::<([u8; 32], [u8; 32]), RouterError>(e)
                &&& *final(session) == *old(session)
                &&& *final(vault) == *old(vault)
                &&& *final(outbox) == *old(outbox)
            },
            None => {
                &&& r.is_ok()
                &&& r.unwrap().0@ == entry_digest(*entry)
                &&& r.unwrap().1@ == chain_step(old(outbox).merkle_root@, entry_digest(*entry))
                &&& *final(session) == dispatched(
                    *old(session),
                    entry.fee_budget,
                    entry.msg.nonce,
                )
                &&& final(vault).balance == old(vault).balance - entry.fee_budget
                &&& final(vault).authority == old(vault).authority
                &&& final(vault).bump == old(vault).bump
                &&& final(outbox).entry_count == old(outbox).entry_count + 1
                &&& final(outbox).merkle_root == r.unwrap().1
                &&& final(outbox).authority == old(outbox).authority
                &&& final(outbox).bump == old(outbox).bump
            },
        },
{
    let fee_budget = entry.fee_budget;
    let intent_nonce = entry.msg.nonce;
    if let Some(e) = session.check_dispatch(target, op, fee_budget, intent_nonce, now) {
        return Err(e);
    }
    if !vault.has_sufficient_balance(fee_budget) {
        return Err(RouterError::InsufficientFees);
    }
    if !entry.msg.has_known_kind() {
        return Err(RouterError::InvalidMessageKind);
    }
    let signed = match verify_entry_signature(entry, signature) {
        Ok(b) => b,
        Err(e) => {
            return Err(e);
        },
    };
    if !signed {
        return Err(RouterError::InvalidSignature);
    }
    if outbox.entry_count == u64::MAX {
        return Err(RouterError::ArithmeticOverflow);
    }
    let digest = match compute_entry_hash(entry) {
        Ok(d) => d,
        Err(e) => {
            return Err(e);
        },
    };
    // Every check has passed: from here on each step is known to succeed.
    let authorized = session.authorize_dispatch(target, op, fee_budget, intent_nonce, now);
    assert(authorized is Ok);
    let paid = vault.withdraw(fee_budget);
    assert(paid is Ok);
    let root = match outbox.append(digest) {
        Ok(root) => root,
        Err(e) => {
            return Err(e);
        },
    };
    Ok((digest, root))
}

/// A dispatch whose nonce is not one past the session's, such as a replay of
/// an accepted one, is refused, so nothing is debited or committed; once the
/// expiry and allow-list checks pass, it is refused for its nonce.
pub proof fn lemma_send_wrong_nonce(
    session: Session,
    vault: FeeVault,
    outbox: Outbox,
    target: Seq<u8>,
    op: u8,
    entry: OutboxEntry,
    signature: Seq<u8>,
    now: u64,
)
    requires
        entry.msg.nonce != session.nonce + 1,
    ensures
        send_error(session, vault, outbox, target, op, entry, signature, now) is Some,
        now < session.expires_at && session.allows_program(target)
            && session.allowed_opcodes@.contains(op) ==> send_error(
            session,
            vault,
            outbox,
            target,
            op,
            entry,
            signature,
            now,
        ) == Some(RouterError::InvalidNonce),
{
}

/// An accepted dispatch moves its fee budget from the vault to the session's
/// fees spent: their sum is kept, so what a close refunds is what was
/// deposited less what the session spent.
pub proof fn lemma_send_conserves_funds(
    session: Session,
    vault: FeeVault,
    outbox: Outbox,
    target: Seq<u8>,
    op: u8,
    entry: OutboxEntry,
    signature: Seq<u8>,
    now: u64,
)
    requires
        send_error(session, vault, outbox, target, op, entry, signature, now) is None,
    ensures
        dispatched(session, entry.fee_budget, entry.msg.nonce).fee_spent + (vault.balance
            - entry.fee_budget) == session.fee_spent + vault.balance,
        dispatched(session, entry.fee_budget, entry.msg.nonce).fee_spent <= session.fee_cap,
{
}

} // verus!
