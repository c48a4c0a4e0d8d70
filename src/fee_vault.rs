use vstd::prelude::*;

use crate::errors::RouterError;

verus! {

/// One vault operation: a deposit when the flag is set, else a withdrawal,
/// of the amount.
pub type VaultOp = (bool, u64);

/// The balance after `op` is applied to `balance`: moved by the amount when
/// the operation succeeds, unchanged when it fails.
pub open spec fn apply_vault_op(balance: u64, op: VaultOp) -> u64 {
    if op.0 {
        if balance + op.1 <= u64::MAX {
            (balance + op.1) as u64
        } else {
            balance
        }
    } else if op.1 <= balance {
        (balance - op.1) as u64
    } else {
        balance
    }
}

/// The balance after each of `ops` is applied in order.
pub open spec fn run_vault_ops(balance: u64, ops: Seq<VaultOp>) -> u64
    decreases ops.len(),
{
    if ops.len() == 0 {
        balance
    } else {
        apply_vault_op(run_vault_ops(balance, ops.drop_last()), ops.last())
    }
}

/// Successful deposits minus successful withdrawals over `ops`.
pub open spec fn net_flow(balance: u64, ops: Seq<VaultOp>) -> int
    decreases ops.len(),
{
    if ops.len() == 0 {
        0
    } else {
        let prev = run_vault_ops(balance, ops.drop_last());
        let op = ops.last();
        let moved = apply_vault_op(prev, op) as int - prev as int;
        net_flow(balance, ops.drop_last()) + moved
    }
}

/// Over any run of deposits and withdrawals the balance is the starting
/// balance plus what the successful deposits brought in, minus what the
/// successful withdrawals took out, and it never goes below zero: a
/// withdrawal larger than the balance fails and moves nothing.
pub proof fn lemma_run_of_vault_ops(balance: u64, ops: Seq<VaultOp>)
    ensures
        run_vault_ops(balance, ops) == balance + net_flow(balance, ops),
        balance + net_flow(balance, ops) >= 0,
        forall|i: int|
            0 <= i < ops.len() && !ops[i].0 && ops[i].1 > run_vault_ops(
                balance,
                ops.subrange(0, i),
            ) ==> #[trigger] run_vault_ops(balance, ops.subrange(0, i + 1)) == run_vault_ops(
                balance,
                ops.subrange(0, i),
            ),
    decreases ops.len(),
{
    if ops.len() > 0 {
        lemma_run_of_vault_ops(balance, ops.drop_last());
    }
    assert forall|i: int|
        0 <= i < ops.len() && !ops[i].0 && ops[i].1 > run_vault_ops(
            balance,
            ops.subrange(0, i),
        ) implies #[trigger] run_vault_ops(balance, ops.subrange(0, i + 1)) == run_vault_ops(
        balance,
        ops.subrange(0, i),
    ) by {
        assert(ops.subrange(0, i + 1).drop_last() == ops.subrange(0, i));
    }
}

/// Escrowed balance that pays for the dispatches of one principal.
#[derive(Debug, Clone, Copy, PartialEq, Eq)]
pub struct FeeVault {
    /// Principal that owns this vault.
    pub authority: [u8; 32],
    /// Current balance, in the smallest fee unit.
    pub balance: u64,
    /// Bump seed of the record's derived address.
    pub bump: u8,
}

impl FeeVault {
    /// A vault for `authority` with nothing in it.
    pub fn new(authority: [u8; 32], bump: u8) -> (r: FeeVault)
        ensures
            r.authority == authority,
            r.balance == 0,
            r.bump == bump,
    {
        FeeVault { authority, balance: 0, bump }
    }

    /// Adds `amount` to the balance and returns the new balance; fails with
    /// `ArithmeticOverflow`, changing nothing, when the sum leaves `u64`.
    pub fn deposit(&mut self, amount: u64) -> (r: Result<u64, RouterError>)
        ensures
            old(self).balance + amount <= u64::MAX ==> r == Ok::<u64, RouterError>(
                (old(self).balance + amount) as u64,
            ) && final(self).balance == old(self).balance + amount,
            old(self).balance + amount > u64::MAX ==> r == Err::<u64, RouterError>(
                RouterError::ArithmeticOverflow,
            ) && final(self).balance == old(self).balance,
            final(self).balance == apply_vault_op(old(self).balance, (true, amount)),
            final(self).authority == old(self).authority,
            final(self).bump == old(self).bump,
    {
        match self.balance.checked_add(amount) {
            Some(b) => {
                self.balance = b;
                Ok(b)
            },
            None => Err(RouterError::ArithmeticOverflow),
        }
    }

    /// Takes `amount` out of the balance and returns the new balance; fails
    /// with `InsufficientFees`, changing nothing, when `amount` exceeds it.
    pub fn withdraw(&mut self, amount: u64) -> (r: Result<u64, RouterError>)
        ensures
            amount <= old(self).balance ==> r == Ok::<u64, RouterError>(
                (old(self).balance - amount) as u64,
            ) && final(self).balance == old(self).balance - amount,
            amount > old(self).balance ==> r == Err::<u64, RouterError>(
                RouterError::InsufficientFees,
            ) && final(self).balance == old(self).balance,
            final(self).balance == apply_vault_op(old(self).balance, (false, amount)),
            final(self).authority == old(self).authority,
            final(self).bump == old(self).bump,
    {
        match self.balance.checked_sub(amount) {
            Some(b) => {
                self.balance = b;
                Ok(b)
            },
            None => Err(RouterError::InsufficientFees),
        }
    }

    /// Whether the balance covers `amount`.
    pub fn has_sufficient_balance(&self, amount: u64) -> (r: bool)
        ensures
            r == (self.balance >= amount),
    {
        self.balance >= amount
    }
}

} // verus!
