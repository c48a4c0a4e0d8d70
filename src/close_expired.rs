use vstd::prelude::*;

use crate::errors::RouterError;
use crate::fee_vault::FeeVault;
use crate::session::Session;

verus! {

/// The records a close names: the session, its fee vault, and the caller
/// asking for the close.
#[derive(Debug, Clone, PartialEq, Eq)]
pub struct CloseExpired {
    /// Session to close.
    pub session: Session,
    /// Vault paired with the session.
    pub fee_vault: FeeVault,
    /// Principal that asks for the close.
    pub owner: [u8; 32],
}

/// What closing `c` at tick `now` yields: the refund, or why it is refused.
pub open spec fn close_outcome(c: CloseExpired, now: u64) -> Result<u64, RouterError> {
    if now < c.session.expires_at {
        Err(RouterError::SessionStillActive)
    } else if c.session.owner@ != c.owner@ {
        Err(RouterError::Unauthorized)
    } else {
        Ok(c.fee_vault.balance)
    }
}

impl CloseExpired {
    /// Closes an expired session on its owner's behalf and returns the
    /// vault's whole balance as the refund; the host then reclaims both
    /// records. Fails with `SessionStillActive` before the expiry tick, then
    /// with `Unauthorized` when the caller is not the session's owner.
    /// Nothing is changed either way.
    pub fn close_expired(&mut self, now: u64) -> (r: Result<u64, RouterError>)
        ensures
            r == close_outcome(*old(self), now),
            *final(self) == *old(self),
    {
        if !self.session.is_expired(now) {
            return Err(RouterError::SessionStillActive);
        }
        if !crate::session::bytes32_equal(&self.session.owner, &self.owner) {
            return Err(RouterError::Unauthorized);
        }
        Ok(self.fee_vault.balance)
    }
}

/// Before its expiry tick a session can never be closed; from that tick on,
/// its owner always closes it and gets the vault's full balance back.
pub proof fn lemma_expiry_gating(c: CloseExpired, now: u64)
    ensures
        now < c.session.expires_at ==> close_outcome(c, now) == Err::<u64, RouterError>(
            RouterError::SessionStillActive,
        ),
        now >= c.session.expires_at && c.owner == c.session.owner ==> close_outcome(c, now)
            == Ok::<u64, RouterError>(c.fee_vault.balance),
{
}

} // verus!
