use vstd::prelude::*;

use crate::errors::RouterError;

verus! {

/// Capacity of a session's target allow-list.
pub const MAX_ALLOWED_PROGRAMS: usize = 8;

/// Capacity of a session's operation-code allow-list.
pub const MAX_ALLOWED_OPCODES: usize = 16;

/// Whether `grid_id` names a destination domain of this deployment: every
/// identifier but zero does.
pub open spec fn is_valid_grid_id(grid_id: u64) -> bool {
    grid_id != 0
}

/// A time-bounded, capability-scoped authorization for one principal to
/// dispatch routing intents to one destination domain.
#[derive(Debug, Clone, PartialEq, Eq)]
pub struct Session {
    /// Principal the session belongs to.
    pub owner: [u8; 32],
    /// Destination-domain identifier.
    pub grid_id: u64,
    /// Targets dispatches may go to.
    pub allowed_programs: Vec<[u8; 32]>,
    /// Operation codes dispatches may carry.
    pub allowed_opcodes: Vec<u8>,
    /// Nonce of the last accepted dispatch; zero before the first.
    pub nonce: u64,
    /// Fees spent by all accepted dispatches.
    pub fee_spent: u64,
    /// Bound on `fee_spent`.
    pub fee_cap: u64,
    /// Logical-clock tick from which the session is expired.
    pub expires_at: u64,
    /// Bump seed of the record's derived address.
    pub bump: u8,
}

/// Why a dispatch on `s` is refused, checked in this order, or `None` when it
/// is accepted.
pub open spec fn dispatch_error(
    s: Session,
    target: Seq<u8>,
    op: u8,
    fee_budget: u64,
    intent_nonce: u64,
    now: u64,
) -> Option<RouterError> {
    if now >= s.expires_at {
        Some(RouterError::SessionExpired)
    } else if !s.allows_program(target) {
        Some(RouterError::UnauthorizedProgram)
    } else if !s.allowed_opcodes@.contains(op) {
        Some(RouterError::UnauthorizedOpcode)
    } else if intent_nonce != s.nonce + 1 {
        Some(RouterError::InvalidNonce)
    } else if s.fee_spent + fee_budget > u64::MAX {
        Some(RouterError::ArithmeticOverflow)
    } else if s.fee_spent + fee_budget > s.fee_cap {
        Some(RouterError::FeeCapExceeded)
    } else {
        None
    }
}

/// The session after it accepted a dispatch with these fee budget and nonce.
pub open spec fn dispatched(s: Session, fee_budget: u64, intent_nonce: u64) -> Session {
    Session { nonce: intent_nonce, fee_spent: (s.fee_spent + fee_budget) as u64, ..s }
}

/// One dispatch request: target, operation code, fee budget, nonce and tick.
pub type DispatchRequest = (Seq<u8>, u8, u64, u64, u64);

/// The session after it was asked to take `q`: recorded when accepted,
/// unchanged when refused.
pub open spec fn apply_request(s: Session, q: DispatchRequest) -> Session {
    if dispatch_error(s, q.0, q.1, q.2, q.3, q.4) is None {
        dispatched(s, q.2, q.3)
    } else {
        s
    }
}

/// The session after it was asked to take each of `qs`, in order.
pub open spec fn run_requests(s: Session, qs: Seq<DispatchRequest>) -> Session
    decreases qs.len(),
{
    if qs.len() == 0 {
        s
    } else {
        apply_request(run_requests(s, qs.drop_last()), qs.last())
    }
}

/// The nonces of the requests of `qs` that the session accepted, in order.
pub open spec fn accepted_nonces(s: Session, qs: Seq<DispatchRequest>) -> Seq<u64>
    decreases qs.len(),
{
    if qs.len() == 0 {
        Seq::empty()
    } else {
        let prev = run_requests(s, qs.drop_last());
        let q = qs.last();
        if dispatch_error(prev, q.0, q.1, q.2, q.3, q.4) is None {
            accepted_nonces(s, qs.drop_last()).push(q.3)
        } else {
            accepted_nonces(s, qs.drop_last())
        }
    }
}

/// The total fee budget of the requests of `qs` that the session accepted.
pub open spec fn accepted_fees(s: Session, qs: Seq<DispatchRequest>) -> int
    decreases qs.len(),
{
    if qs.len() == 0 {
        0
    } else {
        let prev = run_requests(s, qs.drop_last());
        let q = qs.last();
        if dispatch_error(prev, q.0, q.1, q.2, q.3, q.4) is None {
            accepted_fees(s, qs.drop_last()) + q.2
        } else {
            accepted_fees(s, qs.drop_last())
        }
    }
}

impl Session {
    /// Within capacity on both allow-lists, and within the fee cap.
    pub open spec fn wf(&self) -> bool {
        &&& self.allowed_programs@.len() <= MAX_ALLOWED_PROGRAMS
        &&& self.allowed_opcodes@.len() <= MAX_ALLOWED_OPCODES
        &&& self.fee_spent <= self.fee_cap
    }

    /// Whether `target` is in the target allow-list.
    pub open spec fn allows_program(&self, target: Seq<u8>) -> bool {
        exists|j: int| 0 <= j < self.allowed_programs@.len() && self.allowed_programs@[j]@ == target
    }

    /// Opens a session at tick `now` that expires `ttl` ticks later, with no
    /// dispatch accepted and no fee spent. Fails, in this order, with
    /// `InvalidGridId`, `TooManyAllowedPrograms`, `TooManyAllowedOpcodes`, or
    /// `ArithmeticOverflow` when the expiry tick leaves `u64`.
    pub fn open(
        owner: [u8; 32],
        grid_id: u64,
        allowed_programs: Vec<[u8; 32]>,
        allowed_opcodes: Vec<u8>,
        fee_cap: u64,
        ttl: u64,
        now: u64,
        bump: u8,
    ) -> (r: Result<Session, RouterError>)
        ensures
            !is_valid_grid_id(grid_id) ==> r == Err::<Session, RouterError>(
                RouterError::InvalidGridId,
            ),
            is_valid_grid_id(grid_id) && allowed_programs@.len() > MAX_ALLOWED_PROGRAMS ==> r
                == Err::<Session, RouterError>(RouterError::TooManyAllowedPrograms),
            is_valid_grid_id(grid_id) && allowed_programs@.len() <= MAX_ALLOWED_PROGRAMS
                && allowed_opcodes@.len() > MAX_ALLOWED_OPCODES ==> r == Err::<
                Session,
                RouterError,
            >(RouterError::TooManyAllowedOpcodes),
            is_valid_grid_id(grid_id) && allowed_programs@.len() <= MAX_ALLOWED_PROGRAMS
                && allowed_opcodes@.len() <= MAX_ALLOWED_OPCODES && now + ttl > u64::MAX ==> r
                == Err::<Session, RouterError>(RouterError::ArithmeticOverflow),
            is_valid_grid_id(grid_id) && allowed_programs@.len() <= MAX_ALLOWED_PROGRAMS
                && allowed_opcodes@.len() <= MAX_ALLOWED_OPCODES && now + ttl <= u64::MAX ==> {
                &&& r.is_ok()
                &&& r.unwrap().wf()
                &&& r.unwrap().owner == owner
                &&& r.unwrap().grid_id == grid_id
                &&& r.unwrap().allowed_programs@ == allowed_programs@
                &&& r.unwrap().allowed_opcodes@ == allowed_opcodes@
                &&& r.unwrap().nonce == 0
                &&& r.unwrap().fee_spent == 0
                &&& r.unwrap().fee_cap == fee_cap
                &&& r.unwrap().expires_at == now + ttl
                &&& r.unwrap().bump == bump
            },
    {
        if grid_id == 0 {
            return Err(RouterError::InvalidGridId);
        }
        if allowed_programs.len() > MAX_ALLOWED_PROGRAMS {
            return Err(RouterError::TooManyAllowedPrograms);
        }
        if allowed_opcodes.len() > MAX_ALLOWED_OPCODES {
            return Err(RouterError::TooManyAllowedOpcodes);
        }
        let expires_at = match now.checked_add(ttl) {
            Some(t) => t,
            None => {
                return Err(RouterError::ArithmeticOverflow);
            },
        };
        Ok(
            Session {
                owner,
                grid_id,
                allowed_programs,
                allowed_opcodes,
                nonce: 0,
                fee_spent: 0,
                fee_cap,
                expires_at,
                bump,
            },
        )
    }

    /// Whether the session is expired at tick `now`.
    pub fn is_expired(&self, now: u64) -> (r: bool)
        ensures
            r == (now >= self.expires_at),
    {
        now >= self.expires_at
    }

    /// Whether `target` is in the target allow-list.
    pub fn is_program_allowed(&self, target: &[u8; 32]) -> (r: bool)
        ensures
            r == self.allows_program(target@),
    {
        let mut i: usize = 0;
        while i < self.allowed_programs.len()
            invariant
                i <= self.allowed_programs@.len(),
                forall|j: int| 0 <= j < i ==> self.allowed_programs@[j]@ != target@,
            decreases self.allowed_programs@.len() - i,
        {
            if bytes32_equal(&self.allowed_programs[i], target) {
                return true;
            }
            i += 1;
        }
        false
    }

    /// Whether `op` is in the operation-code allow-list.
    pub fn is_opcode_allowed(&self, op: u8) -> (r: bool)
        ensures
            r == self.allowed_opcodes@.contains(op),
    {
        let mut i: usize = 0;
        while i < self.allowed_opcodes.len()
            invariant
                i <= self.allowed_opcodes@.len(),
                forall|j: int| 0 <= j < i ==> self.allowed_opcodes@[j] != op,
            decreases self.allowed_opcodes@.len() - i,
        {
            if self.allowed_opcodes[i] == op {
                assert(self.allowed_opcodes@[i as int] == op);
                return true;
            }
            i += 1;
        }
        false
    }

    /// Why a dispatch would be refused, without changing the session.
    pub fn check_dispatch(
        &self,
        target: &[u8; 32],
        op: u8,
        fee_budget: u64,
        intent_nonce: u64,
        now: u64,
    ) -> (r: Option<RouterError>)
        ensures
            r == dispatch_error(*self, target@, op, fee_budget, intent_nonce, now),
    {
        if self.is_expired(now) {
            return Some(RouterError::SessionExpired);
        }
        if !self.is_program_allowed(target) {
            return Some(RouterError::UnauthorizedProgram);
        }
        if !self.is_opcode_allowed(op) {
            return Some(RouterError::UnauthorizedOpcode);
        }
        if self.nonce == u64::MAX || intent_nonce != self.nonce + 1 {
            return Some(RouterError::InvalidNonce);
        }
        match self.fee_spent.checked_add(fee_budget) {
            None => Some(RouterError::ArithmeticOverflow),
            Some(total) => {
                if total > self.fee_cap {
                    Some(RouterError::FeeCapExceeded)
                } else {
                    None
                }
            },
        }
    }

    /// Validates a dispatch and, when it is accepted, records it: the nonce
    /// becomes `intent_nonce` and the fee budget is added to the fees spent.
    /// A refused dispatch changes nothing.
    pub fn authorize_dispatch(
        &mut self,
        target: &[u8; 32],
        op: u8,
        fee_budget: u64,
        intent_nonce: u64,
        now: u64,
    ) -> (r: Result<(), RouterError>)
        ensures
            old(self).wf() ==> final(self).wf(),
            *final(self) == apply_request(*old(self), (target@, op, fee_budget, intent_nonce, now)),
            match dispatch_error(*old(self), target@, op, fee_budget, intent_nonce, now) {
                Some(e) => r == Err::<(), RouterError>(e) && *final(self) == *old(self),
                None => r == Ok::<(), RouterError>(()) && *final(self) == dispatched(
                    *old(self),
                    fee_budget,
                    intent_nonce,
                ),
            },
    {
        match self.check_dispatch(target, op, fee_budget, intent_nonce, now) {
            Some(e) => Err(e),
            None => {
                self.nonce = intent_nonce;
                self.fee_spent = self.fee_spent + fee_budget;
                Ok(())
            },
        }
    }
}

/// Whether two 32-byte strings are equal.
pub fn bytes32_equal(a: &[u8; 32], b: &[u8; 32]) -> (r: bool)
    ensures
        r == (a@ == b@),
{
    let mut i: usize = 0;
    while i < 32
        invariant
            i <= 32,
            a@.len() == 32,
            b@.len() == 32,
            forall|j: int| 0 <= j < i ==> a@[j] == b@[j],
        decreases 32 - i,
    {
        if a[i] != b[i] {
            assert(a@[i as int] != b@[i as int]);
            return false;
        }
        i += 1;
    }
    assert(a@ == b@);
    true
}

/// Every accepted dispatch keeps a well-formed session well formed, so the
/// fees spent never pass the fee cap over any run of accepted dispatches.
pub proof fn lemma_fee_cap_kept(
    s: Session,
    target: Seq<u8>,
    op: u8,
    fee_budget: u64,
    intent_nonce: u64,
    now: u64,
)
    requires
        s.wf(),
        dispatch_error(s, target, op, fee_budget, intent_nonce, now) is None,
    ensures
        dispatched(s, fee_budget, intent_nonce).wf(),
        dispatched(s, fee_budget, intent_nonce).fee_spent <= dispatched(
            s,
            fee_budget,
            intent_nonce,
        ).fee_cap,
{
}

/// A dispatch whose nonce is not one past the session's is refused; once the
/// earlier checks pass, it is refused for its nonce.
pub proof fn lemma_wrong_nonce_refused(
    s: Session,
    target: Seq<u8>,
    op: u8,
    fee_budget: u64,
    intent_nonce: u64,
    now: u64,
)
    requires
        intent_nonce != s.nonce + 1,
    ensures
        dispatch_error(s, target, op, fee_budget, intent_nonce, now) is Some,
        now < s.expires_at && s.allows_program(target) && s.allowed_opcodes@.contains(op)
            ==> dispatch_error(s, target, op, fee_budget, intent_nonce, now) == Some(
            RouterError::InvalidNonce,
        ),
{
}

/// Once a dispatch with nonce `n` is accepted, a later dispatch that replays
/// `n`, or any earlier nonce, is refused whatever else it carries.
pub proof fn lemma_replay_refused(
    s: Session,
    target: Seq<u8>,
    op: u8,
    fee_budget: u64,
    n: u64,
    now: u64,
    replay_target: Seq<u8>,
    replay_op: u8,
    replay_fee: u64,
    replay_nonce: u64,
    replay_now: u64,
)
    requires
        dispatch_error(s, target, op, fee_budget, n, now) is None,
        replay_nonce <= n,
    ensures
        dispatch_error(
            dispatched(s, fee_budget, n),
            replay_target,
            replay_op,
            replay_fee,
            replay_nonce,
            replay_now,
        ) is Some,
{
}

/// Over any run of dispatch requests on a well-formed session, whichever of
/// them are refused: the session stays well formed, so the fees spent never
/// pass the fee cap; the fees spent grow by exactly the accepted budgets; and
/// the accepted nonces are the next ones in turn, with no gap and no repeat.
pub proof fn lemma_run_of_dispatches(s: Session, qs: Seq<DispatchRequest>)
    requires
        s.wf(),
    ensures
        run_requests(s, qs).wf(),
        run_requests(s, qs).fee_spent <= run_requests(s, qs).fee_cap,
        run_requests(s, qs).fee_cap == s.fee_cap,
        run_requests(s, qs).fee_spent == s.fee_spent + accepted_fees(s, qs),
        run_requests(s, qs).nonce == s.nonce + accepted_nonces(s, qs).len(),
        forall|i: int|
            0 <= i < accepted_nonces(s, qs).len() ==> accepted_nonces(s, qs)[i] == s.nonce + 1
                + i,
    decreases qs.len(),
{
    if qs.len() > 0 {
        lemma_run_of_dispatches(s, qs.drop_last());
    }
}

} // verus!
