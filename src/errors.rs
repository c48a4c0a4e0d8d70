use vstd::prelude::*;

verus! {

/// Every way an operation of the router can fail. Each failure aborts the
/// whole operation and leaves the records it names unchanged.
#[derive(Debug, Clone, Copy, PartialEq, Eq, Structural)]
pub enum RouterError {
    /// The session's expiry tick has been reached.
    SessionExpired,
    /// The fee vault does not hold enough to pay for the dispatch.
    InsufficientFees,
    /// The dispatch target is not in the session's allow-list.
    UnauthorizedProgram,
    /// The operation code is not in the session's allow-list.
    UnauthorizedOpcode,
    /// The dispatch nonce is not exactly one past the session's nonce.
    InvalidNonce,
    /// The dispatch would take the fees spent past the session's fee cap.
    FeeCapExceeded,
    /// The time-to-live has been reached.
    TTLExpired,
    /// The destination-domain identifier is not valid for this deployment.
    InvalidGridId,
    /// The session has not expired yet, so it cannot be closed.
    SessionStillActive,
    /// The target allow-list is longer than its capacity.
    TooManyAllowedPrograms,
    /// The operation-code allow-list is longer than its capacity.
    TooManyAllowedOpcodes,
    /// An addition or subtraction left the range of its integer type.
    ArithmeticOverflow,
    /// The message kind tag is not one the router recognizes.
    InvalidMessageKind,
    /// The signature presented is not the owner's signature of the entry digest.
    InvalidSignature,
    /// The caller is not the owner of the session being closed.
    Unauthorized,
}

/// The description of each failure kind.
pub open spec fn message_text(e: RouterError) -> &'static str {
    match e {
        RouterError::SessionExpired => "Session has expired",
        RouterError::InsufficientFees => "Insufficient fee balance in vault",
        RouterError::UnauthorizedProgram => "Program not in allowed list",
        RouterError::UnauthorizedOpcode => "Opcode not in allowed list",
        RouterError::InvalidNonce => "Invalid nonce (replay protection)",
        RouterError::FeeCapExceeded => "Fee budget exceeds session fee cap",
        RouterError::TTLExpired => "TTL has been reached",
        RouterError::InvalidGridId => "Invalid grid ID",
        RouterError::SessionStillActive => "Session is still active",
        RouterError::TooManyAllowedPrograms => "Maximum allowed programs exceeded",
        RouterError::TooManyAllowedOpcodes => "Maximum allowed opcodes exceeded",
        RouterError::ArithmeticOverflow => "Arithmetic overflow",
        RouterError::InvalidMessageKind => "Invalid message kind",
        RouterError::InvalidSignature => "Invalid entry signature",
        RouterError::Unauthorized => "Caller is not the session owner",
    }
}

impl RouterError {
    /// A human-readable description of the failure.
    pub fn message(&self) -> (r: &'static str)
        ensures
            r == message_text(*self),
    {
        match self {
            RouterError::SessionExpired => "Session has expired",
            RouterError::InsufficientFees => "Insufficient fee balance in vault",
            RouterError::UnauthorizedProgram => "Program not in allowed list",
            RouterError::UnauthorizedOpcode => "Opcode not in allowed list",
            RouterError::InvalidNonce => "Invalid nonce (replay protection)",
            RouterError::FeeCapExceeded => "Fee budget exceeds session fee cap",
            RouterError::TTLExpired => "TTL has been reached",
            RouterError::InvalidGridId => "Invalid grid ID",
            RouterError::SessionStillActive => "Session is still active",
            RouterError::TooManyAllowedPrograms => "Maximum allowed programs exceeded",
            RouterError::TooManyAllowedOpcodes => "Maximum allowed opcodes exceeded",
            RouterError::ArithmeticOverflow => "Arithmetic overflow",
            RouterError::InvalidMessageKind => "Invalid message kind",
            RouterError::InvalidSignature => "Invalid entry signature",
            RouterError::Unauthorized => "Caller is not the session owner",
        }
    }
}

} // verus!
