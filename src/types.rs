use vstd::prelude::*;

verus! {

/// Kind tag of a message that carries a cross-environment call.
pub const MSG_KIND_CALL: u8 = 0;

/// Kind tag of a message that carries a value transfer.
pub const MSG_KIND_TRANSFER: u8 = 1;

/// Kind tag of a message that carries opaque data.
pub const MSG_KIND_DATA: u8 = 2;

/// Whether `kind` is one of the message kinds the router recognizes.
pub open spec fn is_known_kind(kind: u8) -> bool {
    kind == MSG_KIND_CALL || kind == MSG_KIND_TRANSFER || kind == MSG_KIND_DATA
}

/// The message a routing intent carries to its destination.
#[derive(Debug, Clone, PartialEq, Eq)]
pub struct RoutingMessage {
    /// Kind tag; one of the `MSG_KIND_*` constants when well formed.
    pub kind: u8,
    /// Dispatch counter value this message claims.
    pub nonce: u64,
    /// Opaque body handed to the destination.
    pub payload: Vec<u8>,
}

impl RoutingMessage {
    /// Whether the kind tag is one the router recognizes.
    pub fn has_known_kind(&self) -> (r: bool)
        ensures
            r == is_known_kind(self.kind),
    {
        self.kind == MSG_KIND_CALL || self.kind == MSG_KIND_TRANSFER || self.kind == MSG_KIND_DATA
    }
}

/// A routing intent as it is committed to the outbox. Only its digest is kept;
/// the owner field is also the Ed25519 public key that signs that digest.
#[derive(Debug, Clone, PartialEq, Eq)]
pub struct OutboxEntry {
    /// Principal that dispatches the intent.
    pub owner: [u8; 32],
    /// Address of the session the intent is dispatched under.
    pub session: [u8; 32],
    /// Fee budget of this dispatch.
    pub fee_budget: u64,
    /// The message itself.
    pub msg: RoutingMessage,
    /// Signature carried with the intent.
    pub sig: [u8; 64],
}

} // verus!
