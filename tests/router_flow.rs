use router::close_expired::CloseExpired;
use router::errors::RouterError;
use router::fee_vault::FeeVault;
use router::outbox::{replay_root, Outbox};
use router::send::send;
use router::session::{Session, MAX_ALLOWED_OPCODES, MAX_ALLOWED_PROGRAMS};
use router::types::{OutboxEntry, RoutingMessage, MSG_KIND_CALL};
use router::utils::{compute_entry_hash, verify_entry_signature};

use ed25519_dalek::{Signer, SigningKey};

const TARGET: [u8; 32] = [0x71; 32];
const SESSION_KEY: [u8; 32] = [0x5E; 32];

fn signing_key() -> SigningKey {
    SigningKey::from_bytes(&[0xA1; 32])
}

fn owner() -> [u8; 32] {
    signing_key().verifying_key().to_bytes()
}

fn sign(e: &OutboxEntry) -> [u8; 64] {
    let digest = compute_entry_hash(e).unwrap();
    signing_key().sign(&digest).to_bytes()
}

fn sha256(data: &[u8]) -> [u8; 32] {
    solana_sha256_hasher::hash(data).to_bytes()
}

fn entry(fee_budget: u64, nonce: u64, kind: u8) -> OutboxEntry {
    OutboxEntry {
        owner: owner(),
        session: SESSION_KEY,
        fee_budget,
        msg: RoutingMessage { kind, nonce, payload: vec![1, 2, 3] },
        sig: [0x33; 64],
    }
}

fn open_example() -> Session {
    Session::open(owner(), 7, vec![TARGET], vec![1], 1000, 100, 0, 255).unwrap()
}

fn funded_vault(amount: u64) -> FeeVault {
    let mut vault = FeeVault::new(owner(), 254);
    assert_eq!(vault.deposit(amount), Ok(amount));
    vault
}

fn chain(root: &[u8; 32], digest: &[u8; 32]) -> [u8; 32] {
    let mut buf = root.to_vec();
    buf.extend_from_slice(digest);
    sha256(&buf)
}

#[test]
fn example_trace() {
    let mut session = open_example();
    assert_eq!(session.expires_at, 100);
    assert_eq!(session.nonce, 0);
    assert_eq!(session.fee_spent, 0);

    let mut vault = funded_vault(500);
    assert_eq!(vault.balance, 500);
    let mut outbox = Outbox::new(owner(), 253);

    let e1 = entry(200, 1, MSG_KIND_CALL);
    let (digest, root) =
        send(&mut session, &mut vault, &mut outbox, &TARGET, 1, &e1, &sign(&e1), 10).unwrap();
    assert_eq!(session.fee_spent, 200);
    assert_eq!(session.nonce, 1);
    assert_eq!(vault.balance, 300);
    assert_eq!(outbox.entry_count, 1);
    assert_eq!(digest, compute_entry_hash(&e1).unwrap());
    assert_eq!(root, chain(&[0u8; 32], &digest));
    assert_eq!(outbox.merkle_root, root);

    let (s0, v0, o0) = (session.clone(), vault, outbox);
    let replay = send(&mut session, &mut vault, &mut outbox, &TARGET, 1, &e1, &sign(&e1), 10);
    assert_eq!(replay, Err(RouterError::InvalidNonce));
    assert_eq!(session, s0);
    assert_eq!(vault, v0);
    assert_eq!(outbox, o0);

    let mut close = CloseExpired { session: session.clone(), fee_vault: vault, owner: owner() };
    assert_eq!(close.close_expired(50), Err(RouterError::SessionStillActive));
    assert_eq!(close.close_expired(150), Ok(300));
}

#[test]
fn open_rejects_invalid_grid_id() {
    let r = Session::open(owner(), 0, vec![TARGET], vec![1], 1000, 100, 0, 0);
    assert_eq!(r, Err(RouterError::InvalidGridId));
}

#[test]
fn open_rejects_too_many_programs() {
    let targets = vec![TARGET; MAX_ALLOWED_PROGRAMS + 1];
    let r = Session::open(owner(), 7, targets, vec![1], 1000, 100, 0, 0);
    assert_eq!(r, Err(RouterError::TooManyAllowedPrograms));
}

#[test]
fn open_accepts_full_allow_lists() {
    let targets = vec![TARGET; MAX_ALLOWED_PROGRAMS];
    let ops = vec![1u8; MAX_ALLOWED_OPCODES];
    let s = Session::open(owner(), 7, targets, ops, 1000, 100, 0, 0).unwrap();
    assert_eq!(s.allowed_programs.len(), MAX_ALLOWED_PROGRAMS);
    assert_eq!(s.allowed_opcodes.len(), MAX_ALLOWED_OPCODES);
}

#[test]
fn open_rejects_too_many_opcodes() {
    let ops = vec![1u8; MAX_ALLOWED_OPCODES + 1];
    let r = Session::open(owner(), 7, vec![TARGET], ops, 1000, 100, 0, 0);
    assert_eq!(r, Err(RouterError::TooManyAllowedOpcodes));
}

#[test]
fn open_rejects_expiry_overflow() {
    let r = Session::open(owner(), 7, vec![TARGET], vec![1], 1000, u64::MAX, 1, 0);
    assert_eq!(r, Err(RouterError::ArithmeticOverflow));
}

#[test]
fn authorize_rejects_expired_session() {
    let mut s = open_example();
    assert!(s.is_expired(100));
    assert!(!s.is_expired(99));
    assert_eq!(s.authorize_dispatch(&TARGET, 1, 10, 1, 100), Err(RouterError::SessionExpired));
    assert_eq!(s, open_example());
}

#[test]
fn authorize_rejects_unknown_target() {
    let mut s = open_example();
    let r = s.authorize_dispatch(&[0x72; 32], 1, 10, 1, 5);
    assert_eq!(r, Err(RouterError::UnauthorizedProgram));
    assert_eq!(s, open_example());
}

#[test]
fn authorize_rejects_unknown_opcode() {
    let mut s = open_example();
    assert_eq!(s.authorize_dispatch(&TARGET, 2, 10, 1, 5), Err(RouterError::UnauthorizedOpcode));
    assert_eq!(s, open_example());
}

#[test]
fn authorize_rejects_gap_and_replay_nonces() {
    let mut s = open_example();
    assert_eq!(s.authorize_dispatch(&TARGET, 1, 10, 2, 5), Err(RouterError::InvalidNonce));
    assert_eq!(s.authorize_dispatch(&TARGET, 1, 10, 0, 5), Err(RouterError::InvalidNonce));
    assert_eq!(s, open_example());
    assert_eq!(s.authorize_dispatch(&TARGET, 1, 10, 1, 5), Ok(()));
    assert_eq!(s.authorize_dispatch(&TARGET, 1, 10, 1, 6), Err(RouterError::InvalidNonce));
    assert_eq!(s.authorize_dispatch(&TARGET, 1, 10, 2, 6), Ok(()));
    assert_eq!(s.nonce, 2);
    assert_eq!(s.fee_spent, 20);
}

#[test]
fn authorize_enforces_fee_cap() {
    let mut s = open_example();
    assert_eq!(s.authorize_dispatch(&TARGET, 1, 1001, 1, 5), Err(RouterError::FeeCapExceeded));
    assert_eq!(s.authorize_dispatch(&TARGET, 1, 600, 1, 5), Ok(()));
    assert_eq!(s.authorize_dispatch(&TARGET, 1, 401, 2, 5), Err(RouterError::FeeCapExceeded));
    assert_eq!(s.authorize_dispatch(&TARGET, 1, 400, 2, 5), Ok(()));
    assert_eq!(s.fee_spent, 1000);
    assert!(s.fee_spent <= s.fee_cap);
}

#[test]
fn authorize_reports_fee_overflow() {
    let mut s = Session::open(owner(), 7, vec![TARGET], vec![1], u64::MAX, 100, 0, 0).unwrap();
    assert_eq!(s.authorize_dispatch(&TARGET, 1, u64::MAX, 1, 5), Ok(()));
    assert_eq!(s.authorize_dispatch(&TARGET, 1, 1, 2, 5), Err(RouterError::ArithmeticOverflow));
}

#[test]
fn vault_deposit_and_withdraw() {
    let mut v = FeeVault::new(owner(), 0);
    assert_eq!(v.deposit(500), Ok(500));
    assert!(v.has_sufficient_balance(500));
    assert!(!v.has_sufficient_balance(501));
    assert_eq!(v.withdraw(501), Err(RouterError::InsufficientFees));
    assert_eq!(v.balance, 500);
    assert_eq!(v.withdraw(500), Ok(0));
    assert_eq!(v.balance, 0);
}

#[test]
fn vault_deposit_overflow() {
    let mut v = funded_vault(u64::MAX);
    assert_eq!(v.deposit(1), Err(RouterError::ArithmeticOverflow));
    assert_eq!(v.balance, u64::MAX);
}

#[test]
fn send_rejects_insufficient_fees() {
    let mut session = open_example();
    let mut vault = funded_vault(100);
    let mut outbox = Outbox::new(owner(), 0);
    let e = entry(200, 1, MSG_KIND_CALL);
    let r = send(&mut session, &mut vault, &mut outbox, &TARGET, 1, &e, &sign(&e), 10);
    assert_eq!(r, Err(RouterError::InsufficientFees));
    assert_eq!(session, open_example());
    assert_eq!(vault.balance, 100);
    assert_eq!(outbox, Outbox::new(owner(), 0));
}

#[test]
fn send_rejects_unknown_message_kind() {
    let mut session = open_example();
    let mut vault = funded_vault(500);
    let mut outbox = Outbox::new(owner(), 0);
    let e = entry(200, 1, 9);
    let r = send(&mut session, &mut vault, &mut outbox, &TARGET, 1, &e, &sign(&e), 10);
    assert_eq!(r, Err(RouterError::InvalidMessageKind));
    assert_eq!(session, open_example());
    assert_eq!(vault.balance, 500);
    assert_eq!(outbox.entry_count, 0);
}

#[test]
fn send_rejects_wrong_signature() {
    let mut session = open_example();
    let mut vault = funded_vault(500);
    let mut outbox = Outbox::new(owner(), 0);
    let e = entry(200, 1, MSG_KIND_CALL);
    let other = entry(200, 2, MSG_KIND_CALL);
    let r = send(&mut session, &mut vault, &mut outbox, &TARGET, 1, &e, &sign(&other), 10);
    assert_eq!(r, Err(RouterError::InvalidSignature));
    let r = send(&mut session, &mut vault, &mut outbox, &TARGET, 1, &e, &e.sig, 10);
    assert_eq!(r, Err(RouterError::InvalidSignature));
    assert_eq!(session, open_example());
    assert_eq!(vault.balance, 500);
    assert_eq!(outbox.entry_count, 0);
}

#[test]
fn send_rejects_full_outbox() {
    let mut session = open_example();
    let mut vault = funded_vault(500);
    let mut outbox = Outbox::new(owner(), 0);
    outbox.entry_count = u64::MAX;
    let e = entry(200, 1, MSG_KIND_CALL);
    let r = send(&mut session, &mut vault, &mut outbox, &TARGET, 1, &e, &sign(&e), 10);
    assert_eq!(r, Err(RouterError::ArithmeticOverflow));
    assert_eq!(session, open_example());
    assert_eq!(vault.balance, 500);
    assert_eq!(outbox.merkle_root, [0u8; 32]);
}

#[test]
fn close_rejects_other_caller() {
    let mut close =
        CloseExpired { session: open_example(), fee_vault: funded_vault(42), owner: [0xB2; 32] };
    assert_eq!(close.close_expired(100), Err(RouterError::Unauthorized));
    close.owner = owner();
    assert_eq!(close.close_expired(100), Ok(42));
}

#[test]
fn first_link_hashes_zero_seed() {
    let mut outbox = Outbox::new(owner(), 0);
    let root = outbox.append([0u8; 32]).unwrap();
    // SHA-256 of sixty-four zero bytes.
    let expected: [u8; 32] = [
        0xf5, 0xa5, 0xfd, 0x42, 0xd1, 0x6a, 0x20, 0x30, 0x27, 0x98, 0xef, 0x6e, 0xd3, 0x09, 0x97,
        0x9b, 0x43, 0x00, 0x3d, 0x23, 0x20, 0xd9, 0xf0, 0xe8, 0xea, 0x98, 0x31, 0xa9, 0x27, 0x59,
        0xfb, 0x4b,
    ];
    assert_eq!(root, expected);
    assert_eq!(outbox.entry_count, 1);
}

#[test]
fn update_merkle_root_keeps_count() {
    let mut outbox = Outbox::new(owner(), 0);
    let root = outbox.update_merkle_root([7u8; 32]);
    assert_eq!(root, chain(&[0u8; 32], &[7u8; 32]));
    assert_eq!(outbox.entry_count, 0);
}

#[test]
fn replay_reproduces_stored_root() {
    let digests = vec![[1u8; 32], [2u8; 32], [3u8; 32]];
    let mut outbox = Outbox::new(owner(), 0);
    for d in &digests {
        outbox.append(*d).unwrap();
    }
    let expected = chain(&chain(&chain(&[0u8; 32], &[1u8; 32]), &[2u8; 32]), &[3u8; 32]);
    assert_eq!(outbox.merkle_root, expected);
    assert_eq!(replay_root(&digests), expected);
    assert!(outbox.matches_history(&digests));
    assert!(!outbox.matches_history(&vec![[1u8; 32], [3u8; 32], [2u8; 32]]));
    assert!(!outbox.matches_history(&vec![[1u8; 32], [2u8; 32]]));
    assert_eq!(replay_root(&Vec::new()), [0u8; 32]);
}

#[test]
fn entry_hash_covers_canonical_fields() {
    let e = entry(0x0102, 0x0A0B, MSG_KIND_CALL);
    let mut enc = Vec::new();
    enc.extend_from_slice(&owner());
    enc.extend_from_slice(&SESSION_KEY);
    enc.extend_from_slice(&0x0102u64.to_le_bytes());
    enc.extend_from_slice(&0x0A0Bu64.to_le_bytes());
    assert_eq!(compute_entry_hash(&e), Ok(sha256(&enc)));
    let mut other = e.clone();
    other.msg.payload = vec![9, 9];
    other.sig = [0; 64];
    assert_eq!(compute_entry_hash(&other), compute_entry_hash(&e));
    other.msg.nonce += 1;
    assert_ne!(compute_entry_hash(&other), compute_entry_hash(&e));
}

#[test]
fn signature_check_verifies_owner_signature() {
    let e = entry(1, 1, MSG_KIND_CALL);
    let good = sign(&e);
    assert_eq!(verify_entry_signature(&e, &good), Ok(true));
    let mut bad = good;
    bad[0] ^= 1;
    assert_eq!(verify_entry_signature(&e, &bad), Ok(false));
    // The signature stored in the entry is not a signature of its digest.
    assert_eq!(verify_entry_signature(&e, &e.sig), Ok(false));
    // A signature of another entry's digest is refused.
    assert_eq!(verify_entry_signature(&e, &sign(&entry(1, 2, MSG_KIND_CALL))), Ok(false));
    // A signature by another key is refused.
    let stranger = SigningKey::from_bytes(&[0xB2; 32]);
    let foreign = stranger.sign(&compute_entry_hash(&e).unwrap()).to_bytes();
    assert_eq!(verify_entry_signature(&e, &foreign), Ok(false));
}

#[test]
fn error_messages_are_distinct() {
    assert_eq!(RouterError::SessionStillActive.message(), "Session is still active");
    assert_ne!(RouterError::Unauthorized.message(), RouterError::UnauthorizedProgram.message());
}
