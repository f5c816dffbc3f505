use inner_wallet::ed25519::verify_ed25519_ix;
use inner_wallet::error::{ErrorCode, SignatureStage};
use inner_wallet::instruction::{AccountMeta, HostInstruction};
use inner_wallet::message::{external_call_message, push_u64_le, withdraw_message};
use inner_wallet::wallet::{
    call_external_program, complete_external_call, deposit, initialize, set_owner, verify_signature, withdraw,
    Wallet,
};

const ED25519_ID: [u8; 32] = [
    3, 125, 70, 214, 124, 147, 251, 190, 18, 249, 66, 143, 131, 141, 64, 255, 5, 112, 116, 73, 39, 244, 138, 100,
    252, 202, 112, 68, 128, 0, 0, 0,
];

const OWNER: [u8; 32] = [7; 32];
const SIG: [u8; 64] = [9; 64];

fn check_data(pubkey: &[u8], sig: &[u8], msg: &[u8]) -> Vec<u8> {
    let n = msg.len() as u16;
    let mut d = vec![1u8, 0, 48, 0, 0xFF, 0xFF, 16, 0, 0xFF, 0xFF, 112, 0];
    d.extend_from_slice(&n.to_le_bytes());
    d.extend_from_slice(&[0xFF, 0xFF]);
    d.extend_from_slice(pubkey);
    d.extend_from_slice(sig);
    d.extend_from_slice(msg);
    d
}

fn check_ix(pubkey: &[u8], sig: &[u8], msg: &[u8]) -> HostInstruction {
    HostInstruction { program_id: ED25519_ID, accounts: vec![], data: check_data(pubkey, sig, msg) }
}

fn owned_wallet() -> Wallet {
    let mut w = Wallet { is_initialized: false, owner_pubkey: [5; 32], nonce: 9 };
    initialize(&mut w);
    set_owner(&mut w, OWNER).unwrap();
    w
}

fn stage(s: SignatureStage) -> Result<(), ErrorCode> {
    Err(ErrorCode::SignatureStageMismatch(s))
}

#[test]
fn initialize_resets_record() {
    let mut w = Wallet { is_initialized: false, owner_pubkey: [5; 32], nonce: 9 };
    initialize(&mut w);
    assert!(w.is_initialized);
    assert_eq!(w.owner_pubkey, [0; 32]);
    assert_eq!(w.nonce, 0);
}

#[test]
fn set_owner_twice_fails() {
    let mut w = Wallet { is_initialized: false, owner_pubkey: [0; 32], nonce: 0 };
    initialize(&mut w);
    assert_eq!(set_owner(&mut w, OWNER), Ok(()));
    assert_eq!(w.owner_pubkey, OWNER);
    assert_eq!(set_owner(&mut w, [8; 32]), Err(ErrorCode::AlreadyBound));
    assert_eq!(w.owner_pubkey, OWNER);
}

#[test]
fn set_owner_on_uninitialized_record_binds() {
    let mut w = Wallet { is_initialized: false, owner_pubkey: [3; 32], nonce: 4 };
    assert_eq!(set_owner(&mut w, OWNER), Ok(()));
    assert_eq!(w.owner_pubkey, OWNER);
    assert_eq!(w.nonce, 4);
}

#[test]
fn withdraw_message_layout() {
    let m = withdraw_message(0x0102030405060708, 1);
    assert_eq!(m, vec![8, 7, 6, 5, 4, 3, 2, 1, 1, 0, 0, 0, 0, 0, 0, 0]);
}

#[test]
fn external_call_message_layout() {
    let target = [4u8; 32];
    let m = external_call_message(&target, &vec![0xAA, 0xBB], 258);
    let mut expected = vec![4u8; 32];
    expected.extend_from_slice(&[0xAA, 0xBB, 2, 1, 0, 0, 0, 0, 0, 0]);
    assert_eq!(m, expected);
}

#[test]
fn push_u64_le_appends() {
    let mut v = vec![42u8];
    push_u64_le(&mut v, u64::MAX);
    assert_eq!(v, vec![42, 255, 255, 255, 255, 255, 255, 255, 255]);
}

#[test]
fn exact_check_is_accepted() {
    let msg = withdraw_message(10, 0);
    let ix = check_ix(&OWNER, &SIG, &msg);
    assert_eq!(verify_ed25519_ix(&ix, &OWNER, &msg, &SIG), Ok(()));
    assert_eq!(verify_signature(&OWNER, &msg, &SIG, &ix), Ok(()));
}

#[test]
fn wrong_program_is_refused() {
    let msg = withdraw_message(10, 0);
    let mut ix = check_ix(&OWNER, &SIG, &msg);
    ix.program_id[31] = 1;
    assert_eq!(verify_ed25519_ix(&ix, &OWNER, &msg, &SIG), stage(SignatureStage::ProgramId));
}

#[test]
fn two_signatures_are_refused() {
    let msg = withdraw_message(10, 0);
    let mut ix = check_ix(&OWNER, &SIG, &msg);
    ix.data[0] = 2;
    assert_eq!(verify_ed25519_ix(&ix, &OWNER, &msg, &SIG), stage(SignatureStage::SignatureCount));
}

#[test]
fn malformed_checks_are_refused() {
    let msg = withdraw_message(10, 0);
    let empty = HostInstruction { program_id: ED25519_ID, accounts: vec![], data: vec![] };
    assert_eq!(verify_ed25519_ix(&empty, &OWNER, &msg, &SIG), Err(ErrorCode::MalformedCompanionInstruction));
    let mut moved = check_ix(&OWNER, &SIG, &msg);
    moved.data[6] = 17;
    assert_eq!(verify_ed25519_ix(&moved, &OWNER, &msg, &SIG), Err(ErrorCode::MalformedCompanionInstruction));
    let mut other_ix = check_ix(&OWNER, &SIG, &msg);
    other_ix.data[14] = 0;
    assert_eq!(verify_ed25519_ix(&other_ix, &OWNER, &msg, &SIG), Err(ErrorCode::MalformedCompanionInstruction));
    let mut truncated = check_ix(&OWNER, &SIG, &msg);
    truncated.data.pop();
    assert_eq!(verify_ed25519_ix(&truncated, &OWNER, &msg, &SIG), Err(ErrorCode::MalformedCompanionInstruction));
}

#[test]
fn accounts_on_the_check_are_ignored() {
    let msg = withdraw_message(10, 0);
    let mut with_account = check_ix(&OWNER, &SIG, &msg);
    with_account.accounts.push(AccountMeta { pubkey: OWNER, is_signer: false, is_writable: false });
    assert_eq!(verify_ed25519_ix(&with_account, &OWNER, &msg, &SIG), Ok(()));
    let mut key = OWNER;
    key[0] ^= 1;
    assert_eq!(verify_ed25519_ix(&with_account, &key, &msg, &SIG), stage(SignatureStage::PublicKey));
}

#[test]
fn one_byte_differences_name_the_stage() {
    let msg = withdraw_message(10, 0);
    let ix = check_ix(&OWNER, &SIG, &msg);
    let mut key = OWNER;
    key[31] ^= 1;
    assert_eq!(verify_ed25519_ix(&ix, &key, &msg, &SIG), stage(SignatureStage::PublicKey));
    let mut sig = SIG;
    sig[0] ^= 1;
    assert_eq!(verify_ed25519_ix(&ix, &OWNER, &msg, &sig), stage(SignatureStage::Signature));
    let mut m = msg.clone();
    m[15] ^= 1;
    assert_eq!(verify_ed25519_ix(&ix, &OWNER, &m, &SIG), stage(SignatureStage::Message));
    assert_eq!(verify_ed25519_ix(&ix, &OWNER, &msg[..15], &SIG), stage(SignatureStage::Message));
}

#[test]
fn withdraw_then_replay() {
    let mut w = owned_wallet();
    let msg = withdraw_message(300, 0);
    let ix = check_ix(&OWNER, &SIG, &msg);
    assert_eq!(withdraw(&mut w, 300, SIG, &ix, 1000, 5), Ok((700, 305)));
    assert_eq!(w.nonce, 1);
    assert_eq!(withdraw(&mut w, 300, SIG, &ix, 700, 305), stage(SignatureStage::Message).map(|_| (0, 0)));
    assert_eq!(w.nonce, 1);
}

#[test]
fn withdraw_next_nonce_is_accepted() {
    let mut w = owned_wallet();
    let ix0 = check_ix(&OWNER, &SIG, &withdraw_message(1, 0));
    assert_eq!(withdraw(&mut w, 1, SIG, &ix0, 10, 0), Ok((9, 1)));
    let ix1 = check_ix(&OWNER, &SIG, &withdraw_message(9, 1));
    assert_eq!(withdraw(&mut w, 9, SIG, &ix1, 9, 1), Ok((0, 10)));
    assert_eq!(w.nonce, 2);
}

#[test]
fn overdraft_keeps_nonce() {
    let mut w = owned_wallet();
    let ix = check_ix(&OWNER, &SIG, &withdraw_message(1001, 0));
    assert_eq!(withdraw(&mut w, 1001, SIG, &ix, 1000, 0), Err(ErrorCode::InsufficientFunds));
    assert_eq!(w.nonce, 0);
}

#[test]
fn bad_signature_checked_before_funds() {
    let mut w = owned_wallet();
    let ix = check_ix(&[1; 32], &SIG, &withdraw_message(1001, 0));
    assert_eq!(withdraw(&mut w, 1001, SIG, &ix, 1000, 0), Err(ErrorCode::SignatureStageMismatch(SignatureStage::PublicKey)));
    assert_eq!(w.nonce, 0);
}

#[test]
fn withdraw_overflows_fail_closed() {
    let mut w = owned_wallet();
    let ix = check_ix(&OWNER, &SIG, &withdraw_message(2, 0));
    assert_eq!(withdraw(&mut w, 2, SIG, &ix, 10, u64::MAX - 1), Err(ErrorCode::BalanceOverflow));
    assert_eq!(w.nonce, 0);
    w.nonce = u64::MAX;
    let ix = check_ix(&OWNER, &SIG, &withdraw_message(2, u64::MAX));
    assert_eq!(withdraw(&mut w, 2, SIG, &ix, 10, 0), Err(ErrorCode::NonceOverflow));
    assert_eq!(w.nonce, u64::MAX);
}

#[test]
fn withdraw_whole_balance() {
    let mut w = owned_wallet();
    let ix = check_ix(&OWNER, &SIG, &withdraw_message(10, 0));
    assert_eq!(withdraw(&mut w, 10, SIG, &ix, 10, 0), Ok((0, 10)));
}

#[test]
fn external_call_relays_and_advances_on_success() {
    let mut w = owned_wallet();
    let target = [6u8; 32];
    let data = vec![1u8, 2, 3];
    let msg = external_call_message(&target, &data, 0);
    let ix = check_ix(&OWNER, &SIG, &msg);
    let accounts = vec![AccountMeta { pubkey: [2; 32], is_signer: true, is_writable: false }];
    let (relay, auth) = call_external_program(&w, target, data.clone(), SIG, &ix, accounts.clone()).unwrap();
    assert_eq!(relay.program_id, target);
    assert_eq!(relay.accounts, accounts);
    assert_eq!(relay.data, data);
    assert_eq!(w.nonce, 0);
    assert_eq!(complete_external_call(&mut w, &auth, true), Ok(()));
    assert_eq!(w.nonce, 1);
    assert_eq!(complete_external_call(&mut w, &auth, true), Err(ErrorCode::StaleAuthorization));
    assert_eq!(w.nonce, 1);
    let again = call_external_program(&w, target, data, SIG, &ix, accounts);
    assert_eq!(again.err(), Some(ErrorCode::SignatureStageMismatch(SignatureStage::Message)));
}

#[test]
fn external_call_failure_keeps_nonce() {
    let mut w = owned_wallet();
    let target = [6u8; 32];
    let ix = check_ix(&OWNER, &SIG, &external_call_message(&target, &vec![9], 0));
    let (_, auth) = call_external_program(&w, target, vec![9], SIG, &ix, vec![]).unwrap();
    assert_eq!(complete_external_call(&mut w, &auth, false), Err(ErrorCode::ExternalInvocationFailed));
    assert_eq!(w.nonce, 0);
    assert_eq!(complete_external_call(&mut w, &auth, true), Ok(()));
    assert_eq!(w.nonce, 1);
}

#[test]
fn external_call_with_other_data_is_refused() {
    let w = owned_wallet();
    let target = [6u8; 32];
    let ix = check_ix(&OWNER, &SIG, &external_call_message(&target, &vec![1, 2, 3], 0));
    let r = call_external_program(&w, target, vec![1, 2, 4], SIG, &ix, vec![]);
    assert_eq!(r.err(), Some(ErrorCode::SignatureStageMismatch(SignatureStage::Message)));
    let r = call_external_program(&w, [7u8; 32], vec![1, 2, 3], SIG, &ix, vec![]);
    assert_eq!(r.err(), Some(ErrorCode::SignatureStageMismatch(SignatureStage::Message)));
}

#[test]
fn external_call_at_last_nonce_fails_closed() {
    let mut w = owned_wallet();
    w.nonce = u64::MAX;
    let target = [6u8; 32];
    let ix = check_ix(&OWNER, &SIG, &external_call_message(&target, &vec![], u64::MAX));
    let r = call_external_program(&w, target, vec![], SIG, &ix, vec![]);
    assert_eq!(r.err(), Some(ErrorCode::NonceOverflow));
    assert_eq!(w.nonce, u64::MAX);
}

#[test]
fn deposit_is_a_system_transfer() {
    let w = owned_wallet();
    let wallet_address = [1u8; 32];
    let payer = [2u8; 32];
    let ix = deposit(&w, wallet_address, payer, 0x0102);
    assert_eq!(ix.program_id, [0u8; 32]);
    assert_eq!(
        ix.accounts,
        vec![
            AccountMeta { pubkey: payer, is_signer: true, is_writable: true },
            AccountMeta { pubkey: wallet_address, is_signer: false, is_writable: true },
        ]
    );
    assert_eq!(ix.data, vec![2, 0, 0, 0, 2, 1, 0, 0, 0, 0, 0, 0]);
    assert_eq!(w.nonce, 0);
    assert_eq!(w.owner_pubkey, OWNER);
    let zero = deposit(&w, wallet_address, payer, 0);
    assert_eq!(zero.data, vec![2, 0, 0, 0, 0, 0, 0, 0, 0, 0, 0, 0]);
}

#[test]
fn messages_differ_by_nonce_and_amount() {
    assert_ne!(withdraw_message(1, 0), withdraw_message(1, 1));
    assert_ne!(withdraw_message(1, 255), withdraw_message(1, 256));
    assert_ne!(withdraw_message(256, 0), withdraw_message(1, 0));
    let target = [4u8; 32];
    assert_ne!(external_call_message(&target, &vec![1], 0), external_call_message(&target, &vec![2], 0));
    assert_ne!(external_call_message(&target, &vec![1], 0), external_call_message(&[5u8; 32], &vec![1], 0));
}

#[test]
fn oversized_message_cannot_be_checked() {
    let msg = vec![0u8; 70000];
    let mut data = check_data(&OWNER, &SIG, &[]);
    data.extend_from_slice(&msg);
    let ix = HostInstruction { program_id: ED25519_ID, accounts: vec![], data };
    assert_eq!(verify_ed25519_ix(&ix, &OWNER, &msg, &SIG), Err(ErrorCode::MalformedCompanionInstruction));
}

#[test]
fn empty_message_check_is_accepted() {
    let ix = check_ix(&OWNER, &SIG, &[]);
    assert_eq!(ix.data.len(), 112);
    assert_eq!(verify_ed25519_ix(&ix, &OWNER, &[], &SIG), Ok(()));
}

#[test]
fn withdraw_of_zero_advances_nonce() {
    let mut w = owned_wallet();
    let ix = check_ix(&OWNER, &SIG, &withdraw_message(0, 0));
    assert_eq!(withdraw(&mut w, 0, SIG, &ix, 0, 0), Ok((0, 0)));
    assert_eq!(w.nonce, 1);
}

#[test]
fn withdraw_without_owner_is_refused() {
    let mut w = Wallet { is_initialized: false, owner_pubkey: [0; 32], nonce: 0 };
    initialize(&mut w);
    let unset = [0u8; 32];
    let ix = check_ix(&unset, &SIG, &withdraw_message(1, 0));
    assert_eq!(withdraw(&mut w, 1, SIG, &ix, 10, 0), Err(ErrorCode::OwnerUnset));
    assert_eq!(w.nonce, 0);
    let mut raw = Wallet { is_initialized: false, owner_pubkey: OWNER, nonce: 0 };
    let ix = check_ix(&OWNER, &SIG, &withdraw_message(1, 0));
    assert_eq!(withdraw(&mut raw, 1, SIG, &ix, 10, 0), Err(ErrorCode::OwnerUnset));
    assert_eq!(raw.nonce, 0);
}

#[test]
fn external_call_without_owner_is_refused() {
    let mut w = Wallet { is_initialized: false, owner_pubkey: [0; 32], nonce: 0 };
    initialize(&mut w);
    let target = [6u8; 32];
    let ix = check_ix(&[0u8; 32], &SIG, &external_call_message(&target, &vec![1], 0));
    let r = call_external_program(&w, target, vec![1], SIG, &ix, vec![]);
    assert_eq!(r.err(), Some(ErrorCode::OwnerUnset));
}

#[test]
fn authorization_of_another_wallet_is_refused() {
    let w = owned_wallet();
    let target = [6u8; 32];
    let ix = check_ix(&OWNER, &SIG, &external_call_message(&target, &vec![], 0));
    let (_, auth) = call_external_program(&w, target, vec![], SIG, &ix, vec![]).unwrap();
    let mut other = Wallet { is_initialized: false, owner_pubkey: [0; 32], nonce: 0 };
    initialize(&mut other);
    set_owner(&mut other, [8; 32]).unwrap();
    assert_eq!(complete_external_call(&mut other, &auth, true), Err(ErrorCode::StaleAuthorization));
    assert_eq!(other.nonce, 0);
}

#[test]
fn external_call_messages_of_different_lengths_differ() {
    let target = [4u8; 32];
    assert_ne!(external_call_message(&target, &vec![], 0), external_call_message(&target, &vec![0], 0));
}

#[test]
fn short_header_is_malformed_whatever_the_count() {
    let msg = withdraw_message(10, 0);
    for data in [vec![2u8], vec![1u8], vec![0u8], vec![2u8; 20], vec![1u8; 15]] {
        let ix = HostInstruction { program_id: ED25519_ID, accounts: vec![], data };
        assert_eq!(verify_ed25519_ix(&ix, &OWNER, &msg, &SIG), Err(ErrorCode::MalformedCompanionInstruction));
    }
}

#[test]
fn complete_header_with_other_count_is_a_count_mismatch() {
    let msg = withdraw_message(10, 0);
    let none = HostInstruction { program_id: ED25519_ID, accounts: vec![], data: vec![0u8, 0] };
    assert_eq!(verify_ed25519_ix(&none, &OWNER, &msg, &SIG), stage(SignatureStage::SignatureCount));
    let two = HostInstruction { program_id: ED25519_ID, accounts: vec![], data: vec![2u8; 30] };
    assert_eq!(verify_ed25519_ix(&two, &OWNER, &msg, &SIG), stage(SignatureStage::SignatureCount));
}
