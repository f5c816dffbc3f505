//! The wallet record and the operations on it.
//!
//! Each operation is all-or-nothing: when it fails, the wallet is left as it
//! was. The host's side effects (moving lamports through the system program,
//! invoking a relayed instruction) are described by the values these
//! functions return; the caller carries them out.
use vstd::prelude::*;
use crate::ed25519::{checked_message, companion_check, same_key, verify_ed25519_ix};
use crate::error::{ErrorCode, SignatureStage};
use crate::instruction::{system_transfer, transfer_data, system_program_address, AccountMeta, HostInstruction};
use crate::message::{
    external_call_message, external_call_msg, lemma_withdraw_msg_injective, withdraw_message, withdraw_msg,
};

verus! {

/// The persisted state of one wallet.
#[derive(Clone, Copy, Debug)]
pub struct Wallet {
    pub is_initialized: bool,
    /// The key whose signatures authorize operations; all zero while unset.
    pub owner_pubkey: [u8; 32],
    /// Advances by one with every authorized operation that completes.
    pub nonce: u64,
}

/// The key that marks an unset owner.
pub open spec fn unset_key() -> Seq<u8> {
    Seq::new(32, |i: int| 0u8)
}

/// Whether an owner key is bound.
pub open spec fn is_bound(w: Wallet) -> bool {
    w.is_initialized && w.owner_pubkey@ != unset_key()
}

/// A freshly initialized wallet: no owner, nonce zero.
pub open spec fn fresh(w: Wallet) -> bool {
    w.is_initialized && w.owner_pubkey@ == unset_key() && w.nonce == 0
}

/// `w` with its nonce advanced by one.
pub open spec fn advanced(w: Wallet) -> Wallet {
    Wallet { nonce: (w.nonce + 1) as u64, ..w }
}

/// The outcome of `set_owner(w, key)`: the wallet afterwards, or the error.
pub open spec fn set_owner_outcome(w: Wallet, key: [u8; 32]) -> Result<Wallet, ErrorCode> {
    if is_bound(w) {
        Err(ErrorCode::AlreadyBound)
    } else {
        Ok(Wallet { owner_pubkey: key, ..w })
    }
}

/// The outcome of a withdrawal of `amount` authorized by `sig` and checked by
/// `ix`, from a wallet holding `wallet_lamports` to a recipient holding
/// `recipient_lamports`: the new balances of the two, or the error.
pub open spec fn withdraw_outcome(
    w: Wallet,
    amount: u64,
    sig: Seq<u8>,
    ix: HostInstruction,
    wallet_lamports: u64,
    recipient_lamports: u64,
) -> Result<(u64, u64), ErrorCode> {
    if !is_bound(w) {
        Err(ErrorCode::OwnerUnset)
    } else {
        match companion_check(ix, w.owner_pubkey@, withdraw_msg(amount, w.nonce), sig) {
            Err(e) => Err(e),
            Ok(()) => if wallet_lamports < amount {
                Err(ErrorCode::InsufficientFunds)
            } else if recipient_lamports as int + amount as int > u64::MAX as int {
                Err(ErrorCode::BalanceOverflow)
            } else if w.nonce == u64::MAX {
                Err(ErrorCode::NonceOverflow)
            } else {
                Ok(((wallet_lamports - amount) as u64, (recipient_lamports + amount) as u64))
            },
        }
    }
}

/// Whether `r` is the instruction that relays `data` to `program_id` with
/// `accounts`.
pub open spec fn is_relay_of(
    r: HostInstruction,
    program_id: [u8; 32],
    accounts: Seq<AccountMeta>,
    data: Seq<u8>,
) -> bool {
    r.program_id == program_id && r.accounts@ == accounts && r.data@ == data
}

/// When the call of `program_id` with `data` authorized by `sig` and checked
/// by `ix` is refused, and why.
pub open spec fn call_refusal(
    w: Wallet,
    program_id: [u8; 32],
    data: Seq<u8>,
    sig: Seq<u8>,
    ix: HostInstruction,
) -> Option<ErrorCode> {
    if !is_bound(w) {
        Some(ErrorCode::OwnerUnset)
    } else {
        match companion_check(ix, w.owner_pubkey@, external_call_msg(program_id@, data, w.nonce), sig) {
            Err(e) => Some(e),
            Ok(()) => if w.nonce == u64::MAX {
                Some(ErrorCode::NonceOverflow)
            } else {
                None
            },
        }
    }
}

/// Proof that a call was authorized for a wallet: its owner and nonce at the
/// time. Only `call_external_program` issues one, and
/// `complete_external_call` advances the nonce only when given one that
/// matches the wallet.
#[derive(Debug)]
pub struct CallAuthorization {
    owner_pubkey: [u8; 32],
    nonce: u64,
}

impl CallAuthorization {
    /// The owner key the call was authorized under.
    pub closed spec fn owner(&self) -> [u8; 32] {
        self.owner_pubkey
    }

    /// The nonce the call was authorized at.
    pub closed spec fn at_nonce(&self) -> u64 {
        self.nonce
    }
}

/// Whether `auth` was issued for `w` as it stands.
pub open spec fn authorizes(auth: CallAuthorization, w: Wallet) -> bool {
    auth.owner()@ == w.owner_pubkey@ && auth.at_nonce() == w.nonce
}

/// The outcome of completing an authorized call whose relayed instruction
/// succeeded or not: the wallet afterwards, or the error.
pub open spec fn completion_outcome(
    w: Wallet,
    auth: CallAuthorization,
    relay_succeeded: bool,
) -> Result<Wallet, ErrorCode> {
    if !authorizes(auth, w) {
        Err(ErrorCode::StaleAuthorization)
    } else if !relay_succeeded {
        Err(ErrorCode::ExternalInvocationFailed)
    } else if w.nonce == u64::MAX {
        Err(ErrorCode::NonceOverflow)
    } else {
        Ok(advanced(w))
    }
}

fn is_unset_key(k: &[u8; 32]) -> (r: bool)
    ensures
        r == (k@ == unset_key()),
{
    let mut i: usize = 0;
    while i < 32
        invariant
            i <= 32,
            forall|j: int| 0 <= j < i ==> k@[j] == 0,
        decreases 32 - i,
    {
        if k[i] != 0 {
            assert(k@[i as int] != unset_key()[i as int]);
            return false;
        }
        i = i + 1;
    }
    assert(k@ =~= unset_key());
    true
}

fn owner_bound(wallet: &Wallet) -> (r: bool)
    ensures
        r == is_bound(*wallet),
{
    wallet.is_initialized && !is_unset_key(&wallet.owner_pubkey)
}

/// Resets `wallet` to a freshly initialized record: no owner, nonce zero.
pub fn initialize(wallet: &mut Wallet)
    ensures
        fresh(*final(wallet)),
{
    wallet.is_initialized = true;
    wallet.owner_pubkey = [0u8; 32];
    wallet.nonce = 0;
    assert(wallet.owner_pubkey@ =~= unset_key());
}

/// Binds `owner_pubkey` as the wallet's owner, unless an owner is already bound.
pub fn set_owner(wallet: &mut Wallet, owner_pubkey: [u8; 32]) -> (r: Result<(), ErrorCode>)
    ensures
        match set_owner_outcome(*old(wallet), owner_pubkey) {
            Ok(w) => r == Ok::<(), ErrorCode>(()) && *final(wallet) == w,
            Err(e) => r == Err::<(), ErrorCode>(e) && *final(wallet) == *old(wallet),
        },
{
    if owner_bound(wallet) {
        return Err(ErrorCode::AlreadyBound);
    }
    wallet.owner_pubkey = owner_pubkey;
    Ok(())
}

/// The transfer that deposits `amount` lamports from `payer` into the wallet
/// at `wallet_address`. A deposit needs no signature and leaves the record
/// as it is.
pub fn deposit(wallet: &Wallet, wallet_address: [u8; 32], payer: [u8; 32], amount: u64) -> (r: HostInstruction)
    ensures
        r.program_id@ == system_program_address(),
        r.accounts@ == seq![
            (AccountMeta { pubkey: payer, is_signer: true, is_writable: true }),
            (AccountMeta { pubkey: wallet_address, is_signer: false, is_writable: true }),
        ],
        r.data@ == transfer_data(amount),
{
    system_transfer(payer, wallet_address, amount)
}

/// Confirms that the companion instruction `ix` checked `signature` by
/// `pubkey` over `message`.
pub fn verify_signature(
    pubkey: &[u8; 32],
    message: &[u8],
    signature: &[u8; 64],
    ix: &HostInstruction,
) -> (r: Result<(), ErrorCode>)
    ensures
        r == companion_check(*ix, pubkey@, message@, signature@),
{
    verify_ed25519_ix(ix, pubkey, message, signature)
}

/// Withdraws `amount` lamports to the recipient, authorized by the owner's
/// `signature` over the amount and the current nonce, which `ix` must have
/// checked. Returns the new balances of the wallet and the recipient, and
/// advances the nonce; on failure nothing changes. Refused while no owner is
/// bound.
pub fn withdraw(
    wallet: &mut Wallet,
    amount: u64,
    signature: [u8; 64],
    ix: &HostInstruction,
    wallet_lamports: u64,
    recipient_lamports: u64,
) -> (r: Result<(u64, u64), ErrorCode>)
    ensures
        r == withdraw_outcome(*old(wallet), amount, signature@, *ix, wallet_lamports, recipient_lamports),
        r is Ok ==> *final(wallet) == advanced(*old(wallet)),
        r is Err ==> *final(wallet) == *old(wallet),
        !is_bound(*old(wallet)) ==> r is Err,
{
    if !owner_bound(wallet) {
        return Err(ErrorCode::OwnerUnset);
    }
    let message = withdraw_message(amount, wallet.nonce);
    verify_signature(&wallet.owner_pubkey, message.as_slice(), &signature, ix)?;
    if wallet_lamports < amount {
        return Err(ErrorCode::InsufficientFunds);
    }
    if recipient_lamports > u64::MAX - amount {
        return Err(ErrorCode::BalanceOverflow);
    }
    if wallet.nonce == u64::MAX {
        return Err(ErrorCode::NonceOverflow);
    }
    wallet.nonce = wallet.nonce + 1;
    Ok((wallet_lamports - amount, recipient_lamports + amount))
}

/// Authorizes relaying `instruction_data` to `program_id` with
/// `remaining_accounts`, passed on as given: the owner's `signature` over the
/// target, the data and the current nonce must have been checked by `ix`.
/// Returns the instruction to invoke and the authorization that
/// `complete_external_call` needs to advance the nonce once it succeeded.
/// Refused while no owner is bound.
pub fn call_external_program(
    wallet: &Wallet,
    program_id: [u8; 32],
    instruction_data: Vec<u8>,
    signature: [u8; 64],
    ix: &HostInstruction,
    remaining_accounts: Vec<AccountMeta>,
) -> (r: Result<(HostInstruction, CallAuthorization), ErrorCode>)
    ensures
        match call_refusal(*wallet, program_id, instruction_data@, signature@, *ix) {
            Some(e) => r == Err::<(HostInstruction, CallAuthorization), ErrorCode>(e),
            None => r is Ok && is_relay_of(r->Ok_0.0, program_id, remaining_accounts@, instruction_data@)
                && authorizes(r->Ok_0.1, *wallet),
        },
        !is_bound(*wallet) ==> r is Err,
{
    if !owner_bound(wallet) {
        return Err(ErrorCode::OwnerUnset);
    }
    let message = external_call_message(&program_id, &instruction_data, wallet.nonce);
    match verify_signature(&wallet.owner_pubkey, message.as_slice(), &signature, ix) {
        Err(e) => return Err(e),
        Ok(()) => {},
    }
    if wallet.nonce == u64::MAX {
        return Err(ErrorCode::NonceOverflow);
    }
    let auth = CallAuthorization { owner_pubkey: wallet.owner_pubkey, nonce: wallet.nonce };
    Ok((HostInstruction { program_id, accounts: remaining_accounts, data: instruction_data }, auth))
}

/// Finishes the call that `auth` authorized once the relayed instruction has
/// run: advances the nonce if it succeeded, and otherwise, or when `auth` was
/// issued for another owner or nonce, fails with the wallet unchanged.
pub fn complete_external_call(
    wallet: &mut Wallet,
    auth: &CallAuthorization,
    relay_succeeded: bool,
) -> (r: Result<(), ErrorCode>)
    ensures
        match completion_outcome(*old(wallet), *auth, relay_succeeded) {
            Ok(w) => r == Ok::<(), ErrorCode>(()) && *final(wallet) == w,
            Err(e) => r == Err::<(), ErrorCode>(e) && *final(wallet) == *old(wallet),
        },
{
    if !same_key(&auth.owner_pubkey, &wallet.owner_pubkey) || auth.nonce != wallet.nonce {
        return Err(ErrorCode::StaleAuthorization);
    }
    if !relay_succeeded {
        return Err(ErrorCode::ExternalInvocationFailed);
    }
    if wallet.nonce == u64::MAX {
        return Err(ErrorCode::NonceOverflow);
    }
    wallet.nonce = wallet.nonce + 1;
    Ok(())
}

/// Binding an owner to an initialized wallet makes the next binding fail,
/// provided the first key is not the all-zero key that marks an unset owner.
pub proof fn lemma_set_owner_once(w: Wallet, first: [u8; 32], second: [u8; 32])
    requires
        w.is_initialized,
        first@ != unset_key(),
    ensures
        match set_owner_outcome(w, first) {
            Ok(w1) => set_owner_outcome(w1, second) == Err::<Wallet, ErrorCode>(ErrorCode::AlreadyBound),
            Err(_) => set_owner_outcome(w, second) == Err::<Wallet, ErrorCode>(ErrorCode::AlreadyBound),
        },
{
}

/// A withdrawal above the wallet's balance, with a signature that the
/// companion instruction checked over the right message, fails with
/// `InsufficientFunds` (and so leaves the nonce where it was).
pub proof fn lemma_overdraft_refused(
    w: Wallet,
    amount: u64,
    sig: Seq<u8>,
    ix: HostInstruction,
    wallet_lamports: u64,
    recipient_lamports: u64,
)
    requires
        is_bound(w),
        companion_check(ix, w.owner_pubkey@, withdraw_msg(amount, w.nonce), sig) is Ok,
        amount > wallet_lamports,
    ensures
        withdraw_outcome(w, amount, sig, ix, wallet_lamports, recipient_lamports)
            == Err::<(u64, u64), ErrorCode>(ErrorCode::InsufficientFunds),
{
}

/// Once a withdrawal has gone through, a companion check of any signature
/// over a withdrawal message built with the old nonce no longer authorizes
/// anything: the wallet now expects the next nonce, and the message differs.
pub proof fn lemma_stale_nonce_refused(
    w: Wallet,
    amount: u64,
    sig: Seq<u8>,
    ix: HostInstruction,
    wallet_lamports: u64,
    recipient_lamports: u64,
    stale_amount: u64,
    stale_sig: Seq<u8>,
    stale_ix: HostInstruction,
    later_wallet_lamports: u64,
    later_recipient_lamports: u64,
)
    requires
        withdraw_outcome(w, amount, sig, ix, wallet_lamports, recipient_lamports) is Ok,
        companion_check(stale_ix, w.owner_pubkey@, withdraw_msg(stale_amount, w.nonce), stale_sig) is Ok,
    ensures
        withdraw_outcome(advanced(w), stale_amount, stale_sig, stale_ix, later_wallet_lamports, later_recipient_lamports)
            == Err::<(u64, u64), ErrorCode>(ErrorCode::SignatureStageMismatch(SignatureStage::Message)),
{
    let w1 = advanced(w);
    if withdraw_msg(stale_amount, w.nonce) == withdraw_msg(stale_amount, w1.nonce) {
        lemma_withdraw_msg_injective(stale_amount, w.nonce, stale_amount, w1.nonce);
    }
    assert(checked_message(stale_ix.data@) == withdraw_msg(stale_amount, w.nonce));
    assert(w1.owner_pubkey@ == w.owner_pubkey@);
}

/// A withdrawal with a valid signature and enough funds is accepted, and the
/// same signed request, resubmitted right after, is refused.
pub proof fn lemma_withdraw_accepted_once(
    w: Wallet,
    amount: u64,
    sig: Seq<u8>,
    ix: HostInstruction,
    wallet_lamports: u64,
    recipient_lamports: u64,
    later_wallet_lamports: u64,
    later_recipient_lamports: u64,
)
    requires
        is_bound(w),
        companion_check(ix, w.owner_pubkey@, withdraw_msg(amount, w.nonce), sig) is Ok,
        amount <= wallet_lamports,
        recipient_lamports + amount <= u64::MAX,
        w.nonce < u64::MAX,
    ensures
        withdraw_outcome(w, amount, sig, ix, wallet_lamports, recipient_lamports)
            == Ok::<(u64, u64), ErrorCode>(((wallet_lamports - amount) as u64, (recipient_lamports + amount) as u64)),
        withdraw_outcome(advanced(w), amount, sig, ix, later_wallet_lamports, later_recipient_lamports) is Err,
{
    lemma_stale_nonce_refused(
        w, amount, sig, ix, wallet_lamports, recipient_lamports,
        amount, sig, ix, later_wallet_lamports, later_recipient_lamports,
    );
}

/// An external call that is accepted (so its owner is bound and its signature
/// checked) advances the nonce by one when the relayed instruction succeeds,
/// and fails with `ExternalInvocationFailed`, leaving the nonce unchanged,
/// when it does not.
pub proof fn lemma_call_completion(
    w: Wallet,
    program_id: [u8; 32],
    data: Seq<u8>,
    sig: Seq<u8>,
    ix: HostInstruction,
    auth: CallAuthorization,
)
    requires
        call_refusal(w, program_id, data, sig, ix) is None,
        authorizes(auth, w),
    ensures
        is_bound(w),
        completion_outcome(w, auth, true) is Ok,
        completion_outcome(w, auth, true)->Ok_0.nonce == w.nonce + 1,
        completion_outcome(w, auth, true)->Ok_0.owner_pubkey == w.owner_pubkey,
        completion_outcome(w, auth, false) == Err::<Wallet, ErrorCode>(ErrorCode::ExternalInvocationFailed),
{
}

} // verus!
