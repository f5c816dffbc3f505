//! Why a wallet operation was rejected.
use vstd::prelude::*;

verus! {

/// The part of a companion signature-check instruction that did not match.
#[derive(Clone, Copy, Debug, PartialEq, Eq, Structural)]
pub enum SignatureStage {
    /// The instruction is not addressed to the native ed25519 program.
    ProgramId,
    /// The instruction does not check exactly one signature.
    SignatureCount,
    /// The checked public key is not the owner's.
    PublicKey,
    /// The checked signature is not the one supplied.
    Signature,
    /// The checked message is not the one the wallet expects.
    Message,
}

/// The reasons a wallet operation fails. A failed operation changes nothing.
#[derive(Clone, Copy, Debug, PartialEq, Eq, Structural)]
pub enum ErrorCode {
    /// An owner key is already bound to the wallet.
    AlreadyBound,
    /// No owner key is bound, so nothing can be authorized.
    OwnerUnset,
    /// The call authorization was issued for another owner or nonce.
    StaleAuthorization,
    /// The companion instruction checked something other than what was expected.
    SignatureStageMismatch(SignatureStage),
    /// The companion instruction does not follow the one-signature layout.
    MalformedCompanionInstruction,
    /// The wallet holds fewer lamports than the withdrawal asks for.
    InsufficientFunds,
    /// The relayed instruction failed.
    ExternalInvocationFailed,
    /// The nonce cannot advance any further.
    NonceOverflow,
    /// Crediting the recipient would overflow its balance.
    BalanceOverflow,
}

} // verus!
