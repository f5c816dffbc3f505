//! Instructions of the host runtime, held as plain bytes.
use vstd::prelude::*;
use crate::message::u64_le;
use solana_program::pubkey::Pubkey;

verus! {

/// An account that an instruction reads or writes.
#[derive(Clone, Copy, Debug, PartialEq, Eq)]
pub struct AccountMeta {
    pub pubkey: [u8; 32],
    pub is_signer: bool,
    pub is_writable: bool,
}

/// An instruction of the host runtime: the program it addresses, the
/// accounts it passes, and its data.
#[derive(Clone, Debug)]
pub struct HostInstruction {
    pub program_id: [u8; 32],
    pub accounts: Vec<AccountMeta>,
    pub data: Vec<u8>,
}

} // verus!

verus! {

/// The address of the native system program, all zero bytes
/// (`11111111111111111111111111111111` in base58).
pub open spec fn system_program_address() -> Seq<u8> {
    Seq::new(32, |i: int| 0u8)
}

/// The data of the system program's `Transfer` instruction: the variant
/// index 2 as a little-endian `u32`, then the lamports as a little-endian `u64`.
pub open spec fn transfer_data(lamports: u64) -> Seq<u8> {
    seq![2u8, 0, 0, 0] + u64_le(lamports)
}

/// Relies on `solana_program::system_instruction::transfer`, which addresses
/// the system program, passes `from` as a writable signer and `to` as writable,
/// and encodes `SystemInstruction::Transfer { lamports }` with bincode.
#[verifier::external_body]
pub(crate) fn system_transfer(from: [u8; 32], to: [u8; 32], lamports: u64) -> (r: HostInstruction)
    ensures
        r.program_id@ == system_program_address(),
        r.accounts@ == seq![
            (AccountMeta { pubkey: from, is_signer: true, is_writable: true }),
            (AccountMeta { pubkey: to, is_signer: false, is_writable: true }),
        ],
        r.data@ == transfer_data(lamports),
{
    let ix = solana_program::system_instruction::transfer(
        &Pubkey::new_from_array(from),
        &Pubkey::new_from_array(to),
        lamports,
    );
    let accounts = ix.accounts.iter().map(|m| AccountMeta {
        pubkey: m.pubkey.to_bytes(),
        is_signer: m.is_signer,
        is_writable: m.is_writable,
    }).collect();
    HostInstruction { program_id: ix.program_id.to_bytes(), accounts, data: ix.data }
}

} // verus!
