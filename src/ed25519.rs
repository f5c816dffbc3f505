//! Inspection of the companion instruction that asks the host's native
//! ed25519 program to check one signature.
//!
//! The instruction's data follows the one-signature layout that
//! `Ed25519Program.createInstructionWithPublicKey()` writes:
//!
//! | bytes      | field                                   |
//! |------------|-----------------------------------------|
//! | 0          | number of signatures (1)                |
//! | 1          | padding (0)                             |
//! | 2..4       | signature offset (48)                   |
//! | 4..6       | signature instruction index (`0xFFFF`)  |
//! | 6..8       | public key offset (16)                  |
//! | 8..10      | public key instruction index (`0xFFFF`) |
//! | 10..12     | message offset (112)                    |
//! | 12..14     | message size                            |
//! | 14..16     | message instruction index (`0xFFFF`)    |
//! | 16..48     | public key                              |
//! | 48..112    | signature                               |
//! | 112..      | message                                 |
//!
//! An instruction index of `0xFFFF` means "this instruction".
use vstd::prelude::*;
use crate::error::{ErrorCode, SignatureStage};
use crate::instruction::HostInstruction;

verus! {

/// Where the table of offsets starts, after the count and the padding.
pub const HEADER_START: usize = 2;

/// The size of one entry of the table of offsets: seven `u16`s.
pub const OFFSETS_LEN: usize = 14;

/// Where the public key starts in the instruction data.
pub const PUBKEY_OFFSET: usize = 16;

/// Where the signature starts in the instruction data.
pub const SIGNATURE_OFFSET: usize = 48;

/// Where the message starts in the instruction data.
pub const MESSAGE_OFFSET: usize = 112;

/// The instruction index that refers to the checking instruction itself.
pub const THIS_INSTRUCTION: u32 = 0xFFFF;

/// The address of the native ed25519 program,
/// `Ed25519SigVerify111111111111111111111111111` in base58.
pub open spec fn ed25519_program_address() -> Seq<u8> {
    seq![
        3u8, 125, 70, 214, 124, 147, 251, 190, 18, 249, 66, 143, 131, 141, 64, 255,
        5, 112, 116, 73, 39, 244, 138, 100, 252, 202, 112, 68, 128, 0, 0, 0,
    ]
}

/// Relies on `solana_program::ed25519_program::ID` for the address of the
/// native ed25519 program.
#[verifier::external_body]
fn ed25519_program_id() -> (r: [u8; 32])
    ensures
        r@ == ed25519_program_address(),
{
    solana_program::ed25519_program::ID.to_bytes()
}

/// The little-endian `u16` at `i` in `d`.
pub open spec fn u16_at(d: Seq<u8>, i: int) -> int {
    d[i] as int + 256 * (d[i + 1] as int)
}

/// The one-signature header, with the message filling the rest of the data.
pub open spec fn layout_ok(d: Seq<u8>) -> bool {
    &&& d.len() >= MESSAGE_OFFSET
    &&& d[1] == 0
    &&& u16_at(d, 2) == SIGNATURE_OFFSET
    &&& u16_at(d, 4) == THIS_INSTRUCTION
    &&& u16_at(d, 6) == PUBKEY_OFFSET
    &&& u16_at(d, 8) == THIS_INSTRUCTION
    &&& u16_at(d, 10) == MESSAGE_OFFSET
    &&& u16_at(d, 12) == d.len() - MESSAGE_OFFSET
    &&& u16_at(d, 14) == THIS_INSTRUCTION
}

/// The public key that a well-formed instruction checks.
pub open spec fn checked_pubkey(d: Seq<u8>) -> Seq<u8> {
    d.subrange(PUBKEY_OFFSET as int, SIGNATURE_OFFSET as int)
}

/// The signature that a well-formed instruction checks.
pub open spec fn checked_signature(d: Seq<u8>) -> Seq<u8> {
    d.subrange(SIGNATURE_OFFSET as int, MESSAGE_OFFSET as int)
}

/// The message that a well-formed instruction checks.
pub open spec fn checked_message(d: Seq<u8>) -> Seq<u8> {
    d.subrange(MESSAGE_OFFSET as int, d.len() as int)
}

/// The outcome of inspecting `ix` for a check of `sig` by `pubkey` over
/// `msg`: the first stage that fails, in the order the stages are listed.
/// Data too short for the table of offsets its count declares is malformed,
/// whatever the count; a complete table with a count other than one is a
/// signature-count mismatch.
pub open spec fn companion_check(
    ix: HostInstruction,
    pubkey: Seq<u8>,
    msg: Seq<u8>,
    sig: Seq<u8>,
) -> Result<(), ErrorCode> {
    let d = ix.data@;
    if ix.program_id@ != ed25519_program_address() {
        Err(ErrorCode::SignatureStageMismatch(SignatureStage::ProgramId))
    } else if d.len() < HEADER_START || d.len() < HEADER_START + OFFSETS_LEN * d[0] {
        Err(ErrorCode::MalformedCompanionInstruction)
    } else if d[0] != 1 {
        Err(ErrorCode::SignatureStageMismatch(SignatureStage::SignatureCount))
    } else if !layout_ok(d) {
        Err(ErrorCode::MalformedCompanionInstruction)
    } else if checked_pubkey(d) != pubkey {
        Err(ErrorCode::SignatureStageMismatch(SignatureStage::PublicKey))
    } else if checked_signature(d) != sig {
        Err(ErrorCode::SignatureStageMismatch(SignatureStage::Signature))
    } else if checked_message(d) != msg {
        Err(ErrorCode::SignatureStageMismatch(SignatureStage::Message))
    } else {
        Ok(())
    }
}

fn read_u16_le(d: &Vec<u8>, i: usize) -> (r: u32)
    requires
        i + 1 < d@.len(),
    ensures
        r == u16_at(d@, i as int),
{
    let n = d.len();
    assert(i + 1 < n);
    d[i] as u32 + 256 * (d[i + 1] as u32)
}

/// Whether `d` holds `expected` from `start` on.
fn bytes_match(d: &Vec<u8>, start: usize, expected: &[u8]) -> (r: bool)
    requires
        start + expected@.len() <= d@.len(),
    ensures
        r == (d@.subrange(start as int, start + expected@.len()) == expected@),
{
    let n = d.len();
    let mut i: usize = 0;
    while i < expected.len()
        invariant
            i <= expected@.len(),
            start + expected@.len() <= d@.len(),
            n == d@.len(),
            forall|k: int| 0 <= k < i ==> d@[start + k] == expected@[k],
        decreases expected@.len() - i,
    {
        if d[start + i] != expected[i] {
            assert(d@.subrange(start as int, start + expected@.len())[i as int] != expected@[i as int]);
            return false;
        }
        i = i + 1;
    }
    assert(d@.subrange(start as int, start + expected@.len()) =~= expected@);
    true
}

pub(crate) fn same_key(a: &[u8; 32], b: &[u8; 32]) -> (r: bool)
    ensures
        r == (a@ == b@),
{
    let mut i: usize = 0;
    while i < 32
        invariant
            i <= 32,
            forall|k: int| 0 <= k < i ==> a@[k] == b@[k],
        decreases 32 - i,
    {
        if a[i] != b[i] {
            return false;
        }
        i = i + 1;
    }
    assert(a@ =~= b@);
    true
}

/// Whether `d` follows the one-signature layout.
fn check_layout(d: &Vec<u8>) -> (r: bool)
    ensures
        r == layout_ok(d@),
{
    d.len() >= MESSAGE_OFFSET
        && d[1] == 0
        && read_u16_le(d, 2) == SIGNATURE_OFFSET as u32
        && read_u16_le(d, 4) == THIS_INSTRUCTION
        && read_u16_le(d, 6) == PUBKEY_OFFSET as u32
        && read_u16_le(d, 8) == THIS_INSTRUCTION
        && read_u16_le(d, 10) == MESSAGE_OFFSET as u32
        && read_u16_le(d, 12) as usize == d.len() - MESSAGE_OFFSET
        && read_u16_le(d, 14) == THIS_INSTRUCTION
}

/// Confirms that `ix` has the native ed25519 program check exactly the
/// signature `sig` by `pubkey` over `msg`, and nothing else.
pub fn verify_ed25519_ix(
    ix: &HostInstruction,
    pubkey: &[u8; 32],
    msg: &[u8],
    sig: &[u8; 64],
) -> (r: Result<(), ErrorCode>)
    ensures
        r == companion_check(*ix, pubkey@, msg@, sig@),
{
    let program = ed25519_program_id();
    if !same_key(&ix.program_id, &program) {
        return Err(ErrorCode::SignatureStageMismatch(SignatureStage::ProgramId));
    }
    let d = &ix.data;
    if d.len() < HEADER_START || d.len() < HEADER_START + OFFSETS_LEN * (d[0] as usize) {
        return Err(ErrorCode::MalformedCompanionInstruction);
    }
    if d[0] != 1 {
        return Err(ErrorCode::SignatureStageMismatch(SignatureStage::SignatureCount));
    }
    if !check_layout(d) {
        return Err(ErrorCode::MalformedCompanionInstruction);
    }
    if !bytes_match(d, PUBKEY_OFFSET, pubkey) {
        return Err(ErrorCode::SignatureStageMismatch(SignatureStage::PublicKey));
    }
    if !bytes_match(d, SIGNATURE_OFFSET, sig) {
        return Err(ErrorCode::SignatureStageMismatch(SignatureStage::Signature));
    }
    if d.len() - MESSAGE_OFFSET != msg.len() || !bytes_match(d, MESSAGE_OFFSET, msg) {
        return Err(ErrorCode::SignatureStageMismatch(SignatureStage::Message));
    }
    Ok(())
}

/// A well-formed check of the native ed25519 program that differs from the
/// expected key, signature or message in even one byte is refused, and the
/// refusal names the first of the three that differs.
pub proof fn lemma_mismatch_names_stage(ix: HostInstruction, pubkey: Seq<u8>, msg: Seq<u8>, sig: Seq<u8>)
    requires
        ix.program_id@ == ed25519_program_address(),
        ix.data@[0] == 1,
        layout_ok(ix.data@),
    ensures
        checked_pubkey(ix.data@) != pubkey ==> companion_check(ix, pubkey, msg, sig)
            == Err::<(), ErrorCode>(ErrorCode::SignatureStageMismatch(SignatureStage::PublicKey)),
        checked_pubkey(ix.data@) == pubkey && checked_signature(ix.data@) != sig
            ==> companion_check(ix, pubkey, msg, sig)
            == Err::<(), ErrorCode>(ErrorCode::SignatureStageMismatch(SignatureStage::Signature)),
        checked_pubkey(ix.data@) == pubkey && checked_signature(ix.data@) == sig
            && checked_message(ix.data@) != msg ==> companion_check(ix, pubkey, msg, sig)
            == Err::<(), ErrorCode>(ErrorCode::SignatureStageMismatch(SignatureStage::Message)),
        companion_check(ix, pubkey, msg, sig) is Ok <==> (checked_pubkey(ix.data@) == pubkey
            && checked_signature(ix.data@) == sig && checked_message(ix.data@) == msg),
{
}

/// The data of the instruction that checks `sig` by `pubkey` over `msg` in
/// the one-signature layout.
pub open spec fn check_data(pubkey: Seq<u8>, sig: Seq<u8>, msg: Seq<u8>) -> Seq<u8> {
    seq![
        1u8, 0, 48, 0, 0xFF, 0xFF, 16, 0, 0xFF, 0xFF, 112, 0,
        (msg.len() % 256) as u8, (msg.len() / 256) as u8, 0xFF, 0xFF,
    ] + pubkey + sig + msg
}

/// A companion instruction is accepted exactly when it addresses the native
/// ed25519 program and its data is the one-signature
/// check of `sig` by `pubkey` over `msg`.
pub proof fn lemma_accepts_exactly_the_check(ix: HostInstruction, pubkey: Seq<u8>, msg: Seq<u8>, sig: Seq<u8>)
    requires
        pubkey.len() == 32,
        sig.len() == 64,
    ensures
        companion_check(ix, pubkey, msg, sig) is Ok <==> {
            &&& ix.program_id@ == ed25519_program_address()
            &&& msg.len() < 0x1_0000
            &&& ix.data@ == check_data(pubkey, sig, msg)
        },
{
    let d = ix.data@;
    let c = check_data(pubkey, sig, msg);
    if companion_check(ix, pubkey, msg, sig) is Ok {
        assert(d.len() == c.len());
        assert forall|i: int| 0 <= i < d.len() implies d[i] == c[i] by {
            if i >= MESSAGE_OFFSET {
                assert(d[i] == checked_message(d)[i - MESSAGE_OFFSET]);
            } else if i >= SIGNATURE_OFFSET {
                assert(d[i] == checked_signature(d)[i - SIGNATURE_OFFSET]);
            } else if i >= PUBKEY_OFFSET {
                assert(d[i] == checked_pubkey(d)[i - PUBKEY_OFFSET]);
            }
        }
        assert(d =~= c);
    }
    if ix.program_id@ == ed25519_program_address() && msg.len() < 0x1_0000 && d == c {
        assert(checked_pubkey(d) =~= pubkey);
        assert(checked_signature(d) =~= sig);
        assert(checked_message(d) =~= msg);
        assert(layout_ok(d));
    }
}

} // verus!
