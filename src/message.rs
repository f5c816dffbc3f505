//! The byte strings that a wallet owner signs.
use vstd::prelude::*;

verus! {

/// The `n` low bytes of `x`, least significant first.
pub open spec fn le_bytes(x: nat, n: nat) -> Seq<u8>
    decreases n,
{
    if n == 0 {
        Seq::empty()
    } else {
        seq![(x % 256) as u8].add(le_bytes(x / 256, (n - 1) as nat))
    }
}

/// A `u64` as eight little-endian bytes.
pub open spec fn u64_le(x: u64) -> Seq<u8> {
    le_bytes(x as nat, 8)
}

/// What the owner signs to withdraw `amount` while the wallet's nonce is `nonce`.
pub open spec fn withdraw_msg(amount: u64, nonce: u64) -> Seq<u8> {
    u64_le(amount) + u64_le(nonce)
}

/// What the owner signs to relay `data` to `program_id` while the wallet's
/// nonce is `nonce`.
pub open spec fn external_call_msg(program_id: Seq<u8>, data: Seq<u8>, nonce: u64) -> Seq<u8> {
    program_id + data + u64_le(nonce)
}

proof fn lemma_le_bytes_len(x: nat, n: nat)
    ensures
        le_bytes(x, n).len() == n,
    decreases n,
{
    if n > 0 {
        lemma_le_bytes_len(x / 256, (n - 1) as nat);
    }
}

/// Appends the eight little-endian bytes of `x` to `out`.
pub fn push_u64_le(out: &mut Vec<u8>, x: u64)
    ensures
        final(out)@ == old(out)@ + u64_le(x),
{
    let mut rest: u64 = x;
    let mut i: usize = 0;
    while i < 8
        invariant
            i <= 8,
            out@ + le_bytes(rest as nat, (8 - i) as nat) == old(out)@ + u64_le(x),
        decreases 8 - i,
    {
        let ghost before = out@;
        let ghost r = rest as nat;
        assert(le_bytes(r, (8 - i) as nat) == seq![(r % 256) as u8] + le_bytes(r / 256, (8 - i - 1) as nat));
        out.push((rest % 256) as u8);
        rest = rest / 256;
        assert(before + (seq![(r % 256) as u8] + le_bytes(r / 256, (8 - i - 1) as nat))
            == out@ + le_bytes(rest as nat, (8 - i - 1) as nat));
        i = i + 1;
    }
    assert(le_bytes(rest as nat, 0) == Seq::<u8>::empty());
    assert(out@ + Seq::<u8>::empty() == out@);
}

/// Builds the message authorizing a withdrawal of `amount` at `nonce`.
pub fn withdraw_message(amount: u64, nonce: u64) -> (r: Vec<u8>)
    ensures
        r@ == withdraw_msg(amount, nonce),
{
    let mut out: Vec<u8> = Vec::new();
    push_u64_le(&mut out, amount);
    push_u64_le(&mut out, nonce);
    assert(Seq::<u8>::empty() + u64_le(amount) == u64_le(amount));
    out
}

/// Builds the message authorizing a call of `program_id` with `data` at `nonce`.
pub fn external_call_message(program_id: &[u8; 32], data: &Vec<u8>, nonce: u64) -> (r: Vec<u8>)
    ensures
        r@ == external_call_msg(program_id@, data@, nonce),
{
    let mut out: Vec<u8> = Vec::new();
    let mut i: usize = 0;
    while i < 32
        invariant
            i <= 32,
            out@ == program_id@.subrange(0, i as int),
        decreases 32 - i,
    {
        out.push(program_id[i]);
        i = i + 1;
    }
    let mut j: usize = 0;
    while j < data.len()
        invariant
            j <= data@.len(),
            out@ == program_id@ + data@.subrange(0, j as int),
        decreases data@.len() - j,
    {
        out.push(data[j]);
        j = j + 1;
    }
    assert(data@.subrange(0, data@.len() as int) == data@);
    push_u64_le(&mut out, nonce);
    out
}

/// `256` to the power `n`: the values that `n` bytes can hold.
pub open spec fn byte_range(n: nat) -> nat
    decreases n,
{
    if n == 0 {
        1
    } else {
        256 * byte_range((n - 1) as nat)
    }
}

proof fn lemma_le_bytes_injective(x: nat, y: nat, n: nat)
    requires
        x < byte_range(n),
        y < byte_range(n),
        le_bytes(x, n) == le_bytes(y, n),
    ensures
        x == y,
    decreases n,
{
    if n > 0 {
        let m = (n - 1) as nat;
        lemma_le_bytes_len(x / 256, m);
        lemma_le_bytes_len(y / 256, m);
        assert(le_bytes(x, n)[0] == (x % 256) as u8);
        assert(le_bytes(y, n)[0] == (y % 256) as u8);
        assert(le_bytes(x, n).subrange(1, n as int) =~= le_bytes(x / 256, m));
        assert(le_bytes(y, n).subrange(1, n as int) =~= le_bytes(y / 256, m));
        let b = byte_range(m);
        assert(x / 256 < b) by (nonlinear_arith)
            requires
                x < 256 * b,
        ;
        assert(y / 256 < b) by (nonlinear_arith)
            requires
                y < 256 * b,
        ;
        lemma_le_bytes_injective(x / 256, y / 256, m);
    }
}

/// Two `u64`s with the same eight little-endian bytes are equal.
pub proof fn lemma_u64_le_injective(x: u64, y: u64)
    requires
        u64_le(x) == u64_le(y),
    ensures
        x == y,
{
    reveal_with_fuel(byte_range, 9);
    assert(byte_range(8) == 0x1_0000_0000_0000_0000);
    lemma_le_bytes_injective(x as nat, y as nat, 8);
}

/// Withdrawal messages are injective: equal messages come from the same
/// amount and the same nonce.
pub proof fn lemma_withdraw_msg_injective(amount1: u64, nonce1: u64, amount2: u64, nonce2: u64)
    requires
        withdraw_msg(amount1, nonce1) == withdraw_msg(amount2, nonce2),
    ensures
        amount1 == amount2,
        nonce1 == nonce2,
{
    let m = withdraw_msg(amount1, nonce1);
    lemma_le_bytes_len(amount1 as nat, 8);
    lemma_le_bytes_len(amount2 as nat, 8);
    lemma_le_bytes_len(nonce1 as nat, 8);
    lemma_le_bytes_len(nonce2 as nat, 8);
    assert(m.subrange(0, 8) =~= u64_le(amount1));
    assert(m.subrange(0, 8) =~= u64_le(amount2));
    assert(m.subrange(8, 16) =~= u64_le(nonce1));
    assert(m.subrange(8, 16) =~= u64_le(nonce2));
    lemma_u64_le_injective(amount1, amount2);
    lemma_u64_le_injective(nonce1, nonce2);
}

/// External-call messages are injective: equal messages come from the same
/// target, data and nonce. (The target and the nonce have fixed widths, so
/// messages over data of different lengths have different lengths.)
pub proof fn lemma_external_call_msg_injective(
    program_id1: [u8; 32],
    data1: Seq<u8>,
    nonce1: u64,
    program_id2: [u8; 32],
    data2: Seq<u8>,
    nonce2: u64,
)
    requires
        external_call_msg(program_id1@, data1, nonce1) == external_call_msg(program_id2@, data2, nonce2),
    ensures
        program_id1 == program_id2,
        data1 == data2,
        nonce1 == nonce2,
{
    let m = external_call_msg(program_id1@, data1, nonce1);
    lemma_le_bytes_len(nonce1 as nat, 8);
    lemma_le_bytes_len(nonce2 as nat, 8);
    assert(m.len() == 32 + data1.len() + 8);
    assert(external_call_msg(program_id2@, data2, nonce2).len() == 32 + data2.len() + 8);
    let k: int = 32 + data1.len() as int;
    assert(m.subrange(0, 32) =~= program_id1@);
    assert(m.subrange(0, 32) =~= program_id2@);
    assert(m.subrange(32, k) =~= data1);
    assert(m.subrange(32, k) =~= data2);
    assert(m.subrange(k, k + 8) =~= u64_le(nonce1));
    assert(m.subrange(k, k + 8) =~= u64_le(nonce2));
    assert(program_id1 == program_id2);
    lemma_u64_le_injective(nonce1, nonce2);
}

} // verus!
