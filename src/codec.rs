use vstd::prelude::*;
use vstd::bytes::*;
use vstd::slice::slice_subrange;
use crate::identity::Identity;

verus! {

/// Length in bytes of the canonical payment message.
pub const PAYMENT_MESSAGE_LEN: usize = 160;

/// The integer fields of a payment that the server signs.
///
/// The fee recipient is never part of the signed message.
#[derive(Debug, Clone, Copy, PartialEq, Eq, Structural)]
pub struct PaymentMessageParams {
    pub payment_id: u64,
    pub amount: u64,
    pub fee_amount: u64,
    pub deadline: i64,
}

/// Everything that the canonical payment message binds.
#[derive(Debug, Clone, Copy)]
pub struct PaymentMessage {
    pub params: PaymentMessageParams,
    pub user: Identity,
    pub pool: Identity,
    pub to: Identity,
    pub token_mint: Identity,
}

/// Little-endian bytes of a signed 64-bit integer (its two's complement).
pub open spec fn i64_le_bytes(x: i64) -> Seq<u8> {
    spec_u64_to_le_bytes(x as u64)
}

/// The canonical message: payment id, user, pool, to, token mint, amount,
/// fee amount and deadline, integers little-endian, with no other framing.
pub open spec fn payment_message(
    params: PaymentMessageParams,
    user: Seq<u8>,
    pool: Seq<u8>,
    to: Seq<u8>,
    token_mint: Seq<u8>,
) -> Seq<u8> {
    spec_u64_to_le_bytes(params.payment_id) + user + pool + to + token_mint
        + spec_u64_to_le_bytes(params.amount) + spec_u64_to_le_bytes(params.fee_amount)
        + i64_le_bytes(params.deadline)
}

impl PaymentMessage {
    /// The canonical encoding of this message.
    pub open spec fn spec_encoding(&self) -> Seq<u8> {
        payment_message(self.params, self.user@, self.pool@, self.to@, self.token_mint@)
    }

    /// Encodes the message into its 160 canonical bytes.
    pub fn encode(&self) -> (r: Vec<u8>)
        ensures
            r@ == self.spec_encoding(),
            r@.len() == PAYMENT_MESSAGE_LEN,
    {
        build_payment_message(&self.params, &self.user, &self.pool, &self.to, &self.token_mint)
    }

    /// Decodes a canonical message; `None` unless `bytes` has exactly 160 bytes.
    pub fn decode(bytes: &[u8]) -> (r: Option<PaymentMessage>)
        ensures
            r is Some <==> bytes@.len() == PAYMENT_MESSAGE_LEN,
            r matches Some(m) ==> {
                &&& m.params == decoded_params(bytes@)
                &&& m.user@ == bytes@.subrange(8, 40)
                &&& m.pool@ == bytes@.subrange(40, 72)
                &&& m.to@ == bytes@.subrange(72, 104)
                &&& m.token_mint@ == bytes@.subrange(104, 136)
                &&& m.spec_encoding() == bytes@
            },
    {
        if bytes.len() != PAYMENT_MESSAGE_LEN {
            return None;
        }
        let payment_id = u64_from_le_bytes(slice_subrange(bytes, 0, 8));
        let user = read_identity(bytes, 8);
        let pool = read_identity(bytes, 40);
        let to = read_identity(bytes, 72);
        let token_mint = read_identity(bytes, 104);
        let amount = u64_from_le_bytes(slice_subrange(bytes, 136, 144));
        let fee_amount = u64_from_le_bytes(slice_subrange(bytes, 144, 152));
        let deadline = u64_from_le_bytes(slice_subrange(bytes, 152, 160)) as i64;
        let params = PaymentMessageParams { payment_id, amount, fee_amount, deadline };
        let m = PaymentMessage { params, user, pool, to, token_mint };
        proof {
            lemma_encode_decode(bytes@);
        }
        Some(m)
    }
}

/// The integer fields read back from a 160-byte canonical message.
pub open spec fn decoded_params(s: Seq<u8>) -> PaymentMessageParams {
    PaymentMessageParams {
        payment_id: spec_u64_from_le_bytes(s.subrange(0, 8)),
        amount: spec_u64_from_le_bytes(s.subrange(136, 144)),
        fee_amount: spec_u64_from_le_bytes(s.subrange(144, 152)),
        deadline: spec_u64_from_le_bytes(s.subrange(152, 160)) as i64,
    }
}

/// Re-encoding the fields decoded from any 160 bytes gives those bytes back.
pub proof fn lemma_encode_decode(s: Seq<u8>)
    requires
        s.len() == PAYMENT_MESSAGE_LEN,
    ensures
        payment_message(
            decoded_params(s),
            s.subrange(8, 40),
            s.subrange(40, 72),
            s.subrange(72, 104),
            s.subrange(104, 136),
        ) == s,
{
    lemma_auto_spec_u64_to_from_le_bytes();
    let d = spec_u64_from_le_bytes(s.subrange(152, 160));
    assert((d as i64) as u64 == d) by (bit_vector);
    assert(spec_u64_to_le_bytes(spec_u64_from_le_bytes(s.subrange(0, 8))) == s.subrange(0, 8));
    assert(spec_u64_to_le_bytes(spec_u64_from_le_bytes(s.subrange(136, 144))) == s.subrange(
        136,
        144,
    ));
    assert(spec_u64_to_le_bytes(spec_u64_from_le_bytes(s.subrange(144, 152))) == s.subrange(
        144,
        152,
    ));
    assert(spec_u64_to_le_bytes(d) == s.subrange(152, 160));
    assert(payment_message(
        decoded_params(s),
        s.subrange(8, 40),
        s.subrange(40, 72),
        s.subrange(72, 104),
        s.subrange(104, 136),
    ) =~= s);
}

/// Reads the 32 bytes at `start` as an identity.
fn read_identity(bytes: &[u8], start: usize) -> (r: Identity)
    requires
        start + 32 <= bytes@.len(),
    ensures
        r@ == bytes@.subrange(start as int, start + 32),
{
    let n = bytes.len();
    let mut out = [0u8; 32];
    let mut i: usize = 0;
    while i < 32
        invariant
            n == bytes@.len(),
            start + 32 <= n,
            i <= 32,
            out@.len() == 32,
            forall|j: int| 0 <= j < i ==> out@[j] == bytes@[start + j],
        decreases 32 - i,
    {
        out[i] = bytes[start + i];
        i += 1;
    }
    let r = Identity::new(out);
    assert(r@ =~= bytes@.subrange(start as int, start + 32));
    r
}

/// Appends the bytes of `src` to `dst`.
fn append_bytes(dst: &mut Vec<u8>, src: &[u8])
    ensures
        final(dst)@ == old(dst)@ + src@,
{
    let mut i: usize = 0;
    while i < src.len()
        invariant
            i <= src@.len(),
            dst@ == old(dst)@ + src@.subrange(0, i as int),
        decreases src@.len() - i,
    {
        dst.push(src[i]);
        i += 1;
        assert(dst@ =~= old(dst)@ + src@.subrange(0, i as int));
    }
    assert(src@.subrange(0, src@.len() as int) =~= src@);
}

/// Builds the canonical 160-byte message that the server signs for a payment.
pub fn build_payment_message(
    params: &PaymentMessageParams,
    user: &Identity,
    pool: &Identity,
    to: &Identity,
    token_mint: &Identity,
) -> (r: Vec<u8>)
    ensures
        r@ == payment_message(*params, user@, pool@, to@, token_mint@),
        r@.len() == PAYMENT_MESSAGE_LEN,
{
    proof {
        lemma_auto_spec_u64_to_from_le_bytes();
    }
    let mut message: Vec<u8> = Vec::with_capacity(PAYMENT_MESSAGE_LEN);
    append_bytes(&mut message, u64_to_le_bytes(params.payment_id).as_slice());
    append_bytes(&mut message, user.bytes.as_slice());
    append_bytes(&mut message, pool.bytes.as_slice());
    append_bytes(&mut message, to.bytes.as_slice());
    append_bytes(&mut message, token_mint.bytes.as_slice());
    append_bytes(&mut message, u64_to_le_bytes(params.amount).as_slice());
    append_bytes(&mut message, u64_to_le_bytes(params.fee_amount).as_slice());
    append_bytes(&mut message, u64_to_le_bytes(params.deadline as u64).as_slice());
    assert(spec_u64_to_le_bytes(params.deadline as u64).len() == 8);
    message
}

/// Decoding the canonical encoding of a message gives every field back:
/// the encoding is a bijection between messages and 160-byte strings.
pub proof fn lemma_decode_encode(m: PaymentMessage)
    ensures
        m.spec_encoding().len() == PAYMENT_MESSAGE_LEN,
        decoded_params(m.spec_encoding()) == m.params,
        m.spec_encoding().subrange(8, 40) == m.user@,
        m.spec_encoding().subrange(40, 72) == m.pool@,
        m.spec_encoding().subrange(72, 104) == m.to@,
        m.spec_encoding().subrange(104, 136) == m.token_mint@,
{
    lemma_auto_spec_u64_to_from_le_bytes();
    let e = m.spec_encoding();
    let dl = m.params.deadline;
    assert((dl as u64) as i64 == dl) by (bit_vector);
    assert(e.subrange(0, 8) =~= spec_u64_to_le_bytes(m.params.payment_id));
    assert(e.subrange(8, 40) =~= m.user@);
    assert(e.subrange(40, 72) =~= m.pool@);
    assert(e.subrange(72, 104) =~= m.to@);
    assert(e.subrange(104, 136) =~= m.token_mint@);
    assert(e.subrange(136, 144) =~= spec_u64_to_le_bytes(m.params.amount));
    assert(e.subrange(144, 152) =~= spec_u64_to_le_bytes(m.params.fee_amount));
    assert(e.subrange(152, 160) =~= i64_le_bytes(m.params.deadline));
}

} // verus!
