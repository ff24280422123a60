use vstd::prelude::*;
use vstd::slice::slice_subrange;
use crate::codec::{build_payment_message, payment_message, PaymentMessageParams};
use crate::errors::PaymentError;
use crate::identity::{bytes_equal, Identity};

verus! {

/// Address of the native Ed25519 signature-verification program,
/// `Ed25519SigVerify111111111111111111111111111` in base58.
pub const ED25519_PROGRAM_ID: [u8; 32] = [
    3, 125, 70, 214, 124, 147, 251, 190, 18, 249, 66, 143, 131, 141, 64, 255,
    5, 112, 116, 73, 39, 244, 138, 100, 252, 202, 112, 68, 128, 0, 0, 0,
];

/// Length of the fixed header of an Ed25519 verification instruction.
pub const ED25519_HEADER_LEN: usize = 16;

/// One instruction of the enclosing transaction: the program it calls and its payload.
#[derive(Debug)]
pub struct SysInstruction {
    pub program_id: Identity,
    pub data: Vec<u8>,
}

/// The instructions of the enclosing transaction, and the index of the one
/// that is executing.
#[derive(Debug)]
pub struct TransactionInstructions {
    pub current_index: u16,
    pub instructions: Vec<SysInstruction>,
}

/// The little-endian 16-bit integer at `at` in `data`.
pub open spec fn le_u16_at(data: Seq<u8>, at: int) -> int {
    data[at] as int + 256 * (data[at + 1] as int)
}

/// Where the payload of an Ed25519 instruction places the public key.
pub open spec fn public_key_offset(data: Seq<u8>) -> int {
    le_u16_at(data, 6)
}

/// Where the payload of an Ed25519 instruction places the message.
pub open spec fn message_offset(data: Seq<u8>) -> int {
    le_u16_at(data, 10)
}

/// The length of the message that an Ed25519 instruction verified.
pub open spec fn message_size(data: Seq<u8>) -> int {
    le_u16_at(data, 12)
}

/// The payload declares `signer` as its public key: the header is complete
/// and the 32 bytes at the public-key offset are `signer`.
pub open spec fn declares_public_key(data: Seq<u8>, signer: Seq<u8>) -> bool {
    &&& data.len() >= ED25519_HEADER_LEN
    &&& public_key_offset(data) + 32 <= data.len()
    &&& data.subrange(public_key_offset(data), public_key_offset(data) + 32) == signer
}

/// The payload declares `message` as its message: the header is complete and
/// the bytes at the message offset, of the declared size, are `message`.
pub open spec fn declares_message(data: Seq<u8>, message: Seq<u8>) -> bool {
    &&& data.len() >= ED25519_HEADER_LEN
    &&& message_offset(data) + message_size(data) <= data.len()
    &&& data.subrange(message_offset(data), message_offset(data) + message_size(data))
        == message
}

/// The cross-check of a signature: the executing instruction is not the first,
/// the one before it calls the Ed25519 program, and its payload declares
/// `signer` as public key and `message` as message.
pub open spec fn signature_verified(
    ixs: Seq<SysInstruction>,
    current_index: int,
    signer: Seq<u8>,
    message: Seq<u8>,
) -> bool {
    &&& 0 < current_index <= ixs.len()
    &&& ixs[current_index - 1].program_id@ == ED25519_PROGRAM_ID@
    &&& declares_public_key(ixs[current_index - 1].data@, signer)
    &&& declares_message(ixs[current_index - 1].data@, message)
}

/// Reads the little-endian 16-bit integer at `at`.
fn read_le_u16(data: &[u8], at: usize) -> (r: usize)
    requires
        at + 1 < data@.len(),
    ensures
        r == le_u16_at(data@, at as int),
        r < 65536,
{
    data[at] as usize + 256 * (data[at + 1] as usize)
}

/// Checks the payload of an Ed25519 verification instruction against the
/// expected signer and message.
pub fn check_ed25519_payload(data: &[u8], signer: &Identity, message: &[u8]) -> (r: bool)
    ensures
        r == (declares_public_key(data@, signer@) && declares_message(data@, message@)),
{
    if data.len() < ED25519_HEADER_LEN {
        return false;
    }
    let key_offset = read_le_u16(data, 6);
    if data.len() < key_offset + 32 {
        return false;
    }
    let key = slice_subrange(data, key_offset, key_offset + 32);
    if !bytes_equal(key, signer.bytes.as_slice()) {
        return false;
    }
    let msg_offset = read_le_u16(data, 10);
    let msg_size = read_le_u16(data, 12);
    if data.len() < msg_offset + msg_size {
        return false;
    }
    let declared = slice_subrange(data, msg_offset, msg_offset + msg_size);
    bytes_equal(declared, message)
}

/// Checks that the instruction before the executing one verified `message`
/// under `signer` with the Ed25519 program.
pub fn verify_signed_message(
    instructions: &TransactionInstructions,
    signer: &Identity,
    message: &[u8],
) -> (r: Result<(), PaymentError>)
    ensures
        r is Ok <==> signature_verified(
            instructions.instructions@,
            instructions.current_index as int,
            signer@,
            message@,
        ),
        r is Err ==> r == Err::<(), PaymentError>(PaymentError::InvalidServerSignature),
{
    let current_index = instructions.current_index as usize;
    if current_index == 0 || current_index > instructions.instructions.len() {
        return Err(PaymentError::InvalidServerSignature);
    }
    let ix = &instructions.instructions[current_index - 1];
    let ed25519 = Identity::new(ED25519_PROGRAM_ID);
    if !ix.program_id.same_as(&ed25519) {
        return Err(PaymentError::InvalidServerSignature);
    }
    if !check_ed25519_payload(ix.data.as_slice(), signer, message) {
        return Err(PaymentError::InvalidServerSignature);
    }
    Ok(())
}

/// Checks that the instruction before the executing one verified, under
/// `server_signer`, the canonical message of this payment.
pub fn verify_server_signature(
    instructions: &TransactionInstructions,
    server_signer: &Identity,
    params: &PaymentMessageParams,
    user: &Identity,
    pool: &Identity,
    to: &Identity,
    token_mint: &Identity,
) -> (r: Result<(), PaymentError>)
    ensures
        r is Ok <==> signature_verified(
            instructions.instructions@,
            instructions.current_index as int,
            server_signer@,
            payment_message(*params, user@, pool@, to@, token_mint@),
        ),
        r is Err ==> r == Err::<(), PaymentError>(PaymentError::InvalidServerSignature),
{
    let message = build_payment_message(params, user, pool, to, token_mint);
    verify_signed_message(instructions, server_signer, message.as_slice())
}

/// A verified signature does not verify any expected message that differs
/// from the verified one in a single byte.
pub proof fn lemma_message_byte_flip_fails(
    ixs: Seq<SysInstruction>,
    current_index: int,
    signer: Seq<u8>,
    message: Seq<u8>,
    i: int,
    b: u8,
)
    requires
        signature_verified(ixs, current_index, signer, message),
        0 <= i < message.len(),
        b != message[i],
    ensures
        !signature_verified(ixs, current_index, signer, message.update(i, b)),
{
    assert(message.update(i, b)[i] != message[i]);
}

/// A verified signature does not verify under any expected signer that
/// differs from the verified one in a single byte.
pub proof fn lemma_signer_byte_flip_fails(
    ixs: Seq<SysInstruction>,
    current_index: int,
    signer: Seq<u8>,
    message: Seq<u8>,
    i: int,
    b: u8,
)
    requires
        signature_verified(ixs, current_index, signer, message),
        0 <= i < signer.len(),
        b != signer[i],
    ensures
        !signature_verified(ixs, current_index, signer.update(i, b), message),
{
    assert(signer.update(i, b)[i] != signer[i]);
}

/// Changing one byte of a verification payload inside its public key or its
/// message, away from the header fields that locate them, makes the same
/// signer and message fail the check.
pub proof fn lemma_payload_byte_flip_fails(
    data: Seq<u8>,
    signer: Seq<u8>,
    message: Seq<u8>,
    p: int,
    b: u8,
)
    requires
        declares_public_key(data, signer),
        declares_message(data, message),
        public_key_offset(data) <= p < public_key_offset(data) + 32 || message_offset(data) <= p
            < message_offset(data) + message_size(data),
        !(6 <= p < 8 || 10 <= p < 14),
        b != data[p],
    ensures
        !(declares_public_key(data.update(p, b), signer) && declares_message(
            data.update(p, b),
            message,
        )),
{
    let d = data.update(p, b);
    assert(public_key_offset(d) == public_key_offset(data));
    assert(message_offset(d) == message_offset(data));
    assert(message_size(d) == message_size(data));
    let ko = public_key_offset(data);
    let mo = message_offset(data);
    if ko <= p < ko + 32 {
        assert(d.subrange(ko, ko + 32)[p - ko] != data.subrange(ko, ko + 32)[p - ko]);
    } else {
        assert(d.subrange(mo, mo + message_size(data))[p - mo] != data.subrange(
            mo,
            mo + message_size(data),
        )[p - mo]);
    }
}

} // verus!
