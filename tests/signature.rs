use setto_payment::codec::{build_payment_message, PaymentMessageParams};
use setto_payment::errors::PaymentError;
use setto_payment::identity::Identity;
use setto_payment::signature::{
    check_ed25519_payload, verify_server_signature, verify_signed_message, SysInstruction,
    TransactionInstructions, ED25519_PROGRAM_ID,
};

fn id(b: u8) -> Identity {
    Identity::new([b; 32])
}

/// An Ed25519 verification payload: header, signature, public key, message.
fn ed25519_data(pubkey: &Identity, message: &[u8]) -> Vec<u8> {
    let key_offset: u16 = 16;
    let signature_offset: u16 = 48;
    let message_offset: u16 = 112;
    let mut data = vec![1u8, 0];
    data.extend_from_slice(&signature_offset.to_le_bytes());
    data.extend_from_slice(&u16::MAX.to_le_bytes());
    data.extend_from_slice(&key_offset.to_le_bytes());
    data.extend_from_slice(&u16::MAX.to_le_bytes());
    data.extend_from_slice(&message_offset.to_le_bytes());
    data.extend_from_slice(&(message.len() as u16).to_le_bytes());
    data.extend_from_slice(&u16::MAX.to_le_bytes());
    data.extend_from_slice(&pubkey.to_bytes());
    data.extend_from_slice(&[9u8; 64]);
    data.extend_from_slice(message);
    data
}

fn transaction(program: Identity, data: Vec<u8>) -> TransactionInstructions {
    TransactionInstructions {
        current_index: 1,
        instructions: vec![
            SysInstruction { program_id: program, data },
            SysInstruction { program_id: id(77), data: vec![] },
        ],
    }
}

fn params() -> PaymentMessageParams {
    PaymentMessageParams { payment_id: 42, amount: 1000, fee_amount: 50, deadline: 5000 }
}

fn signed_payment() -> (TransactionInstructions, Vec<u8>) {
    let message = build_payment_message(&params(), &id(1), &id(2), &id(3), &id(4));
    let data = ed25519_data(&id(8), &message);
    (transaction(Identity::new(ED25519_PROGRAM_ID), data), message)
}

#[test]
fn matching_instruction_verifies() {
    let (tx, _) = signed_payment();
    let r = verify_server_signature(&tx, &id(8), &params(), &id(1), &id(2), &id(3), &id(4));
    assert_eq!(r, Ok(()));
}

#[test]
fn first_instruction_has_no_predecessor() {
    let (mut tx, message) = signed_payment();
    tx.current_index = 0;
    assert_eq!(verify_signed_message(&tx, &id(8), &message), Err(PaymentError::InvalidServerSignature));
}

#[test]
fn index_past_the_list_fails() {
    let (mut tx, message) = signed_payment();
    tx.current_index = 3;
    assert_eq!(verify_signed_message(&tx, &id(8), &message), Err(PaymentError::InvalidServerSignature));
}

#[test]
fn other_program_fails() {
    let (tx, message) = signed_payment();
    let other = transaction(id(5), tx.instructions[0].data.clone());
    assert_eq!(verify_signed_message(&other, &id(8), &message), Err(PaymentError::InvalidServerSignature));
}

#[test]
fn other_signer_fails() {
    let (tx, _) = signed_payment();
    let r = verify_server_signature(&tx, &id(9), &params(), &id(1), &id(2), &id(3), &id(4));
    assert_eq!(r, Err(PaymentError::InvalidServerSignature));
}

#[test]
fn other_payment_fields_fail() {
    let (tx, _) = signed_payment();
    let mut p = params();
    p.amount = 1001;
    assert_eq!(
        verify_server_signature(&tx, &id(8), &p, &id(1), &id(2), &id(3), &id(4)),
        Err(PaymentError::InvalidServerSignature)
    );
    assert_eq!(
        verify_server_signature(&tx, &id(8), &params(), &id(1), &id(2), &id(6), &id(4)),
        Err(PaymentError::InvalidServerSignature)
    );
}

#[test]
fn each_flipped_message_byte_fails() {
    let (tx, message) = signed_payment();
    for i in 0..message.len() {
        let mut flipped = message.clone();
        flipped[i] ^= 0x01;
        assert_eq!(verify_signed_message(&tx, &id(8), &flipped), Err(PaymentError::InvalidServerSignature));
    }
    assert_eq!(verify_signed_message(&tx, &id(8), &message), Ok(()));
}

#[test]
fn each_flipped_public_key_byte_fails() {
    let (tx, message) = signed_payment();
    for i in 0..32 {
        let mut key = [8u8; 32];
        key[i] ^= 0x80;
        assert_eq!(
            verify_signed_message(&tx, &Identity::new(key), &message),
            Err(PaymentError::InvalidServerSignature)
        );
        let mut data = tx.instructions[0].data.clone();
        data[16 + i] ^= 0x80;
        assert!(!check_ed25519_payload(&data, &id(8), &message));
    }
}

#[test]
fn short_header_fails() {
    assert!(!check_ed25519_payload(&[0u8; 15], &id(8), &[]));
}

#[test]
fn public_key_past_the_end_fails() {
    let message = vec![1u8, 2, 3];
    let mut data = ed25519_data(&id(8), &message);
    let len = data.len() as u16;
    data[6..8].copy_from_slice(&(len - 31).to_le_bytes());
    assert!(!check_ed25519_payload(&data, &id(8), &message));
}

#[test]
fn message_past_the_end_fails() {
    let message = vec![1u8, 2, 3];
    let mut data = ed25519_data(&id(8), &message);
    data[12..14].copy_from_slice(&4u16.to_le_bytes());
    assert!(!check_ed25519_payload(&data, &id(8), &message));
    data[12..14].copy_from_slice(&3u16.to_le_bytes());
    assert!(check_ed25519_payload(&data, &id(8), &message));
}

#[test]
fn program_id_is_the_ed25519_program() {
    assert_eq!(ED25519_PROGRAM_ID, anchor_lang::solana_program::ed25519_program::ID.to_bytes());
}

#[test]
fn each_flipped_payload_message_byte_fails() {
    let (tx, message) = signed_payment();
    let data = &tx.instructions[0].data;
    assert!(check_ed25519_payload(data, &id(8), &message));
    for i in 0..message.len() {
        let mut flipped = data.clone();
        flipped[112 + i] ^= 0x10;
        assert!(!check_ed25519_payload(&flipped, &id(8), &message));
    }
}
