use setto_payment::codec::{build_payment_message, PaymentMessage, PaymentMessageParams, PAYMENT_MESSAGE_LEN};
use setto_payment::identity::Identity;

fn id(b: u8) -> Identity {
    Identity::new([b; 32])
}

fn sample() -> PaymentMessage {
    PaymentMessage {
        params: PaymentMessageParams { payment_id: 42, amount: 1000, fee_amount: 50, deadline: 1_700_003_600 },
        user: id(1),
        pool: id(2),
        to: id(3),
        token_mint: id(4),
    }
}

#[test]
fn message_layout_is_fixed() {
    let m = sample();
    let bytes = build_payment_message(&m.params, &m.user, &m.pool, &m.to, &m.token_mint);
    assert_eq!(bytes.len(), PAYMENT_MESSAGE_LEN);
    assert_eq!(bytes.len(), 160);
    assert_eq!(&bytes[0..8], &42u64.to_le_bytes());
    assert_eq!(&bytes[8..40], &[1u8; 32]);
    assert_eq!(&bytes[40..72], &[2u8; 32]);
    assert_eq!(&bytes[72..104], &[3u8; 32]);
    assert_eq!(&bytes[104..136], &[4u8; 32]);
    assert_eq!(&bytes[136..144], &1000u64.to_le_bytes());
    assert_eq!(&bytes[144..152], &50u64.to_le_bytes());
    assert_eq!(&bytes[152..160], &1_700_003_600i64.to_le_bytes());
}

#[test]
fn message_integers_are_little_endian() {
    let params = PaymentMessageParams {
        payment_id: 0x0102030405060708,
        amount: 1,
        fee_amount: u64::MAX,
        deadline: -2,
    };
    let bytes = build_payment_message(&params, &id(0), &id(0), &id(0), &id(0));
    assert_eq!(&bytes[0..8], &[8, 7, 6, 5, 4, 3, 2, 1]);
    assert_eq!(&bytes[136..144], &[1, 0, 0, 0, 0, 0, 0, 0]);
    assert_eq!(&bytes[144..152], &[0xff; 8]);
    assert_eq!(&bytes[152..160], &[0xfe, 0xff, 0xff, 0xff, 0xff, 0xff, 0xff, 0xff]);
}

#[test]
fn encode_of_decode_gives_bytes_back() {
    let mut bytes = vec![0u8; 160];
    for (i, b) in bytes.iter_mut().enumerate() {
        *b = (i * 7 + 3) as u8;
    }
    let m = PaymentMessage::decode(&bytes).unwrap();
    assert_eq!(m.encode(), bytes);
}

#[test]
fn decode_of_encode_gives_message_back() {
    let m = sample();
    let d = PaymentMessage::decode(&m.encode()).unwrap();
    assert_eq!(d.params, m.params);
    assert_eq!(d.user, m.user);
    assert_eq!(d.pool, m.pool);
    assert_eq!(d.to, m.to);
    assert_eq!(d.token_mint, m.token_mint);
}

#[test]
fn negative_deadline_round_trips() {
    let mut m = sample();
    m.params.deadline = i64::MIN;
    let d = PaymentMessage::decode(&m.encode()).unwrap();
    assert_eq!(d.params.deadline, i64::MIN);
}

#[test]
fn decode_rejects_other_lengths() {
    assert!(PaymentMessage::decode(&[]).is_none());
    assert!(PaymentMessage::decode(&vec![0u8; 159]).is_none());
    assert!(PaymentMessage::decode(&vec![0u8; 161]).is_none());
}
