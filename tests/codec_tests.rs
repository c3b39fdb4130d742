use borsh::BorshSerialize;
use sisu_bridge::error::BridgeError;
use sisu_bridge::identity::Identity;
use sisu_bridge::instruction::{increment, CounterInstruction};
use sisu_bridge::state::{
    AddSpenderData, BridgeInstruction, BridgeStateV0, TransferInData, TransferInIx,
    TransferOutData, STATE_LEN,
};

#[test]
fn test_serialize_transfer_in() {
    let transfer_in = TransferInData {
        nonce: 0,
        amounts: vec![1, 2, 3],
    };

    let encoded_a = transfer_in.try_to_vec().unwrap();
    let decoded_a = TransferInData::try_from_slice(&encoded_a).unwrap();
    assert_eq!(transfer_in.amounts, decoded_a.amounts);
}

#[test]
fn test_serialize_transfer_out() {
    let transfer_out = TransferOutData {
        amount: 900,
        token_address: "0x1234".to_string(),
        chain_id: 123,
        recipient: "someone".to_string(),
    };
    let encoded_a = transfer_out.try_to_vec().unwrap();
    let decoded_a = TransferOutData::try_from_slice(&encoded_a).unwrap();
    assert_eq!(transfer_out, decoded_a);
}

#[test]
fn transfer_out_wire_matches_borsh() {
    let d = TransferOutData {
        amount: 900,
        token_address: "0x1234".to_string(),
        chain_id: 123,
        recipient: "someone".to_string(),
    };
    let ours = d.try_to_vec().unwrap();
    let theirs = (900u64, "0x1234".to_string(), 123u64, "someone".to_string())
        .try_to_vec()
        .unwrap();
    assert_eq!(ours, theirs);
    assert_eq!(ours.len(), 8 + 4 + 6 + 8 + 4 + 7);
    assert_eq!(&ours[0..8], &[0x84, 0x03, 0, 0, 0, 0, 0, 0]);
    assert_eq!(&ours[8..12], &[6, 0, 0, 0]);
}

#[test]
fn transfer_in_wire_matches_borsh() {
    let d = TransferInData {
        nonce: 7,
        amounts: vec![100, 200, 300],
    };
    let ours = d.try_to_vec().unwrap();
    let theirs = (7u64, vec![100u64, 200, 300]).try_to_vec().unwrap();
    assert_eq!(ours, theirs);
    assert_eq!(ours.len(), 8 + 4 + 24);
}

#[test]
fn transfer_out_boundaries_round_trip() {
    for amount in [0u64, 1, u64::MAX] {
        let d = TransferOutData {
            amount,
            token_address: String::new(),
            chain_id: u64::MAX,
            recipient: String::new(),
        };
        let bytes = d.try_to_vec().unwrap();
        assert_eq!(bytes.len(), 8 + 4 + 8 + 4);
        let back = TransferOutData::try_from_slice(&bytes).unwrap();
        assert_eq!(back, d);
        assert_eq!(back.try_to_vec().unwrap(), bytes);
    }
}

#[test]
fn transfer_out_non_ascii_round_trip() {
    let d = TransferOutData {
        amount: 5,
        token_address: "jeton-\u{e9}\u{20ac}".to_string(),
        chain_id: 1,
        recipient: "\u{1f600}".to_string(),
    };
    let bytes = d.try_to_vec().unwrap();
    assert_eq!(TransferOutData::try_from_slice(&bytes).unwrap(), d);
}

#[test]
fn transfer_in_batch_sizes_round_trip() {
    for n in [1usize, 64] {
        let amounts: Vec<u64> = (0..n as u64).map(|i| if i == 0 { u64::MAX } else { i }).collect();
        let d = TransferInData { nonce: u64::MAX, amounts };
        let bytes = d.try_to_vec().unwrap();
        assert_eq!(bytes.len(), 12 + 8 * n);
        let back = TransferInData::try_from_slice(&bytes).unwrap();
        assert_eq!(back, d);
        assert_eq!(back.try_to_vec().unwrap(), bytes);
    }
}

#[test]
fn add_spender_round_trip() {
    let d = AddSpenderData { spender: Identity::filled(9) };
    let bytes = d.try_to_vec().unwrap();
    assert_eq!(bytes, vec![9u8; 32]);
    let back = AddSpenderData::try_from_slice(&bytes).unwrap();
    assert!(back.spender == d.spender);
}

#[test]
fn decode_rejects_empty_truncated_and_trailing() {
    let d = TransferOutData {
        amount: 1,
        token_address: "a".to_string(),
        chain_id: 2,
        recipient: "b".to_string(),
    };
    let bytes = d.try_to_vec().unwrap();
    assert_eq!(TransferOutData::try_from_slice(&[]), Err(BridgeError::DecodeError));
    assert_eq!(
        TransferOutData::try_from_slice(&bytes[..bytes.len() - 1]),
        Err(BridgeError::DecodeError)
    );
    let mut longer = bytes.clone();
    longer.push(0);
    assert_eq!(TransferOutData::try_from_slice(&longer), Err(BridgeError::DecodeError));

    let t = TransferInData { nonce: 1, amounts: vec![4] }.try_to_vec().unwrap();
    assert_eq!(TransferInData::try_from_slice(&t[..t.len() - 1]), Err(BridgeError::DecodeError));
    assert_eq!(TransferInData::try_from_slice(&[]), Err(BridgeError::DecodeError));
    assert!(AddSpenderData::try_from_slice(&[1u8; 31]).is_err());
    assert!(AddSpenderData::try_from_slice(&[1u8; 33]).is_err());
}

#[test]
fn decode_rejects_invalid_utf8() {
    let mut bytes = vec![0u8; 8];
    bytes.extend_from_slice(&[1, 0, 0, 0, 0xff]);
    bytes.extend_from_slice(&[0u8; 8]);
    bytes.extend_from_slice(&[0, 0, 0, 0]);
    assert_eq!(TransferOutData::try_from_slice(&bytes), Err(BridgeError::DecodeError));
}

#[test]
fn decode_rejects_list_longer_than_buffer() {
    let mut bytes = vec![0u8; 8];
    bytes.extend_from_slice(&[0xff, 0xff, 0xff, 0xff]);
    bytes.extend_from_slice(&[1u8; 16]);
    assert_eq!(TransferInData::try_from_slice(&bytes), Err(BridgeError::DecodeError));
}

#[test]
fn state_round_trip_and_borsh_layout() {
    let admin = Identity::filled(1);
    let mut st = BridgeStateV0::new(254, admin);
    st.add_spender(Identity::filled(2));
    st.nonce = 0x0102030405060708;
    let bytes = st.try_to_vec().unwrap();
    assert_eq!(bytes.len(), STATE_LEN);
    let theirs = (0u8, 254u8, [1u8; 32], [[1u8; 32], [2u8; 32]], 1u8, 0x0102030405060708u64)
        .try_to_vec()
        .unwrap();
    assert_eq!(bytes, theirs);
    let back = BridgeStateV0::try_from_slice(&bytes).unwrap();
    assert!(back.admin == admin);
    assert!(back.spenders[0] == admin);
    assert!(back.spenders[1] == Identity::filled(2));
    assert_eq!(back.spender_index, 1);
    assert_eq!(back.nonce, 0x0102030405060708);
    assert_eq!(back.bump, 254);
    assert_eq!(BridgeStateV0::try_from_slice(&bytes[1..]).unwrap_err(), BridgeError::DecodeError);
}

#[test]
fn opcodes() {
    assert_eq!(BridgeInstruction::Initialize.try_to_vec().unwrap(), vec![0u8]);
    assert_eq!(BridgeInstruction::ChangeAdmin.try_to_vec().unwrap(), vec![5u8]);
    assert_eq!(BridgeInstruction::try_from_slice(&[3]), Ok(BridgeInstruction::AddSpender));
    assert_eq!(BridgeInstruction::try_from_slice(&[6]), Err(BridgeError::InvalidInstruction));
    assert_eq!(BridgeInstruction::try_from_slice(&[]), Err(BridgeError::DecodeError));
    assert_eq!(BridgeInstruction::from_opcode(2), Some(BridgeInstruction::TransferIn));
}

#[test]
fn transfer_in_ix_layout() {
    let ix = TransferInIx::from_data(TransferInData { nonce: 1, amounts: vec![1000] });
    assert_eq!(ix.bridge_ix, BridgeInstruction::TransferIn);
    let bytes = ix.try_to_vec().unwrap();
    let mut expected = vec![2u8, 1, 0, 0, 0, 0, 0, 0, 0, 1, 0, 0, 0];
    expected.extend_from_slice(&1000u64.to_le_bytes());
    assert_eq!(bytes, expected);
}

#[test]
fn counter_increment_instruction() {
    let ix = increment(
        Identity::filled(1),
        Identity::filled(2),
        Identity::filled(3),
        CounterInstruction::Decrement,
    )
    .unwrap();
    assert!(ix.program_id == Identity::filled(1));
    assert_eq!(ix.data, vec![1u8]);
    assert_eq!(ix.accounts.len(), 2);
    assert!(ix.accounts[0].key == Identity::filled(2));
    assert!(ix.accounts[0].is_writable && !ix.accounts[0].is_signer);
    assert!(ix.accounts[1].key == Identity::filled(3));
    assert!(ix.accounts[1].is_writable && !ix.accounts[1].is_signer);
}

#[test]
fn error_codes() {
    assert_eq!(BridgeError::NotAnAdmin.code(), 0);
    assert_eq!(BridgeError::NotImplemented.code(), 9);
    assert_eq!(BridgeError::StaleNonce.code(), 6);
    assert_eq!(BridgeError::NotAnAdmin.message(), "Not a bridge admin.");
}
