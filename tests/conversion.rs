use txn_models::convert::{
    asset_transfer_fields_to_canonical, fixed32, header_from_canonical, header_to_canonical,
    pay_fields_to_canonical, transaction_from_canonical, transaction_to_canonical,
};
use txn_models::ops::{fixed64, sign_transaction, transaction_type_of};
use txn_models::types::{
    AssetTransferTransactionFields, CanonicalTransaction, MsgPackError, PayTransactionFields,
    Transaction, TransactionHeader, TransactionType,
};

fn header(tt: TransactionType) -> TransactionHeader {
    TransactionHeader {
        transaction_type: tt,
        sender: vec![0; 32],
        fee: 1000,
        first_valid: 1000,
        last_valid: 2000,
        genesis_hash: None,
        genesis_id: None,
        note: None,
        rekey_to: None,
        lease: None,
        group: None,
    }
}

fn pay() -> PayTransactionFields {
    PayTransactionFields { receiver: vec![1; 32], amount: 1000000, close_remainder_to: None }
}

fn axfer() -> AssetTransferTransactionFields {
    AssetTransferTransactionFields {
        asset_id: 12345,
        amount: 7,
        receiver: vec![2; 32],
        asset_sender: Some(vec![3; 32]),
        close_remainder_to: None,
    }
}

fn encoding_detail(e: MsgPackError) -> String {
    match e {
        MsgPackError::EncodingError(s) => s,
        MsgPackError::DecodingError(s) => panic!("expected an encoding error, got {}", s),
    }
}

fn decoding_detail(e: MsgPackError) -> String {
    match e {
        MsgPackError::DecodingError(s) => s,
        MsgPackError::EncodingError(s) => panic!("expected a decoding error, got {}", s),
    }
}

#[test]
fn test_get_encoded_transaction_type() {
    let tx = Transaction {
        header: header(TransactionType::Payment),
        pay_fields: Some(pay()),
        asset_transfer_fields: None,
    };
    let canonical = transaction_to_canonical(tx).unwrap();
    assert_eq!(transaction_type_of(&canonical), TransactionType::Payment);
}

#[test]
fn asset_transfer_type_is_reported() {
    let tx = Transaction {
        header: header(TransactionType::AssetTransfer),
        pay_fields: None,
        asset_transfer_fields: Some(axfer()),
    };
    let canonical = transaction_to_canonical(tx).unwrap();
    assert_eq!(transaction_type_of(&canonical), TransactionType::AssetTransfer);
}

#[test]
fn payment_round_trip_keeps_every_field() {
    let mut h = header(TransactionType::Payment);
    h.genesis_hash = Some(vec![9; 32]);
    h.genesis_id = Some("testnet-v1.0".to_string());
    h.note = Some(vec![1, 2, 3]);
    h.rekey_to = Some(vec![4; 32]);
    h.lease = Some(vec![5; 32]);
    h.group = Some(vec![6; 32]);
    let mut p = pay();
    p.close_remainder_to = Some(vec![7; 32]);
    let tx = Transaction { header: h, pay_fields: Some(p), asset_transfer_fields: None };
    let back = transaction_from_canonical(transaction_to_canonical(tx).unwrap());
    assert_eq!(back.header.sender, vec![0; 32]);
    assert_eq!(back.header.fee, 1000);
    assert_eq!(back.header.first_valid, 1000);
    assert_eq!(back.header.last_valid, 2000);
    assert_eq!(back.header.genesis_hash, Some(vec![9; 32]));
    assert_eq!(back.header.genesis_id, Some("testnet-v1.0".to_string()));
    assert_eq!(back.header.note, Some(vec![1, 2, 3]));
    assert_eq!(back.header.rekey_to, Some(vec![4; 32]));
    assert_eq!(back.header.lease, Some(vec![5; 32]));
    assert_eq!(back.header.group, Some(vec![6; 32]));
    let p = back.pay_fields.unwrap();
    assert_eq!(p.receiver, vec![1; 32]);
    assert_eq!(p.amount, 1000000);
    assert_eq!(p.close_remainder_to, Some(vec![7; 32]));
    assert!(back.asset_transfer_fields.is_none());
}

#[test]
fn asset_transfer_round_trip_keeps_every_field() {
    let tx = Transaction {
        header: header(TransactionType::AssetTransfer),
        pay_fields: None,
        asset_transfer_fields: Some(axfer()),
    };
    let back = transaction_from_canonical(transaction_to_canonical(tx).unwrap());
    assert_eq!(back.header.transaction_type, TransactionType::AssetTransfer);
    assert!(back.pay_fields.is_none());
    let a = back.asset_transfer_fields.unwrap();
    assert_eq!(a.asset_id, 12345);
    assert_eq!(a.amount, 7);
    assert_eq!(a.receiver, vec![2; 32]);
    assert_eq!(a.asset_sender, Some(vec![3; 32]));
    assert_eq!(a.close_remainder_to, None);
}

#[test]
fn both_groups_set_is_refused() {
    let tx = Transaction {
        header: header(TransactionType::Payment),
        pay_fields: Some(pay()),
        asset_transfer_fields: Some(axfer()),
    };
    let e = transaction_to_canonical(tx).unwrap_err();
    assert_eq!(decoding_detail(e), "Multiple fields set");
}

#[test]
fn no_group_set_is_refused() {
    let tx = Transaction {
        header: header(TransactionType::Payment),
        pay_fields: None,
        asset_transfer_fields: None,
    };
    let e = transaction_to_canonical(tx).unwrap_err();
    assert_eq!(decoding_detail(e), "No transaction fields set");
}

#[test]
fn short_receiver_is_refused() {
    let mut p = pay();
    p.receiver = vec![1; 31];
    let tx = Transaction {
        header: header(TransactionType::Payment),
        pay_fields: Some(p),
        asset_transfer_fields: None,
    };
    let e = transaction_to_canonical(tx).unwrap_err();
    assert_eq!(encoding_detail(e), "receiver should be 32 byte public key");
}

#[test]
fn long_close_remainder_to_is_refused() {
    let mut p = pay();
    p.close_remainder_to = Some(vec![1; 33]);
    let tx = Transaction {
        header: header(TransactionType::Payment),
        pay_fields: Some(p),
        asset_transfer_fields: None,
    };
    let e = transaction_to_canonical(tx).unwrap_err();
    assert_eq!(encoding_detail(e), "close remainder to should be 32 byte public key");
}

#[test]
fn short_asset_sender_is_refused() {
    let mut a = axfer();
    a.asset_sender = Some(vec![]);
    let tx = Transaction {
        header: header(TransactionType::AssetTransfer),
        pay_fields: None,
        asset_transfer_fields: Some(a),
    };
    let e = transaction_to_canonical(tx).unwrap_err();
    assert_eq!(encoding_detail(e), "asset sender should be 32 byte public key");
}

#[test]
fn header_fields_are_checked_in_order() {
    let mut h = header(TransactionType::Payment);
    h.sender = vec![0; 64];
    assert_eq!(encoding_detail(header_to_canonical(h).unwrap_err()), "sender should be 32 byte public key");
    let mut h = header(TransactionType::Payment);
    h.genesis_hash = Some(vec![0; 31]);
    assert_eq!(encoding_detail(header_to_canonical(h).unwrap_err()), "genesis_hash should be 32 byte hash");
    let mut h = header(TransactionType::Payment);
    h.rekey_to = Some(vec![0; 1]);
    assert_eq!(encoding_detail(header_to_canonical(h).unwrap_err()), "rekey_to should be 32 byte public key");
    let mut h = header(TransactionType::Payment);
    h.lease = Some(vec![0; 40]);
    assert_eq!(encoding_detail(header_to_canonical(h).unwrap_err()), "lease should be 32 bytes");
    let mut h = header(TransactionType::Payment);
    h.group = Some(vec![0; 16]);
    assert_eq!(encoding_detail(header_to_canonical(h).unwrap_err()), "group should be 32 byte hash");
}

#[test]
fn header_error_comes_before_receiver_error() {
    let mut h = header(TransactionType::Payment);
    h.sender = vec![0; 3];
    let mut p = pay();
    p.receiver = vec![0; 3];
    let tx = Transaction { header: h, pay_fields: Some(p), asset_transfer_fields: None };
    let e = transaction_to_canonical(tx).unwrap_err();
    assert_eq!(encoding_detail(e), "sender should be 32 byte public key");
}

#[test]
fn long_note_is_kept_whole() {
    let mut h = header(TransactionType::Payment);
    h.note = Some(vec![8; 1000]);
    let back = header_from_canonical(header_to_canonical(h).unwrap());
    assert_eq!(back.note, Some(vec![8; 1000]));
}

#[test]
fn fixed_copies_need_exact_lengths() {
    let bytes: Vec<u8> = (0..32).collect();
    let a = fixed32(&bytes).unwrap();
    assert_eq!(a.to_vec(), bytes);
    assert!(fixed32(&vec![0; 33]).is_none());
    let sig: Vec<u8> = (0..64).collect();
    assert_eq!(fixed64(&sig).unwrap().to_vec(), sig);
    assert!(fixed64(&sig[..63]).is_none());
}

#[test]
fn signature_of_64_bytes_is_attached() {
    let tx = Transaction {
        header: header(TransactionType::Payment),
        pay_fields: Some(pay()),
        asset_transfer_fields: None,
    };
    let canonical = transaction_to_canonical(tx).unwrap();
    let sig: Vec<u8> = (0..64).map(|i| i as u8 * 3).collect();
    let signed = sign_transaction(canonical, &sig).unwrap();
    assert_eq!(signed.signature.to_vec(), sig);
    assert!(matches!(signed.transaction, CanonicalTransaction::Payment(ref p) if p.amount == 1000000));
}

#[test]
fn signature_of_other_length_is_an_error() {
    let tx = Transaction {
        header: header(TransactionType::Payment),
        pay_fields: Some(pay()),
        asset_transfer_fields: None,
    };
    let canonical = transaction_to_canonical(tx).unwrap();
    let e = sign_transaction(canonical, &vec![0; 63]).unwrap_err();
    assert_eq!(decoding_detail(e), "signature should be 64 bytes");
}

#[test]
fn pay_group_completes_a_payment() {
    let h = header_to_canonical(header(TransactionType::Payment)).unwrap();
    let p = pay_fields_to_canonical(h, &pay()).unwrap();
    assert_eq!(p.receiver, [1; 32]);
    assert_eq!(p.amount, 1000000);
    assert_eq!(p.header.fee, 1000);
    assert!(p.close_remainder_to.is_none());
    let h = header_to_canonical(header(TransactionType::Payment)).unwrap();
    let mut bad = pay();
    bad.receiver = vec![];
    let e = pay_fields_to_canonical(h, &bad).unwrap_err();
    assert_eq!(encoding_detail(e), "receiver should be 32 byte public key");
}

#[test]
fn asset_group_completes_an_asset_transfer() {
    let h = header_to_canonical(header(TransactionType::AssetTransfer)).unwrap();
    let a = asset_transfer_fields_to_canonical(h, &axfer()).unwrap();
    assert_eq!(a.asset_id, 12345);
    assert_eq!(a.receiver, [2; 32]);
    assert_eq!(a.asset_sender, Some([3; 32]));
    let h = header_to_canonical(header(TransactionType::AssetTransfer)).unwrap();
    let mut bad = axfer();
    bad.close_remainder_to = Some(vec![0; 5]);
    let e = asset_transfer_fields_to_canonical(h, &bad).unwrap_err();
    assert_eq!(encoding_detail(e), "close remainder to should be 32 byte public key");
}
