use vstd::prelude::*;

verus! {

/// The kinds of transaction that a header may declare.
#[derive(Debug, Clone, Copy, PartialEq, Eq, Structural)]
pub enum TransactionType {
    Payment,
    AssetTransfer,
    AssetFreeze,
    AssetConfig,
    KeyRegistration,
    ApplicationCall,
}

/// Failure of a conversion, by direction, with a readable detail.
#[derive(Debug)]
pub enum MsgPackError {
    EncodingError(String),
    DecodingError(String),
}

/// The fields common to every transaction, in wire form: byte buffers of
/// any length.
#[derive(Debug)]
pub struct TransactionHeader {
    pub transaction_type: TransactionType,
    pub sender: Vec<u8>,
    pub fee: u64,
    pub first_valid: u64,
    pub last_valid: u64,
    pub genesis_hash: Option<Vec<u8>>,
    pub genesis_id: Option<String>,
    pub note: Option<Vec<u8>>,
    pub rekey_to: Option<Vec<u8>>,
    pub lease: Option<Vec<u8>>,
    pub group: Option<Vec<u8>>,
}

/// Payment fields in wire form.
#[derive(Debug)]
pub struct PayTransactionFields {
    pub receiver: Vec<u8>,
    pub amount: u64,
    pub close_remainder_to: Option<Vec<u8>>,
}

/// Asset transfer fields in wire form.
#[derive(Debug)]
pub struct AssetTransferTransactionFields {
    pub asset_id: u64,
    pub amount: u64,
    pub receiver: Vec<u8>,
    pub asset_sender: Option<Vec<u8>>,
    pub close_remainder_to: Option<Vec<u8>>,
}

/// A transaction in wire form: a header and at most one group of variant fields.
#[derive(Debug)]
pub struct Transaction {
    pub header: TransactionHeader,
    pub pay_fields: Option<PayTransactionFields>,
    pub asset_transfer_fields: Option<AssetTransferTransactionFields>,
}

/// The common fields in canonical form: every key, digest and lease is
/// exactly 32 bytes.
#[derive(Debug)]
pub struct Header {
    pub transaction_type: TransactionType,
    pub sender: [u8; 32],
    pub fee: u64,
    pub first_valid: u64,
    pub last_valid: u64,
    pub genesis_hash: Option<[u8; 32]>,
    pub genesis_id: Option<String>,
    pub note: Option<Vec<u8>>,
    pub rekey_to: Option<[u8; 32]>,
    pub lease: Option<[u8; 32]>,
    pub group: Option<[u8; 32]>,
}

/// A payment in canonical form.
#[derive(Debug)]
pub struct PaymentFields {
    pub header: Header,
    pub amount: u64,
    pub receiver: [u8; 32],
    pub close_remainder_to: Option<[u8; 32]>,
}

/// An asset transfer in canonical form.
#[derive(Debug)]
pub struct AssetTransferFields {
    pub header: Header,
    pub asset_id: u64,
    pub amount: u64,
    pub receiver: [u8; 32],
    pub asset_sender: Option<[u8; 32]>,
    pub close_remainder_to: Option<[u8; 32]>,
}

/// A transaction in canonical form: a closed union of the supported kinds.
#[derive(Debug)]
pub enum CanonicalTransaction {
    Payment(PaymentFields),
    AssetTransfer(AssetTransferFields),
}

/// A canonical transaction together with its 64-byte signature.
#[derive(Debug)]
pub struct SignedTransaction {
    pub transaction: CanonicalTransaction,
    pub signature: [u8; 64],
}

/// The bytes of an optional buffer.
pub open spec fn opt_bytes(o: Option<Vec<u8>>) -> Option<Seq<u8>> {
    match o {
        Some(v) => Some(v@),
        None => None,
    }
}

/// The bytes of an optional fixed-size value.
pub open spec fn opt_fixed<const N: usize>(o: Option<[u8; N]>) -> Option<Seq<u8>> {
    match o {
        Some(a) => Some(a@),
        None => None,
    }
}

/// The characters of an optional text.
pub open spec fn opt_text(o: Option<String>) -> Option<Seq<char>> {
    match o {
        Some(s) => Some(s@),
        None => None,
    }
}

/// A buffer that a canonical 32-byte field can hold.
pub open spec fn fits32(b: Seq<u8>) -> bool {
    b.len() == 32
}

/// An optional buffer that is absent or fits a 32-byte field.
pub open spec fn opt_fits32(o: Option<Vec<u8>>) -> bool {
    match o {
        Some(v) => fits32(v@),
        None => true,
    }
}

/// Two wire headers that hold the same values.
pub open spec fn same_header(a: TransactionHeader, b: TransactionHeader) -> bool {
    &&& a.transaction_type == b.transaction_type
    &&& a.sender@ == b.sender@
    &&& a.fee == b.fee
    &&& a.first_valid == b.first_valid
    &&& a.last_valid == b.last_valid
    &&& opt_bytes(a.genesis_hash) == opt_bytes(b.genesis_hash)
    &&& opt_text(a.genesis_id) == opt_text(b.genesis_id)
    &&& opt_bytes(a.note) == opt_bytes(b.note)
    &&& opt_bytes(a.rekey_to) == opt_bytes(b.rekey_to)
    &&& opt_bytes(a.lease) == opt_bytes(b.lease)
    &&& opt_bytes(a.group) == opt_bytes(b.group)
}

/// Two wire payment groups that hold the same values.
pub open spec fn same_pay(a: PayTransactionFields, b: PayTransactionFields) -> bool {
    &&& a.receiver@ == b.receiver@
    &&& a.amount == b.amount
    &&& opt_bytes(a.close_remainder_to) == opt_bytes(b.close_remainder_to)
}

/// Two wire asset transfer groups that hold the same values.
pub open spec fn same_asset_transfer(
    a: AssetTransferTransactionFields,
    b: AssetTransferTransactionFields,
) -> bool {
    &&& a.asset_id == b.asset_id
    &&& a.amount == b.amount
    &&& a.receiver@ == b.receiver@
    &&& opt_bytes(a.asset_sender) == opt_bytes(b.asset_sender)
    &&& opt_bytes(a.close_remainder_to) == opt_bytes(b.close_remainder_to)
}

/// Two wire transactions that hold the same values.
pub open spec fn same_transaction(a: Transaction, b: Transaction) -> bool {
    &&& same_header(a.header, b.header)
    &&& match (a.pay_fields, b.pay_fields) {
        (Some(x), Some(y)) => same_pay(x, y),
        (None, None) => true,
        _ => false,
    }
    &&& match (a.asset_transfer_fields, b.asset_transfer_fields) {
        (Some(x), Some(y)) => same_asset_transfer(x, y),
        (None, None) => true,
        _ => false,
    }
}

/// A wire header and a canonical header that hold the same values.
pub open spec fn header_matches(w: TransactionHeader, c: Header) -> bool {
    &&& w.transaction_type == c.transaction_type
    &&& w.sender@ == c.sender@
    &&& w.fee == c.fee
    &&& w.first_valid == c.first_valid
    &&& w.last_valid == c.last_valid
    &&& opt_bytes(w.genesis_hash) == opt_fixed(c.genesis_hash)
    &&& opt_text(w.genesis_id) == opt_text(c.genesis_id)
    &&& opt_bytes(w.note) == opt_bytes(c.note)
    &&& opt_bytes(w.rekey_to) == opt_fixed(c.rekey_to)
    &&& opt_bytes(w.lease) == opt_fixed(c.lease)
    &&& opt_bytes(w.group) == opt_fixed(c.group)
}

/// A wire transaction and a canonical one that hold the same values: the
/// canonical case is the one whose wire group is present, the other absent.
pub open spec fn transaction_matches(w: Transaction, c: CanonicalTransaction) -> bool {
    match c {
        CanonicalTransaction::Payment(p) => {
            &&& header_matches(w.header, p.header)
            &&& w.asset_transfer_fields is None
            &&& match w.pay_fields {
                Some(f) => {
                    &&& f.receiver@ == p.receiver@
                    &&& f.amount == p.amount
                    &&& opt_bytes(f.close_remainder_to) == opt_fixed(p.close_remainder_to)
                },
                None => false,
            }
        },
        CanonicalTransaction::AssetTransfer(a) => {
            &&& header_matches(w.header, a.header)
            &&& w.pay_fields is None
            &&& match w.asset_transfer_fields {
                Some(f) => {
                    &&& f.asset_id == a.asset_id
                    &&& f.amount == a.amount
                    &&& f.receiver@ == a.receiver@
                    &&& opt_bytes(f.asset_sender) == opt_fixed(a.asset_sender)
                    &&& opt_bytes(f.close_remainder_to) == opt_fixed(a.close_remainder_to)
                },
                None => false,
            }
        },
    }
}

/// The kind of a canonical transaction.
pub open spec fn kind_of(c: CanonicalTransaction) -> TransactionType {
    match c {
        CanonicalTransaction::Payment(_) => TransactionType::Payment,
        CanonicalTransaction::AssetTransfer(_) => TransactionType::AssetTransfer,
    }
}

} // verus!
