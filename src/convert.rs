use vstd::prelude::*;
use vstd::string::StringExecFns;
use vstd::array::ArrayAdditionalExecFns;
use crate::types::{
    fits32, header_matches, opt_bytes, opt_fits32, opt_fixed, AssetTransferTransactionFields,
    AssetTransferFields, CanonicalTransaction, Header, MsgPackError, PayTransactionFields,
    PaymentFields, Transaction, TransactionHeader, transaction_matches, same_transaction,
};

verus! {

broadcast use vstd::array::group_array_axioms;

/// The details that conversion errors carry.
pub open spec fn multiple_msg() -> Seq<char> {
    "Multiple fields set"@
}

pub open spec fn none_msg() -> Seq<char> {
    "No transaction fields set"@
}

pub open spec fn sender_msg() -> Seq<char> {
    "sender should be 32 byte public key"@
}

pub open spec fn genesis_hash_msg() -> Seq<char> {
    "genesis_hash should be 32 byte hash"@
}

pub open spec fn rekey_to_msg() -> Seq<char> {
    "rekey_to should be 32 byte public key"@
}

pub open spec fn lease_msg() -> Seq<char> {
    "lease should be 32 bytes"@
}

pub open spec fn group_msg() -> Seq<char> {
    "group should be 32 byte hash"@
}

pub open spec fn receiver_msg() -> Seq<char> {
    "receiver should be 32 byte public key"@
}

pub open spec fn asset_sender_msg() -> Seq<char> {
    "asset sender should be 32 byte public key"@
}

pub open spec fn close_remainder_to_msg() -> Seq<char> {
    "close remainder to should be 32 byte public key"@
}

/// An encoding error whose detail is `msg`.
pub open spec fn is_encoding_error(e: MsgPackError, msg: Seq<char>) -> bool {
    match e {
        MsgPackError::EncodingError(s) => s@ == msg,
        MsgPackError::DecodingError(_) => false,
    }
}

/// A decoding error whose detail is `msg`.
pub open spec fn is_decoding_error(e: MsgPackError, msg: Seq<char>) -> bool {
    match e {
        MsgPackError::DecodingError(s) => s@ == msg,
        MsgPackError::EncodingError(_) => false,
    }
}

/// The detail of the first header field, in declaration order, whose buffer
/// cannot fill its 32-byte canonical field; `None` when all fit.
pub open spec fn header_problem(h: TransactionHeader) -> Option<Seq<char>> {
    if !fits32(h.sender@) {
        Some(sender_msg())
    } else if !opt_fits32(h.genesis_hash) {
        Some(genesis_hash_msg())
    } else if !opt_fits32(h.rekey_to) {
        Some(rekey_to_msg())
    } else if !opt_fits32(h.lease) {
        Some(lease_msg())
    } else if !opt_fits32(h.group) {
        Some(group_msg())
    } else {
        None
    }
}

/// The detail of the first payment field that does not fit; `None` when all fit.
pub open spec fn pay_problem(f: PayTransactionFields) -> Option<Seq<char>> {
    if !fits32(f.receiver@) {
        Some(receiver_msg())
    } else if !opt_fits32(f.close_remainder_to) {
        Some(close_remainder_to_msg())
    } else {
        None
    }
}

/// The detail of the first asset transfer field that does not fit; `None`
/// when all fit.
pub open spec fn asset_transfer_problem(f: AssetTransferTransactionFields) -> Option<Seq<char>> {
    if !fits32(f.receiver@) {
        Some(receiver_msg())
    } else if !opt_fits32(f.asset_sender) {
        Some(asset_sender_msg())
    } else if !opt_fits32(f.close_remainder_to) {
        Some(close_remainder_to_msg())
    } else {
        None
    }
}

/// Why a wire transaction has no canonical form, as the error it gets:
/// the group count is checked first, then the header, then the group.
pub open spec fn transaction_problem(w: Transaction) -> Option<(bool, Seq<char>)> {
    if w.pay_fields is Some && w.asset_transfer_fields is Some {
        Some((false, multiple_msg()))
    } else if w.pay_fields is None && w.asset_transfer_fields is None {
        Some((false, none_msg()))
    } else if header_problem(w.header) is Some {
        Some((true, header_problem(w.header)->0))
    } else if w.pay_fields is Some {
        match pay_problem(w.pay_fields->0) {
            Some(m) => Some((true, m)),
            None => None,
        }
    } else {
        match asset_transfer_problem(w.asset_transfer_fields->0) {
            Some(m) => Some((true, m)),
            None => None,
        }
    }
}

/// The error for a problem: `(true, m)` is an encoding error, `(false, m)` a
/// decoding error, each with detail `m`.
pub open spec fn error_for(e: MsgPackError, p: (bool, Seq<char>)) -> bool {
    if p.0 {
        is_encoding_error(e, p.1)
    } else {
        is_decoding_error(e, p.1)
    }
}

/// Copies a buffer into a 32-byte array when it has exactly 32 bytes.
pub fn fixed32(b: &Vec<u8>) -> (r: Option<[u8; 32]>)
    ensures
        match r {
            Some(a) => fits32(b@) && a@ == b@,
            None => !fits32(b@),
        },
{
    if b.len() != 32 {
        return None;
    }
    let mut a = [0u8; 32];
    let mut i: usize = 0;
    while i < 32
        invariant
            i <= 32,
            b@.len() == 32,
            forall|j: int| 0 <= j < i ==> a@[j] == b@[j],
        decreases 32 - i,
    {
        a.set(i, b[i]);
        i += 1;
    }
    assert(a@ =~= b@);
    Some(a)
}

/// Copies a fixed-size array into a buffer.
pub fn bytes_of<const N: usize>(a: &[u8; N]) -> (r: Vec<u8>)
    ensures
        r@ == a@,
{
    let mut v: Vec<u8> = Vec::new();
    let mut i: usize = 0;
    while i < N
        invariant
            i <= N,
            a@.len() == N,
            v@ == a@.subrange(0, i as int),
        decreases N - i,
    {
        v.push(a[i]);
        i += 1;
        assert(v@ =~= a@.subrange(0, i as int));
    }
    assert(v@ =~= a@);
    v
}

fn required32(b: &Vec<u8>, msg: &str) -> (r: Result<[u8; 32], MsgPackError>)
    ensures
        match r {
            Ok(a) => fits32(b@) && a@ == b@,
            Err(e) => !fits32(b@) && is_encoding_error(e, msg@),
        },
{
    match fixed32(b) {
        Some(a) => Ok(a),
        None => Err(MsgPackError::EncodingError(String::from_str(msg))),
    }
}

fn optional32(o: &Option<Vec<u8>>, msg: &str) -> (r: Result<Option<[u8; 32]>, MsgPackError>)
    ensures
        match r {
            Ok(a) => opt_fits32(*o) && opt_fixed(a) == opt_bytes(*o),
            Err(e) => !opt_fits32(*o) && is_encoding_error(e, msg@),
        },
{
    match o {
        None => Ok(None),
        Some(b) => match fixed32(b) {
            Some(a) => Ok(Some(a)),
            None => Err(MsgPackError::EncodingError(String::from_str(msg))),
        },
    }
}

fn optional_bytes(o: &Option<[u8; 32]>) -> (r: Option<Vec<u8>>)
    ensures
        opt_bytes(r) == opt_fixed(*o),
{
    match o {
        None => None,
        Some(a) => Some(bytes_of(a)),
    }
}

/// Converts a wire header into canonical form, checking that every 32-byte
/// field has exactly 32 bytes.
pub fn header_to_canonical(h: TransactionHeader) -> (r: Result<Header, MsgPackError>)
    ensures
        match r {
            Ok(c) => header_problem(h) is None && header_matches(h, c),
            Err(e) => header_problem(h) is Some && is_encoding_error(e, header_problem(h)->0),
        },
{
    let sender = required32(&h.sender, "sender should be 32 byte public key")?;
    let genesis_hash = optional32(&h.genesis_hash, "genesis_hash should be 32 byte hash")?;
    let rekey_to = optional32(&h.rekey_to, "rekey_to should be 32 byte public key")?;
    let lease = optional32(&h.lease, "lease should be 32 bytes")?;
    let group = optional32(&h.group, "group should be 32 byte hash")?;
    Ok(Header {
        transaction_type: h.transaction_type,
        sender,
        fee: h.fee,
        first_valid: h.first_valid,
        last_valid: h.last_valid,
        genesis_hash,
        genesis_id: h.genesis_id,
        note: h.note,
        rekey_to,
        lease,
        group,
    })
}


/// Converts a wire transaction into canonical form. The variant is the one
/// whose field group is present; both present or neither is a decoding
/// error, and a buffer that does not fit its 32-byte field is an encoding
/// error naming that field. Nothing is returned in part.
pub fn transaction_to_canonical(w: Transaction) -> (r: Result<CanonicalTransaction, MsgPackError>)
    ensures
        match r {
            Ok(c) => transaction_problem(w) is None && transaction_matches(w, c),
            Err(e) => transaction_problem(w) is Some && error_for(e, transaction_problem(w)->0),
        },
{
    if w.pay_fields.is_some() && w.asset_transfer_fields.is_some() {
        return Err(MsgPackError::DecodingError(String::from_str("Multiple fields set")));
    }
    match w.pay_fields {
        Some(pay) => {
            let header = header_to_canonical(w.header)?;
            let p = pay_fields_to_canonical(header, &pay)?;
            Ok(CanonicalTransaction::Payment(p))
        },
        None => match w.asset_transfer_fields {
            Some(axfer) => {
                let header = header_to_canonical(w.header)?;
                let a = asset_transfer_fields_to_canonical(header, &axfer)?;
                Ok(CanonicalTransaction::AssetTransfer(a))
            },
            None => Err(MsgPackError::DecodingError(String::from_str("No transaction fields set"))),
        },
    }
}

/// Completes a canonical payment from its header and the wire payment group,
/// checking that each 32-byte field has exactly 32 bytes.
pub fn pay_fields_to_canonical(header: Header, f: &PayTransactionFields) -> (r: Result<
    PaymentFields,
    MsgPackError,
>)
    ensures
        match r {
            Ok(p) => {
                &&& pay_problem(*f) is None
                &&& p.header == header
                &&& f.receiver@ == p.receiver@
                &&& f.amount == p.amount
                &&& opt_bytes(f.close_remainder_to) == opt_fixed(p.close_remainder_to)
            },
            Err(e) => pay_problem(*f) is Some && is_encoding_error(e, pay_problem(*f)->0),
        },
{
    let receiver = required32(&f.receiver, "receiver should be 32 byte public key")?;
    let close_remainder_to = optional32(
        &f.close_remainder_to,
        "close remainder to should be 32 byte public key",
    )?;
    Ok(PaymentFields { header, amount: f.amount, receiver, close_remainder_to })
}

/// Completes a canonical asset transfer from its header and the wire asset
/// transfer group, checking that each 32-byte field has exactly 32 bytes.
pub fn asset_transfer_fields_to_canonical(
    header: Header,
    f: &AssetTransferTransactionFields,
) -> (r: Result<AssetTransferFields, MsgPackError>)
    ensures
        match r {
            Ok(a) => {
                &&& asset_transfer_problem(*f) is None
                &&& a.header == header
                &&& f.asset_id == a.asset_id
                &&& f.amount == a.amount
                &&& f.receiver@ == a.receiver@
                &&& opt_bytes(f.asset_sender) == opt_fixed(a.asset_sender)
                &&& opt_bytes(f.close_remainder_to) == opt_fixed(a.close_remainder_to)
            },
            Err(e) => asset_transfer_problem(*f) is Some && is_encoding_error(
                e,
                asset_transfer_problem(*f)->0,
            ),
        },
{
    let receiver = required32(&f.receiver, "receiver should be 32 byte public key")?;
    let asset_sender = optional32(&f.asset_sender, "asset sender should be 32 byte public key")?;
    let close_remainder_to = optional32(
        &f.close_remainder_to,
        "close remainder to should be 32 byte public key",
    )?;
    Ok(
        AssetTransferFields {
            header,
            asset_id: f.asset_id,
            amount: f.amount,
            receiver,
            asset_sender,
            close_remainder_to,
        },
    )
}

/// Converts a canonical header back into wire form; it cannot fail.
pub fn header_from_canonical(c: Header) -> (r: TransactionHeader)
    ensures
        header_matches(r, c),
{
    TransactionHeader {
        transaction_type: c.transaction_type,
        sender: bytes_of(&c.sender),
        fee: c.fee,
        first_valid: c.first_valid,
        last_valid: c.last_valid,
        genesis_hash: optional_bytes(&c.genesis_hash),
        genesis_id: c.genesis_id,
        note: c.note,
        rekey_to: optional_bytes(&c.rekey_to),
        lease: optional_bytes(&c.lease),
        group: optional_bytes(&c.group),
    }
}

/// The wire payment group of a canonical payment.
pub fn pay_fields_from_canonical(p: &PaymentFields) -> (r: PayTransactionFields)
    ensures
        r.receiver@ == p.receiver@,
        r.amount == p.amount,
        opt_bytes(r.close_remainder_to) == opt_fixed(p.close_remainder_to),
{
    PayTransactionFields {
        receiver: bytes_of(&p.receiver),
        amount: p.amount,
        close_remainder_to: optional_bytes(&p.close_remainder_to),
    }
}

/// The wire asset transfer group of a canonical asset transfer.
pub fn asset_transfer_fields_from_canonical(a: &AssetTransferFields) -> (r:
    AssetTransferTransactionFields)
    ensures
        r.asset_id == a.asset_id,
        r.amount == a.amount,
        r.receiver@ == a.receiver@,
        opt_bytes(r.asset_sender) == opt_fixed(a.asset_sender),
        opt_bytes(r.close_remainder_to) == opt_fixed(a.close_remainder_to),
{
    AssetTransferTransactionFields {
        asset_id: a.asset_id,
        amount: a.amount,
        receiver: bytes_of(&a.receiver),
        asset_sender: optional_bytes(&a.asset_sender),
        close_remainder_to: optional_bytes(&a.close_remainder_to),
    }
}

/// Converts a canonical transaction back into wire form: the group of its
/// variant is present and the other absent. It cannot fail.
pub fn transaction_from_canonical(c: CanonicalTransaction) -> (r: Transaction)
    ensures
        transaction_matches(r, c),
{
    match c {
        CanonicalTransaction::Payment(p) => {
            let pay_fields = pay_fields_from_canonical(&p);
            Transaction {
                header: header_from_canonical(p.header),
                pay_fields: Some(pay_fields),
                asset_transfer_fields: None,
            }
        },
        CanonicalTransaction::AssetTransfer(a) => {
            let fields = asset_transfer_fields_from_canonical(&a);
            Transaction {
                header: header_from_canonical(a.header),
                pay_fields: None,
                asset_transfer_fields: Some(fields),
            }
        },
    }
}

/// A wire transaction has a canonical form exactly when one field group is
/// present and every 32-byte field holds 32 bytes.
pub proof fn lemma_convertible(w: Transaction)
    ensures
        transaction_problem(w) is None <==> {
            &&& (w.pay_fields is Some) != (w.asset_transfer_fields is Some)
            &&& fits32(w.header.sender@)
            &&& opt_fits32(w.header.genesis_hash)
            &&& opt_fits32(w.header.rekey_to)
            &&& opt_fits32(w.header.lease)
            &&& opt_fits32(w.header.group)
            &&& match w.pay_fields {
                Some(f) => fits32(f.receiver@) && opt_fits32(f.close_remainder_to),
                None => true,
            }
            &&& match w.asset_transfer_fields {
                Some(f) => fits32(f.receiver@) && opt_fits32(f.asset_sender) && opt_fits32(
                    f.close_remainder_to,
                ),
                None => true,
            }
        },
{
}

/// Round trip: a wire transaction and the wire form of its canonical form
/// hold the same values. Any two wire transactions that match one canonical
/// transaction are the same.
pub proof fn lemma_round_trip(w: Transaction, c: CanonicalTransaction, back: Transaction)
    requires
        transaction_matches(w, c),
        transaction_matches(back, c),
    ensures
        same_transaction(w, back),
{
}

/// The wire form of a canonical transaction always converts back: it has one
/// field group and every 32-byte field holds 32 bytes.
pub proof fn lemma_wire_form_converts(w: Transaction, c: CanonicalTransaction)
    requires
        transaction_matches(w, c),
    ensures
        transaction_problem(w) is None,
{
}

} // verus!
