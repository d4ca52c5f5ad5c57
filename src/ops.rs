use vstd::prelude::*;
use vstd::string::StringExecFns;
use vstd::array::ArrayAdditionalExecFns;
use crate::types::{kind_of, CanonicalTransaction, MsgPackError, SignedTransaction, TransactionType};
use crate::convert::is_decoding_error;

verus! {

broadcast use vstd::array::group_array_axioms;

pub open spec fn signature_msg() -> Seq<char> {
    "signature should be 64 bytes"@
}

/// The kind of a decoded transaction.
pub fn transaction_type_of(tx: &CanonicalTransaction) -> (r: TransactionType)
    ensures
        r == kind_of(*tx),
{
    match tx {
        CanonicalTransaction::Payment(_) => TransactionType::Payment,
        CanonicalTransaction::AssetTransfer(_) => TransactionType::AssetTransfer,
    }
}

/// Copies a buffer into a 64-byte array when it has exactly 64 bytes.
pub fn fixed64(b: &[u8]) -> (r: Option<[u8; 64]>)
    ensures
        match r {
            Some(a) => b@.len() == 64 && a@ == b@,
            None => b@.len() != 64,
        },
{
    if b.len() != 64 {
        return None;
    }
    let mut a = [0u8; 64];
    let mut i: usize = 0;
    while i < 64
        invariant
            i <= 64,
            b@.len() == 64,
            forall|j: int| 0 <= j < i ==> a@[j] == b@[j],
        decreases 64 - i,
    {
        a.set(i, b[i]);
        i += 1;
    }
    assert(a@ =~= b@);
    Some(a)
}

/// Pairs a transaction with its signature. A signature of any length but 64
/// bytes is refused with a decoding error, and the transaction is dropped.
pub fn sign_transaction(tx: CanonicalTransaction, signature: &[u8]) -> (r: Result<
    SignedTransaction,
    MsgPackError,
>)
    ensures
        match r {
            Ok(s) => signature@.len() == 64 && s.signature@ == signature@ && s.transaction == tx,
            Err(e) => signature@.len() != 64 && is_decoding_error(e, signature_msg()),
        },
{
    match fixed64(signature) {
        Some(sig) => Ok(SignedTransaction { transaction: tx, signature: sig }),
        None => Err(MsgPackError::DecodingError(String::from_str("signature should be 64 bytes"))),
    }
}

} // verus!
