//! The signed wire encoding, which the transaction format's own encoder produces.

use vstd::prelude::*;
use ethers_core::types as wire;
use crate::primitives::{Address, Signature, SignatureView, U256};
use crate::transaction::{TransactionView, UnsignedTransaction};

verus! {

/// The canonical signed encoding of a transaction together with a signature
/// over it: the bytes that the encoder of ethers-core gives for them.
pub uninterp spec fn signed_encoding(tx: TransactionView, signature: SignatureView) -> Seq<u8>;

/// `TransactionRequest::rlp_signed` of ethers-core, called on the legacy
/// transaction request that has the fields of `tx` and on the signature that
/// has the scalars of `signature`.
///
/// Nothing is proved of the bytes. The contract gives them their name, which
/// it may because the encoder computes them from its two arguments alone: it
/// reads the nonce, the gas price, the gas limit, the recipient, the value and
/// the data of the request and the three parts of the signature, and the views
/// determine all of these. The encoder does not fail: it opens a list of nine
/// items and appends exactly nine. It writes nothing for a recipient given by
/// name; a recipient here is always an address.
#[verifier::external_body]
pub(crate) fn rlp_signed(tx: &UnsignedTransaction, signature: &Signature) -> (bytes: Vec<u8>)
    ensures
        bytes@ == signed_encoding(tx@, signature@),
{
    let word = |w: U256| wire::U256(w.limbs);
    let account = |a: Address| wire::H160(a.bytes);
    let request = wire::TransactionRequest {
        from: tx.from.map(account),
        to: tx.to.map(account).map(wire::NameOrAddress::Address),
        gas: tx.gas_limit.map(word),
        gas_price: tx.gas_price.map(word),
        value: tx.value.map(word),
        data: tx.data.clone().map(wire::Bytes::from),
        nonce: tx.nonce.map(word),
        chain_id: tx.chain_id.map(wire::U64::from),
    };
    let signature = wire::Signature { r: word(signature.r), s: word(signature.s), v: signature.v };
    request.rlp_signed(&signature).to_vec()
}

} // verus!
