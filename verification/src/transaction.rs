//! The transaction request that callers hand in for signing.

use vstd::prelude::*;
use crate::primitives::{Address, U256};

verus! {

/// A transaction as the caller submits it: every field is optional until signing time.
#[derive(Clone, Debug, PartialEq, Eq)]
pub struct UnsignedTransaction {
    /// The account that the transaction is sent from.
    pub from: Option<Address>,
    /// The recipient; `None` creates a contract.
    pub to: Option<Address>,
    /// The gas limit.
    pub gas_limit: Option<U256>,
    /// The price offered per unit of gas.
    pub gas_price: Option<U256>,
    /// The amount transferred.
    pub value: Option<U256>,
    /// The call data.
    pub data: Option<Vec<u8>>,
    /// The sender's sequence number.
    pub nonce: Option<U256>,
    /// The network that the transaction is meant for.
    pub chain_id: Option<u64>,
}

/// What a transaction is, as numbers and byte sequences.
pub struct TransactionView {
    pub from: Option<Seq<u8>>,
    pub to: Option<Seq<u8>>,
    pub gas_limit: Option<nat>,
    pub gas_price: Option<nat>,
    pub value: Option<nat>,
    pub data: Option<Seq<u8>>,
    pub nonce: Option<nat>,
    pub chain_id: Option<u64>,
}

/// The view of an optional address.
pub open spec fn address_view(address: Option<Address>) -> Option<Seq<u8>> {
    match address {
        Some(a) => Some(a@),
        None => None,
    }
}

/// The view of an optional 256-bit integer.
pub open spec fn word_view(word: Option<U256>) -> Option<nat> {
    match word {
        Some(w) => Some(w@),
        None => None,
    }
}

/// The view of optional call data.
pub open spec fn data_view(data: Option<Vec<u8>>) -> Option<Seq<u8>> {
    match data {
        Some(d) => Some(d@),
        None => None,
    }
}

impl View for UnsignedTransaction {
    type V = TransactionView;

    open spec fn view(&self) -> TransactionView {
        TransactionView {
            from: address_view(self.from),
            to: address_view(self.to),
            gas_limit: word_view(self.gas_limit),
            gas_price: word_view(self.gas_price),
            value: word_view(self.value),
            data: data_view(self.data),
            nonce: word_view(self.nonce),
            chain_id: self.chain_id,
        }
    }
}

impl TransactionView {
    /// The transaction with every field absent.
    pub open spec fn empty() -> TransactionView {
        TransactionView {
            from: None,
            to: None,
            gas_limit: None,
            gas_price: None,
            value: None,
            data: None,
            nonce: None,
            chain_id: None,
        }
    }

    /// This transaction, declared for network `chain_id`.
    pub open spec fn on_chain(self, chain_id: u64) -> TransactionView {
        TransactionView { chain_id: Some(chain_id), ..self }
    }
}

impl UnsignedTransaction {
    /// A transaction with every field absent.
    pub fn new() -> (tx: UnsignedTransaction)
        ensures
            tx@ == TransactionView::empty(),
    {
        UnsignedTransaction {
            from: None,
            to: None,
            gas_limit: None,
            gas_price: None,
            value: None,
            data: None,
            nonce: None,
            chain_id: None,
        }
    }
}

} // verus!
