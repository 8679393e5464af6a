//! The pool of signers and the rule that picks one for a transaction.

use vstd::prelude::*;
use crate::error::OctopusMiddlewareError;
use crate::primitives::Address;
use crate::transaction::UnsignedTransaction;

verus! {

/// What a signer reports of itself: the account it signs for and the network
/// it is authorized on.
#[derive(Clone, Copy, Debug, PartialEq, Eq)]
pub struct SignerIdentity {
    pub address: Address,
    pub chain_id: u64,
}

impl SignerIdentity {
    /// The identity of a signer for `address` on network `chain_id`.
    pub fn new(address: Address, chain_id: u64) -> (identity: SignerIdentity)
        ensures
            identity.address@ == address@,
            identity.chain_id == chain_id,
    {
        SignerIdentity { address, chain_id }
    }
}

/// An ordered pool of signers.
#[derive(Clone, Debug)]
pub struct MultiSigner<S> {
    pub signers: Vec<S>,
    pub indicies: usize,
}

impl<S> MultiSigner<S> {
    /// The recorded count is the number of signers held.
    pub open spec fn wf(&self) -> bool {
        self.indicies == self.signers@.len()
    }

    /// A pool of the given signers, in the given order.
    pub fn new(signers: Vec<S>) -> (pool: MultiSigner<S>)
        ensures
            pool.signers == signers,
            pool.indicies == signers@.len(),
            pool.wf(),
    {
        let indicies = signers.len();
        MultiSigner { signers, indicies }
    }

    /// The number of signers in the pool.
    pub fn len(&self) -> (count: usize)
        ensures
            count == self.signers@.len(),
    {
        self.signers.len()
    }

    /// Whether the pool holds no signer, so that nothing can be signed with it.
    pub fn is_empty(&self) -> (empty: bool)
        ensures
            empty == (self.signers@.len() == 0),
    {
        self.signers.len() == 0
    }

    /// The signer at `index`, if the pool has one there.
    pub fn get(&self, index: usize) -> (signer: Option<&S>)
        ensures
            index < self.signers@.len() ==> signer == Some(&self.signers@[index as int]),
            index >= self.signers@.len() ==> signer is None,
    {
        if index < self.signers.len() {
            Some(&self.signers[index])
        } else {
            None
        }
    }
}

/// Whether the signer at `index` is the one to use for a transaction sent
/// from `from`: with no sender named it is the first signer of the pool, else
/// the first signer whose address is the sender's.
pub open spec fn selects(pool: Seq<SignerIdentity>, from: Option<Seq<u8>>, index: int) -> bool {
    &&& 0 <= index < pool.len()
    &&& match from {
        None => index == 0,
        Some(sender) => {
            &&& pool[index].address@ == sender
            &&& forall|earlier: int|
                0 <= earlier < index ==> (#[trigger] pool[earlier]).address@ != sender
        },
    }
}

/// The index of the signer to use for a transaction sent from `from`, if the
/// pool has one.
pub open spec fn selection(pool: Seq<SignerIdentity>, from: Option<Seq<u8>>) -> Option<int> {
    if exists|index: int| selects(pool, from, index) {
        Some(choose|index: int| selects(pool, from, index))
    } else {
        None
    }
}

/// At most one signer is selected: the choice is no matter of chance.
pub proof fn selection_is_unique(
    pool: Seq<SignerIdentity>,
    from: Option<Seq<u8>>,
    first: int,
    second: int,
)
    requires
        selects(pool, from, first),
        selects(pool, from, second),
    ensures
        first == second,
{
    if first < second {
        assert(pool[first].address@ != from->0);
    } else if second < first {
        assert(pool[second].address@ != from->0);
    }
}

/// A signer that `selects` admits is the pool's selection.
pub proof fn selection_is_the_selected(pool: Seq<SignerIdentity>, from: Option<Seq<u8>>, index: int)
    requires
        selects(pool, from, index),
    ensures
        selection(pool, from) == Some(index),
{
    let chosen = choose|i: int| selects(pool, from, i);
    selection_is_unique(pool, from, index, chosen);
}

/// With no sender named, the first signer is the default: it is selected
/// whenever the pool has a signer at all.
pub proof fn first_signer_is_the_default(pool: Seq<SignerIdentity>)
    ensures
        pool.len() > 0 ==> selection(pool, None) == Some(0int),
        pool.len() == 0 ==> selection(pool, None) is None,
{
    if pool.len() > 0 {
        selection_is_the_selected(pool, None, 0);
    }
}

/// A named sender selects a signer exactly when some signer of the pool has
/// the sender's address, and the one selected has it.
pub proof fn sender_selects_its_signer(pool: Seq<SignerIdentity>, sender: Seq<u8>)
    ensures
        selection(pool, Some(sender)) is Some <==> exists|index: int|
            0 <= index < pool.len() && (#[trigger] pool[index]).address@ == sender,
        selection(pool, Some(sender)) matches Some(index) ==> 0 <= index < pool.len()
            && pool[index].address@ == sender,
{
    if exists|index: int| 0 <= index < pool.len() && (#[trigger] pool[index]).address@ == sender {
        let owner = choose|index: int|
            0 <= index < pool.len() && (#[trigger] pool[index]).address@ == sender;
        first_owner_exists(pool, sender, owner);
    }
    if selection(pool, Some(sender)) is Some {
        let index = selection(pool, Some(sender))->0;
        assert(selects(pool, Some(sender), index));
        assert(pool[index].address@ == sender);
    }
}

/// Where some signer has the sender's address, one of them is the first.
proof fn first_owner_exists(pool: Seq<SignerIdentity>, sender: Seq<u8>, owner: int)
    requires
        0 <= owner < pool.len(),
        pool[owner].address@ == sender,
    ensures
        exists|index: int| selects(pool, Some(sender), index),
    decreases owner,
{
    if forall|earlier: int| 0 <= earlier < owner ==> (#[trigger] pool[earlier]).address@ != sender {
        assert(selects(pool, Some(sender), owner));
    } else {
        let earlier = choose|earlier: int|
            0 <= earlier < owner && (#[trigger] pool[earlier]).address@ == sender;
        first_owner_exists(pool, sender, earlier);
    }
}

impl MultiSigner<SignerIdentity> {
    /// Picks the signer for `tx`: the first of the pool where `tx` names no
    /// sender, else the first whose address is the sender's. Fails with
    /// `WrongSigner` where the pool has no such signer; an empty pool has none
    /// for any transaction.
    pub fn select_for<ME, SE>(&self, tx: &UnsignedTransaction) -> (chosen: Result<
        usize,
        OctopusMiddlewareError<ME, SE>,
    >)
        ensures
            match chosen {
                Ok(index) => selects(self.signers@, tx@.from, index as int) && selection(
                    self.signers@,
                    tx@.from,
                ) == Some(index as int),
                Err(refusal) => refusal is WrongSigner && selection(self.signers@, tx@.from)
                    is None,
            },
    {
        match &tx.from {
            None => {
                if self.signers.len() > 0 {
                    proof {
                        selection_is_the_selected(self.signers@, tx@.from, 0);
                    }
                    Ok(0)
                } else {
                    Err(OctopusMiddlewareError::WrongSigner)
                }
            },
            Some(sender) => {
                let mut index: usize = 0;
                while index < self.signers.len()
                    invariant
                        index <= self.signers@.len(),
                        tx@.from == Some(sender@),
                        forall|earlier: int|
                            0 <= earlier < index ==> (#[trigger] self.signers@[earlier]).address@
                                != sender@,
                    decreases self.signers@.len() - index,
                {
                    if self.signers[index].address.same_as(sender) {
                        proof {
                            selection_is_the_selected(self.signers@, tx@.from, index as int);
                        }
                        return Ok(index);
                    }
                    index += 1;
                }
                Err(OctopusMiddlewareError::WrongSigner)
            },
        }
    }
}

} // verus!
