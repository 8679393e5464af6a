//! The middleware and its protocol for finalizing and signing a transaction.

use vstd::prelude::*;
use crate::encoding::{rlp_signed, signed_encoding};
use crate::error::OctopusMiddlewareError;
use crate::primitives::{Signature, SignatureView};
use crate::signer::{selection, MultiSigner, SignerIdentity};
use crate::transaction::{TransactionView, UnsignedTransaction};

verus! {

/// A client wrapped together with the pool of signers that sign for it.
#[derive(Clone, Debug)]
pub struct OctopusMiddlewear<M, S> {
    pub(crate) inner: M,
    pub(crate) multisigner: MultiSigner<S>,
}

impl<M, S> OctopusMiddlewear<M, S> {
    /// The wrapped client.
    pub closed spec fn client(&self) -> M {
        self.inner
    }

    /// The pool of signers.
    pub closed spec fn pool(&self) -> MultiSigner<S> {
        self.multisigner
    }

    /// Wraps `inner` together with the signers of `multisigner`.
    pub fn new(inner: M, multisigner: MultiSigner<S>) -> (middleware: OctopusMiddlewear<M, S>)
        ensures
            middleware.client() == inner,
            middleware.pool() == multisigner,
    {
        OctopusMiddlewear { inner, multisigner }
    }

    /// The wrapped client, to which every request but signing goes unchanged.
    pub fn inner(&self) -> (client: &M)
        ensures
            *client == self.client(),
    {
        &self.inner
    }

    /// The pool of signers.
    pub fn multisigner(&self) -> (pool: &MultiSigner<S>)
        ensures
            *pool == self.pool(),
    {
        &self.multisigner
    }

    /// Takes the middleware apart again.
    pub fn into_parts(self) -> (parts: (M, MultiSigner<S>))
        ensures
            parts.0 == self.client(),
            parts.1 == self.pool(),
    {
        (self.inner, self.multisigner)
    }
}

/// The transaction made consistent with the network of its signer: one that
/// names no network is declared for the signer's, one that names the signer's
/// stays as it is, and one that names another has no consistent form.
pub open spec fn reconciled(tx: TransactionView, signer_chain_id: u64) -> Option<TransactionView> {
    match tx.chain_id {
        None => Some(tx.on_chain(signer_chain_id)),
        Some(declared) => if declared == signer_chain_id {
            Some(tx)
        } else {
            None
        },
    }
}

/// The first required field that `tx` lacks, as the error that reports it:
/// the nonce, then the gas price, then the gas limit.
pub open spec fn missing_field<ME, SE>(tx: TransactionView) -> Option<OctopusMiddlewareError<ME, SE>> {
    if tx.nonce is None {
        Some(OctopusMiddlewareError::NonceMissing)
    } else if tx.gas_price is None {
        Some(OctopusMiddlewareError::GasPriceMissing)
    } else if tx.gas_limit is None {
        Some(OctopusMiddlewareError::GasMissing)
    } else {
        None
    }
}

/// Whether `tx` is in the form that a signer is asked to sign: declared for
/// a network, with its nonce, gas price and gas limit.
pub open spec fn is_normalized(tx: TransactionView) -> bool {
    &&& tx.chain_id is Some
    &&& tx.nonce is Some
    &&& tx.gas_price is Some
    &&& tx.gas_limit is Some
}

/// A transaction that is ready for its signer: which signer of the pool is to
/// sign, and the normalized transaction that it signs. Only `prepare` makes
/// one, so a signer is never asked for a transaction that would be refused.
#[derive(Debug, PartialEq, Eq)]
pub struct SigningRequest {
    signer: usize,
    transaction: UnsignedTransaction,
}

/// What a signing request is, over the transaction's view.
pub struct SigningRequestView {
    pub signer: int,
    pub transaction: TransactionView,
}

impl View for SigningRequest {
    type V = SigningRequestView;

    closed spec fn view(&self) -> SigningRequestView {
        SigningRequestView { signer: self.signer as int, transaction: self.transaction@ }
    }
}

impl SigningRequest {
    #[verifier::type_invariant]
    spec fn holds_a_normalized_transaction(&self) -> bool {
        is_normalized(self.transaction@)
    }

    /// The place in the pool of the signer that is to sign.
    pub fn signer(&self) -> (index: usize)
        ensures
            index == self@.signer,
    {
        self.signer
    }

    /// The normalized transaction that the signer is to sign.
    pub fn transaction(&self) -> (tx: &UnsignedTransaction)
        ensures
            tx@ == self@.transaction,
            is_normalized(tx@),
    {
        proof {
            use_type_invariant(self);
        }
        &self.transaction
    }
}

/// What comes of a transaction before any signer is asked: the request to hand
/// to the selected signer, or the one refusal that applies. A signer is
/// selected first, then the network is reconciled, then the required fields are
/// looked for.
pub open spec fn prepared<ME, SE>(pool: Seq<SignerIdentity>, tx: TransactionView) -> Result<
    SigningRequestView,
    OctopusMiddlewareError<ME, SE>,
> {
    match selection(pool, tx.from) {
        None => Err(OctopusMiddlewareError::WrongSigner),
        Some(signer) => match reconciled(tx, pool[signer].chain_id) {
            None => Err(OctopusMiddlewareError::DifferentChainID),
            Some(normal) => match missing_field::<ME, SE>(normal) {
                Some(refusal) => Err(refusal),
                None => Ok(SigningRequestView { signer, transaction: normal }),
            },
        },
    }
}

/// The signer's answer over the signature's view.
pub open spec fn answer_view<SE>(outcome: Result<Signature, SE>) -> Result<SignatureView, SE> {
    match outcome {
        Ok(signature) => Ok(signature@),
        Err(cause) => Err(cause),
    }
}

/// What comes of a signing request once its signer has answered: the signed
/// encoding of the normalized transaction, or the signer's failure with its
/// cause.
pub open spec fn completed<ME, SE>(
    request: SigningRequestView,
    outcome: Result<SignatureView, SE>,
) -> Result<Seq<u8>, OctopusMiddlewareError<ME, SE>> {
    match outcome {
        Ok(signature) => Ok(signed_encoding(request.transaction, signature)),
        Err(cause) => Err(OctopusMiddlewareError::SignerError(cause)),
    }
}

/// What the middleware answers to a request that it only passes on: the
/// client's result, or the client's failure marked as the client's.
pub open spec fn forwarded<T, ME, SE>(outcome: Result<T, ME>) -> Result<
    T,
    OctopusMiddlewareError<ME, SE>,
> {
    match outcome {
        Ok(value) => Ok(value),
        Err(cause) => Err(OctopusMiddlewareError::MiddlewareError(cause)),
    }
}

/// Makes `tx` consistent with the network of its signer. A transaction that
/// names another network is refused with `DifferentChainID` and left as it is;
/// one that names none is declared for the signer's network.
pub fn reconcile_chain_id<ME, SE>(tx: &mut UnsignedTransaction, signer_chain_id: u64) -> (done:
    Result<(), OctopusMiddlewareError<ME, SE>>)
    ensures
        match reconciled(old(tx)@, signer_chain_id) {
            Some(normal) => done is Ok && final(tx)@ == normal,
            None => done == Err::<(), OctopusMiddlewareError<ME, SE>>(
                OctopusMiddlewareError::DifferentChainID,
            ) && final(tx)@ == old(tx)@,
        },
{
    match tx.chain_id {
        Some(declared) => {
            if declared != signer_chain_id {
                return Err(OctopusMiddlewareError::DifferentChainID);
            }
        },
        None => {
            tx.chain_id = Some(signer_chain_id);
        },
    }
    Ok(())
}

/// Looks for the fields that signing requires: the nonce, the gas price and
/// the gas limit, reported in that order.
pub fn check_required_fields<ME, SE>(tx: &UnsignedTransaction) -> (done: Result<
    (),
    OctopusMiddlewareError<ME, SE>,
>)
    ensures
        match missing_field::<ME, SE>(tx@) {
            Some(refusal) => done == Err::<(), OctopusMiddlewareError<ME, SE>>(refusal),
            None => done is Ok,
        },
{
    if tx.nonce.is_none() {
        Err(OctopusMiddlewareError::NonceMissing)
    } else if tx.gas_price.is_none() {
        Err(OctopusMiddlewareError::GasPriceMissing)
    } else if tx.gas_limit.is_none() {
        Err(OctopusMiddlewareError::GasMissing)
    } else {
        Ok(())
    }
}

impl<M> OctopusMiddlewear<M, SignerIdentity> {
    /// The first half of signing `tx`, up to the point where the signer is
    /// asked: selects the signer, reconciles the network and checks the
    /// required fields. Every refusal is returned from here, so that a signer
    /// is only ever asked for a request that this function has returned.
    pub fn prepare<ME, SE>(&self, tx: UnsignedTransaction) -> (request: Result<
        SigningRequest,
        OctopusMiddlewareError<ME, SE>,
    >)
        ensures
            match prepared::<ME, SE>(self.pool().signers@, tx@) {
                Ok(ready) => request is Ok && request->Ok_0@ == ready,
                Err(refusal) => request == Err::<SigningRequest, OctopusMiddlewareError<ME, SE>>(
                    refusal,
                ),
            },
    {
        let mut normal = tx;
        let signer = match self.multisigner.select_for::<ME, SE>(&normal) {
            Ok(signer) => signer,
            Err(refusal) => {
                return Err(refusal);
            },
        };
        match reconcile_chain_id::<ME, SE>(&mut normal, self.multisigner.signers[signer].chain_id) {
            Ok(()) => {},
            Err(refusal) => {
                return Err(refusal);
            },
        }
        match check_required_fields::<ME, SE>(&normal) {
            Ok(()) => {},
            Err(refusal) => {
                return Err(refusal);
            },
        }
        Ok(SigningRequest { signer, transaction: normal })
    }

    /// Signs `tx` with a signer that answers at once: `sign` stands for the
    /// pool's signers and gives the selected signer's answer to a request.
    ///
    /// `sign` has to accept the request that `prepare` returns for `tx` and
    /// nothing else, so it is asked for no other; where `tx` is refused it may
    /// be a signer that cannot be asked at all, and the refusal is returned
    /// without it.
    pub fn sign_transaction<ME, SE, F>(&self, tx: UnsignedTransaction, sign: F) -> (signed: Result<
        Vec<u8>,
        OctopusMiddlewareError<ME, SE>,
    >) where F: FnOnce(&SigningRequest) -> Result<Signature, SE>
        requires
            forall|request: &SigningRequest|
                prepared::<ME, SE>(self.pool().signers@, tx@) == Ok::<
                    SigningRequestView,
                    OctopusMiddlewareError<ME, SE>,
                >(request@) ==> call_requires(sign, (request,)),
        ensures
            match prepared::<ME, SE>(self.pool().signers@, tx@) {
                Err(refusal) => signed == Err::<Vec<u8>, OctopusMiddlewareError<ME, SE>>(refusal),
                Ok(ready) => exists|request: &SigningRequest, outcome: Result<Signature, SE>|
                    {
                        &&& request@ == ready
                        &&& #[trigger] call_ensures(sign, (request,), outcome)
                        &&& match completed::<ME, SE>(ready, answer_view(outcome)) {
                            Ok(bytes) => signed is Ok && signed->Ok_0@ == bytes,
                            Err(failure) => signed == Err::<
                                Vec<u8>,
                                OctopusMiddlewareError<ME, SE>,
                            >(failure),
                        }
                    },
            },
    {
        let request = match self.prepare::<ME, SE>(tx) {
            Ok(request) => request,
            Err(refusal) => {
                return Err(refusal);
            },
        };
        let outcome = sign(&request);
        request.complete(outcome)
    }
}

impl SigningRequest {
    /// The second half of signing, on the signer's answer: a signature is
    /// combined with the normalized transaction into the signed encoding, and a
    /// failure of the signer is returned as `SignerError` with its cause.
    pub fn complete<ME, SE>(&self, outcome: Result<Signature, SE>) -> (signed: Result<
        Vec<u8>,
        OctopusMiddlewareError<ME, SE>,
    >)
        ensures
            match completed::<ME, SE>(self@, answer_view(outcome)) {
                Ok(bytes) => signed is Ok && signed->Ok_0@ == bytes,
                Err(failure) => signed == Err::<Vec<u8>, OctopusMiddlewareError<ME, SE>>(failure),
            },
    {
        match outcome {
            Ok(signature) => Ok(rlp_signed(&self.transaction, &signature)),
            Err(cause) => Err(OctopusMiddlewareError::SignerError(cause)),
        }
    }
}

/// Passes on what the wrapped client answered to a request that involves no
/// signing: a result as it is, a failure as `MiddlewareError` with its cause.
pub fn forward<T, ME, SE>(outcome: Result<T, ME>) -> (answer: Result<T, OctopusMiddlewareError<ME, SE>>)
    ensures
        answer == forwarded::<T, ME, SE>(outcome),
{
    match outcome {
        Ok(value) => Ok(value),
        Err(cause) => Err(OctopusMiddlewareError::from(cause)),
    }
}

/// A transaction that names the network of its selected signer and has its
/// required fields is accepted as it is, and whatever signature the signer
/// gives, signing succeeds with the encoding of that transaction, which is
/// declared for that network.
pub proof fn matching_chain_id_is_signed<ME, SE>(
    pool: Seq<SignerIdentity>,
    tx: TransactionView,
    signer: int,
    signature: SignatureView,
)
    requires
        selection(pool, tx.from) == Some(signer),
        tx.chain_id == Some(pool[signer].chain_id),
        tx.nonce is Some,
        tx.gas_price is Some,
        tx.gas_limit is Some,
    ensures
        prepared::<ME, SE>(pool, tx) == Ok::<SigningRequestView, OctopusMiddlewareError<ME, SE>>(
            SigningRequestView { signer, transaction: tx },
        ),
        completed::<ME, SE>(prepared::<ME, SE>(pool, tx)->Ok_0, Ok(signature)) == Ok::<
            Seq<u8>,
            OctopusMiddlewareError<ME, SE>,
        >(signed_encoding(tx, signature)),
        prepared::<ME, SE>(pool, tx)->Ok_0.transaction.chain_id == Some(pool[signer].chain_id),
{
}

/// A transaction that names another network than that of its selected signer
/// is refused with `DifferentChainID`, whatever else it holds: no request
/// comes of it, so no signer is asked.
pub proof fn differing_chain_id_is_refused<ME, SE>(
    pool: Seq<SignerIdentity>,
    tx: TransactionView,
    signer: int,
)
    requires
        selection(pool, tx.from) == Some(signer),
        tx.chain_id is Some,
        tx.chain_id != Some(pool[signer].chain_id),
    ensures
        prepared::<ME, SE>(pool, tx) == Err::<SigningRequestView, OctopusMiddlewareError<ME, SE>>(
            OctopusMiddlewareError::DifferentChainID,
        ),
{
}

/// A transaction that names no network is signed as the same transaction
/// declared for exactly the network of its selected signer: where it has its
/// required fields it is accepted, and whenever it is accepted that is the
/// transaction handed to the signer and encoded.
pub proof fn absent_chain_id_is_filled<ME, SE>(
    pool: Seq<SignerIdentity>,
    tx: TransactionView,
    signer: int,
    signature: SignatureView,
)
    requires
        selection(pool, tx.from) == Some(signer),
        tx.chain_id is None,
    ensures
        tx.nonce is Some && tx.gas_price is Some && tx.gas_limit is Some <==> prepared::<ME, SE>(
            pool,
            tx,
        ) is Ok,
        prepared::<ME, SE>(pool, tx) is Ok ==> {
            let ready = prepared::<ME, SE>(pool, tx)->Ok_0;
            &&& ready.signer == signer
            &&& ready.transaction == tx.on_chain(pool[signer].chain_id)
            &&& ready.transaction.chain_id == Some(pool[signer].chain_id)
            &&& completed::<ME, SE>(ready, Ok(signature)) == Ok::<
                Seq<u8>,
                OctopusMiddlewareError<ME, SE>,
            >(signed_encoding(tx.on_chain(pool[signer].chain_id), signature))
        },
{
}

/// Each required field is reported by its own error when it is the one that
/// is missing: the nonce by `NonceMissing`, the gas price by
/// `GasPriceMissing`, the gas limit by `GasMissing`. This is said of a
/// transaction that has a signer in the pool and names no other network than
/// that signer's, since those two refusals come first.
pub proof fn missing_field_is_reported<ME, SE>(
    pool: Seq<SignerIdentity>,
    tx: TransactionView,
    signer: int,
)
    requires
        selection(pool, tx.from) == Some(signer),
        tx.chain_id is None || tx.chain_id == Some(pool[signer].chain_id),
    ensures
        tx.nonce is None ==> prepared::<ME, SE>(pool, tx) == Err::<
            SigningRequestView,
            OctopusMiddlewareError<ME, SE>,
        >(OctopusMiddlewareError::NonceMissing),
        tx.nonce is Some && tx.gas_price is None ==> prepared::<ME, SE>(pool, tx) == Err::<
            SigningRequestView,
            OctopusMiddlewareError<ME, SE>,
        >(OctopusMiddlewareError::GasPriceMissing),
        tx.nonce is Some && tx.gas_price is Some && tx.gas_limit is None ==> prepared::<ME, SE>(
            pool,
            tx,
        ) == Err::<SigningRequestView, OctopusMiddlewareError<ME, SE>>(
            OctopusMiddlewareError::GasMissing,
        ),
{
}

/// The three required fields are looked for independently of everything else
/// in the transaction: none is reported missing exactly when all three are
/// there, and the one reported is always one that is absent.
pub proof fn required_fields_are_independent<ME, SE>(tx: TransactionView)
    ensures
        missing_field::<ME, SE>(tx) is None <==> tx.nonce is Some && tx.gas_price is Some
            && tx.gas_limit is Some,
        missing_field::<ME, SE>(tx) == Some(OctopusMiddlewareError::<ME, SE>::NonceMissing)
            ==> tx.nonce is None,
        missing_field::<ME, SE>(tx) == Some(OctopusMiddlewareError::<ME, SE>::GasPriceMissing)
            ==> tx.gas_price is None,
        missing_field::<ME, SE>(tx) == Some(OctopusMiddlewareError::<ME, SE>::GasMissing)
            ==> tx.gas_limit is None,
{
}

/// Every failure that comes before the signer is asked is one of the
/// middleware's own refusals, and a request that comes instead names a signer
/// of the pool and a transaction declared for that signer's network with all
/// its required fields.
pub proof fn prepared_is_refused_or_ready<ME, SE>(pool: Seq<SignerIdentity>, tx: TransactionView)
    ensures
        match prepared::<ME, SE>(pool, tx) {
            Err(refusal) => refusal.is_refusal(),
            Ok(ready) => {
                &&& 0 <= ready.signer < pool.len()
                &&& selection(pool, tx.from) == Some(ready.signer)
                &&& ready.transaction.chain_id == Some(pool[ready.signer].chain_id)
                &&& ready.transaction.nonce is Some
                &&& ready.transaction.gas_price is Some
                &&& ready.transaction.gas_limit is Some
                &&& ready.transaction == tx.on_chain(pool[ready.signer].chain_id)
            },
        },
{
}

/// Normalizing is stable, though signing need not be: a transaction that was
/// accepted is accepted again as it is, for the same signer. Nothing is said
/// of two signatures over it, which may differ.
pub proof fn prepared_is_stable<ME, SE>(pool: Seq<SignerIdentity>, tx: TransactionView)
    requires
        prepared::<ME, SE>(pool, tx) is Ok,
    ensures
        prepared::<ME, SE>(pool, prepared::<ME, SE>(pool, tx)->Ok_0.transaction) == prepared::<ME, SE>(
            pool,
            tx,
        ),
{
}

/// Passing on loses nothing: a result comes back as that result, a failure as
/// `MiddlewareError` around that failure, and never as a refusal of the
/// middleware or as a signer's failure.
pub proof fn forwarded_is_unchanged<T, ME, SE>(outcome: Result<T, ME>)
    ensures
        outcome is Ok <==> forwarded::<T, ME, SE>(outcome) is Ok,
        outcome is Ok ==> forwarded::<T, ME, SE>(outcome)->Ok_0 == outcome->Ok_0,
        outcome is Err ==> forwarded::<T, ME, SE>(outcome)->Err_0
            == OctopusMiddlewareError::<ME, SE>::MiddlewareError(outcome->Err_0),
{
}

} // verus!
