//! Why a request to the middleware failed.

use vstd::prelude::*;

verus! {

/// Error thrown when the client interacts with the blockchain.
///
/// `ME` is the error of the wrapped client and `SE` the error of a signer, so
/// that a failure of either keeps its cause and stays apart from the
/// middleware's own refusals.
#[derive(Clone, Debug, PartialEq, Eq)]
pub enum OctopusMiddlewareError<ME, SE> {
    /// Thrown when the internal call to the signer fails
    SignerError(SE),
    /// Thrown when an internal middleware errors
    MiddlewareError(ME),
    /// Thrown if the `nonce` field is missing
    NonceMissing,
    /// Thrown if the `gas_price` field is missing
    GasPriceMissing,
    /// Thrown if the `gas` field is missing
    GasMissing,
    /// Thrown if a signature is requested from a different address
    WrongSigner,
    /// Thrown if the signer's chain_id is different than the chain_id of the transaction
    DifferentChainID,
}

impl<ME, SE> OctopusMiddlewareError<ME, SE> {
    /// Whether the middleware itself refused the request, before any signer or
    /// client was asked.
    pub open spec fn is_refusal(self) -> bool {
        !(self is SignerError) && !(self is MiddlewareError)
    }

    /// Wraps a failure of the wrapped client.
    pub fn from(src: ME) -> (error: Self)
        ensures
            error == OctopusMiddlewareError::<ME, SE>::MiddlewareError(src),
    {
        OctopusMiddlewareError::MiddlewareError(src)
    }

    /// Whether the middleware itself refused the request.
    pub fn is_validation_failure(&self) -> (refused: bool)
        ensures
            refused == self.is_refusal(),
    {
        match self {
            OctopusMiddlewareError::SignerError(_) => false,
            OctopusMiddlewareError::MiddlewareError(_) => false,
            _ => true,
        }
    }

    /// The text that describes one of the middleware's own refusals; `None`
    /// for a wrapped failure, which is described by its cause.
    pub fn message(&self) -> (text: Option<&'static str>)
        ensures
            text is Some <==> self.is_refusal(),
            *self is NonceMissing ==> text == Some("no nonce was specified"),
            *self is GasPriceMissing ==> text == Some("no gas price was specified"),
            *self is GasMissing ==> text == Some("no gas was specified"),
            *self is WrongSigner ==> text == Some("specified from address is not signer"),
            *self is DifferentChainID ==> text == Some(
                "specified chain_id is different than the signer's chain_id",
            ),
    {
        match self {
            OctopusMiddlewareError::SignerError(_) => None,
            OctopusMiddlewareError::MiddlewareError(_) => None,
            OctopusMiddlewareError::NonceMissing => Some("no nonce was specified"),
            OctopusMiddlewareError::GasPriceMissing => Some("no gas price was specified"),
            OctopusMiddlewareError::GasMissing => Some("no gas was specified"),
            OctopusMiddlewareError::WrongSigner => Some("specified from address is not signer"),
            OctopusMiddlewareError::DifferentChainID => Some(
                "specified chain_id is different than the signer's chain_id",
            ),
        }
    }
}

} // verus!
