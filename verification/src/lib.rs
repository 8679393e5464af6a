//! Signer selection and transaction finalization for a signing middleware.
//!
//! The middleware wraps a network client together with a pool of signers.
//! Signing a transaction takes two steps around the one call that leaves the
//! library. [`OctopusMiddlewear::prepare`] selects the signer, reconciles the
//! network that the transaction names with the signer's, and checks that the
//! required fields are there; it returns either a [`SigningRequest`] or the
//! refusal that applies. The caller asks the selected signer for a signature
//! over the request's transaction, and [`SigningRequest::complete`] turns the
//! signer's answer into the signed encoding or into the signer's failure.
//! Every other request goes to the wrapped client, and [`forward`] passes its
//! answer on.

pub mod encoding;
pub mod error;
pub mod middleware;
pub mod primitives;
pub mod signer;
pub mod transaction;

pub use error::OctopusMiddlewareError;
pub use middleware::{
    check_required_fields, forward, reconcile_chain_id, OctopusMiddlewear, SigningRequest,
};
pub use primitives::{Address, Signature, U256};
pub use signer::{MultiSigner, SignerIdentity};
pub use transaction::UnsignedTransaction;
