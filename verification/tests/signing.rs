use ethers_core::k256::ecdsa::SigningKey;
use ethers_core::types::transaction::eip2718::TypedTransaction;
use ethers_core::types::{Bytes, NameOrAddress, TransactionRequest, H160, U64};
use ethers_core::utils::rlp::Rlp;
use ethers_signers::{LocalWallet, Signer};
use octopus::{
    check_required_fields, forward, reconcile_chain_id, Address, MultiSigner, OctopusMiddlewareError,
    OctopusMiddlewear, Signature, SignerIdentity, SigningRequest, UnsignedTransaction, U256,
};

type Failure = OctopusMiddlewareError<String, String>;

fn wallet(seed: u8, chain_id: u64) -> LocalWallet {
    let key = SigningKey::from_bytes(&[seed; 32]).unwrap();
    LocalWallet::from(key).with_chain_id(chain_id)
}

fn identity(wallet: &LocalWallet) -> SignerIdentity {
    SignerIdentity::new(Address::new(wallet.address().0), wallet.chain_id())
}

fn signer_x() -> SignerIdentity {
    SignerIdentity::new(Address::new([0x11; 20]), 1)
}

fn middleware(signers: Vec<SignerIdentity>) -> OctopusMiddlewear<(), SignerIdentity> {
    OctopusMiddlewear::new((), MultiSigner::new(signers))
}

fn payment() -> UnsignedTransaction {
    UnsignedTransaction {
        nonce: Some(U256::from_u64(5)),
        gas_limit: Some(U256::from_u64(21000)),
        gas_price: Some(U256::from_u64(100)),
        ..UnsignedTransaction::new()
    }
}

fn wire_request(tx: &UnsignedTransaction) -> TransactionRequest {
    TransactionRequest {
        from: tx.from.map(|a| H160(a.bytes)),
        to: tx.to.map(|a| NameOrAddress::Address(H160(a.bytes))),
        gas: tx.gas_limit.map(|w| ethers_core::types::U256(w.limbs)),
        gas_price: tx.gas_price.map(|w| ethers_core::types::U256(w.limbs)),
        value: tx.value.map(|w| ethers_core::types::U256(w.limbs)),
        data: tx.data.clone().map(Bytes::from),
        nonce: tx.nonce.map(|w| ethers_core::types::U256(w.limbs)),
        chain_id: tx.chain_id.map(U64::from),
    }
}

fn plain_signature(signature: &ethers_core::types::Signature) -> Signature {
    Signature { r: U256 { limbs: signature.r.0 }, s: U256 { limbs: signature.s.0 }, v: signature.v }
}

/// Signs with the wallets standing for the pool's signers; `asked` counts how
/// often one of them was asked for a signature.
fn sign_with(
    middleware: &OctopusMiddlewear<(), SignerIdentity>,
    wallets: &[LocalWallet],
    tx: UnsignedTransaction,
    asked: &mut usize,
) -> Result<Vec<u8>, Failure> {
    middleware.sign_transaction(tx, |request: &SigningRequest| {
        *asked += 1;
        let typed = TypedTransaction::Legacy(wire_request(request.transaction()));
        Ok(plain_signature(&wallets[request.signer()].sign_transaction_sync(&typed)))
    })
}

#[test]
fn absent_chain_id_is_signed_for_the_signers_network() {
    let signer = wallet(0x42, 1);
    let middleware = middleware(vec![identity(&signer)]);
    let mut asked = 0;
    let signed = sign_with(&middleware, &[signer.clone()], payment(), &mut asked).unwrap();
    assert_eq!(asked, 1);

    let (decoded, signature) = TypedTransaction::decode_signed(&Rlp::new(&signed)).unwrap();
    assert_eq!(decoded.chain_id(), Some(U64::from(1u64)));
    assert_eq!(decoded.nonce(), Some(&ethers_core::types::U256::from(5u64)));
    assert_eq!(decoded.gas(), Some(&ethers_core::types::U256::from(21000u64)));
    assert_eq!(decoded.gas_price(), Some(ethers_core::types::U256::from(100u64)));
    assert_eq!(decoded.from(), Some(&signer.address()));
    assert_eq!(signature.v, 37 + (signature.v - 37) % 2);
    assert!(signature.v == 37 || signature.v == 38);
}

#[test]
fn foreign_chain_id_is_refused() {
    let middleware = middleware(vec![signer_x()]);
    let tx = UnsignedTransaction { chain_id: Some(42), ..payment() };
    let request: Result<SigningRequest, Failure> = middleware.prepare(tx);
    assert_eq!(request, Err(OctopusMiddlewareError::DifferentChainID));
}

#[test]
fn absent_nonce_is_refused() {
    let middleware = middleware(vec![signer_x()]);
    let tx = UnsignedTransaction { nonce: None, ..payment() };
    let request: Result<SigningRequest, Failure> = middleware.prepare(tx);
    assert_eq!(request, Err(OctopusMiddlewareError::NonceMissing));
}

#[test]
fn matching_chain_id_is_accepted_unchanged() {
    let middleware = middleware(vec![SignerIdentity::new(Address::new([0x11; 20]), 137)]);
    let tx = UnsignedTransaction { chain_id: Some(137), ..payment() };
    let request = middleware.prepare::<String, String>(tx.clone()).unwrap();
    assert_eq!(request.signer(), 0);
    assert_eq!(*request.transaction(), tx);
}

#[test]
fn matching_chain_id_is_embedded_in_the_signed_transaction() {
    let signer = wallet(0x07, 137);
    let middleware = middleware(vec![identity(&signer)]);
    let tx = UnsignedTransaction { chain_id: Some(137), ..payment() };
    let mut asked = 0;
    let signed = sign_with(&middleware, &[signer.clone()], tx, &mut asked).unwrap();
    let (decoded, _) = TypedTransaction::decode_signed(&Rlp::new(&signed)).unwrap();
    assert_eq!(decoded.chain_id(), Some(U64::from(137u64)));
    assert_eq!(decoded.from(), Some(&signer.address()));
}

#[test]
fn absent_chain_id_becomes_the_signers() {
    let middleware = middleware(vec![SignerIdentity::new(Address::new([0x11; 20]), 56)]);
    let request = middleware.prepare::<String, String>(payment()).unwrap();
    assert_eq!(request.signer(), 0);
    assert_eq!(*request.transaction(), UnsignedTransaction { chain_id: Some(56), ..payment() });
}

#[test]
fn chain_id_is_reconciled_with_the_selected_signer() {
    let first = SignerIdentity::new(Address::new([0x01; 20]), 1);
    let second = SignerIdentity::new(Address::new([0x02; 20]), 5);
    let middleware = middleware(vec![first, second]);

    let from_second = UnsignedTransaction { from: Some(Address::new([0x02; 20])), ..payment() };
    let request = middleware.prepare::<String, String>(from_second.clone()).unwrap();
    assert_eq!(request.signer(), 1);
    assert_eq!(
        *request.transaction(),
        UnsignedTransaction { chain_id: Some(5), ..from_second.clone() }
    );

    let declared = UnsignedTransaction { chain_id: Some(1), ..from_second };
    let request: Result<SigningRequest, Failure> = middleware.prepare(declared);
    assert_eq!(request, Err(OctopusMiddlewareError::DifferentChainID));
}

#[test]
fn reconcile_fills_an_absent_chain_id_in_place() {
    let mut tx = payment();
    let done: Result<(), Failure> = reconcile_chain_id(&mut tx, 10);
    assert_eq!(done, Ok(()));
    assert_eq!(tx, UnsignedTransaction { chain_id: Some(10), ..payment() });
}

#[test]
fn reconcile_keeps_a_matching_chain_id() {
    let mut tx = UnsignedTransaction { chain_id: Some(10), ..payment() };
    let done: Result<(), Failure> = reconcile_chain_id(&mut tx, 10);
    assert_eq!(done, Ok(()));
    assert_eq!(tx, UnsignedTransaction { chain_id: Some(10), ..payment() });
}

#[test]
fn reconcile_refuses_and_leaves_a_differing_chain_id() {
    let mut tx = UnsignedTransaction { chain_id: Some(42), ..payment() };
    let done: Result<(), Failure> = reconcile_chain_id(&mut tx, 1);
    assert_eq!(done, Err(OctopusMiddlewareError::DifferentChainID));
    assert_eq!(tx, UnsignedTransaction { chain_id: Some(42), ..payment() });
}

#[test]
fn missing_nonce_alone_is_nonce_missing() {
    let tx = UnsignedTransaction { nonce: None, ..payment() };
    let done: Result<(), Failure> = check_required_fields(&tx);
    assert_eq!(done, Err(OctopusMiddlewareError::NonceMissing));
}

#[test]
fn missing_gas_price_alone_is_gas_price_missing() {
    let tx = UnsignedTransaction { gas_price: None, ..payment() };
    let done: Result<(), Failure> = check_required_fields(&tx);
    assert_eq!(done, Err(OctopusMiddlewareError::GasPriceMissing));
    let request: Result<SigningRequest, Failure> = middleware(vec![signer_x()]).prepare(tx);
    assert_eq!(request, Err(OctopusMiddlewareError::GasPriceMissing));
}

#[test]
fn missing_gas_limit_alone_is_gas_missing() {
    let tx = UnsignedTransaction { gas_limit: None, ..payment() };
    let done: Result<(), Failure> = check_required_fields(&tx);
    assert_eq!(done, Err(OctopusMiddlewareError::GasMissing));
    let request: Result<SigningRequest, Failure> = middleware(vec![signer_x()]).prepare(tx);
    assert_eq!(request, Err(OctopusMiddlewareError::GasMissing));
}

#[test]
fn all_required_fields_present_pass_the_check() {
    let done: Result<(), Failure> = check_required_fields(&payment());
    assert_eq!(done, Ok(()));
}

#[test]
fn several_missing_fields_are_reported_nonce_first() {
    let none: Result<(), Failure> = check_required_fields(&UnsignedTransaction::new());
    assert_eq!(none, Err(OctopusMiddlewareError::NonceMissing));
    let no_prices = UnsignedTransaction { gas_price: None, gas_limit: None, ..payment() };
    let done: Result<(), Failure> = check_required_fields(&no_prices);
    assert_eq!(done, Err(OctopusMiddlewareError::GasPriceMissing));
}

#[test]
fn optional_fields_are_not_required() {
    let tx = payment();
    assert_eq!(tx.to, None);
    assert_eq!(tx.value, None);
    assert_eq!(tx.data, None);
    let request: Result<SigningRequest, Failure> = middleware(vec![signer_x()]).prepare(tx);
    assert!(request.is_ok());
}

#[test]
fn foreign_chain_id_is_reported_before_missing_fields() {
    let tx = UnsignedTransaction { chain_id: Some(42), ..UnsignedTransaction::new() };
    let request: Result<SigningRequest, Failure> = middleware(vec![signer_x()]).prepare(tx);
    assert_eq!(request, Err(OctopusMiddlewareError::DifferentChainID));
}

#[test]
fn unknown_sender_is_reported_before_everything_else() {
    let tx = UnsignedTransaction {
        from: Some(Address::new([0x99; 20])),
        chain_id: Some(42),
        ..UnsignedTransaction::new()
    };
    let request: Result<SigningRequest, Failure> = middleware(vec![signer_x()]).prepare(tx);
    assert_eq!(request, Err(OctopusMiddlewareError::WrongSigner));
}

#[test]
fn refused_transactions_never_reach_a_signer() {
    let signer = wallet(0x42, 1);
    let middleware = middleware(vec![identity(&signer)]);
    let wallets = [signer];
    let mut asked = 0;

    let foreign = UnsignedTransaction { chain_id: Some(42), ..payment() };
    let signed = sign_with(&middleware, &wallets, foreign, &mut asked);
    assert_eq!(signed, Err(OctopusMiddlewareError::DifferentChainID));
    assert_eq!(asked, 0);

    let no_nonce = UnsignedTransaction { nonce: None, ..payment() };
    let signed = sign_with(&middleware, &wallets, no_nonce, &mut asked);
    assert_eq!(signed, Err(OctopusMiddlewareError::NonceMissing));
    assert_eq!(asked, 0);

    let stranger = UnsignedTransaction { from: Some(Address::new([0x99; 20])), ..payment() };
    let signed = sign_with(&middleware, &wallets, stranger, &mut asked);
    assert_eq!(signed, Err(OctopusMiddlewareError::WrongSigner));
    assert_eq!(asked, 0);
}

#[test]
fn failing_signer_is_asked_once_and_its_failure_returned() {
    let middleware = middleware(vec![signer_x()]);
    let mut asked = 0;
    let signed: Result<Vec<u8>, Failure> = middleware.sign_transaction(payment(), |request| {
        asked += 1;
        assert_eq!(request.signer(), 0);
        assert_eq!(request.transaction().chain_id, Some(1));
        Err("key unavailable".to_string())
    });
    assert_eq!(signed, Err(OctopusMiddlewareError::SignerError("key unavailable".to_string())));
    assert_eq!(asked, 1);
}

#[test]
fn signing_in_two_steps_gives_the_same_encoding() {
    let signer = wallet(0x42, 1);
    let middleware = middleware(vec![identity(&signer)]);
    let request = middleware.prepare::<String, String>(payment()).unwrap();
    let typed = TypedTransaction::Legacy(wire_request(request.transaction()));
    let signature = plain_signature(&signer.sign_transaction_sync(&typed));
    let in_steps: Result<Vec<u8>, Failure> = request.complete(Ok(signature));
    let at_once: Result<Vec<u8>, Failure> = middleware.sign_transaction(payment(), |_| Ok(signature));
    assert!(in_steps.is_ok());
    assert_eq!(in_steps, at_once);
}

#[test]
fn signer_failure_keeps_its_cause() {
    let request = middleware(vec![signer_x()]).prepare::<String, String>(payment()).unwrap();
    let signed: Result<Vec<u8>, Failure> = request.complete(Err("device locked".to_string()));
    assert_eq!(signed, Err(OctopusMiddlewareError::SignerError("device locked".to_string())));
}

#[test]
fn signed_encoding_is_the_formats_own() {
    let recipient = Address::new([0x35; 20]);
    let transaction = UnsignedTransaction {
        to: Some(recipient),
        value: Some(U256 { limbs: [0xde0b6b3a7640000, 0, 0, 0] }),
        data: Some(vec![0xca, 0xfe]),
        ..payment()
    };
    let signature = Signature {
        r: U256 { limbs: [1, 2, 3, 4] },
        s: U256 { limbs: [5, 6, 7, 8] },
        v: 37,
    };
    let request = middleware(vec![signer_x()]).prepare::<String, String>(transaction).unwrap();
    let transaction = request.transaction().clone();
    let signed: Result<Vec<u8>, Failure> = request.complete(Ok(signature));

    let wire_signature = ethers_core::types::Signature {
        r: ethers_core::types::U256([1, 2, 3, 4]),
        s: ethers_core::types::U256([5, 6, 7, 8]),
        v: 37,
    };
    let expected = TransactionRequest::new()
        .nonce(5u64)
        .gas(21000u64)
        .gas_price(100u64)
        .to(H160([0x35; 20]))
        .value(1_000_000_000_000_000_000u64)
        .data(vec![0xca, 0xfe])
        .chain_id(1u64)
        .rlp_signed(&wire_signature);
    assert_eq!(signed, Ok(expected.to_vec()));
    assert_eq!(wire_request(&transaction).rlp_signed(&wire_signature).to_vec(), expected.to_vec());
}

#[test]
fn signed_encoding_of_a_bare_payment_is_exact() {
    let request = middleware(vec![signer_x()]).prepare::<String, String>(payment()).unwrap();
    let signature = Signature { r: U256::from_u64(1), s: U256::from_u64(2), v: 37 };
    let signed: Result<Vec<u8>, Failure> = request.complete(Ok(signature));
    assert_eq!(
        signed,
        Ok(vec![0xcb, 0x05, 0x64, 0x82, 0x52, 0x08, 0x80, 0x80, 0x80, 0x25, 0x01, 0x02])
    );
}

#[test]
fn signature_changes_the_signed_encoding() {
    let request = middleware(vec![signer_x()]).prepare::<String, String>(payment()).unwrap();
    let one = Signature { r: U256::from_u64(1), s: U256::from_u64(2), v: 37 };
    let other = Signature { r: U256::from_u64(1), s: U256::from_u64(3), v: 38 };
    let first: Result<Vec<u8>, Failure> = request.complete(Ok(one));
    let second: Result<Vec<u8>, Failure> = request.complete(Ok(other));
    assert!(first.is_ok());
    assert!(second.is_ok());
    assert_ne!(first, second);
}

#[test]
fn signature_verifies_against_the_signer_and_the_normalized_transaction() {
    let signer = wallet(0x42, 1);
    let middleware = middleware(vec![identity(&signer)]);
    let request = middleware.prepare::<String, String>(payment()).unwrap();
    let typed = TypedTransaction::Legacy(wire_request(request.transaction()));
    let signature = signer.sign_transaction_sync(&typed);
    assert!(signature.verify(typed.sighash(), signer.address()).is_ok());

    let signed: Result<Vec<u8>, Failure> = request.complete(Ok(plain_signature(&signature)));
    let (decoded, recovered) = TypedTransaction::decode_signed(&Rlp::new(&signed.unwrap())).unwrap();
    assert_eq!(recovered, signature);
    assert!(recovered.verify(typed.sighash(), signer.address()).is_ok());
    assert_eq!(decoded.from(), Some(&signer.address()));
}

#[test]
fn second_signer_signs_what_is_sent_from_its_address() {
    let first = wallet(0x01, 1);
    let second = wallet(0x02, 5);
    let middleware = middleware(vec![identity(&first), identity(&second)]);
    let tx = UnsignedTransaction { from: Some(identity(&second).address), ..payment() };
    let mut asked = 0;
    let signed = sign_with(&middleware, &[first, second.clone()], tx, &mut asked).unwrap();
    assert_eq!(asked, 1);
    let (decoded, _) = TypedTransaction::decode_signed(&Rlp::new(&signed)).unwrap();
    assert_eq!(decoded.chain_id(), Some(U64::from(5u64)));
    assert_eq!(decoded.from(), Some(&second.address()));
}

#[test]
fn pass_through_returns_the_clients_result() {
    let balance: Result<u64, String> = Ok(1_000);
    let answer: Result<u64, Failure> = forward(balance);
    assert_eq!(answer, Ok(1_000));
}

#[test]
fn pass_through_returns_the_clients_failure_as_the_clients() {
    let balance: Result<u64, String> = Err("node unreachable".to_string());
    let answer: Result<u64, Failure> = forward(balance);
    assert_eq!(answer, Err(OctopusMiddlewareError::MiddlewareError("node unreachable".to_string())));
}

#[test]
fn request_is_normalized_for_the_selected_signer() {
    let first = SignerIdentity::new(Address::new([0x01; 20]), 1);
    let second = SignerIdentity::new(Address::new([0x02; 20]), 5);
    let middleware = middleware(vec![first, second]);
    let tx = UnsignedTransaction { from: Some(Address::new([0x02; 20])), ..payment() };
    let request = middleware.prepare::<String, String>(tx).unwrap();
    assert_eq!(request.signer(), 1);
    assert_eq!(request.transaction().chain_id, Some(5));
    assert_eq!(request.transaction().nonce, Some(U256::from_u64(5)));
    assert_eq!(request.transaction().gas_price, Some(U256::from_u64(100)));
    assert_eq!(request.transaction().gas_limit, Some(U256::from_u64(21000)));

    let again = middleware.prepare::<String, String>(request.transaction().clone()).unwrap();
    assert_eq!(again, request);
}

#[test]
fn middleware_hands_out_its_client_and_pool() {
    let middleware = OctopusMiddlewear::new("node", MultiSigner::new(vec![signer_x()]));
    assert_eq!(*middleware.inner(), "node");
    assert_eq!(middleware.multisigner().signers, vec![signer_x()]);
    let (client, pool) = middleware.into_parts();
    assert_eq!(client, "node");
    assert_eq!(pool.indicies, 1);
}
