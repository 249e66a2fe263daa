use x402::evm::EvmVerifier;
use x402::types::{ChainConfig, ChainType, Currency, EvmChain, PaymentRequest, TransactionLog};
use x402::verification::VerificationError;

const PAYER: &str = "0x742E4D6c9Ff68c6E355B069E2775D3Dd6876b4a5";
const PAYER_LOWER: &str = "0x742e4d6c9ff68c6e355b069e2775d3dd6876b4a5";
const RECIPIENT: &str = "0x1111111111111111111111111111111111111111";
const TOKEN: &str = "0x2222222222222222222222222222222222222222";

fn request(amount: &str, currency: Currency) -> PaymentRequest {
    PaymentRequest {
        amount: amount.to_string(),
        currency,
        recipient: RECIPIENT.to_string(),
        chain: ChainConfig::from_chain_type(ChainType::ethereum()),
        description: None,
        expires_at: None,
        nonce: "n-1".to_string(),
    }
}

fn log(hash: &str, from: &str, value: &str) -> TransactionLog {
    TransactionLog {
        transaction_hash: hash.to_string(),
        from: from.to_string(),
        to: RECIPIENT.to_string(),
        value: value.to_string(),
        block_number: 100,
        log_index: 0,
        data: None,
    }
}

fn evm_verifier() -> EvmVerifier {
    EvmVerifier::new("http://localhost:8545".to_string(), ChainType::ethereum(), 1).unwrap()
}

#[test]
fn native_exact_payment_accepted() {
    let req = request("1000", Currency::Native);
    let v = evm_verifier()
        .verify_payment(&req, PAYER, vec![log("0xabc", PAYER_LOWER, "1000")], 77)
        .unwrap();
    assert!(v.is_paid);
    assert_eq!(v.paid_amount, "1000");
    assert_eq!(v.transaction_hash.as_deref(), Some("0xabc"));
    assert_eq!(v.verified_at, 77);
    assert_eq!(v.transaction_logs.len(), 1);
}

#[test]
fn native_underpayment_rejected_but_logged() {
    let req = request("1000", Currency::Native);
    let v = evm_verifier()
        .verify_payment(&req, PAYER, vec![log("0xabc", PAYER_LOWER, "999")], 77)
        .unwrap();
    assert!(!v.is_paid);
    assert_eq!(v.paid_amount, "0");
    assert_eq!(v.transaction_logs.len(), 1);
    assert_eq!(v.transaction_logs[0].value, "999");
}

#[test]
fn native_payment_from_someone_else_does_not_count() {
    let req = request("1000", Currency::Native);
    let v = evm_verifier()
        .verify_payment(&req, PAYER, vec![log("0xabc", RECIPIENT, "5000")], 1)
        .unwrap();
    assert!(!v.is_paid);
    assert_eq!(v.transaction_hash.as_deref(), Some("0xabc"));
}

#[test]
fn native_scan_keeps_every_record() {
    let req = request("1000", Currency::Native);
    let v = evm_verifier()
        .verify_payment(
            &req,
            PAYER,
            vec![log("0x1", RECIPIENT, "1"), log("0x2", PAYER_LOWER, "2000")],
            1,
        )
        .unwrap();
    assert!(v.is_paid);
    assert_eq!(v.transaction_logs.len(), 2);
    assert_eq!(v.transaction_hash.as_deref(), Some("0x1"));
}

#[test]
fn empty_window_is_unpaid() {
    let req = request("1", Currency::Native);
    let v = evm_verifier().verify_payment(&req, PAYER, vec![], 1).unwrap();
    assert!(!v.is_paid);
    assert_eq!(v.paid_amount, "0");
    assert!(v.transaction_hash.is_none());
}

#[test]
fn token_amount_scaled_by_decimals() {
    let token = || Currency::Token { address: TOKEN.to_string(), decimals: 6 };
    let ok = evm_verifier()
        .verify_payment(&request("1", token()), PAYER, vec![log("0xt", PAYER_LOWER, "1000000")], 1)
        .unwrap();
    assert!(ok.is_paid);
    assert_eq!(ok.paid_amount, "1");
    let short = evm_verifier()
        .verify_payment(&request("1", token()), PAYER, vec![log("0xt", PAYER_LOWER, "999999")], 1)
        .unwrap();
    assert!(!short.is_paid);
    assert_eq!(short.paid_amount, "0");
}

#[test]
fn invalid_addresses_and_amounts() {
    let v = evm_verifier();
    let r = v.verify_payment(&request("1", Currency::Native), "0x123", vec![], 1);
    assert!(matches!(r, Err(VerificationError::InvalidAddress)));
    let mut bad_recipient = request("1", Currency::Native);
    bad_recipient.recipient = "nope".to_string();
    let r = v.verify_payment(&bad_recipient, PAYER, vec![], 1);
    assert!(matches!(r, Err(VerificationError::InvalidAddress)));
    let r = v.verify_payment(&request("1.5", Currency::Native), PAYER, vec![], 1);
    assert!(matches!(r, Err(VerificationError::ParseError(_))));
    let bad_token = Currency::Token { address: "0xzz".to_string(), decimals: 6 };
    let r = v.verify_payment(&request("1", bad_token), PAYER, vec![], 1);
    assert!(matches!(r, Err(VerificationError::InvalidAddress)));
}

#[test]
fn construction_checks_reported_chain_id() {
    let ok = EvmVerifier::new("u".to_string(), ChainType::polygon(), 137);
    assert!(ok.is_ok());
    let mismatch = EvmVerifier::new("u".to_string(), ChainType::polygon(), 1);
    assert!(matches!(mismatch, Err(VerificationError::NetworkError(_))));
    let custom = EvmVerifier::new(
        "u".to_string(),
        ChainType::Evm(EvmChain::Custom("31337".to_string())),
        31337,
    );
    assert!(custom.is_ok());
    let bad_custom = EvmVerifier::new(
        "u".to_string(),
        ChainType::Evm(EvmChain::Custom("local".to_string())),
        1,
    );
    assert!(matches!(bad_custom, Err(VerificationError::ParseError(_))));
    let not_evm = EvmVerifier::new("u".to_string(), ChainType::solana_mainnet(), 1);
    assert!(matches!(not_evm, Err(VerificationError::ChainNotSupported)));
}

#[test]
fn lookback_window_start() {
    assert_eq!(EvmVerifier::lookback_start(1000), 900);
    assert_eq!(EvmVerifier::lookback_start(100), 0);
    assert_eq!(EvmVerifier::lookback_start(42), 0);
}

#[test]
fn amount_bounded_by_ledger_integers() {
    let max = "115792089237316195423570985008687907853269984665640564039457584007913129639935";
    let over = "115792089237316195423570985008687907853269984665640564039457584007913129639936";
    let ok = evm_verifier().verify_payment(&request(max, Currency::Native), PAYER, vec![], 1);
    assert!(ok.is_ok());
    let r = evm_verifier().verify_payment(&request(over, Currency::Native), PAYER, vec![], 1);
    assert!(matches!(r, Err(VerificationError::ParseError(_))));
    let zero = evm_verifier()
        .verify_payment(&request("", Currency::Native), PAYER, vec![log("0x9", PAYER_LOWER, "0")], 1)
        .unwrap();
    assert!(zero.is_paid);
}

#[test]
fn mismatch_message_names_both_ids() {
    match EvmVerifier::new("u".to_string(), ChainType::polygon(), 1) {
        Err(VerificationError::NetworkError(m)) => {
            assert_eq!(m, "Chain ID mismatch: expected 137, got 1")
        }
        _ => panic!("expected a mismatch"),
    }
}

#[test]
fn request_checked_before_ledger() {
    assert!(EvmVerifier::check_request(&request("5", Currency::Native), PAYER).is_ok());
    assert!(matches!(
        EvmVerifier::check_request(&request("5", Currency::Native), "0x1"),
        Err(VerificationError::InvalidAddress)
    ));
    assert!(matches!(
        EvmVerifier::check_request(&request("x", Currency::Native), PAYER),
        Err(VerificationError::ParseError(_))
    ));
}
