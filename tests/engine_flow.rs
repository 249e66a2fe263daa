use x402::config::{ConfigBuilder, ConfigError, ConfigManager, CurrencyType};
use x402::engine::{EngineError, X402};
use x402::evm::EvmVerifier;
use x402::solana::SolanaVerifier;
use x402::types::{ChainConfig, ChainType, PaymentVerification};
use x402::verification::{ChainVerifier, VerificationError};

const USER: &str = "0x742E4D6c9Ff68c6E355B069E2775D3Dd6876b4a5";
const PAYOUT: &str = "0x1111111111111111111111111111111111111111";

fn engine() -> X402 {
    let cm = ConfigManager::new(Some(PAYOUT.to_string())).unwrap();
    let mut e = X402::new(cm).unwrap();
    let v = EvmVerifier::new("http://localhost:8545".to_string(), ChainType::ethereum(), 1).unwrap();
    e.register_chain_verifier(ChainType::ethereum(), ChainVerifier::Evm(v)).unwrap();
    e
}

fn outcome(paid: bool) -> PaymentVerification {
    PaymentVerification {
        is_paid: paid,
        paid_amount: if paid { "1000000000000000".to_string() } else { "0".to_string() },
        transaction_hash: None,
        verified_at: 5,
        chain: ChainConfig::from_chain_type(ChainType::ethereum()),
        transaction_logs: vec![],
    }
}

fn challenge_nonce(e: &mut X402, nonce: Option<&str>, paid: Option<bool>) -> String {
    let prior = match (nonce, paid) {
        (Some(n), Some(p)) => Some(e.verify_payment(USER, n, Ok(outcome(p)))),
        _ => None,
    };
    let res = e.handle_access_request(USER, "/premium", prior, None, 1000).unwrap();
    assert!(!res.should_serve_content);
    assert_eq!(res.http_status, 402);
    res.x402_response.unwrap().payment_required.nonce
}

#[test]
fn challenge_carries_configured_terms() {
    let mut e = engine();
    let res = e.handle_access_request(USER, "/premium", None, None, 1000).unwrap();
    let resp = res.x402_response.unwrap();
    assert_eq!(resp.status, 402);
    let req = resp.payment_required;
    assert_eq!(req.amount, "1000000000000000");
    assert_eq!(req.recipient, PAYOUT);
    assert_eq!(req.chain.chain_id, "1");
    assert_eq!(req.description.as_deref(), Some("Access to: /premium"));
    assert_eq!(req.expires_at, Some(4600));
    assert_eq!(req.nonce.len(), 36);
    assert_eq!(
        resp.verification_url.unwrap(),
        format!("https://api.example.com/verify/{}", req.nonce)
    );
}

#[test]
fn custom_amount_and_expiry_saturation() {
    let mut e = engine();
    let res = e.handle_access_request(USER, "/a", None, Some("42"), u64::MAX - 1).unwrap();
    let req = res.x402_response.unwrap().payment_required;
    assert_eq!(req.amount, "42");
    assert_eq!(req.expires_at, Some(u64::MAX));
}

#[test]
fn consecutive_challenges_have_distinct_nonces() {
    let mut e = engine();
    let a = challenge_nonce(&mut e, None, None);
    let b = challenge_nonce(&mut e, None, None);
    assert_ne!(a, b);
}

#[test]
fn unpaid_retry_gets_new_challenge() {
    let mut e = engine();
    let first = challenge_nonce(&mut e, None, None);
    let second = challenge_nonce(&mut e, Some(&first), Some(false));
    assert_ne!(first, second);
    assert_eq!(e.session_verified(&first), Some(false));
    assert_eq!(e.session_verified(&second), Some(false));
}

#[test]
fn paid_nonce_is_served_and_stays_verified() {
    let mut e = engine();
    let n = challenge_nonce(&mut e, None, None);
    let v = e.verify_payment(USER, &n, Ok(outcome(true))).unwrap();
    assert!(v.is_paid);
    assert_eq!(e.session_verified(&n), Some(true));
    let again = e.verify_payment(USER, &n, Ok(outcome(true))).unwrap();
    assert!(again.is_paid);
    let later = e.verify_payment(USER, &n, Ok(outcome(false))).unwrap();
    assert!(!later.is_paid);
    assert_eq!(e.session_verified(&n), Some(true));
    let served = e
        .handle_access_request(USER, "/premium", Some(Ok(outcome(true))), None, 1)
        .unwrap();
    assert!(served.should_serve_content);
    assert_eq!(served.http_status, 200);
    assert!(served.x402_response.is_none());
    assert!(served.verification.unwrap().is_paid);
}

#[test]
fn address_mismatch_regardless_of_ledger() {
    let mut e = engine();
    let n = challenge_nonce(&mut e, None, None);
    let other = "0x0000000000000000000000000000000000000001";
    let r = e.verify_payment(other, &n, Ok(outcome(true)));
    assert!(matches!(r, Err(EngineError::AddressMismatch)));
    let r = e.verify_payment(other, &n, Err(VerificationError::Timeout));
    assert!(matches!(r, Err(EngineError::AddressMismatch)));
    assert_eq!(e.session_verified(&n), Some(false));
}

#[test]
fn verification_errors() {
    let mut e = engine();
    let r = e.verify_payment(USER, "missing", Ok(outcome(true)));
    assert!(matches!(r, Err(EngineError::InvalidSession)));
    let n = challenge_nonce(&mut e, None, None);
    let r = e.verify_payment(USER, &n, Err(VerificationError::RpcError("down".to_string())));
    assert!(matches!(r, Err(EngineError::VerificationFailed(VerificationError::RpcError(_)))));
    let res = e
        .handle_access_request(USER, "/p", Some(Err(EngineError::InvalidSession)), None, 1)
        .unwrap();
    assert_eq!(res.http_status, 402);
}

#[test]
fn unregistered_chain_is_not_supported() {
    let cm = ConfigManager::new(None).unwrap();
    let mut e = X402::new(cm).unwrap();
    let n = challenge_nonce(&mut e, None, None);
    let r = e.verify_payment(USER, &n, Ok(outcome(true)));
    assert!(matches!(r, Err(EngineError::ChainNotSupported(c)) if c == ChainType::ethereum()));
    assert!(matches!(e.pending_request(USER, &n), Err(EngineError::ChainNotSupported(_))));
}

#[test]
fn pending_request_returns_session_terms() {
    let mut e = engine();
    let n = challenge_nonce(&mut e, None, None);
    let req = e.pending_request(USER, &n).unwrap();
    assert_eq!(req.nonce, n);
    assert!(matches!(e.pending_request(USER, "nope"), Err(EngineError::InvalidSession)));
    assert!(matches!(e.pending_request(PAYOUT, &n), Err(EngineError::AddressMismatch)));
}

#[test]
fn registration_refuses_unsupported_chains() {
    let mut e = engine();
    let r = e.register_chain_verifier(ChainType::polygon(), ChainVerifier::Solana(SolanaVerifier::new()));
    assert!(matches!(r, Err(EngineError::ChainNotSupported(_))));
    assert!(!e.verifier_registry().has_verifier(&ChainType::polygon()));
    let r = e.register_chain_verifier(ChainType::solana_mainnet(), ChainVerifier::Solana(SolanaVerifier::new()));
    assert!(matches!(r, Err(EngineError::ChainNotSupported(_))));
    let r = e.register_chain_verifier(
        ChainType::Custom("x".to_string()),
        ChainVerifier::Solana(SolanaVerifier::new()),
    );
    assert!(matches!(r, Err(EngineError::ChainNotSupported(_))));
    assert_eq!(e.verifier_registry().supported_chains(), vec![ChainType::ethereum()]);
}

#[test]
fn missing_default_chain_and_token_config() {
    let cfg = ConfigBuilder::new().with_default_chain(ChainType::solana_mainnet()).build();
    let mut e = X402::new(ConfigManager::from_config(cfg, None)).unwrap();
    let r = e.handle_access_request(USER, "/", None, None, 1);
    assert!(matches!(r, Err(EngineError::ConfigError(ConfigError::ChainMissing(_)))));

    let mut cfg = ConfigBuilder::new().build();
    cfg.service.default_currency.currency_type = CurrencyType::Erc20;
    let mut e = X402::new(ConfigManager::from_config(cfg, None)).unwrap();
    let r = e.handle_access_request(USER, "/", None, None, 1);
    assert!(matches!(r, Err(EngineError::InvalidCurrencyConfig)));
}

#[test]
fn duplicate_nonce_is_refused() {
    let mut e = engine();
    e.issue_challenge(USER, "/", None, "fixed".to_string(), 1).unwrap();
    let r = e.issue_challenge(USER, "/", None, "fixed".to_string(), 2);
    assert!(matches!(r, Err(EngineError::DuplicateNonce)));
}

#[test]
fn builder_and_manager() {
    let cfg = ConfigBuilder::new()
        .with_service_name("svc")
        .with_payment_amount("7")
        .with_expiration_time(60)
        .with_chain(ChainType::solana_mainnet(), ChainConfig::from_chain_type(ChainType::solana_mainnet()))
        .with_default_chain(ChainType::solana_mainnet())
        .build();
    assert_eq!(cfg.service.name, "svc");
    assert_eq!(cfg.payments.default_amount, "7");
    assert_eq!(cfg.payments.expiration_time_secs, 60);
    assert_eq!(cfg.chains.len(), 3);
    let m = ConfigManager::from_config(cfg, None);
    assert_eq!(m.get_service_address(), "0x0000000000000000000000000000000000000000");
    assert_eq!(m.get_default_chain_config().unwrap().chain_id, "mainnet-beta");
    assert!(m.get_chain_config(&ChainType::polygon()).is_some());
    assert!(m.get_chain_config(&ChainType::sui_mainnet()).is_none());
    let replaced = ConfigBuilder::new()
        .with_chain(ChainType::ethereum(), ChainConfig::new(ChainType::ethereum(), Some("x".to_string())))
        .build();
    assert_eq!(replaced.chains.len(), 2);
    assert_eq!(replaced.chains[0].rpc_url.as_deref(), Some("x"));
}

#[test]
fn error_messages() {
    assert_eq!(EngineError::InvalidSession.message(), "Payment session not found");
    assert_eq!(EngineError::AddressMismatch.message(), "User address mismatch");
    assert_eq!(
        EngineError::ChainNotSupported(ChainType::polygon()).message(),
        "Chain not supported: Polygon"
    );
    assert_eq!(
        EngineError::VerificationFailed(VerificationError::RpcError("down".to_string())).message(),
        "Verification failed: RPC error: down"
    );
    assert_eq!(
        EngineError::ConfigError(ConfigError::ChainMissing(ChainType::solana_mainnet())).message(),
        "Configuration error: Chain configuration missing: Solana Mainnet"
    );
    assert_eq!(VerificationError::Timeout.message(), "Verification timeout");
    assert_eq!(
        VerificationError::ParseError("bad".to_string()).message(),
        "Parse error: bad"
    );
    assert_eq!(ConfigError::IoError("eof".to_string()).message(), "IO error: eof");
}

#[test]
fn default_settings_and_update() {
    let cfg = x402::config::default_config();
    assert_eq!(cfg.chains[0].chain_id, "1");
    assert_eq!(cfg.chains[1].chain_id, "137");
    assert!(cfg.service.default_currency.address.is_none());
    assert_eq!(cfg.service.default_currency.decimals, 18);
    let mut m = ConfigManager::new(None).unwrap();
    m.update_config(ConfigBuilder::new().with_payment_amount("9").build());
    assert_eq!(m.get_config().payments.default_amount, "9");
}

#[test]
fn missing_chain_error_names_default_chain() {
    let cfg = ConfigBuilder::new().with_default_chain(ChainType::sui_mainnet()).build();
    let mut e = X402::new(ConfigManager::from_config(cfg, None)).unwrap();
    let r = e.handle_access_request(USER, "/", None, None, 1);
    assert!(matches!(r, Err(EngineError::ConfigError(ConfigError::ChainMissing(c))) if c == ChainType::sui_mainnet()));
}

#[test]
fn engine_removes_verifier() {
    let mut e = engine();
    assert!(e.remove_chain_verifier(&ChainType::polygon()).is_none());
    assert!(matches!(e.remove_chain_verifier(&ChainType::ethereum()), Some(ChainVerifier::Evm(_))));
    assert!(!e.verifier_registry().has_verifier(&ChainType::ethereum()));
    let n = challenge_nonce(&mut e, None, None);
    assert!(matches!(e.verify_payment(USER, &n, Ok(outcome(true))), Err(EngineError::ChainNotSupported(_))));
}

#[test]
fn colliding_nonce_is_replaced() {
    let mut e = engine();
    assert_eq!(e.fresh_nonce("x".to_string()), "x");
    e.issue_challenge(USER, "/", None, "x".to_string(), 1).unwrap();
    let f = e.fresh_nonce("x".to_string());
    assert_ne!(f, "x");
    assert!(e.issue_challenge(USER, "/", None, f, 1).is_ok());
    let g = e.fresh_nonce("x".to_string());
    assert!(e.session_verified(&g).is_none());
}

#[test]
fn every_unpaid_retry_gets_a_challenge() {
    let mut e = engine();
    let mut last = challenge_nonce(&mut e, None, None);
    for _ in 0..5 {
        let next = challenge_nonce(&mut e, Some(&last), Some(false));
        assert_ne!(next, last);
        last = next;
    }
    let r = e.handle_access_request(USER, "/p", Some(Err(EngineError::AddressMismatch)), None, 3).unwrap();
    assert_eq!(r.http_status, 402);
}
