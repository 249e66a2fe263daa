use x402::solana::{parse_trimmed_lamports, SolanaTransfer, SolanaVerifier};
use x402::types::{ChainConfig, ChainType, Currency, PaymentRequest, TransactionLog};
use x402::verification::VerificationError;

const RECIPIENT: &str = "9xQeWvG816bUx9EPjHmaT23yvVM2ZWbrrpZb9PusVFin";

fn request(amount: &str) -> PaymentRequest {
    PaymentRequest {
        amount: amount.to_string(),
        currency: Currency::Native,
        recipient: RECIPIENT.to_string(),
        chain: ChainConfig::from_chain_type(ChainType::solana_mainnet()),
        description: None,
        expires_at: None,
        nonce: "n".to_string(),
    }
}

fn transfer(sig: &str, ok: bool, to: &str, lamports: u64) -> SolanaTransfer {
    SolanaTransfer {
        signature: sig.to_string(),
        successful: ok,
        recipient: to.to_string(),
        lamports,
        output_amount: Some(lamports),
        log: TransactionLog {
            transaction_hash: sig.to_string(),
            from: "payer".to_string(),
            to: to.to_string(),
            value: lamports.to_string(),
            block_number: 5,
            log_index: 0,
            data: None,
        },
    }
}

#[test]
fn amount_forms_resolve_to_same_lamports() {
    assert_eq!(SolanaVerifier::parse_amount_to_lamports("0.5"), Ok(500_000_000));
    assert_eq!(SolanaVerifier::parse_amount_to_lamports("500000000"), Ok(500_000_000));
    assert_eq!(SolanaVerifier::parse_amount_to_lamports("  1,000 "), Ok(1000));
    assert_eq!(SolanaVerifier::parse_amount_to_lamports("2."), Ok(2_000_000_000));
    assert_eq!(SolanaVerifier::parse_amount_to_lamports(".25"), Ok(250_000_000));
    assert_eq!(SolanaVerifier::parse_amount_to_lamports("0.0000000015"), Ok(2));
    assert_eq!(SolanaVerifier::parse_amount_to_lamports("0.0000000014"), Ok(1));
}

#[test]
fn malformed_amounts_fail() {
    assert!(SolanaVerifier::parse_amount_to_lamports("").is_err());
    assert!(SolanaVerifier::parse_amount_to_lamports("   ").is_err());
    assert!(SolanaVerifier::parse_amount_to_lamports(".").is_err());
    assert!(SolanaVerifier::parse_amount_to_lamports("1.2.3").is_err());
    assert!(SolanaVerifier::parse_amount_to_lamports("-0.5").is_err());
    assert!(SolanaVerifier::parse_amount_to_lamports("abc").is_err());
    assert!(SolanaVerifier::parse_amount_to_lamports("18446744073709551616").is_err());
    assert!(SolanaVerifier::parse_amount_to_lamports("18446744074.0").is_err());
    assert_eq!(parse_trimmed_lamports(" 1"), Err("Invalid lamports amount format".to_string()));
}

#[test]
fn both_amount_forms_accept_exact_transfer() {
    let v = SolanaVerifier::new();
    for amount in ["0.5", "500000000"] {
        let r = v
            .verify_payment(&request(amount), true, true, vec![transfer("sig1", true, RECIPIENT, 500_000_000)], 9)
            .unwrap();
        assert!(r.is_paid);
        assert_eq!(r.paid_amount, "500000000");
        assert_eq!(r.transaction_hash.as_deref(), Some("sig1"));
        assert_eq!(r.transaction_logs.len(), 1);
        assert_eq!(r.verified_at, 9);
    }
}

#[test]
fn first_qualifying_transfer_ends_scan() {
    let v = SolanaVerifier::new();
    let ts = vec![
        transfer("failed", false, RECIPIENT, 900_000_000),
        transfer("elsewhere", true, "other", 900_000_000),
        transfer("small", true, RECIPIENT, 1),
        transfer("good", true, RECIPIENT, 600_000_000),
        transfer("later", true, RECIPIENT, 700_000_000),
    ];
    let r = v.verify_payment(&request("0.5"), true, true, ts, 1).unwrap();
    assert!(r.is_paid);
    assert_eq!(r.transaction_hash.as_deref(), Some("good"));
    assert_eq!(r.paid_amount, "600000000");
}

#[test]
fn no_match_is_unpaid() {
    let v = SolanaVerifier::new();
    let r = v
        .verify_payment(&request("0.5"), true, true, vec![transfer("s", true, RECIPIENT, 499_999_999)], 1)
        .unwrap();
    assert!(!r.is_paid);
    assert_eq!(r.paid_amount, "0");
    assert!(r.transaction_hash.is_none());
    assert!(r.transaction_logs.is_empty());
}

#[test]
fn only_fifty_transactions_are_examined() {
    let v = SolanaVerifier::new();
    let mut ts: Vec<SolanaTransfer> = (0..50).map(|i| transfer(&format!("s{}", i), true, RECIPIENT, 1)).collect();
    ts.push(transfer("late", true, RECIPIENT, 500_000_000));
    let r = v.verify_payment(&request("500000000"), true, true, ts, 1).unwrap();
    assert!(!r.is_paid);
}

#[test]
fn address_and_parse_errors() {
    let v = SolanaVerifier::new();
    let r = v.verify_payment(&request("1"), false, true, vec![], 1);
    assert!(matches!(r, Err(VerificationError::Error(_))));
    let r = v.verify_payment(&request("1"), true, false, vec![], 1);
    assert!(matches!(r, Err(VerificationError::Error(_))));
    let r = v.verify_payment(&request("x"), true, true, vec![transfer("s", true, RECIPIENT, 5)], 1);
    assert!(matches!(r, Err(VerificationError::ParseError(_))));
    let r = v.verify_payment(&request("x"), true, true, vec![transfer("s", false, RECIPIENT, 5)], 1).unwrap();
    assert!(!r.is_paid);
}

#[test]
fn single_transaction_check() {
    let v = SolanaVerifier::new();
    let t = transfer("s", true, RECIPIENT, 500_000_000);
    assert_eq!(v.check_transaction_payment(&t, RECIPIENT, "0.5").ok(), Some(true));
    assert_eq!(v.check_transaction_payment(&t, RECIPIENT, "0.6").ok(), Some(false));
    assert_eq!(v.check_transaction_payment(&t, "other", "0.1").ok(), Some(false));
}

#[test]
fn leading_plus_sign_is_accepted() {
    assert_eq!(SolanaVerifier::parse_amount_to_lamports("+5"), Ok(5));
    assert_eq!(SolanaVerifier::parse_amount_to_lamports("+0.5"), Ok(500_000_000));
    assert_eq!(SolanaVerifier::parse_amount_to_lamports(" +1,000 "), Ok(1000));
    assert!(SolanaVerifier::parse_amount_to_lamports("+").is_err());
    assert!(SolanaVerifier::parse_amount_to_lamports("++5").is_err());
    assert!(SolanaVerifier::parse_amount_to_lamports("+.").is_err());
    assert!(SolanaVerifier::parse_amount_to_lamports("1.5e3").is_err());
}

#[test]
fn address_error_texts() {
    let v = SolanaVerifier::new();
    match v.verify_payment(&request("1"), false, true, vec![], 1) {
        Err(VerificationError::Error(m)) => assert_eq!(m, "payer address error"),
        other => panic!("unexpected {:?}", other),
    }
    match v.verify_payment(&request("1"), true, false, vec![], 1) {
        Err(VerificationError::Error(m)) => assert_eq!(m, "recipient address error"),
        other => panic!("unexpected {:?}", other),
    }
}
