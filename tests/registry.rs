use x402::evm::EvmVerifier;
use x402::solana::{AptosVerifier, SolanaVerifier, SuiVerifier};
use x402::types::{ChainType, EvmChain};
use x402::verification::{ChainVerifier, PaymentVerifier, VerifierRegistry};

fn evm(chain: ChainType, id: u64) -> ChainVerifier {
    ChainVerifier::Evm(EvmVerifier::new("http://localhost:8545".to_string(), chain, id).unwrap())
}

#[test]
fn lookup_returns_supporting_verifier() {
    let mut reg = VerifierRegistry::new();
    reg.register_verifier(ChainType::ethereum(), evm(ChainType::ethereum(), 1));
    reg.register_verifier(ChainType::solana_mainnet(), ChainVerifier::Solana(SolanaVerifier::new()));
    reg.register_verifier(
        ChainType::aptos_mainnet(),
        ChainVerifier::Aptos(AptosVerifier::new("u".to_string(), ChainType::aptos_mainnet())),
    );
    reg.register_verifier(
        ChainType::sui_mainnet(),
        ChainVerifier::Sui(SuiVerifier::new("u".to_string(), ChainType::sui_mainnet())),
    );
    for c in reg.supported_chains() {
        let v = reg.get_verifier(&c).unwrap();
        assert!(v.supports_chain(&c));
    }
    assert_eq!(reg.supported_chains().len(), 4);
    assert!(reg.get_verifier(&ChainType::polygon()).is_none());
}

#[test]
fn register_inserts_whatever_the_family() {
    let mut reg = VerifierRegistry::new();
    reg.register_verifier(ChainType::ethereum(), evm(ChainType::ethereum(), 1));
    reg.register_verifier(ChainType::Custom("other".to_string()), evm(ChainType::ethereum(), 1));
    assert!(reg.has_verifier(&ChainType::Custom("other".to_string())));
    let v = reg.get_verifier(&ChainType::Custom("other".to_string())).unwrap();
    assert!(!v.supports_chain(&ChainType::Custom("other".to_string())));
    reg.register_verifier(ChainType::ethereum(), ChainVerifier::Solana(SolanaVerifier::new()));
    assert!(matches!(reg.get_verifier(&ChainType::ethereum()), Some(ChainVerifier::Solana(_))));
    assert_eq!(reg.supported_chains().len(), 2);
}

#[test]
fn register_replaces_and_remove_drops() {
    let mut reg = VerifierRegistry::default();
    reg.register_verifier(ChainType::ethereum(), evm(ChainType::ethereum(), 1));
    reg.register_verifier(ChainType::ethereum(), evm(ChainType::ethereum(), 1));
    assert_eq!(reg.supported_chains().len(), 1);
    assert!(reg.has_verifier(&ChainType::Evm(EvmChain::Ethereum)));
    assert!(reg.remove_verifier(&ChainType::ethereum()).is_some());
    assert!(!reg.has_verifier(&ChainType::ethereum()));
    assert!(reg.remove_verifier(&ChainType::ethereum()).is_none());
}

#[test]
fn families_without_handshake() {
    let s = ChainVerifier::without_handshake(&ChainType::solana_mainnet(), "u".to_string()).unwrap();
    assert!(s.supports_chain(&ChainType::solana_mainnet()));
    assert!(ChainVerifier::without_handshake(&ChainType::aptos_mainnet(), "u".to_string()).is_some());
    assert!(ChainVerifier::without_handshake(&ChainType::sui_mainnet(), "u".to_string()).is_some());
    assert!(ChainVerifier::without_handshake(&ChainType::ethereum(), "u".to_string()).is_none());
    assert!(ChainVerifier::without_handshake(&ChainType::Custom("c".to_string()), "u".to_string()).is_none());
}

#[test]
fn register_then_remove_restores() {
    let mut reg = VerifierRegistry::new();
    reg.register_verifier(ChainType::ethereum(), evm(ChainType::ethereum(), 1));
    let before = reg.supported_chains();
    reg.register_verifier(ChainType::solana_mainnet(), ChainVerifier::Solana(SolanaVerifier::new()));
    let removed = reg.remove_verifier(&ChainType::solana_mainnet());
    assert!(matches!(removed, Some(ChainVerifier::Solana(_))));
    assert_eq!(reg.supported_chains(), before);
    assert!(reg.get_verifier(&ChainType::ethereum()).is_some());
}
