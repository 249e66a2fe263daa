use x402::types::{AptosChain, ChainConfig, ChainType, EvmChain, SolanaChain, SuiChain};

#[test]
fn standard_chain_ids() {
    assert_eq!(ChainType::ethereum().get_standard_chain_id(), "1");
    assert_eq!(ChainType::polygon().get_standard_chain_id(), "137");
    assert_eq!(ChainType::bsc().get_standard_chain_id(), "56");
    assert_eq!(ChainType::Evm(EvmChain::Arbitrum).get_standard_chain_id(), "42161");
    assert_eq!(ChainType::Evm(EvmChain::Optimism).get_standard_chain_id(), "10");
    assert_eq!(ChainType::Evm(EvmChain::Avalanche).get_standard_chain_id(), "43114");
    assert_eq!(ChainType::Evm(EvmChain::Base).get_standard_chain_id(), "8453");
    assert_eq!(ChainType::aptos_mainnet().get_standard_chain_id(), "1");
    assert_eq!(ChainType::Aptos(AptosChain::Testnet).get_standard_chain_id(), "2");
    assert_eq!(ChainType::sui_mainnet().get_standard_chain_id(), "mainnet");
    assert_eq!(ChainType::solana_mainnet().get_standard_chain_id(), "mainnet-beta");
    assert_eq!(ChainType::Solana(SolanaChain::Devnet).get_standard_chain_id(), "devnet");
    assert_eq!(ChainType::Custom("zk-1".to_string()).get_standard_chain_id(), "zk-1");
    assert_eq!(ChainType::Evm(EvmChain::Custom("31337".to_string())).get_standard_chain_id(), "31337");
}

#[test]
fn display_names() {
    assert_eq!(ChainType::bsc().get_display_name(), "BNB Smart Chain");
    assert_eq!(ChainType::Aptos(AptosChain::Devnet).get_display_name(), "Aptos Devnet");
    assert_eq!(ChainType::Sui(SuiChain::Testnet).get_display_name(), "Sui Testnet");
    assert_eq!(ChainType::solana_mainnet().get_display_name(), "Solana Mainnet");
    assert_eq!(ChainType::Sui(SuiChain::Custom("local".to_string())).get_display_name(), "local");
}

#[test]
fn family_predicates() {
    assert!(ChainType::ethereum().is_evm());
    assert!(!ChainType::ethereum().is_solana());
    assert!(ChainType::aptos_mainnet().is_aptos());
    assert!(ChainType::sui_mainnet().is_sui());
    assert!(ChainType::solana_mainnet().is_solana());
    assert!(!ChainType::Custom("x".to_string()).is_evm());
}

#[test]
fn chain_equality_follows_variants() {
    assert!(ChainType::ethereum() == ChainType::Evm(EvmChain::Ethereum));
    assert!(ChainType::ethereum() != ChainType::polygon());
    assert!(ChainType::aptos_mainnet() != ChainType::sui_mainnet());
    assert!(ChainType::Custom("a".to_string()) == ChainType::Custom("a".to_string()));
    assert!(ChainType::Custom("a".to_string()) != ChainType::Custom("b".to_string()));
}

#[test]
fn chain_config_derives_id() {
    let c = ChainConfig::new(ChainType::polygon(), Some("https://rpc".to_string()));
    assert_eq!(c.chain_id, "137");
    assert_eq!(c.rpc_url.as_deref(), Some("https://rpc"));
    let d = ChainConfig::from_chain_type(ChainType::solana_mainnet());
    assert_eq!(d.chain_id, "mainnet-beta");
    assert!(d.rpc_url.is_none());
}
