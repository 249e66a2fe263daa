//! The data model shared by the engine, the registry and the verifiers.
use vstd::prelude::*;
use vstd::string::*;
use crate::text::str_eq;

verus! {

/// A ledger family together with its network.
#[derive(Debug, Eq, Hash)]
pub enum ChainType {
    Evm(EvmChain),
    Aptos(AptosChain),
    Sui(SuiChain),
    Solana(SolanaChain),
    Custom(String),
}

#[derive(Debug, Eq, Hash)]
pub enum EvmChain {
    Ethereum,
    Polygon,
    BinanceSmartChain,
    Arbitrum,
    Optimism,
    Avalanche,
    Base,
    Custom(String),
}

#[derive(Debug, Eq, Hash)]
pub enum AptosChain {
    Mainnet,
    Testnet,
    Devnet,
    Custom(String),
}

#[derive(Debug, Eq, Hash)]
pub enum SuiChain {
    Mainnet,
    Testnet,
    Devnet,
    Custom(String),
}

#[derive(Debug, Eq, Hash)]
pub enum SolanaChain {
    Mainnet,
    Testnet,
    Devnet,
    Custom(String),
}


impl ChainType {
    pub open spec fn key(self) -> (int, int, Seq<char>) {
        match self {
            ChainType::Evm(e) => (0, e.tag(), e.name()),
            ChainType::Aptos(a) => (1, a.tag(), a.name()),
            ChainType::Sui(s) => (2, s.tag(), s.name()),
            ChainType::Solana(s) => (3, s.tag(), s.name()),
            ChainType::Custom(n) => (4, 0, n@),
        }
    }

    /// The canonical chain id of each chain type.
    pub open spec fn chain_id(self) -> Seq<char> {
        match self {
            ChainType::Evm(e) => match e {
                EvmChain::Ethereum => "1"@,
                EvmChain::Polygon => "137"@,
                EvmChain::BinanceSmartChain => "56"@,
                EvmChain::Arbitrum => "42161"@,
                EvmChain::Optimism => "10"@,
                EvmChain::Avalanche => "43114"@,
                EvmChain::Base => "8453"@,
                EvmChain::Custom(id) => id@,
            },
            ChainType::Aptos(a) => match a {
                AptosChain::Mainnet => "1"@,
                AptosChain::Testnet => "2"@,
                AptosChain::Devnet => "devnet"@,
                AptosChain::Custom(id) => id@,
            },
            ChainType::Sui(s) => match s {
                SuiChain::Mainnet => "mainnet"@,
                SuiChain::Testnet => "testnet"@,
                SuiChain::Devnet => "devnet"@,
                SuiChain::Custom(id) => id@,
            },
            ChainType::Solana(s) => match s {
                SolanaChain::Mainnet => "mainnet-beta"@,
                SolanaChain::Testnet => "testnet"@,
                SolanaChain::Devnet => "devnet"@,
                SolanaChain::Custom(id) => id@,
            },
            ChainType::Custom(id) => id@,
        }
    }

    /// The human-readable name of each chain type.
    pub open spec fn display_name(self) -> Seq<char> {
        match self {
            ChainType::Evm(e) => match e {
                EvmChain::Ethereum => "Ethereum"@,
                EvmChain::Polygon => "Polygon"@,
                EvmChain::BinanceSmartChain => "BNB Smart Chain"@,
                EvmChain::Arbitrum => "Arbitrum"@,
                EvmChain::Optimism => "Optimism"@,
                EvmChain::Avalanche => "Avalanche"@,
                EvmChain::Base => "Base"@,
                EvmChain::Custom(n) => n@,
            },
            ChainType::Aptos(a) => match a {
                AptosChain::Mainnet => "Aptos Mainnet"@,
                AptosChain::Testnet => "Aptos Testnet"@,
                AptosChain::Devnet => "Aptos Devnet"@,
                AptosChain::Custom(n) => n@,
            },
            ChainType::Sui(s) => match s {
                SuiChain::Mainnet => "Sui Mainnet"@,
                SuiChain::Testnet => "Sui Testnet"@,
                SuiChain::Devnet => "Sui Devnet"@,
                SuiChain::Custom(n) => n@,
            },
            ChainType::Solana(s) => match s {
                SolanaChain::Mainnet => "Solana Mainnet"@,
                SolanaChain::Testnet => "Solana Testnet"@,
                SolanaChain::Devnet => "Solana Devnet"@,
                SolanaChain::Custom(n) => n@,
            },
            ChainType::Custom(n) => n@,
        }
    }

    pub fn get_standard_chain_id(&self) -> (r: String)
        ensures
            r@ == self.chain_id(),
    {
        match self {
            ChainType::Evm(e) => match e {
                EvmChain::Ethereum => String::from_str("1"),
                EvmChain::Polygon => String::from_str("137"),
                EvmChain::BinanceSmartChain => String::from_str("56"),
                EvmChain::Arbitrum => String::from_str("42161"),
                EvmChain::Optimism => String::from_str("10"),
                EvmChain::Avalanche => String::from_str("43114"),
                EvmChain::Base => String::from_str("8453"),
                EvmChain::Custom(id) => id.clone(),
            },
            ChainType::Aptos(a) => match a {
                AptosChain::Mainnet => String::from_str("1"),
                AptosChain::Testnet => String::from_str("2"),
                AptosChain::Devnet => String::from_str("devnet"),
                AptosChain::Custom(id) => id.clone(),
            },
            ChainType::Sui(s) => match s {
                SuiChain::Mainnet => String::from_str("mainnet"),
                SuiChain::Testnet => String::from_str("testnet"),
                SuiChain::Devnet => String::from_str("devnet"),
                SuiChain::Custom(id) => id.clone(),
            },
            ChainType::Solana(s) => match s {
                SolanaChain::Mainnet => String::from_str("mainnet-beta"),
                SolanaChain::Testnet => String::from_str("testnet"),
                SolanaChain::Devnet => String::from_str("devnet"),
                SolanaChain::Custom(id) => id.clone(),
            },
            ChainType::Custom(id) => id.clone(),
        }
    }

    pub fn get_display_name(&self) -> (r: String)
        ensures
            r@ == self.display_name(),
    {
        match self {
            ChainType::Evm(e) => match e {
                EvmChain::Ethereum => String::from_str("Ethereum"),
                EvmChain::Polygon => String::from_str("Polygon"),
                EvmChain::BinanceSmartChain => String::from_str("BNB Smart Chain"),
                EvmChain::Arbitrum => String::from_str("Arbitrum"),
                EvmChain::Optimism => String::from_str("Optimism"),
                EvmChain::Avalanche => String::from_str("Avalanche"),
                EvmChain::Base => String::from_str("Base"),
                EvmChain::Custom(n) => n.clone(),
            },
            ChainType::Aptos(a) => match a {
                AptosChain::Mainnet => String::from_str("Aptos Mainnet"),
                AptosChain::Testnet => String::from_str("Aptos Testnet"),
                AptosChain::Devnet => String::from_str("Aptos Devnet"),
                AptosChain::Custom(n) => n.clone(),
            },
            ChainType::Sui(s) => match s {
                SuiChain::Mainnet => String::from_str("Sui Mainnet"),
                SuiChain::Testnet => String::from_str("Sui Testnet"),
                SuiChain::Devnet => String::from_str("Sui Devnet"),
                SuiChain::Custom(n) => n.clone(),
            },
            ChainType::Solana(s) => match s {
                SolanaChain::Mainnet => String::from_str("Solana Mainnet"),
                SolanaChain::Testnet => String::from_str("Solana Testnet"),
                SolanaChain::Devnet => String::from_str("Solana Devnet"),
                SolanaChain::Custom(n) => n.clone(),
            },
            ChainType::Custom(n) => n.clone(),
        }
    }

    pub fn is_evm(&self) -> (r: bool)
        ensures
            r == self is Evm,
    {
        matches!(self, ChainType::Evm(_))
    }

    pub fn is_aptos(&self) -> (r: bool)
        ensures
            r == self is Aptos,
    {
        matches!(self, ChainType::Aptos(_))
    }

    pub fn is_sui(&self) -> (r: bool)
        ensures
            r == self is Sui,
    {
        matches!(self, ChainType::Sui(_))
    }

    pub fn is_solana(&self) -> (r: bool)
        ensures
            r == self is Solana,
    {
        matches!(self, ChainType::Solana(_))
    }

    pub fn ethereum() -> (r: Self)
        ensures
            r == ChainType::Evm(EvmChain::Ethereum),
    {
        ChainType::Evm(EvmChain::Ethereum)
    }

    pub fn polygon() -> (r: Self)
        ensures
            r == ChainType::Evm(EvmChain::Polygon),
    {
        ChainType::Evm(EvmChain::Polygon)
    }

    pub fn bsc() -> (r: Self)
        ensures
            r == ChainType::Evm(EvmChain::BinanceSmartChain),
    {
        ChainType::Evm(EvmChain::BinanceSmartChain)
    }

    pub fn aptos_mainnet() -> (r: Self)
        ensures
            r == ChainType::Aptos(AptosChain::Mainnet),
    {
        ChainType::Aptos(AptosChain::Mainnet)
    }

    pub fn sui_mainnet() -> (r: Self)
        ensures
            r == ChainType::Sui(SuiChain::Mainnet),
    {
        ChainType::Sui(SuiChain::Mainnet)
    }

    pub fn solana_mainnet() -> (r: Self)
        ensures
            r == ChainType::Solana(SolanaChain::Mainnet),
    {
        ChainType::Solana(SolanaChain::Mainnet)
    }
}

impl EvmChain {
    /// Position of the variant; custom networks come last.
    pub open spec fn tag(self) -> int {
        match self {
            EvmChain::Ethereum => 0,
            EvmChain::Polygon => 1,
            EvmChain::BinanceSmartChain => 2,
            EvmChain::Arbitrum => 3,
            EvmChain::Optimism => 4,
            EvmChain::Avalanche => 5,
            EvmChain::Base => 6,
            EvmChain::Custom(_) => 7,
        }
    }

    /// Text of a custom network, empty for named ones.
    pub open spec fn name(self) -> Seq<char> {
        match self {
            EvmChain::Custom(n) => n@,
            _ => Seq::empty(),
        }
    }
}

impl Clone for EvmChain {
    fn clone(&self) -> (r: Self)
        ensures
            r == *self,
    {
        match self {
            EvmChain::Ethereum => EvmChain::Ethereum,
            EvmChain::Polygon => EvmChain::Polygon,
            EvmChain::BinanceSmartChain => EvmChain::BinanceSmartChain,
            EvmChain::Arbitrum => EvmChain::Arbitrum,
            EvmChain::Optimism => EvmChain::Optimism,
            EvmChain::Avalanche => EvmChain::Avalanche,
            EvmChain::Base => EvmChain::Base,
            EvmChain::Custom(n) => EvmChain::Custom(n.clone()),
        }
    }
}

impl PartialEq for EvmChain {
    fn eq(&self, other: &Self) -> (r: bool) {
        match (self, other) {
            (EvmChain::Ethereum, EvmChain::Ethereum) => true,
            (EvmChain::Polygon, EvmChain::Polygon) => true,
            (EvmChain::BinanceSmartChain, EvmChain::BinanceSmartChain) => true,
            (EvmChain::Arbitrum, EvmChain::Arbitrum) => true,
            (EvmChain::Optimism, EvmChain::Optimism) => true,
            (EvmChain::Avalanche, EvmChain::Avalanche) => true,
            (EvmChain::Base, EvmChain::Base) => true,
            (EvmChain::Custom(a), EvmChain::Custom(b)) => str_eq(a.as_str(), b.as_str()),
            _ => false,
        }
    }
}

impl vstd::std_specs::cmp::PartialEqSpecImpl for EvmChain {
    open spec fn obeys_eq_spec() -> bool {
        true
    }

    open spec fn eq_spec(&self, other: &Self) -> bool {
        self.tag() == other.tag() && self.name() == other.name()
    }
}

impl AptosChain {
    /// Position of the variant; custom networks come last.
    pub open spec fn tag(self) -> int {
        match self {
            AptosChain::Mainnet => 0,
            AptosChain::Testnet => 1,
            AptosChain::Devnet => 2,
            AptosChain::Custom(_) => 3,
        }
    }

    /// Text of a custom network, empty for named ones.
    pub open spec fn name(self) -> Seq<char> {
        match self {
            AptosChain::Custom(n) => n@,
            _ => Seq::empty(),
        }
    }
}

impl Clone for AptosChain {
    fn clone(&self) -> (r: Self)
        ensures
            r == *self,
    {
        match self {
            AptosChain::Mainnet => AptosChain::Mainnet,
            AptosChain::Testnet => AptosChain::Testnet,
            AptosChain::Devnet => AptosChain::Devnet,
            AptosChain::Custom(n) => AptosChain::Custom(n.clone()),
        }
    }
}

impl PartialEq for AptosChain {
    fn eq(&self, other: &Self) -> (r: bool) {
        match (self, other) {
            (AptosChain::Mainnet, AptosChain::Mainnet) => true,
            (AptosChain::Testnet, AptosChain::Testnet) => true,
            (AptosChain::Devnet, AptosChain::Devnet) => true,
            (AptosChain::Custom(a), AptosChain::Custom(b)) => str_eq(a.as_str(), b.as_str()),
            _ => false,
        }
    }
}

impl vstd::std_specs::cmp::PartialEqSpecImpl for AptosChain {
    open spec fn obeys_eq_spec() -> bool {
        true
    }

    open spec fn eq_spec(&self, other: &Self) -> bool {
        self.tag() == other.tag() && self.name() == other.name()
    }
}

impl SuiChain {
    /// Position of the variant; custom networks come last.
    pub open spec fn tag(self) -> int {
        match self {
            SuiChain::Mainnet => 0,
            SuiChain::Testnet => 1,
            SuiChain::Devnet => 2,
            SuiChain::Custom(_) => 3,
        }
    }

    /// Text of a custom network, empty for named ones.
    pub open spec fn name(self) -> Seq<char> {
        match self {
            SuiChain::Custom(n) => n@,
            _ => Seq::empty(),
        }
    }
}

impl Clone for SuiChain {
    fn clone(&self) -> (r: Self)
        ensures
            r == *self,
    {
        match self {
            SuiChain::Mainnet => SuiChain::Mainnet,
            SuiChain::Testnet => SuiChain::Testnet,
            SuiChain::Devnet => SuiChain::Devnet,
            SuiChain::Custom(n) => SuiChain::Custom(n.clone()),
        }
    }
}

impl PartialEq for SuiChain {
    fn eq(&self, other: &Self) -> (r: bool) {
        match (self, other) {
            (SuiChain::Mainnet, SuiChain::Mainnet) => true,
            (SuiChain::Testnet, SuiChain::Testnet) => true,
            (SuiChain::Devnet, SuiChain::Devnet) => true,
            (SuiChain::Custom(a), SuiChain::Custom(b)) => str_eq(a.as_str(), b.as_str()),
            _ => false,
        }
    }
}

impl vstd::std_specs::cmp::PartialEqSpecImpl for SuiChain {
    open spec fn obeys_eq_spec() -> bool {
        true
    }

    open spec fn eq_spec(&self, other: &Self) -> bool {
        self.tag() == other.tag() && self.name() == other.name()
    }
}

impl SolanaChain {
    /// Position of the variant; custom networks come last.
    pub open spec fn tag(self) -> int {
        match self {
            SolanaChain::Mainnet => 0,
            SolanaChain::Testnet => 1,
            SolanaChain::Devnet => 2,
            SolanaChain::Custom(_) => 3,
        }
    }

    /// Text of a custom network, empty for named ones.
    pub open spec fn name(self) -> Seq<char> {
        match self {
            SolanaChain::Custom(n) => n@,
            _ => Seq::empty(),
        }
    }
}

impl Clone for SolanaChain {
    fn clone(&self) -> (r: Self)
        ensures
            r == *self,
    {
        match self {
            SolanaChain::Mainnet => SolanaChain::Mainnet,
            SolanaChain::Testnet => SolanaChain::Testnet,
            SolanaChain::Devnet => SolanaChain::Devnet,
            SolanaChain::Custom(n) => SolanaChain::Custom(n.clone()),
        }
    }
}

impl PartialEq for SolanaChain {
    fn eq(&self, other: &Self) -> (r: bool) {
        match (self, other) {
            (SolanaChain::Mainnet, SolanaChain::Mainnet) => true,
            (SolanaChain::Testnet, SolanaChain::Testnet) => true,
            (SolanaChain::Devnet, SolanaChain::Devnet) => true,
            (SolanaChain::Custom(a), SolanaChain::Custom(b)) => str_eq(a.as_str(), b.as_str()),
            _ => false,
        }
    }
}

impl vstd::std_specs::cmp::PartialEqSpecImpl for SolanaChain {
    open spec fn obeys_eq_spec() -> bool {
        true
    }

    open spec fn eq_spec(&self, other: &Self) -> bool {
        self.tag() == other.tag() && self.name() == other.name()
    }
}

impl Clone for ChainType {
    fn clone(&self) -> (r: Self)
        ensures
            r == *self,
    {
        match self {
            ChainType::Evm(e) => ChainType::Evm(e.clone()),
            ChainType::Aptos(a) => ChainType::Aptos(a.clone()),
            ChainType::Sui(s) => ChainType::Sui(s.clone()),
            ChainType::Solana(s) => ChainType::Solana(s.clone()),
            ChainType::Custom(n) => ChainType::Custom(n.clone()),
        }
    }
}

impl PartialEq for ChainType {
    fn eq(&self, other: &Self) -> (r: bool) {
        match (self, other) {
            (ChainType::Evm(a), ChainType::Evm(b)) => a == b,
            (ChainType::Aptos(a), ChainType::Aptos(b)) => a == b,
            (ChainType::Sui(a), ChainType::Sui(b)) => a == b,
            (ChainType::Solana(a), ChainType::Solana(b)) => a == b,
            (ChainType::Custom(a), ChainType::Custom(b)) => str_eq(a.as_str(), b.as_str()),
            _ => false,
        }
    }
}

impl vstd::std_specs::cmp::PartialEqSpecImpl for ChainType {
    open spec fn obeys_eq_spec() -> bool {
        true
    }

    open spec fn eq_spec(&self, other: &Self) -> bool {
        self.key() == other.key()
    }
}

} // verus!

verus! {

/// A chain type with its canonical id and an optional endpoint.
#[derive(Debug)]
pub struct ChainConfig {
    pub chain_type: ChainType,
    pub chain_id: String,
    pub rpc_url: Option<String>,
}

pub fn clone_opt_string(o: &Option<String>) -> (r: Option<String>)
    ensures
        r == *o,
{
    match o {
        Some(s) => Some(s.clone()),
        None => None,
    }
}

impl ChainConfig {
    pub fn new(chain_type: ChainType, rpc_url: Option<String>) -> (r: Self)
        ensures
            r.chain_type == chain_type,
            r.chain_id@ == chain_type.chain_id(),
            r.rpc_url == rpc_url,
    {
        let chain_id = chain_type.get_standard_chain_id();
        ChainConfig { chain_type, chain_id, rpc_url }
    }

    pub fn from_chain_type(chain_type: ChainType) -> (r: Self)
        ensures
            r.chain_type == chain_type,
            r.chain_id@ == chain_type.chain_id(),
            r.rpc_url is None,
    {
        Self::new(chain_type, None)
    }
}

impl Clone for ChainConfig {
    fn clone(&self) -> (r: Self)
        ensures
            r == *self,
    {
        ChainConfig {
            chain_type: self.chain_type.clone(),
            chain_id: self.chain_id.clone(),
            rpc_url: clone_opt_string(&self.rpc_url),
        }
    }
}

/// What is paid: the ledger's own asset, or a token with its precision.
#[derive(Debug)]
pub enum Currency {
    Native,
    Token { address: String, decimals: u8 },
}

impl Clone for Currency {
    fn clone(&self) -> (r: Self)
        ensures
            r == *self,
    {
        match self {
            Currency::Native => Currency::Native,
            Currency::Token { address, decimals } => Currency::Token {
                address: address.clone(),
                decimals: *decimals,
            },
        }
    }
}

/// The terms of a payment challenge. Amounts are decimal strings.
#[derive(Debug)]
pub struct PaymentRequest {
    pub amount: String,
    pub currency: Currency,
    pub recipient: String,
    pub chain: ChainConfig,
    pub description: Option<String>,
    pub expires_at: Option<u64>,
    pub nonce: String,
}

impl Clone for PaymentRequest {
    fn clone(&self) -> (r: Self)
        ensures
            r == *self,
    {
        PaymentRequest {
            amount: self.amount.clone(),
            currency: self.currency.clone(),
            recipient: self.recipient.clone(),
            chain: self.chain.clone(),
            description: clone_opt_string(&self.description),
            expires_at: self.expires_at,
            nonce: self.nonce.clone(),
        }
    }
}

/// One ledger transfer seen while checking a payment.
#[derive(Debug)]
pub struct TransactionLog {
    pub transaction_hash: String,
    pub from: String,
    pub to: String,
    pub value: String,
    pub block_number: u64,
    pub log_index: u64,
    pub data: Option<String>,
}

impl Clone for TransactionLog {
    fn clone(&self) -> (r: Self)
        ensures
            r == *self,
    {
        TransactionLog {
            transaction_hash: self.transaction_hash.clone(),
            from: self.from.clone(),
            to: self.to.clone(),
            value: self.value.clone(),
            block_number: self.block_number,
            log_index: self.log_index,
            data: clone_opt_string(&self.data),
        }
    }
}

/// The outcome of one payment check.
#[derive(Debug, Clone)]
pub struct PaymentVerification {
    pub is_paid: bool,
    pub paid_amount: String,
    pub transaction_hash: Option<String>,
    pub verified_at: u64,
    pub chain: ChainConfig,
    pub transaction_logs: Vec<TransactionLog>,
}

/// The payload of a payment challenge.
#[derive(Debug, Clone)]
pub struct X402ProtocolResponse {
    pub status: u16,
    pub payment_required: PaymentRequest,
    pub verification_url: Option<String>,
}

/// What the engine decided for one access request.
#[derive(Debug, Clone)]
pub struct VerificationResult {
    pub should_serve_content: bool,
    pub http_status: u16,
    pub x402_response: Option<X402ProtocolResponse>,
    pub verification: Option<PaymentVerification>,
}

} // verus!

verus! {

/// Chain types with one key belong to one family.
pub proof fn lemma_key_supports(a: ChainType, b: ChainType)
    requires
        a.key() == b.key(),
    ensures
        a is Evm <==> b is Evm,
        a is Solana <==> b is Solana,
        a is Aptos <==> b is Aptos,
        a is Sui <==> b is Sui,
        a is Custom <==> b is Custom,
{
}

} // verus!
