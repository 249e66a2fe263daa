//! Engine settings: service identity, chains, payment defaults and cache
//! settings, and a builder over them.
use vstd::prelude::*;
use vstd::string::*;
use crate::types::{ChainConfig, ChainType, EvmChain};

verus! {

#[derive(Debug, Clone)]
pub enum ConfigError {
    FileNotFound(String),
    InvalidConfig(String),
    ChainMissing(ChainType),
    IoError(String),
    SerializationError(String),
}

impl ConfigError {
    pub open spec fn text(&self) -> Seq<char> {
        match self {
            ConfigError::FileNotFound(p) => "Configuration file not found: "@ + p@,
            ConfigError::InvalidConfig(m) => "Invalid configuration: "@ + m@,
            ConfigError::ChainMissing(c) => "Chain configuration missing: "@ + c.display_name(),
            ConfigError::IoError(m) => "IO error: "@ + m@,
            ConfigError::SerializationError(m) => "Serialization error: "@ + m@,
        }
    }

    /// The human-readable description of the error.
    pub fn message(&self) -> (r: String)
        ensures
            r@ == self.text(),
    {
        match self {
            ConfigError::FileNotFound(p) => String::from_str("Configuration file not found: ").concat(p.as_str()),
            ConfigError::InvalidConfig(m) => String::from_str("Invalid configuration: ").concat(m.as_str()),
            ConfigError::ChainMissing(c) => {
                let name = c.get_display_name();
                String::from_str("Chain configuration missing: ").concat(name.as_str())
            },
            ConfigError::IoError(m) => String::from_str("IO error: ").concat(m.as_str()),
            ConfigError::SerializationError(m) => String::from_str("Serialization error: ").concat(m.as_str()),
        }
    }
}

#[derive(Debug, Clone, Copy, PartialEq, Eq, Structural)]
pub enum CurrencyType {
    Native,
    Erc20,
    Erc721,
    Coin,
}

#[derive(Debug)]
pub struct CurrencyConfig {
    pub currency_type: CurrencyType,
    pub address: Option<String>,
    pub decimals: u8,
}

#[derive(Debug)]
pub struct ServiceConfig {
    pub name: String,
    pub description: String,
    pub base_verification_url: String,
    pub default_currency: CurrencyConfig,
}

#[derive(Debug)]
pub struct PaymentConfig {
    pub default_amount: String,
    pub expiration_time_secs: u64,
    pub allowed_currencies: Vec<CurrencyConfig>,
}

#[derive(Debug)]
pub struct CacheConfig {
    pub enabled: bool,
    pub ttl_secs: u64,
    pub max_entries: usize,
}

/// The whole configuration. `chains` holds at most one entry per chain type.
#[derive(Debug)]
pub struct X402Config {
    pub service: ServiceConfig,
    pub chains: Vec<ChainConfig>,
    pub payments: PaymentConfig,
    pub cache: CacheConfig,
    pub default_chain: ChainType,
}

/// The entry of `chains` for chain type `c`, if any.
pub open spec fn chain_entry(chains: Seq<ChainConfig>, c: ChainType, i: int) -> bool {
    0 <= i < chains.len() && chains[i].chain_type.key() == c.key()
}

pub open spec fn has_chain(chains: Seq<ChainConfig>, c: ChainType) -> bool {
    exists|i: int| chain_entry(chains, c, i)
}

/// Entry `i` is the first for chain type `c`; lookups return it.
pub open spec fn first_chain(chains: Seq<ChainConfig>, c: ChainType, i: int) -> bool {
    chain_entry(chains, c, i) && forall|j: int| 0 <= j < i ==> !chain_entry(chains, c, j)
}

/// The address that receives payments when none is configured.
pub open spec fn zero_address() -> Seq<char> {
    "0x0000000000000000000000000000000000000000"@
}

/// Settings together with the service address taken from the environment.
#[derive(Debug)]
pub struct ConfigManager {
    pub config: X402Config,
    pub service_address: Option<String>,
}

fn find_chain(chains: &Vec<ChainConfig>, chain_type: &ChainType) -> (r: Option<usize>)
    ensures
        match r {
            Some(i) => first_chain(chains@, *chain_type, i as int),
            None => !has_chain(chains@, *chain_type),
        },
{
    let mut i: usize = 0;
    while i < chains.len()
        invariant
            i <= chains@.len(),
            forall|j: int| 0 <= j < i ==> !chain_entry(chains@, *chain_type, j),
        decreases chains@.len() - i,
    {
        if chains[i].chain_type == *chain_type {
            return Some(i);
        }
        i = i + 1;
    }
    None
}

/// The built-in settings: Ethereum and Polygon endpoints, Ethereum by
/// default, native currency, an amount of 10^15 base units, one hour to pay.
pub fn default_config() -> (r: X402Config)
    ensures
        r.default_chain == ChainType::Evm(EvmChain::Ethereum),
        r.chains@.len() == 2,
        r.chains@[0].chain_type == ChainType::Evm(EvmChain::Ethereum),
        r.chains@[1].chain_type == ChainType::Evm(EvmChain::Polygon),
        r.chains@[0].chain_id@ == "1"@,
        r.chains@[1].chain_id@ == "137"@,
        r.chains@[0].rpc_url matches Some(u) && u@ == "https://eth.llamarpc.com"@,
        r.chains@[1].rpc_url matches Some(u) && u@ == "https://polygon-rpc.com"@,
        r.service.default_currency.address is None,
        r.service.default_currency.decimals == 18,
        r.payments.default_amount@ == "1000000000000000"@,
        r.payments.expiration_time_secs == 3600,
        r.service.default_currency.currency_type == CurrencyType::Native,
        r.service.base_verification_url@ == "https://api.example.com/verify"@,
{
    let mut chains: Vec<ChainConfig> = Vec::new();
    chains.push(ChainConfig::new(ChainType::Evm(EvmChain::Ethereum), Some(String::from_str("https://eth.llamarpc.com"))));
    chains.push(ChainConfig::new(ChainType::Evm(EvmChain::Polygon), Some(String::from_str("https://polygon-rpc.com"))));
    let mut allowed: Vec<CurrencyConfig> = Vec::new();
    allowed.push(CurrencyConfig { currency_type: CurrencyType::Native, address: None, decimals: 18 });
    X402Config {
        service: ServiceConfig {
            name: String::from_str("X402 Payment Service"),
            description: String::from_str("A service protected by x402 payment protocol"),
            base_verification_url: String::from_str("https://api.example.com/verify"),
            default_currency: CurrencyConfig {
                currency_type: CurrencyType::Native,
                address: None,
                decimals: 18,
            },
        },
        chains,
        payments: PaymentConfig {
            default_amount: String::from_str("1000000000000000"),
            expiration_time_secs: 3600,
            allowed_currencies: allowed,
        },
        cache: CacheConfig { enabled: true, ttl_secs: 300, max_entries: 1000 },
        default_chain: ChainType::Evm(EvmChain::Ethereum),
    }
}

/// Inserts `entry` under `chain_type`, replacing an entry with that key.
fn put_chain(chains: &mut Vec<ChainConfig>, chain_type: &ChainType, entry: ChainConfig)
    requires
        entry.chain_type.key() == chain_type.key(),
    ensures
        exists|i: int| first_chain(final(chains)@, *chain_type, i) && final(chains)@[i] == entry,
{
    match find_chain(chains, chain_type) {
        Some(i) => {
            let ghost old_chains = chains@;
            chains.set(i, entry);
            assert forall|j: int| 0 <= j < i implies !chain_entry(chains@, *chain_type, j) by {
                assert(!chain_entry(old_chains, *chain_type, j));
            }
            assert(first_chain(chains@, *chain_type, i as int));
        },
        None => {
            let ghost old_chains = chains@;
            chains.push(entry);
            let ghost n = old_chains.len() as int;
            assert forall|j: int| 0 <= j < n implies !chain_entry(chains@, *chain_type, j) by {
                assert(!chain_entry(old_chains, *chain_type, j));
            }
            assert(first_chain(chains@, *chain_type, n));
        },
    }
}

impl ConfigManager {
    /// The built-in settings with the given service address.
    pub fn new(service_address: Option<String>) -> (r: Result<Self, ConfigError>)
        ensures
            r matches Ok(m) && m.service_address == service_address,
    {
        Ok(ConfigManager { config: default_config(), service_address })
    }

    pub fn from_config(config: X402Config, service_address: Option<String>) -> (r: Self)
        ensures
            r.config == config,
            r.service_address == service_address,
    {
        ConfigManager { config, service_address }
    }

    /// Replaces the settings.
    pub fn update_config(&mut self, config: X402Config)
        ensures
            final(self).config == config,
            final(self).service_address == old(self).service_address,
    {
        self.config = config;
    }

    pub fn get_config(&self) -> (r: &X402Config)
        ensures
            *r == self.config,
    {
        &self.config
    }

    pub fn get_chain_config(&self, chain_type: &ChainType) -> (r: Option<&ChainConfig>)
        ensures
            r is Some <==> has_chain(self.config.chains@, *chain_type),
            r matches Some(c) ==> exists|i: int|
                first_chain(self.config.chains@, *chain_type, i) && self.config.chains@[i] == *c,
    {
        match find_chain(&self.config.chains, chain_type) {
            Some(i) => Some(&self.config.chains[i]),
            None => None,
        }
    }

    pub fn get_default_chain_config(&self) -> (r: Result<&ChainConfig, ConfigError>)
        ensures
            r is Ok <==> has_chain(self.config.chains@, self.config.default_chain),
            r matches Ok(c) ==> exists|i: int|
                first_chain(self.config.chains@, self.config.default_chain, i) && self.config.chains@[i] == *c,
            r matches Err(e) ==> e matches ConfigError::ChainMissing(c) && c == self.config.default_chain,
    {
        match find_chain(&self.config.chains, &self.config.default_chain) {
            Some(i) => Ok(&self.config.chains[i]),
            None => Err(ConfigError::ChainMissing(self.config.default_chain.clone())),
        }
    }

    /// The configured service address, or the zero address.
    pub fn get_service_address(&self) -> (r: String)
        ensures
            r@ == match self.service_address {
                Some(a) => a@,
                None => zero_address(),
            },
    {
        match &self.service_address {
            Some(a) => a.clone(),
            None => String::from_str("0x0000000000000000000000000000000000000000"),
        }
    }
}

/// Builds a configuration from the built-in settings.
pub struct ConfigBuilder {
    pub config: X402Config,
}

impl ConfigBuilder {
    pub fn new() -> (r: Self)
        ensures
            r.config.default_chain == ChainType::Evm(EvmChain::Ethereum),
            r.config.chains@.len() == 2,
            r.config.payments.default_amount@ == "1000000000000000"@,
            r.config.payments.expiration_time_secs == 3600,
    {
        ConfigBuilder { config: default_config() }
    }

    pub fn with_service_name(self, name: &str) -> (r: Self)
        ensures
            r.config.service.name@ == name@,
            r.config.chains == self.config.chains,
            r.config.payments == self.config.payments,
            r.config.default_chain == self.config.default_chain,
    {
        let mut b = self;
        b.config.service.name = String::from_str(name);
        b
    }

    pub fn with_default_chain(self, chain_type: ChainType) -> (r: Self)
        ensures
            r.config.default_chain == chain_type,
            r.config.chains == self.config.chains,
            r.config.payments == self.config.payments,
            r.config.service == self.config.service,
    {
        let mut b = self;
        b.config.default_chain = chain_type;
        b
    }

    /// Adds a chain entry, replacing the one with the same chain type.
    pub fn with_chain(self, chain_type: ChainType, chain_config: ChainConfig) -> (r: Self)
        ensures
            exists|i: int|
                first_chain(r.config.chains@, chain_type, i) && r.config.chains@[i].chain_type == chain_type
                    && r.config.chains@[i].chain_id == chain_config.chain_id
                    && r.config.chains@[i].rpc_url == chain_config.rpc_url,
            r.config.default_chain == self.config.default_chain,
            r.config.payments == self.config.payments,
            r.config.service == self.config.service,
    {
        let mut b = self;
        let entry = ChainConfig {
            chain_type: chain_type.clone(),
            chain_id: chain_config.chain_id,
            rpc_url: chain_config.rpc_url,
        };
        let ghost e = entry;
        put_chain(&mut b.config.chains, &chain_type, entry);
        proof {
            let i = choose|i: int| first_chain(b.config.chains@, chain_type, i) && b.config.chains@[i] == e;
            assert(first_chain(b.config.chains@, chain_type, i) && b.config.chains@[i].chain_type == chain_type);
        }
        b
    }

    pub fn with_payment_amount(self, amount: &str) -> (r: Self)
        ensures
            r.config.payments.default_amount@ == amount@,
            r.config.payments.expiration_time_secs == self.config.payments.expiration_time_secs,
            r.config.chains == self.config.chains,
            r.config.default_chain == self.config.default_chain,
            r.config.service == self.config.service,
    {
        let mut b = self;
        b.config.payments.default_amount = String::from_str(amount);
        b
    }

    pub fn with_expiration_time(self, seconds: u64) -> (r: Self)
        ensures
            r.config.payments.expiration_time_secs == seconds,
            r.config.payments.default_amount == self.config.payments.default_amount,
            r.config.chains == self.config.chains,
            r.config.default_chain == self.config.default_chain,
            r.config.service == self.config.service,
    {
        let mut b = self;
        b.config.payments.expiration_time_secs = seconds;
        b
    }

    pub fn build(self) -> (r: X402Config)
        ensures
            r == self.config,
    {
        self.config
    }
}

} // verus!
