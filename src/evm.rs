//! Payment checks for account-based (EVM) ledgers. The ledger records are
//! fetched by the caller; this module validates the request and decides.
use vstd::prelude::*;
use vstd::string::*;
use vstd::arithmetic::power2::pow2;
use crate::amount::{decimal_of, u64_to_decimal, all_digits, chars_of, dec_ge, dec_val, is_digit_string, parse_u64_digits, pow10, scale_digits, zeros, lemma_dec_concat, lemma_dec_zeros};
use crate::types::{ChainType, Currency, EvmChain, PaymentRequest, PaymentVerification, TransactionLog};
use crate::verification::{PaymentVerifier, VerificationError};

verus! {

/// Number of most recent blocks searched for a payment.
pub const LOOKBACK_BLOCKS: u64 = 100;

/// The value of a hexadecimal digit of either case.
pub open spec fn hex_value(c: char) -> Option<nat> {
    if '0' <= c && c <= '9' {
        Some((c as nat - '0' as nat) as nat)
    } else if 'a' <= c && c <= 'f' {
        Some((c as nat - 'a' as nat + 10) as nat)
    } else if 'A' <= c && c <= 'F' {
        Some((c as nat - 'A' as nat + 10) as nat)
    } else {
        None
    }
}

/// Space, tab, carriage return and line feed, which address text may hold
/// between its digits.
pub open spec fn is_hex_gap(c: char) -> bool {
    c == ' ' || c == '\t' || c == '\r' || c == '\n'
}

/// The hex digits of an address: without a leading `0x`, gaps dropped.
pub open spec fn address_digits(s: Seq<char>) -> Seq<char> {
    let body = if s.len() >= 2 && s[0] == '0' && s[1] == 'x' { s.skip(2) } else { s };
    body.filter(|c: char| !is_hex_gap(c))
}

/// The twenty bytes that an account address denotes, if it is one: forty
/// hex digits, two per byte, most significant first.
pub open spec fn h160_of(s: Seq<char>) -> Option<Seq<u8>> {
    let d = address_digits(s);
    if d.len() == 40 && forall|i: int| 0 <= i < 40 ==> (#[trigger] hex_value(d[i])) is Some {
        Some(
            Seq::new(
                20,
                |i: int| (hex_value(d[2 * i])->Some_0 * 16 + hex_value(d[2 * i + 1])->Some_0) as u8,
            ),
        )
    } else {
        None
    }
}

/// Relies on ethers' `H160::from_str`: an optional `0x` prefix and forty hex
/// digits (spaces, tabs and line breaks between them are skipped) give the
/// twenty address bytes; anything else is an error.
#[verifier::external_body]
fn parse_h160(s: &str) -> (r: Option<Vec<u8>>)
    ensures
        match r {
            Some(v) => h160_of(s@) == Some(v@) && v@.len() == 20,
            None => h160_of(s@) is None,
        },
{
    match <ethers::types::H160 as std::str::FromStr>::from_str(s) {
        Ok(h) => Some(h.as_bytes().to_vec()),
        Err(_) => None,
    }
}

/// Relies on ethers' `U256::from_dec_str`: it reads exactly the strings of
/// decimal digits whose value is below 2^256; no digits read as zero.
#[verifier::external_body]
fn fits_u256(s: &str) -> (r: bool)
    ensures
        r == valid_amount(s@),
{
    ethers::types::U256::from_dec_str(s).is_ok()
}

/// The chain id an EVM network reports, as the chain type names it.
pub open spec fn expected_chain_id(e: EvmChain) -> Option<nat> {
    match e {
        EvmChain::Ethereum => Some(1),
        EvmChain::Polygon => Some(137),
        EvmChain::BinanceSmartChain => Some(56),
        EvmChain::Arbitrum => Some(42161),
        EvmChain::Optimism => Some(10),
        EvmChain::Avalanche => Some(43114),
        EvmChain::Base => Some(8453),
        EvmChain::Custom(id) => if id@.len() > 0 && all_digits(id@) && dec_val(id@) <= u64::MAX {
            Some(dec_val(id@))
        } else {
            None
        },
    }
}

/// First block of the search window that ends at `latest`.
pub open spec fn window_start(latest: nat) -> nat {
    if latest >= LOOKBACK_BLOCKS {
        (latest - LOOKBACK_BLOCKS) as nat
    } else {
        0
    }
}

/// An amount that fits the ledger's 256-bit unsigned integers, written in
/// decimal digits.
pub open spec fn valid_amount(s: Seq<char>) -> bool {
    all_digits(s) && dec_val(s) < pow2(256)
}

/// A native transfer pays when it comes from the payer and carries enough.
pub open spec fn native_pays(log: TransactionLog, payer: Seq<u8>, required: nat) -> bool {
    &&& h160_of(log.from@) == Some(payer)
    &&& all_digits(log.value@)
    &&& dec_val(log.value@) >= required
}

/// A token transfer (already scoped to payer and recipient) pays when its
/// raw value reaches the requirement.
pub open spec fn token_pays(log: TransactionLog, required: nat) -> bool {
    all_digits(log.value@) && dec_val(log.value@) >= required
}

/// The base units that `amount` asks for in `currency`.
pub open spec fn required_units(amount: Seq<char>, currency: Currency) -> nat {
    match currency {
        Currency::Native => dec_val(amount),
        Currency::Token { decimals, .. } => dec_val(amount) * pow10(decimals as nat),
    }
}

/// Whether some ledger record settles the request.
pub open spec fn evm_paid(request: PaymentRequest, payer: Seq<u8>, ledger: Seq<TransactionLog>) -> bool {
    let required = required_units(request.amount@, request.currency);
    match request.currency {
        Currency::Native => exists|i: int| 0 <= i < ledger.len() && native_pays(#[trigger] ledger[i], payer, required),
        Currency::Token { .. } => exists|i: int| 0 <= i < ledger.len() && token_pays(#[trigger] ledger[i], required),
    }
}

/// Why a request cannot be checked against the ledger.
pub enum RequestFault {
    Address,
    Amount,
}

/// The fault a request meets before the ledger is consulted, if any: payer
/// and recipient addresses first, then the amount, then the token address.
pub open spec fn request_fault(request: PaymentRequest, payer: Seq<char>) -> Option<RequestFault> {
    if h160_of(payer) is None || h160_of(request.recipient@) is None {
        Some(RequestFault::Address)
    } else if !valid_amount(request.amount@) {
        Some(RequestFault::Amount)
    } else {
        match request.currency {
            Currency::Token { address, .. } => if h160_of(address@) is None {
                Some(RequestFault::Address)
            } else {
                None
            },
            Currency::Native => None,
        }
    }
}

/// The error a request fault is reported as.
pub open spec fn fault_reported(f: Option<RequestFault>, r: Result<(), VerificationError>) -> bool {
    match f {
        Some(RequestFault::Address) => r matches Err(VerificationError::InvalidAddress),
        Some(RequestFault::Amount) => r matches Err(VerificationError::ParseError(_)),
        None => r is Ok,
    }
}

/// A verifier for one EVM network whose endpoint reported the expected id.
#[derive(Debug)]
pub struct EvmVerifier {
    pub chain_type: ChainType,
    pub rpc_url: String,
}

impl PaymentVerifier for EvmVerifier {
    open spec fn supports(&self, chain_type: ChainType) -> bool {
        chain_type is Evm
    }

    fn supports_chain(&self, chain_type: &ChainType) -> (r: bool) {
        chain_type.is_evm()
    }
}

fn bytes_eq(a: &Vec<u8>, b: &Vec<u8>) -> (r: bool)
    ensures
        r == (a@ == b@),
{
    if a.len() != b.len() {
        return false;
    }
    let mut i: usize = 0;
    while i < a.len()
        invariant
            a@.len() == b@.len(),
            i <= a@.len(),
            forall|j: int| 0 <= j < i ==> a@[j] == b@[j],
        decreases a@.len() - i,
    {
        if a[i] != b[i] {
            return false;
        }
        i = i + 1;
    }
    assert(a@ =~= b@);
    true
}

impl EvmVerifier {
    /// Binds a verifier to `chain_type` once the endpoint at `rpc_url` has
    /// reported `reported_chain_id`; a mismatch with the canonical id fails.
    pub fn new(rpc_url: String, chain_type: ChainType, reported_chain_id: u64) -> (r: Result<Self, VerificationError>)
        ensures
            !(chain_type is Evm) ==> r matches Err(VerificationError::ChainNotSupported),
            chain_type matches ChainType::Evm(e) ==> match expected_chain_id(e) {
                None => r matches Err(VerificationError::ParseError(_)),
                Some(id) => if id == reported_chain_id {
                    r matches Ok(v) && v.chain_type == chain_type && v.rpc_url == rpc_url
                } else {
                    r matches Err(VerificationError::NetworkError(m)) && m@ == "Chain ID mismatch: expected "@
                        + decimal_of(id) + ", got "@ + decimal_of(reported_chain_id as nat)
                },
            },
    {
        let expected: u64 = match &chain_type {
            ChainType::Evm(e) => match e {
                EvmChain::Ethereum => 1,
                EvmChain::Polygon => 137,
                EvmChain::BinanceSmartChain => 56,
                EvmChain::Arbitrum => 42161,
                EvmChain::Optimism => 10,
                EvmChain::Avalanche => 43114,
                EvmChain::Base => 8453,
                EvmChain::Custom(id) => {
                    let cs = chars_of(id.as_str());
                    if cs.len() == 0 {
                        return Err(VerificationError::ParseError(String::from_str("Invalid custom chain ID: ").concat(id.as_str())));
                    }
                    match parse_u64_digits(&cs, 0, cs.len()) {
                        Some(x) => {
                            assert(cs@.subrange(0, cs@.len() as int) =~= id@);
                            x
                        },
                        None => {
                            assert(cs@.subrange(0, cs@.len() as int) =~= id@);
                            return Err(VerificationError::ParseError(String::from_str("Invalid custom chain ID: ").concat(id.as_str())));
                        },
                    }
                },
            },
            _ => {
                return Err(VerificationError::ChainNotSupported);
            },
        };
        if expected != reported_chain_id {
            let msg = String::from_str("Chain ID mismatch: expected ").concat(
                u64_to_decimal(expected).as_str(),
            ).concat(", got ").concat(u64_to_decimal(reported_chain_id).as_str());
            return Err(VerificationError::NetworkError(msg));
        }
        Ok(EvmVerifier { chain_type, rpc_url })
    }

    /// First block of the window ending at `latest_block`.
    pub fn lookback_start(latest_block: u64) -> (r: u64)
        ensures
            r == window_start(latest_block as nat),
    {
        if latest_block >= LOOKBACK_BLOCKS {
            latest_block - LOOKBACK_BLOCKS
        } else {
            0
        }
    }

    fn any_native_payment(ledger: &Vec<TransactionLog>, payer: &Vec<u8>, required: &Vec<char>) -> (r: bool)
        requires
            all_digits(required@),
        ensures
            r == exists|i: int| 0 <= i < ledger@.len() && native_pays(#[trigger] ledger@[i], payer@, dec_val(required@)),
    {
        let mut i: usize = 0;
        while i < ledger.len()
            invariant
                i <= ledger@.len(),
                all_digits(required@),
                forall|j: int| 0 <= j < i ==> !native_pays(#[trigger] ledger@[j], payer@, dec_val(required@)),
            decreases ledger@.len() - i,
        {
            let log = &ledger[i];
            match parse_h160(log.from.as_str()) {
                Some(from) => {
                    if bytes_eq(&from, payer) {
                        let value = chars_of(log.value.as_str());
                        if is_digit_string(&value) && dec_ge(&value, required) {
                            return true;
                        }
                    }
                },
                None => {},
            }
            i = i + 1;
        }
        false
    }

    fn any_token_payment(ledger: &Vec<TransactionLog>, required: &Vec<char>) -> (r: bool)
        requires
            all_digits(required@),
        ensures
            r == exists|i: int| 0 <= i < ledger@.len() && token_pays(#[trigger] ledger@[i], dec_val(required@)),
    {
        let mut i: usize = 0;
        while i < ledger.len()
            invariant
                i <= ledger@.len(),
                all_digits(required@),
                forall|j: int| 0 <= j < i ==> !token_pays(#[trigger] ledger@[j], dec_val(required@)),
            decreases ledger@.len() - i,
        {
            let value = chars_of(ledger[i].value.as_str());
            if is_digit_string(&value) && dec_ge(&value, required) {
                return true;
            }
            i = i + 1;
        }
        false
    }

    /// Checks the addresses and the amount of a request, as `verify_payment`
    /// does before it reads any ledger record.
    pub fn check_request(payment_request: &PaymentRequest, payer_address: &str) -> (r: Result<(), VerificationError>)
        ensures
            fault_reported(request_fault(*payment_request, payer_address@), r),
    {
        if parse_h160(payer_address).is_none() || parse_h160(payment_request.recipient.as_str()).is_none() {
            return Err(VerificationError::InvalidAddress);
        }
        if !fits_u256(payment_request.amount.as_str()) {
            return Err(VerificationError::ParseError(String::from_str("Invalid amount")));
        }
        match &payment_request.currency {
            Currency::Token { address, .. } => {
                if parse_h160(address.as_str()).is_none() {
                    return Err(VerificationError::InvalidAddress);
                }
            },
            Currency::Native => {},
        }
        Ok(())
    }

    /// Decides a payment from the records fetched for the request's window:
    /// for the native asset, the transactions addressed to the recipient; for
    /// a token, the transfer events from payer to recipient. Every record is
    /// kept as the audit trail.
    pub fn verify_payment(
        &self,
        payment_request: &PaymentRequest,
        payer_address: &str,
        ledger: Vec<TransactionLog>,
        now: u64,
    ) -> (r: Result<PaymentVerification, VerificationError>)
        ensures
            match request_fault(*payment_request, payer_address@) {
                Some(RequestFault::Address) => r matches Err(VerificationError::InvalidAddress),
                Some(RequestFault::Amount) => r matches Err(VerificationError::ParseError(_)),
                None => r matches Ok(v) && {
                    let paid = evm_paid(*payment_request, h160_of(payer_address@)->Some_0, ledger@);
                    &&& v.is_paid == paid
                    &&& v.paid_amount@ == if paid { payment_request.amount@ } else { "0"@ }
                    &&& v.transaction_hash == if ledger@.len() > 0 {
                        Some(ledger@[0].transaction_hash)
                    } else {
                        None
                    }
                    &&& v.verified_at == now
                    &&& v.chain == payment_request.chain
                    &&& v.transaction_logs@ == ledger@
                },
            },
    {
        let payer = match parse_h160(payer_address) {
            Some(p) => p,
            None => {
                return Err(VerificationError::InvalidAddress);
            },
        };
        match parse_h160(payment_request.recipient.as_str()) {
            Some(_) => {},
            None => {
                return Err(VerificationError::InvalidAddress);
            },
        }
        if !fits_u256(payment_request.amount.as_str()) {
            return Err(VerificationError::ParseError(String::from_str("Invalid amount")));
        }
        let required = chars_of(payment_request.amount.as_str());
        let is_paid = match &payment_request.currency {
            Currency::Native => Self::any_native_payment(&ledger, &payer, &required),
            Currency::Token { address, decimals } => {
                match parse_h160(address.as_str()) {
                    Some(_) => {},
                    None => {
                        return Err(VerificationError::InvalidAddress);
                    },
                }
                let scaled = scale_digits(&required, *decimals);
                proof {
                    lemma_dec_concat(required@, zeros(*decimals as nat));
                    lemma_dec_zeros(*decimals as nat);
                    assert(all_digits(scaled@)) by {
                        assert forall|j: int| 0 <= j < scaled@.len() implies crate::amount::is_digit(#[trigger] scaled@[j]) by {
                            if j < required@.len() {
                                assert(scaled@[j] == required@[j]);
                            } else {
                                assert(scaled@[j] == zeros(*decimals as nat)[j - required@.len()]);
                            }
                        }
                    }
                }
                Self::any_token_payment(&ledger, &scaled)
            },
        };
        let paid_amount = if is_paid {
            payment_request.amount.clone()
        } else {
            String::from_str("0")
        };
        let transaction_hash = if ledger.len() > 0 {
            Some(ledger[0].transaction_hash.clone())
        } else {
            None
        };
        Ok(PaymentVerification {
            is_paid,
            paid_amount,
            transaction_hash,
            verified_at: now,
            chain: payment_request.chain.clone(),
            transaction_logs: ledger,
        })
    }
}

} // verus!
