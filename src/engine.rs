//! The protocol engine: issues payment challenges, keeps one session per
//! nonce, and records confirmed payments. Ledger queries happen outside; the
//! engine receives their outcome.
use vstd::prelude::*;
use vstd::string::*;
use crate::config::{has_chain, first_chain, ConfigError, ConfigManager, CurrencyType};
use crate::text::str_eq;
use crate::types::{ChainType, Currency, PaymentRequest, PaymentVerification, VerificationResult, X402ProtocolResponse};
use crate::verification::{all_supported, registered, verifier_for, RegistryEntry, ChainVerifier, PaymentVerifier, VerificationError, VerifierRegistry};

verus! {

/// A challenge that was handed out, keyed by the nonce of its request.
#[derive(Debug)]
pub struct PaymentSession {
    pub user_address: String,
    pub payment_request: PaymentRequest,
    pub created_at: u64,
    pub verified: bool,
}

#[derive(Debug)]
pub enum EngineError {
    ConfigError(ConfigError),
    VerificationError(VerificationError),
    InvalidSession,
    AddressMismatch,
    ChainNotSupported(ChainType),
    VerificationFailed(VerificationError),
    InvalidCurrencyConfig,
    DuplicateNonce,
}

impl EngineError {
    pub open spec fn text(&self) -> Seq<char> {
        match self {
            EngineError::ConfigError(e) => "Configuration error: "@ + e.text(),
            EngineError::VerificationError(e) => "Verification error: "@ + e.text(),
            EngineError::InvalidSession => "Payment session not found"@,
            EngineError::AddressMismatch => "User address mismatch"@,
            EngineError::ChainNotSupported(c) => "Chain not supported: "@ + c.display_name(),
            EngineError::VerificationFailed(e) => "Verification failed: "@ + e.text(),
            EngineError::InvalidCurrencyConfig => "Invalid currency configuration"@,
            EngineError::DuplicateNonce => "Payment nonce already in use"@,
        }
    }

    /// The human-readable description of the error.
    pub fn message(&self) -> (r: String)
        ensures
            r@ == self.text(),
    {
        match self {
            EngineError::ConfigError(e) => String::from_str("Configuration error: ").concat(e.message().as_str()),
            EngineError::VerificationError(e) => String::from_str("Verification error: ").concat(e.message().as_str()),
            EngineError::InvalidSession => String::from_str("Payment session not found"),
            EngineError::AddressMismatch => String::from_str("User address mismatch"),
            EngineError::ChainNotSupported(c) => String::from_str("Chain not supported: ").concat(c.get_display_name().as_str()),
            EngineError::VerificationFailed(e) => String::from_str("Verification failed: ").concat(e.message().as_str()),
            EngineError::InvalidCurrencyConfig => String::from_str("Invalid currency configuration"),
            EngineError::DuplicateNonce => String::from_str("Payment nonce already in use"),
        }
    }
}

pub open spec fn session_at(ss: Seq<PaymentSession>, nonce: Seq<char>, i: int) -> bool {
    0 <= i < ss.len() && ss[i].payment_request.nonce@ == nonce
}

pub open spec fn has_session(ss: Seq<PaymentSession>, nonce: Seq<char>) -> bool {
    exists|i: int| session_at(ss, nonce, i)
}

pub open spec fn nonces_unique(ss: Seq<PaymentSession>) -> bool {
    forall|i: int, j: int|
        0 <= i < ss.len() && 0 <= j < ss.len() && i != j ==> (#[trigger] ss[i]).payment_request.nonce@
            != (#[trigger] ss[j]).payment_request.nonce@
}

/// `post` keeps every session of `pre` at its place with its request, payer
/// and creation time, and never clears a verified flag.
pub open spec fn sessions_extend(pre: Seq<PaymentSession>, post: Seq<PaymentSession>) -> bool {
    &&& pre.len() <= post.len()
    &&& forall|i: int|
        0 <= i < pre.len() ==> {
            &&& (#[trigger] post[i]).payment_request == pre[i].payment_request
            &&& post[i].user_address == pre[i].user_address
            &&& post[i].created_at == pre[i].created_at
            &&& (pre[i].verified ==> post[i].verified)
        }
}

/// A challenge under `nonce` was issued: the nonce was new, and an
/// unverified session for it was added after the existing ones.
pub open spec fn challenge_issued(pre: Seq<PaymentSession>, post: Seq<PaymentSession>, nonce: Seq<char>) -> bool {
    &&& !has_session(pre, nonce)
    &&& post.len() == pre.len() + 1
    &&& post.subrange(0, pre.len() as int) == pre
    &&& post.last().payment_request.nonce@ == nonce
    &&& !post.last().verified
}

/// The terms a challenge carries under the given settings.
pub open spec fn request_terms(
    cm: ConfigManager,
    req: PaymentRequest,
    resource_path: Seq<char>,
    custom_amount: Option<Seq<char>>,
    nonce: Seq<char>,
    now: u64,
) -> bool {
    let cfg = cm.config;
    &&& req.amount@ == match custom_amount {
        Some(a) => a,
        None => cfg.payments.default_amount@,
    }
    &&& req.currency == match cfg.service.default_currency.currency_type {
        CurrencyType::Erc20 => Currency::Token {
            address: cfg.service.default_currency.address->Some_0,
            decimals: cfg.service.default_currency.decimals,
        },
        _ => Currency::Native,
    }
    &&& req.recipient@ == match cm.service_address {
        Some(a) => a@,
        None => crate::config::zero_address(),
    }
    &&& exists|i: int| first_chain(cfg.chains@, cfg.default_chain, i) && req.chain == cfg.chains@[i]
    &&& req.description matches Some(d) && d@ == "Access to: "@ + resource_path
    &&& req.expires_at == Some(
        if now + cfg.payments.expiration_time_secs > u64::MAX {
            u64::MAX
        } else {
            (now + cfg.payments.expiration_time_secs) as u64
        },
    )
    &&& req.nonce@ == nonce
}

/// Whether the settings can produce a challenge at all.
pub open spec fn config_ready(cm: ConfigManager) -> bool {
    &&& has_chain(cm.config.chains@, cm.config.default_chain)
    &&& (cm.config.service.default_currency.currency_type == CurrencyType::Erc20
        ==> cm.config.service.default_currency.address is Some)
}

pub open spec fn opt_view(o: Option<&str>) -> Option<Seq<char>> {
    match o {
        Some(s) => Some(s@),
        None => None,
    }
}

/// Relies on `uuid::Uuid::new_v4` and its hyphenated text form: a random
/// identifier of thirty-six characters.
#[verifier::external_body]
fn new_nonce() -> (r: String)
    ensures
        r@.len() == 36,
{
    uuid::Uuid::new_v4().to_string()
}

/// The payment-gating engine.
pub struct X402 {
    config_manager: ConfigManager,
    verifier_registry: VerifierRegistry,
    sessions: Vec<PaymentSession>,
}

impl X402 {
    pub closed spec fn sessions(&self) -> Seq<PaymentSession> {
        self.sessions@
    }

    pub closed spec fn registry(&self) -> VerifierRegistry {
        self.verifier_registry
    }

    pub closed spec fn config(&self) -> ConfigManager {
        self.config_manager
    }

    /// The registry is well formed and no two sessions share a nonce.
    pub closed spec fn wf(&self) -> bool {
        &&& self.verifier_registry.wf()
        &&& all_supported(self.verifier_registry@)
        &&& nonces_unique(self.sessions@)
    }

    pub fn new(config_manager: ConfigManager) -> (r: Result<Self, EngineError>)
        ensures
            r matches Ok(e) && {
                &&& e.wf()
                &&& e.sessions().len() == 0
                &&& e.registry()@.len() == 0
                &&& e.config() == config_manager
            },
    {
        Ok(X402 { config_manager, verifier_registry: VerifierRegistry::new(), sessions: Vec::new() })
    }

    pub fn config_manager(&self) -> (r: &ConfigManager)
        ensures
            *r == self.config(),
    {
        &self.config_manager
    }

    /// The registry; every verifier in it supports the chain type it is
    /// registered under.
    pub fn verifier_registry(&self) -> (r: &VerifierRegistry)
        requires
            self.wf(),
        ensures
            *r == self.registry(),
            r.wf(),
            all_supported(r@),
    {
        &self.verifier_registry
    }

    fn find_session(&self, nonce: &str) -> (r: Option<usize>)
        ensures
            match r {
                Some(i) => session_at(self.sessions(), nonce@, i as int),
                None => !has_session(self.sessions(), nonce@),
            },
    {
        let mut i: usize = 0;
        while i < self.sessions.len()
            invariant
                i <= self.sessions@.len(),
                forall|j: int| 0 <= j < i ==> !session_at(self.sessions@, nonce@, j),
            decreases self.sessions@.len() - i,
        {
            if str_eq(self.sessions[i].payment_request.nonce.as_str(), nonce) {
                return Some(i);
            }
            i = i + 1;
        }
        None
    }

    /// Registers the verifier for `chain_type`. The chain type must have a
    /// configuration entry and the verifier must support it; otherwise the
    /// registration fails and nothing changes.
    pub fn register_chain_verifier(&mut self, chain_type: ChainType, verifier: ChainVerifier) -> (r: Result<(), EngineError>)
        requires
            old(self).wf(),
        ensures
            final(self).wf(),
            final(self).sessions() == old(self).sessions(),
            final(self).config() == old(self).config(),
            !(has_chain(old(self).config().config.chains@, chain_type) && verifier.supports(chain_type)) ==> {
                &&& r matches Err(EngineError::ChainNotSupported(c)) && c == chain_type
                &&& final(self).registry()@ == old(self).registry()@
            },
            has_chain(old(self).config().config.chains@, chain_type) && verifier.supports(chain_type) ==> {
                &&& r is Ok
                &&& registered(final(self).registry()@, chain_type)
                &&& forall|i: int|
                    crate::verification::entry_at(final(self).registry()@, chain_type, i)
                        ==> (#[trigger] final(self).registry()@[i]).verifier == verifier
                &&& verifier_for(final(self).registry()@, chain_type, verifier)
                &&& forall|c: ChainType, v: ChainVerifier|
                    c.key() != chain_type.key() ==> (#[trigger] verifier_for(final(self).registry()@, c, v)
                        <==> verifier_for(old(self).registry()@, c, v))
            },
    {
        if self.config_manager.get_chain_config(&chain_type).is_none() {
            return Err(EngineError::ChainNotSupported(chain_type));
        }
        if !verifier.supports_chain(&chain_type) {
            return Err(EngineError::ChainNotSupported(chain_type));
        }
        let ghost old_entries = self.verifier_registry@;
        let ghost entry = RegistryEntry { chain_type, verifier };
        self.verifier_registry.register_verifier(chain_type, verifier);
        proof {
            let s = self.verifier_registry@;
            assert forall|k: int| 0 <= k < s.len() implies (#[trigger] s[k]).verifier.supports(s[k].chain_type) by {
                if k < old_entries.len() && s[k] == old_entries[k] {
                } else {
                    assert(s[k] == entry);
                }
            }
        }
        Ok(())
    }

    /// Removes the verifier registered under `chain_type`, if any.
    pub fn remove_chain_verifier(&mut self, chain_type: &ChainType) -> (r: Option<ChainVerifier>)
        requires
            old(self).wf(),
        ensures
            final(self).wf(),
            final(self).sessions() == old(self).sessions(),
            final(self).config() == old(self).config(),
            r is Some <==> registered(old(self).registry()@, *chain_type),
            !registered(final(self).registry()@, *chain_type),
            r matches Some(v) ==> verifier_for(old(self).registry()@, *chain_type, v),
            forall|c: ChainType, v: ChainVerifier|
                c.key() != chain_type.key() ==> (#[trigger] verifier_for(final(self).registry()@, c, v)
                    <==> verifier_for(old(self).registry()@, c, v)),
    {
        let ghost old_entries = self.verifier_registry@;
        let r = self.verifier_registry.remove_verifier(chain_type);
        proof {
            let s = self.verifier_registry@;
            if r is Some {
                let i = choose|i: int| crate::verification::entry_at(old_entries, *chain_type, i)
                    && s == old_entries.remove(i) && r == Some(old_entries[i].verifier);
                assert forall|k: int| 0 <= k < s.len() implies (#[trigger] s[k]).verifier.supports(s[k].chain_type) by {
                    if k < i {
                        assert(s[k] == old_entries[k]);
                    } else {
                        assert(s[k] == old_entries[k + 1]);
                    }
                }
                assert(verifier_for(old_entries, *chain_type, old_entries[i].verifier));
            }
        }
        r
    }

    /// The request behind `payment_nonce`, once the session, the payer and
    /// the chain's verifier are confirmed; the caller checks the ledger
    /// against it.
    pub fn pending_request(&self, user_address: &str, payment_nonce: &str) -> (r: Result<PaymentRequest, EngineError>)
        requires
            self.wf(),
        ensures
            !has_session(self.sessions(), payment_nonce@) ==> r matches Err(EngineError::InvalidSession),
            forall|i: int| #[trigger] session_at(self.sessions(), payment_nonce@, i) ==> {
                let s = self.sessions()[i];
                if s.user_address@ != user_address@ {
                    r matches Err(EngineError::AddressMismatch)
                } else if !registered(self.registry()@, s.payment_request.chain.chain_type) {
                    r matches Err(EngineError::ChainNotSupported(c)) && c == s.payment_request.chain.chain_type
                } else {
                    r == Ok::<PaymentRequest, EngineError>(s.payment_request)
                }
            },
    {
        let i = match self.find_session(payment_nonce) {
            Some(i) => i,
            None => {
                return Err(EngineError::InvalidSession);
            },
        };
        proof {
            self.lemma_session_unique(payment_nonce@, i as int);
        }
        let s = &self.sessions[i];
        if !str_eq(s.user_address.as_str(), user_address) {
            return Err(EngineError::AddressMismatch);
        }
        if !self.verifier_registry.has_verifier(&s.payment_request.chain.chain_type) {
            return Err(EngineError::ChainNotSupported(s.payment_request.chain.chain_type.clone()));
        }
        Ok(s.payment_request.clone())
    }

    /// `drawn` if no session uses it. Otherwise a nonce as long as the number
    /// of sessions whose character at position `k` differs from that of the
    /// `k`-th stored nonce, so that it matches none of them.
    pub fn fresh_nonce(&self, drawn: String) -> (r: String)
        ensures
            !has_session(self.sessions(), r@),
            !has_session(self.sessions(), drawn@) ==> r@ == drawn@,
    {
        if self.find_session(drawn.as_str()).is_none() {
            return drawn;
        }
        let n = self.sessions.len();
        let mut r = String::new();
        let mut j: usize = 0;
        while j < n
            invariant
                n == self.sessions@.len(),
                j <= n,
                r@.len() == j,
                forall|k: int|
                    0 <= k < j && (#[trigger] self.sessions@[k]).payment_request.nonce@.len() == n
                        ==> r@[k] != self.sessions@[k].payment_request.nonce@[k],
            decreases n - j,
        {
            proof {
                reveal_strlit("a");
                reveal_strlit("b");
            }
            let s = self.sessions[j].payment_request.nonce.as_str();
            let l = s.unicode_len();
            let ghost before = r@;
            if l == n && s.get_char(j) == 'a' {
                r.append("b");
            } else {
                r.append("a");
            }
            assert forall|k: int| 0 <= k < j implies r@[k] == before[k] by {}
            j = j + 1;
        }
        proof {
            assert forall|k: int| !session_at(self.sessions@, r@, k) by {
                if session_at(self.sessions@, r@, k) {
                    assert(r@[k] != self.sessions@[k].payment_request.nonce@[k]);
                }
            }
        }
        r
    }

    /// Whether the session behind `payment_nonce` is verified, if there is one.
    pub fn session_verified(&self, payment_nonce: &str) -> (r: Option<bool>)
        requires
            self.wf(),
        ensures
            !has_session(self.sessions(), payment_nonce@) ==> r is None,
            forall|i: int| #[trigger] session_at(self.sessions(), payment_nonce@, i) ==> r == Some(
                self.sessions()[i].verified,
            ),
    {
        match self.find_session(payment_nonce) {
            Some(i) => {
                proof {
                    self.lemma_session_unique(payment_nonce@, i as int);
                }
                Some(self.sessions[i].verified)
            },
            None => None,
        }
    }

    proof fn lemma_session_unique(&self, nonce: Seq<char>, i: int)
        requires
            self.wf(),
            session_at(self.sessions(), nonce, i),
        ensures
            forall|j: int| session_at(self.sessions(), nonce, j) ==> j == i,
    {
        assert forall|j: int| session_at(self.sessions(), nonce, j) implies j == i by {
            if j != i {
                assert(self.sessions@[i].payment_request.nonce@ != self.sessions@[j].payment_request.nonce@);
            }
        }
    }

    /// Confirms the session behind `payment_nonce` with the ledger's
    /// `outcome`. The session must exist, belong to `user_address` and use a
    /// registered chain; a ledger error is passed on. A payment marks the
    /// session verified; nothing ever clears that mark.
    pub fn verify_payment(
        &mut self,
        user_address: &str,
        payment_nonce: &str,
        outcome: Result<PaymentVerification, VerificationError>,
    ) -> (r: Result<PaymentVerification, EngineError>)
        requires
            old(self).wf(),
        ensures
            final(self).wf(),
            final(self).registry() == old(self).registry(),
            final(self).config() == old(self).config(),
            sessions_extend(old(self).sessions(), final(self).sessions()),
            final(self).sessions().len() == old(self).sessions().len(),
            !(r matches Ok(v) && v.is_paid) ==> final(self).sessions() == old(self).sessions(),
            !has_session(old(self).sessions(), payment_nonce@) ==> r matches Err(EngineError::InvalidSession),
            forall|i: int| #[trigger] session_at(old(self).sessions(), payment_nonce@, i) ==> {
                let s = old(self).sessions()[i];
                if s.user_address@ != user_address@ {
                    r matches Err(EngineError::AddressMismatch)
                } else if !registered(old(self).registry()@, s.payment_request.chain.chain_type) {
                    r matches Err(EngineError::ChainNotSupported(c)) && c == s.payment_request.chain.chain_type
                } else {
                    match outcome {
                        Err(e) => r == Err::<PaymentVerification, EngineError>(EngineError::VerificationFailed(e)),
                        Ok(v) => {
                            &&& r == Ok::<PaymentVerification, EngineError>(v)
                            &&& forall|j: int| 0 <= j < old(self).sessions().len() && j != i
                                ==> #[trigger] final(self).sessions()[j] == old(self).sessions()[j]
                            &&& final(self).sessions()[i].verified == (s.verified || v.is_paid)
                        },
                    }
                }
            },
    {
        let i = match self.find_session(payment_nonce) {
            Some(i) => i,
            None => {
                return Err(EngineError::InvalidSession);
            },
        };
        proof {
            self.lemma_session_unique(payment_nonce@, i as int);
        }
        if !str_eq(self.sessions[i].user_address.as_str(), user_address) {
            return Err(EngineError::AddressMismatch);
        }
        if !self.verifier_registry.has_verifier(&self.sessions[i].payment_request.chain.chain_type) {
            return Err(EngineError::ChainNotSupported(self.sessions[i].payment_request.chain.chain_type.clone()));
        }
        let verification = match outcome {
            Ok(v) => v,
            Err(e) => {
                return Err(EngineError::VerificationFailed(e));
            },
        };
        if verification.is_paid {
            let ghost old_sessions = self.sessions@;
            let updated = PaymentSession {
                user_address: self.sessions[i].user_address.clone(),
                payment_request: self.sessions[i].payment_request.clone(),
                created_at: self.sessions[i].created_at,
                verified: true,
            };
            self.sessions.set(i, updated);
            proof {
                assert forall|a: int, b: int|
                    0 <= a < self.sessions@.len() && 0 <= b < self.sessions@.len() && a != b implies
                    (#[trigger] self.sessions@[a]).payment_request.nonce@ != (#[trigger] self.sessions@[b]).payment_request.nonce@ by {
                    assert(old_sessions[a].payment_request.nonce@ != old_sessions[b].payment_request.nonce@);
                }
            }
        }
        Ok(verification)
    }

    fn create_payment_request(
        &self,
        resource_path: &str,
        custom_amount: Option<&str>,
        nonce: String,
        now: u64,
    ) -> (r: Result<PaymentRequest, EngineError>)
        ensures
            !has_chain(self.config().config.chains@, self.config().config.default_chain)
                ==> (r matches Err(EngineError::ConfigError(ConfigError::ChainMissing(c))) && c
                == self.config().config.default_chain),
            has_chain(self.config().config.chains@, self.config().config.default_chain) && !config_ready(self.config())
                ==> r matches Err(EngineError::InvalidCurrencyConfig),
            config_ready(self.config()) ==> (r matches Ok(req) && request_terms(
                self.config(),
                req,
                resource_path@,
                opt_view(custom_amount),
                nonce@,
                now,
            )),
    {
        let config = self.config_manager.get_config();
        let default_chain = match self.config_manager.get_default_chain_config() {
            Ok(c) => c,
            Err(e) => {
                return Err(EngineError::ConfigError(e));
            },
        };
        let amount = match custom_amount {
            Some(a) => String::from_str(a),
            None => config.payments.default_amount.clone(),
        };
        let currency = match config.service.default_currency.currency_type {
            CurrencyType::Erc20 => match &config.service.default_currency.address {
                Some(a) => Currency::Token { address: a.clone(), decimals: config.service.default_currency.decimals },
                None => {
                    return Err(EngineError::InvalidCurrencyConfig);
                },
            },
            _ => Currency::Native,
        };
        let window = config.payments.expiration_time_secs;
        let expires = if now > u64::MAX - window {
            u64::MAX
        } else {
            now + window
        };
        Ok(PaymentRequest {
            amount,
            currency,
            recipient: self.config_manager.get_service_address(),
            chain: default_chain.clone(),
            description: Some(String::from_str("Access to: ").concat(resource_path)),
            expires_at: Some(expires),
            nonce,
        })
    }

    /// Issues a 402 challenge under `nonce` and records its session. A nonce
    /// that is already in use is refused.
    pub fn issue_challenge(
        &mut self,
        user_address: &str,
        resource_path: &str,
        custom_amount: Option<&str>,
        nonce: String,
        now: u64,
    ) -> (r: Result<VerificationResult, EngineError>)
        requires
            old(self).wf(),
        ensures
            final(self).wf(),
            final(self).registry() == old(self).registry(),
            final(self).config() == old(self).config(),
            sessions_extend(old(self).sessions(), final(self).sessions()),
            r is Err ==> final(self).sessions() == old(self).sessions(),
            has_session(old(self).sessions(), nonce@) ==> r matches Err(EngineError::DuplicateNonce),
            !has_session(old(self).sessions(), nonce@) && !has_chain(
                old(self).config().config.chains@,
                old(self).config().config.default_chain,
            ) ==> (r matches Err(EngineError::ConfigError(ConfigError::ChainMissing(c))) && c
                == old(self).config().config.default_chain),
            !has_session(old(self).sessions(), nonce@) && has_chain(
                old(self).config().config.chains@,
                old(self).config().config.default_chain,
            ) && !config_ready(old(self).config()) ==> r matches Err(EngineError::InvalidCurrencyConfig),
            !has_session(old(self).sessions(), nonce@) && config_ready(old(self).config()) ==> (r matches Ok(res) && {
                let s = final(self).sessions().last();
                &&& challenge_issued(old(self).sessions(), final(self).sessions(), nonce@)
                &&& s.user_address@ == user_address@
                &&& s.created_at == now
                &&& request_terms(old(self).config(), s.payment_request, resource_path@, opt_view(custom_amount), nonce@, now)
                &&& !res.should_serve_content
                &&& res.http_status == 402
                &&& res.verification is None
                &&& res.x402_response matches Some(resp) && {
                    &&& resp.status == 402
                    &&& resp.payment_required == s.payment_request
                    &&& resp.verification_url matches Some(u) && u@
                        == old(self).config().config.service.base_verification_url@ + "/"@ + nonce@
                }
            }),
    {
        if self.find_session(nonce.as_str()).is_some() {
            return Err(EngineError::DuplicateNonce);
        }
        let payment_request = match self.create_payment_request(resource_path, custom_amount, nonce, now) {
            Ok(p) => p,
            Err(e) => {
                return Err(e);
            },
        };
        let mut url = self.config_manager.config.service.base_verification_url.clone();
        url.append("/");
        url.append(payment_request.nonce.as_str());
        let response = X402ProtocolResponse {
            status: 402,
            payment_required: payment_request.clone(),
            verification_url: Some(url),
        };
        let ghost old_sessions = self.sessions@;
        self.sessions.push(PaymentSession {
            user_address: String::from_str(user_address),
            payment_request,
            created_at: now,
            verified: false,
        });
        proof {
            let n = old_sessions.len() as int;
            assert(self.sessions@.subrange(0, n) =~= old_sessions);
            assert forall|a: int, b: int|
                0 <= a < self.sessions@.len() && 0 <= b < self.sessions@.len() && a != b implies
                (#[trigger] self.sessions@[a]).payment_request.nonce@ != (#[trigger] self.sessions@[b]).payment_request.nonce@ by {
                if a < n && b < n {
                    assert(old_sessions[a] == self.sessions@[a]);
                    assert(old_sessions[b] == self.sessions@[b]);
                } else if a == n {
                    assert(old_sessions[b] == self.sessions@[b]);
                    assert(!session_at(old_sessions, self.sessions@[a].payment_request.nonce@, b));
                } else {
                    assert(old_sessions[a] == self.sessions@[a]);
                    assert(!session_at(old_sessions, self.sessions@[b].payment_request.nonce@, a));
                }
            }
        }
        Ok(VerificationResult {
            should_serve_content: false,
            http_status: 402,
            x402_response: Some(response),
            verification: None,
        })
    }

    /// Answers an access request. `payment_outcome` is what confirming the
    /// caller's nonce gave, if a nonce came with the request: a confirmed
    /// payment is served; anything else, errors included, gets a new
    /// challenge under a fresh nonce.
    pub fn handle_access_request(
        &mut self,
        user_address: &str,
        resource_path: &str,
        payment_outcome: Option<Result<PaymentVerification, EngineError>>,
        custom_amount: Option<&str>,
        now: u64,
    ) -> (r: Result<VerificationResult, EngineError>)
        requires
            old(self).wf(),
        ensures
            final(self).wf(),
            final(self).registry() == old(self).registry(),
            final(self).config() == old(self).config(),
            sessions_extend(old(self).sessions(), final(self).sessions()),
            r is Err ==> final(self).sessions() == old(self).sessions(),
            (payment_outcome matches Some(Ok(v)) && v.is_paid) ==> {
                &&& final(self).sessions() == old(self).sessions()
                &&& r matches Ok(res) && {
                    &&& res.should_serve_content
                    &&& res.http_status == 200
                    &&& res.x402_response is None
                    &&& res.verification == Some(payment_outcome->Some_0->Ok_0)
                }
            },
            !(payment_outcome matches Some(Ok(v)) && v.is_paid) ==> {
                &&& r matches Ok(res) ==> {
                    &&& !res.should_serve_content
                    &&& res.http_status == 402
                    &&& res.verification is None
                    &&& res.x402_response matches Some(resp) && {
                        let s = final(self).sessions().last();
                        &&& challenge_issued(old(self).sessions(), final(self).sessions(), resp.payment_required.nonce@)
                        &&& resp.status == 402
                        &&& resp.payment_required == s.payment_request
                        &&& s.user_address@ == user_address@
                        &&& s.created_at == now
                        &&& request_terms(
                            old(self).config(),
                            s.payment_request,
                            resource_path@,
                            opt_view(custom_amount),
                            s.payment_request.nonce@,
                            now,
                        )
                        &&& resp.verification_url matches Some(u) && u@
                            == old(self).config().config.service.base_verification_url@ + "/"@ + s.payment_request.nonce@
                    }
                }
                &&& config_ready(old(self).config()) ==> r is Ok
                &&& !has_chain(old(self).config().config.chains@, old(self).config().config.default_chain) ==> (r matches Err(
                    EngineError::ConfigError(ConfigError::ChainMissing(c))) && c == old(self).config().config.default_chain)
                &&& has_chain(old(self).config().config.chains@, old(self).config().config.default_chain) && !config_ready(
                    old(self).config()) ==> r matches Err(EngineError::InvalidCurrencyConfig)
            },
    {
        match payment_outcome {
            Some(Ok(v)) => {
                if v.is_paid {
                    return Ok(VerificationResult {
                        should_serve_content: true,
                        http_status: 200,
                        x402_response: None,
                        verification: Some(v),
                    });
                }
            },
            _ => {},
        }
        let nonce = self.fresh_nonce(new_nonce());
        self.issue_challenge(user_address, resource_path, custom_amount, nonce, now)
    }
}

/// Two challenges issued one after the other carry different nonces.
pub proof fn lemma_consecutive_challenges_differ(
    s0: Seq<PaymentSession>,
    s1: Seq<PaymentSession>,
    s2: Seq<PaymentSession>,
    n1: Seq<char>,
    n2: Seq<char>,
)
    requires
        challenge_issued(s0, s1, n1),
        challenge_issued(s1, s2, n2),
    ensures
        n1 != n2,
{
    assert(session_at(s1, n1, s0.len() as int));
}

/// A retry after a check that found no payment leaves the earlier session
/// unverified and issues its challenge under a different nonce.
pub proof fn lemma_unpaid_retry_issues_new_nonce(
    s0: Seq<PaymentSession>,
    s1: Seq<PaymentSession>,
    s2: Seq<PaymentSession>,
    old_nonce: Seq<char>,
    i: int,
    new_nonce: Seq<char>,
)
    requires
        session_at(s0, old_nonce, i),
        !s0[i].verified,
        s1 == s0,
        challenge_issued(s1, s2, new_nonce),
    ensures
        new_nonce != old_nonce,
        session_at(s2, old_nonce, i),
        !s2[i].verified,
{
    assert(s2.subrange(0, s1.len() as int)[i] == s2[i]);
}

/// Once a session is verified it stays verified through any sequence of
/// engine operations.
pub proof fn lemma_verified_persists(
    s0: Seq<PaymentSession>,
    s1: Seq<PaymentSession>,
    s2: Seq<PaymentSession>,
    i: int,
)
    requires
        sessions_extend(s0, s1),
        sessions_extend(s1, s2),
        0 <= i < s0.len(),
        s0[i].verified,
    ensures
        s2[i].verified,
        s2[i].payment_request == s0[i].payment_request,
{
    assert(s1[i].verified);
}

} // verus!
