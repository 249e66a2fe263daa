//! Payment checks for instruction-based ledgers (Solana), and the verifiers
//! of the two other families that are checked the same way.
use vstd::prelude::*;
use vstd::string::*;
use crate::amount::{decimal_of, lemma_decimal_of, u64_to_decimal, all_digits, chars_of, dec_val, digit_value, is_digit, parse_u64_digits, pow10, is_digit_string, lemma_dec_bound, lemma_pow10_9, lemma_pow10_pos, lemma_pow_add, lemma_pow_mono};
use crate::types::{ChainType, PaymentRequest, PaymentVerification, SolanaChain, TransactionLog};
use crate::verification::{PaymentVerifier, VerificationError};

verus! {

/// Base units in one whole coin.
pub const LAMPORTS_PER_SOL: u64 = 1_000_000_000;

/// Most recent transactions examined per check.
pub const SCAN_LIMIT: usize = 50;

/// What `str::trim` leaves of a string: leading and trailing characters
/// with the Unicode White_Space property removed.
pub open spec fn trimmed(s: Seq<char>) -> Seq<char> {
    trim_end(trim_start(s))
}

/// A character with the Unicode White_Space property.
pub open spec fn is_white_space(c: char) -> bool {
    ('\u{9}' <= c && c <= '\u{d}') || c == ' ' || c == '\u{85}' || c == '\u{a0}' || c == '\u{1680}'
        || ('\u{2000}' <= c && c <= '\u{200a}') || c == '\u{2028}' || c == '\u{2029}' || c == '\u{202f}'
        || c == '\u{205f}' || c == '\u{3000}'
}

/// `s` without its leading white space.
pub open spec fn trim_start(s: Seq<char>) -> Seq<char>
    decreases s.len(),
{
    if s.len() > 0 && is_white_space(s[0]) {
        trim_start(s.drop_first())
    } else {
        s
    }
}

/// `s` without its trailing white space.
pub open spec fn trim_end(s: Seq<char>) -> Seq<char>
    decreases s.len(),
{
    if s.len() > 0 && is_white_space(s.last()) {
        trim_end(s.drop_last())
    } else {
        s
    }
}

/// A printable ASCII character other than the space; never white space.
pub open spec fn visible_ascii(c: char) -> bool {
    '!' <= c && c <= '~'
}

/// Relies on `str::trim`: the string without leading and trailing
/// characters for which `char::is_whitespace` holds (Unicode White_Space).
#[verifier::external_body]
fn trim_str(s: &str) -> (r: &str)
    ensures
        r@ == trimmed(s@),
{
    s.trim()
}

/// Text that starts and ends with a visible character is its own trim.
pub proof fn lemma_visible_is_trimmed(s: Seq<char>)
    requires
        visible_ends(s),
    ensures
        trimmed(s) == s,
{
}

/// The characters of `s` other than commas.
pub open spec fn strip_commas(s: Seq<char>) -> Seq<char>
    decreases s.len(),
{
    if s.len() == 0 {
        s
    } else if s.last() == ',' {
        strip_commas(s.drop_last())
    } else {
        strip_commas(s.drop_last()).push(s.last())
    }
}

/// Base units of a fractional part: nine places, the tenth rounding half up.
pub open spec fn frac_units(f: Seq<char>) -> nat {
    if f.len() <= 9 {
        dec_val(f) * pow10((9 - f.len()) as nat)
    } else {
        dec_val(f.subrange(0, 9)) + if digit_value(f[9]) >= 5 { 1nat } else { 0nat }
    }
}

/// `c[k]` is the one decimal point of `c`, with digits on both sides.
pub open spec fn point_at(c: Seq<char>, k: int) -> bool {
    &&& 0 <= k < c.len()
    &&& c[k] == '.'
    &&& all_digits(c.subrange(0, k))
    &&& all_digits(c.subrange(k + 1, c.len() as int))
}

/// The base units an amount denotes: an optional leading `+`, then digits
/// alone for base units, or digits with one decimal point for whole coins.
/// Exponent forms such as `1.5e3` and negative amounts are not amounts.
pub open spec fn lamports_of(c: Seq<char>) -> Option<nat> {
    if c.len() > 0 && c[0] == '+' {
        unsigned_lamports_of(c.drop_first())
    } else {
        unsigned_lamports_of(c)
    }
}

/// `lamports_of` for an amount without sign.
pub open spec fn unsigned_lamports_of(c: Seq<char>) -> Option<nat> {
    if c.len() == 0 {
        None
    } else if all_digits(c) {
        Some(dec_val(c))
    } else if c.len() > 1 && exists|k: int| point_at(c, k) {
        let k = choose|k: int| point_at(c, k);
        Some(
            (dec_val(c.subrange(0, k)) * LAMPORTS_PER_SOL + frac_units(
                c.subrange(k + 1, c.len() as int),
            )) as nat,
        )
    } else {
        None
    }
}

/// Whether `lamports_of(c)` exists and fits 64 bits, and its value then.
pub open spec fn lamports_ok(c: Seq<char>, r: Result<u64, String>) -> bool {
    value_ok(lamports_of(c), r)
}

/// `r` is the value when there is one that fits 64 bits, an error otherwise.
pub open spec fn value_ok(v: Option<nat>, r: Result<u64, String>) -> bool {
    match v {
        Some(v) => if v <= u64::MAX {
            r == Ok::<u64, String>(v as u64)
        } else {
            r is Err
        },
        None => r is Err,
    }
}

proof fn lemma_point_unique(c: Seq<char>, k: int, m: int)
    requires
        point_at(c, k),
        point_at(c, m),
    ensures
        k == m,
{
    if k < m {
        assert(c.subrange(k + 1, c.len() as int)[m - k - 1] == c[m]);
    } else if m < k {
        assert(c.subrange(m + 1, c.len() as int)[k - m - 1] == c[k]);
    }
}

fn pow10_u64(n: u64) -> (r: u64)
    requires
        n <= 9,
    ensures
        r == pow10(n as nat),
{
    let mut r: u64 = 1;
    let mut i: u64 = 0;
    while i < n
        invariant
            i <= n <= 9,
            r == pow10(i as nat),
        decreases n - i,
    {
        proof {
            lemma_pow_mono(i as nat, 8);
            lemma_pow10_9();
        }
        r = r * 10;
        i = i + 1;
    }
    r
}

/// Converts an amount without white space to base units, commas ignored.
pub fn parse_trimmed_lamports(amount: &str) -> (r: Result<u64, String>)
    ensures
        lamports_ok(strip_commas(amount@), r),
{
    let raw = chars_of(amount);
    let mut c: Vec<char> = Vec::new();
    let mut i: usize = 0;
    while i < raw.len()
        invariant
            i <= raw@.len(),
            raw@ == amount@,
            c@ == strip_commas(raw@.subrange(0, i as int)),
        decreases raw@.len() - i,
    {
        assert(raw@.subrange(0, i + 1).drop_last() =~= raw@.subrange(0, i as int));
        if raw[i] != ',' {
            c.push(raw[i]);
        }
        i = i + 1;
    }
    assert(raw@.subrange(0, raw@.len() as int) =~= amount@);
    lamports_from_chars(&c)
}

fn lamports_from_chars(c: &Vec<char>) -> (r: Result<u64, String>)
    ensures
        lamports_ok(c@, r),
{
    if c.len() > 0 && c[0] == '+' {
        let rest = c_sub(c, 1, c.len());
        assert(rest@ =~= c@.drop_first());
        unsigned_lamports_from_chars(&rest)
    } else {
        unsigned_lamports_from_chars(c)
    }
}

fn unsigned_lamports_from_chars(c: &Vec<char>) -> (r: Result<u64, String>)
    ensures
        value_ok(unsigned_lamports_of(c@), r),
{
    let n = c.len();
    if n == 0 {
        return Err(String::from_str("Amount cannot be empty"));
    }
    let mut k: usize = 0;
    while k < n && c[k] != '.'
        invariant
            n == c@.len(),
            k <= n,
            forall|j: int| 0 <= j < k ==> c@[j] != '.',
        decreases n - k,
    {
        k = k + 1;
    }
    if k == n {
        let parsed = parse_u64_digits(c, 0, n);
        assert(c@.subrange(0, n as int) =~= c@);
        proof {
            if !all_digits(c@) {
                assert forall|m: int| !point_at(c@, m) by {}
            }
        }
        return match parsed {
            Some(x) => Ok(x),
            None => Err(String::from_str("Invalid lamports amount format")),
        };
    }
    assert(!all_digits(c@)) by {
        assert(!is_digit(c@[k as int]));
    }
    let whole = parse_u64_digits(c, 0, k);
    let ghost ip = c@.subrange(0, k as int);
    let ghost fp = c@.subrange(k + 1, n as int);
    let frac_ok = is_digit_string(&c_sub(c, k + 1, n));
    if !frac_ok || n == 1 {
        proof {
            if !frac_ok {
            assert forall|m: int| !point_at(c@, m) by {
                if point_at(c@, m) {
                    if m < k {
                        assert(c@[m] != '.');
                    } else if m > k {
                        assert(c@.subrange(0, m)[k as int] == '.');
                    }
                }
            }
            }
        }
        return Err(String::from_str("Invalid SOL amount format"));
    }
    let whole = match whole {
        Some(w) => w,
        None => {
            proof {
                if all_digits(ip) {
                    assert(point_at(c@, k as int));
                    let m = choose|m: int| point_at(c@, m);
                    lemma_point_unique(c@, k as int, m);
                    let v = dec_val(ip);
                    assert(v * LAMPORTS_PER_SOL >= v) by (nonlinear_arith);
                } else {
                    assert forall|m: int| !point_at(c@, m) by {
                        if point_at(c@, m) {
                            if m < k {
                                assert(c@[m] != '.');
                            } else if m > k {
                                assert(c@.subrange(0, m)[k as int] == '.');
                            }
                        }
                    }
                }
            }
            return Err(String::from_str("Invalid SOL amount format"));
        },
    };
    proof {
        assert(point_at(c@, k as int));
        let m = choose|m: int| point_at(c@, m);
        lemma_point_unique(c@, k as int, m);
    }
    let flen = n - k - 1;
    let frac: u64 = if flen <= 9 {
        let f = match parse_u64_digits(c, k + 1, n) {
            Some(f) => f,
            None => {
                proof {
                    lemma_dec_bound(fp);
                    lemma_pow_mono(fp.len(), 9);
                    lemma_pow10_9();
                }
                return Err(String::from_str("Invalid SOL amount format"));
            },
        };
        proof {
            lemma_dec_bound(fp);
            lemma_pow10_pos((9 - flen) as nat);
            assert(pow10(fp.len()) * pow10((9 - flen) as nat) == pow10(9)) by {
                lemma_pow_add(fp.len(), (9 - flen) as nat);
            }
            lemma_pow10_9();
            let p = pow10((9 - flen) as nat);
            assert(f * p < 1000000000) by (nonlinear_arith)
                requires
                    f < pow10(fp.len()),
                    pow10(fp.len()) * p == 1000000000,
            ;
        }
        f * pow10_u64((9 - flen) as u64)
    } else {
        let f9 = match parse_u64_digits(c, k + 1, k + 10) {
            Some(f) => f,
            None => {
                proof {
                    assert(c@.subrange(k + 1, k + 10) =~= fp.subrange(0, 9));
                    assert(all_digits(fp.subrange(0, 9)));
                    lemma_dec_bound(fp.subrange(0, 9));
                    lemma_pow10_9();
                }
                return Err(String::from_str("Invalid SOL amount format"));
            },
        };
        proof {
            assert(c@.subrange(k + 1, k + 10) =~= fp.subrange(0, 9));
            lemma_dec_bound(fp.subrange(0, 9));
            lemma_pow10_9();
            assert(fp[9] == c@[k + 10]);
            assert(is_digit(fp[9]));
        }
        let d = c[k + 10];
        if d >= '5' {
            f9 + 1
        } else {
            f9
        }
    };
    assert(frac == frac_units(fp));
    if whole > (u64::MAX - frac) / LAMPORTS_PER_SOL {
        assert(whole * LAMPORTS_PER_SOL + frac > u64::MAX) by (nonlinear_arith)
            requires
                whole > (u64::MAX - frac) / 1000000000,
                frac <= 1000000000,
        ;
        return Err(String::from_str("Invalid SOL amount format"));
    }
    assert(whole * LAMPORTS_PER_SOL + frac <= u64::MAX) by (nonlinear_arith)
        requires
            whole <= (u64::MAX - frac) / 1000000000,
            frac <= 1000000000,
    ;
    Ok(whole * LAMPORTS_PER_SOL + frac)
}

fn c_sub(c: &Vec<char>, lo: usize, hi: usize) -> (r: Vec<char>)
    requires
        lo <= hi <= c@.len(),
    ensures
        r@ == c@.subrange(lo as int, hi as int),
{
    let mut r: Vec<char> = Vec::new();
    let mut i: usize = lo;
    while i < hi
        invariant
            lo <= i <= hi <= c@.len(),
            r@ == c@.subrange(lo as int, i as int),
        decreases hi - i,
    {
        r.push(c[i]);
        i = i + 1;
    }
    r
}


/// What the ledger reports of one transaction between payer and recipient.
#[derive(Debug)]
pub struct SolanaTransfer {
    pub signature: String,
    pub successful: bool,
    pub recipient: String,
    pub lamports: u64,
    pub output_amount: Option<u64>,
    pub log: TransactionLog,
}

/// The base units that an amount without surrounding white space asks
/// for, if it reads as one that fits 64 bits.
pub open spec fn lamports_of_text(c: Seq<char>) -> Option<nat> {
    match lamports_of(strip_commas(c)) {
        Some(v) => if v <= u64::MAX { Some(v) } else { None },
        None => None,
    }
}

/// The base units that a requested amount asks for, if it reads as one.
pub open spec fn required_lamports(amount: Seq<char>) -> Option<nat> {
    lamports_of_text(trimmed(amount))
}

/// Both ends of the text are visible characters, or it is empty.
pub open spec fn visible_ends(s: Seq<char>) -> bool {
    s.len() == 0 || (visible_ascii(s[0]) && visible_ascii(s.last()))
}

/// The verdict on one transaction for a requirement: `None` when the
/// requirement does not parse.
pub open spec fn check_against(t: SolanaTransfer, recipient: Seq<char>, required: Option<nat>) -> Option<bool> {
    if !t.successful || t.recipient@ != recipient {
        Some(false)
    } else {
        match required {
            Some(req) => Some(t.lamports >= req),
            None => None,
        }
    }
}

/// The verdict on one transaction: `None` when the amount does not parse.
pub open spec fn transfer_check(t: SolanaTransfer, recipient: Seq<char>, amount: Seq<char>) -> Option<bool> {
    check_against(t, recipient, required_lamports(amount))
}

/// The transactions a check examines.
pub open spec fn scanned(ts: Seq<SolanaTransfer>) -> Seq<SolanaTransfer> {
    if ts.len() <= SCAN_LIMIT { ts } else { ts.subrange(0, SCAN_LIMIT as int) }
}

pub open spec fn passes_before(ts: Seq<SolanaTransfer>, recipient: Seq<char>, amount: Seq<char>, i: int) -> bool {
    forall|j: int| 0 <= j < i ==> transfer_check(#[trigger] ts[j], recipient, amount) == Some(false)
}

/// Transaction `i` is the first that pays.
pub open spec fn first_payment_at(ts: Seq<SolanaTransfer>, recipient: Seq<char>, amount: Seq<char>, i: int) -> bool {
    0 <= i < ts.len() && passes_before(ts, recipient, amount, i) && transfer_check(ts[i], recipient, amount) == Some(true)
}

/// Transaction `i` is the first that needs the amount, which does not parse.
pub open spec fn parse_failure_at(ts: Seq<SolanaTransfer>, recipient: Seq<char>, amount: Seq<char>, i: int) -> bool {
    0 <= i < ts.len() && passes_before(ts, recipient, amount, i) && transfer_check(ts[i], recipient, amount) is None
}

/// A verifier bound to one Solana network.
#[derive(Debug)]
pub struct SolanaVerifier {
    pub chain_type: ChainType,
}

/// A verifier for an Aptos network.
#[derive(Debug)]
pub struct AptosVerifier {
    pub chain_type: ChainType,
    pub rpc_url: String,
}

/// A verifier for a Sui network.
#[derive(Debug)]
pub struct SuiVerifier {
    pub chain_type: ChainType,
    pub rpc_url: String,
}

impl PaymentVerifier for SolanaVerifier {
    open spec fn supports(&self, chain_type: ChainType) -> bool {
        chain_type is Solana
    }

    fn supports_chain(&self, chain_type: &ChainType) -> (r: bool) {
        chain_type.is_solana()
    }
}

impl PaymentVerifier for AptosVerifier {
    open spec fn supports(&self, chain_type: ChainType) -> bool {
        chain_type is Aptos
    }

    fn supports_chain(&self, chain_type: &ChainType) -> (r: bool) {
        chain_type.is_aptos()
    }
}

impl PaymentVerifier for SuiVerifier {
    open spec fn supports(&self, chain_type: ChainType) -> bool {
        chain_type is Sui
    }

    fn supports_chain(&self, chain_type: &ChainType) -> (r: bool) {
        chain_type.is_sui()
    }
}

impl AptosVerifier {
    pub fn new(rpc_url: String, chain_type: ChainType) -> (r: Self)
        ensures
            r.chain_type == chain_type,
            r.rpc_url == rpc_url,
    {
        AptosVerifier { chain_type, rpc_url }
    }
}

impl SuiVerifier {
    pub fn new(rpc_url: String, chain_type: ChainType) -> (r: Self)
        ensures
            r.chain_type == chain_type,
            r.rpc_url == rpc_url,
    {
        SuiVerifier { chain_type, rpc_url }
    }
}

impl SolanaVerifier {
    /// A verifier for the main network.
    pub fn new() -> (r: Self)
        ensures
            r.chain_type == ChainType::Solana(SolanaChain::Mainnet),
    {
        SolanaVerifier { chain_type: ChainType::Solana(SolanaChain::Mainnet) }
    }

    /// Converts an amount to base units: a decimal point marks whole coins,
    /// digits alone are base units. White space around it and commas are
    /// ignored.
    pub fn parse_amount_to_lamports(amount: &str) -> (r: Result<u64, String>)
        ensures
            lamports_ok(strip_commas(trimmed(amount@)), r),
            visible_ends(amount@) ==> lamports_ok(strip_commas(amount@), r),
    {
        proof {
            if visible_ends(amount@) {
                lemma_visible_is_trimmed(amount@);
            }
        }
        parse_trimmed_lamports(trim_str(amount))
    }

    /// Whether one transaction pays `required_amount` to `recipient`.
    pub fn check_transaction_payment(
        &self,
        transaction: &SolanaTransfer,
        recipient: &str,
        required_amount: &str,
    ) -> (r: Result<bool, VerificationError>)
        ensures
            match transfer_check(*transaction, recipient@, required_amount@) {
                Some(b) => r == Ok::<bool, VerificationError>(b),
                None => r matches Err(VerificationError::ParseError(_)),
            },
            visible_ends(required_amount@) ==> match check_against(
                *transaction,
                recipient@,
                lamports_of_text(required_amount@),
            ) {
                Some(b) => r == Ok::<bool, VerificationError>(b),
                None => r matches Err(VerificationError::ParseError(_)),
            },
    {
        if !transaction.successful {
            return Ok(false);
        }
        if !crate::text::str_eq(transaction.recipient.as_str(), recipient) {
            return Ok(false);
        }
        let required = match Self::parse_amount_to_lamports(required_amount) {
            Ok(v) => v,
            Err(e) => {
                return Err(VerificationError::ParseError(e));
            },
        };
        Ok(transaction.lamports >= required)
    }

    /// Decides a payment from the most recent transactions between payer and
    /// recipient, newest first; the first that pays ends the scan. The
    /// address checks are the ledger client's, handed in as flags.
    pub fn verify_payment(
        &self,
        payment_request: &PaymentRequest,
        payer_valid: bool,
        recipient_valid: bool,
        transfers: Vec<SolanaTransfer>,
        now: u64,
    ) -> (r: Result<PaymentVerification, VerificationError>)
        ensures
            !payer_valid ==> (r matches Err(VerificationError::Error(m)) && m@ == "payer address error"@),
            payer_valid && !recipient_valid ==> (r matches Err(VerificationError::Error(m)) && m@
                == "recipient address error"@),
            payer_valid && recipient_valid ==> {
                let ts = scanned(transfers@);
                let rec = payment_request.recipient@;
                let amt = payment_request.amount@;
                &&& forall|i: int| #[trigger] first_payment_at(ts, rec, amt, i) ==> (r matches Ok(v) && {
                    &&& v.is_paid
                    &&& v.paid_amount@ == decimal_of(match ts[i].output_amount {
                        Some(a) => a as nat,
                        None => 0,
                    })
                    &&& all_digits(v.paid_amount@)
                    &&& dec_val(v.paid_amount@) == match ts[i].output_amount {
                        Some(a) => a as nat,
                        None => 0,
                    }
                    &&& v.transaction_hash == Some(ts[i].signature)
                    &&& v.transaction_logs@ == seq![ts[i].log]
                })
                &&& forall|i: int| #[trigger] parse_failure_at(ts, rec, amt, i) ==> (r matches Err(VerificationError::ParseError(_)))
                &&& passes_before(ts, rec, amt, ts.len() as int) ==> (r matches Ok(v) && {
                    &&& !v.is_paid
                    &&& v.paid_amount@ == "0"@
                    &&& v.transaction_hash is None
                    &&& v.transaction_logs@.len() == 0
                })
            },
            r matches Ok(v) ==> v.verified_at == now && v.chain == payment_request.chain,
    {
        if !payer_valid {
            return Err(VerificationError::Error(String::from_str("payer address error")));
        }
        if !recipient_valid {
            return Err(VerificationError::Error(String::from_str("recipient address error")));
        }
        let ghost ts = scanned(transfers@);
        let ghost rec = payment_request.recipient@;
        let ghost amt = payment_request.amount@;
        let limit: usize = if transfers.len() <= SCAN_LIMIT { transfers.len() } else { SCAN_LIMIT };
        let mut i: usize = 0;
        while i < limit
            invariant
                payer_valid && recipient_valid,
                limit == ts.len(),
                limit <= transfers@.len(),
                ts == scanned(transfers@),
                rec == payment_request.recipient@,
                amt == payment_request.amount@,
                i <= limit,
                passes_before(ts, rec, amt, i as int),
            decreases limit - i,
        {
            assert(ts[i as int] == transfers@[i as int]);
            let hit = self.check_transaction_payment(
                &transfers[i],
                payment_request.recipient.as_str(),
                payment_request.amount.as_str(),
            );
            match hit {
                Err(e) => {
                    proof {
                        assert(parse_failure_at(ts, rec, amt, i as int));
                        assert(transfer_check(ts[i as int], rec, amt) != Some(false));
                        assert(!passes_before(ts, rec, amt, ts.len() as int));
                        assert forall|j: int| #[trigger] first_payment_at(ts, rec, amt, j) implies false by {
                            if j < i {
                            } else if j > i {
                                assert(transfer_check(ts[i as int], rec, amt) == Some(false));
                            }
                        }
                    }
                    return Err(e);
                },
                Ok(true) => {
                    let t = &transfers[i];
                    let amount = match t.output_amount {
                        Some(a) => a,
                        None => 0,
                    };
                    let paid_amount = u64_to_decimal(amount);
                    proof {
                        lemma_decimal_of(amount as nat);
                        assert(first_payment_at(ts, rec, amt, i as int));
                        assert(transfer_check(ts[i as int], rec, amt) != Some(false));
                        assert(!passes_before(ts, rec, amt, ts.len() as int));
                        assert forall|j: int| #[trigger] first_payment_at(ts, rec, amt, j) implies j == i by {
                            if j < i {
                            } else if j > i {
                                assert(transfer_check(ts[i as int], rec, amt) == Some(false));
                            }
                        }
                        assert forall|j: int| #[trigger] parse_failure_at(ts, rec, amt, j) implies false by {
                            if j > i {
                                assert(transfer_check(ts[i as int], rec, amt) == Some(false));
                            }
                        }
                    }
                    let mut logs: Vec<TransactionLog> = Vec::new();
                    logs.push(t.log.clone());
                    assert(logs@ =~= seq![ts[i as int].log]);
                    return Ok(PaymentVerification {
                        is_paid: true,
                        paid_amount,
                        transaction_hash: Some(t.signature.clone()),
                        verified_at: now,
                        chain: payment_request.chain.clone(),
                        transaction_logs: logs,
                    });
                },
                Ok(false) => {
                    i = i + 1;
                },
            }
        }
        proof {
            assert forall|j: int| #[trigger] first_payment_at(ts, rec, amt, j) implies false by {
                assert(transfer_check(ts[j], rec, amt) == Some(false));
            }
            assert forall|j: int| #[trigger] parse_failure_at(ts, rec, amt, j) implies false by {
                assert(transfer_check(ts[j], rec, amt) == Some(false));
            }
        }
        Ok(PaymentVerification {
            is_paid: false,
            paid_amount: String::from_str("0"),
            transaction_hash: None,
            verified_at: now,
            chain: payment_request.chain.clone(),
            transaction_logs: Vec::new(),
        })
    }
}

} // verus!
