//! Decimal amounts: digit strings, their values, comparison and scaling.
use vstd::prelude::*;
use vstd::string::*;

verus! {

pub open spec fn is_digit(c: char) -> bool {
    '0' <= c && c <= '9'
}

pub open spec fn digit_value(c: char) -> nat {
    (c as nat - '0' as nat) as nat
}

pub open spec fn all_digits(s: Seq<char>) -> bool {
    forall|i: int| 0 <= i < s.len() ==> is_digit(#[trigger] s[i])
}

/// The value of a string of decimal digits, most significant first.
pub open spec fn dec_val(s: Seq<char>) -> nat
    decreases s.len(),
{
    if s.len() == 0 {
        0
    } else {
        dec_val(s.drop_last()) * 10 + digit_value(s.last())
    }
}

pub open spec fn pow10(n: nat) -> nat
    decreases n,
{
    if n == 0 {
        1
    } else {
        10 * pow10((n - 1) as nat)
    }
}

pub open spec fn zeros(n: nat) -> Seq<char> {
    Seq::new(n, |i: int| '0')
}

pub proof fn lemma_pow10_pos(n: nat)
    ensures
        pow10(n) >= 1,
    decreases n,
{
    if n > 0 {
        lemma_pow10_pos((n - 1) as nat);
    }
}

/// Appending digits shifts the value of the front part.
pub proof fn lemma_dec_concat(a: Seq<char>, b: Seq<char>)
    ensures
        dec_val(a + b) == dec_val(a) * pow10(b.len()) + dec_val(b),
    decreases b.len(),
{
    if b.len() == 0 {
        assert(a + b =~= a);
        assert(dec_val(b) == 0);
        assert(pow10(0) == 1);
        assert(dec_val(a) * 1 == dec_val(a));
    } else {
        let b0 = b.drop_last();
        lemma_dec_concat(a, b0);
        assert((a + b).drop_last() =~= a + b0);
        assert((a + b).last() == b.last());
        assert(dec_val(a + b) == dec_val(a + b0) * 10 + digit_value(b.last()));
        assert(dec_val(b) == dec_val(b0) * 10 + digit_value(b.last()));
        assert(pow10(b.len()) == 10 * pow10(b0.len()));
        let x = dec_val(a);
        let p = pow10(b0.len());
        assert((x * p + dec_val(b0)) * 10 == x * (10 * p) + dec_val(b0) * 10) by (nonlinear_arith);
        assert(dec_val(a + b) == x * pow10(b.len()) + dec_val(b));
    }
}

pub proof fn lemma_dec_zeros(n: nat)
    ensures
        dec_val(zeros(n)) == 0,
    decreases n,
{
    if n > 0 {
        assert(zeros(n).drop_last() =~= zeros((n - 1) as nat));
        lemma_dec_zeros((n - 1) as nat);
    }
}

pub proof fn lemma_dec_bound(s: Seq<char>)
    requires
        all_digits(s),
    ensures
        dec_val(s) < pow10(s.len()),
    decreases s.len(),
{
    if s.len() > 0 {
        let s0 = s.drop_last();
        assert(all_digits(s0)) by {
            assert forall|i: int| 0 <= i < s0.len() implies is_digit(#[trigger] s0[i]) by {
                assert(s0[i] == s[i]);
            }
        }
        lemma_dec_bound(s0);
        assert(is_digit(s[s.len() - 1]));
        let v = dec_val(s0);
        let p = pow10(s0.len());
        assert(v * 10 + 9 < 10 * p) by (nonlinear_arith)
            requires
                v < p,
        ;
    }
}

/// Digits in front contribute at least their own shifted value.
pub proof fn lemma_dec_prefix(s: Seq<char>, k: int)
    requires
        0 <= k <= s.len(),
    ensures
        dec_val(s) == dec_val(s.subrange(0, k)) * pow10((s.len() - k) as nat) + dec_val(
            s.subrange(k, s.len() as int),
        ),
        dec_val(s) >= dec_val(s.subrange(0, k)),
{
    lemma_dec_concat(s.subrange(0, k), s.subrange(k, s.len() as int));
    assert(s.subrange(0, k) + s.subrange(k, s.len() as int) =~= s);
    lemma_pow10_pos((s.len() - k) as nat);
    let x = dec_val(s.subrange(0, k));
    let p = pow10((s.len() - k) as nat);
    assert(x * p >= x) by (nonlinear_arith)
        requires
            p >= 1,
    ;
}

/// Leading zeros do not change the value.
pub proof fn lemma_dec_skip_zeros(s: Seq<char>, k: int)
    requires
        0 <= k <= s.len(),
        forall|i: int| 0 <= i < k ==> s[i] == '0',
    ensures
        dec_val(s) == dec_val(s.subrange(k, s.len() as int)),
{
    lemma_dec_prefix(s, k);
    assert(s.subrange(0, k) =~= zeros(k as nat));
    lemma_dec_zeros(k as nat);
}

/// A digit string without leading zero has its value at least at the
/// smallest number of its length.
pub proof fn lemma_dec_lower(s: Seq<char>)
    requires
        all_digits(s),
        s.len() > 0,
        s[0] != '0',
    ensures
        dec_val(s) >= pow10((s.len() - 1) as nat),
{
    lemma_dec_prefix(s, 1);
    let h = s.subrange(0, 1);
    assert(h.drop_last() =~= Seq::<char>::empty());
    assert(h.last() == s[0]);
    assert(is_digit(s[0]));
    let p = pow10((s.len() - 1) as nat);
    let d = dec_val(h);
    assert(d >= 1);
    assert(d * p >= p) by (nonlinear_arith)
        requires
            d >= 1,
    ;
}

/// Two digit strings of one length, equal up to position `k`, are ordered
/// by their digits at `k`.
pub proof fn lemma_dec_lex(a: Seq<char>, b: Seq<char>, k: int)
    requires
        all_digits(a),
        all_digits(b),
        a.len() == b.len(),
        0 <= k < a.len(),
        a.subrange(0, k) == b.subrange(0, k),
        a[k] > b[k],
    ensures
        dec_val(a) > dec_val(b),
{
    let n = a.len() as int;
    lemma_dec_prefix(a, k + 1);
    lemma_dec_prefix(b, k + 1);
    let ha = a.subrange(0, k + 1);
    let hb = b.subrange(0, k + 1);
    assert(ha.drop_last() =~= a.subrange(0, k));
    assert(hb.drop_last() =~= b.subrange(0, k));
    assert(is_digit(a[k]) && is_digit(b[k]));
    let rb = b.subrange(k + 1, n);
    assert(all_digits(rb)) by {
        assert forall|i: int| 0 <= i < rb.len() implies is_digit(#[trigger] rb[i]) by {
            assert(rb[i] == b[k + 1 + i]);
        }
    }
    lemma_dec_bound(rb);
    let p = pow10((n - k - 1) as nat);
    let va = dec_val(ha);
    let vb = dec_val(hb);
    assert(va >= vb + 1);
    let ra = dec_val(a.subrange(k + 1, n));
    let rbv = dec_val(rb);
    assert(va * p + ra > vb * p + rbv) by (nonlinear_arith)
        requires
            va >= vb + 1,
            rbv < p,
    ;
}

/// The characters of a string, in order.
pub fn chars_of(s: &str) -> (r: Vec<char>)
    ensures
        r@ == s@,
{
    let n = s.unicode_len();
    let mut r: Vec<char> = Vec::new();
    let mut i: usize = 0;
    while i < n
        invariant
            n == s@.len(),
            i <= n,
            r@ == s@.subrange(0, i as int),
        decreases n - i,
    {
        r.push(s.get_char(i));
        i = i + 1;
    }
    assert(r@ =~= s@);
    r
}

/// Tells whether every character is a decimal digit.
pub fn is_digit_string(v: &Vec<char>) -> (r: bool)
    ensures
        r == all_digits(v@),
{
    let mut i: usize = 0;
    while i < v.len()
        invariant
            i <= v@.len(),
            forall|j: int| 0 <= j < i ==> is_digit(#[trigger] v@[j]),
        decreases v@.len() - i,
    {
        if !('0' <= v[i] && v[i] <= '9') {
            return false;
        }
        i = i + 1;
    }
    true
}

/// Position of the first character that is not `'0'`, or the length.
fn skip_zeros(v: &Vec<char>) -> (r: usize)
    ensures
        r <= v@.len(),
        forall|i: int| 0 <= i < r ==> v@[i] == '0',
        r < v@.len() ==> v@[r as int] != '0',
{
    let mut i: usize = 0;
    while i < v.len() && v[i] == '0'
        invariant
            i <= v@.len(),
            forall|j: int| 0 <= j < i ==> v@[j] == '0',
        decreases v@.len() - i,
    {
        i = i + 1;
    }
    i
}

/// Compares two digit strings by value.
pub fn dec_ge(a: &Vec<char>, b: &Vec<char>) -> (r: bool)
    requires
        all_digits(a@),
        all_digits(b@),
    ensures
        r == (dec_val(a@) >= dec_val(b@)),
{
    let ia = skip_zeros(a);
    let ib = skip_zeros(b);
    let ghost sa = a@.subrange(ia as int, a@.len() as int);
    let ghost sb = b@.subrange(ib as int, b@.len() as int);
    proof {
        lemma_dec_skip_zeros(a@, ia as int);
        lemma_dec_skip_zeros(b@, ib as int);
        assert(all_digits(sa)) by {
            assert forall|i: int| 0 <= i < sa.len() implies is_digit(#[trigger] sa[i]) by {
                assert(sa[i] == a@[ia + i]);
            }
        }
        assert(all_digits(sb)) by {
            assert forall|i: int| 0 <= i < sb.len() implies is_digit(#[trigger] sb[i]) by {
                assert(sb[i] == b@[ib + i]);
            }
        }
        lemma_dec_bound(sa);
        lemma_dec_bound(sb);
        if sa.len() > 0 {
            lemma_dec_lower(sa);
        }
        if sb.len() > 0 {
            lemma_dec_lower(sb);
        }
    }
    let la = a.len() - ia;
    let lb = b.len() - ib;
    if la != lb {
        proof {
            if la > lb {
                lemma_pow_mono(sb.len(), (sa.len() - 1) as nat);
            } else {
                lemma_pow_mono(sa.len(), (sb.len() - 1) as nat);
            }
        }
        return la > lb;
    }
    let na = a.len();
    let nb = b.len();
    let mut j: usize = 0;
    while j < la
        invariant
            na == a@.len(),
            nb == b@.len(),
            la == lb,
            la == sa.len(),
            lb == sb.len(),
            ia + la == a@.len(),
            ib + lb == b@.len(),
            sa == a@.subrange(ia as int, a@.len() as int),
            sb == b@.subrange(ib as int, b@.len() as int),
            all_digits(sa),
            all_digits(sb),
            dec_val(a@) == dec_val(sa),
            dec_val(b@) == dec_val(sb),
            j <= la,
            sa.subrange(0, j as int) == sb.subrange(0, j as int),
        decreases la - j,
    {
        assert(ia + j < a@.len());
        assert(ib + j < b@.len());
        let ca = a[ia + j];
        let cb = b[ib + j];
        assert(ca == sa[j as int]);
        assert(cb == sb[j as int]);
        if ca != cb {
            proof {
                if ca > cb {
                    lemma_dec_lex(sa, sb, j as int);
                } else {
                    lemma_dec_lex(sb, sa, j as int);
                }
            }
            return ca > cb;
        }
        assert(sa.subrange(0, j + 1) =~= sa.subrange(0, j as int).push(ca));
        assert(sb.subrange(0, j + 1) =~= sb.subrange(0, j as int).push(cb));
        j = j + 1;
    }
    assert(sa =~= sa.subrange(0, la as int));
    assert(sb =~= sb.subrange(0, lb as int));
    true
}

pub proof fn lemma_pow_mono(m: nat, n: nat)
    requires
        m <= n,
    ensures
        pow10(m) <= pow10(n),
    decreases n,
{
    if m < n {
        lemma_pow_mono(m, (n - 1) as nat);
        lemma_pow10_pos((n - 1) as nat);
    }
}

/// Multiplies a digit string by a power of ten by appending zeros.
pub fn scale_digits(v: &Vec<char>, decimals: u8) -> (r: Vec<char>)
    ensures
        r@ == v@ + zeros(decimals as nat),
{
    let mut r: Vec<char> = v.clone();
    let mut i: u8 = 0;
    assert(r@ =~= v@ + zeros(0));
    while i < decimals
        invariant
            i <= decimals,
            r@ == v@ + zeros(i as nat),
        decreases decimals - i,
    {
        r.push('0');
        i = i + 1;
        assert(r@ =~= v@ + zeros(i as nat));
    }
    r
}

} // verus!

verus! {

/// Reads the digits `v[lo..hi]` as an unsigned 64-bit number.
pub fn parse_u64_digits(v: &Vec<char>, lo: usize, hi: usize) -> (r: Option<u64>)
    requires
        lo <= hi <= v@.len(),
    ensures
        r is Some <==> (all_digits(v@.subrange(lo as int, hi as int)) && dec_val(
            v@.subrange(lo as int, hi as int),
        ) <= u64::MAX),
        r matches Some(x) ==> x == dec_val(v@.subrange(lo as int, hi as int)),
{
    let ghost s = v@.subrange(lo as int, hi as int);
    let mut acc: u64 = 0;
    let mut i: usize = lo;
    while i < hi
        invariant
            lo <= i <= hi <= v@.len(),
            s == v@.subrange(lo as int, hi as int),
            all_digits(v@.subrange(lo as int, i as int)),
            acc == dec_val(v@.subrange(lo as int, i as int)),
        decreases hi - i,
    {
        let c = v[i];
        let ghost p = v@.subrange(lo as int, i as int);
        let ghost q = v@.subrange(lo as int, i + 1);
        assert(q.drop_last() =~= p);
        assert(q.last() == c);
        proof {
            lemma_dec_prefix(s, (i + 1 - lo) as int);
            assert(s.subrange(0, (i + 1 - lo) as int) =~= q);
        }
        if !('0' <= c && c <= '9') {
            assert(s[(i - lo) as int] == c);
            return None;
        }
        let d = (c as u32 - '0' as u32) as u64;
        if acc > (u64::MAX - d) / 10 {
            assert(acc * 10 + d > u64::MAX) by (nonlinear_arith)
                requires
                    acc > (u64::MAX - d) / 10,
                    d <= 9,
            ;
            return None;
        }
        assert(acc * 10 + d <= u64::MAX) by (nonlinear_arith)
            requires
                acc <= (u64::MAX - d) / 10,
                d <= 9,
        ;
        acc = acc * 10 + d;
        assert(all_digits(q)) by {
            assert forall|j: int| 0 <= j < q.len() implies is_digit(#[trigger] q[j]) by {
                if j < q.len() - 1 {
                    assert(q[j] == p[j]);
                }
            }
        }
        i = i + 1;
    }
    Some(acc)
}

} // verus!

verus! {

pub proof fn lemma_pow_add(a: nat, b: nat)
    ensures
        pow10(a) * pow10(b) == pow10(a + b),
    decreases a,
{
    let y = pow10(b);
    if a > 0 {
        lemma_pow_add((a - 1) as nat, b);
        assert(pow10(a + b) == 10 * pow10((a - 1 + b) as nat));
        let x = pow10((a - 1) as nat);
        assert(pow10(a) == 10 * x);
        assert((10 * x) * y == 10 * (x * y)) by (nonlinear_arith);
    } else {
        assert(pow10(0) == 1);
        assert(1 * y == y);
    }
}

} // verus!

verus! {

pub proof fn lemma_pow10_9()
    ensures
        pow10(8) == 100000000,
        pow10(9) == 1000000000,
{
    reveal_with_fuel(pow10, 10);
}

} // verus!

verus! {

/// The digit character for `d < 10`.
pub open spec fn digit_char(d: nat) -> char {
    if d == 0 { '0' } else if d == 1 { '1' } else if d == 2 { '2' } else if d == 3 { '3' }
    else if d == 4 { '4' } else if d == 5 { '5' } else if d == 6 { '6' } else if d == 7 { '7' }
    else if d == 8 { '8' } else { '9' }
}

/// The decimal digits of `n`, without leading zeros.
pub open spec fn decimal_of(n: nat) -> Seq<char>
    decreases n,
{
    if n < 10 {
        seq![digit_char(n)]
    } else {
        decimal_of(n / 10) + seq![digit_char(n % 10)]
    }
}

proof fn lemma_digit_char(d: nat)
    requires
        d < 10,
    ensures
        is_digit(digit_char(d)),
        digit_value(digit_char(d)) == d,
{
}

pub proof fn lemma_decimal_of(n: nat)
    ensures
        decimal_of(n).len() > 0,
        all_digits(decimal_of(n)),
        dec_val(decimal_of(n)) == n,
    decreases n,
{
    if n < 10 {
        let s = decimal_of(n);
        lemma_digit_char(n);
        assert(s.drop_last() =~= Seq::<char>::empty());
        assert(dec_val(s) == dec_val(s.drop_last()) * 10 + digit_value(s.last()));
    } else {
        lemma_decimal_of(n / 10);
        lemma_digit_char(n % 10);
        let s = decimal_of(n);
        let h = decimal_of(n / 10);
        assert(s.drop_last() =~= h);
        assert(s.last() == digit_char(n % 10));
        assert(dec_val(s) == dec_val(h) * 10 + digit_value(s.last()));
        assert((n / 10) * 10 + n % 10 == n);
        assert forall|i: int| 0 <= i < s.len() implies is_digit(#[trigger] s[i]) by {
            if i < h.len() {
                assert(s[i] == h[i]);
            }
        }
    }
}

fn digit_text(d: u64) -> (r: &'static str)
    requires
        d < 10,
    ensures
        r@ == seq![digit_char(d as nat)],
{
    proof {
        reveal_strlit("0");
        reveal_strlit("1");
        reveal_strlit("2");
        reveal_strlit("3");
        reveal_strlit("4");
        reveal_strlit("5");
        reveal_strlit("6");
        reveal_strlit("7");
        reveal_strlit("8");
        reveal_strlit("9");
    }
    if d == 0 {
        "0"
    } else if d == 1 {
        "1"
    } else if d == 2 {
        "2"
    } else if d == 3 {
        "3"
    } else if d == 4 {
        "4"
    } else if d == 5 {
        "5"
    } else if d == 6 {
        "6"
    } else if d == 7 {
        "7"
    } else if d == 8 {
        "8"
    } else {
        "9"
    }
}

/// Writes `n` in decimal.
pub fn u64_to_decimal(n: u64) -> (r: String)
    ensures
        r@ == decimal_of(n as nat),
    decreases n,
{
    if n < 10 {
        let t = digit_text(n);
        String::from_str(t)
    } else {
        let hi = u64_to_decimal(n / 10);
        let t = digit_text(n % 10);
        hi.concat(t)
    }
}

} // verus!
