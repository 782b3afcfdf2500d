//! The claims that a session token carries, as the fixed-layout JSON text
//! `{"account_id":"+0000000003","exp":"001700086400","nbf":"001700000000"}`:
//! a signed 10-digit account id and two 12-digit Unix times.
use vstd::prelude::*;
use crate::pagination::{digit_value, digits_value, is_digit};
use crate::text::{digit_char, digit_str};

verus! {

/// `n` in exactly `w` decimal digits, zero-padded, keeping the low `w` digits.
pub open spec fn fixed_digits(n: nat, w: nat) -> Seq<char>
    decreases w,
{
    if w == 0 {
        Seq::empty()
    } else {
        fixed_digits(n / 10, (w - 1) as nat) + seq![digit_char(n % 10)]
    }
}

pub open spec fn pow10(w: nat) -> nat
    decreases w,
{
    if w == 0 { 1 } else { 10 * pow10((w - 1) as nat) }
}

pub open spec fn all_digits(s: Seq<char>) -> bool {
    forall|i: int| 0 <= i < s.len() ==> is_digit(#[trigger] s[i])
}

pub open spec fn id_prefix() -> Seq<char> {
    "{\"account_id\":\""@
}

pub open spec fn exp_infix() -> Seq<char> {
    "\",\"exp\":\""@
}

pub open spec fn nbf_infix() -> Seq<char> {
    "\",\"nbf\":\""@
}

pub open spec fn claims_suffix() -> Seq<char> {
    "\"}"@
}

pub open spec fn abs(a: int) -> nat {
    if a < 0 { (-a) as nat } else { a as nat }
}

/// The claims text for an account and a validity window.
pub open spec fn claims_message(account_id: int, exp: nat, nbf: nat) -> Seq<char> {
    id_prefix() + seq![if account_id < 0 { '-' } else { '+' }] + fixed_digits(abs(account_id), 10)
        + exp_infix() + fixed_digits(exp, 12) + nbf_infix() + fixed_digits(nbf, 12)
        + claims_suffix()
}

/// The account id, expiry and not-before time that a claims text holds,
/// if it has the layout exactly.
pub open spec fn spec_parse_claims(m: Seq<char>) -> Option<(i64, i64, i64)> {
    if m.len() == 70 && m.subrange(0, 15) == id_prefix() && (m[15] == '+' || m[15] == '-')
        && all_digits(m.subrange(16, 26)) && m.subrange(26, 35) == exp_infix() && all_digits(
        m.subrange(35, 47),
    ) && m.subrange(47, 56) == nbf_infix() && all_digits(m.subrange(56, 68)) && m.subrange(68, 70)
        == claims_suffix() {
        let v = digits_value(m.subrange(16, 26)) as int;
        Some(
            (
                (if m[15] == '-' { -v } else { v }) as i64,
                digits_value(m.subrange(35, 47)) as i64,
                digits_value(m.subrange(56, 68)) as i64,
            ),
        )
    } else {
        None
    }
}

proof fn lemma_pow10_grows(i: nat, j: nat)
    requires
        i <= j,
    ensures
        pow10(i) <= pow10(j),
    decreases j,
{
    if i < j {
        lemma_pow10_grows(i, (j - 1) as nat);
    }
}

proof fn lemma_digit_value(d: nat)
    requires
        d < 10,
    ensures
        digit_value(digit_char(d)) == d,
        is_digit(digit_char(d)),
{
}

proof fn lemma_fixed_digits(n: nat, w: nat)
    ensures
        fixed_digits(n, w).len() == w,
        all_digits(fixed_digits(n, w)),
        n < pow10(w) ==> digits_value(fixed_digits(n, w)) == n,
    decreases w,
{
    if w > 0 {
        let p = (w - 1) as nat;
        lemma_fixed_digits(n / 10, p);
        lemma_digit_value(n % 10);
        let f = fixed_digits(n, w);
        assert(f.drop_last() =~= fixed_digits(n / 10, p));
        assert(f.last() == digit_char(n % 10));
        assert forall|i: int| 0 <= i < f.len() implies is_digit(#[trigger] f[i]) by {
            if i < p {
                assert(f[i] == fixed_digits(n / 10, p)[i]);
            }
        }
        if n < pow10(w) {
            assert(n / 10 < pow10(p)) by (nonlinear_arith)
                requires
                    n < 10 * pow10(p),
            ;
            assert(n == (n / 10) * 10 + n % 10) by (nonlinear_arith);
        }
    }
}

/// The claims text reads back as the claims it was made from.
pub proof fn lemma_claims_round_trip(account_id: i32, exp: i64, nbf: i64)
    requires
        0 <= exp < pow10(12),
        0 <= nbf < pow10(12),
    ensures
        spec_parse_claims(claims_message(account_id as int, exp as nat, nbf as nat)) == Some(
            (account_id as i64, exp, nbf),
        ),
{
    reveal_strlit("{\"account_id\":\"");
    reveal_strlit("\",\"exp\":\"");
    reveal_strlit("\",\"nbf\":\"");
    reveal_strlit("\"}");
    let a = abs(account_id as int);
    let da = fixed_digits(a, 10);
    let de = fixed_digits(exp as nat, 12);
    let dn = fixed_digits(nbf as nat, 12);
    assert(pow10(10) == 10000000000) by {
        reveal_with_fuel(pow10, 11);
    }
    lemma_fixed_digits(a, 10);
    lemma_fixed_digits(exp as nat, 12);
    lemma_fixed_digits(nbf as nat, 12);
    let sign = seq![if account_id < 0 { '-' } else { '+' }];
    let m = claims_message(account_id as int, exp as nat, nbf as nat);
    assert(id_prefix().len() == 15);
    assert(exp_infix().len() == 9);
    assert(nbf_infix().len() == 9);
    assert(claims_suffix().len() == 2);
    assert(m.len() == 70);
    assert(m.subrange(0, 15) =~= id_prefix());
    assert(m[15] == sign[0]);
    assert(m.subrange(16, 26) =~= da);
    assert(m.subrange(26, 35) =~= exp_infix());
    assert(m.subrange(35, 47) =~= de);
    assert(m.subrange(47, 56) =~= nbf_infix());
    assert(m.subrange(56, 68) =~= dn);
    assert(m.subrange(68, 70) =~= claims_suffix());
}

/// Appends `n` in exactly `w` digits.
fn push_fixed(out: &mut String, n: u64, w: u32)
    ensures
        final(out)@ == old(out)@ + fixed_digits(n as nat, w as nat),
    decreases w,
{
    if w == 0 {
        proof {
            assert(old(out)@ + fixed_digits(n as nat, 0) =~= old(out)@);
        }
    } else {
        push_fixed(out, n / 10, w - 1);
        let d = digit_str((n % 10) as u32);
        out.append(d);
        proof {
            assert(fixed_digits(n as nat, w as nat) == fixed_digits((n / 10) as nat, (w - 1) as nat)
                + seq![digit_char((n % 10) as nat)]);
            assert(final(out)@ =~= old(out)@ + fixed_digits(n as nat, w as nat));
        }
    }
}

/// Writes the claims text for an account and a validity window.
pub fn claims_text(account_id: i32, exp: i64, nbf: i64) -> (r: String)
    requires
        0 <= exp,
        0 <= nbf,
    ensures
        r@ == claims_message(account_id as int, exp as nat, nbf as nat),
{
    let mut out = String::from_str("{\"account_id\":\"");
    if account_id < 0 {
        out.append("-");
    } else {
        out.append("+");
    }
    let magnitude: u64 = if account_id < 0 {
        (-(account_id as i64)) as u64
    } else {
        account_id as u64
    };
    push_fixed(&mut out, magnitude, 10);
    out.append("\",\"exp\":\"");
    push_fixed(&mut out, exp as u64, 12);
    out.append("\",\"nbf\":\"");
    push_fixed(&mut out, nbf as u64, 12);
    out.append("\"}");
    proof {
        reveal_strlit("-");
        reveal_strlit("+");
        assert(out@ =~= claims_message(account_id as int, exp as nat, nbf as nat));
    }
    out
}

/// Reads at most 18 decimal digits.
fn parse_digits(s: &str) -> (r: Option<u64>)
    requires
        s@.len() <= 18,
    ensures
        match r {
            Some(v) => all_digits(s@) && v == digits_value(s@),
            None => !all_digits(s@),
        },
{
    let n = s.unicode_len();
    let mut acc: u64 = 0;
    let mut i: usize = 0;
    assert(pow10(18) == 1000000000000000000) by {
        reveal_with_fuel(pow10, 19);
    }
    while i < n
        invariant
            n == s@.len(),
            n <= 18,
            i <= n,
            acc == digits_value(s@.subrange(0, i as int)),
            acc < pow10(i as nat),
            pow10(18) == 1000000000000000000,
            forall|j: int| 0 <= j < i ==> is_digit(#[trigger] s@[j]),
        decreases n - i,
    {
        let c = s.get_char(i);
        if !('0' <= c && c <= '9') {
            return None;
        }
        proof {
            let p = s@.subrange(0, i + 1);
            assert(p.drop_last() == s@.subrange(0, i as int));
            assert(p.last() == c);
            lemma_pow10_grows((i + 1) as nat, 18);
            assert(pow10((i + 1) as nat) == 10 * pow10(i as nat));
        }
        acc = acc * 10 + (c as u32 - '0' as u32) as u64;
        i += 1;
    }
    proof {
        assert(s@.subrange(0, n as int) == s@);
    }
    Some(acc)
}

fn same_text(a: &str, b: &str) -> (r: bool)
    ensures
        r == (a@ == b@),
{
    String::from_str(a) == String::from_str(b)
}

/// Reads the claims text of a session token.
pub fn parse_claims(m: &str) -> (r: Option<(i64, i64, i64)>)
    ensures
        r == spec_parse_claims(m@),
{
    proof {
        reveal_strlit("{\"account_id\":\"");
        reveal_strlit("\",\"exp\":\"");
        reveal_strlit("\",\"nbf\":\"");
        reveal_strlit("\"}");
    }
    if m.unicode_len() != 70 {
        return None;
    }
    if !same_text(m.substring_char(0, 15), "{\"account_id\":\"")
        || !same_text(m.substring_char(26, 35), "\",\"exp\":\"")
        || !same_text(m.substring_char(47, 56), "\",\"nbf\":\"")
        || !same_text(m.substring_char(68, 70), "\"}") {
        return None;
    }
    let sign = m.get_char(15);
    if sign != '+' && sign != '-' {
        return None;
    }
    let id = match parse_digits(m.substring_char(16, 26)) {
        Some(v) => v,
        None => return None,
    };
    let exp = match parse_digits(m.substring_char(35, 47)) {
        Some(v) => v,
        None => return None,
    };
    let nbf = match parse_digits(m.substring_char(56, 68)) {
        Some(v) => v,
        None => return None,
    };
    proof {
        lemma_digits_bound(m@.subrange(16, 26));
        lemma_digits_bound(m@.subrange(35, 47));
        lemma_digits_bound(m@.subrange(56, 68));
        assert(pow10(12) == 1000000000000) by {
            reveal_with_fuel(pow10, 13);
        }
        lemma_pow10_grows(10, 12);
    }
    let account: i64 = if sign == '-' {
        -(id as i64)
    } else {
        id as i64
    };
    Some((account, exp as i64, nbf as i64))
}

proof fn lemma_digits_bound(s: Seq<char>)
    requires
        all_digits(s),
    ensures
        digits_value(s) < pow10(s.len()),
    decreases s.len(),
{
    if s.len() > 0 {
        let p = s.drop_last();
        assert(all_digits(p)) by {
            assert forall|i: int| 0 <= i < p.len() implies is_digit(#[trigger] p[i]) by {
                assert(p[i] == s[i]);
            }
        }
        lemma_digits_bound(p);
        assert(is_digit(s[s.len() - 1]));
    }
}

} // verus!
