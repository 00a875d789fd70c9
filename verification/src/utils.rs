//! Converting between ETH and wei, and the decisions behind funding accounts on
//! a development node.
use vstd::prelude::*;

use crate::primitives::{Address, Uint256, be_value};

verus! {

/// An amount of ETH as an arbitrary-precision decimal holds it: a sign, the
/// decimal digits of the magnitude (most significant first) and a scale. The
/// amount is `(-1)^negative * digits * 10^(-scale)`.
#[derive(Debug, Clone)]
pub struct EthAmount {
    pub negative: bool,
    pub digits: Vec<u8>,
    pub scale: i64,
}

/// Why an ETH amount has no wei value.
#[derive(Debug, Clone, Copy, PartialEq, Eq, Structural)]
pub enum ConversionError {
    /// The amount in wei does not fit in a `u128`, or is negative.
    ValueTooLarge,
}

/// `10^n`.
pub open spec fn pow10(n: nat) -> nat
    decreases n,
{
    if n == 0 {
        1
    } else {
        10 * pow10((n - 1) as nat)
    }
}

/// Every byte is a decimal digit.
pub open spec fn decimal_digits(d: Seq<u8>) -> bool {
    forall|i: int| 0 <= i < d.len() ==> #[trigger] d[i] < 10
}

/// The number that decimal digits spell, most significant first.
pub open spec fn digits_value(d: Seq<u8>) -> nat
    decreases d.len(),
{
    if d.len() == 0 {
        0
    } else {
        digits_value(d.drop_last()) * 10 + d.last() as nat
    }
}

/// The magnitude of an amount times `10^18`, truncated to an integer.
pub open spec fn wei_magnitude(a: EthAmount) -> nat {
    let k = 18 - a.scale;
    if k >= 0 {
        digits_value(a.digits@) * pow10(k as nat)
    } else {
        digits_value(a.digits@) / pow10((-k) as nat)
    }
}

/// What converting an amount to wei gives: zero for zero; an error for any
/// other negative amount; else the amount times `10^18`, truncated, where it fits
/// in a `u128`.
pub open spec fn eth_to_wei_spec(a: EthAmount) -> Result<u128, ConversionError> {
    if digits_value(a.digits@) == 0 {
        Ok(0)
    } else if a.negative {
        Err(ConversionError::ValueTooLarge)
    } else if wei_magnitude(a) <= u128::MAX {
        Ok(wei_magnitude(a) as u128)
    } else {
        Err(ConversionError::ValueTooLarge)
    }
}

proof fn lemma_pow10_pos(n: nat)
    ensures
        pow10(n) >= 1,
    decreases n,
{
    if n > 0 {
        lemma_pow10_pos((n - 1) as nat);
    }
}

proof fn lemma_pow10_add(a: nat, b: nat)
    ensures
        pow10(a + b) == pow10(a) * pow10(b),
    decreases b,
{
    if b > 0 {
        let b1 = (b - 1) as nat;
        lemma_pow10_add(a, b1);
        assert(a + b1 + 1 == a + b);
        assert(pow10(a + b) == 10 * pow10(a + b1));
        assert(pow10(b) == 10 * pow10(b1));
        assert(pow10(a + b) == pow10(a) * pow10(b)) by (nonlinear_arith)
            requires
                pow10(a + b) == 10 * pow10(a + b1),
                pow10(b) == 10 * pow10(b1),
                pow10(a + b1) == pow10(a) * pow10(b1),
        ;
    } else {
        assert(a + b == a);
        assert(pow10(b) == 1);
        assert(pow10(a) * 1 == pow10(a));
    }
}

proof fn lemma_pow10_mono(a: nat, b: nat)
    requires
        a <= b,
    ensures
        pow10(a) <= pow10(b),
{
    lemma_pow10_add(a, (b - a) as nat);
    lemma_pow10_pos((b - a) as nat);
    lemma_pow10_pos(a);
    assert(pow10(a) * pow10((b - a) as nat) >= pow10(a)) by (nonlinear_arith)
        requires
            pow10((b - a) as nat) >= 1,
            pow10(a) >= 1,
    ;
    assert(a + (b - a) as nat == b);
}

/// The digits `a` followed by the digits `b`.
proof fn lemma_digits_value_concat(a: Seq<u8>, b: Seq<u8>)
    ensures
        digits_value(a + b) == digits_value(a) * pow10(b.len()) + digits_value(b),
    decreases b.len(),
{
    if b.len() == 0 {
        assert(a + b =~= a);
        assert(pow10(0) == 1);
    } else {
        let b0 = b.drop_last();
        lemma_digits_value_concat(a, b0);
        assert((a + b).drop_last() =~= a + b0);
        assert((a + b).last() == b.last());
        let last = b.last() as nat;
        let va = digits_value(a);
        let p = pow10(b0.len());
        let v0 = digits_value(b0);
        assert(digits_value(a + b) == digits_value(a + b0) * 10 + last);
        assert(digits_value(b) == v0 * 10 + last);
        assert(b0.len() + 1 == b.len());
        assert(pow10(b.len()) == 10 * p);
        assert((va * p + v0) * 10 + last == va * (10 * p) + (v0 * 10 + last)) by (nonlinear_arith);
    }
}

/// Decimal digits spell a number below `10^len`.
proof fn lemma_digits_value_bound(d: Seq<u8>)
    requires
        decimal_digits(d),
    ensures
        digits_value(d) < pow10(d.len()),
    decreases d.len(),
{
    if d.len() > 0 {
        let d0 = d.drop_last();
        assert(decimal_digits(d0)) by {
            assert forall|i: int| 0 <= i < d0.len() implies #[trigger] d0[i] < 10 by {
                assert(d0[i] == d[i]);
            }
        }
        lemma_digits_value_bound(d0);
        assert(d.last() < 10) by {
            assert(d[d.len() - 1] < 10);
        }
        assert(digits_value(d0) * 10 + (d.last() as nat) < 10 * pow10(d0.len())) by (nonlinear_arith)
            requires
                digits_value(d0) < pow10(d0.len()),
                d.last() < 10,
        ;
    }
}

/// A prefix spells at most what the whole does.
proof fn lemma_digits_value_prefix(d: Seq<u8>, i: int)
    requires
        0 <= i <= d.len(),
    ensures
        digits_value(d.subrange(0, i)) <= digits_value(d),
{
    let a = d.subrange(0, i);
    let b = d.subrange(i, d.len() as int);
    assert(a + b =~= d);
    lemma_digits_value_concat(a, b);
    lemma_pow10_pos(b.len());
    assert(digits_value(a) * pow10(b.len()) >= digits_value(a)) by (nonlinear_arith)
        requires
            pow10(b.len()) >= 1,
    ;
}

/// The value of the first `i + 1` digits, from that of the first `i`.
proof fn lemma_digits_value_step(d: Seq<u8>, i: int)
    requires
        0 <= i < d.len(),
    ensures
        digits_value(d.subrange(0, i + 1)) == digits_value(d.subrange(0, i)) * 10 + d[i] as nat,
{
    assert(d.subrange(0, i + 1).drop_last() =~= d.subrange(0, i));
}

/// Dropping the last `m` digits is dividing by `10^m`.
proof fn lemma_digits_value_div(d: Seq<u8>, m: nat)
    requires
        decimal_digits(d),
    ensures
        m <= d.len() ==> digits_value(d) / pow10(m) == digits_value(d.subrange(0, d.len() - m)),
        m > d.len() ==> digits_value(d) / pow10(m) == 0,
{
    lemma_pow10_pos(m);
    if m <= d.len() {
        let a = d.subrange(0, d.len() - m);
        let b = d.subrange(d.len() - m, d.len() as int);
        assert(a + b =~= d);
        lemma_digits_value_concat(a, b);
        assert(decimal_digits(b)) by {
            assert forall|i: int| 0 <= i < b.len() implies #[trigger] b[i] < 10 by {
                assert(b[i] == d[d.len() - m + i]);
            }
        }
        lemma_digits_value_bound(b);
        vstd::arithmetic::div_mod::lemma_fundamental_div_mod_converse(
            digits_value(d) as int,
            pow10(m) as int,
            digits_value(a) as int,
            digits_value(b) as int,
        );
    } else {
        lemma_digits_value_bound(d);
        lemma_pow10_mono(d.len(), m);
        vstd::arithmetic::div_mod::lemma_fundamental_div_mod_converse(
            digits_value(d) as int,
            pow10(m) as int,
            0,
            digits_value(d) as int,
        );
    }
}

/// Whether the digits spell zero.
fn all_zero(d: &Vec<u8>) -> (r: bool)
    ensures
        r == (digits_value(d@) == 0),
{
    let n = d.len();
    let mut i: usize = 0;
    while i < n
        invariant
            n == d@.len(),
            i <= n,
            digits_value(d@.subrange(0, i as int)) == 0,
        decreases n - i,
    {
        proof {
            lemma_digits_value_step(d@, i as int);
        }
        if d[i] != 0 {
            proof {
                lemma_digits_value_prefix(d@, i + 1);
            }
            return false;
        }
        i += 1;
    }
    assert(d@.subrange(0, n as int) =~= d@);
    true
}

/// Convert an ETH amount to wei: the amount times `10^18`, truncated toward zero.
/// Fails where that does not fit in a `u128`, and for a negative amount other
/// than zero.
pub fn eth_to_wei(eth: &EthAmount) -> (r: Result<u128, ConversionError>)
    requires
        decimal_digits(eth.digits@),
    ensures
        r == eth_to_wei_spec(*eth),
{
    if all_zero(&eth.digits) {
        return Ok(0);
    }
    if eth.negative {
        return Err(ConversionError::ValueTooLarge);
    }
    let ghost d = eth.digits@;
    let n = eth.digits.len();
    let k: i128 = 18i128 - eth.scale as i128;
    let keep: usize = if k >= 0 {
        n
    } else {
        let dropped: i128 = -k;
        if dropped >= n as i128 {
            0
        } else {
            n - dropped as usize
        }
    };
    proof {
        if k < 0 {
            lemma_digits_value_div(d, (-k) as nat);
            if keep > 0 {
                assert(d.len() - ((-k) as nat) == keep);
            }
        }
    }
    // The wei amount, where it stays below 2^128, is the first `keep` digits times `10^max(k, 0)`.
    assert(k >= 0 ==> keep == n);
    assert(k < 0 ==> wei_magnitude(*eth) == digits_value(d.subrange(0, keep as int))) by {
        if k < 0 && keep == 0 {
            assert(d.subrange(0, 0) =~= Seq::<u8>::empty());
        }
    }
    let mut acc: u128 = 0;
    let mut i: usize = 0;
    assert(d.subrange(0, 0) =~= Seq::<u8>::empty());
    while i < keep
        invariant
            d == eth.digits@,
            n == d.len(),
            keep <= n,
            i <= keep,
            decimal_digits(d),
            acc == digits_value(d.subrange(0, i as int)),
            k >= 0 ==> wei_magnitude(*eth) == digits_value(d) * pow10(k as nat),
            k < 0 ==> wei_magnitude(*eth) == digits_value(d.subrange(0, keep as int)),
            k >= 0 ==> keep == n,
            !eth.negative,
            digits_value(d) != 0,
        decreases keep - i,
    {
        let digit = eth.digits[i] as u128;
        proof {
            lemma_digits_value_step(d, i as int);
            assert(d[i as int] < 10);
        }
        if acc > (u128::MAX - digit) / 10 {
            proof {
                assert(acc * 10 + digit > u128::MAX) by (nonlinear_arith)
                    requires
                        acc > (u128::MAX - digit) / 10,
                        digit < 10,
                ;
                if k >= 0 {
                    lemma_digits_value_prefix(d, i + 1);
                    lemma_pow10_pos(k as nat);
                    assert(digits_value(d) * pow10(k as nat) >= digits_value(d)) by (nonlinear_arith)
                        requires
                            pow10(k as nat) >= 1,
                    ;
                    assert(d.subrange(0, n as int) =~= d);
                } else {
                    let kept = d.subrange(0, keep as int);
                    lemma_digits_value_prefix(kept, i + 1);
                    assert(kept.subrange(0, i + 1) =~= d.subrange(0, i + 1));
                }
            }
            return Err(ConversionError::ValueTooLarge);
        }
        acc = acc * 10 + digit;
        i += 1;
    }
    if k > 0 {
        assert(d.subrange(0, n as int) =~= d);
        let mut j: i128 = 0;
        assert(pow10(0) == 1);
        assert(acc == digits_value(d) * pow10(0));
        while j < k
            invariant
                d == eth.digits@,
                0 <= j <= k,
                k > 0,
                acc == digits_value(d) * pow10(j as nat),
                wei_magnitude(*eth) == digits_value(d) * pow10(k as nat),
                digits_value(d) != 0,
                !eth.negative,
            decreases k - j,
        {
            proof {
                assert(pow10((j + 1) as nat) == 10 * pow10(j as nat));
            }
            if acc > u128::MAX / 10 {
                proof {
                    let v = digits_value(d);
                    let pj = pow10(j as nat);
                    let rest = pow10((k - j - 1) as nat);
                    lemma_pow10_add((j + 1) as nat, (k - j - 1) as nat);
                    lemma_pow10_pos((k - j - 1) as nat);
                    assert((j + 1) as nat + (k - j - 1) as nat == k as nat);
                    assert(pow10(k as nat) == (10 * pj) * rest);
                    assert(v * ((10 * pj) * rest) >= (v * pj) * 10) by (nonlinear_arith)
                        requires
                            rest >= 1,
                    ;
                    assert((acc as int) * 10 > u128::MAX) by (nonlinear_arith)
                        requires
                            acc > u128::MAX / 10,
                    ;
                }
                return Err(ConversionError::ValueTooLarge);
            }
            proof {
                assert(digits_value(d) * (10 * pow10(j as nat)) == (digits_value(d) * pow10(
                    j as nat,
                )) * 10) by (nonlinear_arith);
            }
            acc = acc * 10;
            j += 1;
        }
    } else {
        proof {
            if k == 0 {
                assert(d.subrange(0, n as int) =~= d);
                assert(pow10(0) == 1);
            }
        }
    }
    Ok(acc)
}

/// `a` is the quotient `w / 10^exp`, non-negative and in decimal digits: its
/// magnitude times `10^exp` is `w` times `10^scale`.
pub open spec fn is_quotient_by_pow10(a: EthAmount, w: nat, exp: nat) -> bool {
    &&& !a.negative
    &&& decimal_digits(a.digits@)
    &&& if a.scale >= 0 {
        digits_value(a.digits@) * pow10(exp) == w * pow10(a.scale as nat)
    } else {
        digits_value(a.digits@) * pow10((exp - a.scale) as nat) == w
    }
}

/// `a` is the amount `w * 10^-18`: `w` wei in ETH.
pub open spec fn is_wei_in_eth(a: EthAmount, w: nat) -> bool {
    is_quotient_by_pow10(a, w, 18)
}

/// The number of wei in one ETH.
pub const WEI_PER_ETH: u128 = 1_000_000_000_000_000_000;

/// Divides `n` (a big-endian `U256`) by `divisor`, a power of ten, as a
/// `BigDecimal` (`BigDecimal::from_str` of the decimal digits of `n`, then `Div` by
/// `BigDecimal::from(divisor)`), and returns the quotient's sign, decimal digits
/// (`BigInt::to_radix_be(10)`) and scale (`into_bigint_and_exponent`). The quotient
/// is exact: the division stops as soon as its remainder is zero, which happens
/// within as many significant digits as `n` has (at most 78), below the precision
/// of 100 digits that `bigdecimal` divides with unless it is built with another.
#[verifier::external_body]
fn bigdecimal_div_pow10(n: &Uint256, divisor: u128) -> (r: EthAmount)
    requires
        exists|e: nat| divisor == pow10(e),
    ensures
        forall|e: nat| divisor == pow10(e) ==> is_quotient_by_pow10(r, be_value(n@), e),
{
    let n = alloy::primitives::U256::from_be_bytes(*n);
    let q = <bigdecimal::BigDecimal as std::str::FromStr>::from_str(&n.to_string()).unwrap()
        / bigdecimal::BigDecimal::from(divisor);
    let (digits_int, scale) = q.into_bigint_and_exponent();
    let (sign, digits) = digits_int.to_radix_be(10);
    EthAmount { negative: sign == bigdecimal::num_bigint::Sign::Minus, digits, scale }
}

/// Convert a wei amount (a big-endian `U256`) to ETH: the amount divided by
/// `10^18`, exactly.
pub fn wei_to_eth(wei: &Uint256) -> (r: EthAmount)
    ensures
        is_wei_in_eth(r, be_value(wei@)),
{
    assert(pow10(18) == WEI_PER_ETH) by {
        reveal_with_fuel(pow10, 19);
    }
    bigdecimal_div_pow10(wei, WEI_PER_ETH)
}

/// Converting a wei amount that fits in a `u128` to ETH and back gives the amount.
pub proof fn law_eth_to_wei_undoes_wei_to_eth(a: EthAmount, w: nat)
    requires
        is_wei_in_eth(a, w),
        w <= u128::MAX,
    ensures
        eth_to_wei_spec(a) == Ok::<u128, ConversionError>(w as u128),
{
    let d = digits_value(a.digits@);
    assert(wei_magnitude(a) == w) by {
        if a.scale >= 0 {
            let sc = a.scale as nat;
            lemma_pow10_pos(sc);
            if a.scale <= 18 {
                let k = (18 - a.scale) as nat;
                lemma_pow10_add(sc, k);
                assert(sc + k == 18);
                let ps = pow10(sc);
                let pk = pow10(k);
                assert(d * pk == w) by (nonlinear_arith)
                    requires
                        d * (ps * pk) == w * ps,
                        ps >= 1,
                ;
            } else {
                let m = (a.scale - 18) as nat;
                lemma_pow10_add(18, m);
                assert(18 + m == sc);
                lemma_pow10_pos(18);
                lemma_pow10_pos(m);
                let p18 = pow10(18);
                let pm = pow10(m);
                assert(d == w * pm) by (nonlinear_arith)
                    requires
                        d * p18 == w * (p18 * pm),
                        p18 >= 1,
                ;
                vstd::arithmetic::div_mod::lemma_fundamental_div_mod_converse(
                    d as int,
                    pm as int,
                    w as int,
                    0,
                );
            }
        }
    }
    assert(d == 0 ==> w == 0) by {
        if a.scale >= 0 {
            lemma_pow10_pos(a.scale as nat);
            lemma_pow10_pos(18);
            assert(d == 0 ==> w == 0) by (nonlinear_arith)
                requires
                    d * pow10(18) == w * pow10(a.scale as nat),
                    pow10(a.scale as nat) >= 1,
            ;
        }
    }
}

/// The gas limit of a funding transfer.
pub const TRANSFER_GAS_LIMIT: u64 = 2_800_000;

/// The maximum priority fee per gas of a funding transfer: 1 gwei.
pub const TRANSFER_MAX_PRIORITY_FEE_PER_GAS: u128 = 1_000_000_000;

/// The maximum fee per gas of a funding transfer: 5 gwei.
pub const TRANSFER_MAX_FEE_PER_GAS: u128 = 5_000_000_000;

/// How many times a funding transfer is sent again when its receipt does not come.
pub const TRANSFER_RETRIES: u64 = 5;

/// The number of rounds (fund an account, then transfer from it) that make the
/// least fee history that transactions need on a fresh development node.
pub const FEE_HISTORY_ROUNDS: u64 = 5;

/// The wei that each fee history round funds its sender with: `100 * 2^64`.
pub const FEE_HISTORY_FUNDING: u128 = 1_844_674_407_370_955_161_600;

/// The wei that each fee history round transfers.
pub const FEE_HISTORY_TRANSFER: u128 = 50;

/// A transfer of `value` wei from `from` to `to` on chain `chain_id`, with the
/// fixed fees and gas limit of a funding transfer.
#[derive(Debug, Clone, Copy)]
pub struct TransferRequest {
    pub chain_id: u64,
    pub from: Address,
    pub to: Address,
    pub value: u128,
    pub max_priority_fee_per_gas: u128,
    pub max_fee_per_gas: u128,
    pub gas_limit: u64,
}

/// The funding transfer of `value` wei from `from` to `to` on chain `chain_id`.
pub fn transfer_request(chain_id: u64, from: Address, to: Address, value: u128) -> (t: TransferRequest)
    ensures
        t.chain_id == chain_id,
        t.from == from,
        t.to == to,
        t.value == value,
        t.max_priority_fee_per_gas == TRANSFER_MAX_PRIORITY_FEE_PER_GAS,
        t.max_fee_per_gas == TRANSFER_MAX_FEE_PER_GAS,
        t.gas_limit == TRANSFER_GAS_LIMIT,
{
    TransferRequest {
        chain_id,
        from,
        to,
        value,
        max_priority_fee_per_gas: TRANSFER_MAX_PRIORITY_FEE_PER_GAS,
        max_fee_per_gas: TRANSFER_MAX_FEE_PER_GAS,
        gas_limit: TRANSFER_GAS_LIMIT,
    }
}

/// What to do after sending a transfer for the `attempt`-th time (counting from
/// zero, of `retries + 1` attempts) and waiting for its receipt.
#[derive(Debug, Clone, Copy, PartialEq, Eq, Structural)]
pub enum RetryStep {
    /// The receipt came: the transfer is done.
    Done,
    /// No receipt came and no attempt is left: the transfer fails.
    Fail,
    /// No receipt came: wait a second and send the transfer again.
    Retry,
}

/// Decide the next step of a transfer after an attempt.
pub fn transfer_retry_step(attempt: u64, retries: u64, receipt_ok: bool) -> (s: RetryStep)
    requires
        attempt <= retries,
    ensures
        receipt_ok ==> s == RetryStep::Done,
        !receipt_ok && attempt == retries ==> s == RetryStep::Fail,
        !receipt_ok && attempt < retries ==> s == RetryStep::Retry,
{
    if receipt_ok {
        RetryStep::Done
    } else if attempt == retries {
        RetryStep::Fail
    } else {
        RetryStep::Retry
    }
}

} // verus!
