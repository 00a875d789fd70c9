use std::str::FromStr;

use arkiv_sdk::utils::{
    eth_to_wei, transfer_request, transfer_retry_step, wei_to_eth, ConversionError, EthAmount,
    RetryStep, FEE_HISTORY_FUNDING, FEE_HISTORY_ROUNDS, FEE_HISTORY_TRANSFER, TRANSFER_RETRIES,
};
use bigdecimal::num_bigint::Sign;
use bigdecimal::{BigDecimal, ToPrimitive};

fn amount(s: &str) -> EthAmount {
    let (int, scale) = BigDecimal::from_str(s).unwrap().into_bigint_and_exponent();
    let (sign, digits) = int.to_radix_be(10);
    EthAmount { negative: sign == Sign::Minus, digits, scale }
}

fn by_bigdecimal(s: &str) -> Option<u128> {
    (BigDecimal::from_str(s).unwrap() * BigDecimal::from(1_000_000_000_000_000_000u128)).to_u128()
}

#[test]
fn eth_to_wei_values() {
    assert_eq!(eth_to_wei(&amount("1")), Ok(1_000_000_000_000_000_000));
    assert_eq!(eth_to_wei(&amount("0.5")), Ok(500_000_000_000_000_000));
    assert_eq!(eth_to_wei(&amount("0")), Ok(0));
    assert_eq!(eth_to_wei(&amount("-0")), Ok(0));
    assert_eq!(eth_to_wei(&amount("0.0000000000000000001")), Ok(0));
    assert_eq!(eth_to_wei(&amount("1.0000000000000000019")), Ok(1_000_000_000_000_000_001));
    assert_eq!(eth_to_wei(&amount("1e3")), Ok(1_000_000_000_000_000_000_000));
}

#[test]
fn eth_to_wei_errors() {
    assert_eq!(eth_to_wei(&amount("-1")), Err(ConversionError::ValueTooLarge));
    assert_eq!(eth_to_wei(&amount("-0.0000000000000000001")), Err(ConversionError::ValueTooLarge));
    assert_eq!(eth_to_wei(&amount("1e30")), Err(ConversionError::ValueTooLarge));
    assert_eq!(
        eth_to_wei(&amount("340282366920938463463.374607431768211456")),
        Err(ConversionError::ValueTooLarge)
    );
    assert_eq!(
        eth_to_wei(&amount("340282366920938463463.374607431768211455")),
        Ok(u128::MAX)
    );
}

#[test]
fn eth_to_wei_agrees_with_bigdecimal() {
    for s in [
        "1",
        "0.1",
        "123.456",
        "1e-18",
        "1e-19",
        "-5",
        "-1e-40",
        "9.99e20",
        "340282366920938463463.374607431768211455",
        "340282366920938463463.374607431768211456",
        "0.000000000000000000000000000000000000000000000000001",
        "12345678901234567890.12345678901234567890123",
        "0e-100",
        "2e2",
    ] {
        assert_eq!(eth_to_wei(&amount(s)).ok(), by_bigdecimal(s), "{s}");
    }
}

fn wei_word(w: u128) -> [u8; 32] {
    let mut b = [0u8; 32];
    b[16..].copy_from_slice(&w.to_be_bytes());
    b
}

fn value_of(a: &EthAmount) -> BigDecimal {
    let sign = if a.negative { Sign::Minus } else { Sign::Plus };
    let int = bigdecimal::num_bigint::BigInt::from_radix_be(sign, &a.digits, 10).unwrap();
    BigDecimal::new(int, a.scale)
}

#[test]
fn wei_to_eth_divides_by_ten_to_the_eighteen() {
    assert_eq!(value_of(&wei_to_eth(&wei_word(1_000_000_000_000_000_000))), BigDecimal::from(1));
    assert_eq!(
        value_of(&wei_to_eth(&wei_word(1_500_000_000_000_000_000))),
        BigDecimal::from_str("1.5").unwrap()
    );
    assert_eq!(
        value_of(&wei_to_eth(&wei_word(1))),
        BigDecimal::from_str("0.000000000000000001").unwrap()
    );
    assert_eq!(value_of(&wei_to_eth(&wei_word(0))), BigDecimal::from(0));
    let max = [0xffu8; 32];
    let expected = BigDecimal::from_str(
        "115792089237316195423570985008687907853269984665640564039457.584007913129639935",
    )
    .unwrap();
    assert_eq!(value_of(&wei_to_eth(&max)), expected);
}

#[test]
fn eth_to_wei_undoes_wei_to_eth() {
    for w in [0u128, 1, 7, 10, 999_999_999_999_999_999, 1_000_000_000_000_000_000, 123_456_789_012_345_678_901_234, u128::MAX] {
        assert_eq!(eth_to_wei(&wei_to_eth(&wei_word(w))), Ok(w));
    }
}

#[test]
fn transfer_decisions() {
    let t = transfer_request(1337, [1; 20], [2; 20], 50);
    assert_eq!(t.gas_limit, 2_800_000);
    assert_eq!(t.max_priority_fee_per_gas, 1_000_000_000);
    assert_eq!(t.max_fee_per_gas, 5_000_000_000);
    assert_eq!((t.chain_id, t.from, t.to, t.value), (1337, [1; 20], [2; 20], 50));
    assert_eq!(transfer_retry_step(0, 5, true), RetryStep::Done);
    assert_eq!(transfer_retry_step(5, 5, true), RetryStep::Done);
    assert_eq!(transfer_retry_step(2, 5, false), RetryStep::Retry);
    assert_eq!(transfer_retry_step(5, 5, false), RetryStep::Fail);
    assert_eq!(FEE_HISTORY_FUNDING, 100u128 << 64);
    assert_eq!((TRANSFER_RETRIES, FEE_HISTORY_ROUNDS, FEE_HISTORY_TRANSFER), (5, 5, 50));
}
