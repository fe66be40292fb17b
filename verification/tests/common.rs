use wise_liquidity::clock::{millis_to_u64, now};
use wise_liquidity::purse_proxy;
use wise_liquidity::session_code;
use wise_liquidity::synthetic_helper;
use wise_liquidity::synthetic_token::data::ErrorCodes;
use wise_liquidity::u256::U256;

#[test]
fn clock_reads_milliseconds() {
    let t = now().unwrap();
    // later than 2020-01-01
    assert!(t > 1_577_836_800_000);
    assert_eq!(millis_to_u64(u64::MAX as u128 + 5), 4);
}

#[test]
fn error_codes() {
    assert_eq!(session_code::Error::Abort.code(), 0);
    assert_eq!(purse_proxy::Error::Abort.code(), 0);
    assert_eq!(synthetic_helper::Error::BalanceMismatch.code(), 1);
    assert_eq!(ErrorCodes::Abort.code(), 35);
}

#[test]
fn amounts_from_u128() {
    let a = U256::from_u128(u128::MAX);
    assert_eq!([a.w0, a.w1, a.w2, a.w3], [u64::MAX, u64::MAX, 0, 0]);
    assert_eq!(U256::from_u64(3), U256 { w0: 3, w1: 0, w2: 0, w3: 0 });
}
