//! Verified core of the Wise liquidity transformer and the synthetic CSPR
//! token for the Casper platform.
pub mod u256;
pub mod address;
pub mod ledger;
pub mod revert;
pub mod liquidity_transformer;
pub mod synthetic_helper;
pub mod synthetic_token;
pub mod scspr;
pub mod clock;
pub mod session_code;
pub mod purse_proxy;
pub mod event_value;
pub mod key_text;
