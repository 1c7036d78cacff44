//! A transaction relay core: encodes contract calls, tracks the account's nonces,
//! assembles transactions, and decides each step of a relay action from what the
//! node reports, until the transaction is confirmed or the action fails.

pub mod abi;
pub mod nonce;
pub mod relay;
pub mod tx;
