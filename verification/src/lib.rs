//! Verified core of an on-chain position monitor and liquidation trigger.
//!
//! The library holds the decision logic of the bot: classifying positions by
//! their health factor, assembling the liquidation call in its fixed argument
//! order, and driving one monitoring cycle. All network traffic (querying the
//! hub contract, signing and submitting transactions) happens outside the
//! library, which exchanges plain values with its caller.

pub mod chain;
pub mod control;
pub mod liquidation;
pub mod monitor_positions;
