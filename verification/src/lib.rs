//! Sealed-bid (commit-reveal) auction core.
//!
//! A seller offers an asset; bidders lock collateral behind hash commitments,
//! later reveal amount and nonce, the highest valid reveal wins (first bidder
//! takes exact ties), and funds are disbursed exactly once to the winner,
//! the seller and the losing bidders. Every operation here is a pure state
//! transition on plain records; the surrounding runtime supplies the clock,
//! storage and the actual transfers.

pub mod auction;
pub mod bid;
pub mod commitment;
pub mod errors;
pub mod settlement;
