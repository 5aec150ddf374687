//! Verified core of five Solana programs written with Anchor: an NFT
//! marketplace, an NFT staking program, a token escrow, an AMM pool
//! configuration and a ticketing treasury.  Each instruction is modelled as a
//! function from the accounts it reads to the accounts it creates, the
//! account data it writes and the transfers it asks the runtime to perform.
pub mod address;
pub mod pda;
pub mod transfer;
pub mod seeds;
pub mod constraints;
pub mod create;
pub mod marketplace;
pub mod staking;
pub mod tickr;
pub mod amm;
pub mod escrow;
