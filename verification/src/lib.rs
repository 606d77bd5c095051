//! Verified wagering-contract logic: fee splitting, odds resolution,
//! partner-game accounting, balance ledgers and storage-rent bookkeeping,
//! together with a capped NFT minter.
//!
//! Every entry point is a function from the current contract state and the
//! values the host runtime supplies (caller, attached deposit, drawn random
//! byte, measured storage) to the next state, a result, and the transfers
//! the host is asked to perform.

pub mod account_id;
pub mod assoc;
pub mod casino;
pub mod decimal;
pub mod ft_casino;
pub mod messages;
pub mod mint;
pub mod slots;
pub mod token_casino;
pub mod transfer;
