//! Payment-gated access: challenge issuing, session tracking and ledger
//! payment matching for account-based and instruction-based chains.

pub mod amount;
pub mod config;
pub mod engine;
pub mod evm;
pub mod solana;
pub mod text;
pub mod types;
pub mod verification;
