//! A presale launcher for tokens: a launcher account that names the
//! protocol's admin and fee pool, launchpads that sell a fixed allotment of a
//! token at a fixed price, and the move of the presale's proceeds and reserve
//! into an AMM pool once the presale is over.
//!
//! Every instruction is a verified function from the accounts it reads to
//! either an error or the list of transfers (and other cross-program calls)
//! that carry it out, together with the new state of the accounts it writes.
pub mod constants;
pub mod cpi;
pub mod error;
pub mod instructions;
pub mod pricing;
pub mod properties;
pub mod pubkey;
pub mod state;
