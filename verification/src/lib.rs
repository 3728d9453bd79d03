//! Lifecycle logic of a two-party escrowed call option.
//!
//! A creator locks a collateral of fungible assets and names a counter-offer.
//! The current owner may transfer the option, exercise it strictly before an
//! expiration height (paying the counter-offer to receive the collateral), or
//! let it lapse, after which anyone may reclaim the collateral for the
//! creator. The handlers here are pure: they take the stored record, the
//! requester, the attached funds and the current height as explicit inputs,
//! and return the new record together with the asset-transfer instructions
//! and audit attributes to emit. Executing those instructions, persisting the
//! record and decoding requests are the host runtime's job.

pub mod coins;
pub mod contract;
pub mod error;
pub mod laws;
pub mod msg;
pub mod response;
pub mod state;
