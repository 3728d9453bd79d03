//! The shapes of the requests and of the runtime-supplied context.
//!
//! Pure data definitions. Wire decoding and schema validation are the host's
//! job; requests reach the handlers as these plain values.

use vstd::prelude::*;
use crate::coins::Coin;
use crate::state::State;

verus! {

/// Creates the option. The collateral is supplied implicitly as the funds
/// attached to the request, not as a field.
#[derive(Debug, Clone, PartialEq, Eq)]
pub struct InstantiateMsg {
    /// What the owner must pay, exactly, to exercise.
    pub counter_offer: Vec<Coin>,
    /// Height from which the option is no longer exercisable.
    pub expires: u64,
}

/// The three state-changing requests against an existing option.
#[derive(Debug, Clone, PartialEq, Eq)]
pub enum ExecuteMsg {
    /// The owner hands the option rights to `recipient`.
    Transfer { recipient: String },
    /// The owner pays the counter-offer and receives the collateral.
    Execute {},
    /// After expiry, anyone returns the collateral to the creator.
    Burn {},
}

/// The read-only requests.
#[derive(Debug, Clone, PartialEq, Eq)]
pub enum QueryMsg {
    /// Returns the current record verbatim.
    Config {},
}

/// What a configuration query returns: the record itself.
pub type ConfigResponse = State;

/// The part of the ledger state the handlers read: the current block.
#[derive(Debug, Clone, PartialEq, Eq)]
pub struct BlockInfo {
    /// The current, monotonically increasing ledger height.
    pub height: u64,
}

/// The ledger context supplied by the runtime with each request.
#[derive(Debug, Clone, PartialEq, Eq)]
pub struct Env {
    pub block: BlockInfo,
}

/// The authenticated metadata of one request: who sent it and which funds
/// arrived with it. The runtime has already moved the funds; the handlers
/// only read the amounts.
#[derive(Debug, Clone, PartialEq, Eq)]
pub struct MessageInfo {
    pub sender: String,
    pub funds: Vec<Coin>,
}

} // verus!
