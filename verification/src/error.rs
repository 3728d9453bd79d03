//! Structured rejection values for the option handlers.
//!
//! Every failure is a local, inspectable value carrying the data that
//! explains the rejection; a failed invocation writes nothing and emits no
//! effects.

use vstd::prelude::*;
use crate::coins::{Coin, CoinView, coins_view};

verus! {

/// Why a request was rejected.
#[derive(Debug, Clone, PartialEq, Eq)]
pub enum ContractError {
    /// The requester is not the option's owner on an owner-gated action.
    Unauthorized {},
    /// A pre-expiry action was attempted at or after the expiry height, or
    /// creation named an expiry at or below the current height; `expired` is
    /// the offending expiry height.
    OptionExpired { expired: u64 },
    /// Reclaim was attempted strictly before the expiry height.
    OptionNotExpired { expires: u64 },
    /// The funds attached to an exercise do not equal the counter-offer.
    CounterOfferMismatch { offer: Vec<Coin>, counter_offer: Vec<Coin> },
    /// No option record exists (never created, or already settled).
    NotFound {},
    /// The transfer recipient did not resolve to a well-formed identity.
    InvalidRecipient {},
}

/// The mathematical value of a [`ContractError`].
#[verifier::ext_equal]
pub enum ErrorView {
    Unauthorized,
    OptionExpired { expired: int },
    OptionNotExpired { expires: int },
    CounterOfferMismatch { offer: Seq<CoinView>, counter_offer: Seq<CoinView> },
    NotFound,
    InvalidRecipient,
}

impl View for ContractError {
    type V = ErrorView;

    open spec fn view(&self) -> ErrorView {
        match self {
            ContractError::Unauthorized {} => ErrorView::Unauthorized,
            ContractError::OptionExpired { expired } => ErrorView::OptionExpired {
                expired: *expired as int,
            },
            ContractError::OptionNotExpired { expires } => ErrorView::OptionNotExpired {
                expires: *expires as int,
            },
            ContractError::CounterOfferMismatch { offer, counter_offer } => ErrorView::CounterOfferMismatch {
                offer: coins_view(offer@),
                counter_offer: coins_view(counter_offer@),
            },
            ContractError::NotFound {} => ErrorView::NotFound,
            ContractError::InvalidRecipient {} => ErrorView::InvalidRecipient,
        }
    }
}

} // verus!
