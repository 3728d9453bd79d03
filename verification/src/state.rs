//! The option record and the repository that holds the single instance.

use vstd::prelude::*;
use crate::coins::{Coin, CoinView, coins_view, clone_coins};
use crate::error::ContractError;

verus! {

/// The one persisted option record.
#[derive(Debug, Clone, PartialEq, Eq)]
pub struct State {
    /// Who created the option; never changes after creation.
    pub creator: String,
    /// Who currently holds the option rights; changes only by transfer.
    pub owner: String,
    /// Assets the creator locked at creation, released on settlement.
    pub collateral: Vec<Coin>,
    /// Assets the owner must pay, exactly, to exercise.
    pub counter_offer: Vec<Coin>,
    /// Ledger height from which the option is reclaimable instead of
    /// exercisable.
    pub expires: u64,
}

/// The mathematical value of a [`State`].
#[verifier::ext_equal]
pub struct StateView {
    pub creator: Seq<char>,
    pub owner: Seq<char>,
    pub collateral: Seq<CoinView>,
    pub counter_offer: Seq<CoinView>,
    pub expires: int,
}

impl View for State {
    type V = StateView;

    open spec fn view(&self) -> StateView {
        StateView {
            creator: self.creator@,
            owner: self.owner@,
            collateral: coins_view(self.collateral@),
            counter_offer: coins_view(self.counter_offer@),
            expires: self.expires as int,
        }
    }
}

/// Copies the record field by field.
pub fn clone_state(s: &State) -> (r: State)
    ensures
        r@ == s@,
{
    State {
        creator: s.creator.clone(),
        owner: s.owner.clone(),
        collateral: clone_coins(&s.collateral),
        counter_offer: clone_coins(&s.counter_offer),
        expires: s.expires,
    }
}

/// The repository for the single option record: holds zero or one [`State`]
/// under one fixed logical key. Each handler performs at most one load
/// followed by at most one save or remove against it; the host adapts it to
/// the real persistence collaborator and scopes it to one invocation.
#[derive(Debug, Clone, PartialEq, Eq)]
pub struct OptionStore {
    record: Option<State>,
}

impl View for OptionStore {
    type V = Option<StateView>;

    closed spec fn view(&self) -> Option<StateView> {
        match self.record {
            Some(s) => Some(s@),
            None => None,
        }
    }
}

impl OptionStore {
    /// An empty repository: no option has been created.
    pub fn new() -> (s: Self)
        ensures
            s@ is None,
    {
        OptionStore { record: None }
    }

    /// Stores `state` as the one record, replacing any previous one.
    pub fn save(&mut self, state: &State)
        ensures
            final(self)@ == Some(state@),
    {
        self.record = Some(clone_state(state));
    }

    /// Deletes the record, if any.
    pub fn remove(&mut self)
        ensures
            final(self)@ is None,
    {
        self.record = None;
    }

    /// Returns the record, or [`ContractError::NotFound`] if none exists.
    pub fn load(&self) -> (r: Result<State, ContractError>)
        ensures
            match self@ {
                Some(sv) => r matches Ok(st) && st@ == sv,
                None => r matches Err(e) && e@ == crate::error::ErrorView::NotFound,
            },
    {
        match &self.record {
            Some(s) => Ok(clone_state(s)),
            None => Err(ContractError::NotFound {}),
        }
    }

    /// Returns the record if one exists, and `None` otherwise.
    pub fn may_load(&self) -> (r: Option<State>)
        ensures
            match self@ {
                Some(sv) => r matches Some(st) && st@ == sv,
                None => r is None,
            },
    {
        match &self.record {
            Some(s) => Some(clone_state(s)),
            None => None,
        }
    }
}

} // verus!
