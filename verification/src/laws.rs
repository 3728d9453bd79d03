//! The option's guarantees, stated and proved over the step functions that
//! the handlers' contracts realise.

use vstd::prelude::*;
use crate::coins::CoinView;
use crate::contract::{
    Step, create_step, exercise_step, query_step, reclaim_step, transfer_step,
};
use crate::error::ErrorView;
use crate::response::BankSendView;
use crate::state::StateView;

verus! {

/// Creation rejects a past or present expiry: for every `expires` at or
/// below the current height, creation fails with `OptionExpired` carrying
/// that expiry, and the stored record is left exactly as it was.
pub proof fn law_create_rejects_past_expiry(
    record: Option<StateView>,
    height: int,
    sender: Seq<char>,
    funds: Seq<CoinView>,
    counter_offer: Seq<CoinView>,
    expires: int,
)
    requires
        expires <= height,
    ensures
        create_step(record, height, sender, funds, counter_offer, expires) == (Step {
            record,
            result: Err(ErrorView::OptionExpired { expired: expires }),
        }),
{
}

/// Only the owner may transfer or exercise: any other requester gets
/// `Unauthorized`, whatever the recipient, validation outcome, height or
/// funds, and the record is unchanged.
pub proof fn law_only_owner_transfers_or_exercises(
    s: StateView,
    sender: Seq<char>,
    recipient: Seq<char>,
    validated: Option<Seq<char>>,
    height: int,
    funds: Seq<CoinView>,
)
    requires
        sender != s.owner,
    ensures
        transfer_step(Some(s), sender, recipient, validated) == (Step {
            record: Some(s),
            result: Err(ErrorView::Unauthorized),
        }),
        exercise_step(Some(s), height, sender, funds) == (Step {
            record: Some(s),
            result: Err(ErrorView::Unauthorized),
        }),
{
}

/// Exercise requires exact funds: when the owner exercises before expiry
/// with funds that differ from the counter-offer as a multiset of
/// (denomination, amount) pairs, the request fails `CounterOfferMismatch`
/// carrying both lists, and the record is unchanged. (With a wrong sender or
/// at expiry the earlier checks answer instead.)
pub proof fn law_exercise_requires_exact_funds(
    s: StateView,
    height: int,
    sender: Seq<char>,
    funds: Seq<CoinView>,
)
    requires
        sender == s.owner,
        height < s.expires,
        !crate::coins::same_coins(funds, s.counter_offer),
    ensures
        exercise_step(Some(s), height, sender, funds) == (Step {
            record: Some(s),
            result: Err(
                ErrorView::CounterOfferMismatch { offer: funds, counter_offer: s.counter_offer },
            ),
        }),
{
}

/// Exercise requires pre-expiry: at or after the expiry height the owner's
/// exercise fails `OptionExpired`, even with the exact funds attached, and
/// the record is unchanged.
pub proof fn law_exercise_requires_pre_expiry(
    s: StateView,
    height: int,
    sender: Seq<char>,
    funds: Seq<CoinView>,
)
    requires
        sender == s.owner,
        height >= s.expires,
    ensures
        exercise_step(Some(s), height, sender, funds) == (Step {
            record: Some(s),
            result: Err(ErrorView::OptionExpired { expired: s.expires }),
        }),
{
}

/// Reclaim requires post-expiry: strictly before the expiry height, reclaim
/// fails `OptionNotExpired` for every requester, and the record is
/// unchanged.
pub proof fn law_reclaim_requires_post_expiry(s: StateView, height: int)
    requires
        height < s.expires,
    ensures
        reclaim_step(Some(s), height) == (Step {
            record: Some(s),
            result: Err(ErrorView::OptionNotExpired { expires: s.expires }),
        }),
{
}

/// Settlement is terminal: a successful exercise or reclaim deletes the
/// record, and against a deleted record every request — query, transfer,
/// exercise, reclaim — fails `NotFound` and keeps the record deleted.
pub proof fn law_settlement_is_terminal(
    s: StateView,
    sender: Seq<char>,
    recipient: Seq<char>,
    validated: Option<Seq<char>>,
    height: int,
    funds: Seq<CoinView>,
    later_sender: Seq<char>,
    later_height: int,
    later_funds: Seq<CoinView>,
)
    ensures
        exercise_step(Some(s), height, sender, funds).result is Ok ==> exercise_step(
            Some(s),
            height,
            sender,
            funds,
        ).record is None,
        reclaim_step(Some(s), height).result is Ok ==> reclaim_step(Some(s), height).record
            is None,
        query_step(None) == Err::<StateView, ErrorView>(ErrorView::NotFound),
        transfer_step(None, later_sender, recipient, validated) == (Step {
            record: None,
            result: Err(ErrorView::NotFound),
        }),
        exercise_step(None, later_height, later_sender, later_funds) == (Step {
            record: None,
            result: Err(ErrorView::NotFound),
        }),
        reclaim_step(None, later_height) == (Step {
            record: None,
            result: Err(ErrorView::NotFound),
        }),
{
}

/// Effect ordering: a successful exercise emits exactly two transfers, the
/// counter-offer to the creator first, the collateral to the owner second —
/// never the reverse.
pub proof fn law_exercise_effect_order(
    s: StateView,
    height: int,
    sender: Seq<char>,
    funds: Seq<CoinView>,
)
    requires
        exercise_step(Some(s), height, sender, funds).result is Ok,
    ensures
        exercise_step(Some(s), height, sender, funds).result->Ok_0.messages == seq![
            BankSendView { to_address: s.creator, amount: s.counter_offer },
            BankSendView { to_address: s.owner, amount: s.collateral },
        ],
{
}

} // verus!
