//! The option state machine: validation, decision and effect derivation for
//! each of the four requests, plus the read-only query.
//!
//! Each handler is specified against a step function: a mathematical map
//! from the stored record and the request's inputs to the record after the
//! call and the emitted result. The handler's contract says exactly that it
//! realises its step function, so every acceptance, every rejection and the
//! order of the emitted effects are pinned down.
//!
//! The checks are ordered deliberately — identity before expiry before funds
//! in exercise — so the least-ambiguous failure is reported first; the step
//! functions fix that order.

use vstd::prelude::*;
use crate::coins::{CoinView, coins_view, coins_match};
use crate::error::{ContractError, ErrorView};
use crate::msg::{ConfigResponse, Env, ExecuteMsg, InstantiateMsg, MessageInfo, QueryMsg};
use crate::response::{AttributeView, BankSend, BankSendView, Response, ResponseView};
use crate::state::{OptionStore, State, StateView};

verus! {

/// What one request did: the record after the call, and what the caller got
/// back. On an `Err` result the record is always the one the request found.
#[verifier::ext_equal]
pub struct Step {
    pub record: Option<StateView>,
    pub result: Result<ResponseView, ErrorView>,
}

/// The view of a handler's return value.
pub open spec fn result_view(r: Result<Response, ContractError>) -> Result<
    ResponseView,
    ErrorView,
> {
    match r {
        Ok(resp) => Ok(resp@),
        Err(e) => Err(e@),
    }
}

/// The view of the host's recipient-validation outcome.
pub open spec fn addr_view(a: Option<String>) -> Option<Seq<char>> {
    match a {
        Some(s) => Some(s@),
        None => None,
    }
}

/// Creation: requires a strictly future expiry; on success stores a record
/// whose creator and owner are the requester and whose collateral is the
/// attached funds, and emits nothing.
pub open spec fn create_step(
    record: Option<StateView>,
    height: int,
    sender: Seq<char>,
    funds: Seq<CoinView>,
    counter_offer: Seq<CoinView>,
    expires: int,
) -> Step {
    if expires <= height {
        Step { record, result: Err(ErrorView::OptionExpired { expired: expires }) }
    } else {
        Step {
            record: Some(
                StateView {
                    creator: sender,
                    owner: sender,
                    collateral: funds,
                    counter_offer,
                    expires,
                },
            ),
            result: Ok(ResponseView::empty()),
        }
    }
}

/// Transfer: only the owner may reassign the option, to a recipient the
/// host resolved to a well-formed identity (`validated`); on success the
/// stored owner becomes the resolved identity and one audit attribute pair
/// is emitted, naming the recipient as written in the request.
pub open spec fn transfer_step(
    record: Option<StateView>,
    sender: Seq<char>,
    recipient: Seq<char>,
    validated: Option<Seq<char>>,
) -> Step {
    match record {
        None => Step { record, result: Err(ErrorView::NotFound) },
        Some(s) => if sender != s.owner {
            Step { record, result: Err(ErrorView::Unauthorized) }
        } else {
            match validated {
                None => Step { record, result: Err(ErrorView::InvalidRecipient) },
                Some(addr) => Step {
                    record: Some(StateView { owner: addr, ..s }),
                    result: Ok(
                        ResponseView {
                            messages: Seq::empty(),
                            attributes: seq![
                                AttributeView { key: "action"@, value: "transfer"@ },
                                AttributeView { key: "owner"@, value: recipient },
                            ],
                        },
                    ),
                },
            }
        },
    }
}

/// Exercise: the owner, strictly before expiry, pays funds equal to the
/// counter-offer as a multiset of (denomination, amount) pairs; on success
/// the record is deleted and the handler emits, in this order, the
/// counter-offer to the creator, then the collateral to the owner.
pub open spec fn exercise_step(
    record: Option<StateView>,
    height: int,
    sender: Seq<char>,
    funds: Seq<CoinView>,
) -> Step {
    match record {
        None => Step { record, result: Err(ErrorView::NotFound) },
        Some(s) => if sender != s.owner {
            Step { record, result: Err(ErrorView::Unauthorized) }
        } else if height >= s.expires {
            Step { record, result: Err(ErrorView::OptionExpired { expired: s.expires }) }
        } else if !crate::coins::same_coins(funds, s.counter_offer) {
            Step {
                record,
                result: Err(
                    ErrorView::CounterOfferMismatch {
                        offer: funds,
                        counter_offer: s.counter_offer,
                    },
                ),
            }
        } else {
            Step {
                record: None,
                result: Ok(
                    ResponseView {
                        messages: seq![
                            BankSendView { to_address: s.creator, amount: s.counter_offer },
                            BankSendView { to_address: s.owner, amount: s.collateral },
                        ],
                        attributes: seq![AttributeView { key: "action"@, value: "execute"@ }],
                    },
                ),
            }
        },
    }
}

/// Reclaim: from the expiry height on (boundary inclusive), anyone may have
/// the collateral returned to the creator; on success the record is deleted
/// and one transfer of the collateral to the creator is emitted.
pub open spec fn reclaim_step(record: Option<StateView>, height: int) -> Step {
    match record {
        None => Step { record, result: Err(ErrorView::NotFound) },
        Some(s) => if height < s.expires {
            Step { record, result: Err(ErrorView::OptionNotExpired { expires: s.expires }) }
        } else {
            Step {
                record: None,
                result: Ok(
                    ResponseView {
                        messages: seq![
                            BankSendView { to_address: s.creator, amount: s.collateral },
                        ],
                        attributes: seq![AttributeView { key: "action"@, value: "burn"@ }],
                    },
                ),
            }
        },
    }
}

/// Query: the record verbatim, or `NotFound`.
pub open spec fn query_step(record: Option<StateView>) -> Result<StateView, ErrorView> {
    match record {
        None => Err(ErrorView::NotFound),
        Some(s) => Ok(s),
    }
}

/// The view of the query's return value.
pub open spec fn config_view(r: Result<ConfigResponse, ContractError>) -> Result<
    StateView,
    ErrorView,
> {
    match r {
        Ok(s) => Ok(s@),
        Err(e) => Err(e@),
    }
}

/// Which step the dispatcher takes for one [`ExecuteMsg`].
pub open spec fn execute_step(
    record: Option<StateView>,
    height: int,
    sender: Seq<char>,
    funds: Seq<CoinView>,
    msg: ExecuteMsg,
    validated: Option<Seq<char>>,
) -> Step {
    match msg {
        ExecuteMsg::Transfer { recipient } => transfer_step(record, sender, recipient@, validated),
        ExecuteMsg::Execute {} => exercise_step(record, height, sender, funds),
        ExecuteMsg::Burn {} => reclaim_step(record, height),
    }
}

/// Creates the option, failing before any write when `msg.expires` is not
/// strictly above the current height.
pub fn instantiate(store: &mut OptionStore, env: Env, info: MessageInfo, msg: InstantiateMsg) -> (r:
    Result<Response, ContractError>)
    ensures
        ({
            let step = create_step(
                old(store)@,
                env.block.height as int,
                info.sender@,
                coins_view(info.funds@),
                coins_view(msg.counter_offer@),
                msg.expires as int,
            );
            &&& final(store)@ == step.record
            &&& result_view(r) == step.result
        }),
{
    if msg.expires <= env.block.height {
        return Err(ContractError::OptionExpired { expired: msg.expires });
    }
    let state = State {
        creator: info.sender.clone(),
        owner: info.sender,
        collateral: info.funds,
        counter_offer: msg.counter_offer,
        expires: msg.expires,
    };
    store.save(&state);
    Ok(Response::new())
}

/// Dispatches one state-changing request to its handler. `recipient_addr`
/// is the host's validation outcome for the recipient of a transfer request
/// (`None` where the host rejected the string); the other requests ignore
/// it.
pub fn execute(
    store: &mut OptionStore,
    env: Env,
    info: MessageInfo,
    msg: ExecuteMsg,
    recipient_addr: Option<String>,
) -> (r: Result<Response, ContractError>)
    ensures
        ({
            let step = execute_step(
                old(store)@,
                env.block.height as int,
                info.sender@,
                coins_view(info.funds@),
                msg,
                addr_view(recipient_addr),
            );
            &&& final(store)@ == step.record
            &&& result_view(r) == step.result
        }),
{
    match msg {
        ExecuteMsg::Transfer { recipient } => execute_transfer(
            store,
            env,
            info,
            recipient,
            recipient_addr,
        ),
        ExecuteMsg::Execute {} => execute_execute(store, env, info),
        ExecuteMsg::Burn {} => execute_burn(store, env, info),
    }
}

/// Reassigns the option rights to `recipient`. Only the current owner may
/// transfer; `recipient_addr` is the host's validation outcome for the
/// recipient string. The stored owner becomes the validated identity; the
/// emitted attribute names the recipient as written.
pub fn execute_transfer(
    store: &mut OptionStore,
    env: Env,
    info: MessageInfo,
    recipient: String,
    recipient_addr: Option<String>,
) -> (r: Result<Response, ContractError>)
    ensures
        ({
            let step = transfer_step(
                old(store)@,
                info.sender@,
                recipient@,
                addr_view(recipient_addr),
            );
            &&& final(store)@ == step.record
            &&& result_view(r) == step.result
        }),
{
    let state = match store.load() {
        Ok(s) => s,
        Err(e) => return Err(e),
    };
    if info.sender != state.owner {
        return Err(ContractError::Unauthorized {});
    }
    let addr = match recipient_addr {
        Some(a) => a,
        None => return Err(ContractError::InvalidRecipient {}),
    };
    let new_state = State {
        creator: state.creator,
        owner: addr,
        collateral: state.collateral,
        counter_offer: state.counter_offer,
        expires: state.expires,
    };
    store.save(&new_state);
    let res = Response::new().add_attribute("action".to_owned(), "transfer".to_owned())
        .add_attribute("owner".to_owned(), recipient);
    proof {
        let step = transfer_step(old(store)@, info.sender@, recipient@, addr_view(recipient_addr));
        assert(final(store)@->0 =~= step.record->0);
        assert(res@ =~= step.result->Ok_0);
    }
    Ok(res)
}

/// Exercises the option: the owner, strictly before expiry, pays the exact
/// counter-offer and receives the collateral; the record is deleted and the
/// two transfers are emitted in the fixed order counter-offer to creator,
/// then collateral to owner.
pub fn execute_execute(store: &mut OptionStore, env: Env, info: MessageInfo) -> (r: Result<
    Response,
    ContractError,
>)
    ensures
        ({
            let step = exercise_step(
                old(store)@,
                env.block.height as int,
                info.sender@,
                coins_view(info.funds@),
            );
            &&& final(store)@ == step.record
            &&& result_view(r) == step.result
        }),
{
    let state = match store.load() {
        Ok(s) => s,
        Err(e) => return Err(e),
    };
    if info.sender != state.owner {
        return Err(ContractError::Unauthorized {});
    }
    if env.block.height >= state.expires {
        return Err(ContractError::OptionExpired { expired: state.expires });
    }
    if !coins_match(&info.funds, &state.counter_offer) {
        return Err(
            ContractError::CounterOfferMismatch {
                offer: info.funds,
                counter_offer: state.counter_offer,
            },
        );
    }
    let mut res = Response::new();
    res = res.add_message(BankSend { to_address: state.creator, amount: state.counter_offer });
    res = res.add_message(BankSend { to_address: state.owner, amount: state.collateral });
    store.remove();
    res = res.add_attribute("action".to_owned(), "execute".to_owned());
    proof {
        let step = exercise_step(
            old(store)@,
            env.block.height as int,
            info.sender@,
            coins_view(info.funds@),
        );
        assert(res@ =~= step.result->Ok_0);
    }
    Ok(res)
}

/// Reclaims a lapsed option: from the expiry height on, any requester may
/// have the collateral returned to the creator; the record is deleted.
pub fn execute_burn(store: &mut OptionStore, env: Env, info: MessageInfo) -> (r: Result<
    Response,
    ContractError,
>)
    ensures
        ({
            let step = reclaim_step(old(store)@, env.block.height as int);
            &&& final(store)@ == step.record
            &&& result_view(r) == step.result
        }),
{
    let state = match store.load() {
        Ok(s) => s,
        Err(e) => return Err(e),
    };
    if env.block.height < state.expires {
        return Err(ContractError::OptionNotExpired { expires: state.expires });
    }
    let mut res = Response::new();
    res = res.add_message(BankSend { to_address: state.creator, amount: state.collateral });
    store.remove();
    res = res.add_attribute("action".to_owned(), "burn".to_owned());
    proof {
        let step = reclaim_step(old(store)@, env.block.height as int);
        assert(res@ =~= step.result->Ok_0);
    }
    Ok(res)
}

/// Dispatches one read-only request.
pub fn query(store: &OptionStore, msg: QueryMsg) -> (r: Result<ConfigResponse, ContractError>)
    ensures
        config_view(r) == query_step(store@),
{
    match msg {
        QueryMsg::Config {} => query_config(store),
    }
}

/// Returns the current record verbatim, or `NotFound` once the option is
/// settled or before it is created.
pub fn query_config(store: &OptionStore) -> (r: Result<ConfigResponse, ContractError>)
    ensures
        config_view(r) == query_step(store@),
{
    store.load()
}

} // verus!
