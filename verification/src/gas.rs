//! The price of gas: where it is asked for, and what a call costs.

use crate::error::GravityError;
use crate::uint::{pow2_256, RawChainInteger};
use vstd::prelude::*;

verus! {

/// The public networks that the fee estimator knows.
#[derive(Clone, Copy, Debug, PartialEq, Eq, Structural)]
pub enum Chain {
    /// The primary network.
    Mainnet,
    /// The Ropsten test network.
    Ropsten,
    /// The Rinkeby test network.
    Rinkeby,
    /// The Goerli test network.
    Goerli,
    /// The Kovan test network.
    Kovan,
}

/// The network that a chain identifier stands for. An identifier that is
/// not known stands for the primary network.
pub open spec fn chain_of(chain_id: nat) -> Chain {
    if chain_id == 3 {
        Chain::Ropsten
    } else if chain_id == 4 {
        Chain::Rinkeby
    } else if chain_id == 5 {
        Chain::Goerli
    } else if chain_id == 42 {
        Chain::Kovan
    } else {
        Chain::Mainnet
    }
}

/// The network for the identifier that the chain reports of itself. An
/// identifier that does not fit in 64 bits is refused; any other that is
/// not known gives the primary network.
pub fn get_chain(chain_id: RawChainInteger) -> (r: Result<Chain, GravityError>)
    ensures
        chain_id@ <= u64::MAX ==> r == Ok::<Chain, GravityError>(chain_of(chain_id@)),
        chain_id@ > u64::MAX ==> r == Err::<Chain, GravityError>(
            GravityError::ChainIdOverflow(chain_id),
        ),
{
    match chain_id.downcast_to_u64() {
        None => Err(GravityError::ChainIdOverflow(chain_id)),
        Some(id) => Ok(
            if id == 3 {
                Chain::Ropsten
            } else if id == 4 {
                Chain::Rinkeby
            } else if id == 5 {
                Chain::Goerli
            } else if id == 42 {
                Chain::Kovan
            } else {
                Chain::Mainnet
            },
        ),
    }
}

/// The cost of an action on the contract's chain.
#[derive(Clone, Copy, Debug, PartialEq, Eq, Structural)]
pub struct GasCost {
    /// The gas that the action uses.
    pub gas: RawChainInteger,
    /// The price of one unit of gas.
    pub gas_price: RawChainInteger,
}

impl Default for GasCost {
    fn default() -> (r: Self)
        ensures
            r.gas@ == 0,
            r.gas_price@ == 0,
    {
        GasCost { gas: RawChainInteger::from_u64(0), gas_price: RawChainInteger::from_u64(0) }
    }
}

impl GasCost {
    /// The total cost: the gas used times its price. The product has to fit
    /// in 256 bits.
    pub fn get_total(&self) -> (total: RawChainInteger)
        requires
            self.gas@ * self.gas_price@ < pow2_256(),
        ensures
            total@ == self.gas@ * self.gas_price@,
            total == RawChainInteger::spec_from_nat(self.gas@ * self.gas_price@),
    {
        let total = self.gas.checked_mul(&self.gas_price).unwrap();
        proof {
            total.lemma_value();
            RawChainInteger::lemma_from_nat(self.gas@ * self.gas_price@);
        }
        total
    }
}

/// Where the selector stands.
#[derive(Clone, Copy, Debug, PartialEq, Eq, Structural)]
pub enum GasPriceState {
    /// Nothing has been asked yet.
    Start,
    /// The chain has been asked for its identifier.
    AwaitingChainId,
    /// The fee estimator has been asked for its quote.
    AwaitingEstimate,
    /// The chain client has been asked for its gas price.
    AwaitingClientPrice,
    /// The price, or the failure, has been returned.
    Finished,
}

/// What the caller reports to the selector.
#[derive(Debug, PartialEq, Eq)]
pub enum GasPriceEvent {
    /// The selection begins, with the credential for the fee estimator that
    /// the configuration holds, if it holds one. Only its presence counts,
    /// not what it holds.
    Begin(Option<String>),
    /// The chain answered the question for its identifier.
    ChainId(Result<RawChainInteger, GravityError>),
    /// The source that was asked answered with its price.
    Price(Result<RawChainInteger, GravityError>),
}

/// What the selector asks of the caller.
#[derive(Debug, PartialEq, Eq)]
pub enum GasPriceAction {
    /// Ask the chain for its identifier.
    QueryChainId,
    /// Ask the fee estimator for its quote on the given network.
    QueryEstimator(Chain),
    /// Ask the chain client for its gas price.
    QueryClient,
    /// Return the price, or the failure.
    Return(Result<RawChainInteger, GravityError>),
}

/// What follows an event in a state: the next state and what the caller is
/// asked to do, or nothing where the event does not belong in the state.
///
/// With a credential the chain is asked for its identifier and the fee
/// estimator for its quote on that network; without one the chain client is
/// asked for its price. A failure on the way is returned as it is, and so is
/// the price: nothing is put in its place.
pub open spec fn gas_price_step(state: GasPriceState, event: GasPriceEvent) -> Option<
    (GasPriceState, GasPriceAction),
> {
    match (state, event) {
        (GasPriceState::Start, GasPriceEvent::Begin(credential)) => if credential is Some {
            Some((GasPriceState::AwaitingChainId, GasPriceAction::QueryChainId))
        } else {
            Some((GasPriceState::AwaitingClientPrice, GasPriceAction::QueryClient))
        },
        (GasPriceState::AwaitingChainId, GasPriceEvent::ChainId(Ok(chain_id))) => if chain_id@
            <= u64::MAX {
            Some(
                (
                    GasPriceState::AwaitingEstimate,
                    GasPriceAction::QueryEstimator(chain_of(chain_id@)),
                ),
            )
        } else {
            Some(
                (
                    GasPriceState::Finished,
                    GasPriceAction::Return(Err(GravityError::ChainIdOverflow(chain_id))),
                ),
            )
        },
        (GasPriceState::AwaitingChainId, GasPriceEvent::ChainId(Err(e))) => Some(
            (GasPriceState::Finished, GasPriceAction::Return(Err(e))),
        ),
        (GasPriceState::AwaitingEstimate, GasPriceEvent::Price(answer)) => Some(
            (GasPriceState::Finished, GasPriceAction::Return(answer)),
        ),
        (GasPriceState::AwaitingClientPrice, GasPriceEvent::Price(answer)) => Some(
            (GasPriceState::Finished, GasPriceAction::Return(answer)),
        ),
        _ => None,
    }
}

/// Takes the selection of a gas price one step on: from a state and what
/// the caller reports to the next state and what the caller is asked to do.
/// An event that does not belong in the state gives nothing.
pub fn get_gas_price(state: GasPriceState, event: GasPriceEvent) -> (r: Option<
    (GasPriceState, GasPriceAction),
>)
    ensures
        r == gas_price_step(state, event),
{
    match (state, event) {
        (GasPriceState::Start, GasPriceEvent::Begin(credential)) => if credential.is_some() {
            Some((GasPriceState::AwaitingChainId, GasPriceAction::QueryChainId))
        } else {
            Some((GasPriceState::AwaitingClientPrice, GasPriceAction::QueryClient))
        },
        (GasPriceState::AwaitingChainId, GasPriceEvent::ChainId(Ok(chain_id))) => {
            match get_chain(chain_id) {
                Ok(chain) => Some(
                    (GasPriceState::AwaitingEstimate, GasPriceAction::QueryEstimator(chain)),
                ),
                Err(e) => Some((GasPriceState::Finished, GasPriceAction::Return(Err(e)))),
            }
        },
        (GasPriceState::AwaitingChainId, GasPriceEvent::ChainId(Err(e))) => Some(
            (GasPriceState::Finished, GasPriceAction::Return(Err(e))),
        ),
        (GasPriceState::AwaitingEstimate, GasPriceEvent::Price(answer)) => Some(
            (GasPriceState::Finished, GasPriceAction::Return(answer)),
        ),
        (GasPriceState::AwaitingClientPrice, GasPriceEvent::Price(answer)) => Some(
            (GasPriceState::Finished, GasPriceAction::Return(answer)),
        ),
        _ => None,
    }
}

/// What the selector asks for along a run of events from a state, one
/// action for each event up to the first that does not belong.
pub open spec fn actions_of(state: GasPriceState, events: Seq<GasPriceEvent>) -> Seq<
    GasPriceAction,
>
    decreases events.len(),
{
    if events.len() == 0 {
        Seq::empty()
    } else {
        match gas_price_step(state, events.first()) {
            Some((next, action)) => seq![action] + actions_of(next, events.drop_first()),
            None => Seq::empty(),
        }
    }
}

/// Whether an action goes the way of the fee estimator: the question for
/// the chain's identifier, or the question to the estimator itself.
pub open spec fn asks_estimator(action: GasPriceAction) -> bool {
    action is QueryChainId || action is QueryEstimator
}

/// Once the chain client has been asked, or the selection is finished, the
/// way of the fee estimator is never taken.
proof fn lemma_client_route_stays(state: GasPriceState, events: Seq<GasPriceEvent>, i: int)
    requires
        state == GasPriceState::AwaitingClientPrice || state == GasPriceState::Finished,
        0 <= i < actions_of(state, events).len(),
    ensures
        !asks_estimator(actions_of(state, events)[i]),
    decreases events.len(),
{
    if events.len() > 0 {
        match gas_price_step(state, events.first()) {
            Some((next, action)) => {
                if i > 0 {
                    lemma_client_route_stays(next, events.drop_first(), i - 1);
                }
            },
            None => {},
        }
    }
}

/// Without a credential the fee estimator is never asked, whatever is
/// reported afterwards: the first action asks the chain client, and no
/// action of the run asks the chain for its identifier or the estimator for
/// a quote.
pub proof fn lemma_no_credential_no_estimator(later: Seq<GasPriceEvent>, i: int)
    requires
        0 <= i < actions_of(GasPriceState::Start, seq![GasPriceEvent::Begin(None)] + later).len(),
    ensures
        actions_of(GasPriceState::Start, seq![GasPriceEvent::Begin(None)] + later)[0]
            == GasPriceAction::QueryClient,
        !asks_estimator(
            actions_of(GasPriceState::Start, seq![GasPriceEvent::Begin(None)] + later)[i],
        ),
{
    let events = seq![GasPriceEvent::Begin(None)] + later;
    assert(events.first() == GasPriceEvent::Begin(None));
    assert(events.drop_first() =~= later);
    if i > 0 {
        lemma_client_route_stays(GasPriceState::AwaitingClientPrice, later, i - 1);
    }
}

/// With a credential, whatever it holds, a chain identifier that is not
/// known does not stop the selection: the fee estimator is asked for the
/// primary network.
pub proof fn lemma_unknown_chain_defaults(credential: String, chain_id: RawChainInteger)
    requires
        chain_id@ <= u64::MAX,
        chain_id@ != 3 && chain_id@ != 4 && chain_id@ != 5 && chain_id@ != 42,
    ensures
        gas_price_step(GasPriceState::Start, GasPriceEvent::Begin(Some(credential))) == Some(
            (GasPriceState::AwaitingChainId, GasPriceAction::QueryChainId),
        ),
        gas_price_step(GasPriceState::AwaitingChainId, GasPriceEvent::ChainId(Ok(chain_id)))
            == Some(
            (GasPriceState::AwaitingEstimate, GasPriceAction::QueryEstimator(Chain::Mainnet)),
        ),
{
}

/// Only the presence of the credential counts: two credentials that differ
/// lead to the same step.
pub proof fn lemma_credential_content_is_ignored(first: String, second: String)
    ensures
        gas_price_step(GasPriceState::Start, GasPriceEvent::Begin(Some(first))) == gas_price_step(
            GasPriceState::Start,
            GasPriceEvent::Begin(Some(second)),
        ),
{
}

/// No price is made up: a price is returned only when the source that was
/// asked has just answered with that price.
pub proof fn lemma_price_is_never_made_up(
    state: GasPriceState,
    event: GasPriceEvent,
    price: RawChainInteger,
)
    requires
        gas_price_step(state, event) matches Some((_, GasPriceAction::Return(Ok(given))))
            && given == price,
    ensures
        event == GasPriceEvent::Price(Ok(price)),
        state == GasPriceState::AwaitingEstimate || state == GasPriceState::AwaitingClientPrice,
{
}

/// A failure is returned only when a source has just answered with that
/// failure, or when the chain's identifier does not fit in 64 bits.
pub proof fn lemma_failure_is_passed_on(
    state: GasPriceState,
    event: GasPriceEvent,
    failure: GravityError,
)
    requires
        gas_price_step(state, event) matches Some((_, GasPriceAction::Return(Err(given))))
            && given == failure,
    ensures
        event == GasPriceEvent::Price(Err(failure)) || event == GasPriceEvent::ChainId(
            Err(failure),
        ) || (event matches GasPriceEvent::ChainId(Ok(chain_id)) && chain_id@ > u64::MAX
            && failure == GravityError::ChainIdOverflow(chain_id)),
{
}

} // verus!
