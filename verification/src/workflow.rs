//! The stages of a submission. They follow one another strictly: there is no
//! branch, no retry and no way back, and the first failure ends the run.
//!
//! The machine decides; its caller does the outside work that a stage waits
//! for and reports it as an event.

use vstd::prelude::*;
use crate::amount::Amount;
use crate::error::SwapError;
use crate::transaction::{
    swap_transaction,
    swap_transaction_view,
    TransactionRequest,
    TransactionRequestView,
};

verus! {

/// How far a submission has come.
#[derive(Clone, Copy, Debug, PartialEq, Eq, Structural)]
pub enum Stage {
    /// The call data is encoded; nothing has been asked of the node.
    Unsent,
    /// The node has estimated the gas of the call.
    GasEstimated,
    /// The gas price and the sender's nonce are known.
    PricedAndNonced,
    /// The transaction request is assembled.
    Built,
    /// The transaction is signed.
    Signed,
    /// The node has taken the signed transaction.
    Submitted,
}

impl Stage {
    /// The place of the stage in the sequence, from 0 for `Unsent` to 5 for
    /// `Submitted`.
    pub open spec fn rank(self) -> nat {
        match self {
            Stage::Unsent => 0,
            Stage::GasEstimated => 1,
            Stage::PricedAndNonced => 2,
            Stage::Built => 3,
            Stage::Signed => 4,
            Stage::Submitted => 5,
        }
    }
}

/// A submission at one of its stages, with what has been gathered so far.
#[derive(Debug, PartialEq, Eq)]
pub enum Submission {
    /// Nothing has been asked of the node: only the call data is known.
    Unsent { data: Vec<u8> },
    /// The call data and the node's gas estimate.
    GasEstimated { data: Vec<u8>, gas: Amount },
    /// The call data, the gas estimate, the gas price and the sender's nonce.
    PricedAndNonced { data: Vec<u8>, gas: Amount, gas_price: Amount, nonce: Amount },
    /// The request that is to be signed.
    Built { request: TransactionRequest },
    /// The raw bytes of the signed transaction.
    Signed { raw: Vec<u8> },
    /// The hash under which the node took the transaction.
    Submitted { hash: [u8; 32] },
}

/// A submission as plain values.
pub ghost enum SubmissionView {
    Unsent { data: Seq<u8> },
    GasEstimated { data: Seq<u8>, gas: nat },
    PricedAndNonced { data: Seq<u8>, gas: nat, gas_price: nat, nonce: nat },
    Built { request: TransactionRequestView },
    Signed { raw: Seq<u8> },
    Submitted { hash: Seq<u8> },
}

/// What the outside world reports back.
#[derive(Debug, PartialEq, Eq)]
pub enum Event {
    /// The node's estimate of the gas of the call.
    GasEstimated { gas: Amount },
    /// The node's current gas price and the sender's nonce.
    PricedAndNonced { gas_price: Amount, nonce: Amount },
    /// The request may be assembled: no outside work was needed.
    Assembled,
    /// The signer's raw transaction.
    Signed { raw: Vec<u8> },
    /// The hash under which the node took the transaction.
    Submitted { hash: [u8; 32] },
    /// The outside work failed.
    Failed { error: SwapError },
}

/// An event as plain values.
pub ghost enum EventView {
    GasEstimated { gas: nat },
    PricedAndNonced { gas_price: nat, nonce: nat },
    Assembled,
    Signed { raw: Seq<u8> },
    Submitted { hash: Seq<u8> },
    Failed { error: SwapError },
}

/// The outside work that a stage waits for.
#[derive(Clone, Copy, Debug, PartialEq, Eq, Structural)]
pub enum Action {
    /// Ask the node to estimate the gas of the call.
    EstimateGas,
    /// Ask the node for the gas price and the sender's nonce.
    FetchPriceAndNonce,
    /// Nothing outside: report `Assembled`.
    Assemble,
    /// Sign the request that the submission holds.
    Sign,
    /// Send the raw transaction that the submission holds.
    Submit,
    /// The run is over.
    Finish,
}

impl View for Submission {
    type V = SubmissionView;

    open spec fn view(&self) -> SubmissionView {
        match *self {
            Submission::Unsent { data } => SubmissionView::Unsent { data: data@ },
            Submission::GasEstimated { data, gas } => SubmissionView::GasEstimated {
                data: data@,
                gas: gas@,
            },
            Submission::PricedAndNonced {
                data,
                gas,
                gas_price,
                nonce,
            } => SubmissionView::PricedAndNonced {
                data: data@,
                gas: gas@,
                gas_price: gas_price@,
                nonce: nonce@,
            },
            Submission::Built { request } => SubmissionView::Built { request: request@ },
            Submission::Signed { raw } => SubmissionView::Signed { raw: raw@ },
            Submission::Submitted { hash } => SubmissionView::Submitted { hash: hash@ },
        }
    }
}

impl View for Event {
    type V = EventView;

    open spec fn view(&self) -> EventView {
        match *self {
            Event::GasEstimated { gas } => EventView::GasEstimated { gas: gas@ },
            Event::PricedAndNonced { gas_price, nonce } => EventView::PricedAndNonced {
                gas_price: gas_price@,
                nonce: nonce@,
            },
            Event::Assembled => EventView::Assembled,
            Event::Signed { raw } => EventView::Signed { raw: raw@ },
            Event::Submitted { hash } => EventView::Submitted { hash: hash@ },
            Event::Failed { error } => EventView::Failed { error },
        }
    }
}

impl SubmissionView {
    /// The stage that the submission is at.
    pub open spec fn stage(self) -> Stage {
        match self {
            SubmissionView::Unsent { .. } => Stage::Unsent,
            SubmissionView::GasEstimated { .. } => Stage::GasEstimated,
            SubmissionView::PricedAndNonced { .. } => Stage::PricedAndNonced,
            SubmissionView::Built { .. } => Stage::Built,
            SubmissionView::Signed { .. } => Stage::Signed,
            SubmissionView::Submitted { .. } => Stage::Submitted,
        }
    }

    /// The outside work that the submission waits for.
    pub open spec fn awaits(self) -> Action {
        match self {
            SubmissionView::Unsent { .. } => Action::EstimateGas,
            SubmissionView::GasEstimated { .. } => Action::FetchPriceAndNonce,
            SubmissionView::PricedAndNonced { .. } => Action::Assemble,
            SubmissionView::Built { .. } => Action::Sign,
            SubmissionView::Signed { .. } => Action::Submit,
            SubmissionView::Submitted { .. } => Action::Finish,
        }
    }

    /// The submission after an event. A failure ends the run with its own
    /// error. Each stage takes the one event that answers its action and
    /// moves to the next stage; any other event is refused, and a submitted
    /// transaction takes none.
    pub open spec fn after(self, event: EventView) -> Result<SubmissionView, SwapError> {
        match (self, event) {
            (_, EventView::Failed { error }) => Err(error),
            (SubmissionView::Unsent { data }, EventView::GasEstimated { gas }) => Ok(
                SubmissionView::GasEstimated { data, gas },
            ),
            (
                SubmissionView::GasEstimated { data, gas },
                EventView::PricedAndNonced { gas_price, nonce },
            ) => Ok(SubmissionView::PricedAndNonced { data, gas, gas_price, nonce }),
            (
                SubmissionView::PricedAndNonced { data, gas, gas_price, nonce },
                EventView::Assembled,
            ) => Ok(
                SubmissionView::Built {
                    request: swap_transaction_view(nonce, gas_price, gas, data),
                },
            ),
            (SubmissionView::Built { .. }, EventView::Signed { raw }) => Ok(
                SubmissionView::Signed { raw },
            ),
            (SubmissionView::Signed { .. }, EventView::Submitted { hash }) => Ok(
                SubmissionView::Submitted { hash },
            ),
            _ => Err(SwapError::UnexpectedEvent),
        }
    }
}

impl Submission {
    /// A submission that has not begun: it holds the call data.
    pub fn start(data: Vec<u8>) -> (r: Submission)
        ensures
            r@ == (SubmissionView::Unsent { data: data@ }),
    {
        Submission::Unsent { data }
    }

    /// The stage that the submission is at.
    pub fn stage(&self) -> (r: Stage)
        ensures
            r == self@.stage(),
    {
        match self {
            Submission::Unsent { .. } => Stage::Unsent,
            Submission::GasEstimated { .. } => Stage::GasEstimated,
            Submission::PricedAndNonced { .. } => Stage::PricedAndNonced,
            Submission::Built { .. } => Stage::Built,
            Submission::Signed { .. } => Stage::Signed,
            Submission::Submitted { .. } => Stage::Submitted,
        }
    }

    /// The outside work that the submission waits for.
    pub fn next_action(&self) -> (r: Action)
        ensures
            r == self@.awaits(),
    {
        match self {
            Submission::Unsent { .. } => Action::EstimateGas,
            Submission::GasEstimated { .. } => Action::FetchPriceAndNonce,
            Submission::PricedAndNonced { .. } => Action::Assemble,
            Submission::Built { .. } => Action::Sign,
            Submission::Signed { .. } => Action::Submit,
            Submission::Submitted { .. } => Action::Finish,
        }
    }

    /// The submission after an event, or the error that ends the run.
    pub fn advance(self, event: Event) -> (r: Result<Submission, SwapError>)
        ensures
            match r {
                Ok(next) => self@.after(event@) == Ok::<SubmissionView, SwapError>(next@),
                Err(e) => self@.after(event@) == Err::<SubmissionView, SwapError>(e),
            },
    {
        match (self, event) {
            (_, Event::Failed { error }) => Err(error),
            (Submission::Unsent { data }, Event::GasEstimated { gas }) => Ok(
                Submission::GasEstimated { data, gas },
            ),
            (
                Submission::GasEstimated { data, gas },
                Event::PricedAndNonced { gas_price, nonce },
            ) => Ok(Submission::PricedAndNonced { data, gas, gas_price, nonce }),
            (Submission::PricedAndNonced { data, gas, gas_price, nonce }, Event::Assembled) => Ok(
                Submission::Built { request: swap_transaction(nonce, gas_price, gas, data) },
            ),
            (Submission::Built { .. }, Event::Signed { raw }) => Ok(Submission::Signed { raw }),
            (Submission::Signed { .. }, Event::Submitted { hash }) => Ok(
                Submission::Submitted { hash },
            ),
            _ => Err(SwapError::UnexpectedEvent),
        }
    }
}

/// The stages are strictly sequential: every event that a submission takes
/// moves it to the stage that follows its own.
pub proof fn lemma_advance_is_sequential(state: SubmissionView, event: EventView)
    requires
        state.after(event) is Ok,
    ensures
        state.after(event)->Ok_0.stage().rank() == state.stage().rank() + 1,
{
}

/// A failure at any stage ends the run with the error that was reported.
pub proof fn lemma_failure_ends_run(state: SubmissionView, error: SwapError)
    ensures
        state.after(EventView::Failed { error }) == Err::<SubmissionView, SwapError>(error),
{
}

/// A submitted transaction takes no further event.
pub proof fn lemma_submitted_is_final(state: SubmissionView, event: EventView)
    requires
        state.stage() == Stage::Submitted,
    ensures
        state.after(event) is Err,
{
}

/// The assembled request holds the nonce and the gas price exactly as the
/// node reported them, and the gas estimate and call data gathered before.
pub proof fn lemma_request_holds_what_was_reported(
    data: Seq<u8>,
    gas: nat,
    gas_price: nat,
    nonce: nat,
)
    ensures
        ({
            let unsent = SubmissionView::Unsent { data };
            let estimated = unsent.after(EventView::GasEstimated { gas });
            let priced = estimated->Ok_0.after(EventView::PricedAndNonced { gas_price, nonce });
            let built = priced->Ok_0.after(EventView::Assembled);
            &&& estimated is Ok
            &&& priced is Ok
            &&& built matches Ok(SubmissionView::Built { request })
            &&& request.nonce == nonce
            &&& request.gas_price == gas_price
            &&& request.gas == gas
            &&& request.data == data
        }),
{
}

} // verus!
