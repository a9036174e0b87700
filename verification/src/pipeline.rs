//! One swap, from quote to confirmation, as a state machine.
//!
//! A swap passes the stages quoting, building, finalizing and submitting, in
//! that order and once each. The machine decides; its driver does the remote
//! work: it performs the [`Action`] that a step hands out and hands back the
//! [`Event`] that came of it. A failure at any stage ends the swap there, and
//! nothing is tried again.

use crate::address::TokenAddress;
use crate::error::TradeError;
use crate::session::{Session, SessionView};
use crate::transaction::{
    anchored_and_signed, decoded_transaction, SignedTransaction, UnsignedTransaction,
};
use solana_sdk::transaction::VersionedTransaction;
use vstd::prelude::*;

verus! {

/// The slippage that every quote is asked with, in basis points.
pub const SLIPPAGE_BPS: u16 = 50;

/// The stages of a swap that do remote work.
#[derive(Clone, Copy, Debug, PartialEq, Eq, Structural)]
pub enum Stage {
    /// Asking for a priced quote.
    Quoting,
    /// Asking for a transaction that carries out the quote.
    Building,
    /// Decoding the transaction, refreshing its anchor and signing it.
    Finalizing,
    /// Submitting the signed transaction and waiting for confirmation.
    Submitting,
}

/// Where a swap failed, and why.
#[derive(Clone, Copy, Debug, PartialEq, Eq, Structural)]
pub struct Failure {
    pub stage: Stage,
    pub error: TradeError,
}

/// What a swap is asked to do: give `amount` of the smallest unit of `sell`
/// for `buy`.
#[derive(Clone, Copy, Debug)]
pub struct SwapOrder {
    pub buy: TokenAddress,
    pub sell: TokenAddress,
    pub amount: u64,
}

/// The mathematical content of a [`SwapOrder`].
pub struct SwapOrderView {
    pub buy: Seq<u8>,
    pub sell: Seq<u8>,
    pub amount: u64,
}

impl View for SwapOrder {
    type V = SwapOrderView;

    open spec fn view(&self) -> SwapOrderView {
        SwapOrderView { buy: self.buy@, sell: self.sell@, amount: self.amount }
    }
}

/// What the quote service is asked.
#[derive(Clone, Copy, Debug)]
pub struct QuoteRequest {
    pub input: TokenAddress,
    pub output: TokenAddress,
    pub amount: u64,
    pub slippage_bps: u16,
}

/// What the swap-build service is asked: the quote as it came, the payer and
/// the session's fee.
pub struct BuildRequest<Q> {
    pub payer: TokenAddress,
    pub quote: Q,
    pub fee: u64,
}

/// What the driver is to do next.
pub enum Action<Q> {
    /// Ask the quote service.
    RequestQuote(QuoteRequest),
    /// Ask the swap-build service.
    RequestBuild(BuildRequest<Q>),
    /// Fetch the latest anchor from the ledger.
    FetchAnchor,
    /// Submit the transaction and wait for its confirmation.
    Submit(SignedTransaction),
    /// Nothing: the swap has ended.
    Stop,
}

/// What came of the driver's work.
pub enum Event<Q> {
    /// The quote service answered, or failed.
    Quoted(Result<Q, TradeError>),
    /// The swap-build service answered with the bytes of a transaction, or
    /// failed.
    Built(Result<Vec<u8>, TradeError>),
    /// The ledger answered with its latest anchor, or failed.
    Anchored(Result<[u8; 32], TradeError>),
    /// The ledger confirmed the transaction under an identifier, or failed.
    Submitted(Result<String, TradeError>),
}

/// The state of a swap.
pub enum PipelineState {
    /// Waiting for the quote.
    Quoting,
    /// Waiting for the built transaction.
    Building,
    /// Holding the decoded transaction, waiting for the anchor.
    Finalizing(UnsignedTransaction),
    /// Waiting for the confirmation.
    Submitting,
    /// Confirmed under this identifier.
    Done(String),
    /// Ended by this failure.
    Failed(Failure),
}

/// The mathematical content of an [`Action`].
pub enum ActionView<Q> {
    RequestQuote(QuoteRequest),
    RequestBuild(BuildRequest<Q>),
    FetchAnchor,
    Submit(VersionedTransaction),
    Stop,
}

/// The mathematical content of an [`Event`].
pub enum EventView<Q> {
    Quoted(Result<Q, TradeError>),
    Built(Result<Seq<u8>, TradeError>),
    Anchored(Result<Seq<u8>, TradeError>),
    Submitted(Result<Seq<char>, TradeError>),
}

/// The mathematical content of a [`PipelineState`].
pub enum PipelineView {
    Quoting,
    Building,
    Finalizing(VersionedTransaction),
    Submitting,
    Done(Seq<char>),
    Failed(Failure),
}

impl<Q> View for Action<Q> {
    type V = ActionView<Q>;

    open spec fn view(&self) -> ActionView<Q> {
        match *self {
            Action::RequestQuote(request) => ActionView::RequestQuote(request),
            Action::RequestBuild(request) => ActionView::RequestBuild(request),
            Action::FetchAnchor => ActionView::FetchAnchor,
            Action::Submit(signed) => ActionView::Submit(signed@),
            Action::Stop => ActionView::Stop,
        }
    }
}

impl<Q> View for Event<Q> {
    type V = EventView<Q>;

    open spec fn view(&self) -> EventView<Q> {
        match *self {
            Event::Quoted(answer) => EventView::Quoted(answer),
            Event::Built(Ok(raw)) => EventView::Built(Ok(raw@)),
            Event::Built(Err(e)) => EventView::Built(Err(e)),
            Event::Anchored(Ok(anchor)) => EventView::Anchored(Ok(anchor@)),
            Event::Anchored(Err(e)) => EventView::Anchored(Err(e)),
            Event::Submitted(Ok(id)) => EventView::Submitted(Ok(id@)),
            Event::Submitted(Err(e)) => EventView::Submitted(Err(e)),
        }
    }
}

impl View for PipelineState {
    type V = PipelineView;

    open spec fn view(&self) -> PipelineView {
        match *self {
            PipelineState::Quoting => PipelineView::Quoting,
            PipelineState::Building => PipelineView::Building,
            PipelineState::Finalizing(transaction) => PipelineView::Finalizing(transaction@),
            PipelineState::Submitting => PipelineView::Submitting,
            PipelineState::Done(id) => PipelineView::Done(id@),
            PipelineState::Failed(failure) => PipelineView::Failed(failure),
        }
    }
}

impl PipelineView {
    /// Whether the swap has ended, well or badly.
    pub open spec fn is_terminal(self) -> bool {
        self is Done || self is Failed
    }

    /// The stage whose remote work the state waits for, if it waits.
    pub open spec fn stage(self) -> Option<Stage> {
        match self {
            PipelineView::Quoting => Some(Stage::Quoting),
            PipelineView::Building => Some(Stage::Building),
            PipelineView::Finalizing(_) => Some(Stage::Finalizing),
            PipelineView::Submitting => Some(Stage::Submitting),
            _ => None,
        }
    }
}

/// The quote that a swap begins with: the sold token in, the bought token
/// out, at the fixed slippage.
pub open spec fn first_request(order: SwapOrder) -> QuoteRequest {
    QuoteRequest {
        input: order.sell,
        output: order.buy,
        amount: order.amount,
        slippage_bps: SLIPPAGE_BPS,
    }
}

/// The end of a swap by a failure at `stage`.
pub open spec fn failed<Q>(stage: Stage, error: TradeError) -> (PipelineView, ActionView<Q>) {
    (PipelineView::Failed(Failure { stage, error }), ActionView::Stop)
}

/// The transition of the machine: the state and the action that follow from
/// a state and an event.
///
/// The event that a stage waits for moves the swap on if it reports success,
/// and ends it with the reported failure if not. Any other event ends the
/// swap with a protocol error at the stage it was in. A swap that has ended
/// stays as it is.
pub open spec fn next<Q>(state: PipelineView, event: EventView<Q>, session: SessionView) -> (
    PipelineView,
    ActionView<Q>,
) {
    match state {
        PipelineView::Quoting => match event {
            EventView::Quoted(Ok(quote)) => (
                PipelineView::Building,
                ActionView::RequestBuild(
                    BuildRequest { payer: session.wallet, quote, fee: session.fee },
                ),
            ),
            EventView::Quoted(Err(e)) => failed(Stage::Quoting, e),
            _ => failed(Stage::Quoting, TradeError::ProtocolError),
        },
        PipelineView::Building => match event {
            EventView::Built(Ok(raw)) => match decoded_transaction(raw) {
                Some(transaction) => (
                    PipelineView::Finalizing(transaction),
                    ActionView::FetchAnchor,
                ),
                None => failed(Stage::Finalizing, TradeError::ProtocolError),
            },
            EventView::Built(Err(e)) => failed(Stage::Building, e),
            _ => failed(Stage::Building, TradeError::ProtocolError),
        },
        PipelineView::Finalizing(transaction) => match event {
            EventView::Anchored(Ok(anchor)) => match anchored_and_signed(
                transaction,
                anchor,
                session.key,
            ) {
                Ok(signed) => (PipelineView::Submitting, ActionView::Submit(signed)),
                Err(e) => failed(Stage::Finalizing, e),
            },
            EventView::Anchored(Err(e)) => failed(Stage::Finalizing, e),
            _ => failed(Stage::Finalizing, TradeError::ProtocolError),
        },
        PipelineView::Submitting => match event {
            EventView::Submitted(Ok(id)) => (PipelineView::Done(id), ActionView::Stop),
            EventView::Submitted(Err(e)) => failed(Stage::Submitting, e),
            _ => failed(Stage::Submitting, TradeError::ProtocolError),
        },
        PipelineView::Done(_) => (state, ActionView::Stop),
        PipelineView::Failed(_) => (state, ActionView::Stop),
    }
}

/// The state after a run of events.
pub open spec fn run<Q>(
    state: PipelineView,
    events: Seq<EventView<Q>>,
    session: SessionView,
) -> PipelineView
    decreases events.len(),
{
    if events.len() == 0 {
        state
    } else {
        next(run(state, events.drop_last(), session), events.last(), session).0
    }
}

impl PipelineState {
    /// Begins a swap: the state to start from and the quote to ask for.
    pub fn start<Q>(order: SwapOrder) -> (r: (PipelineState, Action<Q>))
        ensures
            r.0@ == PipelineView::Quoting,
            r.1@ == ActionView::<Q>::RequestQuote(first_request(order)),
    {
        (
            PipelineState::Quoting,
            Action::RequestQuote(
                QuoteRequest {
                    input: order.sell,
                    output: order.buy,
                    amount: order.amount,
                    slippage_bps: SLIPPAGE_BPS,
                },
            ),
        )
    }

    /// Whether the swap has ended.
    pub fn is_terminal(&self) -> (r: bool)
        ensures
            r == self@.is_terminal(),
    {
        match self {
            PipelineState::Done(_) => true,
            PipelineState::Failed(_) => true,
            _ => false,
        }
    }

    /// The stage whose remote work the state waits for, if it waits.
    pub fn stage(&self) -> (r: Option<Stage>)
        ensures
            r == self@.stage(),
    {
        match self {
            PipelineState::Quoting => Some(Stage::Quoting),
            PipelineState::Building => Some(Stage::Building),
            PipelineState::Finalizing(_) => Some(Stage::Finalizing),
            PipelineState::Submitting => Some(Stage::Submitting),
            _ => None,
        }
    }

    /// The failure that ended the swap, if one did.
    pub fn failure(&self) -> (r: Option<Failure>)
        ensures
            r == (match self@ {
                PipelineView::Failed(failure) => Some(failure),
                _ => None,
            }),
    {
        match self {
            PipelineState::Failed(failure) => Some(*failure),
            _ => None,
        }
    }

    /// Takes one event and gives the state and the action that follow.
    pub fn step<Q>(self, event: Event<Q>, session: &Session) -> (r: (PipelineState, Action<Q>))
        ensures
            (r.0@, r.1@) == next(self@, event@, session@),
    {
        match self {
            PipelineState::Quoting => match event {
                Event::Quoted(Ok(quote)) => (
                    PipelineState::Building,
                    Action::RequestBuild(
                        BuildRequest {
                            payer: session.credentials().wallet(),
                            quote,
                            fee: session.fee(),
                        },
                    ),
                ),
                Event::Quoted(Err(e)) => fail(Stage::Quoting, e),
                _ => fail(Stage::Quoting, TradeError::ProtocolError),
            },
            PipelineState::Building => match event {
                Event::Built(Ok(raw)) => match UnsignedTransaction::decode(raw.as_slice()) {
                    Ok(transaction) => (PipelineState::Finalizing(transaction), Action::FetchAnchor),
                    Err(_) => fail(Stage::Finalizing, TradeError::ProtocolError),
                },
                Event::Built(Err(e)) => fail(Stage::Building, e),
                _ => fail(Stage::Building, TradeError::ProtocolError),
            },
            PipelineState::Finalizing(transaction) => match event {
                Event::Anchored(Ok(anchor)) => match transaction.anchor_and_sign(
                    &anchor,
                    session.credentials().private_key(),
                ) {
                    Ok(signed) => (PipelineState::Submitting, Action::Submit(signed)),
                    Err(e) => fail(Stage::Finalizing, e),
                },
                Event::Anchored(Err(e)) => fail(Stage::Finalizing, e),
                _ => fail(Stage::Finalizing, TradeError::ProtocolError),
            },
            PipelineState::Submitting => match event {
                Event::Submitted(Ok(id)) => (PipelineState::Done(id), Action::Stop),
                Event::Submitted(Err(e)) => fail(Stage::Submitting, e),
                _ => fail(Stage::Submitting, TradeError::ProtocolError),
            },
            PipelineState::Done(id) => (PipelineState::Done(id), Action::Stop),
            PipelineState::Failed(failure) => (PipelineState::Failed(failure), Action::Stop),
        }
    }
}

/// Ends a swap by a failure at `stage`.
fn fail<Q>(stage: Stage, error: TradeError) -> (r: (PipelineState, Action<Q>))
    ensures
        (r.0@, r.1@) == failed::<Q>(stage, error),
{
    (PipelineState::Failed(Failure { stage, error }), Action::Stop)
}

impl<Q> EventView<Q> {
    /// Whether the event reports the success of the work of `stage`.
    pub open spec fn succeeds(self, stage: Stage) -> bool {
        match stage {
            Stage::Quoting => self is Quoted && self->Quoted_0 is Ok,
            Stage::Building => self is Built && self->Built_0 is Ok,
            Stage::Finalizing => self is Anchored && self->Anchored_0 is Ok,
            Stage::Submitting => self is Submitted && self->Submitted_0 is Ok,
        }
    }
}

/// What a state says of the events that led to it from the start: a swap
/// that waits at a stage has seen one success for each stage before it and
/// nothing else, and a confirmed swap has seen four successes.
pub open spec fn in_order<Q>(state: PipelineView, events: Seq<EventView<Q>>) -> bool {
    match state {
        PipelineView::Quoting => events.len() == 0,
        PipelineView::Building => events.len() == 1 && events[0].succeeds(Stage::Quoting),
        PipelineView::Finalizing(_) => {
            &&& events.len() == 2
            &&& events[0].succeeds(Stage::Quoting)
            &&& events[1].succeeds(Stage::Building)
        },
        PipelineView::Submitting => {
            &&& events.len() == 3
            &&& events[0].succeeds(Stage::Quoting)
            &&& events[1].succeeds(Stage::Building)
            &&& events[2].succeeds(Stage::Finalizing)
        },
        PipelineView::Done(_) => {
            &&& events.len() >= 4
            &&& events[0].succeeds(Stage::Quoting)
            &&& events[1].succeeds(Stage::Building)
            &&& events[2].succeeds(Stage::Finalizing)
            &&& events[3].succeeds(Stage::Submitting)
        },
        PipelineView::Failed(_) => true,
    }
}

/// A swap that has ended stays as it ended, whatever events follow.
pub proof fn lemma_ended_stays<Q>(
    state: PipelineView,
    events: Seq<EventView<Q>>,
    session: SessionView,
)
    requires
        state.is_terminal(),
    ensures
        run(state, events, session) == state,
    decreases events.len(),
{
    if events.len() > 0 {
        lemma_ended_stays(state, events.drop_last(), session);
    }
}

/// Running a sequence of events is running its first `k`, then the rest.
pub proof fn lemma_run_split<Q>(
    state: PipelineView,
    events: Seq<EventView<Q>>,
    k: int,
    session: SessionView,
)
    requires
        0 <= k <= events.len(),
    ensures
        run(state, events, session) == run(
            run(state, events.take(k), session),
            events.skip(k),
            session,
        ),
    decreases events.len(),
{
    if k == events.len() {
        assert(events.take(k) =~= events);
    } else {
        let shorter = events.drop_last();
        lemma_run_split(state, shorter, k, session);
        assert(shorter.take(k) =~= events.take(k));
        assert(shorter.skip(k) =~= events.skip(k).drop_last());
    }
}

/// A swap never reaches submission once a stage has failed: from the moment
/// a run of events has ended in failure, every longer run ends in that same
/// failure.
pub proof fn lemma_failure_bars_submission<Q>(
    events: Seq<EventView<Q>>,
    i: int,
    j: int,
    session: SessionView,
)
    requires
        0 <= i <= j <= events.len(),
        run(PipelineView::Quoting, events.take(i), session) is Failed,
    ensures
        run(PipelineView::Quoting, events.take(j), session) == run(
            PipelineView::Quoting,
            events.take(i),
            session,
        ),
        !(run(PipelineView::Quoting, events.take(j), session) is Submitting),
{
    let longer = events.take(j);
    lemma_run_split(PipelineView::Quoting, longer, i, session);
    assert(longer.take(i) =~= events.take(i));
    lemma_ended_stays(
        run(PipelineView::Quoting, events.take(i), session),
        longer.skip(i),
        session,
    );
}

/// The stages are passed in order and once each: whatever state a run of
/// events from the start has led to, the events before it were the
/// successes of the stages before it, one each.
pub proof fn lemma_stages_in_order<Q>(events: Seq<EventView<Q>>, session: SessionView)
    ensures
        in_order(run(PipelineView::Quoting, events, session), events),
    decreases events.len(),
{
    if events.len() > 0 {
        let shorter = events.drop_last();
        lemma_stages_in_order(shorter, session);
        assert forall|k: int| 0 <= k < shorter.len() implies shorter[k] == events[k] by {}
    }
}

/// A transaction is handed out for submission only on the one transition
/// that enters the submitting stage, and it is the decoded transaction with
/// the fetched anchor, signed with the session's key.
pub proof fn lemma_submit_on_entering_only<Q>(
    state: PipelineView,
    event: EventView<Q>,
    session: SessionView,
)
    requires
        next(state, event, session).1 is Submit,
    ensures
        state is Finalizing,
        event.succeeds(Stage::Finalizing),
        next(state, event, session).0 is Submitting,
        anchored_and_signed(state->Finalizing_0, event->Anchored_0->Ok_0, session.key) == Ok::<
            VersionedTransaction,
            TradeError,
        >(next(state, event, session).1->Submit_0),
{
}

/// Submission is reached only through the success of quoting, building and
/// finalizing.
pub proof fn lemma_submission_needs_every_stage<Q>(
    events: Seq<EventView<Q>>,
    session: SessionView,
)
    requires
        run(PipelineView::Quoting, events, session) is Submitting,
    ensures
        events.len() == 3,
        events[0].succeeds(Stage::Quoting),
        events[1].succeeds(Stage::Building),
        events[2].succeeds(Stage::Finalizing),
{
    lemma_stages_in_order(events, session);
}

} // verus!
