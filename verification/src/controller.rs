//! The dialogue with the user, as a state machine.
//!
//! The user chooses a fee, then to buy or to sell, then an amount or a
//! percentage, and confirms. A confirmed request is carried out once for
//! every token of the trade list, in order, whatever becomes of the tokens
//! before. The machine decides; its driver shows the prompts, reads the
//! lines, asks the ledger and runs the swaps.
//!
//! A line is read without its end and surrounding blanks. An entry that is
//! not understood ends the session: there is no second try but after the
//! answer "no" to a confirmation.

use crate::address::{associated_account, native_mint_bytes, TokenAddress};
use crate::amount::{
    balance_of, buy_amount, parse_balance, parse_percent, parse_quantity, percent_of, quantity_of,
    resolve_buy_amount, resolve_sell_amount, sell_amount,
};
use crate::error::TradeError;
use crate::fee::{compute_fee, fee_of};
use crate::pipeline::{Failure, SwapOrder, SwapOrderView};
use crate::text::{is_letter, trim, trimmed};
use crate::trades::TradeList;
use vstd::prelude::*;

verus! {

/// What the user is asked.
#[derive(Clone, Copy, Debug, PartialEq, Eq, Structural)]
pub enum Prompt {
    /// Automatic fee or a custom one?
    Fee,
    /// Buy or sell?
    Action,
    /// How much of the native currency to spend?
    Amount,
    /// Is the entered amount right?
    ConfirmBuy,
    /// Sell half or all?
    Percent,
    /// Is the chosen percentage right?
    ConfirmSell,
}

/// What a confirmed request asks for, for every token of the list.
#[derive(Clone, Copy, Debug, PartialEq, Eq, Structural)]
pub enum Plan {
    /// Spend `amount` of the smallest unit of the native currency.
    Buy { amount: u64 },
    /// Sell `percent` of the balance.
    Sell { percent: u64 },
}

/// What the machine waits for while it carries out a request.
#[derive(Clone, Copy, Debug, PartialEq, Eq, Structural)]
pub enum Waiting {
    /// The balance of the token at hand.
    Balance,
    /// The end of the swap of the token at hand.
    Swap,
    /// The driver's word that it has reported why the token was skipped.
    Skipped,
}

/// The state of the dialogue.
#[derive(Clone, Copy, Debug, PartialEq, Eq, Structural)]
pub enum ControlState {
    /// Asked for the fee.
    FeeChoice,
    /// Asked whether to buy or to sell.
    ActionChoice { fee: u64 },
    /// Asked for the amount to spend.
    AmountEntry { fee: u64 },
    /// Asked to confirm the amount.
    ConfirmBuy { fee: u64, amount: u64 },
    /// Asked for the percentage to sell.
    PercentChoice { fee: u64 },
    /// Asked to confirm the percentage.
    ConfirmSell { fee: u64, percent: u64 },
    /// Carrying out the request for the token at `cursor`.
    Executing { fee: u64, plan: Plan, cursor: usize, waiting: Waiting },
    /// The request has been carried out for every token.
    Idle,
    /// The session was ended by an entry that was not understood.
    Aborted(TradeError),
}

/// What the driver hands to the machine.
pub enum Input {
    /// A line that the user typed.
    Line(String),
    /// The ledger's answer to a balance lookup, or its failure.
    Balance(Result<String, TradeError>),
    /// A swap has ended: with the failure given, or well.
    SwapEnded(Option<Failure>),
    /// The reason for skipping a token has been reported.
    Continue,
}

/// The mathematical content of an [`Input`].
pub enum InputView {
    Line(Seq<char>),
    Balance(Result<Seq<char>, TradeError>),
    SwapEnded(Option<Failure>),
    Continue,
}

impl View for Input {
    type V = InputView;

    open spec fn view(&self) -> InputView {
        match *self {
            Input::Line(line) => InputView::Line(line@),
            Input::Balance(Ok(answer)) => InputView::Balance(Ok(answer@)),
            Input::Balance(Err(e)) => InputView::Balance(Err(e)),
            Input::SwapEnded(outcome) => InputView::SwapEnded(outcome),
            Input::Continue => InputView::Continue,
        }
    }
}

/// What the driver is to do next.
pub enum Effect {
    /// Show the prompt and read a line.
    Ask(Prompt),
    /// Ask the ledger for the balance of this account.
    LookupBalance(TokenAddress),
    /// Run this swap to its end.
    Swap(SwapOrder),
    /// Report that the token at hand is skipped for this reason.
    Skip(TradeError),
    /// Report that every token has been dealt with.
    Finish,
    /// Report this failure and end the session.
    Abort(TradeError),
}

/// The mathematical content of an [`Effect`].
pub enum EffectView {
    Ask(Prompt),
    LookupBalance(Seq<u8>),
    Swap(SwapOrderView),
    Skip(TradeError),
    Finish,
    Abort(TradeError),
}

impl View for Effect {
    type V = EffectView;

    open spec fn view(&self) -> EffectView {
        match *self {
            Effect::Ask(prompt) => EffectView::Ask(prompt),
            Effect::LookupBalance(account) => EffectView::LookupBalance(account@),
            Effect::Swap(order) => EffectView::Swap(order@),
            Effect::Skip(e) => EffectView::Skip(e),
            Effect::Finish => EffectView::Finish,
            Effect::Abort(e) => EffectView::Abort(e),
        }
    }
}

/// Whether an answer confirms: `y` or `Y`. Every other answer declines.
pub open spec fn is_yes(answer: Seq<char>) -> bool {
    answer =~= seq!['y'] || answer =~= seq!['Y']
}

/// Whether an answer chooses to buy: `b` or `B`. Every other answer chooses
/// to sell.
pub open spec fn is_buy(answer: Seq<char>) -> bool {
    answer =~= seq!['b'] || answer =~= seq!['B']
}

/// The end of the session by the failure `e`.
pub open spec fn abort(e: TradeError) -> (ControlState, EffectView) {
    (ControlState::Aborted(e), EffectView::Abort(e))
}

/// The attempt on the token at `cursor`: a buy starts its swap, paying with
/// the native currency; a sale first asks for the balance of the wallet's
/// account for the token. Behind the last token the request is done.
pub open spec fn attempt(
    fee: u64,
    plan: Plan,
    cursor: usize,
    wallet: Seq<u8>,
    trades: Seq<Seq<u8>>,
) -> (ControlState, EffectView) {
    if cursor >= trades.len() {
        (ControlState::Idle, EffectView::Finish)
    } else {
        match plan {
            Plan::Buy { amount } => (
                ControlState::Executing { fee, plan, cursor, waiting: Waiting::Swap },
                EffectView::Swap(
                    SwapOrderView {
                        buy: trades[cursor as int],
                        sell: native_mint_bytes(),
                        amount,
                    },
                ),
            ),
            Plan::Sell { percent } => (
                ControlState::Executing { fee, plan, cursor, waiting: Waiting::Balance },
                EffectView::LookupBalance(associated_account(wallet, trades[cursor as int])),
            ),
        }
    }
}

/// The attempt on the token behind the one at `cursor`.
pub open spec fn move_on(
    fee: u64,
    plan: Plan,
    cursor: usize,
    wallet: Seq<u8>,
    trades: Seq<Seq<u8>>,
) -> (ControlState, EffectView) {
    if cursor >= trades.len() {
        (ControlState::Idle, EffectView::Finish)
    } else {
        attempt(fee, plan, (cursor + 1) as usize, wallet, trades)
    }
}

/// What follows the ledger's answer to the balance lookup for the token at
/// `cursor`: the swap of the resolved amount for the native currency, or
/// the skipping of the token where the answer gives no amount.
pub open spec fn after_balance(
    fee: u64,
    percent: u64,
    cursor: usize,
    answer: Result<Seq<char>, TradeError>,
    trades: Seq<Seq<u8>>,
) -> (ControlState, EffectView) {
    let plan = Plan::Sell { percent };
    let resolved = match answer {
        Ok(text) => match balance_of(trimmed(text)) {
            Ok(balance) => sell_amount(balance, percent),
            Err(e) => Err(e),
        },
        Err(e) => Err(e),
    };
    match resolved {
        Ok(amount) => (
            ControlState::Executing { fee, plan, cursor, waiting: Waiting::Swap },
            EffectView::Swap(
                SwapOrderView { buy: native_mint_bytes(), sell: trades[cursor as int], amount },
            ),
        ),
        Err(e) => (
            ControlState::Executing { fee, plan, cursor, waiting: Waiting::Skipped },
            EffectView::Skip(e),
        ),
    }
}

/// The transition of the machine: the state and the effect that follow from
/// a state and an input, for the wallet and the trade list of the session.
///
/// An input of a kind that the state does not wait for ends the session
/// with a protocol error.
pub open spec fn transition(
    state: ControlState,
    input: InputView,
    wallet: Seq<u8>,
    trades: Seq<Seq<u8>>,
) -> (ControlState, EffectView) {
    match state {
        ControlState::FeeChoice => match input {
            InputView::Line(line) => match fee_of(trimmed(line)) {
                Ok(fee) => (ControlState::ActionChoice { fee }, EffectView::Ask(Prompt::Action)),
                Err(e) => abort(e),
            },
            _ => abort(TradeError::ProtocolError),
        },
        ControlState::ActionChoice { fee } => match input {
            InputView::Line(line) => if is_buy(trimmed(line)) {
                (ControlState::AmountEntry { fee }, EffectView::Ask(Prompt::Amount))
            } else {
                (ControlState::PercentChoice { fee }, EffectView::Ask(Prompt::Percent))
            },
            _ => abort(TradeError::ProtocolError),
        },
        ControlState::AmountEntry { fee } => match input {
            InputView::Line(line) => match quantity_of(trimmed(line)) {
                Ok(quantity) => match buy_amount(quantity) {
                    Ok(amount) => (
                        ControlState::ConfirmBuy { fee, amount },
                        EffectView::Ask(Prompt::ConfirmBuy),
                    ),
                    Err(e) => abort(e),
                },
                Err(e) => abort(e),
            },
            _ => abort(TradeError::ProtocolError),
        },
        ControlState::ConfirmBuy { fee, amount } => match input {
            InputView::Line(line) => if is_yes(trimmed(line)) {
                attempt(fee, Plan::Buy { amount }, 0, wallet, trades)
            } else {
                (ControlState::AmountEntry { fee }, EffectView::Ask(Prompt::Amount))
            },
            _ => abort(TradeError::ProtocolError),
        },
        ControlState::PercentChoice { fee } => match input {
            InputView::Line(line) => match percent_of(trimmed(line)) {
                Ok(percent) => (
                    ControlState::ConfirmSell { fee, percent },
                    EffectView::Ask(Prompt::ConfirmSell),
                ),
                Err(e) => abort(e),
            },
            _ => abort(TradeError::ProtocolError),
        },
        ControlState::ConfirmSell { fee, percent } => match input {
            InputView::Line(line) => if is_yes(trimmed(line)) {
                attempt(fee, Plan::Sell { percent }, 0, wallet, trades)
            } else {
                (ControlState::PercentChoice { fee }, EffectView::Ask(Prompt::Percent))
            },
            _ => abort(TradeError::ProtocolError),
        },
        ControlState::Executing { fee, plan, cursor, waiting } => match (waiting, input) {
            (Waiting::Swap, InputView::SwapEnded(_)) => move_on(fee, plan, cursor, wallet, trades),
            (Waiting::Skipped, InputView::Continue) => move_on(fee, plan, cursor, wallet, trades),
            (Waiting::Balance, InputView::Balance(answer)) => match plan {
                Plan::Sell { percent } => if cursor < trades.len() {
                    after_balance(fee, percent, cursor, answer, trades)
                } else {
                    abort(TradeError::ProtocolError)
                },
                _ => abort(TradeError::ProtocolError),
            },
            _ => abort(TradeError::ProtocolError),
        },
        ControlState::Idle => (ControlState::Idle, EffectView::Finish),
        ControlState::Aborted(e) => abort(e),
    }
}

/// Ends the session by the failure `e`.
fn end(e: TradeError) -> (r: (ControlState, Effect))
    ensures
        (r.0, r.1@) == abort(e),
{
    (ControlState::Aborted(e), Effect::Abort(e))
}

/// Starts the attempt on the token at `cursor`.
fn begin(fee: u64, plan: Plan, cursor: usize, wallet: &TokenAddress, trades: &TradeList) -> (r: (
    ControlState,
    Effect,
))
    ensures
        (r.0, r.1@) == attempt(fee, plan, cursor, wallet@, trades@),
{
    match trades.get(cursor) {
        None => (ControlState::Idle, Effect::Finish),
        Some(token) => match plan {
            Plan::Buy { amount } => (
                ControlState::Executing { fee, plan, cursor, waiting: Waiting::Swap },
                Effect::Swap(SwapOrder { buy: token, sell: TokenAddress::native_mint(), amount }),
            ),
            Plan::Sell { percent } => (
                ControlState::Executing { fee, plan, cursor, waiting: Waiting::Balance },
                Effect::LookupBalance(TokenAddress::associated_with(wallet, &token)),
            ),
        },
    }
}

/// Starts the attempt on the token behind the one at `cursor`.
fn proceed(fee: u64, plan: Plan, cursor: usize, wallet: &TokenAddress, trades: &TradeList) -> (r: (
    ControlState,
    Effect,
))
    ensures
        (r.0, r.1@) == move_on(fee, plan, cursor, wallet@, trades@),
{
    if cursor >= trades.len() {
        (ControlState::Idle, Effect::Finish)
    } else {
        begin(fee, plan, cursor + 1, wallet, trades)
    }
}

/// Resolves the amount of a sale from the ledger's answer and starts the
/// swap, or skips the token.
fn settle(
    fee: u64,
    percent: u64,
    cursor: usize,
    answer: Result<String, TradeError>,
    trades: &TradeList,
) -> (r: (ControlState, Effect))
    requires
        cursor < trades@.len(),
    ensures
        (r.0, r.1@) == after_balance(
            fee,
            percent,
            cursor,
            match answer {
                Ok(text) => Ok(text@),
                Err(e) => Err(e),
            },
            trades@,
        ),
{
    let plan = Plan::Sell { percent };
    let resolved = match answer {
        Ok(text) => match parse_balance(trim(text.as_str())) {
            Ok(balance) => resolve_sell_amount(balance, percent),
            Err(e) => Err(e),
        },
        Err(e) => Err(e),
    };
    match resolved {
        Ok(amount) => match trades.get(cursor) {
            Some(token) => (
                ControlState::Executing { fee, plan, cursor, waiting: Waiting::Swap },
                Effect::Swap(SwapOrder { buy: TokenAddress::native_mint(), sell: token, amount }),
            ),
            None => end(TradeError::ProtocolError),
        },
        Err(e) => (
            ControlState::Executing { fee, plan, cursor, waiting: Waiting::Skipped },
            Effect::Skip(e),
        ),
    }
}

impl ControlState {
    /// Begins the dialogue: the state to start from and the first prompt.
    pub fn start() -> (r: (ControlState, Effect))
        ensures
            r.0 == ControlState::FeeChoice,
            r.1@ == EffectView::Ask(Prompt::Fee),
    {
        (ControlState::FeeChoice, Effect::Ask(Prompt::Fee))
    }

    /// The fee of the session, once it has been chosen.
    pub open spec fn chosen_fee(self) -> Option<u64> {
        match self {
            ControlState::ActionChoice { fee } => Some(fee),
            ControlState::AmountEntry { fee } => Some(fee),
            ControlState::ConfirmBuy { fee, amount } => Some(fee),
            ControlState::PercentChoice { fee } => Some(fee),
            ControlState::ConfirmSell { fee, percent } => Some(fee),
            ControlState::Executing { fee, plan, cursor, waiting } => Some(fee),
            _ => None,
        }
    }

    /// The fee of the session, once it has been chosen.
    pub fn fee(self) -> (r: Option<u64>)
        ensures
            r == self.chosen_fee(),
    {
        match self {
            ControlState::ActionChoice { fee } => Some(fee),
            ControlState::AmountEntry { fee } => Some(fee),
            ControlState::ConfirmBuy { fee, amount } => Some(fee),
            ControlState::PercentChoice { fee } => Some(fee),
            ControlState::ConfirmSell { fee, percent } => Some(fee),
            ControlState::Executing { fee, plan, cursor, waiting } => Some(fee),
            _ => None,
        }
    }

    /// Takes one input and gives the state and the effect that follow.
    pub fn step(self, input: Input, wallet: &TokenAddress, trades: &TradeList) -> (r: (
        ControlState,
        Effect,
    ))
        ensures
            (r.0, r.1@) == transition(self, input@, wallet@, trades@),
    {
        match self {
            ControlState::FeeChoice => match input {
                Input::Line(line) => match compute_fee(trim(line.as_str())) {
                    Ok(fee) => (ControlState::ActionChoice { fee }, Effect::Ask(Prompt::Action)),
                    Err(e) => end(e),
                },
                _ => end(TradeError::ProtocolError),
            },
            ControlState::ActionChoice { fee } => match input {
                Input::Line(line) => {
                    let answer = trim(line.as_str());
                    if is_letter(answer, 'b') || is_letter(answer, 'B') {
                        (ControlState::AmountEntry { fee }, Effect::Ask(Prompt::Amount))
                    } else {
                        (ControlState::PercentChoice { fee }, Effect::Ask(Prompt::Percent))
                    }
                },
                _ => end(TradeError::ProtocolError),
            },
            ControlState::AmountEntry { fee } => match input {
                Input::Line(line) => match parse_quantity(trim(line.as_str())) {
                    Ok(quantity) => match resolve_buy_amount(&quantity) {
                        Ok(amount) => (
                            ControlState::ConfirmBuy { fee, amount },
                            Effect::Ask(Prompt::ConfirmBuy),
                        ),
                        Err(e) => end(e),
                    },
                    Err(e) => end(e),
                },
                _ => end(TradeError::ProtocolError),
            },
            ControlState::ConfirmBuy { fee, amount } => match input {
                Input::Line(line) => {
                    let answer = trim(line.as_str());
                    if is_letter(answer, 'y') || is_letter(answer, 'Y') {
                        begin(fee, Plan::Buy { amount }, 0, wallet, trades)
                    } else {
                        (ControlState::AmountEntry { fee }, Effect::Ask(Prompt::Amount))
                    }
                },
                _ => end(TradeError::ProtocolError),
            },
            ControlState::PercentChoice { fee } => match input {
                Input::Line(line) => match parse_percent(trim(line.as_str())) {
                    Ok(percent) => (
                        ControlState::ConfirmSell { fee, percent },
                        Effect::Ask(Prompt::ConfirmSell),
                    ),
                    Err(e) => end(e),
                },
                _ => end(TradeError::ProtocolError),
            },
            ControlState::ConfirmSell { fee, percent } => match input {
                Input::Line(line) => {
                    let answer = trim(line.as_str());
                    if is_letter(answer, 'y') || is_letter(answer, 'Y') {
                        begin(fee, Plan::Sell { percent }, 0, wallet, trades)
                    } else {
                        (ControlState::PercentChoice { fee }, Effect::Ask(Prompt::Percent))
                    }
                },
                _ => end(TradeError::ProtocolError),
            },
            ControlState::Executing { fee, plan, cursor, waiting } => match (waiting, input) {
                (Waiting::Swap, Input::SwapEnded(_)) => proceed(fee, plan, cursor, wallet, trades),
                (Waiting::Skipped, Input::Continue) => proceed(fee, plan, cursor, wallet, trades),
                (Waiting::Balance, Input::Balance(answer)) => match plan {
                    Plan::Sell { percent } => if cursor < trades.len() {
                        settle(fee, percent, cursor, answer, trades)
                    } else {
                        end(TradeError::ProtocolError)
                    },
                    _ => end(TradeError::ProtocolError),
                },
                _ => end(TradeError::ProtocolError),
            },
            ControlState::Idle => (ControlState::Idle, Effect::Finish),
            ControlState::Aborted(e) => end(e),
        }
    }
}

/// The state and effect once the swaps of a buy have ended with `outcomes`,
/// one after the other, from the first token on.
pub open spec fn after_swaps(
    fee: u64,
    amount: u64,
    outcomes: Seq<Option<Failure>>,
    wallet: Seq<u8>,
    trades: Seq<Seq<u8>>,
) -> (ControlState, EffectView)
    decreases outcomes.len(),
{
    if outcomes.len() == 0 {
        attempt(fee, Plan::Buy { amount }, 0, wallet, trades)
    } else {
        transition(
            after_swaps(fee, amount, outcomes.drop_last(), wallet, trades).0,
            InputView::SwapEnded(outcomes.last()),
            wallet,
            trades,
        )
    }
}

/// What one token of a sale meets: the ledger's answer to the balance
/// lookup, and the outcome of the swap if one is started.
pub struct SaleRound {
    pub answer: Result<Seq<char>, TradeError>,
    pub outcome: Option<Failure>,
}

/// The state and effect once a token of a sale has met `round`: the answer
/// is taken, and then the end of the swap or, where the token is skipped,
/// the driver's word that it has reported so.
pub open spec fn after_round(
    state: ControlState,
    round: SaleRound,
    wallet: Seq<u8>,
    trades: Seq<Seq<u8>>,
) -> (ControlState, EffectView) {
    let answered = transition(state, InputView::Balance(round.answer), wallet, trades);
    if answered.1 is Swap {
        transition(answered.0, InputView::SwapEnded(round.outcome), wallet, trades)
    } else {
        transition(answered.0, InputView::Continue, wallet, trades)
    }
}

/// The state and effect once the tokens of a sale have met `rounds`, one
/// after the other, from the first token on.
pub open spec fn after_sales(
    fee: u64,
    percent: u64,
    rounds: Seq<SaleRound>,
    wallet: Seq<u8>,
    trades: Seq<Seq<u8>>,
) -> (ControlState, EffectView)
    decreases rounds.len(),
{
    if rounds.len() == 0 {
        attempt(fee, Plan::Sell { percent }, 0, wallet, trades)
    } else {
        after_round(
            after_sales(fee, percent, rounds.drop_last(), wallet, trades).0,
            rounds.last(),
            wallet,
            trades,
        )
    }
}

/// The fee is settled once: a state that holds a fee is followed only by
/// states that hold the same fee, until the session is at rest or ended.
pub proof fn lemma_fee_is_kept(
    state: ControlState,
    input: InputView,
    wallet: Seq<u8>,
    trades: Seq<Seq<u8>>,
)
    requires
        state.chosen_fee() is Some,
    ensures
        ({
            let then = transition(state, input, wallet, trades).0;
            then is Idle || then is Aborted || then.chosen_fee() == state.chosen_fee()
        }),
{
}

/// Every swap that a state asks for is run under the fee that the state
/// holds.
pub proof fn lemma_swap_under_the_fee(
    state: ControlState,
    input: InputView,
    wallet: Seq<u8>,
    trades: Seq<Seq<u8>>,
)
    requires
        transition(state, input, wallet, trades).1 is Swap,
    ensures
        state.chosen_fee() is Some,
        transition(state, input, wallet, trades).0.chosen_fee() == state.chosen_fee(),
{
}

/// However a swap ended, the token behind it is attempted next: the outcome
/// has no part in the transition.
pub proof fn lemma_swap_outcome_moves_on(
    fee: u64,
    plan: Plan,
    cursor: usize,
    outcome: Option<Failure>,
    wallet: Seq<u8>,
    trades: Seq<Seq<u8>>,
)
    requires
        cursor < trades.len(),
    ensures
        transition(
            ControlState::Executing { fee, plan, cursor, waiting: Waiting::Swap },
            InputView::SwapEnded(outcome),
            wallet,
            trades,
        ) == attempt(fee, plan, (cursor + 1) as usize, wallet, trades),
{
}

/// A token whose balance could not be had is skipped, and the token behind
/// it is attempted next.
pub proof fn lemma_skipped_token_moves_on(
    fee: u64,
    percent: u64,
    cursor: usize,
    e: TradeError,
    wallet: Seq<u8>,
    trades: Seq<Seq<u8>>,
)
    requires
        cursor < trades.len(),
    ensures
        ({
            let plan = Plan::Sell { percent };
            let skipped = transition(
                ControlState::Executing { fee, plan, cursor, waiting: Waiting::Balance },
                InputView::Balance(Err(e)),
                wallet,
                trades,
            );
            &&& skipped.1 == EffectView::Skip(e)
            &&& transition(skipped.0, InputView::Continue, wallet, trades) == attempt(
                fee,
                plan,
                (cursor + 1) as usize,
                wallet,
                trades,
            )
        }),
{
}

/// In a buy, a failure of one token keeps no later token from being
/// attempted: after the swaps of the first `n` tokens have ended, however
/// they ended, the attempt on token `n` is what comes next.
pub proof fn lemma_every_purchase_attempted(
    fee: u64,
    amount: u64,
    outcomes: Seq<Option<Failure>>,
    wallet: Seq<u8>,
    trades: Seq<Seq<u8>>,
)
    requires
        outcomes.len() <= trades.len() <= usize::MAX,
    ensures
        after_swaps(fee, amount, outcomes, wallet, trades) == attempt(
            fee,
            Plan::Buy { amount },
            outcomes.len() as usize,
            wallet,
            trades,
        ),
    decreases outcomes.len(),
{
    if outcomes.len() > 0 {
        lemma_every_purchase_attempted(fee, amount, outcomes.drop_last(), wallet, trades);
    }
}

/// In a sale, a failure of one token keeps no later token from being
/// attempted: after the first `n` tokens have met their rounds, whatever the
/// ledger answered and however the swaps ended, the attempt on token `n` is
/// what comes next.
pub proof fn lemma_every_sale_attempted(
    fee: u64,
    percent: u64,
    rounds: Seq<SaleRound>,
    wallet: Seq<u8>,
    trades: Seq<Seq<u8>>,
)
    requires
        rounds.len() <= trades.len() <= usize::MAX,
    ensures
        after_sales(fee, percent, rounds, wallet, trades) == attempt(
            fee,
            Plan::Sell { percent },
            rounds.len() as usize,
            wallet,
            trades,
        ),
    decreases rounds.len(),
{
    if rounds.len() > 0 {
        lemma_every_sale_attempted(fee, percent, rounds.drop_last(), wallet, trades);
    }
}

} // verus!
