use swap_agent::address::TokenAddress;
use swap_agent::controller::{ControlState, Effect, Input, Plan, Prompt, Waiting};
use swap_agent::error::TradeError;
use swap_agent::pipeline::{Failure, Stage};
use swap_agent::trades::TradeList;

const USDC: &str = "EPjFWdd5AufqSSqeM2qN1xzybapC8G4wEGGkZwyTDt1v";
const BONK: &str = "DezXAZ8z7PnrnRJjz3wXBoRgixCa6xjnB7YaB1pPB263";
const WALLET: &str = "Vote111111111111111111111111111111111111111";

fn wallet() -> TokenAddress {
    TokenAddress::parse(WALLET).unwrap()
}

fn trades_of(tokens: &[&str]) -> TradeList {
    let mut trades = TradeList::new();
    for token in tokens {
        trades.push(TokenAddress::parse(token).unwrap());
    }
    trades
}

fn line(text: &str) -> Input {
    Input::Line(text.to_string())
}

fn say(state: ControlState, text: &str, trades: &TradeList) -> (ControlState, Effect) {
    state.step(line(text), &wallet(), trades)
}

fn failed_swap() -> Input {
    Input::SwapEnded(Some(Failure { stage: Stage::Quoting, error: TradeError::ProtocolError }))
}

fn assert_buys(effect: &Effect, token: &str, amount: u64) {
    match effect {
        Effect::Swap(order) => {
            assert_eq!(order.buy.to_bytes(), TokenAddress::parse(token).unwrap().to_bytes());
            assert_eq!(order.sell.to_bytes(), TokenAddress::native_mint().to_bytes());
            assert_eq!(order.amount, amount);
        },
        _ => panic!("a swap is due"),
    }
}

fn assert_sells(effect: &Effect, token: &str, amount: u64) {
    match effect {
        Effect::Swap(order) => {
            assert_eq!(order.buy.to_bytes(), TokenAddress::native_mint().to_bytes());
            assert_eq!(order.sell.to_bytes(), TokenAddress::parse(token).unwrap().to_bytes());
            assert_eq!(order.amount, amount);
        },
        _ => panic!("a swap is due"),
    }
}

fn assert_looks_up(effect: &Effect, token: &str) {
    let mint = TokenAddress::parse(token).unwrap();
    match effect {
        Effect::LookupBalance(account) => assert_eq!(
            account.to_bytes(),
            TokenAddress::associated_with(&wallet(), &mint).to_bytes()
        ),
        _ => panic!("a balance lookup is due"),
    }
}

#[test]
fn buy_of_a_hundredth_with_the_automatic_fee() {
    let trades = trades_of(&[USDC]);
    let (state, effect) = ControlState::start();
    assert_eq!(state, ControlState::FeeChoice);
    assert_eq!(state.fee(), None);
    assert!(matches!(effect, Effect::Ask(Prompt::Fee)));

    let (state, effect) = say(state, "a\n", &trades);
    assert_eq!(state, ControlState::ActionChoice { fee: 353571 });
    assert_eq!(state.fee(), Some(353571));
    assert!(matches!(effect, Effect::Ask(Prompt::Action)));

    let (state, effect) = say(state, "b\n", &trades);
    assert_eq!(state, ControlState::AmountEntry { fee: 353571 });
    assert!(matches!(effect, Effect::Ask(Prompt::Amount)));

    let (state, effect) = say(state, "0.01\n", &trades);
    assert_eq!(state, ControlState::ConfirmBuy { fee: 353571, amount: 10_000_000 });
    assert!(matches!(effect, Effect::Ask(Prompt::ConfirmBuy)));

    let (state, effect) = say(state, "y\n", &trades);
    assert_eq!(
        state,
        ControlState::Executing {
            fee: 353571,
            plan: Plan::Buy { amount: 10_000_000 },
            cursor: 0,
            waiting: Waiting::Swap,
        }
    );
    assert_eq!(state.fee(), Some(353571));
    assert_buys(&effect, USDC, 10_000_000);

    let (state, effect) = state.step(Input::SwapEnded(None), &wallet(), &trades);
    assert_eq!(state, ControlState::Idle);
    assert!(matches!(effect, Effect::Finish));
    let (state, effect) = say(state, "again", &trades);
    assert_eq!(state, ControlState::Idle);
    assert!(matches!(effect, Effect::Finish));
}

#[test]
fn lines_are_read_without_their_blanks() {
    let trades = trades_of(&[USDC]);
    let (state, _) = say(ControlState::FeeChoice, " \t A \r\n", &trades);
    assert_eq!(state, ControlState::ActionChoice { fee: 353571 });
    let (state, _) = say(ControlState::FeeChoice, "\u{a0}\u{2003}0.0005\u{3000}\u{85}", &trades);
    assert_eq!(state, ControlState::ActionChoice { fee: 353571 });
    let (state, _) = say(state, "  B", &trades);
    assert_eq!(state, ControlState::AmountEntry { fee: 353571 });
    let (state, _) = say(state, "\t1.5  \n", &trades);
    assert_eq!(state, ControlState::ConfirmBuy { fee: 353571, amount: 1_500_000_000 });
    let (state, _) = say(state, " Y ", &trades);
    assert!(matches!(state, ControlState::Executing { cursor: 0, .. }));
    // blanks inside an entry are part of it
    let (state, _) = say(ControlState::AmountEntry { fee: 1 }, "1 5", &trades);
    assert_eq!(state, ControlState::Aborted(TradeError::InvalidInput));
    // a zero-width space is no blank
    let (state, _) = say(ControlState::FeeChoice, "a\u{200b}", &trades);
    assert_eq!(state, ControlState::Aborted(TradeError::InvalidInput));
}

#[test]
fn a_custom_fee_is_settled_once() {
    let trades = trades_of(&[USDC, BONK]);
    let (state, _) = say(ControlState::FeeChoice, "0.001", &trades);
    assert_eq!(state, ControlState::ActionChoice { fee: 710_714 });
    let (state, _) = say(state, "b", &trades);
    let (state, _) = say(state, "2", &trades);
    let (state, _) = say(state, "y", &trades);
    assert_eq!(state.fee(), Some(710_714));
    let (state, _) = state.step(Input::SwapEnded(None), &wallet(), &trades);
    assert_eq!(state.fee(), Some(710_714));
}

#[test]
fn an_entry_that_is_not_understood_ends_the_session() {
    let trades = trades_of(&[USDC]);
    let (state, effect) = say(ControlState::FeeChoice, "cheap", &trades);
    assert_eq!(state, ControlState::Aborted(TradeError::InvalidInput));
    assert!(matches!(effect, Effect::Abort(TradeError::InvalidInput)));
    assert_eq!(state.fee(), None);

    let (state, effect) = say(ControlState::AmountEntry { fee: 1 }, "lots", &trades);
    assert_eq!(state, ControlState::Aborted(TradeError::InvalidInput));
    assert!(matches!(effect, Effect::Abort(TradeError::InvalidInput)));

    let (state, _) = say(ControlState::AmountEntry { fee: 1 }, "-1", &trades);
    assert_eq!(state, ControlState::Aborted(TradeError::InvalidInput));

    let (state, effect) = say(ControlState::PercentChoice { fee: 1 }, "c", &trades);
    assert_eq!(state, ControlState::Aborted(TradeError::InvalidInput));
    assert!(matches!(effect, Effect::Abort(TradeError::InvalidInput)));
    let (state, _) = say(ControlState::PercentChoice { fee: 1 }, "50", &trades);
    assert_eq!(state, ControlState::Aborted(TradeError::InvalidInput));

    let (state, effect) = say(state, "a", &trades);
    assert_eq!(state, ControlState::Aborted(TradeError::InvalidInput));
    assert!(matches!(effect, Effect::Abort(TradeError::InvalidInput)));
}

#[test]
fn whatever_is_not_buy_is_sell() {
    let trades = trades_of(&[USDC]);
    for answer in ["s", "S", "sell", "", "x", "bb"] {
        let (state, effect) = say(ControlState::ActionChoice { fee: 9 }, answer, &trades);
        assert_eq!(state, ControlState::PercentChoice { fee: 9 });
        assert!(matches!(effect, Effect::Ask(Prompt::Percent)));
    }
    for answer in ["b", "B"] {
        let (state, effect) = say(ControlState::ActionChoice { fee: 9 }, answer, &trades);
        assert_eq!(state, ControlState::AmountEntry { fee: 9 });
        assert!(matches!(effect, Effect::Ask(Prompt::Amount)));
    }
}

#[test]
fn a_declined_confirmation_asks_again() {
    let trades = trades_of(&[USDC]);
    for answer in ["n", "N", "", "yes", "no", "yy"] {
        let (state, effect) = say(ControlState::ConfirmBuy { fee: 3, amount: 7 }, answer, &trades);
        assert_eq!(state, ControlState::AmountEntry { fee: 3 });
        assert!(matches!(effect, Effect::Ask(Prompt::Amount)));
        let (state, effect) = say(ControlState::ConfirmSell { fee: 3, percent: 50 }, answer, &trades);
        assert_eq!(state, ControlState::PercentChoice { fee: 3 });
        assert!(matches!(effect, Effect::Ask(Prompt::Percent)));
    }
    let (state, _) = say(ControlState::AmountEntry { fee: 3 }, "1", &trades);
    let (state, _) = say(state, "n", &trades);
    let (state, _) = say(state, "2", &trades);
    assert_eq!(state, ControlState::ConfirmBuy { fee: 3, amount: 2_000_000_000 });
    let (_, effect) = say(state, "Y", &trades);
    assert_buys(&effect, USDC, 2_000_000_000);
}

#[test]
fn every_token_is_bought_whatever_becomes_of_the_others() {
    let trades = trades_of(&[USDC, BONK, WALLET]);
    let (state, effect) = say(ControlState::ConfirmBuy { fee: 3, amount: 11 }, "y", &trades);
    assert_buys(&effect, USDC, 11);
    let (state, effect) = state.step(failed_swap(), &wallet(), &trades);
    assert!(matches!(state, ControlState::Executing { cursor: 1, waiting: Waiting::Swap, .. }));
    assert_buys(&effect, BONK, 11);
    let (state, effect) = state.step(Input::SwapEnded(None), &wallet(), &trades);
    assert!(matches!(state, ControlState::Executing { cursor: 2, waiting: Waiting::Swap, .. }));
    assert_buys(&effect, WALLET, 11);
    let (state, effect) = state.step(failed_swap(), &wallet(), &trades);
    assert_eq!(state, ControlState::Idle);
    assert!(matches!(effect, Effect::Finish));
}

#[test]
fn a_malformed_quote_skips_one_pair_only() {
    let trades = trades_of(&[USDC, BONK]);
    let (state, effect) = say(ControlState::ConfirmBuy { fee: 3, amount: 11 }, "y", &trades);
    assert_buys(&effect, USDC, 11);
    let malformed =
        Input::SwapEnded(Some(Failure { stage: Stage::Quoting, error: TradeError::ProtocolError }));
    let (state, effect) = state.step(malformed, &wallet(), &trades);
    assert_buys(&effect, BONK, 11);
    let (state, effect) = state.step(Input::SwapEnded(None), &wallet(), &trades);
    assert_eq!(state, ControlState::Idle);
    assert!(matches!(effect, Effect::Finish));
}

#[test]
fn selling_all_of_nothing_still_swaps() {
    let trades = trades_of(&[USDC]);
    let (state, _) = say(ControlState::FeeChoice, "a", &trades);
    let (state, _) = say(state, "s", &trades);
    let (state, effect) = say(state, "b", &trades);
    assert_eq!(state, ControlState::ConfirmSell { fee: 353571, percent: 100 });
    assert!(matches!(effect, Effect::Ask(Prompt::ConfirmSell)));
    let (state, effect) = say(state, "y", &trades);
    assert!(matches!(state, ControlState::Executing { cursor: 0, waiting: Waiting::Balance, .. }));
    assert_looks_up(&effect, USDC);
    let (state, effect) = state.step(Input::Balance(Ok("0".to_string())), &wallet(), &trades);
    assert!(matches!(state, ControlState::Executing { cursor: 0, waiting: Waiting::Swap, .. }));
    assert_sells(&effect, USDC, 0);
    let (state, effect) = state.step(Input::SwapEnded(None), &wallet(), &trades);
    assert_eq!(state, ControlState::Idle);
    assert!(matches!(effect, Effect::Finish));
}

#[test]
fn every_token_is_sold_whatever_becomes_of_the_others() {
    let trades = trades_of(&[USDC, BONK, WALLET, USDC]);
    let (state, effect) = say(ControlState::ConfirmSell { fee: 3, percent: 50 }, "y", &trades);
    assert_looks_up(&effect, USDC);

    // the ledger fails: the token is skipped
    let (state, effect) =
        state.step(Input::Balance(Err(TradeError::UpstreamError)), &wallet(), &trades);
    assert!(matches!(state, ControlState::Executing { cursor: 0, waiting: Waiting::Skipped, .. }));
    assert!(matches!(effect, Effect::Skip(TradeError::UpstreamError)));
    let (state, effect) = state.step(Input::Continue, &wallet(), &trades);
    assert_looks_up(&effect, BONK);

    // the ledger answers with something that is no balance: skipped too
    let (state, effect) = state.step(Input::Balance(Ok("1.5".to_string())), &wallet(), &trades);
    assert!(matches!(state, ControlState::Executing { cursor: 1, waiting: Waiting::Skipped, .. }));
    assert!(matches!(effect, Effect::Skip(TradeError::ProtocolError)));
    let (state, effect) = state.step(Input::Continue, &wallet(), &trades);
    assert_looks_up(&effect, WALLET);

    // the swap fails: on to the next
    let (state, effect) = state.step(Input::Balance(Ok(" 1001\n".to_string())), &wallet(), &trades);
    assert_sells(&effect, WALLET, 500);
    let (state, effect) = state.step(failed_swap(), &wallet(), &trades);
    assert!(matches!(state, ControlState::Executing { cursor: 3, waiting: Waiting::Balance, .. }));
    assert_looks_up(&effect, USDC);

    let (state, effect) =
        state.step(Input::Balance(Ok("18446744073709551615".to_string())), &wallet(), &trades);
    assert_sells(&effect, USDC, u64::MAX / 2);
    let (state, effect) = state.step(Input::SwapEnded(None), &wallet(), &trades);
    assert_eq!(state, ControlState::Idle);
    assert!(matches!(effect, Effect::Finish));
}

#[test]
fn an_empty_list_is_done_at_once() {
    let trades = trades_of(&[]);
    let (state, effect) = say(ControlState::ConfirmBuy { fee: 3, amount: 11 }, "y", &trades);
    assert_eq!(state, ControlState::Idle);
    assert!(matches!(effect, Effect::Finish));
    let (state, effect) = say(ControlState::ConfirmSell { fee: 3, percent: 100 }, "y", &trades);
    assert_eq!(state, ControlState::Idle);
    assert!(matches!(effect, Effect::Finish));
}

#[test]
fn an_input_out_of_turn_ends_the_session() {
    let trades = trades_of(&[USDC]);
    let (state, effect) = ControlState::FeeChoice.step(Input::Continue, &wallet(), &trades);
    assert_eq!(state, ControlState::Aborted(TradeError::ProtocolError));
    assert!(matches!(effect, Effect::Abort(TradeError::ProtocolError)));
    let waiting_swap = ControlState::Executing {
        fee: 1,
        plan: Plan::Buy { amount: 1 },
        cursor: 0,
        waiting: Waiting::Swap,
    };
    let (state, _) = say(waiting_swap, "y", &trades);
    assert_eq!(state, ControlState::Aborted(TradeError::ProtocolError));
    let (state, _) = waiting_swap.step(Input::Balance(Ok("1".to_string())), &wallet(), &trades);
    assert_eq!(state, ControlState::Aborted(TradeError::ProtocolError));
    let buy_waiting_balance = ControlState::Executing {
        fee: 1,
        plan: Plan::Buy { amount: 1 },
        cursor: 0,
        waiting: Waiting::Balance,
    };
    let (state, _) =
        buy_waiting_balance.step(Input::Balance(Ok("1".to_string())), &wallet(), &trades);
    assert_eq!(state, ControlState::Aborted(TradeError::ProtocolError));
}

#[test]
fn a_percentage_that_is_no_choice_skips_the_token() {
    let trades = trades_of(&[USDC]);
    let odd = ControlState::Executing {
        fee: 1,
        plan: Plan::Sell { percent: 25 },
        cursor: 0,
        waiting: Waiting::Balance,
    };
    let (state, effect) = odd.step(Input::Balance(Ok("100".to_string())), &wallet(), &trades);
    assert!(matches!(state, ControlState::Executing { waiting: Waiting::Skipped, .. }));
    assert!(matches!(effect, Effect::Skip(TradeError::InvalidInput)));
}
