use swap_agent::address::TokenAddress;
use swap_agent::error::TradeError;
use swap_agent::startup::{Document, Startup, StartupEffect, StartupInput};

const USDC: &str = "EPjFWdd5AufqSSqeM2qN1xzybapC8G4wEGGkZwyTDt1v";
const BONK: &str = "DezXAZ8z7PnrnRJjz3wXBoRgixCa6xjnB7YaB1pPB263";
const WALLET: &str = "Vote111111111111111111111111111111111111111";

fn document(text: &str) -> StartupInput {
    StartupInput::Document(Some(text.to_string()))
}

fn credentials_text() -> String {
    format!("{{\"wallet_address\": \"{}\", \"private_key\": \"the key\"}}", WALLET)
}

fn answer_for(address: &str) -> StartupInput {
    StartupInput::Answer(Ok(format!(
        "{{\"pair\": {{\"baseToken\": {{\"address\": \"{}\"}}}}}}",
        address
    )))
}

fn assert_aborted(outcome: (Startup, StartupEffect), error: TradeError) -> Startup {
    assert!(matches!(outcome.0, Startup::Aborted(e) if e == error));
    assert!(matches!(outcome.1, StartupEffect::Abort(e) if e == error));
    outcome.0
}

fn assert_fetches(effect: &StartupEffect, pair: &str) {
    match effect {
        StartupEffect::Fetch(url) => {
            assert_eq!(url, &format!("https://api.dexscreener.com/latest/dex/pairs/solana/{}", pair))
        },
        _ => panic!("a fetch is due"),
    }
}

#[test]
fn documents_are_read_before_anything_is_fetched() {
    let (state, effect) = Startup::start();
    assert!(matches!(state, Startup::ReadingPairs));
    assert!(matches!(effect, StartupEffect::Read(Document::Pairs)));

    let (state, effect) = state.step(document("{\"pairs\": [\"X\"]}"));
    assert!(matches!(state, Startup::ReadingCredentials { .. }));
    assert!(matches!(effect, StartupEffect::Read(Document::Credentials)));

    let (state, effect) = state.step(document(&credentials_text()));
    assert!(matches!(state, Startup::Resolving { cursor: 0, skipped: false, .. }));
    assert_fetches(&effect, "X");

    let (state, effect) = state.step(answer_for(USDC));
    assert!(matches!(effect, StartupEffect::Ready));
    match state {
        Startup::Ready { pairs, credentials, trades } => {
            assert_eq!(pairs, vec!["X".to_string()]);
            assert_eq!(credentials.private_key(), "the key");
            assert_eq!(credentials.wallet().to_bytes(), TokenAddress::parse(WALLET).unwrap().to_bytes());
            assert_eq!(trades.len(), 1);
            assert_eq!(trades.get(0).unwrap().to_bytes(), TokenAddress::parse(USDC).unwrap().to_bytes());
        },
        _ => panic!("the startup is done"),
    }
}

#[test]
fn malformed_credentials_abort_before_any_fetch() {
    for text in ["", "{", "{}", "{\"wallet_address\": \"x\", \"private_key\": \"k\"}", "{\"wallet_address\": \"Vote111111111111111111111111111111111111111\"}"] {
        let (state, _) = Startup::start();
        let (state, effect) = state.step(document("{\"pairs\": [\"X\", \"Y\"]}"));
        assert!(!matches!(effect, StartupEffect::Fetch(_)));
        let state = assert_aborted(state.step(document(text)), TradeError::ConfigError);
        // nothing brings an ended startup back
        let state = assert_aborted(state.step(document(&credentials_text())), TradeError::ConfigError);
        let state = assert_aborted(state.step(answer_for(USDC)), TradeError::ConfigError);
        assert_aborted(state.step(StartupInput::Continue), TradeError::ConfigError);
    }
}

#[test]
fn a_missing_document_is_a_configuration_error() {
    let (state, _) = Startup::start();
    assert_aborted(state.step(StartupInput::Document(None)), TradeError::ConfigError);
    let (state, _) = Startup::start();
    let (state, _) = state.step(document("{\"pairs\": []}"));
    assert_aborted(state.step(StartupInput::Document(None)), TradeError::ConfigError);
}

#[test]
fn a_malformed_pair_document_is_a_configuration_error() {
    for text in ["", "[]", "{\"pairs\": 1}", "{\"pairs\": [1]}"] {
        let (state, _) = Startup::start();
        assert_aborted(state.step(document(text)), TradeError::ConfigError);
    }
}

#[test]
fn no_pairs_means_ready_at_once() {
    let (state, _) = Startup::start();
    let (state, _) = state.step(document("{\"pairs\": []}"));
    let (state, effect) = state.step(document(&credentials_text()));
    assert!(matches!(effect, StartupEffect::Ready));
    let (state, effect) = state.step(StartupInput::Continue);
    assert!(matches!(effect, StartupEffect::Ready));
    match state {
        Startup::Ready { pairs, trades, .. } => {
            assert!(pairs.is_empty());
            assert_eq!(trades.len(), 0);
        },
        _ => panic!("the startup is done"),
    }
}

#[test]
fn a_pair_that_does_not_resolve_is_left_out() {
    let (state, _) = Startup::start();
    let (state, _) = state.step(document("{\"pairs\": [\"P\", \"Q\", \"R\", \"S\"]}"));
    let (state, effect) = state.step(document(&credentials_text()));
    assert_fetches(&effect, "P");

    let (state, effect) = state.step(StartupInput::Answer(Err(TradeError::UpstreamError)));
    assert!(matches!(state, Startup::Resolving { cursor: 0, skipped: true, .. }));
    assert!(matches!(effect, StartupEffect::Skip(TradeError::UpstreamError)));
    let (state, effect) = state.step(StartupInput::Continue);
    assert_fetches(&effect, "Q");

    let (state, effect) = state.step(StartupInput::Answer(Ok("{\"pair\": null}".to_string())));
    assert!(matches!(effect, StartupEffect::Skip(TradeError::ProtocolError)));
    let (state, effect) = state.step(StartupInput::Continue);
    assert_fetches(&effect, "R");

    let (state, effect) = state.step(answer_for("not an address"));
    assert!(matches!(effect, StartupEffect::Skip(TradeError::InvalidInput)));
    let (state, effect) = state.step(StartupInput::Continue);
    assert!(matches!(state, Startup::Resolving { cursor: 3, skipped: false, .. }));
    assert_fetches(&effect, "S");

    let (state, effect) = state.step(answer_for(BONK));
    assert!(matches!(effect, StartupEffect::Ready));
    match state {
        Startup::Ready { pairs, trades, .. } => {
            assert_eq!(pairs.len(), 4);
            assert_eq!(trades.len(), 1);
            assert_eq!(trades.get(0).unwrap().to_bytes(), TokenAddress::parse(BONK).unwrap().to_bytes());
        },
        _ => panic!("the startup is done"),
    }
}

#[test]
fn tokens_keep_the_order_of_the_pairs() {
    let (state, _) = Startup::start();
    let (state, _) = state.step(document("{\"pairs\": [\"P\", \"Q\"]}"));
    let (state, _) = state.step(document(&credentials_text()));
    let (state, effect) = state.step(answer_for(BONK));
    assert_fetches(&effect, "Q");
    let (state, _) = state.step(answer_for(USDC));
    match state {
        Startup::Ready { trades, .. } => {
            assert_eq!(trades.len(), 2);
            assert_eq!(trades.get(0).unwrap().to_bytes(), TokenAddress::parse(BONK).unwrap().to_bytes());
            assert_eq!(trades.get(1).unwrap().to_bytes(), TokenAddress::parse(USDC).unwrap().to_bytes());
        },
        _ => panic!("the startup is done"),
    }
}

#[test]
fn a_startup_input_out_of_turn_ends_the_startup() {
    let (state, _) = Startup::start();
    assert_aborted(state.step(StartupInput::Continue), TradeError::ProtocolError);
    let (state, _) = Startup::start();
    assert_aborted(state.step(answer_for(USDC)), TradeError::ProtocolError);
    let (state, _) = Startup::start();
    let (state, _) = state.step(document("{\"pairs\": [\"P\"]}"));
    let (state, _) = state.step(document(&credentials_text()));
    assert_aborted(state.step(StartupInput::Continue), TradeError::ProtocolError);
}
