use swap_agent::config::{
    load_credentials, load_pairs, pair_lookup_url, read_token_text, resolve_pair, Credentials,
};
use swap_agent::address::TokenAddress;
use swap_agent::error::TradeError;
use swap_agent::trades::TradeList;

const USDC: &str = "EPjFWdd5AufqSSqeM2qN1xzybapC8G4wEGGkZwyTDt1v";
const WALLET: &str = "Vote111111111111111111111111111111111111111";

fn answer_for(address: &str) -> String {
    format!(
        "{{\"schemaVersion\":\"1.0.0\",\"pairs\":[],\"pair\":{{\"chainId\":\"solana\",\"baseToken\":{{\"address\":\"{}\",\"name\":\"T\",\"symbol\":\"T\"}},\"quoteToken\":{{\"address\":\"So11111111111111111111111111111111111111112\"}}}}}}",
        address
    )
}

#[test]
fn pair_document_lists_its_pairs() {
    let pairs = load_pairs("{\"pairs\": [\"X\", \"second pair\", \"\"]}").unwrap();
    assert_eq!(pairs, vec!["X".to_string(), "second pair".to_string(), String::new()]);
    assert_eq!(load_pairs("{\"pairs\": [], \"more\": 1}").unwrap(), Vec::<String>::new());
}

#[test]
fn malformed_pair_document_is_a_configuration_error() {
    for document in [
        "",
        "{",
        "[]",
        "{}",
        "{\"pairs\": \"X\"}",
        "{\"pairs\": {\"0\": \"X\"}}",
        "{\"pairs\": [\"X\", 2]}",
        "{\"pairs\": [null]}",
        "{\"Pairs\": [\"X\"]}",
        "{\"pairs\": [\"X\"]} trailing",
    ] {
        assert_eq!(load_pairs(document), Err(TradeError::ConfigError));
    }
}

#[test]
fn credential_document_gives_wallet_and_key() {
    let document = format!("{{\"wallet_address\": \"{}\", \"private_key\": \"secret text\", \"note\": 1}}", WALLET);
    let credentials = load_credentials(&document).ok().unwrap();
    assert_eq!(credentials.wallet().to_bytes(), TokenAddress::parse(WALLET).unwrap().to_bytes());
    assert_eq!(credentials.private_key(), "secret text");
}

#[test]
fn malformed_credential_document_is_a_configuration_error() {
    let no_key = format!("{{\"wallet_address\": \"{}\"}}", WALLET);
    let key_not_text = format!("{{\"wallet_address\": \"{}\", \"private_key\": 5}}", WALLET);
    let as_list = format!("[\"{}\", \"k\"]", WALLET);
    for document in [
        "",
        "not json",
        "{}",
        "{\"private_key\": \"k\"}",
        "{\"wallet_address\": \"not an address\", \"private_key\": \"k\"}",
        "{\"wallet_address\": 7, \"private_key\": \"k\"}",
        "{\"walletAddress\": \"Vote111111111111111111111111111111111111111\", \"privateKey\": \"k\"}",
        no_key.as_str(),
        key_not_text.as_str(),
        as_list.as_str(),
    ] {
        assert!(matches!(load_credentials(document), Err(TradeError::ConfigError)));
    }
    assert!(TradeError::ConfigError.fatal());
}

#[test]
fn credentials_keep_what_they_are_given() {
    let wallet = TokenAddress::parse(WALLET).unwrap();
    let credentials = Credentials::new(wallet, "k".to_string());
    assert_eq!(credentials.wallet().to_bytes(), wallet.to_bytes());
    assert_eq!(credentials.private_key(), "k");
}

#[test]
fn metadata_answer_resolves_to_its_token() {
    let answer = answer_for(USDC);
    assert_eq!(read_token_text(&answer), Some(USDC.to_string()));
    let token = resolve_pair(&answer).unwrap();
    assert_eq!(token.to_bytes(), TokenAddress::parse(USDC).unwrap().to_bytes());
}

#[test]
fn metadata_answer_without_the_address_is_a_protocol_error() {
    for answer in [
        "",
        "<html>",
        "null",
        "{}",
        "{\"pair\": null}",
        "{\"pair\": {}}",
        "{\"pair\": {\"baseToken\": null}}",
        "{\"pair\": {\"baseToken\": {}}}",
        "{\"pair\": {\"baseToken\": {\"address\": 5}}}",
        "{\"pair\": {\"baseToken\": {\"Address\": \"EPjFWdd5AufqSSqeM2qN1xzybapC8G4wEGGkZwyTDt1v\"}}}",
        "{\"pair\": [{\"baseToken\": {\"address\": \"EPjFWdd5AufqSSqeM2qN1xzybapC8G4wEGGkZwyTDt1v\"}}]}",
        "{\"pairs\": [{\"baseToken\": {\"address\": \"EPjFWdd5AufqSSqeM2qN1xzybapC8G4wEGGkZwyTDt1v\"}}]}",
    ] {
        assert_eq!(read_token_text(answer), None);
        assert!(matches!(resolve_pair(answer), Err(TradeError::ProtocolError)));
    }
}

#[test]
fn metadata_answer_with_a_bad_address_is_an_input_error() {
    let answer = answer_for("T");
    assert_eq!(read_token_text(&answer), Some("T".to_string()));
    assert!(matches!(resolve_pair(&answer), Err(TradeError::InvalidInput)));
}

#[test]
fn lookup_url_ends_in_the_pair() {
    assert_eq!(pair_lookup_url("X"), "https://api.dexscreener.com/latest/dex/pairs/solana/X");
    assert_eq!(pair_lookup_url(""), "https://api.dexscreener.com/latest/dex/pairs/solana/");
}

#[test]
fn trade_list_keeps_the_order_of_resolution() {
    let mut trades = TradeList::new();
    assert_eq!(trades.len(), 0);
    assert!(trades.get(0).is_none());
    assert_eq!(trades.add_resolved(&answer_for(USDC)), Ok(()));
    assert_eq!(trades.add_resolved("{}"), Err(TradeError::ProtocolError));
    assert_eq!(trades.add_resolved(&answer_for("T")), Err(TradeError::InvalidInput));
    assert_eq!(trades.add_resolved(&answer_for(WALLET)), Ok(()));
    trades.push(TokenAddress::native_mint());
    assert_eq!(trades.len(), 3);
    assert_eq!(trades.get(0).unwrap().to_bytes(), TokenAddress::parse(USDC).unwrap().to_bytes());
    assert_eq!(trades.get(1).unwrap().to_bytes(), TokenAddress::parse(WALLET).unwrap().to_bytes());
    assert_eq!(trades.get(2).unwrap().to_bytes(), TokenAddress::native_mint().to_bytes());
    assert!(trades.get(3).is_none());
}
