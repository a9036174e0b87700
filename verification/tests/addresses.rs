use solana_sdk::pubkey::Pubkey;
use spl_associated_token_account::get_associated_token_address;
use std::str::FromStr;
use swap_agent::address::TokenAddress;
use swap_agent::error::TradeError;

const NATIVE: &str = "So11111111111111111111111111111111111111112";
const USDC: &str = "EPjFWdd5AufqSSqeM2qN1xzybapC8G4wEGGkZwyTDt1v";
const WALLET: &str = "Vote111111111111111111111111111111111111111";

#[test]
fn native_mint_is_the_wrapped_currency() {
    let parsed = TokenAddress::parse(NATIVE).unwrap();
    assert_eq!(parsed.to_bytes(), TokenAddress::native_mint().to_bytes());
    assert_eq!(Pubkey::new_from_array(TokenAddress::native_mint().to_bytes()).to_string(), NATIVE);
}

#[test]
fn parse_reads_what_the_ledger_reads() {
    for text in [NATIVE, USDC, WALLET, "11111111111111111111111111111111"] {
        let ours = TokenAddress::parse(text).unwrap();
        let theirs = Pubkey::from_str(text).unwrap();
        assert_eq!(ours.to_bytes(), theirs.to_bytes());
        assert_ne!(&ours.to_bytes()[..], text.as_bytes());
    }
}

#[test]
fn parse_refuses_what_is_no_address() {
    for text in [
        "",
        "X",
        "not an address",
        "So1111111111111111111111111111111111111111",
        "So111111111111111111111111111111111111111122",
        "So1111111111111111111111111111111111111111O2",
        "EPjFWdd5AufqSSqeM2qN1xzybapC8G4wEGGkZwyTDt1vEPjFWdd5AufqSSqeM2qN1xzybapC8G4wEGGkZwyTDt1v",
    ] {
        assert!(matches!(TokenAddress::parse(text), Err(TradeError::InvalidInput)));
    }
}

#[test]
fn bytes_round_trip() {
    let mut bytes = [0u8; 32];
    for (i, b) in bytes.iter_mut().enumerate() {
        *b = (i * 7 + 3) as u8;
    }
    assert_eq!(TokenAddress::from_bytes(bytes).to_bytes(), bytes);
}

#[test]
fn associated_account_is_the_derived_one() {
    let wallet = TokenAddress::parse(WALLET).unwrap();
    let mint = TokenAddress::parse(USDC).unwrap();
    let ours = TokenAddress::associated_with(&wallet, &mint);
    let theirs = get_associated_token_address(
        &Pubkey::from_str(WALLET).unwrap(),
        &Pubkey::from_str(USDC).unwrap(),
    );
    assert_eq!(ours.to_bytes(), theirs.to_bytes());
    assert_ne!(ours.to_bytes(), wallet.to_bytes());
    assert_ne!(ours.to_bytes(), mint.to_bytes());
    let other = TokenAddress::associated_with(&wallet, &TokenAddress::native_mint());
    assert_ne!(ours.to_bytes(), other.to_bytes());
}
