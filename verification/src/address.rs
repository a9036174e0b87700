//! Token and wallet addresses: 32 bytes, written in base58.

use crate::error::TradeError;
use solana_sdk::pubkey::ParsePubkeyError;
use solana_sdk::pubkey::Pubkey;
use spl_associated_token_account::get_associated_token_address;
use std::str::FromStr;
use vstd::prelude::*;

verus! {

/// The error of `solana_sdk`'s address parser, carried through unread.
#[verifier::external_type_specification]
#[verifier::external_body]
pub struct ExParsePubkeyError(ParsePubkeyError);

/// The 32 bytes that `Pubkey::from_str` reads out of a text, or `None` where it
/// rejects the text.
pub uninterp spec fn address_bytes(text: Seq<char>) -> Option<Seq<u8>>;

/// The address that `spl_associated_token_account::get_associated_token_address`
/// derives for a wallet and a token mint, all three as their 32 bytes.
pub uninterp spec fn associated_account(wallet: Seq<u8>, mint: Seq<u8>) -> Seq<u8>;

/// Calls `Pubkey::from_str` and hands out the key's bytes. The contract only
/// names the outcome: which texts are accepted, and the bytes they stand for,
/// are those of the base58 decoder behind that function.
#[verifier::external_body]
fn decode_address(text: &str) -> (r: Result<[u8; 32], ParsePubkeyError>)
    ensures
        r is Ok <==> address_bytes(text@) is Some,
        r is Ok ==> r->Ok_0@ == address_bytes(text@)->Some_0,
{
    match Pubkey::from_str(text) {
        Ok(key) => Ok(key.to_bytes()),
        Err(e) => Err(e),
    }
}

/// Calls `get_associated_token_address` on the two addresses. The contract
/// only names the outcome. The outside function searches 256 candidate seeds
/// for an address off the signing curve and panics if none qualifies, which
/// its documentation calls statistically improbable; no such pair is known.
#[verifier::external_body]
fn derive_associated(wallet: &[u8; 32], mint: &[u8; 32]) -> (r: [u8; 32])
    ensures
        r@ == associated_account(wallet@, mint@),
{
    get_associated_token_address(&Pubkey::new_from_array(*wallet), &Pubkey::new_from_array(*mint))
        .to_bytes()
}

/// The identifier of a tradable asset or of a wallet on the ledger.
///
/// Every value is a valid address: a text becomes one only by being parsed,
/// and any 32 bytes are the bytes of one.
#[derive(Clone, Copy, Debug)]
pub struct TokenAddress {
    bytes: [u8; 32],
}

impl View for TokenAddress {
    type V = Seq<u8>;

    closed spec fn view(&self) -> Seq<u8> {
        self.bytes@
    }
}

/// The bytes of the wrapped native currency's mint,
/// `So11111111111111111111111111111111111111112` in base58.
pub open spec fn native_mint_bytes() -> Seq<u8> {
    seq![
        6u8, 155u8, 136u8, 87u8, 254u8, 171u8, 129u8, 132u8,
        251u8, 104u8, 127u8, 99u8, 70u8, 24u8, 192u8, 53u8,
        218u8, 196u8, 57u8, 220u8, 26u8, 235u8, 59u8, 85u8,
        152u8, 160u8, 240u8, 0u8, 0u8, 0u8, 0u8, 1u8,
    ]
}

impl TokenAddress {
    /// Reads an address from its base58 text. A text that is no address is
    /// an input error.
    pub fn parse(text: &str) -> (r: Result<TokenAddress, TradeError>)
        ensures
            match address_bytes(text@) {
                Some(bytes) => r is Ok && r->Ok_0@ == bytes,
                None => r == Err::<TokenAddress, TradeError>(TradeError::InvalidInput),
            },
    {
        match decode_address(text) {
            Ok(bytes) => Ok(TokenAddress { bytes }),
            Err(_) => Err(TradeError::InvalidInput),
        }
    }

    /// The address from its 32 bytes.
    pub fn from_bytes(bytes: [u8; 32]) -> (r: TokenAddress)
        ensures
            r@ == bytes@,
    {
        TokenAddress { bytes }
    }

    /// The 32 bytes of the address.
    pub fn to_bytes(&self) -> (r: [u8; 32])
        ensures
            r@ == self@,
    {
        self.bytes
    }

    /// The mint of the wrapped native currency, which every buy pays with and
    /// every sell is paid in.
    pub fn native_mint() -> (r: TokenAddress)
        ensures
            r@ == native_mint_bytes(),
    {
        let bytes: [u8; 32] = [
            6, 155, 136, 87, 254, 171, 129, 132,
            251, 104, 127, 99, 70, 24, 192, 53,
            218, 196, 57, 220, 26, 235, 59, 85,
            152, 160, 240, 0, 0, 0, 0, 1,
        ];
        assert(bytes@ =~= native_mint_bytes());
        TokenAddress { bytes }
    }

    /// The account that holds the wallet's balance of the token `mint`.
    pub fn associated_with(wallet: &TokenAddress, mint: &TokenAddress) -> (r: TokenAddress)
        ensures
            r@ == associated_account(wallet@, mint@),
    {
        TokenAddress { bytes: derive_associated(&wallet.bytes, &mint.bytes) }
    }
}

} // verus!
