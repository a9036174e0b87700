//! The documents read at startup: the list of pair identifiers, the wallet's
//! credentials, and the answer of the pair-metadata service.

use crate::address::{address_bytes, TokenAddress};
use crate::error::TradeError;
use crate::json::{
    as_items, as_text, json_document, json_items, json_member, json_string, member, parse_json,
    read_text_member, text_member,
};
use serde_json::Value;
use vstd::prelude::*;
use vstd::string::*;

verus! {

/// The texts of `items` if every one of them is a string.
pub open spec fn all_texts(items: Seq<Value>) -> Option<Seq<Seq<char>>> {
    if forall|i: int| 0 <= i < items.len() ==> (#[trigger] json_string(items[i])) is Some {
        Some(Seq::new(items.len(), |i: int| json_string(items[i])->Some_0))
    } else {
        None
    }
}

/// The pair identifiers that a pair document lists: the strings of the array
/// `pairs` of a JSON object. `None` where the document is anything else.
pub open spec fn pairs_of(document: Seq<char>) -> Option<Seq<Seq<char>>> {
    match json_document(document) {
        Some(root) => match json_member(root, "pairs"@) {
            Some(list) => match json_items(list) {
                Some(items) => all_texts(items),
                None => None,
            },
            None => None,
        },
        None => None,
    }
}

/// The token address text in an answer of the pair-metadata service: the
/// string at `pair.baseToken.address` of a JSON object.
pub open spec fn token_text_of(answer: Seq<char>) -> Option<Seq<char>> {
    match json_document(answer) {
        Some(root) => match json_member(root, "pair"@) {
            Some(pair) => match json_member(pair, "baseToken"@) {
                Some(token) => text_member(token, "address"@),
                None => None,
            },
            None => None,
        },
        None => None,
    }
}

/// The token that an answer of the pair-metadata service resolves to. An
/// answer without the address field is not the expected shape; an address
/// that does not parse is an input error for that pair.
pub open spec fn token_of(answer: Seq<char>) -> Result<Seq<u8>, TradeError> {
    match token_text_of(answer) {
        Some(text) => match address_bytes(text) {
            Some(bytes) => Ok(bytes),
            None => Err(TradeError::InvalidInput),
        },
        None => Err(TradeError::ProtocolError),
    }
}

/// The two texts of a credential document: the strings `wallet_address` and
/// `private_key` of a JSON object.
pub open spec fn credential_texts_of(document: Seq<char>) -> Option<(Seq<char>, Seq<char>)> {
    match json_document(document) {
        Some(root) => match (
            text_member(root, "wallet_address"@),
            text_member(root, "private_key"@),
        ) {
            (Some(wallet), Some(key)) => Some((wallet, key)),
            _ => None,
        },
        None => None,
    }
}

/// Whether a credential document can be used: it has both texts, and the
/// wallet address parses.
pub open spec fn credentials_usable(document: Seq<char>) -> bool {
    match credential_texts_of(document) {
        Some((wallet, key)) => address_bytes(wallet) is Some,
        None => false,
    }
}

/// The wallet and its signing key, loaded once and held for the session.
pub struct Credentials {
    wallet: TokenAddress,
    private_key: String,
}

impl Credentials {
    /// The wallet's address.
    pub closed spec fn wallet_address(&self) -> TokenAddress {
        self.wallet
    }

    /// The bytes of the wallet's address.
    pub open spec fn wallet_bytes(&self) -> Seq<u8> {
        self.wallet_address()@
    }

    /// The signing key as it was written in the document.
    pub closed spec fn key_text(&self) -> Seq<char> {
        self.private_key@
    }

    /// The wallet's address.
    pub fn wallet(&self) -> (r: TokenAddress)
        ensures
            r == self.wallet_address(),
    {
        self.wallet
    }

    /// The signing key as it was written in the document.
    pub fn private_key(&self) -> (r: &str)
        ensures
            r@ == self.key_text(),
    {
        self.private_key.as_str()
    }

    /// Credentials from a wallet address and the text of a signing key.
    pub fn new(wallet: TokenAddress, private_key: String) -> (r: Credentials)
        ensures
            r.wallet_address() == wallet,
            r.key_text() == private_key@,
    {
        Credentials { wallet, private_key }
    }
}

/// Reads the list of pair identifiers. A document of any other shape is a
/// configuration error.
pub fn load_pairs(document: &str) -> (r: Result<Vec<String>, TradeError>)
    ensures
        match pairs_of(document@) {
            Some(pairs) => r is Ok && r->Ok_0@.len() == pairs.len() && forall|i: int|
                0 <= i < pairs.len() ==> (#[trigger] r->Ok_0@[i])@ == pairs[i],
            None => r is Err && r->Err_0 == TradeError::ConfigError,
        },
{
    let root = match parse_json(document) {
        Ok(root) => root,
        Err(_) => {
            return Err(TradeError::ConfigError);
        },
    };
    let list = match member(&root, "pairs") {
        Some(list) => list,
        None => {
            return Err(TradeError::ConfigError);
        },
    };
    let items = match as_items(list) {
        Some(items) => items,
        None => {
            return Err(TradeError::ConfigError);
        },
    };
    let mut pairs: Vec<String> = Vec::new();
    let mut i: usize = 0;
    while i < items.len()
        invariant
            i <= items@.len(),
            pairs_of(document@) == all_texts(items@),
            pairs@.len() == i,
            forall|k: int| 0 <= k < i ==> (#[trigger] json_string(items@[k])) is Some,
            forall|k: int| 0 <= k < i ==> (#[trigger] pairs@[k])@ == json_string(items@[k])->Some_0,
        decreases items@.len() - i,
    {
        match as_text(&items[i]) {
            Some(text) => {
                pairs.push(text.to_owned());
            },
            None => {
                return Err(TradeError::ConfigError);
            },
        }
        i += 1;
    }
    Ok(pairs)
}

/// Reads the wallet's credentials. A document that lacks one of the two
/// texts, or whose wallet address does not parse, is a configuration error.
pub fn load_credentials(document: &str) -> (r: Result<Credentials, TradeError>)
    ensures
        credentials_usable(document@) ==> r is Ok && r->Ok_0.wallet_bytes() == address_bytes(
            credential_texts_of(document@)->Some_0.0,
        )->Some_0 && r->Ok_0.key_text() == credential_texts_of(document@)->Some_0.1,
        !credentials_usable(document@) ==> r is Err && r->Err_0 == TradeError::ConfigError,
{
    let root = match parse_json(document) {
        Ok(root) => root,
        Err(_) => {
            return Err(TradeError::ConfigError);
        },
    };
    let wallet_text = match read_text_member(&root, "wallet_address") {
        Some(text) => text,
        None => {
            return Err(TradeError::ConfigError);
        },
    };
    let private_key = match read_text_member(&root, "private_key") {
        Some(text) => text,
        None => {
            return Err(TradeError::ConfigError);
        },
    };
    match TokenAddress::parse(wallet_text.as_str()) {
        Ok(wallet) => Ok(Credentials { wallet, private_key }),
        Err(_) => Err(TradeError::ConfigError),
    }
}

/// Reads the token address text out of an answer of the pair-metadata
/// service.
pub fn read_token_text(answer: &str) -> (r: Option<String>)
    ensures
        r is Some <==> token_text_of(answer@) is Some,
        r is Some ==> r->Some_0@ == token_text_of(answer@)->Some_0,
{
    let root = match parse_json(answer) {
        Ok(root) => root,
        Err(_) => {
            return None;
        },
    };
    let pair = match member(&root, "pair") {
        Some(pair) => pair,
        None => {
            return None;
        },
    };
    let token = match member(pair, "baseToken") {
        Some(token) => token,
        None => {
            return None;
        },
    };
    read_text_member(token, "address")
}

/// Resolves an answer of the pair-metadata service to the token it names.
pub fn resolve_pair(answer: &str) -> (r: Result<TokenAddress, TradeError>)
    ensures
        match token_of(answer@) {
            Ok(bytes) => r is Ok && r->Ok_0@ == bytes,
            Err(e) => r is Err && r->Err_0 == e,
        },
{
    match read_token_text(answer) {
        Some(text) => TokenAddress::parse(text.as_str()),
        None => Err(TradeError::ProtocolError),
    }
}

/// Where the metadata of a pair is asked for.
pub open spec fn lookup_url_of(pair: Seq<char>) -> Seq<char> {
    "https://api.dexscreener.com/latest/dex/pairs/solana/"@ + pair
}

/// The address of the pair-metadata service for the pair `pair`.
pub fn pair_lookup_url(pair: &str) -> (r: String)
    ensures
        r@ == lookup_url_of(pair@),
{
    let mut url = String::from_str("https://api.dexscreener.com/latest/dex/pairs/solana/");
    url.append(pair);
    url
}

} // verus!
