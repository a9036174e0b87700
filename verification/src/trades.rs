//! The list of tokens that every action of the user covers.

use crate::address::TokenAddress;
use crate::config::{resolve_pair, token_of};
use crate::error::TradeError;
use vstd::prelude::*;

verus! {

/// The tokens to trade, in the order of the pair document. The list is
/// filled at startup and only read afterwards.
pub struct TradeList {
    tokens: Vec<TokenAddress>,
}

impl View for TradeList {
    type V = Seq<Seq<u8>>;

    closed spec fn view(&self) -> Seq<Seq<u8>> {
        Seq::new(self.tokens@.len(), |i: int| self.tokens@[i]@)
    }
}

impl TradeList {
    /// A list without tokens.
    pub fn new() -> (r: TradeList)
        ensures
            r@ == Seq::<Seq<u8>>::empty(),
    {
        TradeList { tokens: Vec::new() }
    }

    /// How many tokens the list holds.
    pub fn len(&self) -> (r: usize)
        ensures
            r == self@.len(),
    {
        self.tokens.len()
    }

    /// The token at `index`, if there is one.
    pub fn get(&self, index: usize) -> (r: Option<TokenAddress>)
        ensures
            index < self@.len() ==> r is Some && r->Some_0@ == self@[index as int],
            index >= self@.len() ==> r is None,
    {
        if index < self.tokens.len() {
            Some(self.tokens[index])
        } else {
            None
        }
    }

    /// Appends a token.
    pub fn push(&mut self, token: TokenAddress)
        ensures
            final(self)@ == old(self)@.push(token@),
    {
        self.tokens.push(token);
    }

    /// Appends the token that an answer of the pair-metadata service
    /// resolves to. An answer that resolves to none leaves the list as it
    /// was and gives the failure for that pair.
    pub fn add_resolved(&mut self, answer: &str) -> (r: Result<(), TradeError>)
        ensures
            match token_of(answer@) {
                Ok(bytes) => r is Ok && final(self)@ == old(self)@.push(bytes),
                Err(e) => r is Err && r->Err_0 == e && final(self)@ == old(self)@,
            },
    {
        match resolve_pair(answer) {
            Ok(token) => {
                self.push(token);
                Ok(())
            },
            Err(e) => Err(e),
        }
    }
}

} // verus!
