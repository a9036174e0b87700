//! What a session holds for all its swaps: the wallet, its signing key and
//! the fee. It is made once, read by every swap, and never changed.

use crate::address::TokenAddress;
use crate::config::Credentials;
use crate::error::TradeError;
use crate::fee::{compute_fee, fee_of};
use vstd::prelude::*;

verus! {

/// The mathematical content of a [`Session`].
pub struct SessionView {
    /// The wallet that pays and signs.
    pub wallet: TokenAddress,
    /// The text of the signing key.
    pub key: Seq<char>,
    /// The prioritization fee of every swap of the session.
    pub fee: u64,
}

/// The context that every swap of a session is run with.
pub struct Session {
    credentials: Credentials,
    fee: u64,
}

impl View for Session {
    type V = SessionView;

    closed spec fn view(&self) -> SessionView {
        SessionView {
            wallet: self.credentials.wallet_address(),
            key: self.credentials.key_text(),
            fee: self.fee,
        }
    }
}

impl Session {
    /// Opens a session with the user's choice of fee. The fee is settled
    /// here, once; a choice that has no fee opens no session.
    pub fn open(credentials: Credentials, fee_choice: &str) -> (r: Result<Session, TradeError>)
        ensures
            match fee_of(fee_choice@) {
                Ok(fee) => r is Ok && r->Ok_0@ == (SessionView {
                    wallet: credentials.wallet_address(),
                    key: credentials.key_text(),
                    fee,
                }),
                Err(e) => r is Err && r->Err_0 == e,
            },
    {
        match compute_fee(fee_choice) {
            Ok(fee) => Ok(Session { credentials, fee }),
            Err(e) => Err(e),
        }
    }

    /// A session with a fee that was computed before.
    pub fn with_fee(credentials: Credentials, fee: u64) -> (r: Session)
        ensures
            r@ == (SessionView {
                wallet: credentials.wallet_address(),
                key: credentials.key_text(),
                fee,
            }),
    {
        Session { credentials, fee }
    }

    /// The fee of every swap of the session.
    pub fn fee(&self) -> (r: u64)
        ensures
            r == self@.fee,
    {
        self.fee
    }

    /// The wallet and its signing key.
    pub fn credentials(&self) -> (r: &Credentials)
        ensures
            r.wallet_address() == self@.wallet,
            r.key_text() == self@.key,
    {
        &self.credentials
    }
}

} // verus!
