//! What happens before the dialogue: the two local documents are read and
//! checked, and only then are the pairs resolved over the network.
//!
//! The machine decides; its driver reads the files and fetches the answers
//! of the pair-metadata service. A document that is missing or malformed
//! ends the startup with a configuration error before anything is fetched.
//! A pair that does not resolve is reported and left out of the trade list.

use crate::config::{
    credential_texts_of, credentials_usable, load_credentials, load_pairs, lookup_url_of,
    pair_lookup_url, pairs_of, token_of, Credentials,
};
use crate::address::address_bytes;
use crate::error::TradeError;
use crate::trades::TradeList;
use vstd::prelude::*;

verus! {

/// The local documents.
#[derive(Clone, Copy, Debug, PartialEq, Eq, Structural)]
pub enum Document {
    /// The list of pair identifiers.
    Pairs,
    /// The wallet's address and signing key.
    Credentials,
}

/// What the driver hands to the machine.
pub enum StartupInput {
    /// The text of the document asked for, or `None` where it cannot be
    /// read.
    Document(Option<String>),
    /// The answer of the pair-metadata service, or its failure.
    Answer(Result<String, TradeError>),
    /// The reason for leaving out a pair has been reported.
    Continue,
}

/// What the driver is to do next.
pub enum StartupEffect {
    /// Read this document.
    Read(Document),
    /// Fetch the text at this address.
    Fetch(String),
    /// Report that the pair at hand is left out for this reason.
    Skip(TradeError),
    /// Begin the dialogue.
    Ready,
    /// Report this failure and end the process.
    Abort(TradeError),
}

/// The state of the startup.
pub enum Startup {
    /// Asked for the pair document.
    ReadingPairs,
    /// Asked for the credential document.
    ReadingCredentials { pairs: Vec<String> },
    /// Resolving the pair at `cursor`; `skipped` once it has failed.
    Resolving {
        pairs: Vec<String>,
        credentials: Credentials,
        trades: TradeList,
        cursor: usize,
        skipped: bool,
    },
    /// Everything is at hand.
    Ready { pairs: Vec<String>, credentials: Credentials, trades: TradeList },
    /// The startup was ended by this failure.
    Aborted(TradeError),
}

/// The mathematical content of a [`StartupInput`].
pub enum StartupInputView {
    Document(Option<Seq<char>>),
    Answer(Result<Seq<char>, TradeError>),
    Continue,
}

/// The mathematical content of a [`StartupEffect`].
pub enum StartupEffectView {
    Read(Document),
    Fetch(Seq<char>),
    Skip(TradeError),
    Ready,
    Abort(TradeError),
}

/// What has been loaded so far.
pub struct Loaded {
    /// The pair identifiers.
    pub pairs: Seq<Seq<char>>,
    /// The bytes of the wallet's address.
    pub wallet: Seq<u8>,
    /// The text of the signing key.
    pub key: Seq<char>,
    /// The tokens resolved so far.
    pub trades: Seq<Seq<u8>>,
}

/// The mathematical content of a [`Startup`].
pub enum StartupView {
    ReadingPairs,
    ReadingCredentials { pairs: Seq<Seq<char>> },
    Resolving { loaded: Loaded, cursor: usize, skipped: bool },
    Ready { loaded: Loaded },
    Aborted(TradeError),
}

/// The texts of a list of strings.
pub open spec fn texts_of(strings: Seq<String>) -> Seq<Seq<char>> {
    Seq::new(strings.len(), |i: int| strings[i]@)
}

impl View for StartupInput {
    type V = StartupInputView;

    open spec fn view(&self) -> StartupInputView {
        match *self {
            StartupInput::Document(Some(text)) => StartupInputView::Document(Some(text@)),
            StartupInput::Document(None) => StartupInputView::Document(None),
            StartupInput::Answer(Ok(text)) => StartupInputView::Answer(Ok(text@)),
            StartupInput::Answer(Err(e)) => StartupInputView::Answer(Err(e)),
            StartupInput::Continue => StartupInputView::Continue,
        }
    }
}

impl View for StartupEffect {
    type V = StartupEffectView;

    open spec fn view(&self) -> StartupEffectView {
        match *self {
            StartupEffect::Read(document) => StartupEffectView::Read(document),
            StartupEffect::Fetch(url) => StartupEffectView::Fetch(url@),
            StartupEffect::Skip(e) => StartupEffectView::Skip(e),
            StartupEffect::Ready => StartupEffectView::Ready,
            StartupEffect::Abort(e) => StartupEffectView::Abort(e),
        }
    }
}

impl View for Startup {
    type V = StartupView;

    open spec fn view(&self) -> StartupView {
        match *self {
            Startup::ReadingPairs => StartupView::ReadingPairs,
            Startup::ReadingCredentials { pairs } => StartupView::ReadingCredentials {
                pairs: texts_of(pairs@),
            },
            Startup::Resolving { pairs, credentials, trades, cursor, skipped } => {
                StartupView::Resolving {
                    loaded: Loaded {
                        pairs: texts_of(pairs@),
                        wallet: credentials.wallet_bytes(),
                        key: credentials.key_text(),
                        trades: trades@,
                    },
                    cursor,
                    skipped,
                }
            },
            Startup::Ready { pairs, credentials, trades } => StartupView::Ready {
                loaded: Loaded {
                    pairs: texts_of(pairs@),
                    wallet: credentials.wallet_bytes(),
                    key: credentials.key_text(),
                    trades: trades@,
                },
            },
            Startup::Aborted(e) => StartupView::Aborted(e),
        }
    }
}

/// The end of the startup by the failure `e`.
pub open spec fn give_up(e: TradeError) -> (StartupView, StartupEffectView) {
    (StartupView::Aborted(e), StartupEffectView::Abort(e))
}

/// The resolution of the pair at `cursor`: its metadata is fetched. Behind
/// the last pair the startup is done.
pub open spec fn resolve_from(loaded: Loaded, cursor: usize) -> (StartupView, StartupEffectView) {
    if cursor >= loaded.pairs.len() {
        (StartupView::Ready { loaded }, StartupEffectView::Ready)
    } else {
        (
            StartupView::Resolving { loaded, cursor, skipped: false },
            StartupEffectView::Fetch(lookup_url_of(loaded.pairs[cursor as int])),
        )
    }
}

/// What a usable credential document loads, beside the pairs.
pub open spec fn loaded_from(pairs: Seq<Seq<char>>, document: Seq<char>) -> Loaded {
    Loaded {
        pairs,
        wallet: address_bytes(credential_texts_of(document)->Some_0.0)->Some_0,
        key: credential_texts_of(document)->Some_0.1,
        trades: Seq::empty(),
    }
}

/// The transition of the machine.
///
/// The pair document is read first, the credential document second, and the
/// pairs are resolved one by one after that. An input of a kind that the
/// state does not wait for ends the startup with a protocol error.
pub open spec fn startup_transition(state: StartupView, input: StartupInputView) -> (
    StartupView,
    StartupEffectView,
) {
    match state {
        StartupView::ReadingPairs => match input {
            StartupInputView::Document(Some(text)) => match pairs_of(text) {
                Some(pairs) => (
                    StartupView::ReadingCredentials { pairs },
                    StartupEffectView::Read(Document::Credentials),
                ),
                None => give_up(TradeError::ConfigError),
            },
            StartupInputView::Document(None) => give_up(TradeError::ConfigError),
            _ => give_up(TradeError::ProtocolError),
        },
        StartupView::ReadingCredentials { pairs } => match input {
            StartupInputView::Document(Some(text)) => if credentials_usable(text) {
                resolve_from(loaded_from(pairs, text), 0)
            } else {
                give_up(TradeError::ConfigError)
            },
            StartupInputView::Document(None) => give_up(TradeError::ConfigError),
            _ => give_up(TradeError::ProtocolError),
        },
        StartupView::Resolving { loaded, cursor, skipped } => match (skipped, input) {
            (false, StartupInputView::Answer(answer)) => if cursor < loaded.pairs.len() {
                let resolved = match answer {
                    Ok(text) => token_of(text),
                    Err(e) => Err(e),
                };
                match resolved {
                    Ok(token) => resolve_from(
                        Loaded { trades: loaded.trades.push(token), ..loaded },
                        (cursor + 1) as usize,
                    ),
                    Err(e) => (
                        StartupView::Resolving { loaded, cursor, skipped: true },
                        StartupEffectView::Skip(e),
                    ),
                }
            } else {
                give_up(TradeError::ProtocolError)
            },
            (true, StartupInputView::Continue) => if cursor < loaded.pairs.len() {
                resolve_from(loaded, (cursor + 1) as usize)
            } else {
                give_up(TradeError::ProtocolError)
            },
            _ => give_up(TradeError::ProtocolError),
        },
        StartupView::Ready { loaded } => (state, StartupEffectView::Ready),
        StartupView::Aborted(e) => give_up(e),
    }
}

/// Ends the startup by the failure `e`.
fn abandon(e: TradeError) -> (r: (Startup, StartupEffect))
    ensures
        (r.0@, r.1@) == give_up(e),
{
    (Startup::Aborted(e), StartupEffect::Abort(e))
}

/// Starts the resolution of the pair at `cursor`.
fn resolve(pairs: Vec<String>, credentials: Credentials, trades: TradeList, cursor: usize) -> (r: (
    Startup,
    StartupEffect,
))
    ensures
        (r.0@, r.1@) == resolve_from(
            Loaded {
                pairs: texts_of(pairs@),
                wallet: credentials.wallet_bytes(),
                key: credentials.key_text(),
                trades: trades@,
            },
            cursor,
        ),
{
    if cursor >= pairs.len() {
        (Startup::Ready { pairs, credentials, trades }, StartupEffect::Ready)
    } else {
        let url = pair_lookup_url(pairs[cursor].as_str());
        (
            Startup::Resolving { pairs, credentials, trades, cursor, skipped: false },
            StartupEffect::Fetch(url),
        )
    }
}

impl Startup {
    /// Begins the startup: the state to start from and the first document to
    /// read.
    pub fn start() -> (r: (Startup, StartupEffect))
        ensures
            r.0@ == StartupView::ReadingPairs,
            r.1@ == StartupEffectView::Read(Document::Pairs),
    {
        (Startup::ReadingPairs, StartupEffect::Read(Document::Pairs))
    }

    /// Takes one input and gives the state and the effect that follow.
    pub fn step(self, input: StartupInput) -> (r: (Startup, StartupEffect))
        ensures
            (r.0@, r.1@) == startup_transition(self@, input@),
    {
        match self {
            Startup::ReadingPairs => match input {
                StartupInput::Document(Some(text)) => match load_pairs(text.as_str()) {
                    Ok(pairs) => {
                        assert(texts_of(pairs@) =~= pairs_of(text@)->Some_0);
                        (
                            Startup::ReadingCredentials { pairs },
                            StartupEffect::Read(Document::Credentials),
                        )
                    },
                    Err(_) => abandon(TradeError::ConfigError),
                },
                StartupInput::Document(None) => abandon(TradeError::ConfigError),
                _ => abandon(TradeError::ProtocolError),
            },
            Startup::ReadingCredentials { pairs } => match input {
                StartupInput::Document(Some(text)) => match load_credentials(text.as_str()) {
                    Ok(credentials) => resolve(pairs, credentials, TradeList::new(), 0),
                    Err(_) => abandon(TradeError::ConfigError),
                },
                StartupInput::Document(None) => abandon(TradeError::ConfigError),
                _ => abandon(TradeError::ProtocolError),
            },
            Startup::Resolving { pairs, credentials, trades, cursor, skipped } => match (
                skipped,
                input,
            ) {
                (false, StartupInput::Answer(answer)) => {
                    if cursor < pairs.len() {
                        let mut trades = trades;
                        let resolved = match answer {
                            Ok(text) => trades.add_resolved(text.as_str()),
                            Err(e) => Err(e),
                        };
                        match resolved {
                            Ok(()) => resolve(pairs, credentials, trades, cursor + 1),
                            Err(e) => (
                                Startup::Resolving {
                                    pairs,
                                    credentials,
                                    trades,
                                    cursor,
                                    skipped: true,
                                },
                                StartupEffect::Skip(e),
                            ),
                        }
                    } else {
                        abandon(TradeError::ProtocolError)
                    }
                },
                (true, StartupInput::Continue) => {
                    if cursor < pairs.len() {
                        resolve(pairs, credentials, trades, cursor + 1)
                    } else {
                        abandon(TradeError::ProtocolError)
                    }
                },
                _ => abandon(TradeError::ProtocolError),
            },
            Startup::Ready { pairs, credentials, trades } => (
                Startup::Ready { pairs, credentials, trades },
                StartupEffect::Ready,
            ),
            Startup::Aborted(e) => abandon(e),
        }
    }
}

/// The state and the effect after a run of inputs from the start.
pub open spec fn startup_run(inputs: Seq<StartupInputView>) -> (StartupView, StartupEffectView)
    decreases inputs.len(),
{
    if inputs.len() == 0 {
        (StartupView::ReadingPairs, StartupEffectView::Read(Document::Pairs))
    } else {
        startup_transition(startup_run(inputs.drop_last()).0, inputs.last())
    }
}

/// Whether an input hands over a pair document that is well-formed.
pub open spec fn gives_pairs(input: StartupInputView) -> bool {
    &&& input is Document
    &&& input->Document_0 is Some
    &&& pairs_of(input->Document_0->Some_0) is Some
}

/// Whether an input hands over a credential document that can be used.
pub open spec fn gives_credentials(input: StartupInputView) -> bool {
    &&& input is Document
    &&& input->Document_0 is Some
    &&& credentials_usable(input->Document_0->Some_0)
}

/// What a state and an effect say of the inputs that led to them from the
/// start: how many documents have been read, and that they were
/// well-formed.
pub open spec fn documents_first(
    state: StartupView,
    effect: StartupEffectView,
    inputs: Seq<StartupInputView>,
) -> bool {
    &&& effect is Fetch ==> state is Resolving
    &&& effect is Skip ==> state is Resolving
    &&& match state {
        StartupView::ReadingPairs => inputs.len() == 0,
        StartupView::ReadingCredentials { pairs } => inputs.len() == 1 && gives_pairs(inputs[0]),
        StartupView::Resolving { loaded, cursor, skipped } => {
            &&& inputs.len() >= 2
            &&& gives_pairs(inputs[0])
            &&& gives_credentials(inputs[1])
        },
        StartupView::Ready { loaded } => {
            &&& inputs.len() >= 2
            &&& gives_pairs(inputs[0])
            &&& gives_credentials(inputs[1])
        },
        StartupView::Aborted(e) => true,
    }
}

/// A document that is missing or malformed ends the startup with a
/// configuration error, whichever of the two it is.
pub proof fn lemma_bad_document_aborts(state: StartupView, document: Option<Seq<char>>)
    requires
        state is ReadingPairs || state is ReadingCredentials,
        state is ReadingPairs ==> !gives_pairs(StartupInputView::Document(document)),
        state is ReadingCredentials ==> !gives_credentials(StartupInputView::Document(document)),
    ensures
        startup_transition(state, StartupInputView::Document(document)) == give_up(
            TradeError::ConfigError,
        ),
{
}

/// A startup that was ended stays ended: nothing is read or fetched after.
pub proof fn lemma_aborted_startup_stays(e: TradeError, input: StartupInputView)
    ensures
        startup_transition(StartupView::Aborted(e), input) == give_up(e),
{
}

/// The documents come first: whatever a run of inputs has led to, the
/// documents read before it were well-formed, and nothing is fetched or
/// skipped but while the pairs are resolved.
pub proof fn lemma_documents_first(inputs: Seq<StartupInputView>)
    ensures
        documents_first(startup_run(inputs).0, startup_run(inputs).1, inputs),
    decreases inputs.len(),
{
    if inputs.len() > 0 {
        let shorter = inputs.drop_last();
        lemma_documents_first(shorter);
        assert forall|k: int| 0 <= k < shorter.len() implies shorter[k] == inputs[k] by {}
    }
}

/// Nothing is fetched before both documents have been read and found
/// well-formed: a run of inputs that ends in a fetch began with a
/// well-formed pair document and a usable credential document.
pub proof fn lemma_fetch_needs_both_documents(inputs: Seq<StartupInputView>)
    requires
        startup_run(inputs).1 is Fetch,
    ensures
        inputs.len() >= 2,
        gives_pairs(inputs[0]),
        gives_credentials(inputs[1]),
{
    lemma_documents_first(inputs);
}

} // verus!
