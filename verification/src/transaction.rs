//! From the bytes of a built transaction to a signed one.
//!
//! The transaction is decoded, its anchor is replaced by the one fetched a
//! moment ago, and only then is it signed: the time between quote and
//! submission can exceed the validity of the anchor that the build step put
//! in. The decoding, the keys and the signature are `bincode`'s and
//! `solana_sdk`'s; what is decided here is the order of the steps and the
//! failure that each one gives.

use crate::error::TradeError;
use solana_sdk::signature::Keypair;
use solana_sdk::transaction::VersionedTransaction;
use vstd::prelude::*;

verus! {

/// A transaction of the ledger, opaque to the verifier.
#[verifier::external_type_specification]
#[verifier::external_body]
pub struct ExVersionedTransaction(VersionedTransaction);

/// A signing key pair, opaque to the verifier.
#[verifier::external_type_specification]
#[verifier::external_body]
pub struct ExKeypair(Keypair);

/// The error of `bincode`, carried through unread.
#[verifier::external_type_specification]
#[verifier::external_body]
pub struct ExBincodeErrorKind(bincode::ErrorKind);

/// The error of the base58 decoder, carried through unread.
#[verifier::external_type_specification]
#[verifier::external_body]
pub struct ExBase58Error(solana_sdk::bs58::decode::Error);

/// The error of the signer, carried through unread.
#[verifier::external_type_specification]
#[verifier::external_body]
pub struct ExSignerError(solana_sdk::signer::SignerError);

/// The transaction that `bincode::deserialize` reads out of bytes, or `None`
/// where it rejects them.
pub uninterp spec fn decoded_transaction(raw: Seq<u8>) -> Option<VersionedTransaction>;

/// The anchor of a transaction: the 32 bytes of its message's recent block
/// hash.
pub uninterp spec fn anchor_of(transaction: VersionedTransaction) -> Seq<u8>;

/// The transaction with its anchor replaced, as
/// `VersionedMessage::set_recent_blockhash` leaves it.
pub uninterp spec fn with_anchor(
    transaction: VersionedTransaction,
    anchor: Seq<u8>,
) -> VersionedTransaction;

/// The bytes that the base58 decoder of `bs58` reads out of a text, or `None`
/// where it rejects the text.
pub uninterp spec fn base58_bytes(text: Seq<char>) -> Option<Seq<u8>>;

/// The key pair that `Keypair::try_from` makes of bytes, or `None` where it
/// rejects them.
pub uninterp spec fn keypair_of(bytes: Seq<u8>) -> Option<Keypair>;

/// The transaction that `VersionedTransaction::try_new` makes of a
/// transaction's message and one key pair, or `None` where it refuses.
pub uninterp spec fn signed_by(
    transaction: VersionedTransaction,
    keypair: Keypair,
) -> Option<VersionedTransaction>;

/// Calls `bincode::deserialize` for a `VersionedTransaction`. The contract
/// only names the outcome.
#[verifier::external_body]
fn decode(raw: &[u8]) -> (r: Result<VersionedTransaction, Box<bincode::ErrorKind>>)
    ensures
        r is Ok <==> decoded_transaction(raw@) is Some,
        r is Ok ==> r->Ok_0 == decoded_transaction(raw@)->Some_0,
{
    bincode::deserialize(raw)
}

/// Calls `VersionedMessage::set_recent_blockhash` on the transaction's
/// message, which assigns the message's recent block hash and nothing else.
/// The contract names the transaction that results and says that its anchor
/// is the one given.
#[verifier::external_body]
fn set_anchor(transaction: &mut VersionedTransaction, anchor: &[u8; 32])
    ensures
        *final(transaction) == with_anchor(*old(transaction), anchor@),
        anchor_of(*final(transaction)) == anchor@,
{
    transaction.message.set_recent_blockhash(solana_sdk::hash::Hash::new_from_array(*anchor));
}

/// Calls `VersionedMessage::recent_blockhash` on the transaction's message
/// and hands out its bytes.
#[verifier::external_body]
fn read_anchor(transaction: &VersionedTransaction) -> (r: [u8; 32])
    ensures
        r@ == anchor_of(*transaction),
{
    transaction.message.recent_blockhash().to_bytes()
}

/// Calls the base58 decoder that `solana_sdk` re-exports. The contract only
/// names the outcome.
#[verifier::external_body]
fn decode_base58(text: &str) -> (r: Result<Vec<u8>, solana_sdk::bs58::decode::Error>)
    ensures
        r is Ok <==> base58_bytes(text@) is Some,
        r is Ok ==> r->Ok_0@ == base58_bytes(text@)->Some_0,
{
    solana_sdk::bs58::decode(text).into_vec()
}

/// Calls `Keypair::try_from` on a slice of bytes and drops the error, whose
/// type `solana_sdk` does not hand out. The contract only names the outcome.
#[verifier::external_body]
fn make_keypair(bytes: &[u8]) -> (r: Option<Keypair>)
    ensures
        r == keypair_of(bytes@),
{
    Keypair::try_from(bytes).ok()
}

/// Calls `VersionedTransaction::try_new` with the transaction's message and
/// the one key pair. The contract names the outcome and says that the
/// signed transaction keeps the anchor: the outside function hands the
/// message on as it got it. That function serializes the message and would
/// panic if that failed; a message that was decoded from bytes serializes.
#[verifier::external_body]
fn sign(transaction: VersionedTransaction, keypair: &Keypair) -> (r: Result<
    VersionedTransaction,
    solana_sdk::signer::SignerError,
>)
    ensures
        r is Ok <==> signed_by(transaction, *keypair) is Some,
        r is Ok ==> r->Ok_0 == signed_by(transaction, *keypair)->Some_0,
        r is Ok ==> anchor_of(r->Ok_0) == anchor_of(transaction),
{
    VersionedTransaction::try_new(transaction.message, &[keypair])
}

/// The key pair that a credential text stands for: the text is base58 for
/// exactly 64 bytes, and the bytes are a key pair.
pub open spec fn credential_keypair(credential: Seq<char>) -> Option<Keypair> {
    match base58_bytes(credential) {
        Some(bytes) => if bytes.len() == 64 {
            keypair_of(bytes)
        } else {
            None
        },
        None => None,
    }
}

/// What anchoring and signing makes of a decoded transaction: the
/// transaction with the fetched anchor, signed with the credential's key
/// pair. A malformed credential, or one that the signer refuses, is a
/// signing error.
pub open spec fn anchored_and_signed(
    transaction: VersionedTransaction,
    anchor: Seq<u8>,
    credential: Seq<char>,
) -> Result<VersionedTransaction, TradeError> {
    match credential_keypair(credential) {
        Some(keypair) => match signed_by(with_anchor(transaction, anchor), keypair) {
            Some(signed) => Ok(signed),
            None => Err(TradeError::SigningError),
        },
        None => Err(TradeError::SigningError),
    }
}

/// What finalizing makes of the bytes of a built transaction. Bytes that do
/// not decode are not the expected shape; the rest is
/// [`anchored_and_signed`].
pub open spec fn finalized(raw: Seq<u8>, anchor: Seq<u8>, credential: Seq<char>) -> Result<
    VersionedTransaction,
    TradeError,
> {
    match decoded_transaction(raw) {
        Some(transaction) => anchored_and_signed(transaction, anchor, credential),
        None => Err(TradeError::ProtocolError),
    }
}

/// A decoded transaction that has not been signed. Its anchor is the one that
/// the build step put in, which may be stale.
pub struct UnsignedTransaction {
    inner: VersionedTransaction,
}

/// A transaction that carries a fresh anchor and a signature. Nothing changes
/// it any more.
pub struct SignedTransaction {
    inner: VersionedTransaction,
}

impl View for UnsignedTransaction {
    type V = VersionedTransaction;

    closed spec fn view(&self) -> VersionedTransaction {
        self.inner
    }
}

impl View for SignedTransaction {
    type V = VersionedTransaction;

    closed spec fn view(&self) -> VersionedTransaction {
        self.inner
    }
}

/// Reads the key pair out of a credential text.
fn read_keypair(credential: &str) -> (r: Option<Keypair>)
    ensures
        r == credential_keypair(credential@),
{
    match decode_base58(credential) {
        Ok(bytes) => {
            if bytes.len() != 64 {
                return None;
            }
            make_keypair(bytes.as_slice())
        },
        Err(_) => None,
    }
}

impl UnsignedTransaction {
    /// Decodes the bytes of a built transaction. Bytes that do not decode are
    /// a malformed transaction.
    pub fn decode(raw: &[u8]) -> (r: Result<UnsignedTransaction, TradeError>)
        ensures
            match decoded_transaction(raw@) {
                Some(transaction) => r is Ok && r->Ok_0@ == transaction,
                None => r is Err && r->Err_0 == TradeError::ProtocolError,
            },
    {
        match decode(raw) {
            Ok(inner) => Ok(UnsignedTransaction { inner }),
            Err(_) => Err(TradeError::ProtocolError),
        }
    }

    /// The anchor that the transaction carries.
    pub fn anchor(&self) -> (r: [u8; 32])
        ensures
            r@ == anchor_of(self@),
    {
        read_anchor(&self.inner)
    }

    /// Replaces the anchor by the one just fetched, then signs with the
    /// credential. A transaction that comes out carries the fetched anchor.
    pub fn anchor_and_sign(self, anchor: &[u8; 32], credential: &str) -> (r: Result<
        SignedTransaction,
        TradeError,
    >)
        ensures
            match anchored_and_signed(self@, anchor@, credential@) {
                Ok(signed) => r is Ok && r->Ok_0@ == signed,
                Err(e) => r is Err && r->Err_0 == e,
            },
            r is Ok ==> anchor_of(r->Ok_0@) == anchor@,
    {
        let mut inner = self.inner;
        set_anchor(&mut inner, anchor);
        let keypair = match read_keypair(credential) {
            Some(keypair) => keypair,
            None => {
                return Err(TradeError::SigningError);
            },
        };
        match sign(inner, &keypair) {
            Ok(signed) => Ok(SignedTransaction { inner: signed }),
            Err(_) => Err(TradeError::SigningError),
        }
    }
}

impl SignedTransaction {
    /// The anchor that the transaction was signed with.
    pub fn anchor(&self) -> (r: [u8; 32])
        ensures
            r@ == anchor_of(self@),
    {
        read_anchor(&self.inner)
    }

    /// The transaction as the ledger's client takes it.
    pub fn transaction(&self) -> (r: &VersionedTransaction)
        ensures
            *r == self@,
    {
        &self.inner
    }
}

/// Decodes, anchors and signs in one go, for a caller that holds the fetched
/// anchor already.
pub fn finalize(raw: &[u8], anchor: &[u8; 32], credential: &str) -> (r: Result<
    SignedTransaction,
    TradeError,
>)
    ensures
        match finalized(raw@, anchor@, credential@) {
            Ok(signed) => r is Ok && r->Ok_0@ == signed,
            Err(e) => r is Err && r->Err_0 == e,
        },
        r is Ok ==> anchor_of(r->Ok_0@) == anchor@,
{
    match UnsignedTransaction::decode(raw) {
        Ok(transaction) => transaction.anchor_and_sign(anchor, credential),
        Err(e) => Err(e),
    }
}

} // verus!
