//! The failure taxonomy shared by every component.

use vstd::prelude::*;
use vstd::string::*;

verus! {

/// Why an operation could not be carried out.
#[derive(Clone, Copy, Debug, PartialEq, Eq, Structural)]
pub enum TradeError {
    /// A local configuration or credential document is missing or malformed.
    /// Ends the process before any trading.
    ConfigError,
    /// The user typed something that is not an accepted entry.
    /// Ends the action at hand.
    InvalidInput,
    /// A remote service could not be reached or answered with a failure.
    /// Ends the swap of the pair at hand.
    UpstreamError,
    /// A remote service answered, but not in the expected shape.
    /// Ends the swap of the pair at hand.
    ProtocolError,
    /// The credential could not be used to sign.
    /// Ends the swap of the pair at hand.
    SigningError,
}

impl TradeError {
    /// Whether a failure of this class ends the whole process rather than the
    /// action or pair at hand.
    pub open spec fn is_fatal(self) -> bool {
        self == TradeError::ConfigError
    }

    /// The text shown to the user for a failure of this class.
    pub open spec fn message_text(self) -> Seq<char> {
        match self {
            TradeError::ConfigError => "configuration error: a local document is missing or malformed"@,
            TradeError::InvalidInput => "invalid input: the entry was not understood"@,
            TradeError::UpstreamError => "upstream error: a remote service failed"@,
            TradeError::ProtocolError => "protocol error: a remote service answered in an unexpected shape"@,
            TradeError::SigningError => "signing error: the credential could not be used"@,
        }
    }

    /// Executable form of [`TradeError::is_fatal`].
    pub fn fatal(self) -> (r: bool)
        ensures
            r == self.is_fatal(),
    {
        match self {
            TradeError::ConfigError => true,
            _ => false,
        }
    }

    /// The human-readable message of this failure; no failure is silent.
    pub fn message(self) -> (r: String)
        ensures
            r@ == self.message_text(),
    {
        match self {
            TradeError::ConfigError => String::from_str(
                "configuration error: a local document is missing or malformed",
            ),
            TradeError::InvalidInput => String::from_str(
                "invalid input: the entry was not understood",
            ),
            TradeError::UpstreamError => String::from_str("upstream error: a remote service failed"),
            TradeError::ProtocolError => String::from_str(
                "protocol error: a remote service answered in an unexpected shape",
            ),
            TradeError::SigningError => String::from_str(
                "signing error: the credential could not be used",
            ),
        }
    }
}

} // verus!
