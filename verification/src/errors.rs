//! The error type shared by every part of the library.
use vstd::prelude::*;

verus! {

/// Errors reported by frame parsing, address handling, datapoint coding
/// and the connections.
#[derive(Debug, Clone, PartialEq, Eq)]
pub enum KnxError {
    /// An address string or buffer that does not have a valid layout.
    InvalidKnxAddressException(String),
    /// Malformed frame, value out of range, or parameters that do not
    /// fit the requested datapoint type.
    InvalidParametersForDpt,
    /// The datapoint type is unknown.
    DPTNotFound,
    /// A connection timed out.
    Timeout,
    /// An input/output failure, with its description.
    Io(String),
    /// The peer closed the connection.
    ConnectionClosed,
    /// A protocol failure, with its description.
    Protocol(String),
}

impl KnxError {
    /// The human-readable message of the error.
    pub fn message(&self) -> (s: String)
        ensures
            s@ == self.message_spec(),
    {
        let mut s = String::new();
        match self {
            KnxError::InvalidKnxAddressException(a) => {
                crate::utils::text::push_str(&mut s, "Invalid address: ");
                crate::utils::text::push_str(&mut s, a.as_str());
                crate::utils::text::push_str(&mut s, ". Incorrect format.");
            },
            KnxError::InvalidParametersForDpt => {
                crate::utils::text::push_str(
                    &mut s,
                    "The object does not contain valid parameters to encode the dpt",
                );
            },
            KnxError::DPTNotFound => {
                crate::utils::text::push_str(
                    &mut s,
                    "This DPT is not available for encoding or decoding, or it does not exist.",
                );
            },
            KnxError::Timeout => {
                crate::utils::text::push_str(&mut s, "Connection timeout");
            },
            KnxError::Io(e) => {
                crate::utils::text::push_str(&mut s, "IO error: ");
                crate::utils::text::push_str(&mut s, e.as_str());
            },
            KnxError::ConnectionClosed => {
                crate::utils::text::push_str(&mut s, "Connection closed by peer");
            },
            KnxError::Protocol(e) => {
                crate::utils::text::push_str(&mut s, "Protocol error: ");
                crate::utils::text::push_str(&mut s, e.as_str());
            },
        }
        assert(s@ =~= self.message_spec());
        s
    }

    /// The message text of each error.
    pub open spec fn message_spec(&self) -> Seq<char> {
        match self {
            KnxError::InvalidKnxAddressException(a) => "Invalid address: "@ + a@
                + ". Incorrect format."@,
            KnxError::InvalidParametersForDpt => "The object does not contain valid parameters to encode the dpt"@,
            KnxError::DPTNotFound => "This DPT is not available for encoding or decoding, or it does not exist."@,
            KnxError::Timeout => "Connection timeout"@,
            KnxError::Io(e) => "IO error: "@ + e@,
            KnxError::ConnectionClosed => "Connection closed by peer"@,
            KnxError::Protocol(e) => "Protocol error: "@ + e@,
        }
    }
}

} // verus!
