//! The error taxonomy of the dispatch pipeline.  Validation errors name the
//! offending parameter; an unmatched command path names the attempted path;
//! transport and contract errors are opaque messages surfaced from the
//! external RPC client.

use vstd::prelude::*;

verus! {

/// The outcome of a failed invocation.  Exactly one error is produced per
/// failed invocation, before any network call for the validation variants.
#[derive(Clone, Debug, PartialEq, Eq)]
pub enum Error {
    /// A malformed address, hex string, number or boolean.
    InvalidFormat { param: String },
    /// A malformed private key.
    InvalidKey { param: String },
    /// A block height that is neither "latest" nor a decimal number.
    InvalidHeight { param: String },
    /// A required parameter that the invocation did not supply.
    MissingRequiredParameter { param: String },
    /// A (group, operation) path that matches no registered command.
    UnknownCommand { group: String, operation: String },
    /// An opaque failure of the RPC transport.
    Transport { message: String },
    /// An opaque failure of the contract call itself.
    Contract { message: String },
}

/// The mathematical shape of an [`Error`], over the bytes of its strings.
pub enum ErrorS {
    InvalidFormat { param: Seq<u8> },
    InvalidKey { param: Seq<u8> },
    InvalidHeight { param: Seq<u8> },
    MissingRequiredParameter { param: Seq<u8> },
    UnknownCommand { group: Seq<u8>, operation: Seq<u8> },
    Transport { message: Seq<u8> },
    Contract { message: Seq<u8> },
}

pub open spec fn string_bytes(s: String) -> Seq<u8> {
    vstd::utf8::encode_utf8(s@)
}

pub open spec fn strings_bytes(s: Seq<String>) -> Seq<Seq<u8>> {
    s.map(|i: int, x: String| string_bytes(x))
}

impl View for Error {
    type V = ErrorS;

    open spec fn view(&self) -> ErrorS {
        match self {
            Error::InvalidFormat { param } => ErrorS::InvalidFormat {
                param: string_bytes(*param),
            },
            Error::InvalidKey { param } => ErrorS::InvalidKey { param: string_bytes(*param) },
            Error::InvalidHeight { param } => ErrorS::InvalidHeight {
                param: string_bytes(*param),
            },
            Error::MissingRequiredParameter { param } => ErrorS::MissingRequiredParameter {
                param: string_bytes(*param),
            },
            Error::UnknownCommand { group, operation } => ErrorS::UnknownCommand {
                group: string_bytes(*group),
                operation: string_bytes(*operation),
            },
            Error::Transport { message } => ErrorS::Transport {
                message: string_bytes(*message),
            },
            Error::Contract { message } => ErrorS::Contract {
                message: string_bytes(*message),
            },
        }
    }
}

} // verus!
