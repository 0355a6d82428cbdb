//! The result reporter: normalizes the outcome of any dispatch into a
//! single success/failure shape, and records a success as the session's
//! "last output" for later commands of the same interactive session.

use vstd::prelude::*;

verus! {

use crate::errors::{string_bytes, Error};

/// The outcome of one facade call.
#[derive(Clone, Debug, PartialEq, Eq)]
pub enum OperationResult {
    /// The decoded value of a read-only query.
    Query(String),
    /// The acknowledgment of a submitted transaction.
    TxReceipt(String),
    /// A validation, transport or contract failure.
    Failure(Error),
}

/// Session state threaded through sequential commands: the payload of the
/// last successful call, overwritten by each new success.
#[derive(Clone, Debug, PartialEq, Eq)]
pub struct Session {
    pub last_output: Option<String>,
}

/// The mathematical shape of a [`Session`].
pub struct SessionS {
    pub last_output: Option<Seq<u8>>,
}

impl View for Session {
    type V = SessionS;

    open spec fn view(&self) -> SessionS {
        SessionS {
            last_output: match self.last_output {
                Some(p) => Some(string_bytes(p)),
                None => None,
            },
        }
    }
}

impl Session {
    /// A fresh session with no recorded output.
    pub fn new() -> (r: Session)
        ensures
            r.last_output is None,
    {
        Session { last_output: None }
    }
}

/// Normalizes an outcome: a success yields its payload and records it as
/// the session's last output, overwriting the previous one; a failure
/// yields exactly one error and leaves the session untouched.
pub fn report(result: OperationResult, session: &mut Session) -> (r: Result<String, Error>)
    ensures
        match result {
            OperationResult::Query(p) => r == Ok::<String, Error>(p) && final(session)@
                .last_output == Some(string_bytes(p)),
            OperationResult::TxReceipt(p) => r == Ok::<String, Error>(p) && final(session)@
                .last_output == Some(string_bytes(p)),
            OperationResult::Failure(e) => r == Err::<String, Error>(e) && *final(session)
                == *old(session),
        },
{
    match result {
        OperationResult::Query(p) => {
            session.last_output = Some(p.clone());
            Ok(p)
        },
        OperationResult::TxReceipt(p) => {
            session.last_output = Some(p.clone());
            Ok(p)
        },
        OperationResult::Failure(e) => Err(e),
    }
}

} // verus!
