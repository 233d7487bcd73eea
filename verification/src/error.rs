//! Failures, and what contracts say of them.

use vstd::prelude::*;

verus! {

/// Why a command was not carried out.
#[derive(Debug, PartialEq, Eq)]
pub enum ExecuteError {
    /// The command's own fields are unusable.
    Invalid(&'static str),
    /// The command conflicts with recorded state or policy.
    Rejected(String),
    /// The command names something that is not recorded.
    NotFound,
    /// The daemon could not complete its own part.
    Internal,
    /// Other work occupies the daemon.
    Busy,
}

/// What an [`ExecuteError`] says.
pub enum Refusal {
    Invalid(Seq<char>),
    Rejected(Seq<char>),
    NotFound,
    Internal,
    Busy,
}

impl View for ExecuteError {
    type V = Refusal;

    open spec fn view(&self) -> Refusal {
        match self {
            ExecuteError::Invalid(message) => Refusal::Invalid(message@),
            ExecuteError::Rejected(message) => Refusal::Rejected(message@),
            ExecuteError::NotFound => Refusal::NotFound,
            ExecuteError::Internal => Refusal::Internal,
            ExecuteError::Busy => Refusal::Busy,
        }
    }
}

/// The result of a command with its error taken by what it says.
pub open spec fn outcome<T>(result: Result<T, ExecuteError>) -> Result<T, Refusal> {
    match result {
        Ok(value) => Ok(value),
        Err(error) => Err(error@),
    }
}

/// Why recorded history or stored state was not accepted.
#[derive(Debug, PartialEq, Eq)]
pub enum ControlError {
    /// History does not project to a valid state.
    Projection(String),
    /// A stored value breaks its protocol.
    Protocol(&'static str),
    /// A payload does not decode.
    Serialization,
    /// A content address does not parse.
    Artifact,
}

/// What a [`ControlError`] says.
pub enum Fault {
    Projection(Seq<char>),
    Protocol(Seq<char>),
    Serialization,
    Artifact,
}

impl View for ControlError {
    type V = Fault;

    open spec fn view(&self) -> Fault {
        match self {
            ControlError::Projection(message) => Fault::Projection(message@),
            ControlError::Protocol(message) => Fault::Protocol(message@),
            ControlError::Serialization => Fault::Serialization,
            ControlError::Artifact => Fault::Artifact,
        }
    }
}

/// The result of a check with its error taken by what it says.
pub open spec fn verdict<T>(result: Result<T, ControlError>) -> Result<T, Fault> {
    match result {
        Ok(value) => Ok(value),
        Err(error) => Err(error@),
    }
}

/// The fault that a broken rule leads to.
pub open spec fn need<T>(kept: bool, fault: T) -> Option<T> {
    if kept {
        None
    } else {
        Some(fault)
    }
}

/// The earlier of two faults.
pub open spec fn first<T>(a: Option<T>, b: Option<T>) -> Option<T> {
    if a is Some {
        a
    } else {
        b
    }
}

/// The verdict that a fault leads to.
pub open spec fn faulted(fault: Option<Fault>) -> Result<(), Fault> {
    match fault {
        None => Ok(()),
        Some(fault) => Err(fault),
    }
}

/// A refusal on account of recorded state or policy.
pub fn rejected(message: &str) -> (result: ExecuteError)
    ensures
        result@ == Refusal::Rejected(message@),
{
    ExecuteError::Rejected(message.to_owned())
}

/// A fault in projected history.
pub fn projection(message: &str) -> (result: ControlError)
    ensures
        result@ == Fault::Projection(message@),
{
    ControlError::Projection(message.to_owned())
}

} // verus!
