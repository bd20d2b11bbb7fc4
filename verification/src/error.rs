//! What can go wrong with a check, short of sending and receiving.

use vstd::prelude::*;
use crate::rpser::RpcError;
use crate::rpser::xml;

verus! {

/// The ways in which a check of counterparties fails.
#[derive(Debug)]
pub enum Error {
    /// More counterparties were handed in than one request may hold.
    TooManyRecords,
    /// The service answered with a message of its own.
    FnsError(String),
    /// The reply could not be taken apart.
    RpcError(RpcError),
    /// The reply's tree does not hold what was looked for.
    XmlError(xml::Error),
    /// A status in the reply is not a number.
    ParseIntError(std::num::ParseIntError),
    /// A date in the reply is not a date.
    ParseDateTimeError(chrono::ParseError),
}

impl From<RpcError> for Error {
    fn from(other: RpcError) -> (r: Error) {
        Error::RpcError(other)
    }
}

impl vstd::std_specs::convert::FromSpecImpl<RpcError> for Error {
    open spec fn obeys_from_spec() -> bool {
        true
    }

    open spec fn from_spec(other: RpcError) -> Error {
        Error::RpcError(other)
    }
}

impl From<xml::Error> for Error {
    fn from(other: xml::Error) -> (r: Error) {
        Error::XmlError(other)
    }
}

impl vstd::std_specs::convert::FromSpecImpl<xml::Error> for Error {
    open spec fn obeys_from_spec() -> bool {
        true
    }

    open spec fn from_spec(other: xml::Error) -> Error {
        Error::XmlError(other)
    }
}

impl From<std::num::ParseIntError> for Error {
    fn from(other: std::num::ParseIntError) -> (r: Error) {
        Error::ParseIntError(other)
    }
}

impl vstd::std_specs::convert::FromSpecImpl<std::num::ParseIntError> for Error {
    open spec fn obeys_from_spec() -> bool {
        true
    }

    open spec fn from_spec(other: std::num::ParseIntError) -> Error {
        Error::ParseIntError(other)
    }
}

impl From<chrono::ParseError> for Error {
    fn from(other: chrono::ParseError) -> (r: Error) {
        Error::ParseDateTimeError(other)
    }
}

impl vstd::std_specs::convert::FromSpecImpl<chrono::ParseError> for Error {
    open spec fn obeys_from_spec() -> bool {
        true
    }

    open spec fn from_spec(other: chrono::ParseError) -> Error {
        Error::ParseDateTimeError(other)
    }
}

} // verus!
