//! Error types of the library.

use vstd::prelude::*;

verus! {

/// Errors raised while turning a server packet into events.
#[derive(Debug)]
pub enum EventError {
    UnsupportedEvent(String),
    InternalWarning(String),
    OtherError(String),
}

/// Errors raised while resolving a packet into an event.
#[derive(Debug)]
pub enum ParseEventError {
    UnsupportedEvent(String),
    InvalidPacketHeader,
    InvalidPacketEnd,
    UnsupportedTransEmp(u16),
    MissingTlv(u16),
    UnknownRetCode(i32),
}

/// Errors of the business layer.
#[derive(Debug)]
pub enum BusinessError {
    NetworkError(String),
    InvalidServerResponse(String),
    GenericError(String),
    InternalEventError(EventError),
    InternalEventDowncastError,
    HighWayError(String),
}

/// Errors of the client.
#[derive(Debug)]
pub enum ManiaError {
    NetworkError(String),
    GenericError(String),
    InternalEventDowncastError,
    InternalBusinessError(BusinessError),
}

/// An `OtherError` whose message is `msg`.
pub open spec fn other_error(e: EventError, msg: Seq<char>) -> bool {
    e matches EventError::OtherError(m) && m@ == msg
}

/// A `GenericError` whose message is `msg`.
pub open spec fn generic_error(e: ManiaError, msg: Seq<char>) -> bool {
    e matches ManiaError::GenericError(m) && m@ == msg
}

} // verus!
