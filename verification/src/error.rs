//! Errors of the protocol layer.
use vstd::prelude::*;

verus! {

/// Why a value read off the wire was refused.
#[derive(Debug, Clone, Copy, PartialEq, Eq, Structural)]
pub enum DecodeError {
    /// The payload is too short, or holds a value outside what its type admits.
    MalformedPayload,
}

/// Why a request could not be handed to an object.
#[derive(Debug, Clone, Copy, PartialEq, Eq, Structural)]
pub enum Error {
    /// The interface has no request with this opcode.
    UnknownOpcode(u16),
    /// The arguments of the request could not be decoded.
    MalformedPayload,
}

} // verus!
