//! Clients can handle the 'done' event to get notified when
//! the related request is done.
//!
//! The `wl_callback` interface, version 1: decoding of its
//! requests and encoding of its events.
use crate::codec::{Arg, ArgValue, carries, encode_message, views};
use crate::error::Error as RequestError;
use crate::wire::{message_opcode, opcode_of, pending_fds};
use vstd::prelude::*;
use waynest::wire::Message;

verus! {

/// The name of the interface.
pub const INTERFACE: &'static str = "wl_callback";

/// The version of the interface that is implemented.
pub const VERSION: u32 = 1;

/// Refuses the request a message carries for a `wl_callback` object: the
/// interface has no requests, so every opcode is unknown.
pub fn handle_request(message: &Message) -> (r: RequestError)
    ensures
        r == RequestError::UnknownOpcode(message_opcode(*message)),
{
    RequestError::UnknownOpcode(opcode_of(message))
}

/// Notify the client when the related request is done.
///
/// The message of this event, from the object `object`.
pub fn done(object: u32, callback_data: u32) -> (m: Message)
    requires
        object != 0,
    ensures
        carries(m, object, 0, seq![ArgValue::Uint(callback_data)]),
        pending_fds(m) == Seq::<i32>::empty(),
{
    let args = vec![Arg::Uint(callback_data)];
    assert(views(args@) =~= seq![ArgValue::Uint(callback_data)]);
    encode_message(object, 0, &args)
}

} // verus!
