//! The core global object.  This is a special singleton object.  It
//! is used for internal Wayland protocol features.
//!
//! The `wl_display` interface, version 1: decoding of its
//! requests and encoding of its events.
use crate::codec::{
    Arg, ArgKind, ArgValue, all_fit_wire, carries, encode_message, kind_of, kinds_of,
    lemma_kinds_of, read_args, spec_read_args, take_object, views,
};
use crate::error::DecodeError;
use crate::error::Error as RequestError;
use crate::wire::{Cursor, cursor_of, message_opcode, opcode_of, pending_fds, same_header};
use vstd::prelude::*;
use waynest::wire::Message;

verus! {

/// The name of the interface.
pub const INTERFACE: &'static str = "wl_display";

/// The version of the interface that is implemented.
pub const VERSION: u32 = 1;

/// These errors are global and can be emitted in response to any
/// server request.
#[derive(Debug, PartialEq, Eq, PartialOrd, Ord, Hash, Clone, Copy)]
pub enum Error {
    /// Server couldn't find object
    InvalidObject,
    /// Method doesn't exist on the specified interface or malformed request
    InvalidMethod,
    /// Server is out of memory
    NoMemory,
    /// Implementation error in compositor
    Implementation,
}

impl Error {
    /// The word that stands for this value on the wire.
    pub open spec fn wire_value(self) -> u32 {
        match self {
            Error::InvalidObject => 0,
            Error::InvalidMethod => 1,
            Error::NoMemory => 2,
            Error::Implementation => 3,
        }
    }

    /// The value a word stands for, if any.
    pub open spec fn from_wire(v: u32) -> Result<Self, DecodeError> {
        match v {
            0 => Ok(Error::InvalidObject),
            1 => Ok(Error::InvalidMethod),
            2 => Ok(Error::NoMemory),
            3 => Ok(Error::Implementation),
            _ => Err(DecodeError::MalformedPayload),
        }
    }

    /// The word that stands for this value on the wire.
    pub fn to_wire(self) -> (r: u32)
        ensures
            r == self.wire_value(),
    {
        match self {
            Error::InvalidObject => 0,
            Error::InvalidMethod => 1,
            Error::NoMemory => 2,
            Error::Implementation => 3,
        }
    }

    /// A value read back from its word is that value, and a word that reads
    /// as a value is that value's word.
    pub proof fn lemma_wire_roundtrip(self, v: u32)
        ensures
            Self::from_wire(self.wire_value()) == Ok::<Self, DecodeError>(self),
            Self::from_wire(v) matches Ok(e) ==> e.wire_value() == v,
    {
    }

    /// The words the protocol gives the values of this enumeration.
    pub proof fn lemma_protocol_values()
        ensures
            Error::InvalidObject.wire_value() == 0,
            Error::InvalidMethod.wire_value() == 1,
            Error::NoMemory.wire_value() == 2,
            Error::Implementation.wire_value() == 3,
            Self::from_wire(0) == Ok::<Self, DecodeError>(Error::InvalidObject),
            Self::from_wire(1) == Ok::<Self, DecodeError>(Error::InvalidMethod),
            Self::from_wire(2) == Ok::<Self, DecodeError>(Error::NoMemory),
            Self::from_wire(3) == Ok::<Self, DecodeError>(Error::Implementation),
    {
    }
}

impl TryFrom<u32> for Error {
    type Error = DecodeError;

    fn try_from(v: u32) -> (r: Result<Self, DecodeError>) {
        match v {
            0 => Ok(Error::InvalidObject),
            1 => Ok(Error::InvalidMethod),
            2 => Ok(Error::NoMemory),
            3 => Ok(Error::Implementation),
            _ => Err(DecodeError::MalformedPayload),
        }
    }
}

impl vstd::std_specs::convert::TryFromSpecImpl<u32> for Error {
    open spec fn obeys_try_from_spec() -> bool {
        true
    }

    open spec fn try_from_spec(v: u32) -> Result<Self, DecodeError> {
        Self::from_wire(v)
    }
}

/// A request of `wl_display`, decoded from the wire.
#[derive(Debug)]
pub enum Request {
    /// The sync request asks the server to emit the 'done' event
    /// on the returned wl_callback object.  Since requests are
    /// handled in-order and events are delivered in-order, this can
    /// be used as a barrier to ensure all previous requests and the
    /// resulting events have been handled.
    Sync {
        callback: u32,
    },
    /// This request creates a registry object that allows the client
    /// to list and bind the global objects available from the
    /// compositor.
    GetRegistry {
        registry: u32,
    },
}

/// The kinds of the arguments of the request with opcode `opcode`.
pub open spec fn request_signature(opcode: u16) -> Option<Seq<ArgKind>> {
    match opcode {
        0 => Some(seq![ArgKind::Object]),
        1 => Some(seq![ArgKind::Object]),
        _ => None,
    }
}

/// Whether decoded arguments hold, where the request takes an enumeration or
/// a bit set, a word that stands for one.
pub open spec fn request_args_valid(opcode: u16, vals: Seq<ArgValue>) -> bool {
    true
}

/// Whether `req` is the request with opcode `opcode` and arguments `vals`.
pub open spec fn request_fits(req: Request, opcode: u16, vals: Seq<ArgValue>) -> bool {
    match req {
        Request::Sync { callback } => {
            &&& opcode == 0
            &&& vals == seq![ArgValue::Object(callback)]
        },
        Request::GetRegistry { registry } => {
            &&& opcode == 1
            &&& vals == seq![ArgValue::Object(registry)]
        },
    }
}

/// What decoding a request with opcode `opcode` from the payload and file
/// descriptors of `c` gives.
pub open spec fn request_outcome(opcode: u16, c: Cursor, r: Result<Request, RequestError>) -> bool {
    match request_signature(opcode) {
        None => r == Err::<Request, RequestError>(RequestError::UnknownOpcode(opcode)),
        Some(sig) => match spec_read_args(sig, c) {
            None => r == Err::<Request, RequestError>(RequestError::MalformedPayload),
            Some((vals, _)) => if request_args_valid(opcode, vals) {
                r matches Ok(req) && request_fits(req, opcode, vals)
            } else {
                r == Err::<Request, RequestError>(RequestError::MalformedPayload)
            },
        },
    }
}

/// A message that carries, for an object of `wl_display`, arguments `vals` of
/// the kinds the request with opcode `opcode` takes decodes to that request
/// with those arguments, where they fit the wire and name known values of
/// its enumerations; where they name unknown values, it is refused as
/// malformed.
pub proof fn lemma_request_roundtrip(
    m: Message,
    object: u32,
    opcode: u16,
    vals: Seq<ArgValue>,
    r: Result<Request, RequestError>,
)
    requires
        request_signature(opcode) == Some(kinds_of(vals)),
        carries(m, object, opcode, vals),
        all_fit_wire(vals),
        request_outcome(message_opcode(m), cursor_of(m), r),
    ensures
        request_args_valid(opcode, vals) ==> (r matches Ok(req) && request_fits(req, opcode, vals)),
        !request_args_valid(opcode, vals) ==> r == Err::<Request, RequestError>(
            RequestError::MalformedPayload,
        ),
{
}

fn signature(opcode: u16) -> (r: Option<Vec<ArgKind>>)
    ensures
        match request_signature(opcode) {
            None => r is None,
            Some(sig) => r matches Some(v) && v@ == sig,
        },
{
    match opcode {
        0 => Some(vec![ArgKind::Object]),
        1 => Some(vec![ArgKind::Object]),
        _ => None,
    }
}

fn decode_sync(args: Vec<Arg>) -> (r: Result<Request, RequestError>)
    requires
        kinds_of(views(args@)) == seq![ArgKind::Object],
    ensures
        if request_args_valid(0, views(args@)) {
            r matches Ok(req) && request_fits(req, 0, views(args@))
        } else {
            r == Err::<Request, RequestError>(RequestError::MalformedPayload)
        },
{
    let ghost vals = views(args@);
    let mut args = args;
    proof {
        lemma_kinds_of(vals);
    }
    assert(vals.len() == 1);
    assert(views(args@) =~= vals.skip(0));
    assert(kind_of(vals[0]) == ArgKind::Object);
    let callback = take_object(&mut args);
    assert(vals =~= seq![ArgValue::Object(callback)]);
    Ok(Request::Sync { callback })
}

fn decode_get_registry(args: Vec<Arg>) -> (r: Result<Request, RequestError>)
    requires
        kinds_of(views(args@)) == seq![ArgKind::Object],
    ensures
        if request_args_valid(1, views(args@)) {
            r matches Ok(req) && request_fits(req, 1, views(args@))
        } else {
            r == Err::<Request, RequestError>(RequestError::MalformedPayload)
        },
{
    let ghost vals = views(args@);
    let mut args = args;
    proof {
        lemma_kinds_of(vals);
    }
    assert(vals.len() == 1);
    assert(views(args@) =~= vals.skip(0));
    assert(kind_of(vals[0]) == ArgKind::Object);
    let registry = take_object(&mut args);
    assert(vals =~= seq![ArgValue::Object(registry)]);
    Ok(Request::GetRegistry { registry })
}

fn into_request(opcode: u16, args: Vec<Arg>) -> (r: Result<Request, RequestError>)
    requires
        request_signature(opcode) == Some(kinds_of(views(args@))),
    ensures
        if request_args_valid(opcode, views(args@)) {
            r matches Ok(req) && request_fits(req, opcode, views(args@))
        } else {
            r == Err::<Request, RequestError>(RequestError::MalformedPayload)
        },
{
    match opcode {
        0 => decode_sync(args),
        1 => decode_get_registry(args),
        _ => {
            proof {
                assert(false);
            }
            Err(RequestError::UnknownOpcode(opcode))
        },
    }
}

/// Decodes the request a message carries for a `wl_display` object: its opcode
/// picks the request, and its payload and file descriptors give the
/// arguments, in order.
pub fn handle_request(message: &mut Message) -> (r: Result<Request, RequestError>)
    ensures
        same_header(*old(message), *final(message)),
        request_outcome(message_opcode(*old(message)), cursor_of(*old(message)), r),
{
    let opcode = opcode_of(message);
    match signature(opcode) {
        None => Err(RequestError::UnknownOpcode(opcode)),
        Some(sig) => match read_args(message, &sig) {
            None => Err(RequestError::MalformedPayload),
            Some(args) => into_request(opcode, args),
        },
    }
}

/// The error event is sent out when a fatal (non-recoverable)
/// error has occurred.  The object_id argument is the object
/// where the error occurred, most often in response to a request
/// to that object.  The code identifies the error and is defined
/// by the object interface.  As such, each interface defines its
/// own set of error codes.  The message is a brief description
/// of the error, for (debugging) convenience.
///
/// The message of this event, from the object `object`.
pub fn error(object: u32, object_id: u32, code: u32, message: String) -> (m: Message)
    requires
        object != 0,
        object_id != 0,
    ensures
        carries(
            m,
            object,
            0,
            seq![ArgValue::Object(object_id), ArgValue::Uint(code), ArgValue::Str(message@)],
        ),
        pending_fds(m) == Seq::<i32>::empty(),
{
    let args = vec![Arg::Object(object_id), Arg::Uint(code), Arg::Str(message)];
    assert(views(args@) =~= seq![
        ArgValue::Object(object_id),
        ArgValue::Uint(code),
        ArgValue::Str(message@),
    ]);
    encode_message(object, 0, &args)
}

/// This event is used internally by the object ID management
/// logic. When a client deletes an object that it had created,
/// the server will send this event to acknowledge that it has
/// seen the delete request. When the client receives this event,
/// it will know that it can safely reuse the object ID.
///
/// The message of this event, from the object `object`.
pub fn delete_id(object: u32, id: u32) -> (m: Message)
    requires
        object != 0,
    ensures
        carries(m, object, 1, seq![ArgValue::Uint(id)]),
        pending_fds(m) == Seq::<i32>::empty(),
{
    let args = vec![Arg::Uint(id)];
    assert(views(args@) =~= seq![ArgValue::Uint(id)]);
    encode_message(object, 1, &args)
}

/// The requests of `wl_display` as the protocol defines them: the opcode of
/// each, the kinds of its arguments in order, and the field each argument
/// fills; no other opcode names a request.
pub proof fn lemma_protocol_requests()
    ensures
        request_signature(0) == Some(seq![ArgKind::Object]),
        request_signature(1) == Some(seq![ArgKind::Object]),
        forall|opcode: u16| opcode >= 2 ==> #[trigger] request_signature(opcode) is None,
        forall|req: Request, vals: Seq<ArgValue>| #[trigger] request_fits(req, 0, vals) <==> (req matches Request::Sync { callback } && vals == seq![ArgValue::Object(callback)]),
        forall|req: Request, vals: Seq<ArgValue>| #[trigger] request_fits(req, 1, vals) <==> (req matches Request::GetRegistry { registry } && vals == seq![ArgValue::Object(registry)]),
{
}

} // verus!
