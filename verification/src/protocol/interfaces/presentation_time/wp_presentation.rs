//! The main feature of this interface is accurate presentation
//! timing feedback to ensure smooth video playback while maintaining
//! audio/video synchronization. Some features use the concept of a
//! presentation clock, which is defined in the
//! presentation.clock_id event.
//!
//! The `wp_presentation` interface, version 1: decoding of its
//! requests and encoding of its events.
use crate::codec::{
    Arg, ArgKind, ArgValue, all_fit_wire, carries, encode_message, kind_of, kinds_of,
    lemma_kinds_of, read_args, spec_read_args, take_object, views,
};
use crate::error::DecodeError;
use crate::error::Error as RequestError;
use crate::wire::{Cursor, cursor_of, message_opcode, opcode_of, pending_fds, same_header};
use vstd::prelude::*;
use waynest::wire::Message;

verus! {

/// The name of the interface.
pub const INTERFACE: &'static str = "wp_presentation";

/// The version of the interface that is implemented.
pub const VERSION: u32 = 1;

/// These fatal protocol errors may be emitted in response to
/// illegal presentation requests.
#[derive(Debug, PartialEq, Eq, PartialOrd, Ord, Hash, Clone, Copy)]
pub enum Error {
    /// Invalid value in tv_nsec
    InvalidTimestamp,
    /// Invalid flag
    InvalidFlag,
}

impl Error {
    /// The word that stands for this value on the wire.
    pub open spec fn wire_value(self) -> u32 {
        match self {
            Error::InvalidTimestamp => 0,
            Error::InvalidFlag => 1,
        }
    }

    /// The value a word stands for, if any.
    pub open spec fn from_wire(v: u32) -> Result<Self, DecodeError> {
        match v {
            0 => Ok(Error::InvalidTimestamp),
            1 => Ok(Error::InvalidFlag),
            _ => Err(DecodeError::MalformedPayload),
        }
    }

    /// The word that stands for this value on the wire.
    pub fn to_wire(self) -> (r: u32)
        ensures
            r == self.wire_value(),
    {
        match self {
            Error::InvalidTimestamp => 0,
            Error::InvalidFlag => 1,
        }
    }

    /// A value read back from its word is that value, and a word that reads
    /// as a value is that value's word.
    pub proof fn lemma_wire_roundtrip(self, v: u32)
        ensures
            Self::from_wire(self.wire_value()) == Ok::<Self, DecodeError>(self),
            Self::from_wire(v) matches Ok(e) ==> e.wire_value() == v,
    {
    }

    /// The words the protocol gives the values of this enumeration.
    pub proof fn lemma_protocol_values()
        ensures
            Error::InvalidTimestamp.wire_value() == 0,
            Error::InvalidFlag.wire_value() == 1,
            Self::from_wire(0) == Ok::<Self, DecodeError>(Error::InvalidTimestamp),
            Self::from_wire(1) == Ok::<Self, DecodeError>(Error::InvalidFlag),
    {
    }
}

impl TryFrom<u32> for Error {
    type Error = DecodeError;

    fn try_from(v: u32) -> (r: Result<Self, DecodeError>) {
        match v {
            0 => Ok(Error::InvalidTimestamp),
            1 => Ok(Error::InvalidFlag),
            _ => Err(DecodeError::MalformedPayload),
        }
    }
}

impl vstd::std_specs::convert::TryFromSpecImpl<u32> for Error {
    open spec fn obeys_try_from_spec() -> bool {
        true
    }

    open spec fn try_from_spec(v: u32) -> Result<Self, DecodeError> {
        Self::from_wire(v)
    }
}

/// A request of `wp_presentation`, decoded from the wire.
#[derive(Debug)]
pub enum Request {
    /// Informs the server that the client will no longer be using
    /// this protocol object. Existing objects created by this object
    /// are not affected.
    Destroy,
    /// Request presentation feedback for the current content submission
    /// on the given surface. This creates a new presentation_feedback
    /// object, which will deliver the feedback information once. If
    /// multiple presentation_feedback objects are created for the same
    /// submission, they will all deliver the same information.
    Feedback {
        surface: u32,
        callback: u32,
    },
}

/// The kinds of the arguments of the request with opcode `opcode`.
pub open spec fn request_signature(opcode: u16) -> Option<Seq<ArgKind>> {
    match opcode {
        0 => Some(Seq::<ArgKind>::empty()),
        1 => Some(seq![ArgKind::Object, ArgKind::Object]),
        _ => None,
    }
}

/// Whether decoded arguments hold, where the request takes an enumeration or
/// a bit set, a word that stands for one.
pub open spec fn request_args_valid(opcode: u16, vals: Seq<ArgValue>) -> bool {
    true
}

/// Whether `req` is the request with opcode `opcode` and arguments `vals`.
pub open spec fn request_fits(req: Request, opcode: u16, vals: Seq<ArgValue>) -> bool {
    match req {
        Request::Destroy => {
            &&& opcode == 0
            &&& vals == Seq::<ArgValue>::empty()
        },
        Request::Feedback { surface, callback } => {
            &&& opcode == 1
            &&& vals == seq![ArgValue::Object(surface), ArgValue::Object(callback)]
        },
    }
}

/// What decoding a request with opcode `opcode` from the payload and file
/// descriptors of `c` gives.
pub open spec fn request_outcome(opcode: u16, c: Cursor, r: Result<Request, RequestError>) -> bool {
    match request_signature(opcode) {
        None => r == Err::<Request, RequestError>(RequestError::UnknownOpcode(opcode)),
        Some(sig) => match spec_read_args(sig, c) {
            None => r == Err::<Request, RequestError>(RequestError::MalformedPayload),
            Some((vals, _)) => if request_args_valid(opcode, vals) {
                r matches Ok(req) && request_fits(req, opcode, vals)
            } else {
                r == Err::<Request, RequestError>(RequestError::MalformedPayload)
            },
        },
    }
}

/// A message that carries, for an object of `wp_presentation`, arguments `vals` of
/// the kinds the request with opcode `opcode` takes decodes to that request
/// with those arguments, where they fit the wire and name known values of
/// its enumerations; where they name unknown values, it is refused as
/// malformed.
pub proof fn lemma_request_roundtrip(
    m: Message,
    object: u32,
    opcode: u16,
    vals: Seq<ArgValue>,
    r: Result<Request, RequestError>,
)
    requires
        request_signature(opcode) == Some(kinds_of(vals)),
        carries(m, object, opcode, vals),
        all_fit_wire(vals),
        request_outcome(message_opcode(m), cursor_of(m), r),
    ensures
        request_args_valid(opcode, vals) ==> (r matches Ok(req) && request_fits(req, opcode, vals)),
        !request_args_valid(opcode, vals) ==> r == Err::<Request, RequestError>(
            RequestError::MalformedPayload,
        ),
{
}

fn signature(opcode: u16) -> (r: Option<Vec<ArgKind>>)
    ensures
        match request_signature(opcode) {
            None => r is None,
            Some(sig) => r matches Some(v) && v@ == sig,
        },
{
    match opcode {
        0 => Some(Vec::new()),
        1 => Some(vec![ArgKind::Object, ArgKind::Object]),
        _ => None,
    }
}

fn decode_destroy(args: Vec<Arg>) -> (r: Result<Request, RequestError>)
    requires
        kinds_of(views(args@)) == Seq::<ArgKind>::empty(),
    ensures
        if request_args_valid(0, views(args@)) {
            r matches Ok(req) && request_fits(req, 0, views(args@))
        } else {
            r == Err::<Request, RequestError>(RequestError::MalformedPayload)
        },
{
    let ghost vals = views(args@);
    proof {
        lemma_kinds_of(vals);
    }
    assert(vals =~= Seq::<ArgValue>::empty());
    Ok(Request::Destroy)
}

fn decode_feedback(args: Vec<Arg>) -> (r: Result<Request, RequestError>)
    requires
        kinds_of(views(args@)) == seq![ArgKind::Object, ArgKind::Object],
    ensures
        if request_args_valid(1, views(args@)) {
            r matches Ok(req) && request_fits(req, 1, views(args@))
        } else {
            r == Err::<Request, RequestError>(RequestError::MalformedPayload)
        },
{
    let ghost vals = views(args@);
    let mut args = args;
    proof {
        lemma_kinds_of(vals);
    }
    assert(vals.len() == 2);
    assert(views(args@) =~= vals.skip(0));
    assert(kind_of(vals[0]) == ArgKind::Object);
    let surface = take_object(&mut args);
    assert(views(args@) =~= vals.skip(1));
    assert(kind_of(vals[1]) == ArgKind::Object);
    let callback = take_object(&mut args);
    assert(vals =~= seq![ArgValue::Object(surface), ArgValue::Object(callback)]);
    Ok(Request::Feedback { surface, callback })
}

fn into_request(opcode: u16, args: Vec<Arg>) -> (r: Result<Request, RequestError>)
    requires
        request_signature(opcode) == Some(kinds_of(views(args@))),
    ensures
        if request_args_valid(opcode, views(args@)) {
            r matches Ok(req) && request_fits(req, opcode, views(args@))
        } else {
            r == Err::<Request, RequestError>(RequestError::MalformedPayload)
        },
{
    match opcode {
        0 => decode_destroy(args),
        1 => decode_feedback(args),
        _ => {
            proof {
                assert(false);
            }
            Err(RequestError::UnknownOpcode(opcode))
        },
    }
}

/// Decodes the request a message carries for a `wp_presentation` object: its opcode
/// picks the request, and its payload and file descriptors give the
/// arguments, in order.
pub fn handle_request(message: &mut Message) -> (r: Result<Request, RequestError>)
    ensures
        same_header(*old(message), *final(message)),
        request_outcome(message_opcode(*old(message)), cursor_of(*old(message)), r),
{
    let opcode = opcode_of(message);
    match signature(opcode) {
        None => Err(RequestError::UnknownOpcode(opcode)),
        Some(sig) => match read_args(message, &sig) {
            None => Err(RequestError::MalformedPayload),
            Some(args) => into_request(opcode, args),
        },
    }
}

/// This event tells the client in which clock domain the
/// compositor interprets the timestamps used by the presentation
/// extension. This clock is called the presentation clock.
///
/// The compositor sends this event when the client binds to the
/// presentation interface. The presentation clock does not change
/// during the lifetime of the client connection.
///
/// The clock identifier is platform dependent. On POSIX platforms, the
/// identifier value is one of the clockid_t values accepted by
/// clock_gettime(). clock_gettime() is defined by POSIX.1-2001.
///
/// Timestamps in this clock domain are expressed as tv_sec_hi,
/// tv_sec_lo, tv_nsec triples, each component being an unsigned
/// 32-bit value. Whole seconds are in tv_sec which is a 64-bit
/// value combined from tv_sec_hi and tv_sec_lo, and the
/// additional fractional part in tv_nsec as nanoseconds. Hence,
/// for valid timestamps tv_nsec must be in [0, 999999999].
///
/// Note that clock_id applies only to the presentation clock,
/// and implies nothing about e.g. the timestamps used in the
/// Wayland core protocol input events.
///
/// Compositors should prefer a clock which does not jump and is
/// not slewed e.g. by NTP. The absolute value of the clock is
/// irrelevant. Precision of one millisecond or better is
/// recommended. Clients must be able to query the current clock
/// value directly, not by asking the compositor.
///
/// The message of this event, from the object `object`.
pub fn clock_id(object: u32, clk_id: u32) -> (m: Message)
    requires
        object != 0,
    ensures
        carries(m, object, 0, seq![ArgValue::Uint(clk_id)]),
        pending_fds(m) == Seq::<i32>::empty(),
{
    let args = vec![Arg::Uint(clk_id)];
    assert(views(args@) =~= seq![ArgValue::Uint(clk_id)]);
    encode_message(object, 0, &args)
}

/// The requests of `wp_presentation` as the protocol defines them: the opcode of
/// each, the kinds of its arguments in order, and the field each argument
/// fills; no other opcode names a request.
pub proof fn lemma_protocol_requests()
    ensures
        request_signature(0) == Some(Seq::<ArgKind>::empty()),
        request_signature(1) == Some(seq![ArgKind::Object, ArgKind::Object]),
        forall|opcode: u16| opcode >= 2 ==> #[trigger] request_signature(opcode) is None,
        forall|req: Request, vals: Seq<ArgValue>| #[trigger] request_fits(req, 0, vals) <==> (req is Destroy && vals == Seq::<ArgValue>::empty()),
        forall|req: Request, vals: Seq<ArgValue>| #[trigger] request_fits(req, 1, vals) <==> (req matches Request::Feedback { surface, callback } && vals == seq![
            ArgValue::Object(surface),
            ArgValue::Object(callback),
        ]),
{
}

} // verus!
