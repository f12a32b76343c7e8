//! A circular interaction area, such as the touch ring on the Wacom Intuos
//! Pro series tablets.
//!
//! The `zwp_tablet_pad_ring_v2` interface, version 1: decoding of its
//! requests and encoding of its events.
use crate::codec::{
    Arg, ArgKind, ArgValue, Fixed, all_fit_wire, carries, encode_message, kind_of, kinds_of,
    lemma_kinds_of, read_args, spec_read_args, take_string, take_uint, views,
};
use crate::error::DecodeError;
use crate::error::Error as RequestError;
use crate::wire::{Cursor, cursor_of, message_opcode, opcode_of, pending_fds, same_header};
use vstd::prelude::*;
use waynest::wire::Message;

verus! {

/// The name of the interface.
pub const INTERFACE: &'static str = "zwp_tablet_pad_ring_v2";

/// The version of the interface that is implemented.
pub const VERSION: u32 = 1;

/// Describes the source types for ring events. This indicates to the
/// client how a ring event was physically generated; a client may
/// adjust the user interface accordingly. For example, events
/// from a "finger" source may trigger kinetic scrolling.
#[derive(Debug, PartialEq, Eq, PartialOrd, Ord, Hash, Clone, Copy)]
pub enum Source {
    /// Finger
    Finger,
}

impl Source {
    /// The word that stands for this value on the wire.
    pub open spec fn wire_value(self) -> u32 {
        match self {
            Source::Finger => 1,
        }
    }

    /// The value a word stands for, if any.
    pub open spec fn from_wire(v: u32) -> Result<Self, DecodeError> {
        match v {
            1 => Ok(Source::Finger),
            _ => Err(DecodeError::MalformedPayload),
        }
    }

    /// The word that stands for this value on the wire.
    pub fn to_wire(self) -> (r: u32)
        ensures
            r == self.wire_value(),
    {
        match self {
            Source::Finger => 1,
        }
    }

    /// A value read back from its word is that value, and a word that reads
    /// as a value is that value's word.
    pub proof fn lemma_wire_roundtrip(self, v: u32)
        ensures
            Self::from_wire(self.wire_value()) == Ok::<Self, DecodeError>(self),
            Self::from_wire(v) matches Ok(e) ==> e.wire_value() == v,
    {
    }

    /// The words the protocol gives the values of this enumeration.
    pub proof fn lemma_protocol_values()
        ensures
            Source::Finger.wire_value() == 1,
            Self::from_wire(1) == Ok::<Self, DecodeError>(Source::Finger),
    {
    }
}

impl TryFrom<u32> for Source {
    type Error = DecodeError;

    fn try_from(v: u32) -> (r: Result<Self, DecodeError>) {
        match v {
            1 => Ok(Source::Finger),
            _ => Err(DecodeError::MalformedPayload),
        }
    }
}

impl vstd::std_specs::convert::TryFromSpecImpl<u32> for Source {
    open spec fn obeys_try_from_spec() -> bool {
        true
    }

    open spec fn try_from_spec(v: u32) -> Result<Self, DecodeError> {
        Self::from_wire(v)
    }
}

/// A request of `zwp_tablet_pad_ring_v2`, decoded from the wire.
#[derive(Debug)]
pub enum Request {
    /// Request that the compositor use the provided feedback string
    /// associated with this ring. This request should be issued immediately
    /// after a wp_tablet_pad_group.mode_switch event from the corresponding
    /// group is received, or whenever the ring is mapped to a different
    /// action. See wp_tablet_pad_group.mode_switch for more details.
    SetFeedback {
        description: String,
        serial: u32,
    },
    /// This destroys the client's resource for this ring object.
    Destroy,
}

/// The kinds of the arguments of the request with opcode `opcode`.
pub open spec fn request_signature(opcode: u16) -> Option<Seq<ArgKind>> {
    match opcode {
        0 => Some(seq![ArgKind::String, ArgKind::Uint]),
        1 => Some(Seq::<ArgKind>::empty()),
        _ => None,
    }
}

/// Whether decoded arguments hold, where the request takes an enumeration or
/// a bit set, a word that stands for one.
pub open spec fn request_args_valid(opcode: u16, vals: Seq<ArgValue>) -> bool {
    true
}

/// Whether `req` is the request with opcode `opcode` and arguments `vals`.
pub open spec fn request_fits(req: Request, opcode: u16, vals: Seq<ArgValue>) -> bool {
    match req {
        Request::SetFeedback { description, serial } => {
            &&& opcode == 0
            &&& vals == seq![ArgValue::Str(description@), ArgValue::Uint(serial)]
        },
        Request::Destroy => {
            &&& opcode == 1
            &&& vals == Seq::<ArgValue>::empty()
        },
    }
}

/// What decoding a request with opcode `opcode` from the payload and file
/// descriptors of `c` gives.
pub open spec fn request_outcome(opcode: u16, c: Cursor, r: Result<Request, RequestError>) -> bool {
    match request_signature(opcode) {
        None => r == Err::<Request, RequestError>(RequestError::UnknownOpcode(opcode)),
        Some(sig) => match spec_read_args(sig, c) {
            None => r == Err::<Request, RequestError>(RequestError::MalformedPayload),
            Some((vals, _)) => if request_args_valid(opcode, vals) {
                r matches Ok(req) && request_fits(req, opcode, vals)
            } else {
                r == Err::<Request, RequestError>(RequestError::MalformedPayload)
            },
        },
    }
}

/// A message that carries, for an object of `zwp_tablet_pad_ring_v2`, arguments `vals` of
/// the kinds the request with opcode `opcode` takes decodes to that request
/// with those arguments, where they fit the wire and name known values of
/// its enumerations; where they name unknown values, it is refused as
/// malformed.
pub proof fn lemma_request_roundtrip(
    m: Message,
    object: u32,
    opcode: u16,
    vals: Seq<ArgValue>,
    r: Result<Request, RequestError>,
)
    requires
        request_signature(opcode) == Some(kinds_of(vals)),
        carries(m, object, opcode, vals),
        all_fit_wire(vals),
        request_outcome(message_opcode(m), cursor_of(m), r),
    ensures
        request_args_valid(opcode, vals) ==> (r matches Ok(req) && request_fits(req, opcode, vals)),
        !request_args_valid(opcode, vals) ==> r == Err::<Request, RequestError>(
            RequestError::MalformedPayload,
        ),
{
}

fn signature(opcode: u16) -> (r: Option<Vec<ArgKind>>)
    ensures
        match request_signature(opcode) {
            None => r is None,
            Some(sig) => r matches Some(v) && v@ == sig,
        },
{
    match opcode {
        0 => Some(vec![ArgKind::String, ArgKind::Uint]),
        1 => Some(Vec::new()),
        _ => None,
    }
}

fn decode_set_feedback(args: Vec<Arg>) -> (r: Result<Request, RequestError>)
    requires
        kinds_of(views(args@)) == seq![ArgKind::String, ArgKind::Uint],
    ensures
        if request_args_valid(0, views(args@)) {
            r matches Ok(req) && request_fits(req, 0, views(args@))
        } else {
            r == Err::<Request, RequestError>(RequestError::MalformedPayload)
        },
{
    let ghost vals = views(args@);
    let mut args = args;
    proof {
        lemma_kinds_of(vals);
    }
    assert(vals.len() == 2);
    assert(views(args@) =~= vals.skip(0));
    assert(kind_of(vals[0]) == ArgKind::String);
    let description = take_string(&mut args);
    assert(views(args@) =~= vals.skip(1));
    assert(kind_of(vals[1]) == ArgKind::Uint);
    let serial = take_uint(&mut args);
    assert(vals =~= seq![ArgValue::Str(description@), ArgValue::Uint(serial)]);
    Ok(Request::SetFeedback { description, serial })
}

fn decode_destroy(args: Vec<Arg>) -> (r: Result<Request, RequestError>)
    requires
        kinds_of(views(args@)) == Seq::<ArgKind>::empty(),
    ensures
        if request_args_valid(1, views(args@)) {
            r matches Ok(req) && request_fits(req, 1, views(args@))
        } else {
            r == Err::<Request, RequestError>(RequestError::MalformedPayload)
        },
{
    let ghost vals = views(args@);
    proof {
        lemma_kinds_of(vals);
    }
    assert(vals =~= Seq::<ArgValue>::empty());
    Ok(Request::Destroy)
}

fn into_request(opcode: u16, args: Vec<Arg>) -> (r: Result<Request, RequestError>)
    requires
        request_signature(opcode) == Some(kinds_of(views(args@))),
    ensures
        if request_args_valid(opcode, views(args@)) {
            r matches Ok(req) && request_fits(req, opcode, views(args@))
        } else {
            r == Err::<Request, RequestError>(RequestError::MalformedPayload)
        },
{
    match opcode {
        0 => decode_set_feedback(args),
        1 => decode_destroy(args),
        _ => {
            proof {
                assert(false);
            }
            Err(RequestError::UnknownOpcode(opcode))
        },
    }
}

/// Decodes the request a message carries for a `zwp_tablet_pad_ring_v2` object: its opcode
/// picks the request, and its payload and file descriptors give the
/// arguments, in order.
pub fn handle_request(message: &mut Message) -> (r: Result<Request, RequestError>)
    ensures
        same_header(*old(message), *final(message)),
        request_outcome(message_opcode(*old(message)), cursor_of(*old(message)), r),
{
    let opcode = opcode_of(message);
    match signature(opcode) {
        None => Err(RequestError::UnknownOpcode(opcode)),
        Some(sig) => match read_args(message, &sig) {
            None => Err(RequestError::MalformedPayload),
            Some(args) => into_request(opcode, args),
        },
    }
}

/// Source information for ring events.
///
/// This event does not occur on its own. It is sent before a
/// wp_tablet_pad_ring.frame event and carries the source information
/// for all events within that frame.
///
/// The source specifies how this event was generated. If the source is
/// wp_tablet_pad_ring.source.finger, a wp_tablet_pad_ring.stop event
/// will be sent when the user lifts the finger off the device.
///
/// This event is optional. If the source is unknown for an interaction,
/// no event is sent.
///
/// The message of this event, from the object `object`.
pub fn source(object: u32, source_value: Source) -> (m: Message)
    requires
        object != 0,
    ensures
        carries(m, object, 0, seq![ArgValue::Uint(source_value.wire_value())]),
        pending_fds(m) == Seq::<i32>::empty(),
{
    let args = vec![Arg::Uint(source_value.to_wire())];
    assert(views(args@) =~= seq![ArgValue::Uint(source_value.wire_value())]);
    encode_message(object, 0, &args)
}

/// Sent whenever the angle on a ring changes.
///
/// The angle is provided in degrees clockwise from the logical
/// north of the ring in the pad's current rotation.
///
/// The message of this event, from the object `object`.
pub fn angle(object: u32, degrees: Fixed) -> (m: Message)
    requires
        object != 0,
    ensures
        carries(m, object, 1, seq![ArgValue::Fixed(degrees.raw)]),
        pending_fds(m) == Seq::<i32>::empty(),
{
    let args = vec![Arg::Fixed(degrees.raw)];
    assert(views(args@) =~= seq![ArgValue::Fixed(degrees.raw)]);
    encode_message(object, 1, &args)
}

/// Stop notification for ring events.
///
/// For some wp_tablet_pad_ring.source types, a wp_tablet_pad_ring.stop
/// event is sent to notify a client that the interaction with the ring
/// has terminated. This enables the client to implement kinetic scrolling.
/// See the wp_tablet_pad_ring.source documentation for information on
/// when this event may be generated.
///
/// Any wp_tablet_pad_ring.angle events with the same source after this
/// event should be considered as the start of a new interaction.
///
/// The message of this event, from the object `object`.
pub fn stop(object: u32) -> (m: Message)
    requires
        object != 0,
    ensures
        carries(m, object, 2, Seq::<ArgValue>::empty()),
        pending_fds(m) == Seq::<i32>::empty(),
{
    let args: Vec<Arg> = Vec::new();
    assert(views(args@) =~= Seq::<ArgValue>::empty());
    encode_message(object, 2, &args)
}

/// Indicates the end of a set of ring events that logically belong
/// together. A client is expected to accumulate the data in all events
/// within the frame before proceeding.
///
/// All wp_tablet_pad_ring events before a wp_tablet_pad_ring.frame event belong
/// logically together. For example, on termination of a finger interaction
/// on a ring the compositor will send a wp_tablet_pad_ring.source event,
/// a wp_tablet_pad_ring.stop event and a wp_tablet_pad_ring.frame event.
///
/// A wp_tablet_pad_ring.frame event is sent for every logical event
/// group, even if the group only contains a single wp_tablet_pad_ring
/// event. Specifically, a client may get a sequence: angle, frame,
/// angle, frame, etc.
///
/// The message of this event, from the object `object`.
pub fn frame(object: u32, time: u32) -> (m: Message)
    requires
        object != 0,
    ensures
        carries(m, object, 3, seq![ArgValue::Uint(time)]),
        pending_fds(m) == Seq::<i32>::empty(),
{
    let args = vec![Arg::Uint(time)];
    assert(views(args@) =~= seq![ArgValue::Uint(time)]);
    encode_message(object, 3, &args)
}

/// The requests of `zwp_tablet_pad_ring_v2` as the protocol defines them: the opcode of
/// each, the kinds of its arguments in order, and the field each argument
/// fills; no other opcode names a request.
pub proof fn lemma_protocol_requests()
    ensures
        request_signature(0) == Some(seq![ArgKind::String, ArgKind::Uint]),
        request_signature(1) == Some(Seq::<ArgKind>::empty()),
        forall|opcode: u16| opcode >= 2 ==> #[trigger] request_signature(opcode) is None,
        forall|req: Request, vals: Seq<ArgValue>| #[trigger] request_fits(req, 0, vals) <==> (req matches Request::SetFeedback { description, serial } && vals == seq![
            ArgValue::Str(description@),
            ArgValue::Uint(serial),
        ]),
        forall|req: Request, vals: Seq<ArgValue>| #[trigger] request_fits(req, 1, vals) <==> (req is Destroy && vals == Seq::<ArgValue>::empty()),
{
}

} // verus!
