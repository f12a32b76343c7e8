//! A pad group describes a distinct (sub)set of buttons, rings and strips
//! present in the tablet. The criteria of this grouping is usually positional,
//! eg. if a tablet has buttons on the left and right side, 2 groups will be
//! presented. The physical arrangement of groups is undisclosed and may
//! change on the fly.
//!
//! The `zwp_tablet_pad_group_v2` interface, version 1: decoding of its
//! requests and encoding of its events.
use crate::codec::{
    Arg, ArgKind, ArgValue, all_fit_wire, carries, encode_message, kinds_of, lemma_kinds_of,
    read_args, spec_read_args, views,
};
use crate::error::Error as RequestError;
use crate::wire::{Cursor, cursor_of, message_opcode, opcode_of, pending_fds, same_header};
use vstd::prelude::*;
use waynest::wire::Message;

verus! {

/// The name of the interface.
pub const INTERFACE: &'static str = "zwp_tablet_pad_group_v2";

/// The version of the interface that is implemented.
pub const VERSION: u32 = 1;

/// A request of `zwp_tablet_pad_group_v2`, decoded from the wire.
#[derive(Debug)]
pub enum Request {
    /// Destroy the wp_tablet_pad_group object. Objects created from this object
    /// are unaffected and should be destroyed separately.
    Destroy,
}

/// The kinds of the arguments of the request with opcode `opcode`.
pub open spec fn request_signature(opcode: u16) -> Option<Seq<ArgKind>> {
    match opcode {
        0 => Some(Seq::<ArgKind>::empty()),
        _ => None,
    }
}

/// Whether decoded arguments hold, where the request takes an enumeration or
/// a bit set, a word that stands for one.
pub open spec fn request_args_valid(opcode: u16, vals: Seq<ArgValue>) -> bool {
    true
}

/// Whether `req` is the request with opcode `opcode` and arguments `vals`.
pub open spec fn request_fits(req: Request, opcode: u16, vals: Seq<ArgValue>) -> bool {
    match req {
        Request::Destroy => {
            &&& opcode == 0
            &&& vals == Seq::<ArgValue>::empty()
        },
    }
}

/// What decoding a request with opcode `opcode` from the payload and file
/// descriptors of `c` gives.
pub open spec fn request_outcome(opcode: u16, c: Cursor, r: Result<Request, RequestError>) -> bool {
    match request_signature(opcode) {
        None => r == Err::<Request, RequestError>(RequestError::UnknownOpcode(opcode)),
        Some(sig) => match spec_read_args(sig, c) {
            None => r == Err::<Request, RequestError>(RequestError::MalformedPayload),
            Some((vals, _)) => if request_args_valid(opcode, vals) {
                r matches Ok(req) && request_fits(req, opcode, vals)
            } else {
                r == Err::<Request, RequestError>(RequestError::MalformedPayload)
            },
        },
    }
}

/// A message that carries, for an object of `zwp_tablet_pad_group_v2`, arguments `vals` of
/// the kinds the request with opcode `opcode` takes decodes to that request
/// with those arguments, where they fit the wire and name known values of
/// its enumerations; where they name unknown values, it is refused as
/// malformed.
pub proof fn lemma_request_roundtrip(
    m: Message,
    object: u32,
    opcode: u16,
    vals: Seq<ArgValue>,
    r: Result<Request, RequestError>,
)
    requires
        request_signature(opcode) == Some(kinds_of(vals)),
        carries(m, object, opcode, vals),
        all_fit_wire(vals),
        request_outcome(message_opcode(m), cursor_of(m), r),
    ensures
        request_args_valid(opcode, vals) ==> (r matches Ok(req) && request_fits(req, opcode, vals)),
        !request_args_valid(opcode, vals) ==> r == Err::<Request, RequestError>(
            RequestError::MalformedPayload,
        ),
{
}

fn signature(opcode: u16) -> (r: Option<Vec<ArgKind>>)
    ensures
        match request_signature(opcode) {
            None => r is None,
            Some(sig) => r matches Some(v) && v@ == sig,
        },
{
    match opcode {
        0 => Some(Vec::new()),
        _ => None,
    }
}

fn decode_destroy(args: Vec<Arg>) -> (r: Result<Request, RequestError>)
    requires
        kinds_of(views(args@)) == Seq::<ArgKind>::empty(),
    ensures
        if request_args_valid(0, views(args@)) {
            r matches Ok(req) && request_fits(req, 0, views(args@))
        } else {
            r == Err::<Request, RequestError>(RequestError::MalformedPayload)
        },
{
    let ghost vals = views(args@);
    proof {
        lemma_kinds_of(vals);
    }
    assert(vals =~= Seq::<ArgValue>::empty());
    Ok(Request::Destroy)
}

fn into_request(opcode: u16, args: Vec<Arg>) -> (r: Result<Request, RequestError>)
    requires
        request_signature(opcode) == Some(kinds_of(views(args@))),
    ensures
        if request_args_valid(opcode, views(args@)) {
            r matches Ok(req) && request_fits(req, opcode, views(args@))
        } else {
            r == Err::<Request, RequestError>(RequestError::MalformedPayload)
        },
{
    match opcode {
        0 => decode_destroy(args),
        _ => {
            proof {
                assert(false);
            }
            Err(RequestError::UnknownOpcode(opcode))
        },
    }
}

/// Decodes the request a message carries for a `zwp_tablet_pad_group_v2` object: its opcode
/// picks the request, and its payload and file descriptors give the
/// arguments, in order.
pub fn handle_request(message: &mut Message) -> (r: Result<Request, RequestError>)
    ensures
        same_header(*old(message), *final(message)),
        request_outcome(message_opcode(*old(message)), cursor_of(*old(message)), r),
{
    let opcode = opcode_of(message);
    match signature(opcode) {
        None => Err(RequestError::UnknownOpcode(opcode)),
        Some(sig) => match read_args(message, &sig) {
            None => Err(RequestError::MalformedPayload),
            Some(args) => into_request(opcode, args),
        },
    }
}

/// Sent on wp_tablet_pad_group initialization to announce the available
/// buttons in the group. Button indices start at 0, a button may only be
/// in one group at a time.
///
/// This event is first sent in the initial burst of events before the
/// wp_tablet_pad_group.done event.
///
/// Some buttons are reserved by the compositor. These buttons may not be
/// assigned to any wp_tablet_pad_group. Compositors may broadcast this
/// event in the case of changes to the mapping of these reserved buttons.
/// If the compositor happens to reserve all buttons in a group, this event
/// will be sent with an empty array.
///
/// The message of this event, from the object `object`.
pub fn buttons(object: u32, buttons_value: Vec<u8>) -> (m: Message)
    requires
        object != 0,
    ensures
        carries(m, object, 0, seq![ArgValue::Array(buttons_value@)]),
        pending_fds(m) == Seq::<i32>::empty(),
{
    let args = vec![Arg::Array(buttons_value)];
    assert(views(args@) =~= seq![ArgValue::Array(buttons_value@)]);
    encode_message(object, 0, &args)
}

/// Sent on wp_tablet_pad_group initialization to announce available rings.
/// One event is sent for each ring available on this pad group.
///
/// This event is sent in the initial burst of events before the
/// wp_tablet_pad_group.done event.
///
/// The message of this event, from the object `object`.
pub fn ring(object: u32, ring_value: u32) -> (m: Message)
    requires
        object != 0,
        ring_value != 0,
    ensures
        carries(m, object, 1, seq![ArgValue::Object(ring_value)]),
        pending_fds(m) == Seq::<i32>::empty(),
{
    let args = vec![Arg::Object(ring_value)];
    assert(views(args@) =~= seq![ArgValue::Object(ring_value)]);
    encode_message(object, 1, &args)
}

/// Sent on wp_tablet_pad initialization to announce available strips.
/// One event is sent for each strip available on this pad group.
///
/// This event is sent in the initial burst of events before the
/// wp_tablet_pad_group.done event.
///
/// The message of this event, from the object `object`.
pub fn strip(object: u32, strip_value: u32) -> (m: Message)
    requires
        object != 0,
        strip_value != 0,
    ensures
        carries(m, object, 2, seq![ArgValue::Object(strip_value)]),
        pending_fds(m) == Seq::<i32>::empty(),
{
    let args = vec![Arg::Object(strip_value)];
    assert(views(args@) =~= seq![ArgValue::Object(strip_value)]);
    encode_message(object, 2, &args)
}

/// Sent on wp_tablet_pad_group initialization to announce that the pad
/// group may switch between modes. A client may use a mode to store a
/// specific configuration for buttons, rings and strips and use the
/// wl_tablet_pad_group.mode_switch event to toggle between these
/// configurations. Mode indices start at 0.
///
/// Switching modes is compositor-dependent. See the
/// wp_tablet_pad_group.mode_switch event for more details.
///
/// This event is sent in the initial burst of events before the
/// wp_tablet_pad_group.done event. This event is only sent when more than
/// more than one mode is available.
///
/// The message of this event, from the object `object`.
pub fn modes(object: u32, modes_value: u32) -> (m: Message)
    requires
        object != 0,
    ensures
        carries(m, object, 3, seq![ArgValue::Uint(modes_value)]),
        pending_fds(m) == Seq::<i32>::empty(),
{
    let args = vec![Arg::Uint(modes_value)];
    assert(views(args@) =~= seq![ArgValue::Uint(modes_value)]);
    encode_message(object, 3, &args)
}

/// This event is sent immediately to signal the end of the initial
/// burst of descriptive events. A client may consider the static
/// description of the tablet to be complete and finalize initialization
/// of the tablet group.
///
/// The message of this event, from the object `object`.
pub fn done(object: u32) -> (m: Message)
    requires
        object != 0,
    ensures
        carries(m, object, 4, Seq::<ArgValue>::empty()),
        pending_fds(m) == Seq::<i32>::empty(),
{
    let args: Vec<Arg> = Vec::new();
    assert(views(args@) =~= Seq::<ArgValue>::empty());
    encode_message(object, 4, &args)
}

/// Notification that the mode was switched.
///
/// A mode applies to all buttons, rings and strips in a group
/// simultaneously, but a client is not required to assign different actions
/// for each mode. For example, a client may have mode-specific button
/// mappings but map the ring to vertical scrolling in all modes. Mode
/// indices start at 0.
///
/// Switching modes is compositor-dependent. The compositor may provide
/// visual cues to the client about the mode, e.g. by toggling LEDs on
/// the tablet device. Mode-switching may be software-controlled or
/// controlled by one or more physical buttons. For example, on a Wacom
/// Intuos Pro, the button inside the ring may be assigned to switch
/// between modes.
///
/// The compositor will also send this event after wp_tablet_pad.enter on
/// each group in order to notify of the current mode. Groups that only
/// feature one mode will use mode=0 when emitting this event.
///
/// If a button action in the new mode differs from the action in the
/// previous mode, the client should immediately issue a
/// wp_tablet_pad.set_feedback request for each changed button.
///
/// If a ring or strip action in the new mode differs from the action
/// in the previous mode, the client should immediately issue a
/// wp_tablet_ring.set_feedback or wp_tablet_strip.set_feedback request
/// for each changed ring or strip.
///
/// The message of this event, from the object `object`.
pub fn mode_switch(object: u32, time: u32, serial: u32, mode: u32) -> (m: Message)
    requires
        object != 0,
    ensures
        carries(
            m,
            object,
            5,
            seq![ArgValue::Uint(time), ArgValue::Uint(serial), ArgValue::Uint(mode)],
        ),
        pending_fds(m) == Seq::<i32>::empty(),
{
    let args = vec![Arg::Uint(time), Arg::Uint(serial), Arg::Uint(mode)];
    assert(views(args@) =~= seq![
        ArgValue::Uint(time),
        ArgValue::Uint(serial),
        ArgValue::Uint(mode),
    ]);
    encode_message(object, 5, &args)
}

/// The requests of `zwp_tablet_pad_group_v2` as the protocol defines them: the opcode of
/// each, the kinds of its arguments in order, and the field each argument
/// fills; no other opcode names a request.
pub proof fn lemma_protocol_requests()
    ensures
        request_signature(0) == Some(Seq::<ArgKind>::empty()),
        forall|opcode: u16| opcode >= 1 ==> #[trigger] request_signature(opcode) is None,
        forall|req: Request, vals: Seq<ArgValue>| #[trigger] request_fits(req, 0, vals) <==> (req is Destroy && vals == Seq::<ArgValue>::empty()),
{
}

} // verus!
