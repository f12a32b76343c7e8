//! The wl_touch interface represents a touchscreen
//! associated with a seat.
//!
//! The `wl_touch` interface, version 9: decoding of its
//! requests and encoding of its events.
use crate::codec::{
    Arg, ArgKind, ArgValue, Fixed, all_fit_wire, carries, encode_message, kinds_of, lemma_kinds_of,
    read_args, spec_read_args, views,
};
use crate::error::Error as RequestError;
use crate::wire::{Cursor, cursor_of, message_opcode, opcode_of, pending_fds, same_header};
use vstd::prelude::*;
use waynest::wire::Message;

verus! {

/// The name of the interface.
pub const INTERFACE: &'static str = "wl_touch";

/// The version of the interface that is implemented.
pub const VERSION: u32 = 9;

/// A request of `wl_touch`, decoded from the wire.
#[derive(Debug)]
pub enum Request {
    Release,
}

/// The kinds of the arguments of the request with opcode `opcode`.
pub open spec fn request_signature(opcode: u16) -> Option<Seq<ArgKind>> {
    match opcode {
        0 => Some(Seq::<ArgKind>::empty()),
        _ => None,
    }
}

/// Whether decoded arguments hold, where the request takes an enumeration or
/// a bit set, a word that stands for one.
pub open spec fn request_args_valid(opcode: u16, vals: Seq<ArgValue>) -> bool {
    true
}

/// Whether `req` is the request with opcode `opcode` and arguments `vals`.
pub open spec fn request_fits(req: Request, opcode: u16, vals: Seq<ArgValue>) -> bool {
    match req {
        Request::Release => {
            &&& opcode == 0
            &&& vals == Seq::<ArgValue>::empty()
        },
    }
}

/// What decoding a request with opcode `opcode` from the payload and file
/// descriptors of `c` gives.
pub open spec fn request_outcome(opcode: u16, c: Cursor, r: Result<Request, RequestError>) -> bool {
    match request_signature(opcode) {
        None => r == Err::<Request, RequestError>(RequestError::UnknownOpcode(opcode)),
        Some(sig) => match spec_read_args(sig, c) {
            None => r == Err::<Request, RequestError>(RequestError::MalformedPayload),
            Some((vals, _)) => if request_args_valid(opcode, vals) {
                r matches Ok(req) && request_fits(req, opcode, vals)
            } else {
                r == Err::<Request, RequestError>(RequestError::MalformedPayload)
            },
        },
    }
}

/// A message that carries, for an object of `wl_touch`, arguments `vals` of
/// the kinds the request with opcode `opcode` takes decodes to that request
/// with those arguments, where they fit the wire and name known values of
/// its enumerations; where they name unknown values, it is refused as
/// malformed.
pub proof fn lemma_request_roundtrip(
    m: Message,
    object: u32,
    opcode: u16,
    vals: Seq<ArgValue>,
    r: Result<Request, RequestError>,
)
    requires
        request_signature(opcode) == Some(kinds_of(vals)),
        carries(m, object, opcode, vals),
        all_fit_wire(vals),
        request_outcome(message_opcode(m), cursor_of(m), r),
    ensures
        request_args_valid(opcode, vals) ==> (r matches Ok(req) && request_fits(req, opcode, vals)),
        !request_args_valid(opcode, vals) ==> r == Err::<Request, RequestError>(
            RequestError::MalformedPayload,
        ),
{
}

fn signature(opcode: u16) -> (r: Option<Vec<ArgKind>>)
    ensures
        match request_signature(opcode) {
            None => r is None,
            Some(sig) => r matches Some(v) && v@ == sig,
        },
{
    match opcode {
        0 => Some(Vec::new()),
        _ => None,
    }
}

fn decode_release(args: Vec<Arg>) -> (r: Result<Request, RequestError>)
    requires
        kinds_of(views(args@)) == Seq::<ArgKind>::empty(),
    ensures
        if request_args_valid(0, views(args@)) {
            r matches Ok(req) && request_fits(req, 0, views(args@))
        } else {
            r == Err::<Request, RequestError>(RequestError::MalformedPayload)
        },
{
    let ghost vals = views(args@);
    proof {
        lemma_kinds_of(vals);
    }
    assert(vals =~= Seq::<ArgValue>::empty());
    Ok(Request::Release)
}

fn into_request(opcode: u16, args: Vec<Arg>) -> (r: Result<Request, RequestError>)
    requires
        request_signature(opcode) == Some(kinds_of(views(args@))),
    ensures
        if request_args_valid(opcode, views(args@)) {
            r matches Ok(req) && request_fits(req, opcode, views(args@))
        } else {
            r == Err::<Request, RequestError>(RequestError::MalformedPayload)
        },
{
    match opcode {
        0 => decode_release(args),
        _ => {
            proof {
                assert(false);
            }
            Err(RequestError::UnknownOpcode(opcode))
        },
    }
}

/// Decodes the request a message carries for a `wl_touch` object: its opcode
/// picks the request, and its payload and file descriptors give the
/// arguments, in order.
pub fn handle_request(message: &mut Message) -> (r: Result<Request, RequestError>)
    ensures
        same_header(*old(message), *final(message)),
        request_outcome(message_opcode(*old(message)), cursor_of(*old(message)), r),
{
    let opcode = opcode_of(message);
    match signature(opcode) {
        None => Err(RequestError::UnknownOpcode(opcode)),
        Some(sig) => match read_args(message, &sig) {
            None => Err(RequestError::MalformedPayload),
            Some(args) => into_request(opcode, args),
        },
    }
}

/// A new touch point has appeared on the surface. This touch point is
/// assigned a unique ID. Future events from this touch point reference
/// this ID. The ID ceases to be valid after a touch up event and may be
/// reused in the future.
///
/// The message of this event, from the object `object`.
pub fn down(
    object: u32,
    serial: u32,
    time: u32,
    surface: u32,
    id: i32,
    x: Fixed,
    y: Fixed,
) -> (m: Message)
    requires
        object != 0,
        surface != 0,
    ensures
        carries(
            m,
            object,
            0,
            seq![
                ArgValue::Uint(serial),
                ArgValue::Uint(time),
                ArgValue::Object(surface),
                ArgValue::Int(id),
                ArgValue::Fixed(x.raw),
                ArgValue::Fixed(y.raw),
            ],
        ),
        pending_fds(m) == Seq::<i32>::empty(),
{
    let args = vec![
        Arg::Uint(serial),
        Arg::Uint(time),
        Arg::Object(surface),
        Arg::Int(id),
        Arg::Fixed(x.raw),
        Arg::Fixed(y.raw),
    ];
    assert(views(args@) =~= seq![
        ArgValue::Uint(serial),
        ArgValue::Uint(time),
        ArgValue::Object(surface),
        ArgValue::Int(id),
        ArgValue::Fixed(x.raw),
        ArgValue::Fixed(y.raw),
    ]);
    encode_message(object, 0, &args)
}

/// The touch point has disappeared. No further events will be sent for
/// this touch point and the touch point's ID is released and may be
/// reused in a future touch down event.
///
/// The message of this event, from the object `object`.
pub fn up(object: u32, serial: u32, time: u32, id: i32) -> (m: Message)
    requires
        object != 0,
    ensures
        carries(
            m,
            object,
            1,
            seq![ArgValue::Uint(serial), ArgValue::Uint(time), ArgValue::Int(id)],
        ),
        pending_fds(m) == Seq::<i32>::empty(),
{
    let args = vec![Arg::Uint(serial), Arg::Uint(time), Arg::Int(id)];
    assert(views(args@) =~= seq![ArgValue::Uint(serial), ArgValue::Uint(time), ArgValue::Int(id)]);
    encode_message(object, 1, &args)
}

/// A touch point has changed coordinates.
///
/// The message of this event, from the object `object`.
pub fn motion(object: u32, time: u32, id: i32, x: Fixed, y: Fixed) -> (m: Message)
    requires
        object != 0,
    ensures
        carries(
            m,
            object,
            2,
            seq![
                ArgValue::Uint(time),
                ArgValue::Int(id),
                ArgValue::Fixed(x.raw),
                ArgValue::Fixed(y.raw),
            ],
        ),
        pending_fds(m) == Seq::<i32>::empty(),
{
    let args = vec![Arg::Uint(time), Arg::Int(id), Arg::Fixed(x.raw), Arg::Fixed(y.raw)];
    assert(views(args@) =~= seq![
        ArgValue::Uint(time),
        ArgValue::Int(id),
        ArgValue::Fixed(x.raw),
        ArgValue::Fixed(y.raw),
    ]);
    encode_message(object, 2, &args)
}

/// Indicates the end of a set of events that logically belong together.
/// A client is expected to accumulate the data in all events within the
/// frame before proceeding.
///
/// A wl_touch.frame terminates at least one event but otherwise no
/// guarantee is provided about the set of events within a frame. A client
/// must assume that any state not updated in a frame is unchanged from the
/// previously known state.
///
/// The message of this event, from the object `object`.
pub fn frame(object: u32) -> (m: Message)
    requires
        object != 0,
    ensures
        carries(m, object, 3, Seq::<ArgValue>::empty()),
        pending_fds(m) == Seq::<i32>::empty(),
{
    let args: Vec<Arg> = Vec::new();
    assert(views(args@) =~= Seq::<ArgValue>::empty());
    encode_message(object, 3, &args)
}

/// Sent if the compositor decides the touch stream is a global
/// gesture. No further events are sent to the clients from that
/// particular gesture. Touch cancellation applies to all touch points
/// currently active on this client's surface. The client is
/// responsible for finalizing the touch points, future touch points on
/// this surface may reuse the touch point ID.
///
/// No frame event is required after the cancel event.
///
/// The message of this event, from the object `object`.
pub fn cancel(object: u32) -> (m: Message)
    requires
        object != 0,
    ensures
        carries(m, object, 4, Seq::<ArgValue>::empty()),
        pending_fds(m) == Seq::<i32>::empty(),
{
    let args: Vec<Arg> = Vec::new();
    assert(views(args@) =~= Seq::<ArgValue>::empty());
    encode_message(object, 4, &args)
}

/// Sent when a touchpoint has changed its shape.
///
/// This event does not occur on its own. It is sent before a
/// wl_touch.frame event and carries the new shape information for
/// any previously reported, or new touch points of that frame.
///
/// Other events describing the touch point such as wl_touch.down,
/// wl_touch.motion or wl_touch.orientation may be sent within the
/// same wl_touch.frame. A client should treat these events as a single
/// logical touch point update. The order of wl_touch.shape,
/// wl_touch.orientation and wl_touch.motion is not guaranteed.
/// A wl_touch.down event is guaranteed to occur before the first
/// wl_touch.shape event for this touch ID but both events may occur within
/// the same wl_touch.frame.
///
/// A touchpoint shape is approximated by an ellipse through the major and
/// minor axis length. The major axis length describes the longer diameter
/// of the ellipse, while the minor axis length describes the shorter
/// diameter. Major and minor are orthogonal and both are specified in
/// surface-local coordinates. The center of the ellipse is always at the
/// touchpoint location as reported by wl_touch.down or wl_touch.move.
///
/// This event is only sent by the compositor if the touch device supports
/// shape reports. The client has to make reasonable assumptions about the
/// shape if it did not receive this event.
///
/// The message of this event, from the object `object`.
pub fn shape(object: u32, id: i32, major: Fixed, minor: Fixed) -> (m: Message)
    requires
        object != 0,
    ensures
        carries(
            m,
            object,
            5,
            seq![ArgValue::Int(id), ArgValue::Fixed(major.raw), ArgValue::Fixed(minor.raw)],
        ),
        pending_fds(m) == Seq::<i32>::empty(),
{
    let args = vec![Arg::Int(id), Arg::Fixed(major.raw), Arg::Fixed(minor.raw)];
    assert(views(args@) =~= seq![
        ArgValue::Int(id),
        ArgValue::Fixed(major.raw),
        ArgValue::Fixed(minor.raw),
    ]);
    encode_message(object, 5, &args)
}

/// Sent when a touchpoint has changed its orientation.
///
/// This event does not occur on its own. It is sent before a
/// wl_touch.frame event and carries the new shape information for
/// any previously reported, or new touch points of that frame.
///
/// Other events describing the touch point such as wl_touch.down,
/// wl_touch.motion or wl_touch.shape may be sent within the
/// same wl_touch.frame. A client should treat these events as a single
/// logical touch point update. The order of wl_touch.shape,
/// wl_touch.orientation and wl_touch.motion is not guaranteed.
/// A wl_touch.down event is guaranteed to occur before the first
/// wl_touch.orientation event for this touch ID but both events may occur
/// within the same wl_touch.frame.
///
/// The orientation describes the clockwise angle of a touchpoint's major
/// axis to the positive surface y-axis and is normalized to the -180 to
/// +180 degree range. The granularity of orientation depends on the touch
/// device, some devices only support binary rotation values between 0 and
/// 90 degrees.
///
/// This event is only sent by the compositor if the touch device supports
/// orientation reports.
///
/// The message of this event, from the object `object`.
pub fn orientation(object: u32, id: i32, orientation_value: Fixed) -> (m: Message)
    requires
        object != 0,
    ensures
        carries(m, object, 6, seq![ArgValue::Int(id), ArgValue::Fixed(orientation_value.raw)]),
        pending_fds(m) == Seq::<i32>::empty(),
{
    let args = vec![Arg::Int(id), Arg::Fixed(orientation_value.raw)];
    assert(views(args@) =~= seq![ArgValue::Int(id), ArgValue::Fixed(orientation_value.raw)]);
    encode_message(object, 6, &args)
}

/// The requests of `wl_touch` as the protocol defines them: the opcode of
/// each, the kinds of its arguments in order, and the field each argument
/// fills; no other opcode names a request.
pub proof fn lemma_protocol_requests()
    ensures
        request_signature(0) == Some(Seq::<ArgKind>::empty()),
        forall|opcode: u16| opcode >= 1 ==> #[trigger] request_signature(opcode) is None,
        forall|req: Request, vals: Seq<ArgValue>| #[trigger] request_fits(req, 0, vals) <==> (req is Release && vals == Seq::<ArgValue>::empty()),
{
}

} // verus!
