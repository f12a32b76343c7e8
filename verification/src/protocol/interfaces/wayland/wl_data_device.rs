//! There is one wl_data_device per seat which can be obtained
//! from the global wl_data_device_manager singleton.
//!
//! The `wl_data_device` interface, version 3: decoding of its
//! requests and encoding of its events.
use crate::codec::{
    Arg, ArgKind, ArgValue, Fixed, all_fit_wire, carries, encode_message, kind_of, kinds_of,
    lemma_kinds_of, read_args, spec_read_args, take_nullable_object, take_object, take_uint, views,
};
use crate::error::DecodeError;
use crate::error::Error as RequestError;
use crate::wire::{Cursor, cursor_of, finish, message_opcode, opcode_of, pending_fds, same_header};
use vstd::prelude::*;
use waynest::wire::Message;

verus! {

/// The name of the interface.
pub const INTERFACE: &'static str = "wl_data_device";

/// The version of the interface that is implemented.
pub const VERSION: u32 = 3;

#[derive(Debug, PartialEq, Eq, PartialOrd, Ord, Hash, Clone, Copy)]
pub enum Error {
    /// Given wl_surface has another role
    Role,
    /// Source has already been used
    UsedSource,
}

impl Error {
    /// The word that stands for this value on the wire.
    pub open spec fn wire_value(self) -> u32 {
        match self {
            Error::Role => 0,
            Error::UsedSource => 1,
        }
    }

    /// The value a word stands for, if any.
    pub open spec fn from_wire(v: u32) -> Result<Self, DecodeError> {
        match v {
            0 => Ok(Error::Role),
            1 => Ok(Error::UsedSource),
            _ => Err(DecodeError::MalformedPayload),
        }
    }

    /// The word that stands for this value on the wire.
    pub fn to_wire(self) -> (r: u32)
        ensures
            r == self.wire_value(),
    {
        match self {
            Error::Role => 0,
            Error::UsedSource => 1,
        }
    }

    /// A value read back from its word is that value, and a word that reads
    /// as a value is that value's word.
    pub proof fn lemma_wire_roundtrip(self, v: u32)
        ensures
            Self::from_wire(self.wire_value()) == Ok::<Self, DecodeError>(self),
            Self::from_wire(v) matches Ok(e) ==> e.wire_value() == v,
    {
    }

    /// The words the protocol gives the values of this enumeration.
    pub proof fn lemma_protocol_values()
        ensures
            Error::Role.wire_value() == 0,
            Error::UsedSource.wire_value() == 1,
            Self::from_wire(0) == Ok::<Self, DecodeError>(Error::Role),
            Self::from_wire(1) == Ok::<Self, DecodeError>(Error::UsedSource),
    {
    }
}

impl TryFrom<u32> for Error {
    type Error = DecodeError;

    fn try_from(v: u32) -> (r: Result<Self, DecodeError>) {
        match v {
            0 => Ok(Error::Role),
            1 => Ok(Error::UsedSource),
            _ => Err(DecodeError::MalformedPayload),
        }
    }
}

impl vstd::std_specs::convert::TryFromSpecImpl<u32> for Error {
    open spec fn obeys_try_from_spec() -> bool {
        true
    }

    open spec fn try_from_spec(v: u32) -> Result<Self, DecodeError> {
        Self::from_wire(v)
    }
}

/// A request of `wl_data_device`, decoded from the wire.
#[derive(Debug)]
pub enum Request {
    /// This request asks the compositor to start a drag-and-drop
    /// operation on behalf of the client.
    StartDrag {
        source: Option<u32>,
        origin: u32,
        icon: Option<u32>,
        serial: u32,
    },
    /// This request asks the compositor to set the selection
    /// to the data from the source on behalf of the client.
    SetSelection {
        source: Option<u32>,
        serial: u32,
    },
    /// This request destroys the data device.
    Release,
}

/// The kinds of the arguments of the request with opcode `opcode`.
pub open spec fn request_signature(opcode: u16) -> Option<Seq<ArgKind>> {
    match opcode {
        0 => Some(seq![
            ArgKind::NullableObject,
            ArgKind::Object,
            ArgKind::NullableObject,
            ArgKind::Uint,
        ]),
        1 => Some(seq![ArgKind::NullableObject, ArgKind::Uint]),
        2 => Some(Seq::<ArgKind>::empty()),
        _ => None,
    }
}

/// Whether decoded arguments hold, where the request takes an enumeration or
/// a bit set, a word that stands for one.
pub open spec fn request_args_valid(opcode: u16, vals: Seq<ArgValue>) -> bool {
    true
}

/// Whether `req` is the request with opcode `opcode` and arguments `vals`.
pub open spec fn request_fits(req: Request, opcode: u16, vals: Seq<ArgValue>) -> bool {
    match req {
        Request::StartDrag { source, origin, icon, serial } => {
            &&& opcode == 0
            &&& vals == seq![
                ArgValue::NullableObject(source),
                ArgValue::Object(origin),
                ArgValue::NullableObject(icon),
                ArgValue::Uint(serial),
            ]
        },
        Request::SetSelection { source, serial } => {
            &&& opcode == 1
            &&& vals == seq![ArgValue::NullableObject(source), ArgValue::Uint(serial)]
        },
        Request::Release => {
            &&& opcode == 2
            &&& vals == Seq::<ArgValue>::empty()
        },
    }
}

/// What decoding a request with opcode `opcode` from the payload and file
/// descriptors of `c` gives.
pub open spec fn request_outcome(opcode: u16, c: Cursor, r: Result<Request, RequestError>) -> bool {
    match request_signature(opcode) {
        None => r == Err::<Request, RequestError>(RequestError::UnknownOpcode(opcode)),
        Some(sig) => match spec_read_args(sig, c) {
            None => r == Err::<Request, RequestError>(RequestError::MalformedPayload),
            Some((vals, _)) => if request_args_valid(opcode, vals) {
                r matches Ok(req) && request_fits(req, opcode, vals)
            } else {
                r == Err::<Request, RequestError>(RequestError::MalformedPayload)
            },
        },
    }
}

/// A message that carries, for an object of `wl_data_device`, arguments `vals` of
/// the kinds the request with opcode `opcode` takes decodes to that request
/// with those arguments, where they fit the wire and name known values of
/// its enumerations; where they name unknown values, it is refused as
/// malformed.
pub proof fn lemma_request_roundtrip(
    m: Message,
    object: u32,
    opcode: u16,
    vals: Seq<ArgValue>,
    r: Result<Request, RequestError>,
)
    requires
        request_signature(opcode) == Some(kinds_of(vals)),
        carries(m, object, opcode, vals),
        all_fit_wire(vals),
        request_outcome(message_opcode(m), cursor_of(m), r),
    ensures
        request_args_valid(opcode, vals) ==> (r matches Ok(req) && request_fits(req, opcode, vals)),
        !request_args_valid(opcode, vals) ==> r == Err::<Request, RequestError>(
            RequestError::MalformedPayload,
        ),
{
}

fn signature(opcode: u16) -> (r: Option<Vec<ArgKind>>)
    ensures
        match request_signature(opcode) {
            None => r is None,
            Some(sig) => r matches Some(v) && v@ == sig,
        },
{
    match opcode {
        0 => Some(vec![
            ArgKind::NullableObject,
            ArgKind::Object,
            ArgKind::NullableObject,
            ArgKind::Uint,
        ]),
        1 => Some(vec![ArgKind::NullableObject, ArgKind::Uint]),
        2 => Some(Vec::new()),
        _ => None,
    }
}

fn decode_start_drag(args: Vec<Arg>) -> (r: Result<Request, RequestError>)
    requires
        kinds_of(views(args@)) == seq![
            ArgKind::NullableObject,
            ArgKind::Object,
            ArgKind::NullableObject,
            ArgKind::Uint,
        ],
    ensures
        if request_args_valid(0, views(args@)) {
            r matches Ok(req) && request_fits(req, 0, views(args@))
        } else {
            r == Err::<Request, RequestError>(RequestError::MalformedPayload)
        },
{
    let ghost vals = views(args@);
    let mut args = args;
    proof {
        lemma_kinds_of(vals);
    }
    assert(vals.len() == 4);
    assert(views(args@) =~= vals.skip(0));
    assert(kind_of(vals[0]) == ArgKind::NullableObject);
    let source = take_nullable_object(&mut args);
    assert(views(args@) =~= vals.skip(1));
    assert(kind_of(vals[1]) == ArgKind::Object);
    let origin = take_object(&mut args);
    assert(views(args@) =~= vals.skip(2));
    assert(kind_of(vals[2]) == ArgKind::NullableObject);
    let icon = take_nullable_object(&mut args);
    assert(views(args@) =~= vals.skip(3));
    assert(kind_of(vals[3]) == ArgKind::Uint);
    let serial = take_uint(&mut args);
    assert(vals =~= seq![
        ArgValue::NullableObject(source),
        ArgValue::Object(origin),
        ArgValue::NullableObject(icon),
        ArgValue::Uint(serial),
    ]);
    Ok(Request::StartDrag { source, origin, icon, serial })
}

fn decode_set_selection(args: Vec<Arg>) -> (r: Result<Request, RequestError>)
    requires
        kinds_of(views(args@)) == seq![ArgKind::NullableObject, ArgKind::Uint],
    ensures
        if request_args_valid(1, views(args@)) {
            r matches Ok(req) && request_fits(req, 1, views(args@))
        } else {
            r == Err::<Request, RequestError>(RequestError::MalformedPayload)
        },
{
    let ghost vals = views(args@);
    let mut args = args;
    proof {
        lemma_kinds_of(vals);
    }
    assert(vals.len() == 2);
    assert(views(args@) =~= vals.skip(0));
    assert(kind_of(vals[0]) == ArgKind::NullableObject);
    let source = take_nullable_object(&mut args);
    assert(views(args@) =~= vals.skip(1));
    assert(kind_of(vals[1]) == ArgKind::Uint);
    let serial = take_uint(&mut args);
    assert(vals =~= seq![ArgValue::NullableObject(source), ArgValue::Uint(serial)]);
    Ok(Request::SetSelection { source, serial })
}

fn decode_release(args: Vec<Arg>) -> (r: Result<Request, RequestError>)
    requires
        kinds_of(views(args@)) == Seq::<ArgKind>::empty(),
    ensures
        if request_args_valid(2, views(args@)) {
            r matches Ok(req) && request_fits(req, 2, views(args@))
        } else {
            r == Err::<Request, RequestError>(RequestError::MalformedPayload)
        },
{
    let ghost vals = views(args@);
    proof {
        lemma_kinds_of(vals);
    }
    assert(vals =~= Seq::<ArgValue>::empty());
    Ok(Request::Release)
}

fn into_request(opcode: u16, args: Vec<Arg>) -> (r: Result<Request, RequestError>)
    requires
        request_signature(opcode) == Some(kinds_of(views(args@))),
    ensures
        if request_args_valid(opcode, views(args@)) {
            r matches Ok(req) && request_fits(req, opcode, views(args@))
        } else {
            r == Err::<Request, RequestError>(RequestError::MalformedPayload)
        },
{
    match opcode {
        0 => decode_start_drag(args),
        1 => decode_set_selection(args),
        2 => decode_release(args),
        _ => {
            proof {
                assert(false);
            }
            Err(RequestError::UnknownOpcode(opcode))
        },
    }
}

/// Decodes the request a message carries for a `wl_data_device` object: its opcode
/// picks the request, and its payload and file descriptors give the
/// arguments, in order.
pub fn handle_request(message: &mut Message) -> (r: Result<Request, RequestError>)
    ensures
        same_header(*old(message), *final(message)),
        request_outcome(message_opcode(*old(message)), cursor_of(*old(message)), r),
{
    let opcode = opcode_of(message);
    match signature(opcode) {
        None => Err(RequestError::UnknownOpcode(opcode)),
        Some(sig) => match read_args(message, &sig) {
            None => Err(RequestError::MalformedPayload),
            Some(args) => into_request(opcode, args),
        },
    }
}

/// The data_offer event introduces a new wl_data_offer object,
/// which will subsequently be used in either the
/// data_device.enter event (for drag-and-drop) or the
/// data_device.selection event (for selections).  Immediately
/// following the data_device.data_offer event, the new data_offer
/// object will send out data_offer.offer events to describe the
/// mime types it offers.
///
/// The message of this event, from the object `object`.
pub fn data_offer(object: u32, id: u32) -> (m: Message)
    requires
        object != 0,
        id != 0,
    ensures
        carries(m, object, 0, seq![ArgValue::Object(id)]),
        pending_fds(m) == Seq::<i32>::empty(),
{
    let args = vec![Arg::Object(id)];
    assert(views(args@) =~= seq![ArgValue::Object(id)]);
    encode_message(object, 0, &args)
}

/// This event is sent when an active drag-and-drop pointer enters
/// a surface owned by the client.  The position of the pointer at
/// enter time is provided by the x and y arguments, in surface-local
/// coordinates.
///
/// The message of this event, from the object `object`.
pub fn enter(
    object: u32,
    serial: u32,
    surface: u32,
    x: Fixed,
    y: Fixed,
    id: Option<u32>,
) -> (m: Message)
    requires
        object != 0,
        surface != 0,
        id != Some(0u32),
    ensures
        carries(
            m,
            object,
            1,
            seq![
                ArgValue::Uint(serial),
                ArgValue::Object(surface),
                ArgValue::Fixed(x.raw),
                ArgValue::Fixed(y.raw),
                ArgValue::NullableObject(id),
            ],
        ),
        pending_fds(m) == Seq::<i32>::empty(),
{
    let args = vec![
        Arg::Uint(serial),
        Arg::Object(surface),
        Arg::Fixed(x.raw),
        Arg::Fixed(y.raw),
        Arg::NullableObject(id),
    ];
    assert(views(args@) =~= seq![
        ArgValue::Uint(serial),
        ArgValue::Object(surface),
        ArgValue::Fixed(x.raw),
        ArgValue::Fixed(y.raw),
        ArgValue::NullableObject(id),
    ]);
    encode_message(object, 1, &args)
}

/// This event is sent when the drag-and-drop pointer leaves the
/// surface and the session ends.  The client must destroy the
/// wl_data_offer introduced at enter time at this point.
///
/// The message of this event, from the object `object`.
pub fn leave(object: u32) -> (m: Message)
    requires
        object != 0,
    ensures
        carries(m, object, 2, Seq::<ArgValue>::empty()),
        pending_fds(m) == Seq::<i32>::empty(),
{
    let args: Vec<Arg> = Vec::new();
    assert(views(args@) =~= Seq::<ArgValue>::empty());
    encode_message(object, 2, &args)
}

/// This event is sent when the drag-and-drop pointer moves within
/// the currently focused surface. The new position of the pointer
/// is provided by the x and y arguments, in surface-local
/// coordinates.
///
/// The message of this event, from the object `object`.
pub fn motion(object: u32, time: u32, x: Fixed, y: Fixed) -> (m: Message)
    requires
        object != 0,
    ensures
        carries(
            m,
            object,
            3,
            seq![ArgValue::Uint(time), ArgValue::Fixed(x.raw), ArgValue::Fixed(y.raw)],
        ),
        pending_fds(m) == Seq::<i32>::empty(),
{
    let args = vec![Arg::Uint(time), Arg::Fixed(x.raw), Arg::Fixed(y.raw)];
    assert(views(args@) =~= seq![
        ArgValue::Uint(time),
        ArgValue::Fixed(x.raw),
        ArgValue::Fixed(y.raw),
    ]);
    encode_message(object, 3, &args)
}

/// The event is sent when a drag-and-drop operation is ended
/// because the implicit grab is removed.
///
/// The drag-and-drop destination is expected to honor the last action
/// received through wl_data_offer.action, if the resulting action is
/// "copy" or "move", the destination can still perform
/// wl_data_offer.receive requests, and is expected to end all
/// transfers with a wl_data_offer.finish request.
///
/// If the resulting action is "ask", the action will not be considered
/// final. The drag-and-drop destination is expected to perform one last
/// wl_data_offer.set_actions request, or wl_data_offer.destroy in order
/// to cancel the operation.
///
/// The message of this event, from the object `object`.
pub fn drop(object: u32) -> (m: Message)
    requires
        object != 0,
    ensures
        carries(m, object, 4, Seq::<ArgValue>::empty()),
        pending_fds(m) == Seq::<i32>::empty(),
{
    let args: Vec<Arg> = Vec::new();
    assert(views(args@) =~= Seq::<ArgValue>::empty());
    encode_message(object, 4, &args)
}

/// The selection event is sent out to notify the client of a new
/// wl_data_offer for the selection for this device.  The
/// data_device.data_offer and the data_offer.offer events are
/// sent out immediately before this event to introduce the data
/// offer object.  The selection event is sent to a client
/// immediately before receiving keyboard focus and when a new
/// selection is set while the client has keyboard focus.  The
/// data_offer is valid until a new data_offer or NULL is received
/// or until the client loses keyboard focus.  Switching surface with
/// keyboard focus within the same client doesn't mean a new selection
/// will be sent.  The client must destroy the previous selection
/// data_offer, if any, upon receiving this event.
///
/// The message of this event, from the object `object`.
pub fn selection(object: u32, id: Option<u32>) -> (m: Message)
    requires
        object != 0,
        id != Some(0u32),
    ensures
        carries(m, object, 5, seq![ArgValue::NullableObject(id)]),
        pending_fds(m) == Seq::<i32>::empty(),
{
    let args = vec![Arg::NullableObject(id)];
    assert(views(args@) =~= seq![ArgValue::NullableObject(id)]);
    encode_message(object, 5, &args)
}

/// The requests of `wl_data_device` as the protocol defines them: the opcode of
/// each, the kinds of its arguments in order, and the field each argument
/// fills; no other opcode names a request.
pub proof fn lemma_protocol_requests()
    ensures
        request_signature(0) == Some(seq![
            ArgKind::NullableObject,
            ArgKind::Object,
            ArgKind::NullableObject,
            ArgKind::Uint,
        ]),
        request_signature(1) == Some(seq![ArgKind::NullableObject, ArgKind::Uint]),
        request_signature(2) == Some(Seq::<ArgKind>::empty()),
        forall|opcode: u16| opcode >= 3 ==> #[trigger] request_signature(opcode) is None,
        forall|req: Request, vals: Seq<ArgValue>| #[trigger] request_fits(req, 0, vals) <==> (req matches Request::StartDrag {
            source,
            origin,
            icon,
            serial,
        } && vals == seq![
            ArgValue::NullableObject(source),
            ArgValue::Object(origin),
            ArgValue::NullableObject(icon),
            ArgValue::Uint(serial),
        ]),
        forall|req: Request, vals: Seq<ArgValue>| #[trigger] request_fits(req, 1, vals) <==> (req matches Request::SetSelection { source, serial } && vals == seq![
            ArgValue::NullableObject(source),
            ArgValue::Uint(serial),
        ]),
        forall|req: Request, vals: Seq<ArgValue>| #[trigger] request_fits(req, 2, vals) <==> (req is Release && vals == Seq::<ArgValue>::empty()),
{
}

} // verus!
