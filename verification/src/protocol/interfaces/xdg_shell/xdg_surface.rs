//! An interface that may be implemented by a wl_surface, for
//! implementations that provide a desktop-style user interface.
//!
//! The `xdg_surface` interface, version 6: decoding of its
//! requests and encoding of its events.
use crate::codec::{
    Arg, ArgKind, ArgValue, all_fit_wire, carries, encode_message, kind_of, kinds_of,
    lemma_kinds_of, read_args, spec_read_args, take_int, take_nullable_object, take_object,
    take_uint, views,
};
use crate::error::DecodeError;
use crate::error::Error as RequestError;
use crate::wire::{Cursor, cursor_of, message_opcode, opcode_of, pending_fds, same_header};
use vstd::prelude::*;
use waynest::wire::Message;

verus! {

/// The name of the interface.
pub const INTERFACE: &'static str = "xdg_surface";

/// The version of the interface that is implemented.
pub const VERSION: u32 = 6;

#[derive(Debug, PartialEq, Eq, PartialOrd, Ord, Hash, Clone, Copy)]
pub enum Error {
    /// Surface was not fully constructed
    NotConstructed,
    /// Surface was already constructed
    AlreadyConstructed,
    /// Attaching a buffer to an unconfigured surface
    UnconfiguredBuffer,
    /// Invalid serial number when acking a configure event
    InvalidSerial,
    /// Width or height was zero or negative
    InvalidSize,
    /// Surface was destroyed before its role object
    DefunctRoleObject,
}

impl Error {
    /// The word that stands for this value on the wire.
    pub open spec fn wire_value(self) -> u32 {
        match self {
            Error::NotConstructed => 1,
            Error::AlreadyConstructed => 2,
            Error::UnconfiguredBuffer => 3,
            Error::InvalidSerial => 4,
            Error::InvalidSize => 5,
            Error::DefunctRoleObject => 6,
        }
    }

    /// The value a word stands for, if any.
    pub open spec fn from_wire(v: u32) -> Result<Self, DecodeError> {
        match v {
            1 => Ok(Error::NotConstructed),
            2 => Ok(Error::AlreadyConstructed),
            3 => Ok(Error::UnconfiguredBuffer),
            4 => Ok(Error::InvalidSerial),
            5 => Ok(Error::InvalidSize),
            6 => Ok(Error::DefunctRoleObject),
            _ => Err(DecodeError::MalformedPayload),
        }
    }

    /// The word that stands for this value on the wire.
    pub fn to_wire(self) -> (r: u32)
        ensures
            r == self.wire_value(),
    {
        match self {
            Error::NotConstructed => 1,
            Error::AlreadyConstructed => 2,
            Error::UnconfiguredBuffer => 3,
            Error::InvalidSerial => 4,
            Error::InvalidSize => 5,
            Error::DefunctRoleObject => 6,
        }
    }

    /// A value read back from its word is that value, and a word that reads
    /// as a value is that value's word.
    pub proof fn lemma_wire_roundtrip(self, v: u32)
        ensures
            Self::from_wire(self.wire_value()) == Ok::<Self, DecodeError>(self),
            Self::from_wire(v) matches Ok(e) ==> e.wire_value() == v,
    {
    }

    /// The words the protocol gives the values of this enumeration.
    pub proof fn lemma_protocol_values()
        ensures
            Error::NotConstructed.wire_value() == 1,
            Error::AlreadyConstructed.wire_value() == 2,
            Error::UnconfiguredBuffer.wire_value() == 3,
            Error::InvalidSerial.wire_value() == 4,
            Error::InvalidSize.wire_value() == 5,
            Error::DefunctRoleObject.wire_value() == 6,
            Self::from_wire(1) == Ok::<Self, DecodeError>(Error::NotConstructed),
            Self::from_wire(2) == Ok::<Self, DecodeError>(Error::AlreadyConstructed),
            Self::from_wire(3) == Ok::<Self, DecodeError>(Error::UnconfiguredBuffer),
            Self::from_wire(4) == Ok::<Self, DecodeError>(Error::InvalidSerial),
            Self::from_wire(5) == Ok::<Self, DecodeError>(Error::InvalidSize),
            Self::from_wire(6) == Ok::<Self, DecodeError>(Error::DefunctRoleObject),
    {
    }
}

impl TryFrom<u32> for Error {
    type Error = DecodeError;

    fn try_from(v: u32) -> (r: Result<Self, DecodeError>) {
        match v {
            1 => Ok(Error::NotConstructed),
            2 => Ok(Error::AlreadyConstructed),
            3 => Ok(Error::UnconfiguredBuffer),
            4 => Ok(Error::InvalidSerial),
            5 => Ok(Error::InvalidSize),
            6 => Ok(Error::DefunctRoleObject),
            _ => Err(DecodeError::MalformedPayload),
        }
    }
}

impl vstd::std_specs::convert::TryFromSpecImpl<u32> for Error {
    open spec fn obeys_try_from_spec() -> bool {
        true
    }

    open spec fn try_from_spec(v: u32) -> Result<Self, DecodeError> {
        Self::from_wire(v)
    }
}

/// A request of `xdg_surface`, decoded from the wire.
#[derive(Debug)]
pub enum Request {
    /// Destroy the xdg_surface object. An xdg_surface must only be destroyed
    /// after its role object has been destroyed, otherwise
    /// a defunct_role_object error is raised.
    Destroy,
    /// This creates an xdg_toplevel object for the given xdg_surface and gives
    /// the associated wl_surface the xdg_toplevel role.
    GetToplevel {
        id: u32,
    },
    /// This creates an xdg_popup object for the given xdg_surface and gives
    /// the associated wl_surface the xdg_popup role.
    GetPopup {
        id: u32,
        parent: Option<u32>,
        positioner: u32,
    },
    /// The window geometry of a surface is its "visible bounds" from the
    /// user's perspective. Client-side decorations often have invisible
    /// portions like drop-shadows which should be ignored for the
    /// purposes of aligning, placing and constraining windows.
    SetWindowGeometry {
        x: i32,
        y: i32,
        width: i32,
        height: i32,
    },
    /// When a configure event is received, if a client commits the
    /// surface in response to the configure event, then the client
    /// must make an ack_configure request sometime before the commit
    /// request, passing along the serial of the configure event.
    AckConfigure {
        serial: u32,
    },
}

/// The kinds of the arguments of the request with opcode `opcode`.
pub open spec fn request_signature(opcode: u16) -> Option<Seq<ArgKind>> {
    match opcode {
        0 => Some(Seq::<ArgKind>::empty()),
        1 => Some(seq![ArgKind::Object]),
        2 => Some(seq![ArgKind::Object, ArgKind::NullableObject, ArgKind::Object]),
        3 => Some(seq![ArgKind::Int, ArgKind::Int, ArgKind::Int, ArgKind::Int]),
        4 => Some(seq![ArgKind::Uint]),
        _ => None,
    }
}

/// Whether decoded arguments hold, where the request takes an enumeration or
/// a bit set, a word that stands for one.
pub open spec fn request_args_valid(opcode: u16, vals: Seq<ArgValue>) -> bool {
    true
}

/// Whether `req` is the request with opcode `opcode` and arguments `vals`.
pub open spec fn request_fits(req: Request, opcode: u16, vals: Seq<ArgValue>) -> bool {
    match req {
        Request::Destroy => {
            &&& opcode == 0
            &&& vals == Seq::<ArgValue>::empty()
        },
        Request::GetToplevel { id } => {
            &&& opcode == 1
            &&& vals == seq![ArgValue::Object(id)]
        },
        Request::GetPopup { id, parent, positioner } => {
            &&& opcode == 2
            &&& vals == seq![
                ArgValue::Object(id),
                ArgValue::NullableObject(parent),
                ArgValue::Object(positioner),
            ]
        },
        Request::SetWindowGeometry { x, y, width, height } => {
            &&& opcode == 3
            &&& vals == seq![
                ArgValue::Int(x),
                ArgValue::Int(y),
                ArgValue::Int(width),
                ArgValue::Int(height),
            ]
        },
        Request::AckConfigure { serial } => {
            &&& opcode == 4
            &&& vals == seq![ArgValue::Uint(serial)]
        },
    }
}

/// What decoding a request with opcode `opcode` from the payload and file
/// descriptors of `c` gives.
pub open spec fn request_outcome(opcode: u16, c: Cursor, r: Result<Request, RequestError>) -> bool {
    match request_signature(opcode) {
        None => r == Err::<Request, RequestError>(RequestError::UnknownOpcode(opcode)),
        Some(sig) => match spec_read_args(sig, c) {
            None => r == Err::<Request, RequestError>(RequestError::MalformedPayload),
            Some((vals, _)) => if request_args_valid(opcode, vals) {
                r matches Ok(req) && request_fits(req, opcode, vals)
            } else {
                r == Err::<Request, RequestError>(RequestError::MalformedPayload)
            },
        },
    }
}

/// A message that carries, for an object of `xdg_surface`, arguments `vals` of
/// the kinds the request with opcode `opcode` takes decodes to that request
/// with those arguments, where they fit the wire and name known values of
/// its enumerations; where they name unknown values, it is refused as
/// malformed.
pub proof fn lemma_request_roundtrip(
    m: Message,
    object: u32,
    opcode: u16,
    vals: Seq<ArgValue>,
    r: Result<Request, RequestError>,
)
    requires
        request_signature(opcode) == Some(kinds_of(vals)),
        carries(m, object, opcode, vals),
        all_fit_wire(vals),
        request_outcome(message_opcode(m), cursor_of(m), r),
    ensures
        request_args_valid(opcode, vals) ==> (r matches Ok(req) && request_fits(req, opcode, vals)),
        !request_args_valid(opcode, vals) ==> r == Err::<Request, RequestError>(
            RequestError::MalformedPayload,
        ),
{
}

fn signature(opcode: u16) -> (r: Option<Vec<ArgKind>>)
    ensures
        match request_signature(opcode) {
            None => r is None,
            Some(sig) => r matches Some(v) && v@ == sig,
        },
{
    match opcode {
        0 => Some(Vec::new()),
        1 => Some(vec![ArgKind::Object]),
        2 => Some(vec![ArgKind::Object, ArgKind::NullableObject, ArgKind::Object]),
        3 => Some(vec![ArgKind::Int, ArgKind::Int, ArgKind::Int, ArgKind::Int]),
        4 => Some(vec![ArgKind::Uint]),
        _ => None,
    }
}

fn decode_destroy(args: Vec<Arg>) -> (r: Result<Request, RequestError>)
    requires
        kinds_of(views(args@)) == Seq::<ArgKind>::empty(),
    ensures
        if request_args_valid(0, views(args@)) {
            r matches Ok(req) && request_fits(req, 0, views(args@))
        } else {
            r == Err::<Request, RequestError>(RequestError::MalformedPayload)
        },
{
    let ghost vals = views(args@);
    proof {
        lemma_kinds_of(vals);
    }
    assert(vals =~= Seq::<ArgValue>::empty());
    Ok(Request::Destroy)
}

fn decode_get_toplevel(args: Vec<Arg>) -> (r: Result<Request, RequestError>)
    requires
        kinds_of(views(args@)) == seq![ArgKind::Object],
    ensures
        if request_args_valid(1, views(args@)) {
            r matches Ok(req) && request_fits(req, 1, views(args@))
        } else {
            r == Err::<Request, RequestError>(RequestError::MalformedPayload)
        },
{
    let ghost vals = views(args@);
    let mut args = args;
    proof {
        lemma_kinds_of(vals);
    }
    assert(vals.len() == 1);
    assert(views(args@) =~= vals.skip(0));
    assert(kind_of(vals[0]) == ArgKind::Object);
    let id = take_object(&mut args);
    assert(vals =~= seq![ArgValue::Object(id)]);
    Ok(Request::GetToplevel { id })
}

fn decode_get_popup(args: Vec<Arg>) -> (r: Result<Request, RequestError>)
    requires
        kinds_of(views(args@)) == seq![ArgKind::Object, ArgKind::NullableObject, ArgKind::Object],
    ensures
        if request_args_valid(2, views(args@)) {
            r matches Ok(req) && request_fits(req, 2, views(args@))
        } else {
            r == Err::<Request, RequestError>(RequestError::MalformedPayload)
        },
{
    let ghost vals = views(args@);
    let mut args = args;
    proof {
        lemma_kinds_of(vals);
    }
    assert(vals.len() == 3);
    assert(views(args@) =~= vals.skip(0));
    assert(kind_of(vals[0]) == ArgKind::Object);
    let id = take_object(&mut args);
    assert(views(args@) =~= vals.skip(1));
    assert(kind_of(vals[1]) == ArgKind::NullableObject);
    let parent = take_nullable_object(&mut args);
    assert(views(args@) =~= vals.skip(2));
    assert(kind_of(vals[2]) == ArgKind::Object);
    let positioner = take_object(&mut args);
    assert(vals =~= seq![
        ArgValue::Object(id),
        ArgValue::NullableObject(parent),
        ArgValue::Object(positioner),
    ]);
    Ok(Request::GetPopup { id, parent, positioner })
}

fn decode_set_window_geometry(args: Vec<Arg>) -> (r: Result<Request, RequestError>)
    requires
        kinds_of(views(args@)) == seq![ArgKind::Int, ArgKind::Int, ArgKind::Int, ArgKind::Int],
    ensures
        if request_args_valid(3, views(args@)) {
            r matches Ok(req) && request_fits(req, 3, views(args@))
        } else {
            r == Err::<Request, RequestError>(RequestError::MalformedPayload)
        },
{
    let ghost vals = views(args@);
    let mut args = args;
    proof {
        lemma_kinds_of(vals);
    }
    assert(vals.len() == 4);
    assert(views(args@) =~= vals.skip(0));
    assert(kind_of(vals[0]) == ArgKind::Int);
    let x = take_int(&mut args);
    assert(views(args@) =~= vals.skip(1));
    assert(kind_of(vals[1]) == ArgKind::Int);
    let y = take_int(&mut args);
    assert(views(args@) =~= vals.skip(2));
    assert(kind_of(vals[2]) == ArgKind::Int);
    let width = take_int(&mut args);
    assert(views(args@) =~= vals.skip(3));
    assert(kind_of(vals[3]) == ArgKind::Int);
    let height = take_int(&mut args);
    assert(vals =~= seq![
        ArgValue::Int(x),
        ArgValue::Int(y),
        ArgValue::Int(width),
        ArgValue::Int(height),
    ]);
    Ok(Request::SetWindowGeometry { x, y, width, height })
}

fn decode_ack_configure(args: Vec<Arg>) -> (r: Result<Request, RequestError>)
    requires
        kinds_of(views(args@)) == seq![ArgKind::Uint],
    ensures
        if request_args_valid(4, views(args@)) {
            r matches Ok(req) && request_fits(req, 4, views(args@))
        } else {
            r == Err::<Request, RequestError>(RequestError::MalformedPayload)
        },
{
    let ghost vals = views(args@);
    let mut args = args;
    proof {
        lemma_kinds_of(vals);
    }
    assert(vals.len() == 1);
    assert(views(args@) =~= vals.skip(0));
    assert(kind_of(vals[0]) == ArgKind::Uint);
    let serial = take_uint(&mut args);
    assert(vals =~= seq![ArgValue::Uint(serial)]);
    Ok(Request::AckConfigure { serial })
}

fn into_request(opcode: u16, args: Vec<Arg>) -> (r: Result<Request, RequestError>)
    requires
        request_signature(opcode) == Some(kinds_of(views(args@))),
    ensures
        if request_args_valid(opcode, views(args@)) {
            r matches Ok(req) && request_fits(req, opcode, views(args@))
        } else {
            r == Err::<Request, RequestError>(RequestError::MalformedPayload)
        },
{
    match opcode {
        0 => decode_destroy(args),
        1 => decode_get_toplevel(args),
        2 => decode_get_popup(args),
        3 => decode_set_window_geometry(args),
        4 => decode_ack_configure(args),
        _ => {
            proof {
                assert(false);
            }
            Err(RequestError::UnknownOpcode(opcode))
        },
    }
}

/// Decodes the request a message carries for a `xdg_surface` object: its opcode
/// picks the request, and its payload and file descriptors give the
/// arguments, in order.
pub fn handle_request(message: &mut Message) -> (r: Result<Request, RequestError>)
    ensures
        same_header(*old(message), *final(message)),
        request_outcome(message_opcode(*old(message)), cursor_of(*old(message)), r),
{
    let opcode = opcode_of(message);
    match signature(opcode) {
        None => Err(RequestError::UnknownOpcode(opcode)),
        Some(sig) => match read_args(message, &sig) {
            None => Err(RequestError::MalformedPayload),
            Some(args) => into_request(opcode, args),
        },
    }
}

/// The configure event marks the end of a configure sequence. A configure
/// sequence is a set of one or more events configuring the state of the
/// xdg_surface, including the final xdg_surface.configure event.
///
/// Where applicable, xdg_surface surface roles will during a configure
/// sequence extend this event as a latched state sent as events before the
/// xdg_surface.configure event. Such events should be considered to make up
/// a set of atomically applied configuration states, where the
/// xdg_surface.configure commits the accumulated state.
///
/// Clients should arrange their surface for the new states, and then send
/// an ack_configure request with the serial sent in this configure event at
/// some point before committing the new surface.
///
/// If the client receives multiple configure events before it can respond
/// to one, it is free to discard all but the last event it received.
///
/// The message of this event, from the object `object`.
pub fn configure(object: u32, serial: u32) -> (m: Message)
    requires
        object != 0,
    ensures
        carries(m, object, 0, seq![ArgValue::Uint(serial)]),
        pending_fds(m) == Seq::<i32>::empty(),
{
    let args = vec![Arg::Uint(serial)];
    assert(views(args@) =~= seq![ArgValue::Uint(serial)]);
    encode_message(object, 0, &args)
}

/// The requests of `xdg_surface` as the protocol defines them: the opcode of
/// each, the kinds of its arguments in order, and the field each argument
/// fills; no other opcode names a request.
pub proof fn lemma_protocol_requests()
    ensures
        request_signature(0) == Some(Seq::<ArgKind>::empty()),
        request_signature(1) == Some(seq![ArgKind::Object]),
        request_signature(2) == Some(seq![
            ArgKind::Object,
            ArgKind::NullableObject,
            ArgKind::Object,
        ]),
        request_signature(3) == Some(seq![ArgKind::Int, ArgKind::Int, ArgKind::Int, ArgKind::Int]),
        request_signature(4) == Some(seq![ArgKind::Uint]),
        forall|opcode: u16| opcode >= 5 ==> #[trigger] request_signature(opcode) is None,
        forall|req: Request, vals: Seq<ArgValue>| #[trigger] request_fits(req, 0, vals) <==> (req is Destroy && vals == Seq::<ArgValue>::empty()),
        forall|req: Request, vals: Seq<ArgValue>| #[trigger] request_fits(req, 1, vals) <==> (req matches Request::GetToplevel { id } && vals == seq![ArgValue::Object(id)]),
        forall|req: Request, vals: Seq<ArgValue>| #[trigger] request_fits(req, 2, vals) <==> (req matches Request::GetPopup { id, parent, positioner } && vals == seq![
            ArgValue::Object(id),
            ArgValue::NullableObject(parent),
            ArgValue::Object(positioner),
        ]),
        forall|req: Request, vals: Seq<ArgValue>| #[trigger] request_fits(req, 3, vals) <==> (req matches Request::SetWindowGeometry { x, y, width, height } && vals == seq![
            ArgValue::Int(x),
            ArgValue::Int(y),
            ArgValue::Int(width),
            ArgValue::Int(height),
        ]),
        forall|req: Request, vals: Seq<ArgValue>| #[trigger] request_fits(req, 4, vals) <==> (req matches Request::AckConfigure { serial } && vals == seq![ArgValue::Uint(serial)]),
{
}

} // verus!
