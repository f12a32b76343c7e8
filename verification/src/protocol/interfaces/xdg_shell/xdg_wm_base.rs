//! The xdg_wm_base interface is exposed as a global object enabling clients
//! to turn their wl_surfaces into windows in a desktop environment. It
//! defines the basic functionality needed for clients and the compositor to
//! create windows that can be dragged, resized, maximized, etc, as well as
//! creating transient windows such as popup menus.
//!
//! The `xdg_wm_base` interface, version 6: decoding of its
//! requests and encoding of its events.
use crate::codec::{
    Arg, ArgKind, ArgValue, all_fit_wire, carries, encode_message, kind_of, kinds_of,
    lemma_kinds_of, read_args, spec_read_args, take_object, take_uint, views,
};
use crate::error::DecodeError;
use crate::error::Error as RequestError;
use crate::wire::{Cursor, cursor_of, message_opcode, opcode_of, pending_fds, same_header};
use vstd::prelude::*;
use waynest::wire::Message;

verus! {

/// The name of the interface.
pub const INTERFACE: &'static str = "xdg_wm_base";

/// The version of the interface that is implemented.
pub const VERSION: u32 = 6;

#[derive(Debug, PartialEq, Eq, PartialOrd, Ord, Hash, Clone, Copy)]
pub enum Error {
    /// Given wl_surface has another role
    Role,
    /// Xdg_wm_base was destroyed before children
    DefunctSurfaces,
    /// The client tried to map or destroy a non-topmost popup
    NotTheTopmostPopup,
    /// The client specified an invalid popup parent surface
    InvalidPopupParent,
    /// The client provided an invalid surface state
    InvalidSurfaceState,
    /// The client provided an invalid positioner
    InvalidPositioner,
    /// The client didn’t respond to a ping event in time
    Unresponsive,
}

impl Error {
    /// The word that stands for this value on the wire.
    pub open spec fn wire_value(self) -> u32 {
        match self {
            Error::Role => 0,
            Error::DefunctSurfaces => 1,
            Error::NotTheTopmostPopup => 2,
            Error::InvalidPopupParent => 3,
            Error::InvalidSurfaceState => 4,
            Error::InvalidPositioner => 5,
            Error::Unresponsive => 6,
        }
    }

    /// The value a word stands for, if any.
    pub open spec fn from_wire(v: u32) -> Result<Self, DecodeError> {
        match v {
            0 => Ok(Error::Role),
            1 => Ok(Error::DefunctSurfaces),
            2 => Ok(Error::NotTheTopmostPopup),
            3 => Ok(Error::InvalidPopupParent),
            4 => Ok(Error::InvalidSurfaceState),
            5 => Ok(Error::InvalidPositioner),
            6 => Ok(Error::Unresponsive),
            _ => Err(DecodeError::MalformedPayload),
        }
    }

    /// The word that stands for this value on the wire.
    pub fn to_wire(self) -> (r: u32)
        ensures
            r == self.wire_value(),
    {
        match self {
            Error::Role => 0,
            Error::DefunctSurfaces => 1,
            Error::NotTheTopmostPopup => 2,
            Error::InvalidPopupParent => 3,
            Error::InvalidSurfaceState => 4,
            Error::InvalidPositioner => 5,
            Error::Unresponsive => 6,
        }
    }

    /// A value read back from its word is that value, and a word that reads
    /// as a value is that value's word.
    pub proof fn lemma_wire_roundtrip(self, v: u32)
        ensures
            Self::from_wire(self.wire_value()) == Ok::<Self, DecodeError>(self),
            Self::from_wire(v) matches Ok(e) ==> e.wire_value() == v,
    {
    }

    /// The words the protocol gives the values of this enumeration.
    pub proof fn lemma_protocol_values()
        ensures
            Error::Role.wire_value() == 0,
            Error::DefunctSurfaces.wire_value() == 1,
            Error::NotTheTopmostPopup.wire_value() == 2,
            Error::InvalidPopupParent.wire_value() == 3,
            Error::InvalidSurfaceState.wire_value() == 4,
            Error::InvalidPositioner.wire_value() == 5,
            Error::Unresponsive.wire_value() == 6,
            Self::from_wire(0) == Ok::<Self, DecodeError>(Error::Role),
            Self::from_wire(1) == Ok::<Self, DecodeError>(Error::DefunctSurfaces),
            Self::from_wire(2) == Ok::<Self, DecodeError>(Error::NotTheTopmostPopup),
            Self::from_wire(3) == Ok::<Self, DecodeError>(Error::InvalidPopupParent),
            Self::from_wire(4) == Ok::<Self, DecodeError>(Error::InvalidSurfaceState),
            Self::from_wire(5) == Ok::<Self, DecodeError>(Error::InvalidPositioner),
            Self::from_wire(6) == Ok::<Self, DecodeError>(Error::Unresponsive),
    {
    }
}

impl TryFrom<u32> for Error {
    type Error = DecodeError;

    fn try_from(v: u32) -> (r: Result<Self, DecodeError>) {
        match v {
            0 => Ok(Error::Role),
            1 => Ok(Error::DefunctSurfaces),
            2 => Ok(Error::NotTheTopmostPopup),
            3 => Ok(Error::InvalidPopupParent),
            4 => Ok(Error::InvalidSurfaceState),
            5 => Ok(Error::InvalidPositioner),
            6 => Ok(Error::Unresponsive),
            _ => Err(DecodeError::MalformedPayload),
        }
    }
}

impl vstd::std_specs::convert::TryFromSpecImpl<u32> for Error {
    open spec fn obeys_try_from_spec() -> bool {
        true
    }

    open spec fn try_from_spec(v: u32) -> Result<Self, DecodeError> {
        Self::from_wire(v)
    }
}

/// A request of `xdg_wm_base`, decoded from the wire.
#[derive(Debug)]
pub enum Request {
    /// Destroy this xdg_wm_base object.
    Destroy,
    /// Create a positioner object. A positioner object is used to position
    /// surfaces relative to some parent surface. See the interface description
    /// and xdg_surface.get_popup for details.
    CreatePositioner {
        id: u32,
    },
    /// This creates an xdg_surface for the given surface. While xdg_surface
    /// itself is not a role, the corresponding surface may only be assigned
    /// a role extending xdg_surface, such as xdg_toplevel or xdg_popup. It is
    /// illegal to create an xdg_surface for a wl_surface which already has an
    /// assigned role and this will result in a role error.
    GetXdgSurface {
        id: u32,
        surface: u32,
    },
    /// A client must respond to a ping event with a pong request or
    /// the client may be deemed unresponsive. See xdg_wm_base.ping
    /// and xdg_wm_base.error.unresponsive.
    Pong {
        serial: u32,
    },
}

/// The kinds of the arguments of the request with opcode `opcode`.
pub open spec fn request_signature(opcode: u16) -> Option<Seq<ArgKind>> {
    match opcode {
        0 => Some(Seq::<ArgKind>::empty()),
        1 => Some(seq![ArgKind::Object]),
        2 => Some(seq![ArgKind::Object, ArgKind::Object]),
        3 => Some(seq![ArgKind::Uint]),
        _ => None,
    }
}

/// Whether decoded arguments hold, where the request takes an enumeration or
/// a bit set, a word that stands for one.
pub open spec fn request_args_valid(opcode: u16, vals: Seq<ArgValue>) -> bool {
    true
}

/// Whether `req` is the request with opcode `opcode` and arguments `vals`.
pub open spec fn request_fits(req: Request, opcode: u16, vals: Seq<ArgValue>) -> bool {
    match req {
        Request::Destroy => {
            &&& opcode == 0
            &&& vals == Seq::<ArgValue>::empty()
        },
        Request::CreatePositioner { id } => {
            &&& opcode == 1
            &&& vals == seq![ArgValue::Object(id)]
        },
        Request::GetXdgSurface { id, surface } => {
            &&& opcode == 2
            &&& vals == seq![ArgValue::Object(id), ArgValue::Object(surface)]
        },
        Request::Pong { serial } => {
            &&& opcode == 3
            &&& vals == seq![ArgValue::Uint(serial)]
        },
    }
}

/// What decoding a request with opcode `opcode` from the payload and file
/// descriptors of `c` gives.
pub open spec fn request_outcome(opcode: u16, c: Cursor, r: Result<Request, RequestError>) -> bool {
    match request_signature(opcode) {
        None => r == Err::<Request, RequestError>(RequestError::UnknownOpcode(opcode)),
        Some(sig) => match spec_read_args(sig, c) {
            None => r == Err::<Request, RequestError>(RequestError::MalformedPayload),
            Some((vals, _)) => if request_args_valid(opcode, vals) {
                r matches Ok(req) && request_fits(req, opcode, vals)
            } else {
                r == Err::<Request, RequestError>(RequestError::MalformedPayload)
            },
        },
    }
}

/// A message that carries, for an object of `xdg_wm_base`, arguments `vals` of
/// the kinds the request with opcode `opcode` takes decodes to that request
/// with those arguments, where they fit the wire and name known values of
/// its enumerations; where they name unknown values, it is refused as
/// malformed.
pub proof fn lemma_request_roundtrip(
    m: Message,
    object: u32,
    opcode: u16,
    vals: Seq<ArgValue>,
    r: Result<Request, RequestError>,
)
    requires
        request_signature(opcode) == Some(kinds_of(vals)),
        carries(m, object, opcode, vals),
        all_fit_wire(vals),
        request_outcome(message_opcode(m), cursor_of(m), r),
    ensures
        request_args_valid(opcode, vals) ==> (r matches Ok(req) && request_fits(req, opcode, vals)),
        !request_args_valid(opcode, vals) ==> r == Err::<Request, RequestError>(
            RequestError::MalformedPayload,
        ),
{
}

fn signature(opcode: u16) -> (r: Option<Vec<ArgKind>>)
    ensures
        match request_signature(opcode) {
            None => r is None,
            Some(sig) => r matches Some(v) && v@ == sig,
        },
{
    match opcode {
        0 => Some(Vec::new()),
        1 => Some(vec![ArgKind::Object]),
        2 => Some(vec![ArgKind::Object, ArgKind::Object]),
        3 => Some(vec![ArgKind::Uint]),
        _ => None,
    }
}

fn decode_destroy(args: Vec<Arg>) -> (r: Result<Request, RequestError>)
    requires
        kinds_of(views(args@)) == Seq::<ArgKind>::empty(),
    ensures
        if request_args_valid(0, views(args@)) {
            r matches Ok(req) && request_fits(req, 0, views(args@))
        } else {
            r == Err::<Request, RequestError>(RequestError::MalformedPayload)
        },
{
    let ghost vals = views(args@);
    proof {
        lemma_kinds_of(vals);
    }
    assert(vals =~= Seq::<ArgValue>::empty());
    Ok(Request::Destroy)
}

fn decode_create_positioner(args: Vec<Arg>) -> (r: Result<Request, RequestError>)
    requires
        kinds_of(views(args@)) == seq![ArgKind::Object],
    ensures
        if request_args_valid(1, views(args@)) {
            r matches Ok(req) && request_fits(req, 1, views(args@))
        } else {
            r == Err::<Request, RequestError>(RequestError::MalformedPayload)
        },
{
    let ghost vals = views(args@);
    let mut args = args;
    proof {
        lemma_kinds_of(vals);
    }
    assert(vals.len() == 1);
    assert(views(args@) =~= vals.skip(0));
    assert(kind_of(vals[0]) == ArgKind::Object);
    let id = take_object(&mut args);
    assert(vals =~= seq![ArgValue::Object(id)]);
    Ok(Request::CreatePositioner { id })
}

fn decode_get_xdg_surface(args: Vec<Arg>) -> (r: Result<Request, RequestError>)
    requires
        kinds_of(views(args@)) == seq![ArgKind::Object, ArgKind::Object],
    ensures
        if request_args_valid(2, views(args@)) {
            r matches Ok(req) && request_fits(req, 2, views(args@))
        } else {
            r == Err::<Request, RequestError>(RequestError::MalformedPayload)
        },
{
    let ghost vals = views(args@);
    let mut args = args;
    proof {
        lemma_kinds_of(vals);
    }
    assert(vals.len() == 2);
    assert(views(args@) =~= vals.skip(0));
    assert(kind_of(vals[0]) == ArgKind::Object);
    let id = take_object(&mut args);
    assert(views(args@) =~= vals.skip(1));
    assert(kind_of(vals[1]) == ArgKind::Object);
    let surface = take_object(&mut args);
    assert(vals =~= seq![ArgValue::Object(id), ArgValue::Object(surface)]);
    Ok(Request::GetXdgSurface { id, surface })
}

fn decode_pong(args: Vec<Arg>) -> (r: Result<Request, RequestError>)
    requires
        kinds_of(views(args@)) == seq![ArgKind::Uint],
    ensures
        if request_args_valid(3, views(args@)) {
            r matches Ok(req) && request_fits(req, 3, views(args@))
        } else {
            r == Err::<Request, RequestError>(RequestError::MalformedPayload)
        },
{
    let ghost vals = views(args@);
    let mut args = args;
    proof {
        lemma_kinds_of(vals);
    }
    assert(vals.len() == 1);
    assert(views(args@) =~= vals.skip(0));
    assert(kind_of(vals[0]) == ArgKind::Uint);
    let serial = take_uint(&mut args);
    assert(vals =~= seq![ArgValue::Uint(serial)]);
    Ok(Request::Pong { serial })
}

fn into_request(opcode: u16, args: Vec<Arg>) -> (r: Result<Request, RequestError>)
    requires
        request_signature(opcode) == Some(kinds_of(views(args@))),
    ensures
        if request_args_valid(opcode, views(args@)) {
            r matches Ok(req) && request_fits(req, opcode, views(args@))
        } else {
            r == Err::<Request, RequestError>(RequestError::MalformedPayload)
        },
{
    match opcode {
        0 => decode_destroy(args),
        1 => decode_create_positioner(args),
        2 => decode_get_xdg_surface(args),
        3 => decode_pong(args),
        _ => {
            proof {
                assert(false);
            }
            Err(RequestError::UnknownOpcode(opcode))
        },
    }
}

/// Decodes the request a message carries for a `xdg_wm_base` object: its opcode
/// picks the request, and its payload and file descriptors give the
/// arguments, in order.
pub fn handle_request(message: &mut Message) -> (r: Result<Request, RequestError>)
    ensures
        same_header(*old(message), *final(message)),
        request_outcome(message_opcode(*old(message)), cursor_of(*old(message)), r),
{
    let opcode = opcode_of(message);
    match signature(opcode) {
        None => Err(RequestError::UnknownOpcode(opcode)),
        Some(sig) => match read_args(message, &sig) {
            None => Err(RequestError::MalformedPayload),
            Some(args) => into_request(opcode, args),
        },
    }
}

/// The ping event asks the client if it's still alive. Pass the
/// serial specified in the event back to the compositor by sending
/// a "pong" request back with the specified serial. See xdg_wm_base.pong.
///
/// Compositors can use this to determine if the client is still
/// alive. It's unspecified what will happen if the client doesn't
/// respond to the ping request, or in what timeframe. Clients should
/// try to respond in a reasonable amount of time. The “unresponsive”
/// error is provided for compositors that wish to disconnect unresponsive
/// clients.
///
/// A compositor is free to ping in any way it wants, but a client must
/// always respond to any xdg_wm_base object it created.
///
/// The message of this event, from the object `object`.
pub fn ping(object: u32, serial: u32) -> (m: Message)
    requires
        object != 0,
    ensures
        carries(m, object, 0, seq![ArgValue::Uint(serial)]),
        pending_fds(m) == Seq::<i32>::empty(),
{
    let args = vec![Arg::Uint(serial)];
    assert(views(args@) =~= seq![ArgValue::Uint(serial)]);
    encode_message(object, 0, &args)
}

/// The requests of `xdg_wm_base` as the protocol defines them: the opcode of
/// each, the kinds of its arguments in order, and the field each argument
/// fills; no other opcode names a request.
pub proof fn lemma_protocol_requests()
    ensures
        request_signature(0) == Some(Seq::<ArgKind>::empty()),
        request_signature(1) == Some(seq![ArgKind::Object]),
        request_signature(2) == Some(seq![ArgKind::Object, ArgKind::Object]),
        request_signature(3) == Some(seq![ArgKind::Uint]),
        forall|opcode: u16| opcode >= 4 ==> #[trigger] request_signature(opcode) is None,
        forall|req: Request, vals: Seq<ArgValue>| #[trigger] request_fits(req, 0, vals) <==> (req is Destroy && vals == Seq::<ArgValue>::empty()),
        forall|req: Request, vals: Seq<ArgValue>| #[trigger] request_fits(req, 1, vals) <==> (req matches Request::CreatePositioner { id } && vals == seq![ArgValue::Object(id)]),
        forall|req: Request, vals: Seq<ArgValue>| #[trigger] request_fits(req, 2, vals) <==> (req matches Request::GetXdgSurface { id, surface } && vals == seq![
            ArgValue::Object(id),
            ArgValue::Object(surface),
        ]),
        forall|req: Request, vals: Seq<ArgValue>| #[trigger] request_fits(req, 3, vals) <==> (req matches Request::Pong { serial } && vals == seq![ArgValue::Uint(serial)]),
{
}

} // verus!
