//! An additional interface to a wl_surface object, which allows the
//! client to specify the cropping and scaling of the surface
//! contents.
//!
//! The `wp_viewport` interface, version 1: decoding of its
//! requests and encoding of its events.
use crate::codec::{
    Arg, ArgKind, ArgValue, Fixed, all_fit_wire, carries, kind_of, kinds_of, lemma_kinds_of,
    read_args, spec_read_args, take_fixed, take_int, views,
};
use crate::error::DecodeError;
use crate::error::Error as RequestError;
use crate::wire::{Cursor, cursor_of, message_opcode, opcode_of, same_header};
use vstd::prelude::*;
use waynest::wire::Message;

verus! {

/// The name of the interface.
pub const INTERFACE: &'static str = "wp_viewport";

/// The version of the interface that is implemented.
pub const VERSION: u32 = 1;

#[derive(Debug, PartialEq, Eq, PartialOrd, Ord, Hash, Clone, Copy)]
pub enum Error {
    /// Negative or zero values in width or height
    BadValue,
    /// Destination size is not integer
    BadSize,
    /// Source rectangle extends outside of the content area
    OutOfBuffer,
    /// The wl_surface was destroyed
    NoSurface,
}

impl Error {
    /// The word that stands for this value on the wire.
    pub open spec fn wire_value(self) -> u32 {
        match self {
            Error::BadValue => 0,
            Error::BadSize => 1,
            Error::OutOfBuffer => 2,
            Error::NoSurface => 3,
        }
    }

    /// The value a word stands for, if any.
    pub open spec fn from_wire(v: u32) -> Result<Self, DecodeError> {
        match v {
            0 => Ok(Error::BadValue),
            1 => Ok(Error::BadSize),
            2 => Ok(Error::OutOfBuffer),
            3 => Ok(Error::NoSurface),
            _ => Err(DecodeError::MalformedPayload),
        }
    }

    /// The word that stands for this value on the wire.
    pub fn to_wire(self) -> (r: u32)
        ensures
            r == self.wire_value(),
    {
        match self {
            Error::BadValue => 0,
            Error::BadSize => 1,
            Error::OutOfBuffer => 2,
            Error::NoSurface => 3,
        }
    }

    /// A value read back from its word is that value, and a word that reads
    /// as a value is that value's word.
    pub proof fn lemma_wire_roundtrip(self, v: u32)
        ensures
            Self::from_wire(self.wire_value()) == Ok::<Self, DecodeError>(self),
            Self::from_wire(v) matches Ok(e) ==> e.wire_value() == v,
    {
    }

    /// The words the protocol gives the values of this enumeration.
    pub proof fn lemma_protocol_values()
        ensures
            Error::BadValue.wire_value() == 0,
            Error::BadSize.wire_value() == 1,
            Error::OutOfBuffer.wire_value() == 2,
            Error::NoSurface.wire_value() == 3,
            Self::from_wire(0) == Ok::<Self, DecodeError>(Error::BadValue),
            Self::from_wire(1) == Ok::<Self, DecodeError>(Error::BadSize),
            Self::from_wire(2) == Ok::<Self, DecodeError>(Error::OutOfBuffer),
            Self::from_wire(3) == Ok::<Self, DecodeError>(Error::NoSurface),
    {
    }
}

impl TryFrom<u32> for Error {
    type Error = DecodeError;

    fn try_from(v: u32) -> (r: Result<Self, DecodeError>) {
        match v {
            0 => Ok(Error::BadValue),
            1 => Ok(Error::BadSize),
            2 => Ok(Error::OutOfBuffer),
            3 => Ok(Error::NoSurface),
            _ => Err(DecodeError::MalformedPayload),
        }
    }
}

impl vstd::std_specs::convert::TryFromSpecImpl<u32> for Error {
    open spec fn obeys_try_from_spec() -> bool {
        true
    }

    open spec fn try_from_spec(v: u32) -> Result<Self, DecodeError> {
        Self::from_wire(v)
    }
}

/// A request of `wp_viewport`, decoded from the wire.
#[derive(Debug)]
#[allow(inconsistent_fields)]
pub enum Request {
    /// The associated wl_surface's crop and scale state is removed.
    /// The change is applied on the next wl_surface.commit.
    Destroy,
    /// Set the source rectangle of the associated wl_surface. See
    /// wp_viewport for the description, and relation to the wl_buffer
    /// size.
    SetSource {
        x: Fixed,
        y: Fixed,
        width: Fixed,
        height: Fixed,
    },
    /// Set the destination size of the associated wl_surface. See
    /// wp_viewport for the description, and relation to the wl_buffer
    /// size.
    SetDestination {
        width: i32,
        height: i32,
    },
}

/// The kinds of the arguments of the request with opcode `opcode`.
pub open spec fn request_signature(opcode: u16) -> Option<Seq<ArgKind>> {
    match opcode {
        0 => Some(Seq::<ArgKind>::empty()),
        1 => Some(seq![ArgKind::Fixed, ArgKind::Fixed, ArgKind::Fixed, ArgKind::Fixed]),
        2 => Some(seq![ArgKind::Int, ArgKind::Int]),
        _ => None,
    }
}

/// Whether decoded arguments hold, where the request takes an enumeration or
/// a bit set, a word that stands for one.
pub open spec fn request_args_valid(opcode: u16, vals: Seq<ArgValue>) -> bool {
    true
}

/// Whether `req` is the request with opcode `opcode` and arguments `vals`.
pub open spec fn request_fits(req: Request, opcode: u16, vals: Seq<ArgValue>) -> bool {
    match req {
        Request::Destroy => {
            &&& opcode == 0
            &&& vals == Seq::<ArgValue>::empty()
        },
        Request::SetSource { x, y, width, height } => {
            &&& opcode == 1
            &&& vals == seq![
                ArgValue::Fixed(x.raw),
                ArgValue::Fixed(y.raw),
                ArgValue::Fixed(width.raw),
                ArgValue::Fixed(height.raw),
            ]
        },
        Request::SetDestination { width, height } => {
            &&& opcode == 2
            &&& vals == seq![ArgValue::Int(width), ArgValue::Int(height)]
        },
    }
}

/// What decoding a request with opcode `opcode` from the payload and file
/// descriptors of `c` gives.
pub open spec fn request_outcome(opcode: u16, c: Cursor, r: Result<Request, RequestError>) -> bool {
    match request_signature(opcode) {
        None => r == Err::<Request, RequestError>(RequestError::UnknownOpcode(opcode)),
        Some(sig) => match spec_read_args(sig, c) {
            None => r == Err::<Request, RequestError>(RequestError::MalformedPayload),
            Some((vals, _)) => if request_args_valid(opcode, vals) {
                r matches Ok(req) && request_fits(req, opcode, vals)
            } else {
                r == Err::<Request, RequestError>(RequestError::MalformedPayload)
            },
        },
    }
}

/// A message that carries, for an object of `wp_viewport`, arguments `vals` of
/// the kinds the request with opcode `opcode` takes decodes to that request
/// with those arguments, where they fit the wire and name known values of
/// its enumerations; where they name unknown values, it is refused as
/// malformed.
pub proof fn lemma_request_roundtrip(
    m: Message,
    object: u32,
    opcode: u16,
    vals: Seq<ArgValue>,
    r: Result<Request, RequestError>,
)
    requires
        request_signature(opcode) == Some(kinds_of(vals)),
        carries(m, object, opcode, vals),
        all_fit_wire(vals),
        request_outcome(message_opcode(m), cursor_of(m), r),
    ensures
        request_args_valid(opcode, vals) ==> (r matches Ok(req) && request_fits(req, opcode, vals)),
        !request_args_valid(opcode, vals) ==> r == Err::<Request, RequestError>(
            RequestError::MalformedPayload,
        ),
{
}

fn signature(opcode: u16) -> (r: Option<Vec<ArgKind>>)
    ensures
        match request_signature(opcode) {
            None => r is None,
            Some(sig) => r matches Some(v) && v@ == sig,
        },
{
    match opcode {
        0 => Some(Vec::new()),
        1 => Some(vec![ArgKind::Fixed, ArgKind::Fixed, ArgKind::Fixed, ArgKind::Fixed]),
        2 => Some(vec![ArgKind::Int, ArgKind::Int]),
        _ => None,
    }
}

fn decode_destroy(args: Vec<Arg>) -> (r: Result<Request, RequestError>)
    requires
        kinds_of(views(args@)) == Seq::<ArgKind>::empty(),
    ensures
        if request_args_valid(0, views(args@)) {
            r matches Ok(req) && request_fits(req, 0, views(args@))
        } else {
            r == Err::<Request, RequestError>(RequestError::MalformedPayload)
        },
{
    let ghost vals = views(args@);
    proof {
        lemma_kinds_of(vals);
    }
    assert(vals =~= Seq::<ArgValue>::empty());
    Ok(Request::Destroy)
}

fn decode_set_source(args: Vec<Arg>) -> (r: Result<Request, RequestError>)
    requires
        kinds_of(views(args@)) == seq![
            ArgKind::Fixed,
            ArgKind::Fixed,
            ArgKind::Fixed,
            ArgKind::Fixed,
        ],
    ensures
        if request_args_valid(1, views(args@)) {
            r matches Ok(req) && request_fits(req, 1, views(args@))
        } else {
            r == Err::<Request, RequestError>(RequestError::MalformedPayload)
        },
{
    let ghost vals = views(args@);
    let mut args = args;
    proof {
        lemma_kinds_of(vals);
    }
    assert(vals.len() == 4);
    assert(views(args@) =~= vals.skip(0));
    assert(kind_of(vals[0]) == ArgKind::Fixed);
    let x = take_fixed(&mut args);
    assert(views(args@) =~= vals.skip(1));
    assert(kind_of(vals[1]) == ArgKind::Fixed);
    let y = take_fixed(&mut args);
    assert(views(args@) =~= vals.skip(2));
    assert(kind_of(vals[2]) == ArgKind::Fixed);
    let width = take_fixed(&mut args);
    assert(views(args@) =~= vals.skip(3));
    assert(kind_of(vals[3]) == ArgKind::Fixed);
    let height = take_fixed(&mut args);
    assert(vals =~= seq![
        ArgValue::Fixed(x.raw),
        ArgValue::Fixed(y.raw),
        ArgValue::Fixed(width.raw),
        ArgValue::Fixed(height.raw),
    ]);
    Ok(Request::SetSource { x, y, width, height })
}

fn decode_set_destination(args: Vec<Arg>) -> (r: Result<Request, RequestError>)
    requires
        kinds_of(views(args@)) == seq![ArgKind::Int, ArgKind::Int],
    ensures
        if request_args_valid(2, views(args@)) {
            r matches Ok(req) && request_fits(req, 2, views(args@))
        } else {
            r == Err::<Request, RequestError>(RequestError::MalformedPayload)
        },
{
    let ghost vals = views(args@);
    let mut args = args;
    proof {
        lemma_kinds_of(vals);
    }
    assert(vals.len() == 2);
    assert(views(args@) =~= vals.skip(0));
    assert(kind_of(vals[0]) == ArgKind::Int);
    let width = take_int(&mut args);
    assert(views(args@) =~= vals.skip(1));
    assert(kind_of(vals[1]) == ArgKind::Int);
    let height = take_int(&mut args);
    assert(vals =~= seq![ArgValue::Int(width), ArgValue::Int(height)]);
    Ok(Request::SetDestination { width, height })
}

fn into_request(opcode: u16, args: Vec<Arg>) -> (r: Result<Request, RequestError>)
    requires
        request_signature(opcode) == Some(kinds_of(views(args@))),
    ensures
        if request_args_valid(opcode, views(args@)) {
            r matches Ok(req) && request_fits(req, opcode, views(args@))
        } else {
            r == Err::<Request, RequestError>(RequestError::MalformedPayload)
        },
{
    match opcode {
        0 => decode_destroy(args),
        1 => decode_set_source(args),
        2 => decode_set_destination(args),
        _ => {
            proof {
                assert(false);
            }
            Err(RequestError::UnknownOpcode(opcode))
        },
    }
}

/// Decodes the request a message carries for a `wp_viewport` object: its opcode
/// picks the request, and its payload and file descriptors give the
/// arguments, in order.
pub fn handle_request(message: &mut Message) -> (r: Result<Request, RequestError>)
    ensures
        same_header(*old(message), *final(message)),
        request_outcome(message_opcode(*old(message)), cursor_of(*old(message)), r),
{
    let opcode = opcode_of(message);
    match signature(opcode) {
        None => Err(RequestError::UnknownOpcode(opcode)),
        Some(sig) => match read_args(message, &sig) {
            None => Err(RequestError::MalformedPayload),
            Some(args) => into_request(opcode, args),
        },
    }
}

/// The requests of `wp_viewport` as the protocol defines them: the opcode of
/// each, the kinds of its arguments in order, and the field each argument
/// fills; no other opcode names a request.
pub proof fn lemma_protocol_requests()
    ensures
        request_signature(0) == Some(Seq::<ArgKind>::empty()),
        request_signature(1) == Some(seq![
            ArgKind::Fixed,
            ArgKind::Fixed,
            ArgKind::Fixed,
            ArgKind::Fixed,
        ]),
        request_signature(2) == Some(seq![ArgKind::Int, ArgKind::Int]),
        forall|opcode: u16| opcode >= 3 ==> #[trigger] request_signature(opcode) is None,
        forall|req: Request, vals: Seq<ArgValue>| #[trigger] request_fits(req, 0, vals) <==> (req is Destroy && vals == Seq::<ArgValue>::empty()),
        forall|req: Request, vals: Seq<ArgValue>| #[trigger] request_fits(req, 1, vals) <==> (req matches Request::SetSource { x, y, width, height } && vals == seq![
            ArgValue::Fixed(x.raw),
            ArgValue::Fixed(y.raw),
            ArgValue::Fixed(width.raw),
            ArgValue::Fixed(height.raw),
        ]),
        forall|req: Request, vals: Seq<ArgValue>| #[trigger] request_fits(req, 2, vals) <==> (req matches Request::SetDestination { width, height } && vals == seq![
            ArgValue::Int(width),
            ArgValue::Int(height),
        ]),
{
}

} // verus!
