//! A surface is a rectangular area that may be displayed on zero
//! or more outputs, and shown any number of times at the compositor's
//! discretion. They can present wl_buffers, receive user input, and
//! define a local coordinate system.
//!
//! The `wl_surface` interface, version 6: decoding of its
//! requests and encoding of its events.
use crate::codec::{
    Arg, ArgKind, ArgValue, all_fit_wire, carries, encode_message, kind_of, kinds_of,
    lemma_kinds_of, read_args, spec_read_args, take_int, take_nullable_object, take_object,
    take_uint, views,
};
use crate::error::DecodeError;
use crate::error::Error as RequestError;
use crate::wire::{Cursor, cursor_of, message_opcode, opcode_of, pending_fds, same_header};
use super::wl_output::Transform;
use vstd::prelude::*;
use waynest::wire::Message;

verus! {

/// The name of the interface.
pub const INTERFACE: &'static str = "wl_surface";

/// The version of the interface that is implemented.
pub const VERSION: u32 = 6;

/// These errors can be emitted in response to wl_surface requests.
#[derive(Debug, PartialEq, Eq, PartialOrd, Ord, Hash, Clone, Copy)]
pub enum Error {
    /// Buffer scale value is invalid
    InvalidScale,
    /// Buffer transform value is invalid
    InvalidTransform,
    /// Buffer size is invalid
    InvalidSize,
    /// Buffer offset is invalid
    InvalidOffset,
    /// Surface was destroyed before its role object
    DefunctRoleObject,
}

impl Error {
    /// The word that stands for this value on the wire.
    pub open spec fn wire_value(self) -> u32 {
        match self {
            Error::InvalidScale => 0,
            Error::InvalidTransform => 1,
            Error::InvalidSize => 2,
            Error::InvalidOffset => 3,
            Error::DefunctRoleObject => 4,
        }
    }

    /// The value a word stands for, if any.
    pub open spec fn from_wire(v: u32) -> Result<Self, DecodeError> {
        match v {
            0 => Ok(Error::InvalidScale),
            1 => Ok(Error::InvalidTransform),
            2 => Ok(Error::InvalidSize),
            3 => Ok(Error::InvalidOffset),
            4 => Ok(Error::DefunctRoleObject),
            _ => Err(DecodeError::MalformedPayload),
        }
    }

    /// The word that stands for this value on the wire.
    pub fn to_wire(self) -> (r: u32)
        ensures
            r == self.wire_value(),
    {
        match self {
            Error::InvalidScale => 0,
            Error::InvalidTransform => 1,
            Error::InvalidSize => 2,
            Error::InvalidOffset => 3,
            Error::DefunctRoleObject => 4,
        }
    }

    /// A value read back from its word is that value, and a word that reads
    /// as a value is that value's word.
    pub proof fn lemma_wire_roundtrip(self, v: u32)
        ensures
            Self::from_wire(self.wire_value()) == Ok::<Self, DecodeError>(self),
            Self::from_wire(v) matches Ok(e) ==> e.wire_value() == v,
    {
    }

    /// The words the protocol gives the values of this enumeration.
    pub proof fn lemma_protocol_values()
        ensures
            Error::InvalidScale.wire_value() == 0,
            Error::InvalidTransform.wire_value() == 1,
            Error::InvalidSize.wire_value() == 2,
            Error::InvalidOffset.wire_value() == 3,
            Error::DefunctRoleObject.wire_value() == 4,
            Self::from_wire(0) == Ok::<Self, DecodeError>(Error::InvalidScale),
            Self::from_wire(1) == Ok::<Self, DecodeError>(Error::InvalidTransform),
            Self::from_wire(2) == Ok::<Self, DecodeError>(Error::InvalidSize),
            Self::from_wire(3) == Ok::<Self, DecodeError>(Error::InvalidOffset),
            Self::from_wire(4) == Ok::<Self, DecodeError>(Error::DefunctRoleObject),
    {
    }
}

impl TryFrom<u32> for Error {
    type Error = DecodeError;

    fn try_from(v: u32) -> (r: Result<Self, DecodeError>) {
        match v {
            0 => Ok(Error::InvalidScale),
            1 => Ok(Error::InvalidTransform),
            2 => Ok(Error::InvalidSize),
            3 => Ok(Error::InvalidOffset),
            4 => Ok(Error::DefunctRoleObject),
            _ => Err(DecodeError::MalformedPayload),
        }
    }
}

impl vstd::std_specs::convert::TryFromSpecImpl<u32> for Error {
    open spec fn obeys_try_from_spec() -> bool {
        true
    }

    open spec fn try_from_spec(v: u32) -> Result<Self, DecodeError> {
        Self::from_wire(v)
    }
}

/// A request of `wl_surface`, decoded from the wire.
#[derive(Debug)]
pub enum Request {
    /// Deletes the surface and invalidates its object ID.
    Destroy,
    /// Set a buffer as the content of this surface.
    Attach {
        buffer: Option<u32>,
        x: i32,
        y: i32,
    },
    /// This request is used to describe the regions where the pending
    /// buffer is different from the current surface contents, and where
    /// the surface therefore needs to be repainted. The compositor
    /// ignores the parts of the damage that fall outside of the surface.
    Damage {
        x: i32,
        y: i32,
        width: i32,
        height: i32,
    },
    /// Request a notification when it is a good time to start drawing a new
    /// frame, by creating a frame callback. This is useful for throttling
    /// redrawing operations, and driving animations.
    Frame {
        callback: u32,
    },
    /// This request sets the region of the surface that contains
    /// opaque content.
    SetOpaqueRegion {
        region: Option<u32>,
    },
    /// This request sets the region of the surface that can receive
    /// pointer and touch events.
    SetInputRegion {
        region: Option<u32>,
    },
    /// Surface state (input, opaque, and damage regions, attached buffers,
    /// etc.) is double-buffered. Protocol requests modify the pending state,
    /// as opposed to the active state in use by the compositor.
    Commit,
    /// This request sets the transformation that the client has already applied
    /// to the content of the buffer. The accepted values for the transform
    /// parameter are the values for wl_output.transform.
    SetBufferTransform {
        transform: Transform,
    },
    /// This request sets an optional scaling factor on how the compositor
    /// interprets the contents of the buffer attached to the window.
    SetBufferScale {
        scale: i32,
    },
    /// This request is used to describe the regions where the pending
    /// buffer is different from the current surface contents, and where
    /// the surface therefore needs to be repainted. The compositor
    /// ignores the parts of the damage that fall outside of the surface.
    DamageBuffer {
        x: i32,
        y: i32,
        width: i32,
        height: i32,
    },
    /// The x and y arguments specify the location of the new pending
    /// buffer's upper left corner, relative to the current buffer's upper
    /// left corner, in surface-local coordinates. In other words, the
    /// x and y, combined with the new surface size define in which
    /// directions the surface's size changes.
    Offset {
        x: i32,
        y: i32,
    },
}

/// The kinds of the arguments of the request with opcode `opcode`.
pub open spec fn request_signature(opcode: u16) -> Option<Seq<ArgKind>> {
    match opcode {
        0 => Some(Seq::<ArgKind>::empty()),
        1 => Some(seq![ArgKind::NullableObject, ArgKind::Int, ArgKind::Int]),
        2 => Some(seq![ArgKind::Int, ArgKind::Int, ArgKind::Int, ArgKind::Int]),
        3 => Some(seq![ArgKind::Object]),
        4 => Some(seq![ArgKind::NullableObject]),
        5 => Some(seq![ArgKind::NullableObject]),
        6 => Some(Seq::<ArgKind>::empty()),
        7 => Some(seq![ArgKind::Uint]),
        8 => Some(seq![ArgKind::Int]),
        9 => Some(seq![ArgKind::Int, ArgKind::Int, ArgKind::Int, ArgKind::Int]),
        10 => Some(seq![ArgKind::Int, ArgKind::Int]),
        _ => None,
    }
}

/// Whether decoded arguments hold, where the request takes an enumeration or
/// a bit set, a word that stands for one.
pub open spec fn request_args_valid(opcode: u16, vals: Seq<ArgValue>) -> bool {
    match opcode {
        7 => Transform::from_wire(vals[0]->Uint_0) is Ok,
        _ => true,
    }
}

/// Whether `req` is the request with opcode `opcode` and arguments `vals`.
pub open spec fn request_fits(req: Request, opcode: u16, vals: Seq<ArgValue>) -> bool {
    match req {
        Request::Destroy => {
            &&& opcode == 0
            &&& vals == Seq::<ArgValue>::empty()
        },
        Request::Attach { buffer, x, y } => {
            &&& opcode == 1
            &&& vals == seq![ArgValue::NullableObject(buffer), ArgValue::Int(x), ArgValue::Int(y)]
        },
        Request::Damage { x, y, width, height } => {
            &&& opcode == 2
            &&& vals == seq![
                ArgValue::Int(x),
                ArgValue::Int(y),
                ArgValue::Int(width),
                ArgValue::Int(height),
            ]
        },
        Request::Frame { callback } => {
            &&& opcode == 3
            &&& vals == seq![ArgValue::Object(callback)]
        },
        Request::SetOpaqueRegion { region } => {
            &&& opcode == 4
            &&& vals == seq![ArgValue::NullableObject(region)]
        },
        Request::SetInputRegion { region } => {
            &&& opcode == 5
            &&& vals == seq![ArgValue::NullableObject(region)]
        },
        Request::Commit => {
            &&& opcode == 6
            &&& vals == Seq::<ArgValue>::empty()
        },
        Request::SetBufferTransform { transform } => {
            &&& opcode == 7
            &&& vals == seq![ArgValue::Uint(transform.wire_value())]
        },
        Request::SetBufferScale { scale } => {
            &&& opcode == 8
            &&& vals == seq![ArgValue::Int(scale)]
        },
        Request::DamageBuffer { x, y, width, height } => {
            &&& opcode == 9
            &&& vals == seq![
                ArgValue::Int(x),
                ArgValue::Int(y),
                ArgValue::Int(width),
                ArgValue::Int(height),
            ]
        },
        Request::Offset { x, y } => {
            &&& opcode == 10
            &&& vals == seq![ArgValue::Int(x), ArgValue::Int(y)]
        },
    }
}

/// What decoding a request with opcode `opcode` from the payload and file
/// descriptors of `c` gives.
pub open spec fn request_outcome(opcode: u16, c: Cursor, r: Result<Request, RequestError>) -> bool {
    match request_signature(opcode) {
        None => r == Err::<Request, RequestError>(RequestError::UnknownOpcode(opcode)),
        Some(sig) => match spec_read_args(sig, c) {
            None => r == Err::<Request, RequestError>(RequestError::MalformedPayload),
            Some((vals, _)) => if request_args_valid(opcode, vals) {
                r matches Ok(req) && request_fits(req, opcode, vals)
            } else {
                r == Err::<Request, RequestError>(RequestError::MalformedPayload)
            },
        },
    }
}

/// A message that carries, for an object of `wl_surface`, arguments `vals` of
/// the kinds the request with opcode `opcode` takes decodes to that request
/// with those arguments, where they fit the wire and name known values of
/// its enumerations; where they name unknown values, it is refused as
/// malformed.
pub proof fn lemma_request_roundtrip(
    m: Message,
    object: u32,
    opcode: u16,
    vals: Seq<ArgValue>,
    r: Result<Request, RequestError>,
)
    requires
        request_signature(opcode) == Some(kinds_of(vals)),
        carries(m, object, opcode, vals),
        all_fit_wire(vals),
        request_outcome(message_opcode(m), cursor_of(m), r),
    ensures
        request_args_valid(opcode, vals) ==> (r matches Ok(req) && request_fits(req, opcode, vals)),
        !request_args_valid(opcode, vals) ==> r == Err::<Request, RequestError>(
            RequestError::MalformedPayload,
        ),
{
}

fn signature(opcode: u16) -> (r: Option<Vec<ArgKind>>)
    ensures
        match request_signature(opcode) {
            None => r is None,
            Some(sig) => r matches Some(v) && v@ == sig,
        },
{
    match opcode {
        0 => Some(Vec::new()),
        1 => Some(vec![ArgKind::NullableObject, ArgKind::Int, ArgKind::Int]),
        2 => Some(vec![ArgKind::Int, ArgKind::Int, ArgKind::Int, ArgKind::Int]),
        3 => Some(vec![ArgKind::Object]),
        4 => Some(vec![ArgKind::NullableObject]),
        5 => Some(vec![ArgKind::NullableObject]),
        6 => Some(Vec::new()),
        7 => Some(vec![ArgKind::Uint]),
        8 => Some(vec![ArgKind::Int]),
        9 => Some(vec![ArgKind::Int, ArgKind::Int, ArgKind::Int, ArgKind::Int]),
        10 => Some(vec![ArgKind::Int, ArgKind::Int]),
        _ => None,
    }
}

fn decode_destroy(args: Vec<Arg>) -> (r: Result<Request, RequestError>)
    requires
        kinds_of(views(args@)) == Seq::<ArgKind>::empty(),
    ensures
        if request_args_valid(0, views(args@)) {
            r matches Ok(req) && request_fits(req, 0, views(args@))
        } else {
            r == Err::<Request, RequestError>(RequestError::MalformedPayload)
        },
{
    let ghost vals = views(args@);
    proof {
        lemma_kinds_of(vals);
    }
    assert(vals =~= Seq::<ArgValue>::empty());
    Ok(Request::Destroy)
}

fn decode_attach(args: Vec<Arg>) -> (r: Result<Request, RequestError>)
    requires
        kinds_of(views(args@)) == seq![ArgKind::NullableObject, ArgKind::Int, ArgKind::Int],
    ensures
        if request_args_valid(1, views(args@)) {
            r matches Ok(req) && request_fits(req, 1, views(args@))
        } else {
            r == Err::<Request, RequestError>(RequestError::MalformedPayload)
        },
{
    let ghost vals = views(args@);
    let mut args = args;
    proof {
        lemma_kinds_of(vals);
    }
    assert(vals.len() == 3);
    assert(views(args@) =~= vals.skip(0));
    assert(kind_of(vals[0]) == ArgKind::NullableObject);
    let buffer = take_nullable_object(&mut args);
    assert(views(args@) =~= vals.skip(1));
    assert(kind_of(vals[1]) == ArgKind::Int);
    let x = take_int(&mut args);
    assert(views(args@) =~= vals.skip(2));
    assert(kind_of(vals[2]) == ArgKind::Int);
    let y = take_int(&mut args);
    assert(vals =~= seq![ArgValue::NullableObject(buffer), ArgValue::Int(x), ArgValue::Int(y)]);
    Ok(Request::Attach { buffer, x, y })
}

fn decode_damage(args: Vec<Arg>) -> (r: Result<Request, RequestError>)
    requires
        kinds_of(views(args@)) == seq![ArgKind::Int, ArgKind::Int, ArgKind::Int, ArgKind::Int],
    ensures
        if request_args_valid(2, views(args@)) {
            r matches Ok(req) && request_fits(req, 2, views(args@))
        } else {
            r == Err::<Request, RequestError>(RequestError::MalformedPayload)
        },
{
    let ghost vals = views(args@);
    let mut args = args;
    proof {
        lemma_kinds_of(vals);
    }
    assert(vals.len() == 4);
    assert(views(args@) =~= vals.skip(0));
    assert(kind_of(vals[0]) == ArgKind::Int);
    let x = take_int(&mut args);
    assert(views(args@) =~= vals.skip(1));
    assert(kind_of(vals[1]) == ArgKind::Int);
    let y = take_int(&mut args);
    assert(views(args@) =~= vals.skip(2));
    assert(kind_of(vals[2]) == ArgKind::Int);
    let width = take_int(&mut args);
    assert(views(args@) =~= vals.skip(3));
    assert(kind_of(vals[3]) == ArgKind::Int);
    let height = take_int(&mut args);
    assert(vals =~= seq![
        ArgValue::Int(x),
        ArgValue::Int(y),
        ArgValue::Int(width),
        ArgValue::Int(height),
    ]);
    Ok(Request::Damage { x, y, width, height })
}

fn decode_frame(args: Vec<Arg>) -> (r: Result<Request, RequestError>)
    requires
        kinds_of(views(args@)) == seq![ArgKind::Object],
    ensures
        if request_args_valid(3, views(args@)) {
            r matches Ok(req) && request_fits(req, 3, views(args@))
        } else {
            r == Err::<Request, RequestError>(RequestError::MalformedPayload)
        },
{
    let ghost vals = views(args@);
    let mut args = args;
    proof {
        lemma_kinds_of(vals);
    }
    assert(vals.len() == 1);
    assert(views(args@) =~= vals.skip(0));
    assert(kind_of(vals[0]) == ArgKind::Object);
    let callback = take_object(&mut args);
    assert(vals =~= seq![ArgValue::Object(callback)]);
    Ok(Request::Frame { callback })
}

fn decode_set_opaque_region(args: Vec<Arg>) -> (r: Result<Request, RequestError>)
    requires
        kinds_of(views(args@)) == seq![ArgKind::NullableObject],
    ensures
        if request_args_valid(4, views(args@)) {
            r matches Ok(req) && request_fits(req, 4, views(args@))
        } else {
            r == Err::<Request, RequestError>(RequestError::MalformedPayload)
        },
{
    let ghost vals = views(args@);
    let mut args = args;
    proof {
        lemma_kinds_of(vals);
    }
    assert(vals.len() == 1);
    assert(views(args@) =~= vals.skip(0));
    assert(kind_of(vals[0]) == ArgKind::NullableObject);
    let region = take_nullable_object(&mut args);
    assert(vals =~= seq![ArgValue::NullableObject(region)]);
    Ok(Request::SetOpaqueRegion { region })
}

fn decode_set_input_region(args: Vec<Arg>) -> (r: Result<Request, RequestError>)
    requires
        kinds_of(views(args@)) == seq![ArgKind::NullableObject],
    ensures
        if request_args_valid(5, views(args@)) {
            r matches Ok(req) && request_fits(req, 5, views(args@))
        } else {
            r == Err::<Request, RequestError>(RequestError::MalformedPayload)
        },
{
    let ghost vals = views(args@);
    let mut args = args;
    proof {
        lemma_kinds_of(vals);
    }
    assert(vals.len() == 1);
    assert(views(args@) =~= vals.skip(0));
    assert(kind_of(vals[0]) == ArgKind::NullableObject);
    let region = take_nullable_object(&mut args);
    assert(vals =~= seq![ArgValue::NullableObject(region)]);
    Ok(Request::SetInputRegion { region })
}

fn decode_commit(args: Vec<Arg>) -> (r: Result<Request, RequestError>)
    requires
        kinds_of(views(args@)) == Seq::<ArgKind>::empty(),
    ensures
        if request_args_valid(6, views(args@)) {
            r matches Ok(req) && request_fits(req, 6, views(args@))
        } else {
            r == Err::<Request, RequestError>(RequestError::MalformedPayload)
        },
{
    let ghost vals = views(args@);
    proof {
        lemma_kinds_of(vals);
    }
    assert(vals =~= Seq::<ArgValue>::empty());
    Ok(Request::Commit)
}

fn decode_set_buffer_transform(args: Vec<Arg>) -> (r: Result<Request, RequestError>)
    requires
        kinds_of(views(args@)) == seq![ArgKind::Uint],
    ensures
        if request_args_valid(7, views(args@)) {
            r matches Ok(req) && request_fits(req, 7, views(args@))
        } else {
            r == Err::<Request, RequestError>(RequestError::MalformedPayload)
        },
{
    let ghost vals = views(args@);
    let mut args = args;
    proof {
        lemma_kinds_of(vals);
    }
    assert(vals.len() == 1);
    assert(views(args@) =~= vals.skip(0));
    assert(kind_of(vals[0]) == ArgKind::Uint);
    let transform_word = take_uint(&mut args);
    let transform = match Transform::try_from(transform_word) {
        Ok(v) => v,
        Err(_) => {
            return Err(RequestError::MalformedPayload);
        },
    };
    proof {
        transform.lemma_wire_roundtrip(transform_word);
    }
    assert(vals =~= seq![ArgValue::Uint(transform.wire_value())]);
    Ok(Request::SetBufferTransform { transform })
}

fn decode_set_buffer_scale(args: Vec<Arg>) -> (r: Result<Request, RequestError>)
    requires
        kinds_of(views(args@)) == seq![ArgKind::Int],
    ensures
        if request_args_valid(8, views(args@)) {
            r matches Ok(req) && request_fits(req, 8, views(args@))
        } else {
            r == Err::<Request, RequestError>(RequestError::MalformedPayload)
        },
{
    let ghost vals = views(args@);
    let mut args = args;
    proof {
        lemma_kinds_of(vals);
    }
    assert(vals.len() == 1);
    assert(views(args@) =~= vals.skip(0));
    assert(kind_of(vals[0]) == ArgKind::Int);
    let scale = take_int(&mut args);
    assert(vals =~= seq![ArgValue::Int(scale)]);
    Ok(Request::SetBufferScale { scale })
}

fn decode_damage_buffer(args: Vec<Arg>) -> (r: Result<Request, RequestError>)
    requires
        kinds_of(views(args@)) == seq![ArgKind::Int, ArgKind::Int, ArgKind::Int, ArgKind::Int],
    ensures
        if request_args_valid(9, views(args@)) {
            r matches Ok(req) && request_fits(req, 9, views(args@))
        } else {
            r == Err::<Request, RequestError>(RequestError::MalformedPayload)
        },
{
    let ghost vals = views(args@);
    let mut args = args;
    proof {
        lemma_kinds_of(vals);
    }
    assert(vals.len() == 4);
    assert(views(args@) =~= vals.skip(0));
    assert(kind_of(vals[0]) == ArgKind::Int);
    let x = take_int(&mut args);
    assert(views(args@) =~= vals.skip(1));
    assert(kind_of(vals[1]) == ArgKind::Int);
    let y = take_int(&mut args);
    assert(views(args@) =~= vals.skip(2));
    assert(kind_of(vals[2]) == ArgKind::Int);
    let width = take_int(&mut args);
    assert(views(args@) =~= vals.skip(3));
    assert(kind_of(vals[3]) == ArgKind::Int);
    let height = take_int(&mut args);
    assert(vals =~= seq![
        ArgValue::Int(x),
        ArgValue::Int(y),
        ArgValue::Int(width),
        ArgValue::Int(height),
    ]);
    Ok(Request::DamageBuffer { x, y, width, height })
}

fn decode_offset(args: Vec<Arg>) -> (r: Result<Request, RequestError>)
    requires
        kinds_of(views(args@)) == seq![ArgKind::Int, ArgKind::Int],
    ensures
        if request_args_valid(10, views(args@)) {
            r matches Ok(req) && request_fits(req, 10, views(args@))
        } else {
            r == Err::<Request, RequestError>(RequestError::MalformedPayload)
        },
{
    let ghost vals = views(args@);
    let mut args = args;
    proof {
        lemma_kinds_of(vals);
    }
    assert(vals.len() == 2);
    assert(views(args@) =~= vals.skip(0));
    assert(kind_of(vals[0]) == ArgKind::Int);
    let x = take_int(&mut args);
    assert(views(args@) =~= vals.skip(1));
    assert(kind_of(vals[1]) == ArgKind::Int);
    let y = take_int(&mut args);
    assert(vals =~= seq![ArgValue::Int(x), ArgValue::Int(y)]);
    Ok(Request::Offset { x, y })
}

fn into_request(opcode: u16, args: Vec<Arg>) -> (r: Result<Request, RequestError>)
    requires
        request_signature(opcode) == Some(kinds_of(views(args@))),
    ensures
        if request_args_valid(opcode, views(args@)) {
            r matches Ok(req) && request_fits(req, opcode, views(args@))
        } else {
            r == Err::<Request, RequestError>(RequestError::MalformedPayload)
        },
{
    match opcode {
        0 => decode_destroy(args),
        1 => decode_attach(args),
        2 => decode_damage(args),
        3 => decode_frame(args),
        4 => decode_set_opaque_region(args),
        5 => decode_set_input_region(args),
        6 => decode_commit(args),
        7 => decode_set_buffer_transform(args),
        8 => decode_set_buffer_scale(args),
        9 => decode_damage_buffer(args),
        10 => decode_offset(args),
        _ => {
            proof {
                assert(false);
            }
            Err(RequestError::UnknownOpcode(opcode))
        },
    }
}

/// Decodes the request a message carries for a `wl_surface` object: its opcode
/// picks the request, and its payload and file descriptors give the
/// arguments, in order.
pub fn handle_request(message: &mut Message) -> (r: Result<Request, RequestError>)
    ensures
        same_header(*old(message), *final(message)),
        request_outcome(message_opcode(*old(message)), cursor_of(*old(message)), r),
{
    let opcode = opcode_of(message);
    match signature(opcode) {
        None => Err(RequestError::UnknownOpcode(opcode)),
        Some(sig) => match read_args(message, &sig) {
            None => Err(RequestError::MalformedPayload),
            Some(args) => into_request(opcode, args),
        },
    }
}

/// This is emitted whenever a surface's creation, movement, or resizing
/// results in some part of it being within the scanout region of an
/// output.
///
/// Note that a surface may be overlapping with zero or more outputs.
///
/// The message of this event, from the object `object`.
pub fn enter(object: u32, output: u32) -> (m: Message)
    requires
        object != 0,
        output != 0,
    ensures
        carries(m, object, 0, seq![ArgValue::Object(output)]),
        pending_fds(m) == Seq::<i32>::empty(),
{
    let args = vec![Arg::Object(output)];
    assert(views(args@) =~= seq![ArgValue::Object(output)]);
    encode_message(object, 0, &args)
}

/// This is emitted whenever a surface's creation, movement, or resizing
/// results in it no longer having any part of it within the scanout region
/// of an output.
///
/// Clients should not use the number of outputs the surface is on for frame
/// throttling purposes. The surface might be hidden even if no leave event
/// has been sent, and the compositor might expect new surface content
/// updates even if no enter event has been sent. The frame event should be
/// used instead.
///
/// The message of this event, from the object `object`.
pub fn leave(object: u32, output: u32) -> (m: Message)
    requires
        object != 0,
        output != 0,
    ensures
        carries(m, object, 1, seq![ArgValue::Object(output)]),
        pending_fds(m) == Seq::<i32>::empty(),
{
    let args = vec![Arg::Object(output)];
    assert(views(args@) =~= seq![ArgValue::Object(output)]);
    encode_message(object, 1, &args)
}

/// This event indicates the preferred buffer scale for this surface. It is
/// sent whenever the compositor's preference changes.
///
/// Before receiving this event the preferred buffer scale for this surface
/// is 1.
///
/// It is intended that scaling aware clients use this event to scale their
/// content and use wl_surface.set_buffer_scale to indicate the scale they
/// have rendered with. This allows clients to supply a higher detail
/// buffer.
///
/// The compositor shall emit a scale value greater than 0.
///
/// The message of this event, from the object `object`.
pub fn preferred_buffer_scale(object: u32, factor: i32) -> (m: Message)
    requires
        object != 0,
    ensures
        carries(m, object, 2, seq![ArgValue::Int(factor)]),
        pending_fds(m) == Seq::<i32>::empty(),
{
    let args = vec![Arg::Int(factor)];
    assert(views(args@) =~= seq![ArgValue::Int(factor)]);
    encode_message(object, 2, &args)
}

/// This event indicates the preferred buffer transform for this surface.
/// It is sent whenever the compositor's preference changes.
///
/// Before receiving this event the preferred buffer transform for this
/// surface is normal.
///
/// Applying this transformation to the surface buffer contents and using
/// wl_surface.set_buffer_transform might allow the compositor to use the
/// surface buffer more efficiently.
///
/// The message of this event, from the object `object`.
pub fn preferred_buffer_transform(object: u32, transform: Transform) -> (m: Message)
    requires
        object != 0,
    ensures
        carries(m, object, 3, seq![ArgValue::Uint(transform.wire_value())]),
        pending_fds(m) == Seq::<i32>::empty(),
{
    let args = vec![Arg::Uint(transform.to_wire())];
    assert(views(args@) =~= seq![ArgValue::Uint(transform.wire_value())]);
    encode_message(object, 3, &args)
}

/// The requests of `wl_surface` as the protocol defines them: the opcode of
/// each, the kinds of its arguments in order, and the field each argument
/// fills; no other opcode names a request.
pub proof fn lemma_protocol_requests()
    ensures
        request_signature(0) == Some(Seq::<ArgKind>::empty()),
        request_signature(1) == Some(seq![ArgKind::NullableObject, ArgKind::Int, ArgKind::Int]),
        request_signature(2) == Some(seq![ArgKind::Int, ArgKind::Int, ArgKind::Int, ArgKind::Int]),
        request_signature(3) == Some(seq![ArgKind::Object]),
        request_signature(4) == Some(seq![ArgKind::NullableObject]),
        request_signature(5) == Some(seq![ArgKind::NullableObject]),
        request_signature(6) == Some(Seq::<ArgKind>::empty()),
        request_signature(7) == Some(seq![ArgKind::Uint]),
        request_signature(8) == Some(seq![ArgKind::Int]),
        request_signature(9) == Some(seq![ArgKind::Int, ArgKind::Int, ArgKind::Int, ArgKind::Int]),
        request_signature(10) == Some(seq![ArgKind::Int, ArgKind::Int]),
        forall|opcode: u16| opcode >= 11 ==> #[trigger] request_signature(opcode) is None,
        forall|req: Request, vals: Seq<ArgValue>| #[trigger] request_fits(req, 0, vals) <==> (req is Destroy && vals == Seq::<ArgValue>::empty()),
        forall|req: Request, vals: Seq<ArgValue>| #[trigger] request_fits(req, 1, vals) <==> (req matches Request::Attach { buffer, x, y } && vals == seq![
            ArgValue::NullableObject(buffer),
            ArgValue::Int(x),
            ArgValue::Int(y),
        ]),
        forall|req: Request, vals: Seq<ArgValue>| #[trigger] request_fits(req, 2, vals) <==> (req matches Request::Damage { x, y, width, height } && vals == seq![
            ArgValue::Int(x),
            ArgValue::Int(y),
            ArgValue::Int(width),
            ArgValue::Int(height),
        ]),
        forall|req: Request, vals: Seq<ArgValue>| #[trigger] request_fits(req, 3, vals) <==> (req matches Request::Frame { callback } && vals == seq![ArgValue::Object(callback)]),
        forall|req: Request, vals: Seq<ArgValue>| #[trigger] request_fits(req, 4, vals) <==> (req matches Request::SetOpaqueRegion { region } && vals == seq![ArgValue::NullableObject(region)]),
        forall|req: Request, vals: Seq<ArgValue>| #[trigger] request_fits(req, 5, vals) <==> (req matches Request::SetInputRegion { region } && vals == seq![ArgValue::NullableObject(region)]),
        forall|req: Request, vals: Seq<ArgValue>| #[trigger] request_fits(req, 6, vals) <==> (req is Commit && vals == Seq::<ArgValue>::empty()),
        forall|req: Request, vals: Seq<ArgValue>| #[trigger] request_fits(req, 7, vals) <==> (req matches Request::SetBufferTransform { transform } && vals == seq![ArgValue::Uint(transform.wire_value())]),
        forall|req: Request, vals: Seq<ArgValue>| #[trigger] request_fits(req, 8, vals) <==> (req matches Request::SetBufferScale { scale } && vals == seq![ArgValue::Int(scale)]),
        forall|req: Request, vals: Seq<ArgValue>| #[trigger] request_fits(req, 9, vals) <==> (req matches Request::DamageBuffer { x, y, width, height } && vals == seq![
            ArgValue::Int(x),
            ArgValue::Int(y),
            ArgValue::Int(width),
            ArgValue::Int(height),
        ]),
        forall|req: Request, vals: Seq<ArgValue>| #[trigger] request_fits(req, 10, vals) <==> (req matches Request::Offset { x, y } && vals == seq![
            ArgValue::Int(x),
            ArgValue::Int(y),
        ]),
{
}

} // verus!
