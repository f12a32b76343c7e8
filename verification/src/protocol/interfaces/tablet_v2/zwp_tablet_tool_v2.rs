//! An object that represents a physical tool that has been, or is
//! currently in use with a tablet in this seat. Each wp_tablet_tool
//! object stays valid until the client destroys it; the compositor
//! reuses the wp_tablet_tool object to indicate that the object's
//! respective physical tool has come into proximity of a tablet again.
//!
//! The `zwp_tablet_tool_v2` interface, version 1: decoding of its
//! requests and encoding of its events.
use crate::codec::{
    Arg, ArgKind, ArgValue, Fixed, all_fit_wire, carries, encode_message, kind_of, kinds_of,
    lemma_kinds_of, read_args, spec_read_args, take_int, take_nullable_object, take_uint, views,
};
use crate::error::DecodeError;
use crate::error::Error as RequestError;
use crate::wire::{Cursor, cursor_of, message_opcode, opcode_of, pending_fds, same_header};
use vstd::prelude::*;
use waynest::wire::Message;

verus! {

/// The name of the interface.
pub const INTERFACE: &'static str = "zwp_tablet_tool_v2";

/// The version of the interface that is implemented.
pub const VERSION: u32 = 1;

/// Describes the physical type of a tool. The physical type of a tool
/// generally defines its base usage.
///
/// The mouse tool represents a mouse-shaped tool that is not a relative
/// device but bound to the tablet's surface, providing absolute
/// coordinates.
///
/// The lens tool is a mouse-shaped tool with an attached lens to
/// provide precision focus.
#[derive(Debug, PartialEq, Eq, PartialOrd, Ord, Hash, Clone, Copy)]
pub enum Type {
    /// Pen
    Pen,
    /// Eraser
    Eraser,
    /// Brush
    Brush,
    /// Pencil
    Pencil,
    /// Airbrush
    Airbrush,
    /// Finger
    Finger,
    /// Mouse
    Mouse,
    /// Lens
    Lens,
}

impl Type {
    /// The word that stands for this value on the wire.
    pub open spec fn wire_value(self) -> u32 {
        match self {
            Type::Pen => 0x140,
            Type::Eraser => 0x141,
            Type::Brush => 0x142,
            Type::Pencil => 0x143,
            Type::Airbrush => 0x144,
            Type::Finger => 0x145,
            Type::Mouse => 0x146,
            Type::Lens => 0x147,
        }
    }

    /// The value a word stands for, if any.
    pub open spec fn from_wire(v: u32) -> Result<Self, DecodeError> {
        match v {
            0x140 => Ok(Type::Pen),
            0x141 => Ok(Type::Eraser),
            0x142 => Ok(Type::Brush),
            0x143 => Ok(Type::Pencil),
            0x144 => Ok(Type::Airbrush),
            0x145 => Ok(Type::Finger),
            0x146 => Ok(Type::Mouse),
            0x147 => Ok(Type::Lens),
            _ => Err(DecodeError::MalformedPayload),
        }
    }

    /// The word that stands for this value on the wire.
    pub fn to_wire(self) -> (r: u32)
        ensures
            r == self.wire_value(),
    {
        match self {
            Type::Pen => 0x140,
            Type::Eraser => 0x141,
            Type::Brush => 0x142,
            Type::Pencil => 0x143,
            Type::Airbrush => 0x144,
            Type::Finger => 0x145,
            Type::Mouse => 0x146,
            Type::Lens => 0x147,
        }
    }

    /// A value read back from its word is that value, and a word that reads
    /// as a value is that value's word.
    pub proof fn lemma_wire_roundtrip(self, v: u32)
        ensures
            Self::from_wire(self.wire_value()) == Ok::<Self, DecodeError>(self),
            Self::from_wire(v) matches Ok(e) ==> e.wire_value() == v,
    {
    }

    /// The words the protocol gives the values of this enumeration.
    pub proof fn lemma_protocol_values()
        ensures
            Type::Pen.wire_value() == 0x140,
            Type::Eraser.wire_value() == 0x141,
            Type::Brush.wire_value() == 0x142,
            Type::Pencil.wire_value() == 0x143,
            Type::Airbrush.wire_value() == 0x144,
            Type::Finger.wire_value() == 0x145,
            Type::Mouse.wire_value() == 0x146,
            Type::Lens.wire_value() == 0x147,
            Self::from_wire(0x140) == Ok::<Self, DecodeError>(Type::Pen),
            Self::from_wire(0x141) == Ok::<Self, DecodeError>(Type::Eraser),
            Self::from_wire(0x142) == Ok::<Self, DecodeError>(Type::Brush),
            Self::from_wire(0x143) == Ok::<Self, DecodeError>(Type::Pencil),
            Self::from_wire(0x144) == Ok::<Self, DecodeError>(Type::Airbrush),
            Self::from_wire(0x145) == Ok::<Self, DecodeError>(Type::Finger),
            Self::from_wire(0x146) == Ok::<Self, DecodeError>(Type::Mouse),
            Self::from_wire(0x147) == Ok::<Self, DecodeError>(Type::Lens),
    {
    }
}

impl TryFrom<u32> for Type {
    type Error = DecodeError;

    fn try_from(v: u32) -> (r: Result<Self, DecodeError>) {
        match v {
            0x140 => Ok(Type::Pen),
            0x141 => Ok(Type::Eraser),
            0x142 => Ok(Type::Brush),
            0x143 => Ok(Type::Pencil),
            0x144 => Ok(Type::Airbrush),
            0x145 => Ok(Type::Finger),
            0x146 => Ok(Type::Mouse),
            0x147 => Ok(Type::Lens),
            _ => Err(DecodeError::MalformedPayload),
        }
    }
}

impl vstd::std_specs::convert::TryFromSpecImpl<u32> for Type {
    open spec fn obeys_try_from_spec() -> bool {
        true
    }

    open spec fn try_from_spec(v: u32) -> Result<Self, DecodeError> {
        Self::from_wire(v)
    }
}

/// Describes extra capabilities on a tablet.
///
/// Any tool must provide x and y values, extra axes are
/// device-specific.
#[derive(Debug, PartialEq, Eq, PartialOrd, Ord, Hash, Clone, Copy)]
pub enum Capability {
    /// Tilt axes
    Tilt,
    /// Pressure axis
    Pressure,
    /// Distance axis
    Distance,
    /// Z-rotation axis
    Rotation,
    /// Slider axis
    Slider,
    /// Wheel axis
    Wheel,
}

impl Capability {
    /// The word that stands for this value on the wire.
    pub open spec fn wire_value(self) -> u32 {
        match self {
            Capability::Tilt => 1,
            Capability::Pressure => 2,
            Capability::Distance => 3,
            Capability::Rotation => 4,
            Capability::Slider => 5,
            Capability::Wheel => 6,
        }
    }

    /// The value a word stands for, if any.
    pub open spec fn from_wire(v: u32) -> Result<Self, DecodeError> {
        match v {
            1 => Ok(Capability::Tilt),
            2 => Ok(Capability::Pressure),
            3 => Ok(Capability::Distance),
            4 => Ok(Capability::Rotation),
            5 => Ok(Capability::Slider),
            6 => Ok(Capability::Wheel),
            _ => Err(DecodeError::MalformedPayload),
        }
    }

    /// The word that stands for this value on the wire.
    pub fn to_wire(self) -> (r: u32)
        ensures
            r == self.wire_value(),
    {
        match self {
            Capability::Tilt => 1,
            Capability::Pressure => 2,
            Capability::Distance => 3,
            Capability::Rotation => 4,
            Capability::Slider => 5,
            Capability::Wheel => 6,
        }
    }

    /// A value read back from its word is that value, and a word that reads
    /// as a value is that value's word.
    pub proof fn lemma_wire_roundtrip(self, v: u32)
        ensures
            Self::from_wire(self.wire_value()) == Ok::<Self, DecodeError>(self),
            Self::from_wire(v) matches Ok(e) ==> e.wire_value() == v,
    {
    }

    /// The words the protocol gives the values of this enumeration.
    pub proof fn lemma_protocol_values()
        ensures
            Capability::Tilt.wire_value() == 1,
            Capability::Pressure.wire_value() == 2,
            Capability::Distance.wire_value() == 3,
            Capability::Rotation.wire_value() == 4,
            Capability::Slider.wire_value() == 5,
            Capability::Wheel.wire_value() == 6,
            Self::from_wire(1) == Ok::<Self, DecodeError>(Capability::Tilt),
            Self::from_wire(2) == Ok::<Self, DecodeError>(Capability::Pressure),
            Self::from_wire(3) == Ok::<Self, DecodeError>(Capability::Distance),
            Self::from_wire(4) == Ok::<Self, DecodeError>(Capability::Rotation),
            Self::from_wire(5) == Ok::<Self, DecodeError>(Capability::Slider),
            Self::from_wire(6) == Ok::<Self, DecodeError>(Capability::Wheel),
    {
    }
}

impl TryFrom<u32> for Capability {
    type Error = DecodeError;

    fn try_from(v: u32) -> (r: Result<Self, DecodeError>) {
        match v {
            1 => Ok(Capability::Tilt),
            2 => Ok(Capability::Pressure),
            3 => Ok(Capability::Distance),
            4 => Ok(Capability::Rotation),
            5 => Ok(Capability::Slider),
            6 => Ok(Capability::Wheel),
            _ => Err(DecodeError::MalformedPayload),
        }
    }
}

impl vstd::std_specs::convert::TryFromSpecImpl<u32> for Capability {
    open spec fn obeys_try_from_spec() -> bool {
        true
    }

    open spec fn try_from_spec(v: u32) -> Result<Self, DecodeError> {
        Self::from_wire(v)
    }
}

/// Describes the physical state of a button that produced the button event.
#[derive(Debug, PartialEq, Eq, PartialOrd, Ord, Hash, Clone, Copy)]
pub enum ButtonState {
    /// Button is not pressed
    Released,
    /// Button is pressed
    Pressed,
}

impl ButtonState {
    /// The word that stands for this value on the wire.
    pub open spec fn wire_value(self) -> u32 {
        match self {
            ButtonState::Released => 0,
            ButtonState::Pressed => 1,
        }
    }

    /// The value a word stands for, if any.
    pub open spec fn from_wire(v: u32) -> Result<Self, DecodeError> {
        match v {
            0 => Ok(ButtonState::Released),
            1 => Ok(ButtonState::Pressed),
            _ => Err(DecodeError::MalformedPayload),
        }
    }

    /// The word that stands for this value on the wire.
    pub fn to_wire(self) -> (r: u32)
        ensures
            r == self.wire_value(),
    {
        match self {
            ButtonState::Released => 0,
            ButtonState::Pressed => 1,
        }
    }

    /// A value read back from its word is that value, and a word that reads
    /// as a value is that value's word.
    pub proof fn lemma_wire_roundtrip(self, v: u32)
        ensures
            Self::from_wire(self.wire_value()) == Ok::<Self, DecodeError>(self),
            Self::from_wire(v) matches Ok(e) ==> e.wire_value() == v,
    {
    }

    /// The words the protocol gives the values of this enumeration.
    pub proof fn lemma_protocol_values()
        ensures
            ButtonState::Released.wire_value() == 0,
            ButtonState::Pressed.wire_value() == 1,
            Self::from_wire(0) == Ok::<Self, DecodeError>(ButtonState::Released),
            Self::from_wire(1) == Ok::<Self, DecodeError>(ButtonState::Pressed),
    {
    }
}

impl TryFrom<u32> for ButtonState {
    type Error = DecodeError;

    fn try_from(v: u32) -> (r: Result<Self, DecodeError>) {
        match v {
            0 => Ok(ButtonState::Released),
            1 => Ok(ButtonState::Pressed),
            _ => Err(DecodeError::MalformedPayload),
        }
    }
}

impl vstd::std_specs::convert::TryFromSpecImpl<u32> for ButtonState {
    open spec fn obeys_try_from_spec() -> bool {
        true
    }

    open spec fn try_from_spec(v: u32) -> Result<Self, DecodeError> {
        Self::from_wire(v)
    }
}

#[derive(Debug, PartialEq, Eq, PartialOrd, Ord, Hash, Clone, Copy)]
pub enum Error {
    /// Given wl_surface has another role
    Role,
}

impl Error {
    /// The word that stands for this value on the wire.
    pub open spec fn wire_value(self) -> u32 {
        match self {
            Error::Role => 0,
        }
    }

    /// The value a word stands for, if any.
    pub open spec fn from_wire(v: u32) -> Result<Self, DecodeError> {
        match v {
            0 => Ok(Error::Role),
            _ => Err(DecodeError::MalformedPayload),
        }
    }

    /// The word that stands for this value on the wire.
    pub fn to_wire(self) -> (r: u32)
        ensures
            r == self.wire_value(),
    {
        match self {
            Error::Role => 0,
        }
    }

    /// A value read back from its word is that value, and a word that reads
    /// as a value is that value's word.
    pub proof fn lemma_wire_roundtrip(self, v: u32)
        ensures
            Self::from_wire(self.wire_value()) == Ok::<Self, DecodeError>(self),
            Self::from_wire(v) matches Ok(e) ==> e.wire_value() == v,
    {
    }

    /// The words the protocol gives the values of this enumeration.
    pub proof fn lemma_protocol_values()
        ensures
            Error::Role.wire_value() == 0,
            Self::from_wire(0) == Ok::<Self, DecodeError>(Error::Role),
    {
    }
}

impl TryFrom<u32> for Error {
    type Error = DecodeError;

    fn try_from(v: u32) -> (r: Result<Self, DecodeError>) {
        match v {
            0 => Ok(Error::Role),
            _ => Err(DecodeError::MalformedPayload),
        }
    }
}

impl vstd::std_specs::convert::TryFromSpecImpl<u32> for Error {
    open spec fn obeys_try_from_spec() -> bool {
        true
    }

    open spec fn try_from_spec(v: u32) -> Result<Self, DecodeError> {
        Self::from_wire(v)
    }
}

/// A request of `zwp_tablet_tool_v2`, decoded from the wire.
#[derive(Debug)]
pub enum Request {
    /// Sets the surface of the cursor used for this tool on the given
    /// tablet. This request only takes effect if the tool is in proximity
    /// of one of the requesting client's surfaces or the surface parameter
    /// is the current pointer surface. If there was a previous surface set
    /// with this request it is replaced. If surface is NULL, the cursor
    /// image is hidden.
    SetCursor {
        serial: u32,
        surface: Option<u32>,
        hotspot_x: i32,
        hotspot_y: i32,
    },
    /// This destroys the client's resource for this tool object.
    Destroy,
}

/// The kinds of the arguments of the request with opcode `opcode`.
pub open spec fn request_signature(opcode: u16) -> Option<Seq<ArgKind>> {
    match opcode {
        0 => Some(seq![ArgKind::Uint, ArgKind::NullableObject, ArgKind::Int, ArgKind::Int]),
        1 => Some(Seq::<ArgKind>::empty()),
        _ => None,
    }
}

/// Whether decoded arguments hold, where the request takes an enumeration or
/// a bit set, a word that stands for one.
pub open spec fn request_args_valid(opcode: u16, vals: Seq<ArgValue>) -> bool {
    true
}

/// Whether `req` is the request with opcode `opcode` and arguments `vals`.
pub open spec fn request_fits(req: Request, opcode: u16, vals: Seq<ArgValue>) -> bool {
    match req {
        Request::SetCursor { serial, surface, hotspot_x, hotspot_y } => {
            &&& opcode == 0
            &&& vals == seq![
                ArgValue::Uint(serial),
                ArgValue::NullableObject(surface),
                ArgValue::Int(hotspot_x),
                ArgValue::Int(hotspot_y),
            ]
        },
        Request::Destroy => {
            &&& opcode == 1
            &&& vals == Seq::<ArgValue>::empty()
        },
    }
}

/// What decoding a request with opcode `opcode` from the payload and file
/// descriptors of `c` gives.
pub open spec fn request_outcome(opcode: u16, c: Cursor, r: Result<Request, RequestError>) -> bool {
    match request_signature(opcode) {
        None => r == Err::<Request, RequestError>(RequestError::UnknownOpcode(opcode)),
        Some(sig) => match spec_read_args(sig, c) {
            None => r == Err::<Request, RequestError>(RequestError::MalformedPayload),
            Some((vals, _)) => if request_args_valid(opcode, vals) {
                r matches Ok(req) && request_fits(req, opcode, vals)
            } else {
                r == Err::<Request, RequestError>(RequestError::MalformedPayload)
            },
        },
    }
}

/// A message that carries, for an object of `zwp_tablet_tool_v2`, arguments `vals` of
/// the kinds the request with opcode `opcode` takes decodes to that request
/// with those arguments, where they fit the wire and name known values of
/// its enumerations; where they name unknown values, it is refused as
/// malformed.
pub proof fn lemma_request_roundtrip(
    m: Message,
    object: u32,
    opcode: u16,
    vals: Seq<ArgValue>,
    r: Result<Request, RequestError>,
)
    requires
        request_signature(opcode) == Some(kinds_of(vals)),
        carries(m, object, opcode, vals),
        all_fit_wire(vals),
        request_outcome(message_opcode(m), cursor_of(m), r),
    ensures
        request_args_valid(opcode, vals) ==> (r matches Ok(req) && request_fits(req, opcode, vals)),
        !request_args_valid(opcode, vals) ==> r == Err::<Request, RequestError>(
            RequestError::MalformedPayload,
        ),
{
}

fn signature(opcode: u16) -> (r: Option<Vec<ArgKind>>)
    ensures
        match request_signature(opcode) {
            None => r is None,
            Some(sig) => r matches Some(v) && v@ == sig,
        },
{
    match opcode {
        0 => Some(vec![ArgKind::Uint, ArgKind::NullableObject, ArgKind::Int, ArgKind::Int]),
        1 => Some(Vec::new()),
        _ => None,
    }
}

fn decode_set_cursor(args: Vec<Arg>) -> (r: Result<Request, RequestError>)
    requires
        kinds_of(views(args@)) == seq![
            ArgKind::Uint,
            ArgKind::NullableObject,
            ArgKind::Int,
            ArgKind::Int,
        ],
    ensures
        if request_args_valid(0, views(args@)) {
            r matches Ok(req) && request_fits(req, 0, views(args@))
        } else {
            r == Err::<Request, RequestError>(RequestError::MalformedPayload)
        },
{
    let ghost vals = views(args@);
    let mut args = args;
    proof {
        lemma_kinds_of(vals);
    }
    assert(vals.len() == 4);
    assert(views(args@) =~= vals.skip(0));
    assert(kind_of(vals[0]) == ArgKind::Uint);
    let serial = take_uint(&mut args);
    assert(views(args@) =~= vals.skip(1));
    assert(kind_of(vals[1]) == ArgKind::NullableObject);
    let surface = take_nullable_object(&mut args);
    assert(views(args@) =~= vals.skip(2));
    assert(kind_of(vals[2]) == ArgKind::Int);
    let hotspot_x = take_int(&mut args);
    assert(views(args@) =~= vals.skip(3));
    assert(kind_of(vals[3]) == ArgKind::Int);
    let hotspot_y = take_int(&mut args);
    assert(vals =~= seq![
        ArgValue::Uint(serial),
        ArgValue::NullableObject(surface),
        ArgValue::Int(hotspot_x),
        ArgValue::Int(hotspot_y),
    ]);
    Ok(Request::SetCursor { serial, surface, hotspot_x, hotspot_y })
}

fn decode_destroy(args: Vec<Arg>) -> (r: Result<Request, RequestError>)
    requires
        kinds_of(views(args@)) == Seq::<ArgKind>::empty(),
    ensures
        if request_args_valid(1, views(args@)) {
            r matches Ok(req) && request_fits(req, 1, views(args@))
        } else {
            r == Err::<Request, RequestError>(RequestError::MalformedPayload)
        },
{
    let ghost vals = views(args@);
    proof {
        lemma_kinds_of(vals);
    }
    assert(vals =~= Seq::<ArgValue>::empty());
    Ok(Request::Destroy)
}

fn into_request(opcode: u16, args: Vec<Arg>) -> (r: Result<Request, RequestError>)
    requires
        request_signature(opcode) == Some(kinds_of(views(args@))),
    ensures
        if request_args_valid(opcode, views(args@)) {
            r matches Ok(req) && request_fits(req, opcode, views(args@))
        } else {
            r == Err::<Request, RequestError>(RequestError::MalformedPayload)
        },
{
    match opcode {
        0 => decode_set_cursor(args),
        1 => decode_destroy(args),
        _ => {
            proof {
                assert(false);
            }
            Err(RequestError::UnknownOpcode(opcode))
        },
    }
}

/// Decodes the request a message carries for a `zwp_tablet_tool_v2` object: its opcode
/// picks the request, and its payload and file descriptors give the
/// arguments, in order.
pub fn handle_request(message: &mut Message) -> (r: Result<Request, RequestError>)
    ensures
        same_header(*old(message), *final(message)),
        request_outcome(message_opcode(*old(message)), cursor_of(*old(message)), r),
{
    let opcode = opcode_of(message);
    match signature(opcode) {
        None => Err(RequestError::UnknownOpcode(opcode)),
        Some(sig) => match read_args(message, &sig) {
            None => Err(RequestError::MalformedPayload),
            Some(args) => into_request(opcode, args),
        },
    }
}

/// The tool type is the high-level type of the tool and usually decides
/// the interaction expected from this tool.
///
/// This event is sent in the initial burst of events before the
/// wp_tablet_tool.done event.
///
/// The message of this event, from the object `object`.
pub fn tool_type(object: u32, tool_type_value: Type) -> (m: Message)
    requires
        object != 0,
    ensures
        carries(m, object, 0, seq![ArgValue::Uint(tool_type_value.wire_value())]),
        pending_fds(m) == Seq::<i32>::empty(),
{
    let args = vec![Arg::Uint(tool_type_value.to_wire())];
    assert(views(args@) =~= seq![ArgValue::Uint(tool_type_value.wire_value())]);
    encode_message(object, 0, &args)
}

/// If the physical tool can be identified by a unique 64-bit serial
/// number, this event notifies the client of this serial number.
///
/// If multiple tablets are available in the same seat and the tool is
/// uniquely identifiable by the serial number, that tool may move
/// between tablets.
///
/// Otherwise, if the tool has no serial number and this event is
/// missing, the tool is tied to the tablet it first comes into
/// proximity with. Even if the physical tool is used on multiple
/// tablets, separate wp_tablet_tool objects will be created, one per
/// tablet.
///
/// This event is sent in the initial burst of events before the
/// wp_tablet_tool.done event.
///
/// The message of this event, from the object `object`.
pub fn hardware_serial(
    object: u32,
    hardware_serial_hi: u32,
    hardware_serial_lo: u32,
) -> (m: Message)
    requires
        object != 0,
    ensures
        carries(
            m,
            object,
            1,
            seq![ArgValue::Uint(hardware_serial_hi), ArgValue::Uint(hardware_serial_lo)],
        ),
        pending_fds(m) == Seq::<i32>::empty(),
{
    let args = vec![Arg::Uint(hardware_serial_hi), Arg::Uint(hardware_serial_lo)];
    assert(views(args@) =~= seq![
        ArgValue::Uint(hardware_serial_hi),
        ArgValue::Uint(hardware_serial_lo),
    ]);
    encode_message(object, 1, &args)
}

/// This event notifies the client of a hardware id available on this tool.
///
/// The hardware id is a device-specific 64-bit id that provides extra
/// information about the tool in use, beyond the wl_tool.type
/// enumeration. The format of the id is specific to tablets made by
/// Wacom Inc. For example, the hardware id of a Wacom Grip
/// Pen (a stylus) is 0x802.
///
/// This event is sent in the initial burst of events before the
/// wp_tablet_tool.done event.
///
/// The message of this event, from the object `object`.
pub fn hardware_id_wacom(object: u32, hardware_id_hi: u32, hardware_id_lo: u32) -> (m: Message)
    requires
        object != 0,
    ensures
        carries(m, object, 2, seq![ArgValue::Uint(hardware_id_hi), ArgValue::Uint(hardware_id_lo)]),
        pending_fds(m) == Seq::<i32>::empty(),
{
    let args = vec![Arg::Uint(hardware_id_hi), Arg::Uint(hardware_id_lo)];
    assert(views(args@) =~= seq![ArgValue::Uint(hardware_id_hi), ArgValue::Uint(hardware_id_lo)]);
    encode_message(object, 2, &args)
}

/// This event notifies the client of any capabilities of this tool,
/// beyond the main set of x/y axes and tip up/down detection.
///
/// One event is sent for each extra capability available on this tool.
///
/// This event is sent in the initial burst of events before the
/// wp_tablet_tool.done event.
///
/// The message of this event, from the object `object`.
pub fn capability(object: u32, capability_value: Capability) -> (m: Message)
    requires
        object != 0,
    ensures
        carries(m, object, 3, seq![ArgValue::Uint(capability_value.wire_value())]),
        pending_fds(m) == Seq::<i32>::empty(),
{
    let args = vec![Arg::Uint(capability_value.to_wire())];
    assert(views(args@) =~= seq![ArgValue::Uint(capability_value.wire_value())]);
    encode_message(object, 3, &args)
}

/// This event signals the end of the initial burst of descriptive
/// events. A client may consider the static description of the tool to
/// be complete and finalize initialization of the tool.
///
/// The message of this event, from the object `object`.
pub fn done(object: u32) -> (m: Message)
    requires
        object != 0,
    ensures
        carries(m, object, 4, Seq::<ArgValue>::empty()),
        pending_fds(m) == Seq::<i32>::empty(),
{
    let args: Vec<Arg> = Vec::new();
    assert(views(args@) =~= Seq::<ArgValue>::empty());
    encode_message(object, 4, &args)
}

/// This event is sent when the tool is removed from the system and will
/// send no further events. Should the physical tool come back into
/// proximity later, a new wp_tablet_tool object will be created.
///
/// It is compositor-dependent when a tool is removed. A compositor may
/// remove a tool on proximity out, tablet removal or any other reason.
/// A compositor may also keep a tool alive until shutdown.
///
/// If the tool is currently in proximity, a proximity_out event will be
/// sent before the removed event. See wp_tablet_tool.proximity_out for
/// the handling of any buttons logically down.
///
/// When this event is received, the client must wp_tablet_tool.destroy
/// the object.
///
/// The message of this event, from the object `object`.
pub fn removed(object: u32) -> (m: Message)
    requires
        object != 0,
    ensures
        carries(m, object, 5, Seq::<ArgValue>::empty()),
        pending_fds(m) == Seq::<i32>::empty(),
{
    let args: Vec<Arg> = Vec::new();
    assert(views(args@) =~= Seq::<ArgValue>::empty());
    encode_message(object, 5, &args)
}

/// Notification that this tool is focused on a certain surface.
///
/// This event can be received when the tool has moved from one surface to
/// another, or when the tool has come back into proximity above the
/// surface.
///
/// If any button is logically down when the tool comes into proximity,
/// the respective button event is sent after the proximity_in event but
/// within the same frame as the proximity_in event.
///
/// The message of this event, from the object `object`.
pub fn proximity_in(object: u32, serial: u32, tablet: u32, surface: u32) -> (m: Message)
    requires
        object != 0,
        tablet != 0,
        surface != 0,
    ensures
        carries(
            m,
            object,
            6,
            seq![ArgValue::Uint(serial), ArgValue::Object(tablet), ArgValue::Object(surface)],
        ),
        pending_fds(m) == Seq::<i32>::empty(),
{
    let args = vec![Arg::Uint(serial), Arg::Object(tablet), Arg::Object(surface)];
    assert(views(args@) =~= seq![
        ArgValue::Uint(serial),
        ArgValue::Object(tablet),
        ArgValue::Object(surface),
    ]);
    encode_message(object, 6, &args)
}

/// Notification that this tool has either left proximity, or is no
/// longer focused on a certain surface.
///
/// When the tablet tool leaves proximity of the tablet, button release
/// events are sent for each button that was held down at the time of
/// leaving proximity. These events are sent before the proximity_out
/// event but within the same wp_tablet.frame.
///
/// If the tool stays within proximity of the tablet, but the focus
/// changes from one surface to another, a button release event may not
/// be sent until the button is actually released or the tool leaves the
/// proximity of the tablet.
///
/// The message of this event, from the object `object`.
pub fn proximity_out(object: u32) -> (m: Message)
    requires
        object != 0,
    ensures
        carries(m, object, 7, Seq::<ArgValue>::empty()),
        pending_fds(m) == Seq::<i32>::empty(),
{
    let args: Vec<Arg> = Vec::new();
    assert(views(args@) =~= Seq::<ArgValue>::empty());
    encode_message(object, 7, &args)
}

/// Sent whenever the tablet tool comes in contact with the surface of the
/// tablet.
///
/// If the tool is already in contact with the tablet when entering the
/// input region, the client owning said region will receive a
/// wp_tablet.proximity_in event, followed by a wp_tablet.down
/// event and a wp_tablet.frame event.
///
/// Note that this event describes logical contact, not physical
/// contact. On some devices, a compositor may not consider a tool in
/// logical contact until a minimum physical pressure threshold is
/// exceeded.
///
/// The message of this event, from the object `object`.
pub fn down(object: u32, serial: u32) -> (m: Message)
    requires
        object != 0,
    ensures
        carries(m, object, 8, seq![ArgValue::Uint(serial)]),
        pending_fds(m) == Seq::<i32>::empty(),
{
    let args = vec![Arg::Uint(serial)];
    assert(views(args@) =~= seq![ArgValue::Uint(serial)]);
    encode_message(object, 8, &args)
}

/// Sent whenever the tablet tool stops making contact with the surface of
/// the tablet, or when the tablet tool moves out of the input region
/// and the compositor grab (if any) is dismissed.
///
/// If the tablet tool moves out of the input region while in contact
/// with the surface of the tablet and the compositor does not have an
/// ongoing grab on the surface, the client owning said region will
/// receive a wp_tablet.up event, followed by a wp_tablet.proximity_out
/// event and a wp_tablet.frame event. If the compositor has an ongoing
/// grab on this device, this event sequence is sent whenever the grab
/// is dismissed in the future.
///
/// Note that this event describes logical contact, not physical
/// contact. On some devices, a compositor may not consider a tool out
/// of logical contact until physical pressure falls below a specific
/// threshold.
///
/// The message of this event, from the object `object`.
pub fn up(object: u32) -> (m: Message)
    requires
        object != 0,
    ensures
        carries(m, object, 9, Seq::<ArgValue>::empty()),
        pending_fds(m) == Seq::<i32>::empty(),
{
    let args: Vec<Arg> = Vec::new();
    assert(views(args@) =~= Seq::<ArgValue>::empty());
    encode_message(object, 9, &args)
}

/// Sent whenever a tablet tool moves.
///
/// The message of this event, from the object `object`.
pub fn motion(object: u32, x: Fixed, y: Fixed) -> (m: Message)
    requires
        object != 0,
    ensures
        carries(m, object, 10, seq![ArgValue::Fixed(x.raw), ArgValue::Fixed(y.raw)]),
        pending_fds(m) == Seq::<i32>::empty(),
{
    let args = vec![Arg::Fixed(x.raw), Arg::Fixed(y.raw)];
    assert(views(args@) =~= seq![ArgValue::Fixed(x.raw), ArgValue::Fixed(y.raw)]);
    encode_message(object, 10, &args)
}

/// Sent whenever the pressure axis on a tool changes. The value of this
/// event is normalized to a value between 0 and 65535.
///
/// Note that pressure may be nonzero even when a tool is not in logical
/// contact. See the down and up events for more details.
///
/// The message of this event, from the object `object`.
pub fn pressure(object: u32, pressure_value: u32) -> (m: Message)
    requires
        object != 0,
    ensures
        carries(m, object, 11, seq![ArgValue::Uint(pressure_value)]),
        pending_fds(m) == Seq::<i32>::empty(),
{
    let args = vec![Arg::Uint(pressure_value)];
    assert(views(args@) =~= seq![ArgValue::Uint(pressure_value)]);
    encode_message(object, 11, &args)
}

/// Sent whenever the distance axis on a tool changes. The value of this
/// event is normalized to a value between 0 and 65535.
///
/// Note that distance may be nonzero even when a tool is not in logical
/// contact. See the down and up events for more details.
///
/// The message of this event, from the object `object`.
pub fn distance(object: u32, distance_value: u32) -> (m: Message)
    requires
        object != 0,
    ensures
        carries(m, object, 12, seq![ArgValue::Uint(distance_value)]),
        pending_fds(m) == Seq::<i32>::empty(),
{
    let args = vec![Arg::Uint(distance_value)];
    assert(views(args@) =~= seq![ArgValue::Uint(distance_value)]);
    encode_message(object, 12, &args)
}

/// Sent whenever one or both of the tilt axes on a tool change. Each tilt
/// value is in degrees, relative to the z-axis of the tablet.
/// The angle is positive when the top of a tool tilts along the
/// positive x or y axis.
///
/// The message of this event, from the object `object`.
pub fn tilt(object: u32, tilt_x: Fixed, tilt_y: Fixed) -> (m: Message)
    requires
        object != 0,
    ensures
        carries(m, object, 13, seq![ArgValue::Fixed(tilt_x.raw), ArgValue::Fixed(tilt_y.raw)]),
        pending_fds(m) == Seq::<i32>::empty(),
{
    let args = vec![Arg::Fixed(tilt_x.raw), Arg::Fixed(tilt_y.raw)];
    assert(views(args@) =~= seq![ArgValue::Fixed(tilt_x.raw), ArgValue::Fixed(tilt_y.raw)]);
    encode_message(object, 13, &args)
}

/// Sent whenever the z-rotation axis on the tool changes. The
/// rotation value is in degrees clockwise from the tool's
/// logical neutral position.
///
/// The message of this event, from the object `object`.
pub fn rotation(object: u32, degrees: Fixed) -> (m: Message)
    requires
        object != 0,
    ensures
        carries(m, object, 14, seq![ArgValue::Fixed(degrees.raw)]),
        pending_fds(m) == Seq::<i32>::empty(),
{
    let args = vec![Arg::Fixed(degrees.raw)];
    assert(views(args@) =~= seq![ArgValue::Fixed(degrees.raw)]);
    encode_message(object, 14, &args)
}

/// Sent whenever the slider position on the tool changes. The
/// value is normalized between -65535 and 65535, with 0 as the logical
/// neutral position of the slider.
///
/// The slider is available on e.g. the Wacom Airbrush tool.
///
/// The message of this event, from the object `object`.
pub fn slider(object: u32, position: i32) -> (m: Message)
    requires
        object != 0,
    ensures
        carries(m, object, 15, seq![ArgValue::Int(position)]),
        pending_fds(m) == Seq::<i32>::empty(),
{
    let args = vec![Arg::Int(position)];
    assert(views(args@) =~= seq![ArgValue::Int(position)]);
    encode_message(object, 15, &args)
}

/// Sent whenever the wheel on the tool emits an event. This event
/// contains two values for the same axis change. The degrees value is
/// in the same orientation as the wl_pointer.vertical_scroll axis. The
/// clicks value is in discrete logical clicks of the mouse wheel. This
/// value may be zero if the movement of the wheel was less
/// than one logical click.
///
/// Clients should choose either value and avoid mixing degrees and
/// clicks. The compositor may accumulate values smaller than a logical
/// click and emulate click events when a certain threshold is met.
/// Thus, wl_tablet_tool.wheel events with non-zero clicks values may
/// have different degrees values.
///
/// The message of this event, from the object `object`.
pub fn wheel(object: u32, degrees: Fixed, clicks: i32) -> (m: Message)
    requires
        object != 0,
    ensures
        carries(m, object, 16, seq![ArgValue::Fixed(degrees.raw), ArgValue::Int(clicks)]),
        pending_fds(m) == Seq::<i32>::empty(),
{
    let args = vec![Arg::Fixed(degrees.raw), Arg::Int(clicks)];
    assert(views(args@) =~= seq![ArgValue::Fixed(degrees.raw), ArgValue::Int(clicks)]);
    encode_message(object, 16, &args)
}

/// Sent whenever a button on the tool is pressed or released.
///
/// If a button is held down when the tool moves in or out of proximity,
/// button events are generated by the compositor. See
/// wp_tablet_tool.proximity_in and wp_tablet_tool.proximity_out for
/// details.
///
/// The message of this event, from the object `object`.
pub fn button(object: u32, serial: u32, button_value: u32, state: ButtonState) -> (m: Message)
    requires
        object != 0,
    ensures
        carries(
            m,
            object,
            17,
            seq![
                ArgValue::Uint(serial),
                ArgValue::Uint(button_value),
                ArgValue::Uint(state.wire_value()),
            ],
        ),
        pending_fds(m) == Seq::<i32>::empty(),
{
    let args = vec![Arg::Uint(serial), Arg::Uint(button_value), Arg::Uint(state.to_wire())];
    assert(views(args@) =~= seq![
        ArgValue::Uint(serial),
        ArgValue::Uint(button_value),
        ArgValue::Uint(state.wire_value()),
    ]);
    encode_message(object, 17, &args)
}

/// Marks the end of a series of axis and/or button updates from the
/// tablet. The Wayland protocol requires axis updates to be sent
/// sequentially, however all events within a frame should be considered
/// one hardware event.
///
/// The message of this event, from the object `object`.
pub fn frame(object: u32, time: u32) -> (m: Message)
    requires
        object != 0,
    ensures
        carries(m, object, 18, seq![ArgValue::Uint(time)]),
        pending_fds(m) == Seq::<i32>::empty(),
{
    let args = vec![Arg::Uint(time)];
    assert(views(args@) =~= seq![ArgValue::Uint(time)]);
    encode_message(object, 18, &args)
}

/// The requests of `zwp_tablet_tool_v2` as the protocol defines them: the opcode of
/// each, the kinds of its arguments in order, and the field each argument
/// fills; no other opcode names a request.
pub proof fn lemma_protocol_requests()
    ensures
        request_signature(0) == Some(seq![
            ArgKind::Uint,
            ArgKind::NullableObject,
            ArgKind::Int,
            ArgKind::Int,
        ]),
        request_signature(1) == Some(Seq::<ArgKind>::empty()),
        forall|opcode: u16| opcode >= 2 ==> #[trigger] request_signature(opcode) is None,
        forall|req: Request, vals: Seq<ArgValue>| #[trigger] request_fits(req, 0, vals) <==> (req matches Request::SetCursor {
            serial,
            surface,
            hotspot_x,
            hotspot_y,
        } && vals == seq![
            ArgValue::Uint(serial),
            ArgValue::NullableObject(surface),
            ArgValue::Int(hotspot_x),
            ArgValue::Int(hotspot_y),
        ]),
        forall|req: Request, vals: Seq<ArgValue>| #[trigger] request_fits(req, 1, vals) <==> (req is Destroy && vals == Seq::<ArgValue>::empty()),
{
}

} // verus!
