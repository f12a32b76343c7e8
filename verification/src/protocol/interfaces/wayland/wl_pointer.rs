//! The wl_pointer interface represents one or more input devices,
//! such as mice, which control the pointer location and pointer_focus
//! of a seat.
//!
//! The `wl_pointer` interface, version 9: decoding of its
//! requests and encoding of its events.
use crate::codec::{
    Arg, ArgKind, ArgValue, Fixed, all_fit_wire, carries, encode_message, kind_of, kinds_of,
    lemma_kinds_of, read_args, spec_read_args, take_int, take_nullable_object, take_uint, views,
};
use crate::error::DecodeError;
use crate::error::Error as RequestError;
use crate::wire::{Cursor, cursor_of, message_opcode, opcode_of, pending_fds, same_header};
use vstd::prelude::*;
use waynest::wire::Message;

verus! {

/// The name of the interface.
pub const INTERFACE: &'static str = "wl_pointer";

/// The version of the interface that is implemented.
pub const VERSION: u32 = 9;

#[derive(Debug, PartialEq, Eq, PartialOrd, Ord, Hash, Clone, Copy)]
pub enum Error {
    /// Given wl_surface has another role
    Role,
}

impl Error {
    /// The word that stands for this value on the wire.
    pub open spec fn wire_value(self) -> u32 {
        match self {
            Error::Role => 0,
        }
    }

    /// The value a word stands for, if any.
    pub open spec fn from_wire(v: u32) -> Result<Self, DecodeError> {
        match v {
            0 => Ok(Error::Role),
            _ => Err(DecodeError::MalformedPayload),
        }
    }

    /// The word that stands for this value on the wire.
    pub fn to_wire(self) -> (r: u32)
        ensures
            r == self.wire_value(),
    {
        match self {
            Error::Role => 0,
        }
    }

    /// A value read back from its word is that value, and a word that reads
    /// as a value is that value's word.
    pub proof fn lemma_wire_roundtrip(self, v: u32)
        ensures
            Self::from_wire(self.wire_value()) == Ok::<Self, DecodeError>(self),
            Self::from_wire(v) matches Ok(e) ==> e.wire_value() == v,
    {
    }

    /// The words the protocol gives the values of this enumeration.
    pub proof fn lemma_protocol_values()
        ensures
            Error::Role.wire_value() == 0,
            Self::from_wire(0) == Ok::<Self, DecodeError>(Error::Role),
    {
    }
}

impl TryFrom<u32> for Error {
    type Error = DecodeError;

    fn try_from(v: u32) -> (r: Result<Self, DecodeError>) {
        match v {
            0 => Ok(Error::Role),
            _ => Err(DecodeError::MalformedPayload),
        }
    }
}

impl vstd::std_specs::convert::TryFromSpecImpl<u32> for Error {
    open spec fn obeys_try_from_spec() -> bool {
        true
    }

    open spec fn try_from_spec(v: u32) -> Result<Self, DecodeError> {
        Self::from_wire(v)
    }
}

/// Describes the physical state of a button that produced the button
/// event.
#[derive(Debug, PartialEq, Eq, PartialOrd, Ord, Hash, Clone, Copy)]
pub enum ButtonState {
    /// The button is not pressed
    Released,
    /// The button is pressed
    Pressed,
}

impl ButtonState {
    /// The word that stands for this value on the wire.
    pub open spec fn wire_value(self) -> u32 {
        match self {
            ButtonState::Released => 0,
            ButtonState::Pressed => 1,
        }
    }

    /// The value a word stands for, if any.
    pub open spec fn from_wire(v: u32) -> Result<Self, DecodeError> {
        match v {
            0 => Ok(ButtonState::Released),
            1 => Ok(ButtonState::Pressed),
            _ => Err(DecodeError::MalformedPayload),
        }
    }

    /// The word that stands for this value on the wire.
    pub fn to_wire(self) -> (r: u32)
        ensures
            r == self.wire_value(),
    {
        match self {
            ButtonState::Released => 0,
            ButtonState::Pressed => 1,
        }
    }

    /// A value read back from its word is that value, and a word that reads
    /// as a value is that value's word.
    pub proof fn lemma_wire_roundtrip(self, v: u32)
        ensures
            Self::from_wire(self.wire_value()) == Ok::<Self, DecodeError>(self),
            Self::from_wire(v) matches Ok(e) ==> e.wire_value() == v,
    {
    }

    /// The words the protocol gives the values of this enumeration.
    pub proof fn lemma_protocol_values()
        ensures
            ButtonState::Released.wire_value() == 0,
            ButtonState::Pressed.wire_value() == 1,
            Self::from_wire(0) == Ok::<Self, DecodeError>(ButtonState::Released),
            Self::from_wire(1) == Ok::<Self, DecodeError>(ButtonState::Pressed),
    {
    }
}

impl TryFrom<u32> for ButtonState {
    type Error = DecodeError;

    fn try_from(v: u32) -> (r: Result<Self, DecodeError>) {
        match v {
            0 => Ok(ButtonState::Released),
            1 => Ok(ButtonState::Pressed),
            _ => Err(DecodeError::MalformedPayload),
        }
    }
}

impl vstd::std_specs::convert::TryFromSpecImpl<u32> for ButtonState {
    open spec fn obeys_try_from_spec() -> bool {
        true
    }

    open spec fn try_from_spec(v: u32) -> Result<Self, DecodeError> {
        Self::from_wire(v)
    }
}

/// Describes the axis types of scroll events.
#[derive(Debug, PartialEq, Eq, PartialOrd, Ord, Hash, Clone, Copy)]
pub enum Axis {
    /// Vertical axis
    VerticalScroll,
    /// Horizontal axis
    HorizontalScroll,
}

impl Axis {
    /// The word that stands for this value on the wire.
    pub open spec fn wire_value(self) -> u32 {
        match self {
            Axis::VerticalScroll => 0,
            Axis::HorizontalScroll => 1,
        }
    }

    /// The value a word stands for, if any.
    pub open spec fn from_wire(v: u32) -> Result<Self, DecodeError> {
        match v {
            0 => Ok(Axis::VerticalScroll),
            1 => Ok(Axis::HorizontalScroll),
            _ => Err(DecodeError::MalformedPayload),
        }
    }

    /// The word that stands for this value on the wire.
    pub fn to_wire(self) -> (r: u32)
        ensures
            r == self.wire_value(),
    {
        match self {
            Axis::VerticalScroll => 0,
            Axis::HorizontalScroll => 1,
        }
    }

    /// A value read back from its word is that value, and a word that reads
    /// as a value is that value's word.
    pub proof fn lemma_wire_roundtrip(self, v: u32)
        ensures
            Self::from_wire(self.wire_value()) == Ok::<Self, DecodeError>(self),
            Self::from_wire(v) matches Ok(e) ==> e.wire_value() == v,
    {
    }

    /// The words the protocol gives the values of this enumeration.
    pub proof fn lemma_protocol_values()
        ensures
            Axis::VerticalScroll.wire_value() == 0,
            Axis::HorizontalScroll.wire_value() == 1,
            Self::from_wire(0) == Ok::<Self, DecodeError>(Axis::VerticalScroll),
            Self::from_wire(1) == Ok::<Self, DecodeError>(Axis::HorizontalScroll),
    {
    }
}

impl TryFrom<u32> for Axis {
    type Error = DecodeError;

    fn try_from(v: u32) -> (r: Result<Self, DecodeError>) {
        match v {
            0 => Ok(Axis::VerticalScroll),
            1 => Ok(Axis::HorizontalScroll),
            _ => Err(DecodeError::MalformedPayload),
        }
    }
}

impl vstd::std_specs::convert::TryFromSpecImpl<u32> for Axis {
    open spec fn obeys_try_from_spec() -> bool {
        true
    }

    open spec fn try_from_spec(v: u32) -> Result<Self, DecodeError> {
        Self::from_wire(v)
    }
}

/// Describes the source types for axis events. This indicates to the
/// client how an axis event was physically generated; a client may
/// adjust the user interface accordingly. For example, scroll events
/// from a "finger" source may be in a smooth coordinate space with
/// kinetic scrolling whereas a "wheel" source may be in discrete steps
/// of a number of lines.
///
/// The "continuous" axis source is a device generating events in a
/// continuous coordinate space, but using something other than a
/// finger. One example for this source is button-based scrolling where
/// the vertical motion of a device is converted to scroll events while
/// a button is held down.
///
/// The "wheel tilt" axis source indicates that the actual device is a
/// wheel but the scroll event is not caused by a rotation but a
/// (usually sideways) tilt of the wheel.
#[derive(Debug, PartialEq, Eq, PartialOrd, Ord, Hash, Clone, Copy)]
pub enum AxisSource {
    /// A physical wheel rotation
    Wheel,
    /// Finger on a touch surface
    Finger,
    /// Continuous coordinate space
    Continuous,
    /// A physical wheel tilt
    WheelTilt,
}

impl AxisSource {
    /// The word that stands for this value on the wire.
    pub open spec fn wire_value(self) -> u32 {
        match self {
            AxisSource::Wheel => 0,
            AxisSource::Finger => 1,
            AxisSource::Continuous => 2,
            AxisSource::WheelTilt => 3,
        }
    }

    /// The value a word stands for, if any.
    pub open spec fn from_wire(v: u32) -> Result<Self, DecodeError> {
        match v {
            0 => Ok(AxisSource::Wheel),
            1 => Ok(AxisSource::Finger),
            2 => Ok(AxisSource::Continuous),
            3 => Ok(AxisSource::WheelTilt),
            _ => Err(DecodeError::MalformedPayload),
        }
    }

    /// The word that stands for this value on the wire.
    pub fn to_wire(self) -> (r: u32)
        ensures
            r == self.wire_value(),
    {
        match self {
            AxisSource::Wheel => 0,
            AxisSource::Finger => 1,
            AxisSource::Continuous => 2,
            AxisSource::WheelTilt => 3,
        }
    }

    /// A value read back from its word is that value, and a word that reads
    /// as a value is that value's word.
    pub proof fn lemma_wire_roundtrip(self, v: u32)
        ensures
            Self::from_wire(self.wire_value()) == Ok::<Self, DecodeError>(self),
            Self::from_wire(v) matches Ok(e) ==> e.wire_value() == v,
    {
    }

    /// The words the protocol gives the values of this enumeration.
    pub proof fn lemma_protocol_values()
        ensures
            AxisSource::Wheel.wire_value() == 0,
            AxisSource::Finger.wire_value() == 1,
            AxisSource::Continuous.wire_value() == 2,
            AxisSource::WheelTilt.wire_value() == 3,
            Self::from_wire(0) == Ok::<Self, DecodeError>(AxisSource::Wheel),
            Self::from_wire(1) == Ok::<Self, DecodeError>(AxisSource::Finger),
            Self::from_wire(2) == Ok::<Self, DecodeError>(AxisSource::Continuous),
            Self::from_wire(3) == Ok::<Self, DecodeError>(AxisSource::WheelTilt),
    {
    }
}

impl TryFrom<u32> for AxisSource {
    type Error = DecodeError;

    fn try_from(v: u32) -> (r: Result<Self, DecodeError>) {
        match v {
            0 => Ok(AxisSource::Wheel),
            1 => Ok(AxisSource::Finger),
            2 => Ok(AxisSource::Continuous),
            3 => Ok(AxisSource::WheelTilt),
            _ => Err(DecodeError::MalformedPayload),
        }
    }
}

impl vstd::std_specs::convert::TryFromSpecImpl<u32> for AxisSource {
    open spec fn obeys_try_from_spec() -> bool {
        true
    }

    open spec fn try_from_spec(v: u32) -> Result<Self, DecodeError> {
        Self::from_wire(v)
    }
}

/// This specifies the direction of the physical motion that caused a
/// wl_pointer.axis event, relative to the wl_pointer.axis direction.
#[derive(Debug, PartialEq, Eq, PartialOrd, Ord, Hash, Clone, Copy)]
pub enum AxisRelativeDirection {
    /// Physical motion matches axis direction
    Identical,
    /// Physical motion is the inverse of the axis direction
    Inverted,
}

impl AxisRelativeDirection {
    /// The word that stands for this value on the wire.
    pub open spec fn wire_value(self) -> u32 {
        match self {
            AxisRelativeDirection::Identical => 0,
            AxisRelativeDirection::Inverted => 1,
        }
    }

    /// The value a word stands for, if any.
    pub open spec fn from_wire(v: u32) -> Result<Self, DecodeError> {
        match v {
            0 => Ok(AxisRelativeDirection::Identical),
            1 => Ok(AxisRelativeDirection::Inverted),
            _ => Err(DecodeError::MalformedPayload),
        }
    }

    /// The word that stands for this value on the wire.
    pub fn to_wire(self) -> (r: u32)
        ensures
            r == self.wire_value(),
    {
        match self {
            AxisRelativeDirection::Identical => 0,
            AxisRelativeDirection::Inverted => 1,
        }
    }

    /// A value read back from its word is that value, and a word that reads
    /// as a value is that value's word.
    pub proof fn lemma_wire_roundtrip(self, v: u32)
        ensures
            Self::from_wire(self.wire_value()) == Ok::<Self, DecodeError>(self),
            Self::from_wire(v) matches Ok(e) ==> e.wire_value() == v,
    {
    }

    /// The words the protocol gives the values of this enumeration.
    pub proof fn lemma_protocol_values()
        ensures
            AxisRelativeDirection::Identical.wire_value() == 0,
            AxisRelativeDirection::Inverted.wire_value() == 1,
            Self::from_wire(0) == Ok::<Self, DecodeError>(AxisRelativeDirection::Identical),
            Self::from_wire(1) == Ok::<Self, DecodeError>(AxisRelativeDirection::Inverted),
    {
    }
}

impl TryFrom<u32> for AxisRelativeDirection {
    type Error = DecodeError;

    fn try_from(v: u32) -> (r: Result<Self, DecodeError>) {
        match v {
            0 => Ok(AxisRelativeDirection::Identical),
            1 => Ok(AxisRelativeDirection::Inverted),
            _ => Err(DecodeError::MalformedPayload),
        }
    }
}

impl vstd::std_specs::convert::TryFromSpecImpl<u32> for AxisRelativeDirection {
    open spec fn obeys_try_from_spec() -> bool {
        true
    }

    open spec fn try_from_spec(v: u32) -> Result<Self, DecodeError> {
        Self::from_wire(v)
    }
}

/// A request of `wl_pointer`, decoded from the wire.
#[derive(Debug)]
pub enum Request {
    /// Set the pointer surface, i.e., the surface that contains the
    /// pointer image (cursor). This request gives the surface the role
    /// of a cursor. If the surface already has another role, it raises
    /// a protocol error.
    SetCursor {
        serial: u32,
        surface: Option<u32>,
        hotspot_x: i32,
        hotspot_y: i32,
    },
    /// Using this request a client can tell the server that it is not going to
    /// use the pointer object anymore.
    Release,
}

/// The kinds of the arguments of the request with opcode `opcode`.
pub open spec fn request_signature(opcode: u16) -> Option<Seq<ArgKind>> {
    match opcode {
        0 => Some(seq![ArgKind::Uint, ArgKind::NullableObject, ArgKind::Int, ArgKind::Int]),
        1 => Some(Seq::<ArgKind>::empty()),
        _ => None,
    }
}

/// Whether decoded arguments hold, where the request takes an enumeration or
/// a bit set, a word that stands for one.
pub open spec fn request_args_valid(opcode: u16, vals: Seq<ArgValue>) -> bool {
    true
}

/// Whether `req` is the request with opcode `opcode` and arguments `vals`.
pub open spec fn request_fits(req: Request, opcode: u16, vals: Seq<ArgValue>) -> bool {
    match req {
        Request::SetCursor { serial, surface, hotspot_x, hotspot_y } => {
            &&& opcode == 0
            &&& vals == seq![
                ArgValue::Uint(serial),
                ArgValue::NullableObject(surface),
                ArgValue::Int(hotspot_x),
                ArgValue::Int(hotspot_y),
            ]
        },
        Request::Release => {
            &&& opcode == 1
            &&& vals == Seq::<ArgValue>::empty()
        },
    }
}

/// What decoding a request with opcode `opcode` from the payload and file
/// descriptors of `c` gives.
pub open spec fn request_outcome(opcode: u16, c: Cursor, r: Result<Request, RequestError>) -> bool {
    match request_signature(opcode) {
        None => r == Err::<Request, RequestError>(RequestError::UnknownOpcode(opcode)),
        Some(sig) => match spec_read_args(sig, c) {
            None => r == Err::<Request, RequestError>(RequestError::MalformedPayload),
            Some((vals, _)) => if request_args_valid(opcode, vals) {
                r matches Ok(req) && request_fits(req, opcode, vals)
            } else {
                r == Err::<Request, RequestError>(RequestError::MalformedPayload)
            },
        },
    }
}

/// A message that carries, for an object of `wl_pointer`, arguments `vals` of
/// the kinds the request with opcode `opcode` takes decodes to that request
/// with those arguments, where they fit the wire and name known values of
/// its enumerations; where they name unknown values, it is refused as
/// malformed.
pub proof fn lemma_request_roundtrip(
    m: Message,
    object: u32,
    opcode: u16,
    vals: Seq<ArgValue>,
    r: Result<Request, RequestError>,
)
    requires
        request_signature(opcode) == Some(kinds_of(vals)),
        carries(m, object, opcode, vals),
        all_fit_wire(vals),
        request_outcome(message_opcode(m), cursor_of(m), r),
    ensures
        request_args_valid(opcode, vals) ==> (r matches Ok(req) && request_fits(req, opcode, vals)),
        !request_args_valid(opcode, vals) ==> r == Err::<Request, RequestError>(
            RequestError::MalformedPayload,
        ),
{
}

fn signature(opcode: u16) -> (r: Option<Vec<ArgKind>>)
    ensures
        match request_signature(opcode) {
            None => r is None,
            Some(sig) => r matches Some(v) && v@ == sig,
        },
{
    match opcode {
        0 => Some(vec![ArgKind::Uint, ArgKind::NullableObject, ArgKind::Int, ArgKind::Int]),
        1 => Some(Vec::new()),
        _ => None,
    }
}

fn decode_set_cursor(args: Vec<Arg>) -> (r: Result<Request, RequestError>)
    requires
        kinds_of(views(args@)) == seq![
            ArgKind::Uint,
            ArgKind::NullableObject,
            ArgKind::Int,
            ArgKind::Int,
        ],
    ensures
        if request_args_valid(0, views(args@)) {
            r matches Ok(req) && request_fits(req, 0, views(args@))
        } else {
            r == Err::<Request, RequestError>(RequestError::MalformedPayload)
        },
{
    let ghost vals = views(args@);
    let mut args = args;
    proof {
        lemma_kinds_of(vals);
    }
    assert(vals.len() == 4);
    assert(views(args@) =~= vals.skip(0));
    assert(kind_of(vals[0]) == ArgKind::Uint);
    let serial = take_uint(&mut args);
    assert(views(args@) =~= vals.skip(1));
    assert(kind_of(vals[1]) == ArgKind::NullableObject);
    let surface = take_nullable_object(&mut args);
    assert(views(args@) =~= vals.skip(2));
    assert(kind_of(vals[2]) == ArgKind::Int);
    let hotspot_x = take_int(&mut args);
    assert(views(args@) =~= vals.skip(3));
    assert(kind_of(vals[3]) == ArgKind::Int);
    let hotspot_y = take_int(&mut args);
    assert(vals =~= seq![
        ArgValue::Uint(serial),
        ArgValue::NullableObject(surface),
        ArgValue::Int(hotspot_x),
        ArgValue::Int(hotspot_y),
    ]);
    Ok(Request::SetCursor { serial, surface, hotspot_x, hotspot_y })
}

fn decode_release(args: Vec<Arg>) -> (r: Result<Request, RequestError>)
    requires
        kinds_of(views(args@)) == Seq::<ArgKind>::empty(),
    ensures
        if request_args_valid(1, views(args@)) {
            r matches Ok(req) && request_fits(req, 1, views(args@))
        } else {
            r == Err::<Request, RequestError>(RequestError::MalformedPayload)
        },
{
    let ghost vals = views(args@);
    proof {
        lemma_kinds_of(vals);
    }
    assert(vals =~= Seq::<ArgValue>::empty());
    Ok(Request::Release)
}

fn into_request(opcode: u16, args: Vec<Arg>) -> (r: Result<Request, RequestError>)
    requires
        request_signature(opcode) == Some(kinds_of(views(args@))),
    ensures
        if request_args_valid(opcode, views(args@)) {
            r matches Ok(req) && request_fits(req, opcode, views(args@))
        } else {
            r == Err::<Request, RequestError>(RequestError::MalformedPayload)
        },
{
    match opcode {
        0 => decode_set_cursor(args),
        1 => decode_release(args),
        _ => {
            proof {
                assert(false);
            }
            Err(RequestError::UnknownOpcode(opcode))
        },
    }
}

/// Decodes the request a message carries for a `wl_pointer` object: its opcode
/// picks the request, and its payload and file descriptors give the
/// arguments, in order.
pub fn handle_request(message: &mut Message) -> (r: Result<Request, RequestError>)
    ensures
        same_header(*old(message), *final(message)),
        request_outcome(message_opcode(*old(message)), cursor_of(*old(message)), r),
{
    let opcode = opcode_of(message);
    match signature(opcode) {
        None => Err(RequestError::UnknownOpcode(opcode)),
        Some(sig) => match read_args(message, &sig) {
            None => Err(RequestError::MalformedPayload),
            Some(args) => into_request(opcode, args),
        },
    }
}

/// Notification that this seat's pointer is focused on a certain
/// surface.
///
/// When a seat's focus enters a surface, the pointer image
/// is undefined and a client should respond to this event by setting
/// an appropriate pointer image with the set_cursor request.
///
/// The message of this event, from the object `object`.
pub fn enter(
    object: u32,
    serial: u32,
    surface: u32,
    surface_x: Fixed,
    surface_y: Fixed,
) -> (m: Message)
    requires
        object != 0,
        surface != 0,
    ensures
        carries(
            m,
            object,
            0,
            seq![
                ArgValue::Uint(serial),
                ArgValue::Object(surface),
                ArgValue::Fixed(surface_x.raw),
                ArgValue::Fixed(surface_y.raw),
            ],
        ),
        pending_fds(m) == Seq::<i32>::empty(),
{
    let args = vec![
        Arg::Uint(serial),
        Arg::Object(surface),
        Arg::Fixed(surface_x.raw),
        Arg::Fixed(surface_y.raw),
    ];
    assert(views(args@) =~= seq![
        ArgValue::Uint(serial),
        ArgValue::Object(surface),
        ArgValue::Fixed(surface_x.raw),
        ArgValue::Fixed(surface_y.raw),
    ]);
    encode_message(object, 0, &args)
}

/// Notification that this seat's pointer is no longer focused on
/// a certain surface.
///
/// The leave notification is sent before the enter notification
/// for the new focus.
///
/// The message of this event, from the object `object`.
pub fn leave(object: u32, serial: u32, surface: u32) -> (m: Message)
    requires
        object != 0,
        surface != 0,
    ensures
        carries(m, object, 1, seq![ArgValue::Uint(serial), ArgValue::Object(surface)]),
        pending_fds(m) == Seq::<i32>::empty(),
{
    let args = vec![Arg::Uint(serial), Arg::Object(surface)];
    assert(views(args@) =~= seq![ArgValue::Uint(serial), ArgValue::Object(surface)]);
    encode_message(object, 1, &args)
}

/// Notification of pointer location change. The arguments
/// surface_x and surface_y are the location relative to the
/// focused surface.
///
/// The message of this event, from the object `object`.
pub fn motion(object: u32, time: u32, surface_x: Fixed, surface_y: Fixed) -> (m: Message)
    requires
        object != 0,
    ensures
        carries(
            m,
            object,
            2,
            seq![
                ArgValue::Uint(time),
                ArgValue::Fixed(surface_x.raw),
                ArgValue::Fixed(surface_y.raw),
            ],
        ),
        pending_fds(m) == Seq::<i32>::empty(),
{
    let args = vec![Arg::Uint(time), Arg::Fixed(surface_x.raw), Arg::Fixed(surface_y.raw)];
    assert(views(args@) =~= seq![
        ArgValue::Uint(time),
        ArgValue::Fixed(surface_x.raw),
        ArgValue::Fixed(surface_y.raw),
    ]);
    encode_message(object, 2, &args)
}

/// Mouse button click and release notifications.
///
/// The location of the click is given by the last motion or
/// enter event.
/// The time argument is a timestamp with millisecond
/// granularity, with an undefined base.
///
/// The button is a button code as defined in the Linux kernel's
/// linux/input-event-codes.h header file, e.g. BTN_LEFT.
///
/// Any 16-bit button code value is reserved for future additions to the
/// kernel's event code list. All other button codes above 0xFFFF are
/// currently undefined but may be used in future versions of this
/// protocol.
///
/// The message of this event, from the object `object`.
pub fn button(
    object: u32,
    serial: u32,
    time: u32,
    button_value: u32,
    state: ButtonState,
) -> (m: Message)
    requires
        object != 0,
    ensures
        carries(
            m,
            object,
            3,
            seq![
                ArgValue::Uint(serial),
                ArgValue::Uint(time),
                ArgValue::Uint(button_value),
                ArgValue::Uint(state.wire_value()),
            ],
        ),
        pending_fds(m) == Seq::<i32>::empty(),
{
    let args = vec![
        Arg::Uint(serial),
        Arg::Uint(time),
        Arg::Uint(button_value),
        Arg::Uint(state.to_wire()),
    ];
    assert(views(args@) =~= seq![
        ArgValue::Uint(serial),
        ArgValue::Uint(time),
        ArgValue::Uint(button_value),
        ArgValue::Uint(state.wire_value()),
    ]);
    encode_message(object, 3, &args)
}

/// Scroll and other axis notifications.
///
/// For scroll events (vertical and horizontal scroll axes), the
/// value parameter is the length of a vector along the specified
/// axis in a coordinate space identical to those of motion events,
/// representing a relative movement along the specified axis.
///
/// For devices that support movements non-parallel to axes multiple
/// axis events will be emitted.
///
/// When applicable, for example for touch pads, the server can
/// choose to emit scroll events where the motion vector is
/// equivalent to a motion event vector.
///
/// When applicable, a client can transform its content relative to the
/// scroll distance.
///
/// The message of this event, from the object `object`.
pub fn axis(object: u32, time: u32, axis_value: Axis, value: Fixed) -> (m: Message)
    requires
        object != 0,
    ensures
        carries(
            m,
            object,
            4,
            seq![
                ArgValue::Uint(time),
                ArgValue::Uint(axis_value.wire_value()),
                ArgValue::Fixed(value.raw),
            ],
        ),
        pending_fds(m) == Seq::<i32>::empty(),
{
    let args = vec![Arg::Uint(time), Arg::Uint(axis_value.to_wire()), Arg::Fixed(value.raw)];
    assert(views(args@) =~= seq![
        ArgValue::Uint(time),
        ArgValue::Uint(axis_value.wire_value()),
        ArgValue::Fixed(value.raw),
    ]);
    encode_message(object, 4, &args)
}

/// Indicates the end of a set of events that logically belong together.
/// A client is expected to accumulate the data in all events within the
/// frame before proceeding.
///
/// All wl_pointer events before a wl_pointer.frame event belong
/// logically together. For example, in a diagonal scroll motion the
/// compositor will send an optional wl_pointer.axis_source event, two
/// wl_pointer.axis events (horizontal and vertical) and finally a
/// wl_pointer.frame event. The client may use this information to
/// calculate a diagonal vector for scrolling.
///
/// When multiple wl_pointer.axis events occur within the same frame,
/// the motion vector is the combined motion of all events.
/// When a wl_pointer.axis and a wl_pointer.axis_stop event occur within
/// the same frame, this indicates that axis movement in one axis has
/// stopped but continues in the other axis.
/// When multiple wl_pointer.axis_stop events occur within the same
/// frame, this indicates that these axes stopped in the same instance.
///
/// A wl_pointer.frame event is sent for every logical event group,
/// even if the group only contains a single wl_pointer event.
/// Specifically, a client may get a sequence: motion, frame, button,
/// frame, axis, frame, axis_stop, frame.
///
/// The wl_pointer.enter and wl_pointer.leave events are logical events
/// generated by the compositor and not the hardware. These events are
/// also grouped by a wl_pointer.frame. When a pointer moves from one
/// surface to another, a compositor should group the
/// wl_pointer.leave event within the same wl_pointer.frame.
/// However, a client must not rely on wl_pointer.leave and
/// wl_pointer.enter being in the same wl_pointer.frame.
/// Compositor-specific policies may require the wl_pointer.leave and
/// wl_pointer.enter event being split across multiple wl_pointer.frame
/// groups.
///
/// The message of this event, from the object `object`.
pub fn frame(object: u32) -> (m: Message)
    requires
        object != 0,
    ensures
        carries(m, object, 5, Seq::<ArgValue>::empty()),
        pending_fds(m) == Seq::<i32>::empty(),
{
    let args: Vec<Arg> = Vec::new();
    assert(views(args@) =~= Seq::<ArgValue>::empty());
    encode_message(object, 5, &args)
}

/// Source information for scroll and other axes.
///
/// This event does not occur on its own. It is sent before a
/// wl_pointer.frame event and carries the source information for
/// all events within that frame.
///
/// The source specifies how this event was generated. If the source is
/// wl_pointer.axis_source.finger, a wl_pointer.axis_stop event will be
/// sent when the user lifts the finger off the device.
///
/// If the source is wl_pointer.axis_source.wheel,
/// wl_pointer.axis_source.wheel_tilt or
/// wl_pointer.axis_source.continuous, a wl_pointer.axis_stop event may
/// or may not be sent. Whether a compositor sends an axis_stop event
/// for these sources is hardware-specific and implementation-dependent;
/// clients must not rely on receiving an axis_stop event for these
/// scroll sources and should treat scroll sequences from these scroll
/// sources as unterminated by default.
///
/// This event is optional. If the source is unknown for a particular
/// axis event sequence, no event is sent.
/// Only one wl_pointer.axis_source event is permitted per frame.
///
/// The order of wl_pointer.axis_discrete and wl_pointer.axis_source is
/// not guaranteed.
///
/// The message of this event, from the object `object`.
pub fn axis_source(object: u32, axis_source_value: AxisSource) -> (m: Message)
    requires
        object != 0,
    ensures
        carries(m, object, 6, seq![ArgValue::Uint(axis_source_value.wire_value())]),
        pending_fds(m) == Seq::<i32>::empty(),
{
    let args = vec![Arg::Uint(axis_source_value.to_wire())];
    assert(views(args@) =~= seq![ArgValue::Uint(axis_source_value.wire_value())]);
    encode_message(object, 6, &args)
}

/// Stop notification for scroll and other axes.
///
/// For some wl_pointer.axis_source types, a wl_pointer.axis_stop event
/// is sent to notify a client that the axis sequence has terminated.
/// This enables the client to implement kinetic scrolling.
/// See the wl_pointer.axis_source documentation for information on when
/// this event may be generated.
///
/// Any wl_pointer.axis events with the same axis_source after this
/// event should be considered as the start of a new axis motion.
///
/// The timestamp is to be interpreted identical to the timestamp in the
/// wl_pointer.axis event. The timestamp value may be the same as a
/// preceding wl_pointer.axis event.
///
/// The message of this event, from the object `object`.
pub fn axis_stop(object: u32, time: u32, axis: Axis) -> (m: Message)
    requires
        object != 0,
    ensures
        carries(m, object, 7, seq![ArgValue::Uint(time), ArgValue::Uint(axis.wire_value())]),
        pending_fds(m) == Seq::<i32>::empty(),
{
    let args = vec![Arg::Uint(time), Arg::Uint(axis.to_wire())];
    assert(views(args@) =~= seq![ArgValue::Uint(time), ArgValue::Uint(axis.wire_value())]);
    encode_message(object, 7, &args)
}

/// Discrete step information for scroll and other axes.
///
/// This event carries the axis value of the wl_pointer.axis event in
/// discrete steps (e.g. mouse wheel clicks).
///
/// This event is deprecated with wl_pointer version 8 - this event is not
/// sent to clients supporting version 8 or later.
///
/// This event does not occur on its own, it is coupled with a
/// wl_pointer.axis event that represents this axis value on a
/// continuous scale. The protocol guarantees that each axis_discrete
/// event is always followed by exactly one axis event with the same
/// axis number within the same wl_pointer.frame. Note that the protocol
/// allows for other events to occur between the axis_discrete and
/// its coupled axis event, including other axis_discrete or axis
/// events. A wl_pointer.frame must not contain more than one axis_discrete
/// event per axis type.
///
/// This event is optional; continuous scrolling devices
/// like two-finger scrolling on touchpads do not have discrete
/// steps and do not generate this event.
///
/// The discrete value carries the directional information. e.g. a value
/// of -2 is two steps towards the negative direction of this axis.
///
/// The axis number is identical to the axis number in the associated
/// axis event.
///
/// The order of wl_pointer.axis_discrete and wl_pointer.axis_source is
/// not guaranteed.
///
/// The message of this event, from the object `object`.
pub fn axis_discrete(object: u32, axis: Axis, discrete: i32) -> (m: Message)
    requires
        object != 0,
    ensures
        carries(m, object, 8, seq![ArgValue::Uint(axis.wire_value()), ArgValue::Int(discrete)]),
        pending_fds(m) == Seq::<i32>::empty(),
{
    let args = vec![Arg::Uint(axis.to_wire()), Arg::Int(discrete)];
    assert(views(args@) =~= seq![ArgValue::Uint(axis.wire_value()), ArgValue::Int(discrete)]);
    encode_message(object, 8, &args)
}

/// Discrete high-resolution scroll information.
///
/// This event carries high-resolution wheel scroll information,
/// with each multiple of 120 representing one logical scroll step
/// (a wheel detent). For example, an axis_value120 of 30 is one quarter of
/// a logical scroll step in the positive direction, a value120 of
/// -240 are two logical scroll steps in the negative direction within the
/// same hardware event.
/// Clients that rely on discrete scrolling should accumulate the
/// value120 to multiples of 120 before processing the event.
///
/// The value120 must not be zero.
///
/// This event replaces the wl_pointer.axis_discrete event in clients
/// supporting wl_pointer version 8 or later.
///
/// Where a wl_pointer.axis_source event occurs in the same
/// wl_pointer.frame, the axis source applies to this event.
///
/// The order of wl_pointer.axis_value120 and wl_pointer.axis_source is
/// not guaranteed.
///
/// The message of this event, from the object `object`.
pub fn axis_value120(object: u32, axis: Axis, value120: i32) -> (m: Message)
    requires
        object != 0,
    ensures
        carries(m, object, 9, seq![ArgValue::Uint(axis.wire_value()), ArgValue::Int(value120)]),
        pending_fds(m) == Seq::<i32>::empty(),
{
    let args = vec![Arg::Uint(axis.to_wire()), Arg::Int(value120)];
    assert(views(args@) =~= seq![ArgValue::Uint(axis.wire_value()), ArgValue::Int(value120)]);
    encode_message(object, 9, &args)
}

/// Relative directional information of the entity causing the axis
/// motion.
///
/// For a wl_pointer.axis event, the wl_pointer.axis_relative_direction
/// event specifies the movement direction of the entity causing the
/// wl_pointer.axis event. For example:
/// - if a user's fingers on a touchpad move down and this
/// causes a wl_pointer.axis vertical_scroll down event, the physical
/// direction is 'identical'
/// - if a user's fingers on a touchpad move down and this causes a
/// wl_pointer.axis vertical_scroll up scroll up event ('natural
/// scrolling'), the physical direction is 'inverted'.
///
/// A client may use this information to adjust scroll motion of
/// components. Specifically, enabling natural scrolling causes the
/// content to change direction compared to traditional scrolling.
/// Some widgets like volume control sliders should usually match the
/// physical direction regardless of whether natural scrolling is
/// active. This event enables clients to match the scroll direction of
/// a widget to the physical direction.
///
/// This event does not occur on its own, it is coupled with a
/// wl_pointer.axis event that represents this axis value.
/// The protocol guarantees that each axis_relative_direction event is
/// always followed by exactly one axis event with the same
/// axis number within the same wl_pointer.frame. Note that the protocol
/// allows for other events to occur between the axis_relative_direction
/// and its coupled axis event.
///
/// The axis number is identical to the axis number in the associated
/// axis event.
///
/// The order of wl_pointer.axis_relative_direction,
/// wl_pointer.axis_discrete and wl_pointer.axis_source is not
/// guaranteed.
///
/// The message of this event, from the object `object`.
pub fn axis_relative_direction(
    object: u32,
    axis: Axis,
    direction: AxisRelativeDirection,
) -> (m: Message)
    requires
        object != 0,
    ensures
        carries(
            m,
            object,
            10,
            seq![ArgValue::Uint(axis.wire_value()), ArgValue::Uint(direction.wire_value())],
        ),
        pending_fds(m) == Seq::<i32>::empty(),
{
    let args = vec![Arg::Uint(axis.to_wire()), Arg::Uint(direction.to_wire())];
    assert(views(args@) =~= seq![
        ArgValue::Uint(axis.wire_value()),
        ArgValue::Uint(direction.wire_value()),
    ]);
    encode_message(object, 10, &args)
}

/// The requests of `wl_pointer` as the protocol defines them: the opcode of
/// each, the kinds of its arguments in order, and the field each argument
/// fills; no other opcode names a request.
pub proof fn lemma_protocol_requests()
    ensures
        request_signature(0) == Some(seq![
            ArgKind::Uint,
            ArgKind::NullableObject,
            ArgKind::Int,
            ArgKind::Int,
        ]),
        request_signature(1) == Some(Seq::<ArgKind>::empty()),
        forall|opcode: u16| opcode >= 2 ==> #[trigger] request_signature(opcode) is None,
        forall|req: Request, vals: Seq<ArgValue>| #[trigger] request_fits(req, 0, vals) <==> (req matches Request::SetCursor {
            serial,
            surface,
            hotspot_x,
            hotspot_y,
        } && vals == seq![
            ArgValue::Uint(serial),
            ArgValue::NullableObject(surface),
            ArgValue::Int(hotspot_x),
            ArgValue::Int(hotspot_y),
        ]),
        forall|req: Request, vals: Seq<ArgValue>| #[trigger] request_fits(req, 1, vals) <==> (req is Release && vals == Seq::<ArgValue>::empty()),
{
}

} // verus!
