//! An output describes part of the compositor geometry.  The
//! compositor works in the 'compositor coordinate system' and an
//! output corresponds to a rectangular area in that space that is
//! actually visible.  This typically corresponds to a monitor that
//! displays part of the compositor space.  This object is published
//! as global during start up, or when a monitor is hotplugged.
//!
//! The `wl_output` interface, version 4: decoding of its
//! requests and encoding of its events.
use crate::codec::{
    Arg, ArgKind, ArgValue, all_fit_wire, carries, encode_message, kinds_of, lemma_kinds_of,
    read_args, spec_read_args, views,
};
use crate::error::DecodeError;
use crate::error::Error as RequestError;
use crate::wire::{Cursor, cursor_of, message_opcode, opcode_of, pending_fds, same_header};
use vstd::prelude::*;
use waynest::wire::Message;

verus! {

/// The name of the interface.
pub const INTERFACE: &'static str = "wl_output";

/// The version of the interface that is implemented.
pub const VERSION: u32 = 4;

/// This enumeration describes how the physical
/// pixels on an output are laid out.
#[derive(Debug, PartialEq, Eq, PartialOrd, Ord, Hash, Clone, Copy)]
pub enum Subpixel {
    /// Unknown geometry
    Unknown,
    /// No geometry
    NoGeometry,
    /// Horizontal RGB
    HorizontalRgb,
    /// Horizontal BGR
    HorizontalBgr,
    /// Vertical RGB
    VerticalRgb,
    /// Vertical BGR
    VerticalBgr,
}

impl Subpixel {
    /// The word that stands for this value on the wire.
    pub open spec fn wire_value(self) -> u32 {
        match self {
            Subpixel::Unknown => 0,
            Subpixel::NoGeometry => 1,
            Subpixel::HorizontalRgb => 2,
            Subpixel::HorizontalBgr => 3,
            Subpixel::VerticalRgb => 4,
            Subpixel::VerticalBgr => 5,
        }
    }

    /// The value a word stands for, if any.
    pub open spec fn from_wire(v: u32) -> Result<Self, DecodeError> {
        match v {
            0 => Ok(Subpixel::Unknown),
            1 => Ok(Subpixel::NoGeometry),
            2 => Ok(Subpixel::HorizontalRgb),
            3 => Ok(Subpixel::HorizontalBgr),
            4 => Ok(Subpixel::VerticalRgb),
            5 => Ok(Subpixel::VerticalBgr),
            _ => Err(DecodeError::MalformedPayload),
        }
    }

    /// The word that stands for this value on the wire.
    pub fn to_wire(self) -> (r: u32)
        ensures
            r == self.wire_value(),
    {
        match self {
            Subpixel::Unknown => 0,
            Subpixel::NoGeometry => 1,
            Subpixel::HorizontalRgb => 2,
            Subpixel::HorizontalBgr => 3,
            Subpixel::VerticalRgb => 4,
            Subpixel::VerticalBgr => 5,
        }
    }

    /// A value read back from its word is that value, and a word that reads
    /// as a value is that value's word.
    pub proof fn lemma_wire_roundtrip(self, v: u32)
        ensures
            Self::from_wire(self.wire_value()) == Ok::<Self, DecodeError>(self),
            Self::from_wire(v) matches Ok(e) ==> e.wire_value() == v,
    {
    }

    /// The words the protocol gives the values of this enumeration.
    pub proof fn lemma_protocol_values()
        ensures
            Subpixel::Unknown.wire_value() == 0,
            Subpixel::NoGeometry.wire_value() == 1,
            Subpixel::HorizontalRgb.wire_value() == 2,
            Subpixel::HorizontalBgr.wire_value() == 3,
            Subpixel::VerticalRgb.wire_value() == 4,
            Subpixel::VerticalBgr.wire_value() == 5,
            Self::from_wire(0) == Ok::<Self, DecodeError>(Subpixel::Unknown),
            Self::from_wire(1) == Ok::<Self, DecodeError>(Subpixel::NoGeometry),
            Self::from_wire(2) == Ok::<Self, DecodeError>(Subpixel::HorizontalRgb),
            Self::from_wire(3) == Ok::<Self, DecodeError>(Subpixel::HorizontalBgr),
            Self::from_wire(4) == Ok::<Self, DecodeError>(Subpixel::VerticalRgb),
            Self::from_wire(5) == Ok::<Self, DecodeError>(Subpixel::VerticalBgr),
    {
    }
}

impl TryFrom<u32> for Subpixel {
    type Error = DecodeError;

    fn try_from(v: u32) -> (r: Result<Self, DecodeError>) {
        match v {
            0 => Ok(Subpixel::Unknown),
            1 => Ok(Subpixel::NoGeometry),
            2 => Ok(Subpixel::HorizontalRgb),
            3 => Ok(Subpixel::HorizontalBgr),
            4 => Ok(Subpixel::VerticalRgb),
            5 => Ok(Subpixel::VerticalBgr),
            _ => Err(DecodeError::MalformedPayload),
        }
    }
}

impl vstd::std_specs::convert::TryFromSpecImpl<u32> for Subpixel {
    open spec fn obeys_try_from_spec() -> bool {
        true
    }

    open spec fn try_from_spec(v: u32) -> Result<Self, DecodeError> {
        Self::from_wire(v)
    }
}

/// This describes transformations that clients and compositors apply to
/// buffer contents.
///
/// The flipped values correspond to an initial flip around a
/// vertical axis followed by rotation.
///
/// The purpose is mainly to allow clients to render accordingly and
/// tell the compositor, so that for fullscreen surfaces, the
/// compositor will still be able to scan out directly from client
/// surfaces.
#[derive(Debug, PartialEq, Eq, PartialOrd, Ord, Hash, Clone, Copy)]
pub enum Transform {
    /// No transform
    Normal,
    /// 90 degrees counter-clockwise
    _90,
    /// 180 degrees counter-clockwise
    _180,
    /// 270 degrees counter-clockwise
    _270,
    /// 180 degree flip around a vertical axis
    Flipped,
    /// Flip and rotate 90 degrees counter-clockwise
    Flipped90,
    /// Flip and rotate 180 degrees counter-clockwise
    Flipped180,
    /// Flip and rotate 270 degrees counter-clockwise
    Flipped270,
}

impl Transform {
    /// The word that stands for this value on the wire.
    pub open spec fn wire_value(self) -> u32 {
        match self {
            Transform::Normal => 0,
            Transform::_90 => 1,
            Transform::_180 => 2,
            Transform::_270 => 3,
            Transform::Flipped => 4,
            Transform::Flipped90 => 5,
            Transform::Flipped180 => 6,
            Transform::Flipped270 => 7,
        }
    }

    /// The value a word stands for, if any.
    pub open spec fn from_wire(v: u32) -> Result<Self, DecodeError> {
        match v {
            0 => Ok(Transform::Normal),
            1 => Ok(Transform::_90),
            2 => Ok(Transform::_180),
            3 => Ok(Transform::_270),
            4 => Ok(Transform::Flipped),
            5 => Ok(Transform::Flipped90),
            6 => Ok(Transform::Flipped180),
            7 => Ok(Transform::Flipped270),
            _ => Err(DecodeError::MalformedPayload),
        }
    }

    /// The word that stands for this value on the wire.
    pub fn to_wire(self) -> (r: u32)
        ensures
            r == self.wire_value(),
    {
        match self {
            Transform::Normal => 0,
            Transform::_90 => 1,
            Transform::_180 => 2,
            Transform::_270 => 3,
            Transform::Flipped => 4,
            Transform::Flipped90 => 5,
            Transform::Flipped180 => 6,
            Transform::Flipped270 => 7,
        }
    }

    /// A value read back from its word is that value, and a word that reads
    /// as a value is that value's word.
    pub proof fn lemma_wire_roundtrip(self, v: u32)
        ensures
            Self::from_wire(self.wire_value()) == Ok::<Self, DecodeError>(self),
            Self::from_wire(v) matches Ok(e) ==> e.wire_value() == v,
    {
    }

    /// The words the protocol gives the values of this enumeration.
    pub proof fn lemma_protocol_values()
        ensures
            Transform::Normal.wire_value() == 0,
            Transform::_90.wire_value() == 1,
            Transform::_180.wire_value() == 2,
            Transform::_270.wire_value() == 3,
            Transform::Flipped.wire_value() == 4,
            Transform::Flipped90.wire_value() == 5,
            Transform::Flipped180.wire_value() == 6,
            Transform::Flipped270.wire_value() == 7,
            Self::from_wire(0) == Ok::<Self, DecodeError>(Transform::Normal),
            Self::from_wire(1) == Ok::<Self, DecodeError>(Transform::_90),
            Self::from_wire(2) == Ok::<Self, DecodeError>(Transform::_180),
            Self::from_wire(3) == Ok::<Self, DecodeError>(Transform::_270),
            Self::from_wire(4) == Ok::<Self, DecodeError>(Transform::Flipped),
            Self::from_wire(5) == Ok::<Self, DecodeError>(Transform::Flipped90),
            Self::from_wire(6) == Ok::<Self, DecodeError>(Transform::Flipped180),
            Self::from_wire(7) == Ok::<Self, DecodeError>(Transform::Flipped270),
    {
    }
}

impl TryFrom<u32> for Transform {
    type Error = DecodeError;

    fn try_from(v: u32) -> (r: Result<Self, DecodeError>) {
        match v {
            0 => Ok(Transform::Normal),
            1 => Ok(Transform::_90),
            2 => Ok(Transform::_180),
            3 => Ok(Transform::_270),
            4 => Ok(Transform::Flipped),
            5 => Ok(Transform::Flipped90),
            6 => Ok(Transform::Flipped180),
            7 => Ok(Transform::Flipped270),
            _ => Err(DecodeError::MalformedPayload),
        }
    }
}

impl vstd::std_specs::convert::TryFromSpecImpl<u32> for Transform {
    open spec fn obeys_try_from_spec() -> bool {
        true
    }

    open spec fn try_from_spec(v: u32) -> Result<Self, DecodeError> {
        Self::from_wire(v)
    }
}

/// These flags describe properties of an output mode.
/// They are used in the flags bitfield of the mode event.
///
/// Known bits: Current = 1, Preferred = 2.
#[derive(Debug, PartialEq, Eq, PartialOrd, Ord, Hash, Clone, Copy)]
pub struct Mode {
    pub bits: u32,
}

impl Mode {
    /// The union of all known bits.
    pub open spec fn all_bits() -> u32 {
        0x3
    }

    /// The set a word stands for, if it holds only known bits.
    pub open spec fn from_wire(v: u32) -> Result<Self, DecodeError> {
        if v & !Self::all_bits() == 0 {
            Ok(Mode { bits: v })
        } else {
            Err(DecodeError::MalformedPayload)
        }
    }

    /// The set a word stands for, if it holds only known bits.
    pub fn from_bits(v: u32) -> (r: Option<Self>)
        ensures
            r == match Self::from_wire(v) {
                Ok(f) => Some(f),
                Err(_) => None::<Self>,
            },
    {
        if v & !0x3u32 == 0 {
            Some(Mode { bits: v })
        } else {
            None
        }
    }

    /// The word of the set.
    pub fn bits(&self) -> (r: u32)
        ensures
            r == self.bits,
    {
        self.bits
    }

    /// A set of known bits reads back from its word, and a word that reads as
    /// a set is that set's word.
    pub proof fn lemma_wire_roundtrip(self, v: u32)
        ensures
            self.bits & !Self::all_bits() == 0 ==> Self::from_wire(self.bits) == Ok::<
                Self,
                DecodeError,
            >(self),
            Self::from_wire(v) matches Ok(e) ==> e.bits == v,
    {
    }

    /// The bits the protocol defines for this set: Current = 1, Preferred = 2.
    /// A word is a set exactly when it holds no other bit.
    pub proof fn lemma_protocol_values(v: u32)
        ensures
            Self::all_bits() == 0x3,
            Self::from_wire(v) is Ok <==> v & !0x3u32 == 0,
            Self::from_wire(v) matches Ok(f) ==> f.bits == v,
    {
    }
}

impl TryFrom<u32> for Mode {
    type Error = DecodeError;

    fn try_from(v: u32) -> (r: Result<Self, DecodeError>) {
        match Self::from_bits(v) {
            Some(f) => Ok(f),
            None => Err(DecodeError::MalformedPayload),
        }
    }
}

impl vstd::std_specs::convert::TryFromSpecImpl<u32> for Mode {
    open spec fn obeys_try_from_spec() -> bool {
        true
    }

    open spec fn try_from_spec(v: u32) -> Result<Self, DecodeError> {
        Self::from_wire(v)
    }
}

/// A request of `wl_output`, decoded from the wire.
#[derive(Debug)]
pub enum Request {
    /// Using this request a client can tell the server that it is not going to
    /// use the output object anymore.
    Release,
}

/// The kinds of the arguments of the request with opcode `opcode`.
pub open spec fn request_signature(opcode: u16) -> Option<Seq<ArgKind>> {
    match opcode {
        0 => Some(Seq::<ArgKind>::empty()),
        _ => None,
    }
}

/// Whether decoded arguments hold, where the request takes an enumeration or
/// a bit set, a word that stands for one.
pub open spec fn request_args_valid(opcode: u16, vals: Seq<ArgValue>) -> bool {
    true
}

/// Whether `req` is the request with opcode `opcode` and arguments `vals`.
pub open spec fn request_fits(req: Request, opcode: u16, vals: Seq<ArgValue>) -> bool {
    match req {
        Request::Release => {
            &&& opcode == 0
            &&& vals == Seq::<ArgValue>::empty()
        },
    }
}

/// What decoding a request with opcode `opcode` from the payload and file
/// descriptors of `c` gives.
pub open spec fn request_outcome(opcode: u16, c: Cursor, r: Result<Request, RequestError>) -> bool {
    match request_signature(opcode) {
        None => r == Err::<Request, RequestError>(RequestError::UnknownOpcode(opcode)),
        Some(sig) => match spec_read_args(sig, c) {
            None => r == Err::<Request, RequestError>(RequestError::MalformedPayload),
            Some((vals, _)) => if request_args_valid(opcode, vals) {
                r matches Ok(req) && request_fits(req, opcode, vals)
            } else {
                r == Err::<Request, RequestError>(RequestError::MalformedPayload)
            },
        },
    }
}

/// A message that carries, for an object of `wl_output`, arguments `vals` of
/// the kinds the request with opcode `opcode` takes decodes to that request
/// with those arguments, where they fit the wire and name known values of
/// its enumerations; where they name unknown values, it is refused as
/// malformed.
pub proof fn lemma_request_roundtrip(
    m: Message,
    object: u32,
    opcode: u16,
    vals: Seq<ArgValue>,
    r: Result<Request, RequestError>,
)
    requires
        request_signature(opcode) == Some(kinds_of(vals)),
        carries(m, object, opcode, vals),
        all_fit_wire(vals),
        request_outcome(message_opcode(m), cursor_of(m), r),
    ensures
        request_args_valid(opcode, vals) ==> (r matches Ok(req) && request_fits(req, opcode, vals)),
        !request_args_valid(opcode, vals) ==> r == Err::<Request, RequestError>(
            RequestError::MalformedPayload,
        ),
{
}

fn signature(opcode: u16) -> (r: Option<Vec<ArgKind>>)
    ensures
        match request_signature(opcode) {
            None => r is None,
            Some(sig) => r matches Some(v) && v@ == sig,
        },
{
    match opcode {
        0 => Some(Vec::new()),
        _ => None,
    }
}

fn decode_release(args: Vec<Arg>) -> (r: Result<Request, RequestError>)
    requires
        kinds_of(views(args@)) == Seq::<ArgKind>::empty(),
    ensures
        if request_args_valid(0, views(args@)) {
            r matches Ok(req) && request_fits(req, 0, views(args@))
        } else {
            r == Err::<Request, RequestError>(RequestError::MalformedPayload)
        },
{
    let ghost vals = views(args@);
    proof {
        lemma_kinds_of(vals);
    }
    assert(vals =~= Seq::<ArgValue>::empty());
    Ok(Request::Release)
}

fn into_request(opcode: u16, args: Vec<Arg>) -> (r: Result<Request, RequestError>)
    requires
        request_signature(opcode) == Some(kinds_of(views(args@))),
    ensures
        if request_args_valid(opcode, views(args@)) {
            r matches Ok(req) && request_fits(req, opcode, views(args@))
        } else {
            r == Err::<Request, RequestError>(RequestError::MalformedPayload)
        },
{
    match opcode {
        0 => decode_release(args),
        _ => {
            proof {
                assert(false);
            }
            Err(RequestError::UnknownOpcode(opcode))
        },
    }
}

/// Decodes the request a message carries for a `wl_output` object: its opcode
/// picks the request, and its payload and file descriptors give the
/// arguments, in order.
pub fn handle_request(message: &mut Message) -> (r: Result<Request, RequestError>)
    ensures
        same_header(*old(message), *final(message)),
        request_outcome(message_opcode(*old(message)), cursor_of(*old(message)), r),
{
    let opcode = opcode_of(message);
    match signature(opcode) {
        None => Err(RequestError::UnknownOpcode(opcode)),
        Some(sig) => match read_args(message, &sig) {
            None => Err(RequestError::MalformedPayload),
            Some(args) => into_request(opcode, args),
        },
    }
}

/// The geometry event describes geometric properties of the output.
/// The event is sent when binding to the output object and whenever
/// any of the properties change.
///
/// The physical size can be set to zero if it doesn't make sense for this
/// output (e.g. for projectors or virtual outputs).
///
/// The geometry event will be followed by a done event (starting from
/// version 2).
///
/// Clients should use wl_surface.preferred_buffer_transform instead of the
/// transform advertised by this event to find the preferred buffer
/// transform to use for a surface.
///
/// Note: wl_output only advertises partial information about the output
/// position and identification. Some compositors, for instance those not
/// implementing a desktop-style output layout or those exposing virtual
/// outputs, might fake this information. Instead of using x and y, clients
/// should use xdg_output.logical_position. Instead of using make and model,
/// clients should use name and description.
///
/// The message of this event, from the object `object`.
pub fn geometry(
    object: u32,
    x: i32,
    y: i32,
    physical_width: i32,
    physical_height: i32,
    subpixel: Subpixel,
    make: String,
    model: String,
    transform: Transform,
) -> (m: Message)
    requires
        object != 0,
    ensures
        carries(
            m,
            object,
            0,
            seq![
                ArgValue::Int(x),
                ArgValue::Int(y),
                ArgValue::Int(physical_width),
                ArgValue::Int(physical_height),
                ArgValue::Uint(subpixel.wire_value()),
                ArgValue::Str(make@),
                ArgValue::Str(model@),
                ArgValue::Uint(transform.wire_value()),
            ],
        ),
        pending_fds(m) == Seq::<i32>::empty(),
{
    let args = vec![
        Arg::Int(x),
        Arg::Int(y),
        Arg::Int(physical_width),
        Arg::Int(physical_height),
        Arg::Uint(subpixel.to_wire()),
        Arg::Str(make),
        Arg::Str(model),
        Arg::Uint(transform.to_wire()),
    ];
    assert(views(args@) =~= seq![
        ArgValue::Int(x),
        ArgValue::Int(y),
        ArgValue::Int(physical_width),
        ArgValue::Int(physical_height),
        ArgValue::Uint(subpixel.wire_value()),
        ArgValue::Str(make@),
        ArgValue::Str(model@),
        ArgValue::Uint(transform.wire_value()),
    ]);
    encode_message(object, 0, &args)
}

/// The mode event describes an available mode for the output.
///
/// The event is sent when binding to the output object and there
/// will always be one mode, the current mode.  The event is sent
/// again if an output changes mode, for the mode that is now
/// current.  In other words, the current mode is always the last
/// mode that was received with the current flag set.
///
/// Non-current modes are deprecated. A compositor can decide to only
/// advertise the current mode and never send other modes. Clients
/// should not rely on non-current modes.
///
/// The size of a mode is given in physical hardware units of
/// the output device. This is not necessarily the same as
/// the output size in the global compositor space. For instance,
/// the output may be scaled, as described in wl_output.scale,
/// or transformed, as described in wl_output.transform. Clients
/// willing to retrieve the output size in the global compositor
/// space should use xdg_output.logical_size instead.
///
/// The vertical refresh rate can be set to zero if it doesn't make
/// sense for this output (e.g. for virtual outputs).
///
/// The mode event will be followed by a done event (starting from
/// version 2).
///
/// Clients should not use the refresh rate to schedule frames. Instead,
/// they should use the wl_surface.frame event or the presentation-time
/// protocol.
///
/// Note: this information is not always meaningful for all outputs. Some
/// compositors, such as those exposing virtual outputs, might fake the
/// refresh rate or the size.
///
/// The message of this event, from the object `object`.
pub fn mode(object: u32, flags: Mode, width: i32, height: i32, refresh: i32) -> (m: Message)
    requires
        object != 0,
    ensures
        carries(
            m,
            object,
            1,
            seq![
                ArgValue::Uint(flags.bits),
                ArgValue::Int(width),
                ArgValue::Int(height),
                ArgValue::Int(refresh),
            ],
        ),
        pending_fds(m) == Seq::<i32>::empty(),
{
    let args = vec![Arg::Uint(flags.bits()), Arg::Int(width), Arg::Int(height), Arg::Int(refresh)];
    assert(views(args@) =~= seq![
        ArgValue::Uint(flags.bits),
        ArgValue::Int(width),
        ArgValue::Int(height),
        ArgValue::Int(refresh),
    ]);
    encode_message(object, 1, &args)
}

/// This event is sent after all other properties have been
/// sent after binding to the output object and after any
/// other property changes done after that. This allows
/// changes to the output properties to be seen as
/// atomic, even if they happen via multiple events.
///
/// The message of this event, from the object `object`.
pub fn done(object: u32) -> (m: Message)
    requires
        object != 0,
    ensures
        carries(m, object, 2, Seq::<ArgValue>::empty()),
        pending_fds(m) == Seq::<i32>::empty(),
{
    let args: Vec<Arg> = Vec::new();
    assert(views(args@) =~= Seq::<ArgValue>::empty());
    encode_message(object, 2, &args)
}

/// This event contains scaling geometry information
/// that is not in the geometry event. It may be sent after
/// binding the output object or if the output scale changes
/// later. The compositor will emit a non-zero, positive
/// value for scale. If it is not sent, the client should
/// assume a scale of 1.
///
/// A scale larger than 1 means that the compositor will
/// automatically scale surface buffers by this amount
/// when rendering. This is used for very high resolution
/// displays where applications rendering at the native
/// resolution would be too small to be legible.
///
/// Clients should use wl_surface.preferred_buffer_scale
/// instead of this event to find the preferred buffer
/// scale to use for a surface.
///
/// The scale event will be followed by a done event.
///
/// The message of this event, from the object `object`.
pub fn scale(object: u32, factor: i32) -> (m: Message)
    requires
        object != 0,
    ensures
        carries(m, object, 3, seq![ArgValue::Int(factor)]),
        pending_fds(m) == Seq::<i32>::empty(),
{
    let args = vec![Arg::Int(factor)];
    assert(views(args@) =~= seq![ArgValue::Int(factor)]);
    encode_message(object, 3, &args)
}

/// Many compositors will assign user-friendly names to their outputs, show
/// them to the user, allow the user to refer to an output, etc. The client
/// may wish to know this name as well to offer the user similar behaviors.
///
/// The name is a UTF-8 string with no convention defined for its contents.
/// Each name is unique among all wl_output globals. The name is only
/// guaranteed to be unique for the compositor instance.
///
/// The same output name is used for all clients for a given wl_output
/// global. Thus, the name can be shared across processes to refer to a
/// specific wl_output global.
///
/// The name is not guaranteed to be persistent across sessions, thus cannot
/// be used to reliably identify an output in e.g. configuration files.
///
/// Examples of names include 'HDMI-A-1', 'WL-1', 'X11-1', etc. However, do
/// not assume that the name is a reflection of an underlying DRM connector,
/// X11 connection, etc.
///
/// The name event is sent after binding the output object. This event is
/// only sent once per output object, and the name does not change over the
/// lifetime of the wl_output global.
///
/// Compositors may re-use the same output name if the wl_output global is
/// destroyed and re-created later. Compositors should avoid re-using the
/// same name if possible.
///
/// The name event will be followed by a done event.
///
/// The message of this event, from the object `object`.
pub fn name(object: u32, name_value: String) -> (m: Message)
    requires
        object != 0,
    ensures
        carries(m, object, 4, seq![ArgValue::Str(name_value@)]),
        pending_fds(m) == Seq::<i32>::empty(),
{
    let args = vec![Arg::Str(name_value)];
    assert(views(args@) =~= seq![ArgValue::Str(name_value@)]);
    encode_message(object, 4, &args)
}

/// Many compositors can produce human-readable descriptions of their
/// outputs. The client may wish to know this description as well, e.g. for
/// output selection purposes.
///
/// The description is a UTF-8 string with no convention defined for its
/// contents. The description is not guaranteed to be unique among all
/// wl_output globals. Examples might include 'Foocorp 11" Display' or
/// 'Virtual X11 output via :1'.
///
/// The description event is sent after binding the output object and
/// whenever the description changes. The description is optional, and may
/// not be sent at all.
///
/// The description event will be followed by a done event.
///
/// The message of this event, from the object `object`.
pub fn description(object: u32, description_value: String) -> (m: Message)
    requires
        object != 0,
    ensures
        carries(m, object, 5, seq![ArgValue::Str(description_value@)]),
        pending_fds(m) == Seq::<i32>::empty(),
{
    let args = vec![Arg::Str(description_value)];
    assert(views(args@) =~= seq![ArgValue::Str(description_value@)]);
    encode_message(object, 5, &args)
}

/// The requests of `wl_output` as the protocol defines them: the opcode of
/// each, the kinds of its arguments in order, and the field each argument
/// fills; no other opcode names a request.
pub proof fn lemma_protocol_requests()
    ensures
        request_signature(0) == Some(Seq::<ArgKind>::empty()),
        forall|opcode: u16| opcode >= 1 ==> #[trigger] request_signature(opcode) is None,
        forall|req: Request, vals: Seq<ArgValue>| #[trigger] request_fits(req, 0, vals) <==> (req is Release && vals == Seq::<ArgValue>::empty()),
{
}

} // verus!
