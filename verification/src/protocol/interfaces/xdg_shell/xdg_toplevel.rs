//! This interface defines an xdg_surface role which allows a surface to,
//! among other things, set window-like properties such as maximize,
//! fullscreen, and minimize, set application-specific metadata like title and
//! id, and well as trigger user interactive operations such as interactive
//! resize and move.
//!
//! The `xdg_toplevel` interface, version 6: decoding of its
//! requests and encoding of its events.
use crate::codec::{
    Arg, ArgKind, ArgValue, all_fit_wire, carries, encode_message, kind_of, kinds_of,
    lemma_kinds_of, read_args, spec_read_args, take_int, take_nullable_object, take_object,
    take_string, take_uint, views,
};
use crate::error::DecodeError;
use crate::error::Error as RequestError;
use crate::wire::{Cursor, cursor_of, message_opcode, opcode_of, pending_fds, same_header};
use vstd::prelude::*;
use waynest::wire::Message;

verus! {

/// The name of the interface.
pub const INTERFACE: &'static str = "xdg_toplevel";

/// The version of the interface that is implemented.
pub const VERSION: u32 = 6;

#[derive(Debug, PartialEq, Eq, PartialOrd, Ord, Hash, Clone, Copy)]
pub enum Error {
    /// Provided value is
    /// Not a valid variant of the resize_edge enum
    InvalidResizeEdge,
    /// Invalid parent toplevel
    InvalidParent,
    /// Client provided an invalid min or max size
    InvalidSize,
}

impl Error {
    /// The word that stands for this value on the wire.
    pub open spec fn wire_value(self) -> u32 {
        match self {
            Error::InvalidResizeEdge => 0,
            Error::InvalidParent => 1,
            Error::InvalidSize => 2,
        }
    }

    /// The value a word stands for, if any.
    pub open spec fn from_wire(v: u32) -> Result<Self, DecodeError> {
        match v {
            0 => Ok(Error::InvalidResizeEdge),
            1 => Ok(Error::InvalidParent),
            2 => Ok(Error::InvalidSize),
            _ => Err(DecodeError::MalformedPayload),
        }
    }

    /// The word that stands for this value on the wire.
    pub fn to_wire(self) -> (r: u32)
        ensures
            r == self.wire_value(),
    {
        match self {
            Error::InvalidResizeEdge => 0,
            Error::InvalidParent => 1,
            Error::InvalidSize => 2,
        }
    }

    /// A value read back from its word is that value, and a word that reads
    /// as a value is that value's word.
    pub proof fn lemma_wire_roundtrip(self, v: u32)
        ensures
            Self::from_wire(self.wire_value()) == Ok::<Self, DecodeError>(self),
            Self::from_wire(v) matches Ok(e) ==> e.wire_value() == v,
    {
    }

    /// The words the protocol gives the values of this enumeration.
    pub proof fn lemma_protocol_values()
        ensures
            Error::InvalidResizeEdge.wire_value() == 0,
            Error::InvalidParent.wire_value() == 1,
            Error::InvalidSize.wire_value() == 2,
            Self::from_wire(0) == Ok::<Self, DecodeError>(Error::InvalidResizeEdge),
            Self::from_wire(1) == Ok::<Self, DecodeError>(Error::InvalidParent),
            Self::from_wire(2) == Ok::<Self, DecodeError>(Error::InvalidSize),
    {
    }
}

impl TryFrom<u32> for Error {
    type Error = DecodeError;

    fn try_from(v: u32) -> (r: Result<Self, DecodeError>) {
        match v {
            0 => Ok(Error::InvalidResizeEdge),
            1 => Ok(Error::InvalidParent),
            2 => Ok(Error::InvalidSize),
            _ => Err(DecodeError::MalformedPayload),
        }
    }
}

impl vstd::std_specs::convert::TryFromSpecImpl<u32> for Error {
    open spec fn obeys_try_from_spec() -> bool {
        true
    }

    open spec fn try_from_spec(v: u32) -> Result<Self, DecodeError> {
        Self::from_wire(v)
    }
}

/// These values are used to indicate which edge of a surface
/// is being dragged in a resize operation.
#[derive(Debug, PartialEq, Eq, PartialOrd, Ord, Hash, Clone, Copy)]
pub enum ResizeEdge {
    NoEdge,
    Top,
    Bottom,
    Left,
    TopLeft,
    BottomLeft,
    Right,
    TopRight,
    BottomRight,
}

impl ResizeEdge {
    /// The word that stands for this value on the wire.
    pub open spec fn wire_value(self) -> u32 {
        match self {
            ResizeEdge::NoEdge => 0,
            ResizeEdge::Top => 1,
            ResizeEdge::Bottom => 2,
            ResizeEdge::Left => 4,
            ResizeEdge::TopLeft => 5,
            ResizeEdge::BottomLeft => 6,
            ResizeEdge::Right => 8,
            ResizeEdge::TopRight => 9,
            ResizeEdge::BottomRight => 0xa,
        }
    }

    /// The value a word stands for, if any.
    pub open spec fn from_wire(v: u32) -> Result<Self, DecodeError> {
        match v {
            0 => Ok(ResizeEdge::NoEdge),
            1 => Ok(ResizeEdge::Top),
            2 => Ok(ResizeEdge::Bottom),
            4 => Ok(ResizeEdge::Left),
            5 => Ok(ResizeEdge::TopLeft),
            6 => Ok(ResizeEdge::BottomLeft),
            8 => Ok(ResizeEdge::Right),
            9 => Ok(ResizeEdge::TopRight),
            0xa => Ok(ResizeEdge::BottomRight),
            _ => Err(DecodeError::MalformedPayload),
        }
    }

    /// The word that stands for this value on the wire.
    pub fn to_wire(self) -> (r: u32)
        ensures
            r == self.wire_value(),
    {
        match self {
            ResizeEdge::NoEdge => 0,
            ResizeEdge::Top => 1,
            ResizeEdge::Bottom => 2,
            ResizeEdge::Left => 4,
            ResizeEdge::TopLeft => 5,
            ResizeEdge::BottomLeft => 6,
            ResizeEdge::Right => 8,
            ResizeEdge::TopRight => 9,
            ResizeEdge::BottomRight => 0xa,
        }
    }

    /// A value read back from its word is that value, and a word that reads
    /// as a value is that value's word.
    pub proof fn lemma_wire_roundtrip(self, v: u32)
        ensures
            Self::from_wire(self.wire_value()) == Ok::<Self, DecodeError>(self),
            Self::from_wire(v) matches Ok(e) ==> e.wire_value() == v,
    {
    }

    /// The words the protocol gives the values of this enumeration.
    pub proof fn lemma_protocol_values()
        ensures
            ResizeEdge::NoEdge.wire_value() == 0,
            ResizeEdge::Top.wire_value() == 1,
            ResizeEdge::Bottom.wire_value() == 2,
            ResizeEdge::Left.wire_value() == 4,
            ResizeEdge::TopLeft.wire_value() == 5,
            ResizeEdge::BottomLeft.wire_value() == 6,
            ResizeEdge::Right.wire_value() == 8,
            ResizeEdge::TopRight.wire_value() == 9,
            ResizeEdge::BottomRight.wire_value() == 0xa,
            Self::from_wire(0) == Ok::<Self, DecodeError>(ResizeEdge::NoEdge),
            Self::from_wire(1) == Ok::<Self, DecodeError>(ResizeEdge::Top),
            Self::from_wire(2) == Ok::<Self, DecodeError>(ResizeEdge::Bottom),
            Self::from_wire(4) == Ok::<Self, DecodeError>(ResizeEdge::Left),
            Self::from_wire(5) == Ok::<Self, DecodeError>(ResizeEdge::TopLeft),
            Self::from_wire(6) == Ok::<Self, DecodeError>(ResizeEdge::BottomLeft),
            Self::from_wire(8) == Ok::<Self, DecodeError>(ResizeEdge::Right),
            Self::from_wire(9) == Ok::<Self, DecodeError>(ResizeEdge::TopRight),
            Self::from_wire(0xa) == Ok::<Self, DecodeError>(ResizeEdge::BottomRight),
    {
    }
}

impl TryFrom<u32> for ResizeEdge {
    type Error = DecodeError;

    fn try_from(v: u32) -> (r: Result<Self, DecodeError>) {
        match v {
            0 => Ok(ResizeEdge::NoEdge),
            1 => Ok(ResizeEdge::Top),
            2 => Ok(ResizeEdge::Bottom),
            4 => Ok(ResizeEdge::Left),
            5 => Ok(ResizeEdge::TopLeft),
            6 => Ok(ResizeEdge::BottomLeft),
            8 => Ok(ResizeEdge::Right),
            9 => Ok(ResizeEdge::TopRight),
            0xa => Ok(ResizeEdge::BottomRight),
            _ => Err(DecodeError::MalformedPayload),
        }
    }
}

impl vstd::std_specs::convert::TryFromSpecImpl<u32> for ResizeEdge {
    open spec fn obeys_try_from_spec() -> bool {
        true
    }

    open spec fn try_from_spec(v: u32) -> Result<Self, DecodeError> {
        Self::from_wire(v)
    }
}

/// The different state values used on the surface. This is designed for
/// state values like maximized, fullscreen. It is paired with the
/// configure event to ensure that both the client and the compositor
/// setting the state can be synchronized.
///
/// States set in this way are double-buffered. They will get applied on
/// the next commit.
#[derive(Debug, PartialEq, Eq, PartialOrd, Ord, Hash, Clone, Copy)]
pub enum State {
    /// The surface is maximized
    Maximized,
    /// The surface is fullscreen
    Fullscreen,
    /// The surface is being resized
    Resizing,
    /// The surface is now activated
    Activated,
    TiledLeft,
    TiledRight,
    TiledTop,
    TiledBottom,
    Suspended,
}

impl State {
    /// The word that stands for this value on the wire.
    pub open spec fn wire_value(self) -> u32 {
        match self {
            State::Maximized => 1,
            State::Fullscreen => 2,
            State::Resizing => 3,
            State::Activated => 4,
            State::TiledLeft => 5,
            State::TiledRight => 6,
            State::TiledTop => 7,
            State::TiledBottom => 8,
            State::Suspended => 9,
        }
    }

    /// The value a word stands for, if any.
    pub open spec fn from_wire(v: u32) -> Result<Self, DecodeError> {
        match v {
            1 => Ok(State::Maximized),
            2 => Ok(State::Fullscreen),
            3 => Ok(State::Resizing),
            4 => Ok(State::Activated),
            5 => Ok(State::TiledLeft),
            6 => Ok(State::TiledRight),
            7 => Ok(State::TiledTop),
            8 => Ok(State::TiledBottom),
            9 => Ok(State::Suspended),
            _ => Err(DecodeError::MalformedPayload),
        }
    }

    /// The word that stands for this value on the wire.
    pub fn to_wire(self) -> (r: u32)
        ensures
            r == self.wire_value(),
    {
        match self {
            State::Maximized => 1,
            State::Fullscreen => 2,
            State::Resizing => 3,
            State::Activated => 4,
            State::TiledLeft => 5,
            State::TiledRight => 6,
            State::TiledTop => 7,
            State::TiledBottom => 8,
            State::Suspended => 9,
        }
    }

    /// A value read back from its word is that value, and a word that reads
    /// as a value is that value's word.
    pub proof fn lemma_wire_roundtrip(self, v: u32)
        ensures
            Self::from_wire(self.wire_value()) == Ok::<Self, DecodeError>(self),
            Self::from_wire(v) matches Ok(e) ==> e.wire_value() == v,
    {
    }

    /// The words the protocol gives the values of this enumeration.
    pub proof fn lemma_protocol_values()
        ensures
            State::Maximized.wire_value() == 1,
            State::Fullscreen.wire_value() == 2,
            State::Resizing.wire_value() == 3,
            State::Activated.wire_value() == 4,
            State::TiledLeft.wire_value() == 5,
            State::TiledRight.wire_value() == 6,
            State::TiledTop.wire_value() == 7,
            State::TiledBottom.wire_value() == 8,
            State::Suspended.wire_value() == 9,
            Self::from_wire(1) == Ok::<Self, DecodeError>(State::Maximized),
            Self::from_wire(2) == Ok::<Self, DecodeError>(State::Fullscreen),
            Self::from_wire(3) == Ok::<Self, DecodeError>(State::Resizing),
            Self::from_wire(4) == Ok::<Self, DecodeError>(State::Activated),
            Self::from_wire(5) == Ok::<Self, DecodeError>(State::TiledLeft),
            Self::from_wire(6) == Ok::<Self, DecodeError>(State::TiledRight),
            Self::from_wire(7) == Ok::<Self, DecodeError>(State::TiledTop),
            Self::from_wire(8) == Ok::<Self, DecodeError>(State::TiledBottom),
            Self::from_wire(9) == Ok::<Self, DecodeError>(State::Suspended),
    {
    }
}

impl TryFrom<u32> for State {
    type Error = DecodeError;

    fn try_from(v: u32) -> (r: Result<Self, DecodeError>) {
        match v {
            1 => Ok(State::Maximized),
            2 => Ok(State::Fullscreen),
            3 => Ok(State::Resizing),
            4 => Ok(State::Activated),
            5 => Ok(State::TiledLeft),
            6 => Ok(State::TiledRight),
            7 => Ok(State::TiledTop),
            8 => Ok(State::TiledBottom),
            9 => Ok(State::Suspended),
            _ => Err(DecodeError::MalformedPayload),
        }
    }
}

impl vstd::std_specs::convert::TryFromSpecImpl<u32> for State {
    open spec fn obeys_try_from_spec() -> bool {
        true
    }

    open spec fn try_from_spec(v: u32) -> Result<Self, DecodeError> {
        Self::from_wire(v)
    }
}

#[derive(Debug, PartialEq, Eq, PartialOrd, Ord, Hash, Clone, Copy)]
pub enum WmCapabilities {
    /// Show_window_menu is available
    WindowMenu,
    /// Set_maximized and unset_maximized are available
    Maximize,
    /// Set_fullscreen and unset_fullscreen are available
    Fullscreen,
    /// Set_minimized is available
    Minimize,
}

impl WmCapabilities {
    /// The word that stands for this value on the wire.
    pub open spec fn wire_value(self) -> u32 {
        match self {
            WmCapabilities::WindowMenu => 1,
            WmCapabilities::Maximize => 2,
            WmCapabilities::Fullscreen => 3,
            WmCapabilities::Minimize => 4,
        }
    }

    /// The value a word stands for, if any.
    pub open spec fn from_wire(v: u32) -> Result<Self, DecodeError> {
        match v {
            1 => Ok(WmCapabilities::WindowMenu),
            2 => Ok(WmCapabilities::Maximize),
            3 => Ok(WmCapabilities::Fullscreen),
            4 => Ok(WmCapabilities::Minimize),
            _ => Err(DecodeError::MalformedPayload),
        }
    }

    /// The word that stands for this value on the wire.
    pub fn to_wire(self) -> (r: u32)
        ensures
            r == self.wire_value(),
    {
        match self {
            WmCapabilities::WindowMenu => 1,
            WmCapabilities::Maximize => 2,
            WmCapabilities::Fullscreen => 3,
            WmCapabilities::Minimize => 4,
        }
    }

    /// A value read back from its word is that value, and a word that reads
    /// as a value is that value's word.
    pub proof fn lemma_wire_roundtrip(self, v: u32)
        ensures
            Self::from_wire(self.wire_value()) == Ok::<Self, DecodeError>(self),
            Self::from_wire(v) matches Ok(e) ==> e.wire_value() == v,
    {
    }

    /// The words the protocol gives the values of this enumeration.
    pub proof fn lemma_protocol_values()
        ensures
            WmCapabilities::WindowMenu.wire_value() == 1,
            WmCapabilities::Maximize.wire_value() == 2,
            WmCapabilities::Fullscreen.wire_value() == 3,
            WmCapabilities::Minimize.wire_value() == 4,
            Self::from_wire(1) == Ok::<Self, DecodeError>(WmCapabilities::WindowMenu),
            Self::from_wire(2) == Ok::<Self, DecodeError>(WmCapabilities::Maximize),
            Self::from_wire(3) == Ok::<Self, DecodeError>(WmCapabilities::Fullscreen),
            Self::from_wire(4) == Ok::<Self, DecodeError>(WmCapabilities::Minimize),
    {
    }
}

impl TryFrom<u32> for WmCapabilities {
    type Error = DecodeError;

    fn try_from(v: u32) -> (r: Result<Self, DecodeError>) {
        match v {
            1 => Ok(WmCapabilities::WindowMenu),
            2 => Ok(WmCapabilities::Maximize),
            3 => Ok(WmCapabilities::Fullscreen),
            4 => Ok(WmCapabilities::Minimize),
            _ => Err(DecodeError::MalformedPayload),
        }
    }
}

impl vstd::std_specs::convert::TryFromSpecImpl<u32> for WmCapabilities {
    open spec fn obeys_try_from_spec() -> bool {
        true
    }

    open spec fn try_from_spec(v: u32) -> Result<Self, DecodeError> {
        Self::from_wire(v)
    }
}

/// A request of `xdg_toplevel`, decoded from the wire.
#[derive(Debug)]
pub enum Request {
    /// This request destroys the role surface and unmaps the surface;
    /// see "Unmapping" behavior in interface section for details.
    Destroy,
    /// Set the "parent" of this surface. This surface should be stacked
    /// above the parent surface and all other ancestor surfaces.
    SetParent {
        parent: Option<u32>,
    },
    /// Set a short title for the surface.
    SetTitle {
        title: String,
    },
    /// Set an application identifier for the surface.
    SetAppId {
        app_id: String,
    },
    /// Clients implementing client-side decorations might want to show
    /// a context menu when right-clicking on the decorations, giving the
    /// user a menu that they can use to maximize or minimize the window.
    ShowWindowMenu {
        seat: u32,
        serial: u32,
        x: i32,
        y: i32,
    },
    /// Start an interactive, user-driven move of the surface.
    Move {
        seat: u32,
        serial: u32,
    },
    /// Start a user-driven, interactive resize of the surface.
    Resize {
        seat: u32,
        serial: u32,
        edges: ResizeEdge,
    },
    /// Set a maximum size for the window.
    SetMaxSize {
        width: i32,
        height: i32,
    },
    /// Set a minimum size for the window.
    SetMinSize {
        width: i32,
        height: i32,
    },
    /// Maximize the surface.
    SetMaximized,
    /// Unmaximize the surface.
    UnsetMaximized,
    /// Make the surface fullscreen.
    SetFullscreen {
        output: Option<u32>,
    },
    /// Make the surface no longer fullscreen.
    UnsetFullscreen,
    /// Request that the compositor minimize your surface. There is no
    /// way to know if the surface is currently minimized, nor is there
    /// any way to unset minimization on this surface.
    SetMinimized,
}

/// The kinds of the arguments of the request with opcode `opcode`.
pub open spec fn request_signature(opcode: u16) -> Option<Seq<ArgKind>> {
    match opcode {
        0 => Some(Seq::<ArgKind>::empty()),
        1 => Some(seq![ArgKind::NullableObject]),
        2 => Some(seq![ArgKind::String]),
        3 => Some(seq![ArgKind::String]),
        4 => Some(seq![ArgKind::Object, ArgKind::Uint, ArgKind::Int, ArgKind::Int]),
        5 => Some(seq![ArgKind::Object, ArgKind::Uint]),
        6 => Some(seq![ArgKind::Object, ArgKind::Uint, ArgKind::Uint]),
        7 => Some(seq![ArgKind::Int, ArgKind::Int]),
        8 => Some(seq![ArgKind::Int, ArgKind::Int]),
        9 => Some(Seq::<ArgKind>::empty()),
        10 => Some(Seq::<ArgKind>::empty()),
        11 => Some(seq![ArgKind::NullableObject]),
        12 => Some(Seq::<ArgKind>::empty()),
        13 => Some(Seq::<ArgKind>::empty()),
        _ => None,
    }
}

/// Whether decoded arguments hold, where the request takes an enumeration or
/// a bit set, a word that stands for one.
pub open spec fn request_args_valid(opcode: u16, vals: Seq<ArgValue>) -> bool {
    match opcode {
        6 => ResizeEdge::from_wire(vals[2]->Uint_0) is Ok,
        _ => true,
    }
}

/// Whether `req` is the request with opcode `opcode` and arguments `vals`.
pub open spec fn request_fits(req: Request, opcode: u16, vals: Seq<ArgValue>) -> bool {
    match req {
        Request::Destroy => {
            &&& opcode == 0
            &&& vals == Seq::<ArgValue>::empty()
        },
        Request::SetParent { parent } => {
            &&& opcode == 1
            &&& vals == seq![ArgValue::NullableObject(parent)]
        },
        Request::SetTitle { title } => {
            &&& opcode == 2
            &&& vals == seq![ArgValue::Str(title@)]
        },
        Request::SetAppId { app_id } => {
            &&& opcode == 3
            &&& vals == seq![ArgValue::Str(app_id@)]
        },
        Request::ShowWindowMenu { seat, serial, x, y } => {
            &&& opcode == 4
            &&& vals == seq![
                ArgValue::Object(seat),
                ArgValue::Uint(serial),
                ArgValue::Int(x),
                ArgValue::Int(y),
            ]
        },
        Request::Move { seat, serial } => {
            &&& opcode == 5
            &&& vals == seq![ArgValue::Object(seat), ArgValue::Uint(serial)]
        },
        Request::Resize { seat, serial, edges } => {
            &&& opcode == 6
            &&& vals == seq![
                ArgValue::Object(seat),
                ArgValue::Uint(serial),
                ArgValue::Uint(edges.wire_value()),
            ]
        },
        Request::SetMaxSize { width, height } => {
            &&& opcode == 7
            &&& vals == seq![ArgValue::Int(width), ArgValue::Int(height)]
        },
        Request::SetMinSize { width, height } => {
            &&& opcode == 8
            &&& vals == seq![ArgValue::Int(width), ArgValue::Int(height)]
        },
        Request::SetMaximized => {
            &&& opcode == 9
            &&& vals == Seq::<ArgValue>::empty()
        },
        Request::UnsetMaximized => {
            &&& opcode == 10
            &&& vals == Seq::<ArgValue>::empty()
        },
        Request::SetFullscreen { output } => {
            &&& opcode == 11
            &&& vals == seq![ArgValue::NullableObject(output)]
        },
        Request::UnsetFullscreen => {
            &&& opcode == 12
            &&& vals == Seq::<ArgValue>::empty()
        },
        Request::SetMinimized => {
            &&& opcode == 13
            &&& vals == Seq::<ArgValue>::empty()
        },
    }
}

/// What decoding a request with opcode `opcode` from the payload and file
/// descriptors of `c` gives.
pub open spec fn request_outcome(opcode: u16, c: Cursor, r: Result<Request, RequestError>) -> bool {
    match request_signature(opcode) {
        None => r == Err::<Request, RequestError>(RequestError::UnknownOpcode(opcode)),
        Some(sig) => match spec_read_args(sig, c) {
            None => r == Err::<Request, RequestError>(RequestError::MalformedPayload),
            Some((vals, _)) => if request_args_valid(opcode, vals) {
                r matches Ok(req) && request_fits(req, opcode, vals)
            } else {
                r == Err::<Request, RequestError>(RequestError::MalformedPayload)
            },
        },
    }
}

/// A message that carries, for an object of `xdg_toplevel`, arguments `vals` of
/// the kinds the request with opcode `opcode` takes decodes to that request
/// with those arguments, where they fit the wire and name known values of
/// its enumerations; where they name unknown values, it is refused as
/// malformed.
pub proof fn lemma_request_roundtrip(
    m: Message,
    object: u32,
    opcode: u16,
    vals: Seq<ArgValue>,
    r: Result<Request, RequestError>,
)
    requires
        request_signature(opcode) == Some(kinds_of(vals)),
        carries(m, object, opcode, vals),
        all_fit_wire(vals),
        request_outcome(message_opcode(m), cursor_of(m), r),
    ensures
        request_args_valid(opcode, vals) ==> (r matches Ok(req) && request_fits(req, opcode, vals)),
        !request_args_valid(opcode, vals) ==> r == Err::<Request, RequestError>(
            RequestError::MalformedPayload,
        ),
{
}

fn signature(opcode: u16) -> (r: Option<Vec<ArgKind>>)
    ensures
        match request_signature(opcode) {
            None => r is None,
            Some(sig) => r matches Some(v) && v@ == sig,
        },
{
    match opcode {
        0 => Some(Vec::new()),
        1 => Some(vec![ArgKind::NullableObject]),
        2 => Some(vec![ArgKind::String]),
        3 => Some(vec![ArgKind::String]),
        4 => Some(vec![ArgKind::Object, ArgKind::Uint, ArgKind::Int, ArgKind::Int]),
        5 => Some(vec![ArgKind::Object, ArgKind::Uint]),
        6 => Some(vec![ArgKind::Object, ArgKind::Uint, ArgKind::Uint]),
        7 => Some(vec![ArgKind::Int, ArgKind::Int]),
        8 => Some(vec![ArgKind::Int, ArgKind::Int]),
        9 => Some(Vec::new()),
        10 => Some(Vec::new()),
        11 => Some(vec![ArgKind::NullableObject]),
        12 => Some(Vec::new()),
        13 => Some(Vec::new()),
        _ => None,
    }
}

fn decode_destroy(args: Vec<Arg>) -> (r: Result<Request, RequestError>)
    requires
        kinds_of(views(args@)) == Seq::<ArgKind>::empty(),
    ensures
        if request_args_valid(0, views(args@)) {
            r matches Ok(req) && request_fits(req, 0, views(args@))
        } else {
            r == Err::<Request, RequestError>(RequestError::MalformedPayload)
        },
{
    let ghost vals = views(args@);
    proof {
        lemma_kinds_of(vals);
    }
    assert(vals =~= Seq::<ArgValue>::empty());
    Ok(Request::Destroy)
}

fn decode_set_parent(args: Vec<Arg>) -> (r: Result<Request, RequestError>)
    requires
        kinds_of(views(args@)) == seq![ArgKind::NullableObject],
    ensures
        if request_args_valid(1, views(args@)) {
            r matches Ok(req) && request_fits(req, 1, views(args@))
        } else {
            r == Err::<Request, RequestError>(RequestError::MalformedPayload)
        },
{
    let ghost vals = views(args@);
    let mut args = args;
    proof {
        lemma_kinds_of(vals);
    }
    assert(vals.len() == 1);
    assert(views(args@) =~= vals.skip(0));
    assert(kind_of(vals[0]) == ArgKind::NullableObject);
    let parent = take_nullable_object(&mut args);
    assert(vals =~= seq![ArgValue::NullableObject(parent)]);
    Ok(Request::SetParent { parent })
}

fn decode_set_title(args: Vec<Arg>) -> (r: Result<Request, RequestError>)
    requires
        kinds_of(views(args@)) == seq![ArgKind::String],
    ensures
        if request_args_valid(2, views(args@)) {
            r matches Ok(req) && request_fits(req, 2, views(args@))
        } else {
            r == Err::<Request, RequestError>(RequestError::MalformedPayload)
        },
{
    let ghost vals = views(args@);
    let mut args = args;
    proof {
        lemma_kinds_of(vals);
    }
    assert(vals.len() == 1);
    assert(views(args@) =~= vals.skip(0));
    assert(kind_of(vals[0]) == ArgKind::String);
    let title = take_string(&mut args);
    assert(vals =~= seq![ArgValue::Str(title@)]);
    Ok(Request::SetTitle { title })
}

fn decode_set_app_id(args: Vec<Arg>) -> (r: Result<Request, RequestError>)
    requires
        kinds_of(views(args@)) == seq![ArgKind::String],
    ensures
        if request_args_valid(3, views(args@)) {
            r matches Ok(req) && request_fits(req, 3, views(args@))
        } else {
            r == Err::<Request, RequestError>(RequestError::MalformedPayload)
        },
{
    let ghost vals = views(args@);
    let mut args = args;
    proof {
        lemma_kinds_of(vals);
    }
    assert(vals.len() == 1);
    assert(views(args@) =~= vals.skip(0));
    assert(kind_of(vals[0]) == ArgKind::String);
    let app_id = take_string(&mut args);
    assert(vals =~= seq![ArgValue::Str(app_id@)]);
    Ok(Request::SetAppId { app_id })
}

fn decode_show_window_menu(args: Vec<Arg>) -> (r: Result<Request, RequestError>)
    requires
        kinds_of(views(args@)) == seq![ArgKind::Object, ArgKind::Uint, ArgKind::Int, ArgKind::Int],
    ensures
        if request_args_valid(4, views(args@)) {
            r matches Ok(req) && request_fits(req, 4, views(args@))
        } else {
            r == Err::<Request, RequestError>(RequestError::MalformedPayload)
        },
{
    let ghost vals = views(args@);
    let mut args = args;
    proof {
        lemma_kinds_of(vals);
    }
    assert(vals.len() == 4);
    assert(views(args@) =~= vals.skip(0));
    assert(kind_of(vals[0]) == ArgKind::Object);
    let seat = take_object(&mut args);
    assert(views(args@) =~= vals.skip(1));
    assert(kind_of(vals[1]) == ArgKind::Uint);
    let serial = take_uint(&mut args);
    assert(views(args@) =~= vals.skip(2));
    assert(kind_of(vals[2]) == ArgKind::Int);
    let x = take_int(&mut args);
    assert(views(args@) =~= vals.skip(3));
    assert(kind_of(vals[3]) == ArgKind::Int);
    let y = take_int(&mut args);
    assert(vals =~= seq![
        ArgValue::Object(seat),
        ArgValue::Uint(serial),
        ArgValue::Int(x),
        ArgValue::Int(y),
    ]);
    Ok(Request::ShowWindowMenu { seat, serial, x, y })
}

fn decode_move(args: Vec<Arg>) -> (r: Result<Request, RequestError>)
    requires
        kinds_of(views(args@)) == seq![ArgKind::Object, ArgKind::Uint],
    ensures
        if request_args_valid(5, views(args@)) {
            r matches Ok(req) && request_fits(req, 5, views(args@))
        } else {
            r == Err::<Request, RequestError>(RequestError::MalformedPayload)
        },
{
    let ghost vals = views(args@);
    let mut args = args;
    proof {
        lemma_kinds_of(vals);
    }
    assert(vals.len() == 2);
    assert(views(args@) =~= vals.skip(0));
    assert(kind_of(vals[0]) == ArgKind::Object);
    let seat = take_object(&mut args);
    assert(views(args@) =~= vals.skip(1));
    assert(kind_of(vals[1]) == ArgKind::Uint);
    let serial = take_uint(&mut args);
    assert(vals =~= seq![ArgValue::Object(seat), ArgValue::Uint(serial)]);
    Ok(Request::Move { seat, serial })
}

fn decode_resize(args: Vec<Arg>) -> (r: Result<Request, RequestError>)
    requires
        kinds_of(views(args@)) == seq![ArgKind::Object, ArgKind::Uint, ArgKind::Uint],
    ensures
        if request_args_valid(6, views(args@)) {
            r matches Ok(req) && request_fits(req, 6, views(args@))
        } else {
            r == Err::<Request, RequestError>(RequestError::MalformedPayload)
        },
{
    let ghost vals = views(args@);
    let mut args = args;
    proof {
        lemma_kinds_of(vals);
    }
    assert(vals.len() == 3);
    assert(views(args@) =~= vals.skip(0));
    assert(kind_of(vals[0]) == ArgKind::Object);
    let seat = take_object(&mut args);
    assert(views(args@) =~= vals.skip(1));
    assert(kind_of(vals[1]) == ArgKind::Uint);
    let serial = take_uint(&mut args);
    assert(views(args@) =~= vals.skip(2));
    assert(kind_of(vals[2]) == ArgKind::Uint);
    let edges_word = take_uint(&mut args);
    let edges = match ResizeEdge::try_from(edges_word) {
        Ok(v) => v,
        Err(_) => {
            return Err(RequestError::MalformedPayload);
        },
    };
    proof {
        edges.lemma_wire_roundtrip(edges_word);
    }
    assert(vals =~= seq![
        ArgValue::Object(seat),
        ArgValue::Uint(serial),
        ArgValue::Uint(edges.wire_value()),
    ]);
    Ok(Request::Resize { seat, serial, edges })
}

fn decode_set_max_size(args: Vec<Arg>) -> (r: Result<Request, RequestError>)
    requires
        kinds_of(views(args@)) == seq![ArgKind::Int, ArgKind::Int],
    ensures
        if request_args_valid(7, views(args@)) {
            r matches Ok(req) && request_fits(req, 7, views(args@))
        } else {
            r == Err::<Request, RequestError>(RequestError::MalformedPayload)
        },
{
    let ghost vals = views(args@);
    let mut args = args;
    proof {
        lemma_kinds_of(vals);
    }
    assert(vals.len() == 2);
    assert(views(args@) =~= vals.skip(0));
    assert(kind_of(vals[0]) == ArgKind::Int);
    let width = take_int(&mut args);
    assert(views(args@) =~= vals.skip(1));
    assert(kind_of(vals[1]) == ArgKind::Int);
    let height = take_int(&mut args);
    assert(vals =~= seq![ArgValue::Int(width), ArgValue::Int(height)]);
    Ok(Request::SetMaxSize { width, height })
}

fn decode_set_min_size(args: Vec<Arg>) -> (r: Result<Request, RequestError>)
    requires
        kinds_of(views(args@)) == seq![ArgKind::Int, ArgKind::Int],
    ensures
        if request_args_valid(8, views(args@)) {
            r matches Ok(req) && request_fits(req, 8, views(args@))
        } else {
            r == Err::<Request, RequestError>(RequestError::MalformedPayload)
        },
{
    let ghost vals = views(args@);
    let mut args = args;
    proof {
        lemma_kinds_of(vals);
    }
    assert(vals.len() == 2);
    assert(views(args@) =~= vals.skip(0));
    assert(kind_of(vals[0]) == ArgKind::Int);
    let width = take_int(&mut args);
    assert(views(args@) =~= vals.skip(1));
    assert(kind_of(vals[1]) == ArgKind::Int);
    let height = take_int(&mut args);
    assert(vals =~= seq![ArgValue::Int(width), ArgValue::Int(height)]);
    Ok(Request::SetMinSize { width, height })
}

fn decode_set_maximized(args: Vec<Arg>) -> (r: Result<Request, RequestError>)
    requires
        kinds_of(views(args@)) == Seq::<ArgKind>::empty(),
    ensures
        if request_args_valid(9, views(args@)) {
            r matches Ok(req) && request_fits(req, 9, views(args@))
        } else {
            r == Err::<Request, RequestError>(RequestError::MalformedPayload)
        },
{
    let ghost vals = views(args@);
    proof {
        lemma_kinds_of(vals);
    }
    assert(vals =~= Seq::<ArgValue>::empty());
    Ok(Request::SetMaximized)
}

fn decode_unset_maximized(args: Vec<Arg>) -> (r: Result<Request, RequestError>)
    requires
        kinds_of(views(args@)) == Seq::<ArgKind>::empty(),
    ensures
        if request_args_valid(10, views(args@)) {
            r matches Ok(req) && request_fits(req, 10, views(args@))
        } else {
            r == Err::<Request, RequestError>(RequestError::MalformedPayload)
        },
{
    let ghost vals = views(args@);
    proof {
        lemma_kinds_of(vals);
    }
    assert(vals =~= Seq::<ArgValue>::empty());
    Ok(Request::UnsetMaximized)
}

fn decode_set_fullscreen(args: Vec<Arg>) -> (r: Result<Request, RequestError>)
    requires
        kinds_of(views(args@)) == seq![ArgKind::NullableObject],
    ensures
        if request_args_valid(11, views(args@)) {
            r matches Ok(req) && request_fits(req, 11, views(args@))
        } else {
            r == Err::<Request, RequestError>(RequestError::MalformedPayload)
        },
{
    let ghost vals = views(args@);
    let mut args = args;
    proof {
        lemma_kinds_of(vals);
    }
    assert(vals.len() == 1);
    assert(views(args@) =~= vals.skip(0));
    assert(kind_of(vals[0]) == ArgKind::NullableObject);
    let output = take_nullable_object(&mut args);
    assert(vals =~= seq![ArgValue::NullableObject(output)]);
    Ok(Request::SetFullscreen { output })
}

fn decode_unset_fullscreen(args: Vec<Arg>) -> (r: Result<Request, RequestError>)
    requires
        kinds_of(views(args@)) == Seq::<ArgKind>::empty(),
    ensures
        if request_args_valid(12, views(args@)) {
            r matches Ok(req) && request_fits(req, 12, views(args@))
        } else {
            r == Err::<Request, RequestError>(RequestError::MalformedPayload)
        },
{
    let ghost vals = views(args@);
    proof {
        lemma_kinds_of(vals);
    }
    assert(vals =~= Seq::<ArgValue>::empty());
    Ok(Request::UnsetFullscreen)
}

fn decode_set_minimized(args: Vec<Arg>) -> (r: Result<Request, RequestError>)
    requires
        kinds_of(views(args@)) == Seq::<ArgKind>::empty(),
    ensures
        if request_args_valid(13, views(args@)) {
            r matches Ok(req) && request_fits(req, 13, views(args@))
        } else {
            r == Err::<Request, RequestError>(RequestError::MalformedPayload)
        },
{
    let ghost vals = views(args@);
    proof {
        lemma_kinds_of(vals);
    }
    assert(vals =~= Seq::<ArgValue>::empty());
    Ok(Request::SetMinimized)
}

fn into_request(opcode: u16, args: Vec<Arg>) -> (r: Result<Request, RequestError>)
    requires
        request_signature(opcode) == Some(kinds_of(views(args@))),
    ensures
        if request_args_valid(opcode, views(args@)) {
            r matches Ok(req) && request_fits(req, opcode, views(args@))
        } else {
            r == Err::<Request, RequestError>(RequestError::MalformedPayload)
        },
{
    match opcode {
        0 => decode_destroy(args),
        1 => decode_set_parent(args),
        2 => decode_set_title(args),
        3 => decode_set_app_id(args),
        4 => decode_show_window_menu(args),
        5 => decode_move(args),
        6 => decode_resize(args),
        7 => decode_set_max_size(args),
        8 => decode_set_min_size(args),
        9 => decode_set_maximized(args),
        10 => decode_unset_maximized(args),
        11 => decode_set_fullscreen(args),
        12 => decode_unset_fullscreen(args),
        13 => decode_set_minimized(args),
        _ => {
            proof {
                assert(false);
            }
            Err(RequestError::UnknownOpcode(opcode))
        },
    }
}

/// Decodes the request a message carries for a `xdg_toplevel` object: its opcode
/// picks the request, and its payload and file descriptors give the
/// arguments, in order.
pub fn handle_request(message: &mut Message) -> (r: Result<Request, RequestError>)
    ensures
        same_header(*old(message), *final(message)),
        request_outcome(message_opcode(*old(message)), cursor_of(*old(message)), r),
{
    let opcode = opcode_of(message);
    match signature(opcode) {
        None => Err(RequestError::UnknownOpcode(opcode)),
        Some(sig) => match read_args(message, &sig) {
            None => Err(RequestError::MalformedPayload),
            Some(args) => into_request(opcode, args),
        },
    }
}

/// This configure event asks the client to resize its toplevel surface or
/// to change its state. The configured state should not be applied
/// immediately. See xdg_surface.configure for details.
///
/// The width and height arguments specify a hint to the window
/// about how its surface should be resized in window geometry
/// coordinates. See set_window_geometry.
///
/// If the width or height arguments are zero, it means the client
/// should decide its own window dimension. This may happen when the
/// compositor needs to configure the state of the surface but doesn't
/// have any information about any previous or expected dimension.
///
/// The states listed in the event specify how the width/height
/// arguments should be interpreted, and possibly how it should be
/// drawn.
///
/// Clients must send an ack_configure in response to this event. See
/// xdg_surface.configure and xdg_surface.ack_configure for details.
///
/// The message of this event, from the object `object`.
pub fn configure(object: u32, width: i32, height: i32, states: Vec<u8>) -> (m: Message)
    requires
        object != 0,
    ensures
        carries(
            m,
            object,
            0,
            seq![ArgValue::Int(width), ArgValue::Int(height), ArgValue::Array(states@)],
        ),
        pending_fds(m) == Seq::<i32>::empty(),
{
    let args = vec![Arg::Int(width), Arg::Int(height), Arg::Array(states)];
    assert(views(args@) =~= seq![
        ArgValue::Int(width),
        ArgValue::Int(height),
        ArgValue::Array(states@),
    ]);
    encode_message(object, 0, &args)
}

/// The close event is sent by the compositor when the user
/// wants the surface to be closed. This should be equivalent to
/// the user clicking the close button in client-side decorations,
/// if your application has any.
///
/// This is only a request that the user intends to close the
/// window. The client may choose to ignore this request, or show
/// a dialog to ask the user to save their data, etc.
///
/// The message of this event, from the object `object`.
pub fn close(object: u32) -> (m: Message)
    requires
        object != 0,
    ensures
        carries(m, object, 1, Seq::<ArgValue>::empty()),
        pending_fds(m) == Seq::<i32>::empty(),
{
    let args: Vec<Arg> = Vec::new();
    assert(views(args@) =~= Seq::<ArgValue>::empty());
    encode_message(object, 1, &args)
}

/// The configure_bounds event may be sent prior to a xdg_toplevel.configure
/// event to communicate the bounds a window geometry size is recommended
/// to constrain to.
///
/// The passed width and height are in surface coordinate space. If width
/// and height are 0, it means bounds is unknown and equivalent to as if no
/// configure_bounds event was ever sent for this surface.
///
/// The bounds can for example correspond to the size of a monitor excluding
/// any panels or other shell components, so that a surface isn't created in
/// a way that it cannot fit.
///
/// The bounds may change at any point, and in such a case, a new
/// xdg_toplevel.configure_bounds will be sent, followed by
/// xdg_toplevel.configure and xdg_surface.configure.
///
/// The message of this event, from the object `object`.
pub fn configure_bounds(object: u32, width: i32, height: i32) -> (m: Message)
    requires
        object != 0,
    ensures
        carries(m, object, 2, seq![ArgValue::Int(width), ArgValue::Int(height)]),
        pending_fds(m) == Seq::<i32>::empty(),
{
    let args = vec![Arg::Int(width), Arg::Int(height)];
    assert(views(args@) =~= seq![ArgValue::Int(width), ArgValue::Int(height)]);
    encode_message(object, 2, &args)
}

/// This event advertises the capabilities supported by the compositor. If
/// a capability isn't supported, clients should hide or disable the UI
/// elements that expose this functionality. For instance, if the
/// compositor doesn't advertise support for minimized toplevels, a button
/// triggering the set_minimized request should not be displayed.
///
/// The compositor will ignore requests it doesn't support. For instance,
/// a compositor which doesn't advertise support for minimized will ignore
/// set_minimized requests.
///
/// Compositors must send this event once before the first
/// xdg_surface.configure event. When the capabilities change, compositors
/// must send this event again and then send an xdg_surface.configure
/// event.
///
/// The configured state should not be applied immediately. See
/// xdg_surface.configure for details.
///
/// The capabilities are sent as an array of 32-bit unsigned integers in
/// native endianness.
///
/// The message of this event, from the object `object`.
pub fn wm_capabilities(object: u32, capabilities: Vec<u8>) -> (m: Message)
    requires
        object != 0,
    ensures
        carries(m, object, 3, seq![ArgValue::Array(capabilities@)]),
        pending_fds(m) == Seq::<i32>::empty(),
{
    let args = vec![Arg::Array(capabilities)];
    assert(views(args@) =~= seq![ArgValue::Array(capabilities@)]);
    encode_message(object, 3, &args)
}

/// The requests of `xdg_toplevel` as the protocol defines them: the opcode of
/// each, the kinds of its arguments in order, and the field each argument
/// fills; no other opcode names a request.
pub proof fn lemma_protocol_requests()
    ensures
        request_signature(0) == Some(Seq::<ArgKind>::empty()),
        request_signature(1) == Some(seq![ArgKind::NullableObject]),
        request_signature(2) == Some(seq![ArgKind::String]),
        request_signature(3) == Some(seq![ArgKind::String]),
        request_signature(4) == Some(seq![
            ArgKind::Object,
            ArgKind::Uint,
            ArgKind::Int,
            ArgKind::Int,
        ]),
        request_signature(5) == Some(seq![ArgKind::Object, ArgKind::Uint]),
        request_signature(6) == Some(seq![ArgKind::Object, ArgKind::Uint, ArgKind::Uint]),
        request_signature(7) == Some(seq![ArgKind::Int, ArgKind::Int]),
        request_signature(8) == Some(seq![ArgKind::Int, ArgKind::Int]),
        request_signature(9) == Some(Seq::<ArgKind>::empty()),
        request_signature(10) == Some(Seq::<ArgKind>::empty()),
        request_signature(11) == Some(seq![ArgKind::NullableObject]),
        request_signature(12) == Some(Seq::<ArgKind>::empty()),
        request_signature(13) == Some(Seq::<ArgKind>::empty()),
        forall|opcode: u16| opcode >= 14 ==> #[trigger] request_signature(opcode) is None,
        forall|req: Request, vals: Seq<ArgValue>| #[trigger] request_fits(req, 0, vals) <==> (req is Destroy && vals == Seq::<ArgValue>::empty()),
        forall|req: Request, vals: Seq<ArgValue>| #[trigger] request_fits(req, 1, vals) <==> (req matches Request::SetParent { parent } && vals == seq![ArgValue::NullableObject(parent)]),
        forall|req: Request, vals: Seq<ArgValue>| #[trigger] request_fits(req, 2, vals) <==> (req matches Request::SetTitle { title } && vals == seq![ArgValue::Str(title@)]),
        forall|req: Request, vals: Seq<ArgValue>| #[trigger] request_fits(req, 3, vals) <==> (req matches Request::SetAppId { app_id } && vals == seq![ArgValue::Str(app_id@)]),
        forall|req: Request, vals: Seq<ArgValue>| #[trigger] request_fits(req, 4, vals) <==> (req matches Request::ShowWindowMenu { seat, serial, x, y } && vals == seq![
            ArgValue::Object(seat),
            ArgValue::Uint(serial),
            ArgValue::Int(x),
            ArgValue::Int(y),
        ]),
        forall|req: Request, vals: Seq<ArgValue>| #[trigger] request_fits(req, 5, vals) <==> (req matches Request::Move { seat, serial } && vals == seq![
            ArgValue::Object(seat),
            ArgValue::Uint(serial),
        ]),
        forall|req: Request, vals: Seq<ArgValue>| #[trigger] request_fits(req, 6, vals) <==> (req matches Request::Resize { seat, serial, edges } && vals == seq![
            ArgValue::Object(seat),
            ArgValue::Uint(serial),
            ArgValue::Uint(edges.wire_value()),
        ]),
        forall|req: Request, vals: Seq<ArgValue>| #[trigger] request_fits(req, 7, vals) <==> (req matches Request::SetMaxSize { width, height } && vals == seq![
            ArgValue::Int(width),
            ArgValue::Int(height),
        ]),
        forall|req: Request, vals: Seq<ArgValue>| #[trigger] request_fits(req, 8, vals) <==> (req matches Request::SetMinSize { width, height } && vals == seq![
            ArgValue::Int(width),
            ArgValue::Int(height),
        ]),
        forall|req: Request, vals: Seq<ArgValue>| #[trigger] request_fits(req, 9, vals) <==> (req is SetMaximized && vals == Seq::<ArgValue>::empty()),
        forall|req: Request, vals: Seq<ArgValue>| #[trigger] request_fits(req, 10, vals) <==> (req is UnsetMaximized && vals == Seq::<ArgValue>::empty()),
        forall|req: Request, vals: Seq<ArgValue>| #[trigger] request_fits(req, 11, vals) <==> (req matches Request::SetFullscreen { output } && vals == seq![ArgValue::NullableObject(output)]),
        forall|req: Request, vals: Seq<ArgValue>| #[trigger] request_fits(req, 12, vals) <==> (req is UnsetFullscreen && vals == Seq::<ArgValue>::empty()),
        forall|req: Request, vals: Seq<ArgValue>| #[trigger] request_fits(req, 13, vals) <==> (req is SetMinimized && vals == Seq::<ArgValue>::empty()),
{
}

} // verus!
