//! The xdg_positioner provides a collection of rules for the placement of a
//! child surface relative to a parent surface. Rules can be defined to ensure
//! the child surface remains within the visible area's borders, and to
//! specify how the child surface changes its position, such as sliding along
//! an axis, or flipping around a rectangle. These positioner-created rules are
//! constrained by the requirement that a child surface must intersect with or
//! be at least partially adjacent to its parent surface.
//!
//! The `xdg_positioner` interface, version 6: decoding of its
//! requests and encoding of its events.
use crate::codec::{
    Arg, ArgKind, ArgValue, all_fit_wire, carries, kind_of, kinds_of, lemma_kinds_of, read_args,
    spec_read_args, take_int, take_uint, views,
};
use crate::error::DecodeError;
use crate::error::Error as RequestError;
use crate::wire::{Cursor, cursor_of, message_opcode, opcode_of, same_header};
use vstd::prelude::*;
use waynest::wire::Message;

verus! {

/// The name of the interface.
pub const INTERFACE: &'static str = "xdg_positioner";

/// The version of the interface that is implemented.
pub const VERSION: u32 = 6;

#[derive(Debug, PartialEq, Eq, PartialOrd, Ord, Hash, Clone, Copy)]
pub enum Error {
    /// Invalid input provided
    InvalidInput,
}

impl Error {
    /// The word that stands for this value on the wire.
    pub open spec fn wire_value(self) -> u32 {
        match self {
            Error::InvalidInput => 0,
        }
    }

    /// The value a word stands for, if any.
    pub open spec fn from_wire(v: u32) -> Result<Self, DecodeError> {
        match v {
            0 => Ok(Error::InvalidInput),
            _ => Err(DecodeError::MalformedPayload),
        }
    }

    /// The word that stands for this value on the wire.
    pub fn to_wire(self) -> (r: u32)
        ensures
            r == self.wire_value(),
    {
        match self {
            Error::InvalidInput => 0,
        }
    }

    /// A value read back from its word is that value, and a word that reads
    /// as a value is that value's word.
    pub proof fn lemma_wire_roundtrip(self, v: u32)
        ensures
            Self::from_wire(self.wire_value()) == Ok::<Self, DecodeError>(self),
            Self::from_wire(v) matches Ok(e) ==> e.wire_value() == v,
    {
    }

    /// The words the protocol gives the values of this enumeration.
    pub proof fn lemma_protocol_values()
        ensures
            Error::InvalidInput.wire_value() == 0,
            Self::from_wire(0) == Ok::<Self, DecodeError>(Error::InvalidInput),
    {
    }
}

impl TryFrom<u32> for Error {
    type Error = DecodeError;

    fn try_from(v: u32) -> (r: Result<Self, DecodeError>) {
        match v {
            0 => Ok(Error::InvalidInput),
            _ => Err(DecodeError::MalformedPayload),
        }
    }
}

impl vstd::std_specs::convert::TryFromSpecImpl<u32> for Error {
    open spec fn obeys_try_from_spec() -> bool {
        true
    }

    open spec fn try_from_spec(v: u32) -> Result<Self, DecodeError> {
        Self::from_wire(v)
    }
}

#[derive(Debug, PartialEq, Eq, PartialOrd, Ord, Hash, Clone, Copy)]
pub enum Anchor {
    NoAnchor,
    Top,
    Bottom,
    Left,
    Right,
    TopLeft,
    BottomLeft,
    TopRight,
    BottomRight,
}

impl Anchor {
    /// The word that stands for this value on the wire.
    pub open spec fn wire_value(self) -> u32 {
        match self {
            Anchor::NoAnchor => 0,
            Anchor::Top => 1,
            Anchor::Bottom => 2,
            Anchor::Left => 3,
            Anchor::Right => 4,
            Anchor::TopLeft => 5,
            Anchor::BottomLeft => 6,
            Anchor::TopRight => 7,
            Anchor::BottomRight => 8,
        }
    }

    /// The value a word stands for, if any.
    pub open spec fn from_wire(v: u32) -> Result<Self, DecodeError> {
        match v {
            0 => Ok(Anchor::NoAnchor),
            1 => Ok(Anchor::Top),
            2 => Ok(Anchor::Bottom),
            3 => Ok(Anchor::Left),
            4 => Ok(Anchor::Right),
            5 => Ok(Anchor::TopLeft),
            6 => Ok(Anchor::BottomLeft),
            7 => Ok(Anchor::TopRight),
            8 => Ok(Anchor::BottomRight),
            _ => Err(DecodeError::MalformedPayload),
        }
    }

    /// The word that stands for this value on the wire.
    pub fn to_wire(self) -> (r: u32)
        ensures
            r == self.wire_value(),
    {
        match self {
            Anchor::NoAnchor => 0,
            Anchor::Top => 1,
            Anchor::Bottom => 2,
            Anchor::Left => 3,
            Anchor::Right => 4,
            Anchor::TopLeft => 5,
            Anchor::BottomLeft => 6,
            Anchor::TopRight => 7,
            Anchor::BottomRight => 8,
        }
    }

    /// A value read back from its word is that value, and a word that reads
    /// as a value is that value's word.
    pub proof fn lemma_wire_roundtrip(self, v: u32)
        ensures
            Self::from_wire(self.wire_value()) == Ok::<Self, DecodeError>(self),
            Self::from_wire(v) matches Ok(e) ==> e.wire_value() == v,
    {
    }

    /// The words the protocol gives the values of this enumeration.
    pub proof fn lemma_protocol_values()
        ensures
            Anchor::NoAnchor.wire_value() == 0,
            Anchor::Top.wire_value() == 1,
            Anchor::Bottom.wire_value() == 2,
            Anchor::Left.wire_value() == 3,
            Anchor::Right.wire_value() == 4,
            Anchor::TopLeft.wire_value() == 5,
            Anchor::BottomLeft.wire_value() == 6,
            Anchor::TopRight.wire_value() == 7,
            Anchor::BottomRight.wire_value() == 8,
            Self::from_wire(0) == Ok::<Self, DecodeError>(Anchor::NoAnchor),
            Self::from_wire(1) == Ok::<Self, DecodeError>(Anchor::Top),
            Self::from_wire(2) == Ok::<Self, DecodeError>(Anchor::Bottom),
            Self::from_wire(3) == Ok::<Self, DecodeError>(Anchor::Left),
            Self::from_wire(4) == Ok::<Self, DecodeError>(Anchor::Right),
            Self::from_wire(5) == Ok::<Self, DecodeError>(Anchor::TopLeft),
            Self::from_wire(6) == Ok::<Self, DecodeError>(Anchor::BottomLeft),
            Self::from_wire(7) == Ok::<Self, DecodeError>(Anchor::TopRight),
            Self::from_wire(8) == Ok::<Self, DecodeError>(Anchor::BottomRight),
    {
    }
}

impl TryFrom<u32> for Anchor {
    type Error = DecodeError;

    fn try_from(v: u32) -> (r: Result<Self, DecodeError>) {
        match v {
            0 => Ok(Anchor::NoAnchor),
            1 => Ok(Anchor::Top),
            2 => Ok(Anchor::Bottom),
            3 => Ok(Anchor::Left),
            4 => Ok(Anchor::Right),
            5 => Ok(Anchor::TopLeft),
            6 => Ok(Anchor::BottomLeft),
            7 => Ok(Anchor::TopRight),
            8 => Ok(Anchor::BottomRight),
            _ => Err(DecodeError::MalformedPayload),
        }
    }
}

impl vstd::std_specs::convert::TryFromSpecImpl<u32> for Anchor {
    open spec fn obeys_try_from_spec() -> bool {
        true
    }

    open spec fn try_from_spec(v: u32) -> Result<Self, DecodeError> {
        Self::from_wire(v)
    }
}

#[derive(Debug, PartialEq, Eq, PartialOrd, Ord, Hash, Clone, Copy)]
pub enum Gravity {
    NoGravity,
    Top,
    Bottom,
    Left,
    Right,
    TopLeft,
    BottomLeft,
    TopRight,
    BottomRight,
}

impl Gravity {
    /// The word that stands for this value on the wire.
    pub open spec fn wire_value(self) -> u32 {
        match self {
            Gravity::NoGravity => 0,
            Gravity::Top => 1,
            Gravity::Bottom => 2,
            Gravity::Left => 3,
            Gravity::Right => 4,
            Gravity::TopLeft => 5,
            Gravity::BottomLeft => 6,
            Gravity::TopRight => 7,
            Gravity::BottomRight => 8,
        }
    }

    /// The value a word stands for, if any.
    pub open spec fn from_wire(v: u32) -> Result<Self, DecodeError> {
        match v {
            0 => Ok(Gravity::NoGravity),
            1 => Ok(Gravity::Top),
            2 => Ok(Gravity::Bottom),
            3 => Ok(Gravity::Left),
            4 => Ok(Gravity::Right),
            5 => Ok(Gravity::TopLeft),
            6 => Ok(Gravity::BottomLeft),
            7 => Ok(Gravity::TopRight),
            8 => Ok(Gravity::BottomRight),
            _ => Err(DecodeError::MalformedPayload),
        }
    }

    /// The word that stands for this value on the wire.
    pub fn to_wire(self) -> (r: u32)
        ensures
            r == self.wire_value(),
    {
        match self {
            Gravity::NoGravity => 0,
            Gravity::Top => 1,
            Gravity::Bottom => 2,
            Gravity::Left => 3,
            Gravity::Right => 4,
            Gravity::TopLeft => 5,
            Gravity::BottomLeft => 6,
            Gravity::TopRight => 7,
            Gravity::BottomRight => 8,
        }
    }

    /// A value read back from its word is that value, and a word that reads
    /// as a value is that value's word.
    pub proof fn lemma_wire_roundtrip(self, v: u32)
        ensures
            Self::from_wire(self.wire_value()) == Ok::<Self, DecodeError>(self),
            Self::from_wire(v) matches Ok(e) ==> e.wire_value() == v,
    {
    }

    /// The words the protocol gives the values of this enumeration.
    pub proof fn lemma_protocol_values()
        ensures
            Gravity::NoGravity.wire_value() == 0,
            Gravity::Top.wire_value() == 1,
            Gravity::Bottom.wire_value() == 2,
            Gravity::Left.wire_value() == 3,
            Gravity::Right.wire_value() == 4,
            Gravity::TopLeft.wire_value() == 5,
            Gravity::BottomLeft.wire_value() == 6,
            Gravity::TopRight.wire_value() == 7,
            Gravity::BottomRight.wire_value() == 8,
            Self::from_wire(0) == Ok::<Self, DecodeError>(Gravity::NoGravity),
            Self::from_wire(1) == Ok::<Self, DecodeError>(Gravity::Top),
            Self::from_wire(2) == Ok::<Self, DecodeError>(Gravity::Bottom),
            Self::from_wire(3) == Ok::<Self, DecodeError>(Gravity::Left),
            Self::from_wire(4) == Ok::<Self, DecodeError>(Gravity::Right),
            Self::from_wire(5) == Ok::<Self, DecodeError>(Gravity::TopLeft),
            Self::from_wire(6) == Ok::<Self, DecodeError>(Gravity::BottomLeft),
            Self::from_wire(7) == Ok::<Self, DecodeError>(Gravity::TopRight),
            Self::from_wire(8) == Ok::<Self, DecodeError>(Gravity::BottomRight),
    {
    }
}

impl TryFrom<u32> for Gravity {
    type Error = DecodeError;

    fn try_from(v: u32) -> (r: Result<Self, DecodeError>) {
        match v {
            0 => Ok(Gravity::NoGravity),
            1 => Ok(Gravity::Top),
            2 => Ok(Gravity::Bottom),
            3 => Ok(Gravity::Left),
            4 => Ok(Gravity::Right),
            5 => Ok(Gravity::TopLeft),
            6 => Ok(Gravity::BottomLeft),
            7 => Ok(Gravity::TopRight),
            8 => Ok(Gravity::BottomRight),
            _ => Err(DecodeError::MalformedPayload),
        }
    }
}

impl vstd::std_specs::convert::TryFromSpecImpl<u32> for Gravity {
    open spec fn obeys_try_from_spec() -> bool {
        true
    }

    open spec fn try_from_spec(v: u32) -> Result<Self, DecodeError> {
        Self::from_wire(v)
    }
}

/// The constraint adjustment value define ways the compositor will adjust
/// the position of the surface, if the unadjusted position would result
/// in the surface being partly constrained.
///
/// Whether a surface is considered 'constrained' is left to the compositor
/// to determine. For example, the surface may be partly outside the
/// compositor's defined 'work area', thus necessitating the child surface's
/// position be adjusted until it is entirely inside the work area.
///
/// The adjustments can be combined, according to a defined precedence: 1)
/// Flip, 2) Slide, 3) Resize.
///
/// Known bits: None = 0, SlideX = 1, SlideY = 2, FlipX = 4, FlipY = 8, ResizeX = 16, ResizeY = 32.
#[derive(Debug, PartialEq, Eq, PartialOrd, Ord, Hash, Clone, Copy)]
pub struct ConstraintAdjustment {
    pub bits: u32,
}

impl ConstraintAdjustment {
    /// The union of all known bits.
    pub open spec fn all_bits() -> u32 {
        0x3f
    }

    /// The set a word stands for, if it holds only known bits.
    pub open spec fn from_wire(v: u32) -> Result<Self, DecodeError> {
        if v & !Self::all_bits() == 0 {
            Ok(ConstraintAdjustment { bits: v })
        } else {
            Err(DecodeError::MalformedPayload)
        }
    }

    /// The set a word stands for, if it holds only known bits.
    pub fn from_bits(v: u32) -> (r: Option<Self>)
        ensures
            r == match Self::from_wire(v) {
                Ok(f) => Some(f),
                Err(_) => None::<Self>,
            },
    {
        if v & !0x3fu32 == 0 {
            Some(ConstraintAdjustment { bits: v })
        } else {
            None
        }
    }

    /// The word of the set.
    pub fn bits(&self) -> (r: u32)
        ensures
            r == self.bits,
    {
        self.bits
    }

    /// A set of known bits reads back from its word, and a word that reads as
    /// a set is that set's word.
    pub proof fn lemma_wire_roundtrip(self, v: u32)
        ensures
            self.bits & !Self::all_bits() == 0 ==> Self::from_wire(self.bits) == Ok::<
                Self,
                DecodeError,
            >(self),
            Self::from_wire(v) matches Ok(e) ==> e.bits == v,
    {
    }

    /// The bits the protocol defines for this set: None = 0, SlideX = 1, SlideY = 2, FlipX = 4, FlipY = 8, ResizeX = 16, ResizeY = 32.
    /// A word is a set exactly when it holds no other bit.
    pub proof fn lemma_protocol_values(v: u32)
        ensures
            Self::all_bits() == 0x3f,
            Self::from_wire(v) is Ok <==> v & !0x3fu32 == 0,
            Self::from_wire(v) matches Ok(f) ==> f.bits == v,
    {
    }
}

impl TryFrom<u32> for ConstraintAdjustment {
    type Error = DecodeError;

    fn try_from(v: u32) -> (r: Result<Self, DecodeError>) {
        match Self::from_bits(v) {
            Some(f) => Ok(f),
            None => Err(DecodeError::MalformedPayload),
        }
    }
}

impl vstd::std_specs::convert::TryFromSpecImpl<u32> for ConstraintAdjustment {
    open spec fn obeys_try_from_spec() -> bool {
        true
    }

    open spec fn try_from_spec(v: u32) -> Result<Self, DecodeError> {
        Self::from_wire(v)
    }
}

/// A request of `xdg_positioner`, decoded from the wire.
#[derive(Debug)]
pub enum Request {
    /// Notify the compositor that the xdg_positioner will no longer be used.
    Destroy,
    /// Set the size of the surface that is to be positioned with the positioner
    /// object. The size is in surface-local coordinates and corresponds to the
    /// window geometry. See xdg_surface.set_window_geometry.
    SetSize {
        width: i32,
        height: i32,
    },
    /// Specify the anchor rectangle within the parent surface that the child
    /// surface will be placed relative to. The rectangle is relative to the
    /// window geometry as defined by xdg_surface.set_window_geometry of the
    /// parent surface.
    SetAnchorRect {
        x: i32,
        y: i32,
        width: i32,
        height: i32,
    },
    /// Defines the anchor point for the anchor rectangle. The specified anchor
    /// is used derive an anchor point that the child surface will be
    /// positioned relative to. If a corner anchor is set (e.g. 'top_left' or
    /// 'bottom_right'), the anchor point will be at the specified corner;
    /// otherwise, the derived anchor point will be centered on the specified
    /// edge, or in the center of the anchor rectangle if no edge is specified.
    SetAnchor {
        anchor: Anchor,
    },
    /// Defines in what direction a surface should be positioned, relative to
    /// the anchor point of the parent surface. If a corner gravity is
    /// specified (e.g. 'bottom_right' or 'top_left'), then the child surface
    /// will be placed towards the specified gravity; otherwise, the child
    /// surface will be centered over the anchor point on any axis that had no
    /// gravity specified. If the gravity is not in the ‘gravity’ enum, an
    /// invalid_input error is raised.
    SetGravity {
        gravity: Gravity,
    },
    /// Specify how the window should be positioned if the originally intended
    /// position caused the surface to be constrained, meaning at least
    /// partially outside positioning boundaries set by the compositor. The
    /// adjustment is set by constructing a bitmask describing the adjustment to
    /// be made when the surface is constrained on that axis.
    SetConstraintAdjustment {
        constraint_adjustment: ConstraintAdjustment,
    },
    /// Specify the surface position offset relative to the position of the
    /// anchor on the anchor rectangle and the anchor on the surface. For
    /// example if the anchor of the anchor rectangle is at (x, y), the surface
    /// has the gravity bottom|right, and the offset is (ox, oy), the calculated
    /// surface position will be (x + ox, y + oy). The offset position of the
    /// surface is the one used for constraint testing. See
    /// set_constraint_adjustment.
    SetOffset {
        x: i32,
        y: i32,
    },
    /// When set reactive, the surface is reconstrained if the conditions used
    /// for constraining changed, e.g. the parent window moved.
    SetReactive,
    /// Set the parent window geometry the compositor should use when
    /// positioning the popup. The compositor may use this information to
    /// determine the future state the popup should be constrained using. If
    /// this doesn't match the dimension of the parent the popup is eventually
    /// positioned against, the behavior is undefined.
    SetParentSize {
        parent_width: i32,
        parent_height: i32,
    },
    /// Set the serial of an xdg_surface.configure event this positioner will be
    /// used in response to. The compositor may use this information together
    /// with set_parent_size to determine what future state the popup should be
    /// constrained using.
    SetParentConfigure {
        serial: u32,
    },
}

/// The kinds of the arguments of the request with opcode `opcode`.
pub open spec fn request_signature(opcode: u16) -> Option<Seq<ArgKind>> {
    match opcode {
        0 => Some(Seq::<ArgKind>::empty()),
        1 => Some(seq![ArgKind::Int, ArgKind::Int]),
        2 => Some(seq![ArgKind::Int, ArgKind::Int, ArgKind::Int, ArgKind::Int]),
        3 => Some(seq![ArgKind::Uint]),
        4 => Some(seq![ArgKind::Uint]),
        5 => Some(seq![ArgKind::Uint]),
        6 => Some(seq![ArgKind::Int, ArgKind::Int]),
        7 => Some(Seq::<ArgKind>::empty()),
        8 => Some(seq![ArgKind::Int, ArgKind::Int]),
        9 => Some(seq![ArgKind::Uint]),
        _ => None,
    }
}

/// Whether decoded arguments hold, where the request takes an enumeration or
/// a bit set, a word that stands for one.
pub open spec fn request_args_valid(opcode: u16, vals: Seq<ArgValue>) -> bool {
    match opcode {
        3 => Anchor::from_wire(vals[0]->Uint_0) is Ok,
        4 => Gravity::from_wire(vals[0]->Uint_0) is Ok,
        5 => ConstraintAdjustment::from_wire(vals[0]->Uint_0) is Ok,
        _ => true,
    }
}

/// Whether `req` is the request with opcode `opcode` and arguments `vals`.
pub open spec fn request_fits(req: Request, opcode: u16, vals: Seq<ArgValue>) -> bool {
    match req {
        Request::Destroy => {
            &&& opcode == 0
            &&& vals == Seq::<ArgValue>::empty()
        },
        Request::SetSize { width, height } => {
            &&& opcode == 1
            &&& vals == seq![ArgValue::Int(width), ArgValue::Int(height)]
        },
        Request::SetAnchorRect { x, y, width, height } => {
            &&& opcode == 2
            &&& vals == seq![
                ArgValue::Int(x),
                ArgValue::Int(y),
                ArgValue::Int(width),
                ArgValue::Int(height),
            ]
        },
        Request::SetAnchor { anchor } => {
            &&& opcode == 3
            &&& vals == seq![ArgValue::Uint(anchor.wire_value())]
        },
        Request::SetGravity { gravity } => {
            &&& opcode == 4
            &&& vals == seq![ArgValue::Uint(gravity.wire_value())]
        },
        Request::SetConstraintAdjustment { constraint_adjustment } => {
            &&& opcode == 5
            &&& vals == seq![ArgValue::Uint(constraint_adjustment.bits)]
        },
        Request::SetOffset { x, y } => {
            &&& opcode == 6
            &&& vals == seq![ArgValue::Int(x), ArgValue::Int(y)]
        },
        Request::SetReactive => {
            &&& opcode == 7
            &&& vals == Seq::<ArgValue>::empty()
        },
        Request::SetParentSize { parent_width, parent_height } => {
            &&& opcode == 8
            &&& vals == seq![ArgValue::Int(parent_width), ArgValue::Int(parent_height)]
        },
        Request::SetParentConfigure { serial } => {
            &&& opcode == 9
            &&& vals == seq![ArgValue::Uint(serial)]
        },
    }
}

/// What decoding a request with opcode `opcode` from the payload and file
/// descriptors of `c` gives.
pub open spec fn request_outcome(opcode: u16, c: Cursor, r: Result<Request, RequestError>) -> bool {
    match request_signature(opcode) {
        None => r == Err::<Request, RequestError>(RequestError::UnknownOpcode(opcode)),
        Some(sig) => match spec_read_args(sig, c) {
            None => r == Err::<Request, RequestError>(RequestError::MalformedPayload),
            Some((vals, _)) => if request_args_valid(opcode, vals) {
                r matches Ok(req) && request_fits(req, opcode, vals)
            } else {
                r == Err::<Request, RequestError>(RequestError::MalformedPayload)
            },
        },
    }
}

/// A message that carries, for an object of `xdg_positioner`, arguments `vals` of
/// the kinds the request with opcode `opcode` takes decodes to that request
/// with those arguments, where they fit the wire and name known values of
/// its enumerations; where they name unknown values, it is refused as
/// malformed.
pub proof fn lemma_request_roundtrip(
    m: Message,
    object: u32,
    opcode: u16,
    vals: Seq<ArgValue>,
    r: Result<Request, RequestError>,
)
    requires
        request_signature(opcode) == Some(kinds_of(vals)),
        carries(m, object, opcode, vals),
        all_fit_wire(vals),
        request_outcome(message_opcode(m), cursor_of(m), r),
    ensures
        request_args_valid(opcode, vals) ==> (r matches Ok(req) && request_fits(req, opcode, vals)),
        !request_args_valid(opcode, vals) ==> r == Err::<Request, RequestError>(
            RequestError::MalformedPayload,
        ),
{
}

fn signature(opcode: u16) -> (r: Option<Vec<ArgKind>>)
    ensures
        match request_signature(opcode) {
            None => r is None,
            Some(sig) => r matches Some(v) && v@ == sig,
        },
{
    match opcode {
        0 => Some(Vec::new()),
        1 => Some(vec![ArgKind::Int, ArgKind::Int]),
        2 => Some(vec![ArgKind::Int, ArgKind::Int, ArgKind::Int, ArgKind::Int]),
        3 => Some(vec![ArgKind::Uint]),
        4 => Some(vec![ArgKind::Uint]),
        5 => Some(vec![ArgKind::Uint]),
        6 => Some(vec![ArgKind::Int, ArgKind::Int]),
        7 => Some(Vec::new()),
        8 => Some(vec![ArgKind::Int, ArgKind::Int]),
        9 => Some(vec![ArgKind::Uint]),
        _ => None,
    }
}

fn decode_destroy(args: Vec<Arg>) -> (r: Result<Request, RequestError>)
    requires
        kinds_of(views(args@)) == Seq::<ArgKind>::empty(),
    ensures
        if request_args_valid(0, views(args@)) {
            r matches Ok(req) && request_fits(req, 0, views(args@))
        } else {
            r == Err::<Request, RequestError>(RequestError::MalformedPayload)
        },
{
    let ghost vals = views(args@);
    proof {
        lemma_kinds_of(vals);
    }
    assert(vals =~= Seq::<ArgValue>::empty());
    Ok(Request::Destroy)
}

fn decode_set_size(args: Vec<Arg>) -> (r: Result<Request, RequestError>)
    requires
        kinds_of(views(args@)) == seq![ArgKind::Int, ArgKind::Int],
    ensures
        if request_args_valid(1, views(args@)) {
            r matches Ok(req) && request_fits(req, 1, views(args@))
        } else {
            r == Err::<Request, RequestError>(RequestError::MalformedPayload)
        },
{
    let ghost vals = views(args@);
    let mut args = args;
    proof {
        lemma_kinds_of(vals);
    }
    assert(vals.len() == 2);
    assert(views(args@) =~= vals.skip(0));
    assert(kind_of(vals[0]) == ArgKind::Int);
    let width = take_int(&mut args);
    assert(views(args@) =~= vals.skip(1));
    assert(kind_of(vals[1]) == ArgKind::Int);
    let height = take_int(&mut args);
    assert(vals =~= seq![ArgValue::Int(width), ArgValue::Int(height)]);
    Ok(Request::SetSize { width, height })
}

fn decode_set_anchor_rect(args: Vec<Arg>) -> (r: Result<Request, RequestError>)
    requires
        kinds_of(views(args@)) == seq![ArgKind::Int, ArgKind::Int, ArgKind::Int, ArgKind::Int],
    ensures
        if request_args_valid(2, views(args@)) {
            r matches Ok(req) && request_fits(req, 2, views(args@))
        } else {
            r == Err::<Request, RequestError>(RequestError::MalformedPayload)
        },
{
    let ghost vals = views(args@);
    let mut args = args;
    proof {
        lemma_kinds_of(vals);
    }
    assert(vals.len() == 4);
    assert(views(args@) =~= vals.skip(0));
    assert(kind_of(vals[0]) == ArgKind::Int);
    let x = take_int(&mut args);
    assert(views(args@) =~= vals.skip(1));
    assert(kind_of(vals[1]) == ArgKind::Int);
    let y = take_int(&mut args);
    assert(views(args@) =~= vals.skip(2));
    assert(kind_of(vals[2]) == ArgKind::Int);
    let width = take_int(&mut args);
    assert(views(args@) =~= vals.skip(3));
    assert(kind_of(vals[3]) == ArgKind::Int);
    let height = take_int(&mut args);
    assert(vals =~= seq![
        ArgValue::Int(x),
        ArgValue::Int(y),
        ArgValue::Int(width),
        ArgValue::Int(height),
    ]);
    Ok(Request::SetAnchorRect { x, y, width, height })
}

fn decode_set_anchor(args: Vec<Arg>) -> (r: Result<Request, RequestError>)
    requires
        kinds_of(views(args@)) == seq![ArgKind::Uint],
    ensures
        if request_args_valid(3, views(args@)) {
            r matches Ok(req) && request_fits(req, 3, views(args@))
        } else {
            r == Err::<Request, RequestError>(RequestError::MalformedPayload)
        },
{
    let ghost vals = views(args@);
    let mut args = args;
    proof {
        lemma_kinds_of(vals);
    }
    assert(vals.len() == 1);
    assert(views(args@) =~= vals.skip(0));
    assert(kind_of(vals[0]) == ArgKind::Uint);
    let anchor_word = take_uint(&mut args);
    let anchor = match Anchor::try_from(anchor_word) {
        Ok(v) => v,
        Err(_) => {
            return Err(RequestError::MalformedPayload);
        },
    };
    proof {
        anchor.lemma_wire_roundtrip(anchor_word);
    }
    assert(vals =~= seq![ArgValue::Uint(anchor.wire_value())]);
    Ok(Request::SetAnchor { anchor })
}

fn decode_set_gravity(args: Vec<Arg>) -> (r: Result<Request, RequestError>)
    requires
        kinds_of(views(args@)) == seq![ArgKind::Uint],
    ensures
        if request_args_valid(4, views(args@)) {
            r matches Ok(req) && request_fits(req, 4, views(args@))
        } else {
            r == Err::<Request, RequestError>(RequestError::MalformedPayload)
        },
{
    let ghost vals = views(args@);
    let mut args = args;
    proof {
        lemma_kinds_of(vals);
    }
    assert(vals.len() == 1);
    assert(views(args@) =~= vals.skip(0));
    assert(kind_of(vals[0]) == ArgKind::Uint);
    let gravity_word = take_uint(&mut args);
    let gravity = match Gravity::try_from(gravity_word) {
        Ok(v) => v,
        Err(_) => {
            return Err(RequestError::MalformedPayload);
        },
    };
    proof {
        gravity.lemma_wire_roundtrip(gravity_word);
    }
    assert(vals =~= seq![ArgValue::Uint(gravity.wire_value())]);
    Ok(Request::SetGravity { gravity })
}

fn decode_set_constraint_adjustment(args: Vec<Arg>) -> (r: Result<Request, RequestError>)
    requires
        kinds_of(views(args@)) == seq![ArgKind::Uint],
    ensures
        if request_args_valid(5, views(args@)) {
            r matches Ok(req) && request_fits(req, 5, views(args@))
        } else {
            r == Err::<Request, RequestError>(RequestError::MalformedPayload)
        },
{
    let ghost vals = views(args@);
    let mut args = args;
    proof {
        lemma_kinds_of(vals);
    }
    assert(vals.len() == 1);
    assert(views(args@) =~= vals.skip(0));
    assert(kind_of(vals[0]) == ArgKind::Uint);
    let constraint_adjustment_word = take_uint(&mut args);
    let constraint_adjustment = match ConstraintAdjustment::try_from(constraint_adjustment_word) {
        Ok(v) => v,
        Err(_) => {
            return Err(RequestError::MalformedPayload);
        },
    };
    proof {
        constraint_adjustment.lemma_wire_roundtrip(constraint_adjustment_word);
    }
    assert(vals =~= seq![ArgValue::Uint(constraint_adjustment.bits)]);
    Ok(Request::SetConstraintAdjustment { constraint_adjustment })
}

fn decode_set_offset(args: Vec<Arg>) -> (r: Result<Request, RequestError>)
    requires
        kinds_of(views(args@)) == seq![ArgKind::Int, ArgKind::Int],
    ensures
        if request_args_valid(6, views(args@)) {
            r matches Ok(req) && request_fits(req, 6, views(args@))
        } else {
            r == Err::<Request, RequestError>(RequestError::MalformedPayload)
        },
{
    let ghost vals = views(args@);
    let mut args = args;
    proof {
        lemma_kinds_of(vals);
    }
    assert(vals.len() == 2);
    assert(views(args@) =~= vals.skip(0));
    assert(kind_of(vals[0]) == ArgKind::Int);
    let x = take_int(&mut args);
    assert(views(args@) =~= vals.skip(1));
    assert(kind_of(vals[1]) == ArgKind::Int);
    let y = take_int(&mut args);
    assert(vals =~= seq![ArgValue::Int(x), ArgValue::Int(y)]);
    Ok(Request::SetOffset { x, y })
}

fn decode_set_reactive(args: Vec<Arg>) -> (r: Result<Request, RequestError>)
    requires
        kinds_of(views(args@)) == Seq::<ArgKind>::empty(),
    ensures
        if request_args_valid(7, views(args@)) {
            r matches Ok(req) && request_fits(req, 7, views(args@))
        } else {
            r == Err::<Request, RequestError>(RequestError::MalformedPayload)
        },
{
    let ghost vals = views(args@);
    proof {
        lemma_kinds_of(vals);
    }
    assert(vals =~= Seq::<ArgValue>::empty());
    Ok(Request::SetReactive)
}

fn decode_set_parent_size(args: Vec<Arg>) -> (r: Result<Request, RequestError>)
    requires
        kinds_of(views(args@)) == seq![ArgKind::Int, ArgKind::Int],
    ensures
        if request_args_valid(8, views(args@)) {
            r matches Ok(req) && request_fits(req, 8, views(args@))
        } else {
            r == Err::<Request, RequestError>(RequestError::MalformedPayload)
        },
{
    let ghost vals = views(args@);
    let mut args = args;
    proof {
        lemma_kinds_of(vals);
    }
    assert(vals.len() == 2);
    assert(views(args@) =~= vals.skip(0));
    assert(kind_of(vals[0]) == ArgKind::Int);
    let parent_width = take_int(&mut args);
    assert(views(args@) =~= vals.skip(1));
    assert(kind_of(vals[1]) == ArgKind::Int);
    let parent_height = take_int(&mut args);
    assert(vals =~= seq![ArgValue::Int(parent_width), ArgValue::Int(parent_height)]);
    Ok(Request::SetParentSize { parent_width, parent_height })
}

fn decode_set_parent_configure(args: Vec<Arg>) -> (r: Result<Request, RequestError>)
    requires
        kinds_of(views(args@)) == seq![ArgKind::Uint],
    ensures
        if request_args_valid(9, views(args@)) {
            r matches Ok(req) && request_fits(req, 9, views(args@))
        } else {
            r == Err::<Request, RequestError>(RequestError::MalformedPayload)
        },
{
    let ghost vals = views(args@);
    let mut args = args;
    proof {
        lemma_kinds_of(vals);
    }
    assert(vals.len() == 1);
    assert(views(args@) =~= vals.skip(0));
    assert(kind_of(vals[0]) == ArgKind::Uint);
    let serial = take_uint(&mut args);
    assert(vals =~= seq![ArgValue::Uint(serial)]);
    Ok(Request::SetParentConfigure { serial })
}

fn into_request(opcode: u16, args: Vec<Arg>) -> (r: Result<Request, RequestError>)
    requires
        request_signature(opcode) == Some(kinds_of(views(args@))),
    ensures
        if request_args_valid(opcode, views(args@)) {
            r matches Ok(req) && request_fits(req, opcode, views(args@))
        } else {
            r == Err::<Request, RequestError>(RequestError::MalformedPayload)
        },
{
    match opcode {
        0 => decode_destroy(args),
        1 => decode_set_size(args),
        2 => decode_set_anchor_rect(args),
        3 => decode_set_anchor(args),
        4 => decode_set_gravity(args),
        5 => decode_set_constraint_adjustment(args),
        6 => decode_set_offset(args),
        7 => decode_set_reactive(args),
        8 => decode_set_parent_size(args),
        9 => decode_set_parent_configure(args),
        _ => {
            proof {
                assert(false);
            }
            Err(RequestError::UnknownOpcode(opcode))
        },
    }
}

/// Decodes the request a message carries for a `xdg_positioner` object: its opcode
/// picks the request, and its payload and file descriptors give the
/// arguments, in order.
pub fn handle_request(message: &mut Message) -> (r: Result<Request, RequestError>)
    ensures
        same_header(*old(message), *final(message)),
        request_outcome(message_opcode(*old(message)), cursor_of(*old(message)), r),
{
    let opcode = opcode_of(message);
    match signature(opcode) {
        None => Err(RequestError::UnknownOpcode(opcode)),
        Some(sig) => match read_args(message, &sig) {
            None => Err(RequestError::MalformedPayload),
            Some(args) => into_request(opcode, args),
        },
    }
}

/// The requests of `xdg_positioner` as the protocol defines them: the opcode of
/// each, the kinds of its arguments in order, and the field each argument
/// fills; no other opcode names a request.
pub proof fn lemma_protocol_requests()
    ensures
        request_signature(0) == Some(Seq::<ArgKind>::empty()),
        request_signature(1) == Some(seq![ArgKind::Int, ArgKind::Int]),
        request_signature(2) == Some(seq![ArgKind::Int, ArgKind::Int, ArgKind::Int, ArgKind::Int]),
        request_signature(3) == Some(seq![ArgKind::Uint]),
        request_signature(4) == Some(seq![ArgKind::Uint]),
        request_signature(5) == Some(seq![ArgKind::Uint]),
        request_signature(6) == Some(seq![ArgKind::Int, ArgKind::Int]),
        request_signature(7) == Some(Seq::<ArgKind>::empty()),
        request_signature(8) == Some(seq![ArgKind::Int, ArgKind::Int]),
        request_signature(9) == Some(seq![ArgKind::Uint]),
        forall|opcode: u16| opcode >= 10 ==> #[trigger] request_signature(opcode) is None,
        forall|req: Request, vals: Seq<ArgValue>| #[trigger] request_fits(req, 0, vals) <==> (req is Destroy && vals == Seq::<ArgValue>::empty()),
        forall|req: Request, vals: Seq<ArgValue>| #[trigger] request_fits(req, 1, vals) <==> (req matches Request::SetSize { width, height } && vals == seq![
            ArgValue::Int(width),
            ArgValue::Int(height),
        ]),
        forall|req: Request, vals: Seq<ArgValue>| #[trigger] request_fits(req, 2, vals) <==> (req matches Request::SetAnchorRect { x, y, width, height } && vals == seq![
            ArgValue::Int(x),
            ArgValue::Int(y),
            ArgValue::Int(width),
            ArgValue::Int(height),
        ]),
        forall|req: Request, vals: Seq<ArgValue>| #[trigger] request_fits(req, 3, vals) <==> (req matches Request::SetAnchor { anchor } && vals == seq![ArgValue::Uint(anchor.wire_value())]),
        forall|req: Request, vals: Seq<ArgValue>| #[trigger] request_fits(req, 4, vals) <==> (req matches Request::SetGravity { gravity } && vals == seq![ArgValue::Uint(gravity.wire_value())]),
        forall|req: Request, vals: Seq<ArgValue>| #[trigger] request_fits(req, 5, vals) <==> (req matches Request::SetConstraintAdjustment { constraint_adjustment } && vals == seq![ArgValue::Uint(constraint_adjustment.bits)]),
        forall|req: Request, vals: Seq<ArgValue>| #[trigger] request_fits(req, 6, vals) <==> (req matches Request::SetOffset { x, y } && vals == seq![
            ArgValue::Int(x),
            ArgValue::Int(y),
        ]),
        forall|req: Request, vals: Seq<ArgValue>| #[trigger] request_fits(req, 7, vals) <==> (req is SetReactive && vals == Seq::<ArgValue>::empty()),
        forall|req: Request, vals: Seq<ArgValue>| #[trigger] request_fits(req, 8, vals) <==> (req matches Request::SetParentSize {
            parent_width,
            parent_height,
        } && vals == seq![ArgValue::Int(parent_width), ArgValue::Int(parent_height)]),
        forall|req: Request, vals: Seq<ArgValue>| #[trigger] request_fits(req, 9, vals) <==> (req matches Request::SetParentConfigure { serial } && vals == seq![ArgValue::Uint(serial)]),
{
}

} // verus!
