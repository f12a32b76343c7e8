//! An interface that may be implemented by a wl_surface, for
//! implementations that provide a desktop-style user interface.
//!
//! The `wl_shell_surface` interface, version 1: decoding of its
//! requests and encoding of its events.
use crate::codec::{
    Arg, ArgKind, ArgValue, all_fit_wire, carries, encode_message, kind_of, kinds_of,
    lemma_kinds_of, read_args, spec_read_args, take_int, take_nullable_object, take_object,
    take_string, take_uint, views,
};
use crate::error::DecodeError;
use crate::error::Error as RequestError;
use crate::wire::{Cursor, cursor_of, message_opcode, opcode_of, pending_fds, same_header};
use vstd::prelude::*;
use waynest::wire::Message;

verus! {

/// The name of the interface.
pub const INTERFACE: &'static str = "wl_shell_surface";

/// The version of the interface that is implemented.
pub const VERSION: u32 = 1;

/// Hints to indicate to the compositor how to deal with a conflict
/// between the dimensions of the surface and the dimensions of the
/// output. The compositor is free to ignore this parameter.
#[derive(Debug, PartialEq, Eq, PartialOrd, Ord, Hash, Clone, Copy)]
pub enum FullscreenMethod {
    /// No preference, apply default policy
    Default,
    /// Scale, preserve the surface's aspect ratio and center on output
    Scale,
    /// Switch output mode to the smallest mode that can fit the surface, add black borders to compensate size mismatch
    Driver,
    /// No upscaling, center on output and add black borders to compensate size mismatch
    Fill,
}

impl FullscreenMethod {
    /// The word that stands for this value on the wire.
    pub open spec fn wire_value(self) -> u32 {
        match self {
            FullscreenMethod::Default => 0,
            FullscreenMethod::Scale => 1,
            FullscreenMethod::Driver => 2,
            FullscreenMethod::Fill => 3,
        }
    }

    /// The value a word stands for, if any.
    pub open spec fn from_wire(v: u32) -> Result<Self, DecodeError> {
        match v {
            0 => Ok(FullscreenMethod::Default),
            1 => Ok(FullscreenMethod::Scale),
            2 => Ok(FullscreenMethod::Driver),
            3 => Ok(FullscreenMethod::Fill),
            _ => Err(DecodeError::MalformedPayload),
        }
    }

    /// The word that stands for this value on the wire.
    pub fn to_wire(self) -> (r: u32)
        ensures
            r == self.wire_value(),
    {
        match self {
            FullscreenMethod::Default => 0,
            FullscreenMethod::Scale => 1,
            FullscreenMethod::Driver => 2,
            FullscreenMethod::Fill => 3,
        }
    }

    /// A value read back from its word is that value, and a word that reads
    /// as a value is that value's word.
    pub proof fn lemma_wire_roundtrip(self, v: u32)
        ensures
            Self::from_wire(self.wire_value()) == Ok::<Self, DecodeError>(self),
            Self::from_wire(v) matches Ok(e) ==> e.wire_value() == v,
    {
    }

    /// The words the protocol gives the values of this enumeration.
    pub proof fn lemma_protocol_values()
        ensures
            FullscreenMethod::Default.wire_value() == 0,
            FullscreenMethod::Scale.wire_value() == 1,
            FullscreenMethod::Driver.wire_value() == 2,
            FullscreenMethod::Fill.wire_value() == 3,
            Self::from_wire(0) == Ok::<Self, DecodeError>(FullscreenMethod::Default),
            Self::from_wire(1) == Ok::<Self, DecodeError>(FullscreenMethod::Scale),
            Self::from_wire(2) == Ok::<Self, DecodeError>(FullscreenMethod::Driver),
            Self::from_wire(3) == Ok::<Self, DecodeError>(FullscreenMethod::Fill),
    {
    }
}

impl TryFrom<u32> for FullscreenMethod {
    type Error = DecodeError;

    fn try_from(v: u32) -> (r: Result<Self, DecodeError>) {
        match v {
            0 => Ok(FullscreenMethod::Default),
            1 => Ok(FullscreenMethod::Scale),
            2 => Ok(FullscreenMethod::Driver),
            3 => Ok(FullscreenMethod::Fill),
            _ => Err(DecodeError::MalformedPayload),
        }
    }
}

impl vstd::std_specs::convert::TryFromSpecImpl<u32> for FullscreenMethod {
    open spec fn obeys_try_from_spec() -> bool {
        true
    }

    open spec fn try_from_spec(v: u32) -> Result<Self, DecodeError> {
        Self::from_wire(v)
    }
}

/// These values are used to indicate which edge of a surface
/// is being dragged in a resize operation. The server may
/// use this information to adapt its behavior, e.g. choose
/// an appropriate cursor image.
///
/// Known bits: None = 0, Top = 1, Bottom = 2, Left = 4, TopLeft = 5, BottomLeft = 6, Right = 8, TopRight = 9, BottomRight = 10.
#[derive(Debug, PartialEq, Eq, PartialOrd, Ord, Hash, Clone, Copy)]
pub struct Resize {
    pub bits: u32,
}

impl Resize {
    /// The union of all known bits.
    pub open spec fn all_bits() -> u32 {
        0xf
    }

    /// The set a word stands for, if it holds only known bits.
    pub open spec fn from_wire(v: u32) -> Result<Self, DecodeError> {
        if v & !Self::all_bits() == 0 {
            Ok(Resize { bits: v })
        } else {
            Err(DecodeError::MalformedPayload)
        }
    }

    /// The set a word stands for, if it holds only known bits.
    pub fn from_bits(v: u32) -> (r: Option<Self>)
        ensures
            r == match Self::from_wire(v) {
                Ok(f) => Some(f),
                Err(_) => None::<Self>,
            },
    {
        if v & !0xfu32 == 0 {
            Some(Resize { bits: v })
        } else {
            None
        }
    }

    /// The word of the set.
    pub fn bits(&self) -> (r: u32)
        ensures
            r == self.bits,
    {
        self.bits
    }

    /// A set of known bits reads back from its word, and a word that reads as
    /// a set is that set's word.
    pub proof fn lemma_wire_roundtrip(self, v: u32)
        ensures
            self.bits & !Self::all_bits() == 0 ==> Self::from_wire(self.bits) == Ok::<
                Self,
                DecodeError,
            >(self),
            Self::from_wire(v) matches Ok(e) ==> e.bits == v,
    {
    }

    /// The bits the protocol defines for this set: None = 0, Top = 1, Bottom = 2, Left = 4, TopLeft = 5, BottomLeft = 6, Right = 8, TopRight = 9, BottomRight = 10.
    /// A word is a set exactly when it holds no other bit.
    pub proof fn lemma_protocol_values(v: u32)
        ensures
            Self::all_bits() == 0xf,
            Self::from_wire(v) is Ok <==> v & !0xfu32 == 0,
            Self::from_wire(v) matches Ok(f) ==> f.bits == v,
    {
    }
}

impl TryFrom<u32> for Resize {
    type Error = DecodeError;

    fn try_from(v: u32) -> (r: Result<Self, DecodeError>) {
        match Self::from_bits(v) {
            Some(f) => Ok(f),
            None => Err(DecodeError::MalformedPayload),
        }
    }
}

impl vstd::std_specs::convert::TryFromSpecImpl<u32> for Resize {
    open spec fn obeys_try_from_spec() -> bool {
        true
    }

    open spec fn try_from_spec(v: u32) -> Result<Self, DecodeError> {
        Self::from_wire(v)
    }
}

/// These flags specify details of the expected behaviour
/// of transient surfaces. Used in the set_transient request.
///
/// Known bits: Inactive = 1.
#[derive(Debug, PartialEq, Eq, PartialOrd, Ord, Hash, Clone, Copy)]
pub struct Transient {
    pub bits: u32,
}

impl Transient {
    /// The union of all known bits.
    pub open spec fn all_bits() -> u32 {
        0x1
    }

    /// The set a word stands for, if it holds only known bits.
    pub open spec fn from_wire(v: u32) -> Result<Self, DecodeError> {
        if v & !Self::all_bits() == 0 {
            Ok(Transient { bits: v })
        } else {
            Err(DecodeError::MalformedPayload)
        }
    }

    /// The set a word stands for, if it holds only known bits.
    pub fn from_bits(v: u32) -> (r: Option<Self>)
        ensures
            r == match Self::from_wire(v) {
                Ok(f) => Some(f),
                Err(_) => None::<Self>,
            },
    {
        if v & !0x1u32 == 0 {
            Some(Transient { bits: v })
        } else {
            None
        }
    }

    /// The word of the set.
    pub fn bits(&self) -> (r: u32)
        ensures
            r == self.bits,
    {
        self.bits
    }

    /// A set of known bits reads back from its word, and a word that reads as
    /// a set is that set's word.
    pub proof fn lemma_wire_roundtrip(self, v: u32)
        ensures
            self.bits & !Self::all_bits() == 0 ==> Self::from_wire(self.bits) == Ok::<
                Self,
                DecodeError,
            >(self),
            Self::from_wire(v) matches Ok(e) ==> e.bits == v,
    {
    }

    /// The bits the protocol defines for this set: Inactive = 1.
    /// A word is a set exactly when it holds no other bit.
    pub proof fn lemma_protocol_values(v: u32)
        ensures
            Self::all_bits() == 0x1,
            Self::from_wire(v) is Ok <==> v & !0x1u32 == 0,
            Self::from_wire(v) matches Ok(f) ==> f.bits == v,
    {
    }
}

impl TryFrom<u32> for Transient {
    type Error = DecodeError;

    fn try_from(v: u32) -> (r: Result<Self, DecodeError>) {
        match Self::from_bits(v) {
            Some(f) => Ok(f),
            None => Err(DecodeError::MalformedPayload),
        }
    }
}

impl vstd::std_specs::convert::TryFromSpecImpl<u32> for Transient {
    open spec fn obeys_try_from_spec() -> bool {
        true
    }

    open spec fn try_from_spec(v: u32) -> Result<Self, DecodeError> {
        Self::from_wire(v)
    }
}

/// A request of `wl_shell_surface`, decoded from the wire.
#[derive(Debug)]
pub enum Request {
    /// A client must respond to a ping event with a pong request or
    /// the client may be deemed unresponsive.
    Pong {
        serial: u32,
    },
    /// Start a pointer-driven move of the surface.
    Move {
        seat: u32,
        serial: u32,
    },
    /// Start a pointer-driven resizing of the surface.
    Resize {
        seat: u32,
        serial: u32,
        edges: Resize,
    },
    /// Map the surface as a toplevel surface.
    SetToplevel,
    /// Map the surface relative to an existing surface.
    SetTransient {
        parent: u32,
        x: i32,
        y: i32,
        flags: Transient,
    },
    /// Map the surface as a fullscreen surface.
    SetFullscreen {
        method: FullscreenMethod,
        framerate: u32,
        output: Option<u32>,
    },
    /// Map the surface as a popup.
    SetPopup {
        seat: u32,
        serial: u32,
        parent: u32,
        x: i32,
        y: i32,
        flags: Transient,
    },
    /// Map the surface as a maximized surface.
    SetMaximized {
        output: Option<u32>,
    },
    /// Set a short title for the surface.
    SetTitle {
        title: String,
    },
    /// Set a class for the surface.
    SetClass {
        class: String,
    },
}

/// The kinds of the arguments of the request with opcode `opcode`.
pub open spec fn request_signature(opcode: u16) -> Option<Seq<ArgKind>> {
    match opcode {
        0 => Some(seq![ArgKind::Uint]),
        1 => Some(seq![ArgKind::Object, ArgKind::Uint]),
        2 => Some(seq![ArgKind::Object, ArgKind::Uint, ArgKind::Uint]),
        3 => Some(Seq::<ArgKind>::empty()),
        4 => Some(seq![ArgKind::Object, ArgKind::Int, ArgKind::Int, ArgKind::Uint]),
        5 => Some(seq![ArgKind::Uint, ArgKind::Uint, ArgKind::NullableObject]),
        6 => Some(seq![
            ArgKind::Object,
            ArgKind::Uint,
            ArgKind::Object,
            ArgKind::Int,
            ArgKind::Int,
            ArgKind::Uint,
        ]),
        7 => Some(seq![ArgKind::NullableObject]),
        8 => Some(seq![ArgKind::String]),
        9 => Some(seq![ArgKind::String]),
        _ => None,
    }
}

/// Whether decoded arguments hold, where the request takes an enumeration or
/// a bit set, a word that stands for one.
pub open spec fn request_args_valid(opcode: u16, vals: Seq<ArgValue>) -> bool {
    match opcode {
        2 => Resize::from_wire(vals[2]->Uint_0) is Ok,
        4 => Transient::from_wire(vals[3]->Uint_0) is Ok,
        5 => FullscreenMethod::from_wire(vals[0]->Uint_0) is Ok,
        6 => Transient::from_wire(vals[5]->Uint_0) is Ok,
        _ => true,
    }
}

/// Whether `req` is the request with opcode `opcode` and arguments `vals`.
pub open spec fn request_fits(req: Request, opcode: u16, vals: Seq<ArgValue>) -> bool {
    match req {
        Request::Pong { serial } => {
            &&& opcode == 0
            &&& vals == seq![ArgValue::Uint(serial)]
        },
        Request::Move { seat, serial } => {
            &&& opcode == 1
            &&& vals == seq![ArgValue::Object(seat), ArgValue::Uint(serial)]
        },
        Request::Resize { seat, serial, edges } => {
            &&& opcode == 2
            &&& vals == seq![
                ArgValue::Object(seat),
                ArgValue::Uint(serial),
                ArgValue::Uint(edges.bits),
            ]
        },
        Request::SetToplevel => {
            &&& opcode == 3
            &&& vals == Seq::<ArgValue>::empty()
        },
        Request::SetTransient { parent, x, y, flags } => {
            &&& opcode == 4
            &&& vals == seq![
                ArgValue::Object(parent),
                ArgValue::Int(x),
                ArgValue::Int(y),
                ArgValue::Uint(flags.bits),
            ]
        },
        Request::SetFullscreen { method, framerate, output } => {
            &&& opcode == 5
            &&& vals == seq![
                ArgValue::Uint(method.wire_value()),
                ArgValue::Uint(framerate),
                ArgValue::NullableObject(output),
            ]
        },
        Request::SetPopup { seat, serial, parent, x, y, flags } => {
            &&& opcode == 6
            &&& vals == seq![
                ArgValue::Object(seat),
                ArgValue::Uint(serial),
                ArgValue::Object(parent),
                ArgValue::Int(x),
                ArgValue::Int(y),
                ArgValue::Uint(flags.bits),
            ]
        },
        Request::SetMaximized { output } => {
            &&& opcode == 7
            &&& vals == seq![ArgValue::NullableObject(output)]
        },
        Request::SetTitle { title } => {
            &&& opcode == 8
            &&& vals == seq![ArgValue::Str(title@)]
        },
        Request::SetClass { class } => {
            &&& opcode == 9
            &&& vals == seq![ArgValue::Str(class@)]
        },
    }
}

/// What decoding a request with opcode `opcode` from the payload and file
/// descriptors of `c` gives.
pub open spec fn request_outcome(opcode: u16, c: Cursor, r: Result<Request, RequestError>) -> bool {
    match request_signature(opcode) {
        None => r == Err::<Request, RequestError>(RequestError::UnknownOpcode(opcode)),
        Some(sig) => match spec_read_args(sig, c) {
            None => r == Err::<Request, RequestError>(RequestError::MalformedPayload),
            Some((vals, _)) => if request_args_valid(opcode, vals) {
                r matches Ok(req) && request_fits(req, opcode, vals)
            } else {
                r == Err::<Request, RequestError>(RequestError::MalformedPayload)
            },
        },
    }
}

/// A message that carries, for an object of `wl_shell_surface`, arguments `vals` of
/// the kinds the request with opcode `opcode` takes decodes to that request
/// with those arguments, where they fit the wire and name known values of
/// its enumerations; where they name unknown values, it is refused as
/// malformed.
pub proof fn lemma_request_roundtrip(
    m: Message,
    object: u32,
    opcode: u16,
    vals: Seq<ArgValue>,
    r: Result<Request, RequestError>,
)
    requires
        request_signature(opcode) == Some(kinds_of(vals)),
        carries(m, object, opcode, vals),
        all_fit_wire(vals),
        request_outcome(message_opcode(m), cursor_of(m), r),
    ensures
        request_args_valid(opcode, vals) ==> (r matches Ok(req) && request_fits(req, opcode, vals)),
        !request_args_valid(opcode, vals) ==> r == Err::<Request, RequestError>(
            RequestError::MalformedPayload,
        ),
{
}

fn signature(opcode: u16) -> (r: Option<Vec<ArgKind>>)
    ensures
        match request_signature(opcode) {
            None => r is None,
            Some(sig) => r matches Some(v) && v@ == sig,
        },
{
    match opcode {
        0 => Some(vec![ArgKind::Uint]),
        1 => Some(vec![ArgKind::Object, ArgKind::Uint]),
        2 => Some(vec![ArgKind::Object, ArgKind::Uint, ArgKind::Uint]),
        3 => Some(Vec::new()),
        4 => Some(vec![ArgKind::Object, ArgKind::Int, ArgKind::Int, ArgKind::Uint]),
        5 => Some(vec![ArgKind::Uint, ArgKind::Uint, ArgKind::NullableObject]),
        6 => Some(vec![
            ArgKind::Object,
            ArgKind::Uint,
            ArgKind::Object,
            ArgKind::Int,
            ArgKind::Int,
            ArgKind::Uint,
        ]),
        7 => Some(vec![ArgKind::NullableObject]),
        8 => Some(vec![ArgKind::String]),
        9 => Some(vec![ArgKind::String]),
        _ => None,
    }
}

fn decode_pong(args: Vec<Arg>) -> (r: Result<Request, RequestError>)
    requires
        kinds_of(views(args@)) == seq![ArgKind::Uint],
    ensures
        if request_args_valid(0, views(args@)) {
            r matches Ok(req) && request_fits(req, 0, views(args@))
        } else {
            r == Err::<Request, RequestError>(RequestError::MalformedPayload)
        },
{
    let ghost vals = views(args@);
    let mut args = args;
    proof {
        lemma_kinds_of(vals);
    }
    assert(vals.len() == 1);
    assert(views(args@) =~= vals.skip(0));
    assert(kind_of(vals[0]) == ArgKind::Uint);
    let serial = take_uint(&mut args);
    assert(vals =~= seq![ArgValue::Uint(serial)]);
    Ok(Request::Pong { serial })
}

fn decode_move(args: Vec<Arg>) -> (r: Result<Request, RequestError>)
    requires
        kinds_of(views(args@)) == seq![ArgKind::Object, ArgKind::Uint],
    ensures
        if request_args_valid(1, views(args@)) {
            r matches Ok(req) && request_fits(req, 1, views(args@))
        } else {
            r == Err::<Request, RequestError>(RequestError::MalformedPayload)
        },
{
    let ghost vals = views(args@);
    let mut args = args;
    proof {
        lemma_kinds_of(vals);
    }
    assert(vals.len() == 2);
    assert(views(args@) =~= vals.skip(0));
    assert(kind_of(vals[0]) == ArgKind::Object);
    let seat = take_object(&mut args);
    assert(views(args@) =~= vals.skip(1));
    assert(kind_of(vals[1]) == ArgKind::Uint);
    let serial = take_uint(&mut args);
    assert(vals =~= seq![ArgValue::Object(seat), ArgValue::Uint(serial)]);
    Ok(Request::Move { seat, serial })
}

fn decode_resize(args: Vec<Arg>) -> (r: Result<Request, RequestError>)
    requires
        kinds_of(views(args@)) == seq![ArgKind::Object, ArgKind::Uint, ArgKind::Uint],
    ensures
        if request_args_valid(2, views(args@)) {
            r matches Ok(req) && request_fits(req, 2, views(args@))
        } else {
            r == Err::<Request, RequestError>(RequestError::MalformedPayload)
        },
{
    let ghost vals = views(args@);
    let mut args = args;
    proof {
        lemma_kinds_of(vals);
    }
    assert(vals.len() == 3);
    assert(views(args@) =~= vals.skip(0));
    assert(kind_of(vals[0]) == ArgKind::Object);
    let seat = take_object(&mut args);
    assert(views(args@) =~= vals.skip(1));
    assert(kind_of(vals[1]) == ArgKind::Uint);
    let serial = take_uint(&mut args);
    assert(views(args@) =~= vals.skip(2));
    assert(kind_of(vals[2]) == ArgKind::Uint);
    let edges_word = take_uint(&mut args);
    let edges = match Resize::try_from(edges_word) {
        Ok(v) => v,
        Err(_) => {
            return Err(RequestError::MalformedPayload);
        },
    };
    proof {
        edges.lemma_wire_roundtrip(edges_word);
    }
    assert(vals =~= seq![
        ArgValue::Object(seat),
        ArgValue::Uint(serial),
        ArgValue::Uint(edges.bits),
    ]);
    Ok(Request::Resize { seat, serial, edges })
}

fn decode_set_toplevel(args: Vec<Arg>) -> (r: Result<Request, RequestError>)
    requires
        kinds_of(views(args@)) == Seq::<ArgKind>::empty(),
    ensures
        if request_args_valid(3, views(args@)) {
            r matches Ok(req) && request_fits(req, 3, views(args@))
        } else {
            r == Err::<Request, RequestError>(RequestError::MalformedPayload)
        },
{
    let ghost vals = views(args@);
    proof {
        lemma_kinds_of(vals);
    }
    assert(vals =~= Seq::<ArgValue>::empty());
    Ok(Request::SetToplevel)
}

fn decode_set_transient(args: Vec<Arg>) -> (r: Result<Request, RequestError>)
    requires
        kinds_of(views(args@)) == seq![ArgKind::Object, ArgKind::Int, ArgKind::Int, ArgKind::Uint],
    ensures
        if request_args_valid(4, views(args@)) {
            r matches Ok(req) && request_fits(req, 4, views(args@))
        } else {
            r == Err::<Request, RequestError>(RequestError::MalformedPayload)
        },
{
    let ghost vals = views(args@);
    let mut args = args;
    proof {
        lemma_kinds_of(vals);
    }
    assert(vals.len() == 4);
    assert(views(args@) =~= vals.skip(0));
    assert(kind_of(vals[0]) == ArgKind::Object);
    let parent = take_object(&mut args);
    assert(views(args@) =~= vals.skip(1));
    assert(kind_of(vals[1]) == ArgKind::Int);
    let x = take_int(&mut args);
    assert(views(args@) =~= vals.skip(2));
    assert(kind_of(vals[2]) == ArgKind::Int);
    let y = take_int(&mut args);
    assert(views(args@) =~= vals.skip(3));
    assert(kind_of(vals[3]) == ArgKind::Uint);
    let flags_word = take_uint(&mut args);
    let flags = match Transient::try_from(flags_word) {
        Ok(v) => v,
        Err(_) => {
            return Err(RequestError::MalformedPayload);
        },
    };
    proof {
        flags.lemma_wire_roundtrip(flags_word);
    }
    assert(vals =~= seq![
        ArgValue::Object(parent),
        ArgValue::Int(x),
        ArgValue::Int(y),
        ArgValue::Uint(flags.bits),
    ]);
    Ok(Request::SetTransient { parent, x, y, flags })
}

fn decode_set_fullscreen(args: Vec<Arg>) -> (r: Result<Request, RequestError>)
    requires
        kinds_of(views(args@)) == seq![ArgKind::Uint, ArgKind::Uint, ArgKind::NullableObject],
    ensures
        if request_args_valid(5, views(args@)) {
            r matches Ok(req) && request_fits(req, 5, views(args@))
        } else {
            r == Err::<Request, RequestError>(RequestError::MalformedPayload)
        },
{
    let ghost vals = views(args@);
    let mut args = args;
    proof {
        lemma_kinds_of(vals);
    }
    assert(vals.len() == 3);
    assert(views(args@) =~= vals.skip(0));
    assert(kind_of(vals[0]) == ArgKind::Uint);
    let method_word = take_uint(&mut args);
    assert(views(args@) =~= vals.skip(1));
    assert(kind_of(vals[1]) == ArgKind::Uint);
    let framerate = take_uint(&mut args);
    assert(views(args@) =~= vals.skip(2));
    assert(kind_of(vals[2]) == ArgKind::NullableObject);
    let output = take_nullable_object(&mut args);
    let method = match FullscreenMethod::try_from(method_word) {
        Ok(v) => v,
        Err(_) => {
            return Err(RequestError::MalformedPayload);
        },
    };
    proof {
        method.lemma_wire_roundtrip(method_word);
    }
    assert(vals =~= seq![
        ArgValue::Uint(method.wire_value()),
        ArgValue::Uint(framerate),
        ArgValue::NullableObject(output),
    ]);
    Ok(Request::SetFullscreen { method, framerate, output })
}

fn decode_set_popup(args: Vec<Arg>) -> (r: Result<Request, RequestError>)
    requires
        kinds_of(views(args@)) == seq![
            ArgKind::Object,
            ArgKind::Uint,
            ArgKind::Object,
            ArgKind::Int,
            ArgKind::Int,
            ArgKind::Uint,
        ],
    ensures
        if request_args_valid(6, views(args@)) {
            r matches Ok(req) && request_fits(req, 6, views(args@))
        } else {
            r == Err::<Request, RequestError>(RequestError::MalformedPayload)
        },
{
    let ghost vals = views(args@);
    let mut args = args;
    proof {
        lemma_kinds_of(vals);
    }
    assert(vals.len() == 6);
    assert(views(args@) =~= vals.skip(0));
    assert(kind_of(vals[0]) == ArgKind::Object);
    let seat = take_object(&mut args);
    assert(views(args@) =~= vals.skip(1));
    assert(kind_of(vals[1]) == ArgKind::Uint);
    let serial = take_uint(&mut args);
    assert(views(args@) =~= vals.skip(2));
    assert(kind_of(vals[2]) == ArgKind::Object);
    let parent = take_object(&mut args);
    assert(views(args@) =~= vals.skip(3));
    assert(kind_of(vals[3]) == ArgKind::Int);
    let x = take_int(&mut args);
    assert(views(args@) =~= vals.skip(4));
    assert(kind_of(vals[4]) == ArgKind::Int);
    let y = take_int(&mut args);
    assert(views(args@) =~= vals.skip(5));
    assert(kind_of(vals[5]) == ArgKind::Uint);
    let flags_word = take_uint(&mut args);
    let flags = match Transient::try_from(flags_word) {
        Ok(v) => v,
        Err(_) => {
            return Err(RequestError::MalformedPayload);
        },
    };
    proof {
        flags.lemma_wire_roundtrip(flags_word);
    }
    assert(vals =~= seq![
        ArgValue::Object(seat),
        ArgValue::Uint(serial),
        ArgValue::Object(parent),
        ArgValue::Int(x),
        ArgValue::Int(y),
        ArgValue::Uint(flags.bits),
    ]);
    Ok(Request::SetPopup { seat, serial, parent, x, y, flags })
}

fn decode_set_maximized(args: Vec<Arg>) -> (r: Result<Request, RequestError>)
    requires
        kinds_of(views(args@)) == seq![ArgKind::NullableObject],
    ensures
        if request_args_valid(7, views(args@)) {
            r matches Ok(req) && request_fits(req, 7, views(args@))
        } else {
            r == Err::<Request, RequestError>(RequestError::MalformedPayload)
        },
{
    let ghost vals = views(args@);
    let mut args = args;
    proof {
        lemma_kinds_of(vals);
    }
    assert(vals.len() == 1);
    assert(views(args@) =~= vals.skip(0));
    assert(kind_of(vals[0]) == ArgKind::NullableObject);
    let output = take_nullable_object(&mut args);
    assert(vals =~= seq![ArgValue::NullableObject(output)]);
    Ok(Request::SetMaximized { output })
}

fn decode_set_title(args: Vec<Arg>) -> (r: Result<Request, RequestError>)
    requires
        kinds_of(views(args@)) == seq![ArgKind::String],
    ensures
        if request_args_valid(8, views(args@)) {
            r matches Ok(req) && request_fits(req, 8, views(args@))
        } else {
            r == Err::<Request, RequestError>(RequestError::MalformedPayload)
        },
{
    let ghost vals = views(args@);
    let mut args = args;
    proof {
        lemma_kinds_of(vals);
    }
    assert(vals.len() == 1);
    assert(views(args@) =~= vals.skip(0));
    assert(kind_of(vals[0]) == ArgKind::String);
    let title = take_string(&mut args);
    assert(vals =~= seq![ArgValue::Str(title@)]);
    Ok(Request::SetTitle { title })
}

fn decode_set_class(args: Vec<Arg>) -> (r: Result<Request, RequestError>)
    requires
        kinds_of(views(args@)) == seq![ArgKind::String],
    ensures
        if request_args_valid(9, views(args@)) {
            r matches Ok(req) && request_fits(req, 9, views(args@))
        } else {
            r == Err::<Request, RequestError>(RequestError::MalformedPayload)
        },
{
    let ghost vals = views(args@);
    let mut args = args;
    proof {
        lemma_kinds_of(vals);
    }
    assert(vals.len() == 1);
    assert(views(args@) =~= vals.skip(0));
    assert(kind_of(vals[0]) == ArgKind::String);
    let class = take_string(&mut args);
    assert(vals =~= seq![ArgValue::Str(class@)]);
    Ok(Request::SetClass { class })
}

fn into_request(opcode: u16, args: Vec<Arg>) -> (r: Result<Request, RequestError>)
    requires
        request_signature(opcode) == Some(kinds_of(views(args@))),
    ensures
        if request_args_valid(opcode, views(args@)) {
            r matches Ok(req) && request_fits(req, opcode, views(args@))
        } else {
            r == Err::<Request, RequestError>(RequestError::MalformedPayload)
        },
{
    match opcode {
        0 => decode_pong(args),
        1 => decode_move(args),
        2 => decode_resize(args),
        3 => decode_set_toplevel(args),
        4 => decode_set_transient(args),
        5 => decode_set_fullscreen(args),
        6 => decode_set_popup(args),
        7 => decode_set_maximized(args),
        8 => decode_set_title(args),
        9 => decode_set_class(args),
        _ => {
            proof {
                assert(false);
            }
            Err(RequestError::UnknownOpcode(opcode))
        },
    }
}

/// Decodes the request a message carries for a `wl_shell_surface` object: its opcode
/// picks the request, and its payload and file descriptors give the
/// arguments, in order.
pub fn handle_request(message: &mut Message) -> (r: Result<Request, RequestError>)
    ensures
        same_header(*old(message), *final(message)),
        request_outcome(message_opcode(*old(message)), cursor_of(*old(message)), r),
{
    let opcode = opcode_of(message);
    match signature(opcode) {
        None => Err(RequestError::UnknownOpcode(opcode)),
        Some(sig) => match read_args(message, &sig) {
            None => Err(RequestError::MalformedPayload),
            Some(args) => into_request(opcode, args),
        },
    }
}

/// Ping a client to check if it is receiving events and sending
/// requests. A client is expected to reply with a pong request.
///
/// The message of this event, from the object `object`.
pub fn ping(object: u32, serial: u32) -> (m: Message)
    requires
        object != 0,
    ensures
        carries(m, object, 0, seq![ArgValue::Uint(serial)]),
        pending_fds(m) == Seq::<i32>::empty(),
{
    let args = vec![Arg::Uint(serial)];
    assert(views(args@) =~= seq![ArgValue::Uint(serial)]);
    encode_message(object, 0, &args)
}

/// The configure event asks the client to resize its surface.
///
/// The size is a hint, in the sense that the client is free to
/// ignore it if it doesn't resize, pick a smaller size (to
/// satisfy aspect ratio or resize in steps of NxM pixels).
///
/// The edges parameter provides a hint about how the surface
/// was resized. The client may use this information to decide
/// how to adjust its content to the new size (e.g. a scrolling
/// area might adjust its content position to leave the viewable
/// content unmoved).
///
/// The client is free to dismiss all but the last configure
/// event it received.
///
/// The width and height arguments specify the size of the window
/// in surface-local coordinates.
///
/// The message of this event, from the object `object`.
pub fn configure(object: u32, edges: Resize, width: i32, height: i32) -> (m: Message)
    requires
        object != 0,
    ensures
        carries(
            m,
            object,
            1,
            seq![ArgValue::Uint(edges.bits), ArgValue::Int(width), ArgValue::Int(height)],
        ),
        pending_fds(m) == Seq::<i32>::empty(),
{
    let args = vec![Arg::Uint(edges.bits()), Arg::Int(width), Arg::Int(height)];
    assert(views(args@) =~= seq![
        ArgValue::Uint(edges.bits),
        ArgValue::Int(width),
        ArgValue::Int(height),
    ]);
    encode_message(object, 1, &args)
}

/// The popup_done event is sent out when a popup grab is broken,
/// that is, when the user clicks a surface that doesn't belong
/// to the client owning the popup surface.
///
/// The message of this event, from the object `object`.
pub fn popup_done(object: u32) -> (m: Message)
    requires
        object != 0,
    ensures
        carries(m, object, 2, Seq::<ArgValue>::empty()),
        pending_fds(m) == Seq::<i32>::empty(),
{
    let args: Vec<Arg> = Vec::new();
    assert(views(args@) =~= Seq::<ArgValue>::empty());
    encode_message(object, 2, &args)
}

/// The requests of `wl_shell_surface` as the protocol defines them: the opcode of
/// each, the kinds of its arguments in order, and the field each argument
/// fills; no other opcode names a request.
pub proof fn lemma_protocol_requests()
    ensures
        request_signature(0) == Some(seq![ArgKind::Uint]),
        request_signature(1) == Some(seq![ArgKind::Object, ArgKind::Uint]),
        request_signature(2) == Some(seq![ArgKind::Object, ArgKind::Uint, ArgKind::Uint]),
        request_signature(3) == Some(Seq::<ArgKind>::empty()),
        request_signature(4) == Some(seq![
            ArgKind::Object,
            ArgKind::Int,
            ArgKind::Int,
            ArgKind::Uint,
        ]),
        request_signature(5) == Some(seq![ArgKind::Uint, ArgKind::Uint, ArgKind::NullableObject]),
        request_signature(6) == Some(seq![
            ArgKind::Object,
            ArgKind::Uint,
            ArgKind::Object,
            ArgKind::Int,
            ArgKind::Int,
            ArgKind::Uint,
        ]),
        request_signature(7) == Some(seq![ArgKind::NullableObject]),
        request_signature(8) == Some(seq![ArgKind::String]),
        request_signature(9) == Some(seq![ArgKind::String]),
        forall|opcode: u16| opcode >= 10 ==> #[trigger] request_signature(opcode) is None,
        forall|req: Request, vals: Seq<ArgValue>| #[trigger] request_fits(req, 0, vals) <==> (req matches Request::Pong { serial } && vals == seq![ArgValue::Uint(serial)]),
        forall|req: Request, vals: Seq<ArgValue>| #[trigger] request_fits(req, 1, vals) <==> (req matches Request::Move { seat, serial } && vals == seq![
            ArgValue::Object(seat),
            ArgValue::Uint(serial),
        ]),
        forall|req: Request, vals: Seq<ArgValue>| #[trigger] request_fits(req, 2, vals) <==> (req matches Request::Resize { seat, serial, edges } && vals == seq![
            ArgValue::Object(seat),
            ArgValue::Uint(serial),
            ArgValue::Uint(edges.bits),
        ]),
        forall|req: Request, vals: Seq<ArgValue>| #[trigger] request_fits(req, 3, vals) <==> (req is SetToplevel && vals == Seq::<ArgValue>::empty()),
        forall|req: Request, vals: Seq<ArgValue>| #[trigger] request_fits(req, 4, vals) <==> (req matches Request::SetTransient { parent, x, y, flags } && vals == seq![
            ArgValue::Object(parent),
            ArgValue::Int(x),
            ArgValue::Int(y),
            ArgValue::Uint(flags.bits),
        ]),
        forall|req: Request, vals: Seq<ArgValue>| #[trigger] request_fits(req, 5, vals) <==> (req matches Request::SetFullscreen { method, framerate, output } && vals == seq![
            ArgValue::Uint(method.wire_value()),
            ArgValue::Uint(framerate),
            ArgValue::NullableObject(output),
        ]),
        forall|req: Request, vals: Seq<ArgValue>| #[trigger] request_fits(req, 6, vals) <==> (req matches Request::SetPopup {
            seat,
            serial,
            parent,
            x,
            y,
            flags,
        } && vals == seq![
            ArgValue::Object(seat),
            ArgValue::Uint(serial),
            ArgValue::Object(parent),
            ArgValue::Int(x),
            ArgValue::Int(y),
            ArgValue::Uint(flags.bits),
        ]),
        forall|req: Request, vals: Seq<ArgValue>| #[trigger] request_fits(req, 7, vals) <==> (req matches Request::SetMaximized { output } && vals == seq![ArgValue::NullableObject(output)]),
        forall|req: Request, vals: Seq<ArgValue>| #[trigger] request_fits(req, 8, vals) <==> (req matches Request::SetTitle { title } && vals == seq![ArgValue::Str(title@)]),
        forall|req: Request, vals: Seq<ArgValue>| #[trigger] request_fits(req, 9, vals) <==> (req matches Request::SetClass { class } && vals == seq![ArgValue::Str(class@)]),
{
}

} // verus!
