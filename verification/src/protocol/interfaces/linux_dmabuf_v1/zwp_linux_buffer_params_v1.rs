//! This temporary object is a collection of dmabufs and other
//! parameters that together form a single logical buffer. The temporary
//! object may eventually create one wl_buffer unless cancelled by
//! destroying it before requesting 'create'.
//!
//! The `zwp_linux_buffer_params_v1` interface, version 5: decoding of its
//! requests and encoding of its events.
use crate::codec::{
    Arg, ArgKind, ArgValue, all_fit_wire, carries, encode_message, kind_of, kinds_of,
    lemma_kinds_of, read_args, spec_read_args, take_fd, take_int, take_object, take_uint, views,
};
use crate::error::DecodeError;
use crate::error::Error as RequestError;
use crate::wire::{fds_valid, Cursor, cursor_of, message_opcode, opcode_of, pending_fds, same_header};
use vstd::prelude::*;
use waynest::wire::Message;

verus! {

/// The name of the interface.
pub const INTERFACE: &'static str = "zwp_linux_buffer_params_v1";

/// The version of the interface that is implemented.
pub const VERSION: u32 = 5;

#[derive(Debug, PartialEq, Eq, PartialOrd, Ord, Hash, Clone, Copy)]
pub enum Error {
    /// The dmabuf_batch object has already been used to create a wl_buffer
    AlreadyUsed,
    /// Plane index out of bounds
    PlaneIdx,
    /// The plane index was already set
    PlaneSet,
    /// Missing or too many planes to create a buffer
    Incomplete,
    /// Format not supported
    InvalidFormat,
    /// Invalid width or height
    InvalidDimensions,
    /// Offset + stride * height goes out of dmabuf bounds
    OutOfBounds,
    /// Invalid wl_buffer resulted from importing dmabufs via
    /// The create_immed request on given buffer_params
    InvalidWlBuffer,
}

impl Error {
    /// The word that stands for this value on the wire.
    pub open spec fn wire_value(self) -> u32 {
        match self {
            Error::AlreadyUsed => 0,
            Error::PlaneIdx => 1,
            Error::PlaneSet => 2,
            Error::Incomplete => 3,
            Error::InvalidFormat => 4,
            Error::InvalidDimensions => 5,
            Error::OutOfBounds => 6,
            Error::InvalidWlBuffer => 7,
        }
    }

    /// The value a word stands for, if any.
    pub open spec fn from_wire(v: u32) -> Result<Self, DecodeError> {
        match v {
            0 => Ok(Error::AlreadyUsed),
            1 => Ok(Error::PlaneIdx),
            2 => Ok(Error::PlaneSet),
            3 => Ok(Error::Incomplete),
            4 => Ok(Error::InvalidFormat),
            5 => Ok(Error::InvalidDimensions),
            6 => Ok(Error::OutOfBounds),
            7 => Ok(Error::InvalidWlBuffer),
            _ => Err(DecodeError::MalformedPayload),
        }
    }

    /// The word that stands for this value on the wire.
    pub fn to_wire(self) -> (r: u32)
        ensures
            r == self.wire_value(),
    {
        match self {
            Error::AlreadyUsed => 0,
            Error::PlaneIdx => 1,
            Error::PlaneSet => 2,
            Error::Incomplete => 3,
            Error::InvalidFormat => 4,
            Error::InvalidDimensions => 5,
            Error::OutOfBounds => 6,
            Error::InvalidWlBuffer => 7,
        }
    }

    /// A value read back from its word is that value, and a word that reads
    /// as a value is that value's word.
    pub proof fn lemma_wire_roundtrip(self, v: u32)
        ensures
            Self::from_wire(self.wire_value()) == Ok::<Self, DecodeError>(self),
            Self::from_wire(v) matches Ok(e) ==> e.wire_value() == v,
    {
    }

    /// The words the protocol gives the values of this enumeration.
    pub proof fn lemma_protocol_values()
        ensures
            Error::AlreadyUsed.wire_value() == 0,
            Error::PlaneIdx.wire_value() == 1,
            Error::PlaneSet.wire_value() == 2,
            Error::Incomplete.wire_value() == 3,
            Error::InvalidFormat.wire_value() == 4,
            Error::InvalidDimensions.wire_value() == 5,
            Error::OutOfBounds.wire_value() == 6,
            Error::InvalidWlBuffer.wire_value() == 7,
            Self::from_wire(0) == Ok::<Self, DecodeError>(Error::AlreadyUsed),
            Self::from_wire(1) == Ok::<Self, DecodeError>(Error::PlaneIdx),
            Self::from_wire(2) == Ok::<Self, DecodeError>(Error::PlaneSet),
            Self::from_wire(3) == Ok::<Self, DecodeError>(Error::Incomplete),
            Self::from_wire(4) == Ok::<Self, DecodeError>(Error::InvalidFormat),
            Self::from_wire(5) == Ok::<Self, DecodeError>(Error::InvalidDimensions),
            Self::from_wire(6) == Ok::<Self, DecodeError>(Error::OutOfBounds),
            Self::from_wire(7) == Ok::<Self, DecodeError>(Error::InvalidWlBuffer),
    {
    }
}

impl TryFrom<u32> for Error {
    type Error = DecodeError;

    fn try_from(v: u32) -> (r: Result<Self, DecodeError>) {
        match v {
            0 => Ok(Error::AlreadyUsed),
            1 => Ok(Error::PlaneIdx),
            2 => Ok(Error::PlaneSet),
            3 => Ok(Error::Incomplete),
            4 => Ok(Error::InvalidFormat),
            5 => Ok(Error::InvalidDimensions),
            6 => Ok(Error::OutOfBounds),
            7 => Ok(Error::InvalidWlBuffer),
            _ => Err(DecodeError::MalformedPayload),
        }
    }
}

impl vstd::std_specs::convert::TryFromSpecImpl<u32> for Error {
    open spec fn obeys_try_from_spec() -> bool {
        true
    }

    open spec fn try_from_spec(v: u32) -> Result<Self, DecodeError> {
        Self::from_wire(v)
    }
}

///
/// Known bits: YInvert = 1, Interlaced = 2, BottomFirst = 4.
#[derive(Debug, PartialEq, Eq, PartialOrd, Ord, Hash, Clone, Copy)]
pub struct Flags {
    pub bits: u32,
}

impl Flags {
    /// The union of all known bits.
    pub open spec fn all_bits() -> u32 {
        0x7
    }

    /// The set a word stands for, if it holds only known bits.
    pub open spec fn from_wire(v: u32) -> Result<Self, DecodeError> {
        if v & !Self::all_bits() == 0 {
            Ok(Flags { bits: v })
        } else {
            Err(DecodeError::MalformedPayload)
        }
    }

    /// The set a word stands for, if it holds only known bits.
    pub fn from_bits(v: u32) -> (r: Option<Self>)
        ensures
            r == match Self::from_wire(v) {
                Ok(f) => Some(f),
                Err(_) => None::<Self>,
            },
    {
        if v & !0x7u32 == 0 {
            Some(Flags { bits: v })
        } else {
            None
        }
    }

    /// The word of the set.
    pub fn bits(&self) -> (r: u32)
        ensures
            r == self.bits,
    {
        self.bits
    }

    /// A set of known bits reads back from its word, and a word that reads as
    /// a set is that set's word.
    pub proof fn lemma_wire_roundtrip(self, v: u32)
        ensures
            self.bits & !Self::all_bits() == 0 ==> Self::from_wire(self.bits) == Ok::<
                Self,
                DecodeError,
            >(self),
            Self::from_wire(v) matches Ok(e) ==> e.bits == v,
    {
    }

    /// The bits the protocol defines for this set: YInvert = 1, Interlaced = 2, BottomFirst = 4.
    /// A word is a set exactly when it holds no other bit.
    pub proof fn lemma_protocol_values(v: u32)
        ensures
            Self::all_bits() == 0x7,
            Self::from_wire(v) is Ok <==> v & !0x7u32 == 0,
            Self::from_wire(v) matches Ok(f) ==> f.bits == v,
    {
    }
}

impl TryFrom<u32> for Flags {
    type Error = DecodeError;

    fn try_from(v: u32) -> (r: Result<Self, DecodeError>) {
        match Self::from_bits(v) {
            Some(f) => Ok(f),
            None => Err(DecodeError::MalformedPayload),
        }
    }
}

impl vstd::std_specs::convert::TryFromSpecImpl<u32> for Flags {
    open spec fn obeys_try_from_spec() -> bool {
        true
    }

    open spec fn try_from_spec(v: u32) -> Result<Self, DecodeError> {
        Self::from_wire(v)
    }
}

/// A request of `zwp_linux_buffer_params_v1`, decoded from the wire.
#[derive(Debug)]
pub enum Request {
    /// Cleans up the temporary data sent to the server for dmabuf-based
    /// wl_buffer creation.
    Destroy,
    /// This request adds one dmabuf to the set in this
    /// zwp_linux_buffer_params_v1.
    Add {
        fd: i32,
        plane_idx: u32,
        offset: u32,
        stride: u32,
        modifier_hi: u32,
        modifier_lo: u32,
    },
    /// This asks for creation of a wl_buffer from the added dmabuf
    /// buffers. The wl_buffer is not created immediately but returned via
    /// the 'created' event if the dmabuf sharing succeeds. The sharing
    /// may fail at runtime for reasons a client cannot predict, in
    /// which case the 'failed' event is triggered.
    Create {
        width: i32,
        height: i32,
        format: u32,
        flags: Flags,
    },
    /// This asks for immediate creation of a wl_buffer by importing the
    /// added dmabufs.
    CreateImmed {
        buffer_id: u32,
        width: i32,
        height: i32,
        format: u32,
        flags: Flags,
    },
}

/// The kinds of the arguments of the request with opcode `opcode`.
pub open spec fn request_signature(opcode: u16) -> Option<Seq<ArgKind>> {
    match opcode {
        0 => Some(Seq::<ArgKind>::empty()),
        1 => Some(seq![
            ArgKind::Fd,
            ArgKind::Uint,
            ArgKind::Uint,
            ArgKind::Uint,
            ArgKind::Uint,
            ArgKind::Uint,
        ]),
        2 => Some(seq![ArgKind::Int, ArgKind::Int, ArgKind::Uint, ArgKind::Uint]),
        3 => Some(seq![ArgKind::Object, ArgKind::Int, ArgKind::Int, ArgKind::Uint, ArgKind::Uint]),
        _ => None,
    }
}

/// Whether decoded arguments hold, where the request takes an enumeration or
/// a bit set, a word that stands for one.
pub open spec fn request_args_valid(opcode: u16, vals: Seq<ArgValue>) -> bool {
    match opcode {
        2 => Flags::from_wire(vals[3]->Uint_0) is Ok,
        3 => Flags::from_wire(vals[4]->Uint_0) is Ok,
        _ => true,
    }
}

/// Whether `req` is the request with opcode `opcode` and arguments `vals`.
pub open spec fn request_fits(req: Request, opcode: u16, vals: Seq<ArgValue>) -> bool {
    match req {
        Request::Destroy => {
            &&& opcode == 0
            &&& vals == Seq::<ArgValue>::empty()
        },
        Request::Add { fd, plane_idx, offset, stride, modifier_hi, modifier_lo } => {
            &&& opcode == 1
            &&& vals == seq![
                ArgValue::Fd(fd),
                ArgValue::Uint(plane_idx),
                ArgValue::Uint(offset),
                ArgValue::Uint(stride),
                ArgValue::Uint(modifier_hi),
                ArgValue::Uint(modifier_lo),
            ]
        },
        Request::Create { width, height, format, flags } => {
            &&& opcode == 2
            &&& vals == seq![
                ArgValue::Int(width),
                ArgValue::Int(height),
                ArgValue::Uint(format),
                ArgValue::Uint(flags.bits),
            ]
        },
        Request::CreateImmed { buffer_id, width, height, format, flags } => {
            &&& opcode == 3
            &&& vals == seq![
                ArgValue::Object(buffer_id),
                ArgValue::Int(width),
                ArgValue::Int(height),
                ArgValue::Uint(format),
                ArgValue::Uint(flags.bits),
            ]
        },
    }
}

/// What decoding a request with opcode `opcode` from the payload and file
/// descriptors of `c` gives.
pub open spec fn request_outcome(opcode: u16, c: Cursor, r: Result<Request, RequestError>) -> bool {
    match request_signature(opcode) {
        None => r == Err::<Request, RequestError>(RequestError::UnknownOpcode(opcode)),
        Some(sig) => match spec_read_args(sig, c) {
            None => r == Err::<Request, RequestError>(RequestError::MalformedPayload),
            Some((vals, _)) => if request_args_valid(opcode, vals) {
                r matches Ok(req) && request_fits(req, opcode, vals)
            } else {
                r == Err::<Request, RequestError>(RequestError::MalformedPayload)
            },
        },
    }
}

/// A message that carries, for an object of `zwp_linux_buffer_params_v1`, arguments `vals` of
/// the kinds the request with opcode `opcode` takes decodes to that request
/// with those arguments, where they fit the wire and name known values of
/// its enumerations; where they name unknown values, it is refused as
/// malformed.
pub proof fn lemma_request_roundtrip(
    m: Message,
    object: u32,
    opcode: u16,
    vals: Seq<ArgValue>,
    r: Result<Request, RequestError>,
)
    requires
        request_signature(opcode) == Some(kinds_of(vals)),
        carries(m, object, opcode, vals),
        all_fit_wire(vals),
        request_outcome(message_opcode(m), cursor_of(m), r),
    ensures
        request_args_valid(opcode, vals) ==> (r matches Ok(req) && request_fits(req, opcode, vals)),
        !request_args_valid(opcode, vals) ==> r == Err::<Request, RequestError>(
            RequestError::MalformedPayload,
        ),
{
}

fn signature(opcode: u16) -> (r: Option<Vec<ArgKind>>)
    ensures
        match request_signature(opcode) {
            None => r is None,
            Some(sig) => r matches Some(v) && v@ == sig,
        },
{
    match opcode {
        0 => Some(Vec::new()),
        1 => Some(vec![
            ArgKind::Fd,
            ArgKind::Uint,
            ArgKind::Uint,
            ArgKind::Uint,
            ArgKind::Uint,
            ArgKind::Uint,
        ]),
        2 => Some(vec![ArgKind::Int, ArgKind::Int, ArgKind::Uint, ArgKind::Uint]),
        3 => Some(vec![ArgKind::Object, ArgKind::Int, ArgKind::Int, ArgKind::Uint, ArgKind::Uint]),
        _ => None,
    }
}

fn decode_destroy(args: Vec<Arg>) -> (r: Result<Request, RequestError>)
    requires
        kinds_of(views(args@)) == Seq::<ArgKind>::empty(),
    ensures
        if request_args_valid(0, views(args@)) {
            r matches Ok(req) && request_fits(req, 0, views(args@))
        } else {
            r == Err::<Request, RequestError>(RequestError::MalformedPayload)
        },
{
    let ghost vals = views(args@);
    proof {
        lemma_kinds_of(vals);
    }
    assert(vals =~= Seq::<ArgValue>::empty());
    Ok(Request::Destroy)
}

fn decode_add(args: Vec<Arg>) -> (r: Result<Request, RequestError>)
    requires
        kinds_of(views(args@)) == seq![
            ArgKind::Fd,
            ArgKind::Uint,
            ArgKind::Uint,
            ArgKind::Uint,
            ArgKind::Uint,
            ArgKind::Uint,
        ],
    ensures
        if request_args_valid(1, views(args@)) {
            r matches Ok(req) && request_fits(req, 1, views(args@))
        } else {
            r == Err::<Request, RequestError>(RequestError::MalformedPayload)
        },
{
    let ghost vals = views(args@);
    let mut args = args;
    proof {
        lemma_kinds_of(vals);
    }
    assert(vals.len() == 6);
    assert(views(args@) =~= vals.skip(0));
    assert(kind_of(vals[0]) == ArgKind::Fd);
    let fd = take_fd(&mut args);
    assert(views(args@) =~= vals.skip(1));
    assert(kind_of(vals[1]) == ArgKind::Uint);
    let plane_idx = take_uint(&mut args);
    assert(views(args@) =~= vals.skip(2));
    assert(kind_of(vals[2]) == ArgKind::Uint);
    let offset = take_uint(&mut args);
    assert(views(args@) =~= vals.skip(3));
    assert(kind_of(vals[3]) == ArgKind::Uint);
    let stride = take_uint(&mut args);
    assert(views(args@) =~= vals.skip(4));
    assert(kind_of(vals[4]) == ArgKind::Uint);
    let modifier_hi = take_uint(&mut args);
    assert(views(args@) =~= vals.skip(5));
    assert(kind_of(vals[5]) == ArgKind::Uint);
    let modifier_lo = take_uint(&mut args);
    assert(vals =~= seq![
        ArgValue::Fd(fd),
        ArgValue::Uint(plane_idx),
        ArgValue::Uint(offset),
        ArgValue::Uint(stride),
        ArgValue::Uint(modifier_hi),
        ArgValue::Uint(modifier_lo),
    ]);
    Ok(Request::Add { fd, plane_idx, offset, stride, modifier_hi, modifier_lo })
}

fn decode_create(args: Vec<Arg>) -> (r: Result<Request, RequestError>)
    requires
        kinds_of(views(args@)) == seq![ArgKind::Int, ArgKind::Int, ArgKind::Uint, ArgKind::Uint],
    ensures
        if request_args_valid(2, views(args@)) {
            r matches Ok(req) && request_fits(req, 2, views(args@))
        } else {
            r == Err::<Request, RequestError>(RequestError::MalformedPayload)
        },
{
    let ghost vals = views(args@);
    let mut args = args;
    proof {
        lemma_kinds_of(vals);
    }
    assert(vals.len() == 4);
    assert(views(args@) =~= vals.skip(0));
    assert(kind_of(vals[0]) == ArgKind::Int);
    let width = take_int(&mut args);
    assert(views(args@) =~= vals.skip(1));
    assert(kind_of(vals[1]) == ArgKind::Int);
    let height = take_int(&mut args);
    assert(views(args@) =~= vals.skip(2));
    assert(kind_of(vals[2]) == ArgKind::Uint);
    let format = take_uint(&mut args);
    assert(views(args@) =~= vals.skip(3));
    assert(kind_of(vals[3]) == ArgKind::Uint);
    let flags_word = take_uint(&mut args);
    let flags = match Flags::try_from(flags_word) {
        Ok(v) => v,
        Err(_) => {
            return Err(RequestError::MalformedPayload);
        },
    };
    proof {
        flags.lemma_wire_roundtrip(flags_word);
    }
    assert(vals =~= seq![
        ArgValue::Int(width),
        ArgValue::Int(height),
        ArgValue::Uint(format),
        ArgValue::Uint(flags.bits),
    ]);
    Ok(Request::Create { width, height, format, flags })
}

fn decode_create_immed(args: Vec<Arg>) -> (r: Result<Request, RequestError>)
    requires
        kinds_of(views(args@)) == seq![
            ArgKind::Object,
            ArgKind::Int,
            ArgKind::Int,
            ArgKind::Uint,
            ArgKind::Uint,
        ],
    ensures
        if request_args_valid(3, views(args@)) {
            r matches Ok(req) && request_fits(req, 3, views(args@))
        } else {
            r == Err::<Request, RequestError>(RequestError::MalformedPayload)
        },
{
    let ghost vals = views(args@);
    let mut args = args;
    proof {
        lemma_kinds_of(vals);
    }
    assert(vals.len() == 5);
    assert(views(args@) =~= vals.skip(0));
    assert(kind_of(vals[0]) == ArgKind::Object);
    let buffer_id = take_object(&mut args);
    assert(views(args@) =~= vals.skip(1));
    assert(kind_of(vals[1]) == ArgKind::Int);
    let width = take_int(&mut args);
    assert(views(args@) =~= vals.skip(2));
    assert(kind_of(vals[2]) == ArgKind::Int);
    let height = take_int(&mut args);
    assert(views(args@) =~= vals.skip(3));
    assert(kind_of(vals[3]) == ArgKind::Uint);
    let format = take_uint(&mut args);
    assert(views(args@) =~= vals.skip(4));
    assert(kind_of(vals[4]) == ArgKind::Uint);
    let flags_word = take_uint(&mut args);
    let flags = match Flags::try_from(flags_word) {
        Ok(v) => v,
        Err(_) => {
            return Err(RequestError::MalformedPayload);
        },
    };
    proof {
        flags.lemma_wire_roundtrip(flags_word);
    }
    assert(vals =~= seq![
        ArgValue::Object(buffer_id),
        ArgValue::Int(width),
        ArgValue::Int(height),
        ArgValue::Uint(format),
        ArgValue::Uint(flags.bits),
    ]);
    Ok(Request::CreateImmed { buffer_id, width, height, format, flags })
}

fn into_request(opcode: u16, args: Vec<Arg>) -> (r: Result<Request, RequestError>)
    requires
        request_signature(opcode) == Some(kinds_of(views(args@))),
    ensures
        if request_args_valid(opcode, views(args@)) {
            r matches Ok(req) && request_fits(req, opcode, views(args@))
        } else {
            r == Err::<Request, RequestError>(RequestError::MalformedPayload)
        },
{
    match opcode {
        0 => decode_destroy(args),
        1 => decode_add(args),
        2 => decode_create(args),
        3 => decode_create_immed(args),
        _ => {
            proof {
                assert(false);
            }
            Err(RequestError::UnknownOpcode(opcode))
        },
    }
}

/// Decodes the request a message carries for a `zwp_linux_buffer_params_v1` object: its opcode
/// picks the request, and its payload and file descriptors give the
/// arguments, in order.
///
/// A request that takes a file descriptor hands it to `OwnedFd`, so the
/// descriptors the message carries may not be -1.
pub fn handle_request(message: &mut Message) -> (r: Result<Request, RequestError>)
    requires
        (request_signature(message_opcode(*old(message))) matches Some(sig) && sig.contains(
            ArgKind::Fd,
        )) ==> fds_valid(pending_fds(*old(message))),
    ensures
        same_header(*old(message), *final(message)),
        request_outcome(message_opcode(*old(message)), cursor_of(*old(message)), r),
{
    let opcode = opcode_of(message);
    match signature(opcode) {
        None => Err(RequestError::UnknownOpcode(opcode)),
        Some(sig) => match read_args(message, &sig) {
            None => Err(RequestError::MalformedPayload),
            Some(args) => into_request(opcode, args),
        },
    }
}

/// This event indicates that the attempted buffer creation was
/// successful. It provides the new wl_buffer referencing the dmabuf(s).
///
/// Upon receiving this event, the client should destroy the
/// zwp_linux_buffer_params_v1 object.
///
/// The message of this event, from the object `object`.
pub fn created(object: u32, buffer: u32) -> (m: Message)
    requires
        object != 0,
        buffer != 0,
    ensures
        carries(m, object, 0, seq![ArgValue::Object(buffer)]),
        pending_fds(m) == Seq::<i32>::empty(),
{
    let args = vec![Arg::Object(buffer)];
    assert(views(args@) =~= seq![ArgValue::Object(buffer)]);
    encode_message(object, 0, &args)
}

/// This event indicates that the attempted buffer creation has
/// failed. It usually means that one of the dmabuf constraints
/// has not been fulfilled.
///
/// Upon receiving this event, the client should destroy the
/// zwp_linux_buffer_params_v1 object.
///
/// The message of this event, from the object `object`.
pub fn failed(object: u32) -> (m: Message)
    requires
        object != 0,
    ensures
        carries(m, object, 1, Seq::<ArgValue>::empty()),
        pending_fds(m) == Seq::<i32>::empty(),
{
    let args: Vec<Arg> = Vec::new();
    assert(views(args@) =~= Seq::<ArgValue>::empty());
    encode_message(object, 1, &args)
}

/// The requests of `zwp_linux_buffer_params_v1` as the protocol defines them: the opcode of
/// each, the kinds of its arguments in order, and the field each argument
/// fills; no other opcode names a request.
pub proof fn lemma_protocol_requests()
    ensures
        request_signature(0) == Some(Seq::<ArgKind>::empty()),
        request_signature(1) == Some(seq![
            ArgKind::Fd,
            ArgKind::Uint,
            ArgKind::Uint,
            ArgKind::Uint,
            ArgKind::Uint,
            ArgKind::Uint,
        ]),
        request_signature(2) == Some(seq![
            ArgKind::Int,
            ArgKind::Int,
            ArgKind::Uint,
            ArgKind::Uint,
        ]),
        request_signature(3) == Some(seq![
            ArgKind::Object,
            ArgKind::Int,
            ArgKind::Int,
            ArgKind::Uint,
            ArgKind::Uint,
        ]),
        forall|opcode: u16| opcode >= 4 ==> #[trigger] request_signature(opcode) is None,
        forall|req: Request, vals: Seq<ArgValue>| #[trigger] request_fits(req, 0, vals) <==> (req is Destroy && vals == Seq::<ArgValue>::empty()),
        forall|req: Request, vals: Seq<ArgValue>| #[trigger] request_fits(req, 1, vals) <==> (req matches Request::Add {
            fd,
            plane_idx,
            offset,
            stride,
            modifier_hi,
            modifier_lo,
        } && vals == seq![
            ArgValue::Fd(fd),
            ArgValue::Uint(plane_idx),
            ArgValue::Uint(offset),
            ArgValue::Uint(stride),
            ArgValue::Uint(modifier_hi),
            ArgValue::Uint(modifier_lo),
        ]),
        forall|req: Request, vals: Seq<ArgValue>| #[trigger] request_fits(req, 2, vals) <==> (req matches Request::Create {
            width,
            height,
            format,
            flags,
        } && vals == seq![
            ArgValue::Int(width),
            ArgValue::Int(height),
            ArgValue::Uint(format),
            ArgValue::Uint(flags.bits),
        ]),
        forall|req: Request, vals: Seq<ArgValue>| #[trigger] request_fits(req, 3, vals) <==> (req matches Request::CreateImmed {
            buffer_id,
            width,
            height,
            format,
            flags,
        } && vals == seq![
            ArgValue::Object(buffer_id),
            ArgValue::Int(width),
            ArgValue::Int(height),
            ArgValue::Uint(format),
            ArgValue::Uint(flags.bits),
        ]),
{
}

} // verus!
