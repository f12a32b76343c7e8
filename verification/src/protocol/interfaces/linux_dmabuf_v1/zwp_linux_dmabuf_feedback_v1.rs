//! This object advertises dmabuf parameters feedback. This includes the
//! preferred devices and the supported formats/modifiers.
//!
//! The `zwp_linux_dmabuf_feedback_v1` interface, version 5: decoding of its
//! requests and encoding of its events.
use crate::codec::{
    Arg, ArgKind, ArgValue, all_fit_wire, carries, cursor_from, encode_message, encode_payload,
    kinds_of, lemma_kinds_of, read_args, spec_read_args, views,
};
use crate::error::DecodeError;
use crate::error::Error as RequestError;
use crate::wire::{
    Cursor, built_payload, cursor_of, finish, message_opcode, opcode_of, pending_fds, put_fd,
    raw_fd_number, same_header,
};
use rustix::fd::OwnedFd;
use vstd::prelude::*;
use waynest::wire::Message;

verus! {

/// The name of the interface.
pub const INTERFACE: &'static str = "zwp_linux_dmabuf_feedback_v1";

/// The version of the interface that is implemented.
pub const VERSION: u32 = 5;

///
/// Known bits: Scanout = 1.
#[derive(Debug, PartialEq, Eq, PartialOrd, Ord, Hash, Clone, Copy)]
pub struct TrancheFlags {
    pub bits: u32,
}

impl TrancheFlags {
    /// The union of all known bits.
    pub open spec fn all_bits() -> u32 {
        0x1
    }

    /// The set a word stands for, if it holds only known bits.
    pub open spec fn from_wire(v: u32) -> Result<Self, DecodeError> {
        if v & !Self::all_bits() == 0 {
            Ok(TrancheFlags { bits: v })
        } else {
            Err(DecodeError::MalformedPayload)
        }
    }

    /// The set a word stands for, if it holds only known bits.
    pub fn from_bits(v: u32) -> (r: Option<Self>)
        ensures
            r == match Self::from_wire(v) {
                Ok(f) => Some(f),
                Err(_) => None::<Self>,
            },
    {
        if v & !0x1u32 == 0 {
            Some(TrancheFlags { bits: v })
        } else {
            None
        }
    }

    /// The word of the set.
    pub fn bits(&self) -> (r: u32)
        ensures
            r == self.bits,
    {
        self.bits
    }

    /// A set of known bits reads back from its word, and a word that reads as
    /// a set is that set's word.
    pub proof fn lemma_wire_roundtrip(self, v: u32)
        ensures
            self.bits & !Self::all_bits() == 0 ==> Self::from_wire(self.bits) == Ok::<
                Self,
                DecodeError,
            >(self),
            Self::from_wire(v) matches Ok(e) ==> e.bits == v,
    {
    }

    /// The bits the protocol defines for this set: Scanout = 1.
    /// A word is a set exactly when it holds no other bit.
    pub proof fn lemma_protocol_values(v: u32)
        ensures
            Self::all_bits() == 0x1,
            Self::from_wire(v) is Ok <==> v & !0x1u32 == 0,
            Self::from_wire(v) matches Ok(f) ==> f.bits == v,
    {
    }
}

impl TryFrom<u32> for TrancheFlags {
    type Error = DecodeError;

    fn try_from(v: u32) -> (r: Result<Self, DecodeError>) {
        match Self::from_bits(v) {
            Some(f) => Ok(f),
            None => Err(DecodeError::MalformedPayload),
        }
    }
}

impl vstd::std_specs::convert::TryFromSpecImpl<u32> for TrancheFlags {
    open spec fn obeys_try_from_spec() -> bool {
        true
    }

    open spec fn try_from_spec(v: u32) -> Result<Self, DecodeError> {
        Self::from_wire(v)
    }
}

/// A request of `zwp_linux_dmabuf_feedback_v1`, decoded from the wire.
#[derive(Debug)]
pub enum Request {
    /// Using this request a client can tell the server that it is not going to
    /// use the wp_linux_dmabuf_feedback object anymore.
    Destroy,
}

/// The kinds of the arguments of the request with opcode `opcode`.
pub open spec fn request_signature(opcode: u16) -> Option<Seq<ArgKind>> {
    match opcode {
        0 => Some(Seq::<ArgKind>::empty()),
        _ => None,
    }
}

/// Whether decoded arguments hold, where the request takes an enumeration or
/// a bit set, a word that stands for one.
pub open spec fn request_args_valid(opcode: u16, vals: Seq<ArgValue>) -> bool {
    true
}

/// Whether `req` is the request with opcode `opcode` and arguments `vals`.
pub open spec fn request_fits(req: Request, opcode: u16, vals: Seq<ArgValue>) -> bool {
    match req {
        Request::Destroy => {
            &&& opcode == 0
            &&& vals == Seq::<ArgValue>::empty()
        },
    }
}

/// What decoding a request with opcode `opcode` from the payload and file
/// descriptors of `c` gives.
pub open spec fn request_outcome(opcode: u16, c: Cursor, r: Result<Request, RequestError>) -> bool {
    match request_signature(opcode) {
        None => r == Err::<Request, RequestError>(RequestError::UnknownOpcode(opcode)),
        Some(sig) => match spec_read_args(sig, c) {
            None => r == Err::<Request, RequestError>(RequestError::MalformedPayload),
            Some((vals, _)) => if request_args_valid(opcode, vals) {
                r matches Ok(req) && request_fits(req, opcode, vals)
            } else {
                r == Err::<Request, RequestError>(RequestError::MalformedPayload)
            },
        },
    }
}

/// A message that carries, for an object of `zwp_linux_dmabuf_feedback_v1`, arguments `vals` of
/// the kinds the request with opcode `opcode` takes decodes to that request
/// with those arguments, where they fit the wire and name known values of
/// its enumerations; where they name unknown values, it is refused as
/// malformed.
pub proof fn lemma_request_roundtrip(
    m: Message,
    object: u32,
    opcode: u16,
    vals: Seq<ArgValue>,
    r: Result<Request, RequestError>,
)
    requires
        request_signature(opcode) == Some(kinds_of(vals)),
        carries(m, object, opcode, vals),
        all_fit_wire(vals),
        request_outcome(message_opcode(m), cursor_of(m), r),
    ensures
        request_args_valid(opcode, vals) ==> (r matches Ok(req) && request_fits(req, opcode, vals)),
        !request_args_valid(opcode, vals) ==> r == Err::<Request, RequestError>(
            RequestError::MalformedPayload,
        ),
{
}

fn signature(opcode: u16) -> (r: Option<Vec<ArgKind>>)
    ensures
        match request_signature(opcode) {
            None => r is None,
            Some(sig) => r matches Some(v) && v@ == sig,
        },
{
    match opcode {
        0 => Some(Vec::new()),
        _ => None,
    }
}

fn decode_destroy(args: Vec<Arg>) -> (r: Result<Request, RequestError>)
    requires
        kinds_of(views(args@)) == Seq::<ArgKind>::empty(),
    ensures
        if request_args_valid(0, views(args@)) {
            r matches Ok(req) && request_fits(req, 0, views(args@))
        } else {
            r == Err::<Request, RequestError>(RequestError::MalformedPayload)
        },
{
    let ghost vals = views(args@);
    proof {
        lemma_kinds_of(vals);
    }
    assert(vals =~= Seq::<ArgValue>::empty());
    Ok(Request::Destroy)
}

fn into_request(opcode: u16, args: Vec<Arg>) -> (r: Result<Request, RequestError>)
    requires
        request_signature(opcode) == Some(kinds_of(views(args@))),
    ensures
        if request_args_valid(opcode, views(args@)) {
            r matches Ok(req) && request_fits(req, opcode, views(args@))
        } else {
            r == Err::<Request, RequestError>(RequestError::MalformedPayload)
        },
{
    match opcode {
        0 => decode_destroy(args),
        _ => {
            proof {
                assert(false);
            }
            Err(RequestError::UnknownOpcode(opcode))
        },
    }
}

/// Decodes the request a message carries for a `zwp_linux_dmabuf_feedback_v1` object: its opcode
/// picks the request, and its payload and file descriptors give the
/// arguments, in order.
pub fn handle_request(message: &mut Message) -> (r: Result<Request, RequestError>)
    ensures
        same_header(*old(message), *final(message)),
        request_outcome(message_opcode(*old(message)), cursor_of(*old(message)), r),
{
    let opcode = opcode_of(message);
    match signature(opcode) {
        None => Err(RequestError::UnknownOpcode(opcode)),
        Some(sig) => match read_args(message, &sig) {
            None => Err(RequestError::MalformedPayload),
            Some(args) => into_request(opcode, args),
        },
    }
}

/// This event is sent after all parameters of a wp_linux_dmabuf_feedback
/// object have been sent.
///
/// This allows changes to the wp_linux_dmabuf_feedback parameters to be
/// seen as atomic, even if they happen via multiple events.
///
/// The message of this event, from the object `object`.
pub fn done(object: u32) -> (m: Message)
    requires
        object != 0,
    ensures
        carries(m, object, 0, Seq::<ArgValue>::empty()),
        pending_fds(m) == Seq::<i32>::empty(),
{
    let args: Vec<Arg> = Vec::new();
    assert(views(args@) =~= Seq::<ArgValue>::empty());
    encode_message(object, 0, &args)
}

/// This event provides a file descriptor which can be memory-mapped to
/// access the format and modifier table.
///
/// The table contains a tightly packed array of consecutive format +
/// modifier pairs. Each pair is 16 bytes wide. It contains a format as a
/// 32-bit unsigned integer, followed by 4 bytes of unused padding, and a
/// modifier as a 64-bit unsigned integer. The native endianness is used.
///
/// The client must map the file descriptor in read-only private mode.
///
/// Compositors are not allowed to mutate the table file contents once this
/// event has been sent. Instead, compositors must create a new, separate
/// table file and re-send feedback parameters. Compositors are allowed to
/// store duplicate format + modifier pairs in the table.
///
/// The message of this event, from the object `object`.
pub fn format_table(object: u32, fd: OwnedFd, size: u32) -> (m: Message)
    requires
        object != 0,
    ensures
        carries(m, object, 1, seq![ArgValue::Uint(size)]),
        pending_fds(m) == seq![raw_fd_number(fd)],
{
    let args = vec![Arg::Uint(size)];
    assert(views(args@) =~= seq![ArgValue::Uint(size)]);
    let payload = encode_payload(&args);
    let ghost bytes = built_payload(payload);
    let payload = put_fd(payload, fd);
    let m = finish(payload, object, 1);
    assert(cursor_of(m) == cursor_from(bytes, pending_fds(m)));
    m
}

/// This event advertises the main device that the server prefers to use
/// when direct scan-out to the target device isn't possible. The
/// advertised main device may be different for each
/// wp_linux_dmabuf_feedback object, and may change over time.
///
/// There is exactly one main device. The compositor must send at least
/// one preference tranche with tranche_target_device equal to main_device.
///
/// Clients need to create buffers that the main device can import and
/// read from, otherwise creating the dmabuf wl_buffer will fail (see the
/// wp_linux_buffer_params.create and create_immed requests for details).
/// The main device will also likely be kept active by the compositor,
/// so clients can use it instead of waking up another device for power
/// savings.
///
/// In general the device is a DRM node. The DRM node type (primary vs.
/// render) is unspecified. Clients must not rely on the compositor sending
/// a particular node type. Clients cannot check two devices for equality
/// by comparing the dev_t value.
///
/// If explicit modifiers are not supported and the client performs buffer
/// allocations on a different device than the main device, then the client
/// must force the buffer to have a linear layout.
///
/// The message of this event, from the object `object`.
pub fn main_device(object: u32, device: Vec<u8>) -> (m: Message)
    requires
        object != 0,
    ensures
        carries(m, object, 2, seq![ArgValue::Array(device@)]),
        pending_fds(m) == Seq::<i32>::empty(),
{
    let args = vec![Arg::Array(device)];
    assert(views(args@) =~= seq![ArgValue::Array(device@)]);
    encode_message(object, 2, &args)
}

/// This event splits tranche_target_device and tranche_formats events in
/// preference tranches. It is sent after a set of tranche_target_device
/// and tranche_formats events; it represents the end of a tranche. The
/// next tranche will have a lower preference.
///
/// The message of this event, from the object `object`.
pub fn tranche_done(object: u32) -> (m: Message)
    requires
        object != 0,
    ensures
        carries(m, object, 3, Seq::<ArgValue>::empty()),
        pending_fds(m) == Seq::<i32>::empty(),
{
    let args: Vec<Arg> = Vec::new();
    assert(views(args@) =~= Seq::<ArgValue>::empty());
    encode_message(object, 3, &args)
}

/// This event advertises the target device that the server prefers to use
/// for a buffer created given this tranche. The advertised target device
/// may be different for each preference tranche, and may change over time.
///
/// There is exactly one target device per tranche.
///
/// The target device may be a scan-out device, for example if the
/// compositor prefers to directly scan-out a buffer created given this
/// tranche. The target device may be a rendering device, for example if
/// the compositor prefers to texture from said buffer.
///
/// The client can use this hint to allocate the buffer in a way that makes
/// it accessible from the target device, ideally directly. The buffer must
/// still be accessible from the main device, either through direct import
/// or through a potentially more expensive fallback path. If the buffer
/// can't be directly imported from the main device then clients must be
/// prepared for the compositor changing the tranche priority or making
/// wl_buffer creation fail (see the wp_linux_buffer_params.create and
/// create_immed requests for details).
///
/// If the device is a DRM node, the DRM node type (primary vs. render) is
/// unspecified. Clients must not rely on the compositor sending a
/// particular node type. Clients cannot check two devices for equality by
/// comparing the dev_t value.
///
/// This event is tied to a preference tranche, see the tranche_done event.
///
/// The message of this event, from the object `object`.
pub fn tranche_target_device(object: u32, device: Vec<u8>) -> (m: Message)
    requires
        object != 0,
    ensures
        carries(m, object, 4, seq![ArgValue::Array(device@)]),
        pending_fds(m) == Seq::<i32>::empty(),
{
    let args = vec![Arg::Array(device)];
    assert(views(args@) =~= seq![ArgValue::Array(device@)]);
    encode_message(object, 4, &args)
}

/// This event advertises the format + modifier combinations that the
/// compositor supports.
///
/// It carries an array of indices, each referring to a format + modifier
/// pair in the last received format table (see the format_table event).
/// Each index is a 16-bit unsigned integer in native endianness.
///
/// For legacy support, DRM_FORMAT_MOD_INVALID is an allowed modifier.
/// It indicates that the server can support the format with an implicit
/// modifier. When a buffer has DRM_FORMAT_MOD_INVALID as its modifier, it
/// is as if no explicit modifier is specified. The effective modifier
/// will be derived from the dmabuf.
///
/// A compositor that sends valid modifiers and DRM_FORMAT_MOD_INVALID for
/// a given format supports both explicit modifiers and implicit modifiers.
///
/// Compositors must not send duplicate format + modifier pairs within the
/// same tranche or across two different tranches with the same target
/// device and flags.
///
/// This event is tied to a preference tranche, see the tranche_done event.
///
/// For the definition of the format and modifier codes, see the
/// wp_linux_buffer_params.create request.
///
/// The message of this event, from the object `object`.
pub fn tranche_formats(object: u32, indices: Vec<u8>) -> (m: Message)
    requires
        object != 0,
    ensures
        carries(m, object, 5, seq![ArgValue::Array(indices@)]),
        pending_fds(m) == Seq::<i32>::empty(),
{
    let args = vec![Arg::Array(indices)];
    assert(views(args@) =~= seq![ArgValue::Array(indices@)]);
    encode_message(object, 5, &args)
}

/// This event sets tranche-specific flags.
///
/// The scanout flag is a hint that direct scan-out may be attempted by the
/// compositor on the target device if the client appropriately allocates a
/// buffer. How to allocate a buffer that can be scanned out on the target
/// device is implementation-defined.
///
/// This event is tied to a preference tranche, see the tranche_done event.
///
/// The message of this event, from the object `object`.
pub fn tranche_flags(object: u32, flags: TrancheFlags) -> (m: Message)
    requires
        object != 0,
    ensures
        carries(m, object, 6, seq![ArgValue::Uint(flags.bits)]),
        pending_fds(m) == Seq::<i32>::empty(),
{
    let args = vec![Arg::Uint(flags.bits())];
    assert(views(args@) =~= seq![ArgValue::Uint(flags.bits)]);
    encode_message(object, 6, &args)
}

/// The requests of `zwp_linux_dmabuf_feedback_v1` as the protocol defines them: the opcode of
/// each, the kinds of its arguments in order, and the field each argument
/// fills; no other opcode names a request.
pub proof fn lemma_protocol_requests()
    ensures
        request_signature(0) == Some(Seq::<ArgKind>::empty()),
        forall|opcode: u16| opcode >= 1 ==> #[trigger] request_signature(opcode) is None,
        forall|req: Request, vals: Seq<ArgValue>| #[trigger] request_fits(req, 0, vals) <==> (req is Destroy && vals == Seq::<ArgValue>::empty()),
{
}

} // verus!
