//! Following the interfaces from:
//! https://www.khronos.org/registry/egl/extensions/EXT/EGL_EXT_image_dma_buf_import.txt
//! https://www.khronos.org/registry/EGL/extensions/EXT/EGL_EXT_image_dma_buf_import_modifiers.txt
//! and the Linux DRM sub-system's AddFb2 ioctl.
//!
//! The `zwp_linux_dmabuf_v1` interface, version 5: decoding of its
//! requests and encoding of its events.
use crate::codec::{
    Arg, ArgKind, ArgValue, all_fit_wire, carries, encode_message, kind_of, kinds_of,
    lemma_kinds_of, read_args, spec_read_args, take_object, views,
};
use crate::error::Error as RequestError;
use crate::wire::{Cursor, cursor_of, message_opcode, opcode_of, pending_fds, same_header};
use vstd::prelude::*;
use waynest::wire::Message;

verus! {

/// The name of the interface.
pub const INTERFACE: &'static str = "zwp_linux_dmabuf_v1";

/// The version of the interface that is implemented.
pub const VERSION: u32 = 5;

/// A request of `zwp_linux_dmabuf_v1`, decoded from the wire.
#[derive(Debug)]
pub enum Request {
    /// Objects created through this interface, especially wl_buffers, will
    /// remain valid.
    Destroy,
    /// This temporary object is used to collect multiple dmabuf handles into
    /// a single batch to create a wl_buffer. It can only be used once and
    /// should be destroyed after a 'created' or 'failed' event has been
    /// received.
    CreateParams {
        params_id: u32,
    },
    /// This request creates a new wp_linux_dmabuf_feedback object not bound
    /// to a particular surface. This object will deliver feedback about dmabuf
    /// parameters to use if the client doesn't support per-surface feedback
    /// (see get_surface_feedback).
    GetDefaultFeedback {
        id: u32,
    },
    /// This request creates a new wp_linux_dmabuf_feedback object for the
    /// specified wl_surface. This object will deliver feedback about dmabuf
    /// parameters to use for buffers attached to this surface.
    GetSurfaceFeedback {
        id: u32,
        surface: u32,
    },
}

/// The kinds of the arguments of the request with opcode `opcode`.
pub open spec fn request_signature(opcode: u16) -> Option<Seq<ArgKind>> {
    match opcode {
        0 => Some(Seq::<ArgKind>::empty()),
        1 => Some(seq![ArgKind::Object]),
        2 => Some(seq![ArgKind::Object]),
        3 => Some(seq![ArgKind::Object, ArgKind::Object]),
        _ => None,
    }
}

/// Whether decoded arguments hold, where the request takes an enumeration or
/// a bit set, a word that stands for one.
pub open spec fn request_args_valid(opcode: u16, vals: Seq<ArgValue>) -> bool {
    true
}

/// Whether `req` is the request with opcode `opcode` and arguments `vals`.
pub open spec fn request_fits(req: Request, opcode: u16, vals: Seq<ArgValue>) -> bool {
    match req {
        Request::Destroy => {
            &&& opcode == 0
            &&& vals == Seq::<ArgValue>::empty()
        },
        Request::CreateParams { params_id } => {
            &&& opcode == 1
            &&& vals == seq![ArgValue::Object(params_id)]
        },
        Request::GetDefaultFeedback { id } => {
            &&& opcode == 2
            &&& vals == seq![ArgValue::Object(id)]
        },
        Request::GetSurfaceFeedback { id, surface } => {
            &&& opcode == 3
            &&& vals == seq![ArgValue::Object(id), ArgValue::Object(surface)]
        },
    }
}

/// What decoding a request with opcode `opcode` from the payload and file
/// descriptors of `c` gives.
pub open spec fn request_outcome(opcode: u16, c: Cursor, r: Result<Request, RequestError>) -> bool {
    match request_signature(opcode) {
        None => r == Err::<Request, RequestError>(RequestError::UnknownOpcode(opcode)),
        Some(sig) => match spec_read_args(sig, c) {
            None => r == Err::<Request, RequestError>(RequestError::MalformedPayload),
            Some((vals, _)) => if request_args_valid(opcode, vals) {
                r matches Ok(req) && request_fits(req, opcode, vals)
            } else {
                r == Err::<Request, RequestError>(RequestError::MalformedPayload)
            },
        },
    }
}

/// A message that carries, for an object of `zwp_linux_dmabuf_v1`, arguments `vals` of
/// the kinds the request with opcode `opcode` takes decodes to that request
/// with those arguments, where they fit the wire and name known values of
/// its enumerations; where they name unknown values, it is refused as
/// malformed.
pub proof fn lemma_request_roundtrip(
    m: Message,
    object: u32,
    opcode: u16,
    vals: Seq<ArgValue>,
    r: Result<Request, RequestError>,
)
    requires
        request_signature(opcode) == Some(kinds_of(vals)),
        carries(m, object, opcode, vals),
        all_fit_wire(vals),
        request_outcome(message_opcode(m), cursor_of(m), r),
    ensures
        request_args_valid(opcode, vals) ==> (r matches Ok(req) && request_fits(req, opcode, vals)),
        !request_args_valid(opcode, vals) ==> r == Err::<Request, RequestError>(
            RequestError::MalformedPayload,
        ),
{
}

fn signature(opcode: u16) -> (r: Option<Vec<ArgKind>>)
    ensures
        match request_signature(opcode) {
            None => r is None,
            Some(sig) => r matches Some(v) && v@ == sig,
        },
{
    match opcode {
        0 => Some(Vec::new()),
        1 => Some(vec![ArgKind::Object]),
        2 => Some(vec![ArgKind::Object]),
        3 => Some(vec![ArgKind::Object, ArgKind::Object]),
        _ => None,
    }
}

fn decode_destroy(args: Vec<Arg>) -> (r: Result<Request, RequestError>)
    requires
        kinds_of(views(args@)) == Seq::<ArgKind>::empty(),
    ensures
        if request_args_valid(0, views(args@)) {
            r matches Ok(req) && request_fits(req, 0, views(args@))
        } else {
            r == Err::<Request, RequestError>(RequestError::MalformedPayload)
        },
{
    let ghost vals = views(args@);
    proof {
        lemma_kinds_of(vals);
    }
    assert(vals =~= Seq::<ArgValue>::empty());
    Ok(Request::Destroy)
}

fn decode_create_params(args: Vec<Arg>) -> (r: Result<Request, RequestError>)
    requires
        kinds_of(views(args@)) == seq![ArgKind::Object],
    ensures
        if request_args_valid(1, views(args@)) {
            r matches Ok(req) && request_fits(req, 1, views(args@))
        } else {
            r == Err::<Request, RequestError>(RequestError::MalformedPayload)
        },
{
    let ghost vals = views(args@);
    let mut args = args;
    proof {
        lemma_kinds_of(vals);
    }
    assert(vals.len() == 1);
    assert(views(args@) =~= vals.skip(0));
    assert(kind_of(vals[0]) == ArgKind::Object);
    let params_id = take_object(&mut args);
    assert(vals =~= seq![ArgValue::Object(params_id)]);
    Ok(Request::CreateParams { params_id })
}

fn decode_get_default_feedback(args: Vec<Arg>) -> (r: Result<Request, RequestError>)
    requires
        kinds_of(views(args@)) == seq![ArgKind::Object],
    ensures
        if request_args_valid(2, views(args@)) {
            r matches Ok(req) && request_fits(req, 2, views(args@))
        } else {
            r == Err::<Request, RequestError>(RequestError::MalformedPayload)
        },
{
    let ghost vals = views(args@);
    let mut args = args;
    proof {
        lemma_kinds_of(vals);
    }
    assert(vals.len() == 1);
    assert(views(args@) =~= vals.skip(0));
    assert(kind_of(vals[0]) == ArgKind::Object);
    let id = take_object(&mut args);
    assert(vals =~= seq![ArgValue::Object(id)]);
    Ok(Request::GetDefaultFeedback { id })
}

fn decode_get_surface_feedback(args: Vec<Arg>) -> (r: Result<Request, RequestError>)
    requires
        kinds_of(views(args@)) == seq![ArgKind::Object, ArgKind::Object],
    ensures
        if request_args_valid(3, views(args@)) {
            r matches Ok(req) && request_fits(req, 3, views(args@))
        } else {
            r == Err::<Request, RequestError>(RequestError::MalformedPayload)
        },
{
    let ghost vals = views(args@);
    let mut args = args;
    proof {
        lemma_kinds_of(vals);
    }
    assert(vals.len() == 2);
    assert(views(args@) =~= vals.skip(0));
    assert(kind_of(vals[0]) == ArgKind::Object);
    let id = take_object(&mut args);
    assert(views(args@) =~= vals.skip(1));
    assert(kind_of(vals[1]) == ArgKind::Object);
    let surface = take_object(&mut args);
    assert(vals =~= seq![ArgValue::Object(id), ArgValue::Object(surface)]);
    Ok(Request::GetSurfaceFeedback { id, surface })
}

fn into_request(opcode: u16, args: Vec<Arg>) -> (r: Result<Request, RequestError>)
    requires
        request_signature(opcode) == Some(kinds_of(views(args@))),
    ensures
        if request_args_valid(opcode, views(args@)) {
            r matches Ok(req) && request_fits(req, opcode, views(args@))
        } else {
            r == Err::<Request, RequestError>(RequestError::MalformedPayload)
        },
{
    match opcode {
        0 => decode_destroy(args),
        1 => decode_create_params(args),
        2 => decode_get_default_feedback(args),
        3 => decode_get_surface_feedback(args),
        _ => {
            proof {
                assert(false);
            }
            Err(RequestError::UnknownOpcode(opcode))
        },
    }
}

/// Decodes the request a message carries for a `zwp_linux_dmabuf_v1` object: its opcode
/// picks the request, and its payload and file descriptors give the
/// arguments, in order.
pub fn handle_request(message: &mut Message) -> (r: Result<Request, RequestError>)
    ensures
        same_header(*old(message), *final(message)),
        request_outcome(message_opcode(*old(message)), cursor_of(*old(message)), r),
{
    let opcode = opcode_of(message);
    match signature(opcode) {
        None => Err(RequestError::UnknownOpcode(opcode)),
        Some(sig) => match read_args(message, &sig) {
            None => Err(RequestError::MalformedPayload),
            Some(args) => into_request(opcode, args),
        },
    }
}

/// This event advertises one buffer format that the server supports.
/// All the supported formats are advertised once when the client
/// binds to this interface. A roundtrip after binding guarantees
/// that the client has received all supported formats.
///
/// For the definition of the format codes, see the
/// zwp_linux_buffer_params_v1::create request.
///
/// Starting version 4, the format event is deprecated and must not be
/// sent by compositors. Instead, use get_default_feedback or
/// get_surface_feedback.
///
/// The message of this event, from the object `object`.
pub fn format(object: u32, format_value: u32) -> (m: Message)
    requires
        object != 0,
    ensures
        carries(m, object, 0, seq![ArgValue::Uint(format_value)]),
        pending_fds(m) == Seq::<i32>::empty(),
{
    let args = vec![Arg::Uint(format_value)];
    assert(views(args@) =~= seq![ArgValue::Uint(format_value)]);
    encode_message(object, 0, &args)
}

/// This event advertises the formats that the server supports, along with
/// the modifiers supported for each format. All the supported modifiers
/// for all the supported formats are advertised once when the client
/// binds to this interface. A roundtrip after binding guarantees that
/// the client has received all supported format-modifier pairs.
///
/// For legacy support, DRM_FORMAT_MOD_INVALID (that is, modifier_hi ==
/// 0x00ffffff and modifier_lo == 0xffffffff) is allowed in this event.
/// It indicates that the server can support the format with an implicit
/// modifier. When a plane has DRM_FORMAT_MOD_INVALID as its modifier, it
/// is as if no explicit modifier is specified. The effective modifier
/// will be derived from the dmabuf.
///
/// A compositor that sends valid modifiers and DRM_FORMAT_MOD_INVALID for
/// a given format supports both explicit modifiers and implicit modifiers.
///
/// For the definition of the format and modifier codes, see the
/// zwp_linux_buffer_params_v1::create and zwp_linux_buffer_params_v1::add
/// requests.
///
/// Starting version 4, the modifier event is deprecated and must not be
/// sent by compositors. Instead, use get_default_feedback or
/// get_surface_feedback.
///
/// The message of this event, from the object `object`.
pub fn modifier(object: u32, format: u32, modifier_hi: u32, modifier_lo: u32) -> (m: Message)
    requires
        object != 0,
    ensures
        carries(
            m,
            object,
            1,
            seq![ArgValue::Uint(format), ArgValue::Uint(modifier_hi), ArgValue::Uint(modifier_lo)],
        ),
        pending_fds(m) == Seq::<i32>::empty(),
{
    let args = vec![Arg::Uint(format), Arg::Uint(modifier_hi), Arg::Uint(modifier_lo)];
    assert(views(args@) =~= seq![
        ArgValue::Uint(format),
        ArgValue::Uint(modifier_hi),
        ArgValue::Uint(modifier_lo),
    ]);
    encode_message(object, 1, &args)
}

/// The requests of `zwp_linux_dmabuf_v1` as the protocol defines them: the opcode of
/// each, the kinds of its arguments in order, and the field each argument
/// fills; no other opcode names a request.
pub proof fn lemma_protocol_requests()
    ensures
        request_signature(0) == Some(Seq::<ArgKind>::empty()),
        request_signature(1) == Some(seq![ArgKind::Object]),
        request_signature(2) == Some(seq![ArgKind::Object]),
        request_signature(3) == Some(seq![ArgKind::Object, ArgKind::Object]),
        forall|opcode: u16| opcode >= 4 ==> #[trigger] request_signature(opcode) is None,
        forall|req: Request, vals: Seq<ArgValue>| #[trigger] request_fits(req, 0, vals) <==> (req is Destroy && vals == Seq::<ArgValue>::empty()),
        forall|req: Request, vals: Seq<ArgValue>| #[trigger] request_fits(req, 1, vals) <==> (req matches Request::CreateParams { params_id } && vals == seq![ArgValue::Object(params_id)]),
        forall|req: Request, vals: Seq<ArgValue>| #[trigger] request_fits(req, 2, vals) <==> (req matches Request::GetDefaultFeedback { id } && vals == seq![ArgValue::Object(id)]),
        forall|req: Request, vals: Seq<ArgValue>| #[trigger] request_fits(req, 3, vals) <==> (req matches Request::GetSurfaceFeedback { id, surface } && vals == seq![
            ArgValue::Object(id),
            ArgValue::Object(surface),
        ]),
{
}

} // verus!
