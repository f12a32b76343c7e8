//! The wl_shm_pool object encapsulates a piece of memory shared
//! between the compositor and client.  Through the wl_shm_pool
//! object, the client can allocate shared memory wl_buffer objects.
//! All objects created through the same pool share the same
//! underlying mapped memory. Reusing the mapped memory avoids the
//! setup/teardown overhead and is useful when interactively resizing
//! a surface or for many small buffers.
//!
//! The `wl_shm_pool` interface, version 2: decoding of its
//! requests and encoding of its events.
use crate::codec::{
    Arg, ArgKind, ArgValue, all_fit_wire, carries, kind_of, kinds_of, lemma_kinds_of, read_args,
    spec_read_args, take_int, take_object, take_uint, views,
};
use crate::error::Error as RequestError;
use crate::wire::{Cursor, cursor_of, message_opcode, opcode_of, same_header};
use super::wl_shm::Format;
use vstd::prelude::*;
use waynest::wire::Message;

verus! {

/// The name of the interface.
pub const INTERFACE: &'static str = "wl_shm_pool";

/// The version of the interface that is implemented.
pub const VERSION: u32 = 2;

/// A request of `wl_shm_pool`, decoded from the wire.
#[derive(Debug)]
pub enum Request {
    /// Create a wl_buffer object from the pool.
    CreateBuffer {
        id: u32,
        offset: i32,
        width: i32,
        height: i32,
        stride: i32,
        format: Format,
    },
    /// Destroy the shared memory pool.
    Destroy,
    /// This request will cause the server to remap the backing memory
    /// for the pool from the file descriptor passed when the pool was
    /// created, but using the new size.  This request can only be
    /// used to make the pool bigger.
    Resize {
        size: i32,
    },
}

/// The kinds of the arguments of the request with opcode `opcode`.
pub open spec fn request_signature(opcode: u16) -> Option<Seq<ArgKind>> {
    match opcode {
        0 => Some(seq![
            ArgKind::Object,
            ArgKind::Int,
            ArgKind::Int,
            ArgKind::Int,
            ArgKind::Int,
            ArgKind::Uint,
        ]),
        1 => Some(Seq::<ArgKind>::empty()),
        2 => Some(seq![ArgKind::Int]),
        _ => None,
    }
}

/// Whether decoded arguments hold, where the request takes an enumeration or
/// a bit set, a word that stands for one.
pub open spec fn request_args_valid(opcode: u16, vals: Seq<ArgValue>) -> bool {
    match opcode {
        0 => Format::from_wire(vals[5]->Uint_0) is Ok,
        _ => true,
    }
}

/// Whether `req` is the request with opcode `opcode` and arguments `vals`.
pub open spec fn request_fits(req: Request, opcode: u16, vals: Seq<ArgValue>) -> bool {
    match req {
        Request::CreateBuffer { id, offset, width, height, stride, format } => {
            &&& opcode == 0
            &&& vals == seq![
                ArgValue::Object(id),
                ArgValue::Int(offset),
                ArgValue::Int(width),
                ArgValue::Int(height),
                ArgValue::Int(stride),
                ArgValue::Uint(format.wire_value()),
            ]
        },
        Request::Destroy => {
            &&& opcode == 1
            &&& vals == Seq::<ArgValue>::empty()
        },
        Request::Resize { size } => {
            &&& opcode == 2
            &&& vals == seq![ArgValue::Int(size)]
        },
    }
}

/// What decoding a request with opcode `opcode` from the payload and file
/// descriptors of `c` gives.
pub open spec fn request_outcome(opcode: u16, c: Cursor, r: Result<Request, RequestError>) -> bool {
    match request_signature(opcode) {
        None => r == Err::<Request, RequestError>(RequestError::UnknownOpcode(opcode)),
        Some(sig) => match spec_read_args(sig, c) {
            None => r == Err::<Request, RequestError>(RequestError::MalformedPayload),
            Some((vals, _)) => if request_args_valid(opcode, vals) {
                r matches Ok(req) && request_fits(req, opcode, vals)
            } else {
                r == Err::<Request, RequestError>(RequestError::MalformedPayload)
            },
        },
    }
}

/// A message that carries, for an object of `wl_shm_pool`, arguments `vals` of
/// the kinds the request with opcode `opcode` takes decodes to that request
/// with those arguments, where they fit the wire and name known values of
/// its enumerations; where they name unknown values, it is refused as
/// malformed.
pub proof fn lemma_request_roundtrip(
    m: Message,
    object: u32,
    opcode: u16,
    vals: Seq<ArgValue>,
    r: Result<Request, RequestError>,
)
    requires
        request_signature(opcode) == Some(kinds_of(vals)),
        carries(m, object, opcode, vals),
        all_fit_wire(vals),
        request_outcome(message_opcode(m), cursor_of(m), r),
    ensures
        request_args_valid(opcode, vals) ==> (r matches Ok(req) && request_fits(req, opcode, vals)),
        !request_args_valid(opcode, vals) ==> r == Err::<Request, RequestError>(
            RequestError::MalformedPayload,
        ),
{
}

fn signature(opcode: u16) -> (r: Option<Vec<ArgKind>>)
    ensures
        match request_signature(opcode) {
            None => r is None,
            Some(sig) => r matches Some(v) && v@ == sig,
        },
{
    match opcode {
        0 => Some(vec![
            ArgKind::Object,
            ArgKind::Int,
            ArgKind::Int,
            ArgKind::Int,
            ArgKind::Int,
            ArgKind::Uint,
        ]),
        1 => Some(Vec::new()),
        2 => Some(vec![ArgKind::Int]),
        _ => None,
    }
}

fn decode_create_buffer(args: Vec<Arg>) -> (r: Result<Request, RequestError>)
    requires
        kinds_of(views(args@)) == seq![
            ArgKind::Object,
            ArgKind::Int,
            ArgKind::Int,
            ArgKind::Int,
            ArgKind::Int,
            ArgKind::Uint,
        ],
    ensures
        if request_args_valid(0, views(args@)) {
            r matches Ok(req) && request_fits(req, 0, views(args@))
        } else {
            r == Err::<Request, RequestError>(RequestError::MalformedPayload)
        },
{
    let ghost vals = views(args@);
    let mut args = args;
    proof {
        lemma_kinds_of(vals);
    }
    assert(vals.len() == 6);
    assert(views(args@) =~= vals.skip(0));
    assert(kind_of(vals[0]) == ArgKind::Object);
    let id = take_object(&mut args);
    assert(views(args@) =~= vals.skip(1));
    assert(kind_of(vals[1]) == ArgKind::Int);
    let offset = take_int(&mut args);
    assert(views(args@) =~= vals.skip(2));
    assert(kind_of(vals[2]) == ArgKind::Int);
    let width = take_int(&mut args);
    assert(views(args@) =~= vals.skip(3));
    assert(kind_of(vals[3]) == ArgKind::Int);
    let height = take_int(&mut args);
    assert(views(args@) =~= vals.skip(4));
    assert(kind_of(vals[4]) == ArgKind::Int);
    let stride = take_int(&mut args);
    assert(views(args@) =~= vals.skip(5));
    assert(kind_of(vals[5]) == ArgKind::Uint);
    let format_word = take_uint(&mut args);
    let format = match Format::try_from(format_word) {
        Ok(v) => v,
        Err(_) => {
            return Err(RequestError::MalformedPayload);
        },
    };
    proof {
        format.lemma_wire_roundtrip(format_word);
    }
    assert(vals =~= seq![
        ArgValue::Object(id),
        ArgValue::Int(offset),
        ArgValue::Int(width),
        ArgValue::Int(height),
        ArgValue::Int(stride),
        ArgValue::Uint(format.wire_value()),
    ]);
    Ok(Request::CreateBuffer { id, offset, width, height, stride, format })
}

fn decode_destroy(args: Vec<Arg>) -> (r: Result<Request, RequestError>)
    requires
        kinds_of(views(args@)) == Seq::<ArgKind>::empty(),
    ensures
        if request_args_valid(1, views(args@)) {
            r matches Ok(req) && request_fits(req, 1, views(args@))
        } else {
            r == Err::<Request, RequestError>(RequestError::MalformedPayload)
        },
{
    let ghost vals = views(args@);
    proof {
        lemma_kinds_of(vals);
    }
    assert(vals =~= Seq::<ArgValue>::empty());
    Ok(Request::Destroy)
}

fn decode_resize(args: Vec<Arg>) -> (r: Result<Request, RequestError>)
    requires
        kinds_of(views(args@)) == seq![ArgKind::Int],
    ensures
        if request_args_valid(2, views(args@)) {
            r matches Ok(req) && request_fits(req, 2, views(args@))
        } else {
            r == Err::<Request, RequestError>(RequestError::MalformedPayload)
        },
{
    let ghost vals = views(args@);
    let mut args = args;
    proof {
        lemma_kinds_of(vals);
    }
    assert(vals.len() == 1);
    assert(views(args@) =~= vals.skip(0));
    assert(kind_of(vals[0]) == ArgKind::Int);
    let size = take_int(&mut args);
    assert(vals =~= seq![ArgValue::Int(size)]);
    Ok(Request::Resize { size })
}

fn into_request(opcode: u16, args: Vec<Arg>) -> (r: Result<Request, RequestError>)
    requires
        request_signature(opcode) == Some(kinds_of(views(args@))),
    ensures
        if request_args_valid(opcode, views(args@)) {
            r matches Ok(req) && request_fits(req, opcode, views(args@))
        } else {
            r == Err::<Request, RequestError>(RequestError::MalformedPayload)
        },
{
    match opcode {
        0 => decode_create_buffer(args),
        1 => decode_destroy(args),
        2 => decode_resize(args),
        _ => {
            proof {
                assert(false);
            }
            Err(RequestError::UnknownOpcode(opcode))
        },
    }
}

/// Decodes the request a message carries for a `wl_shm_pool` object: its opcode
/// picks the request, and its payload and file descriptors give the
/// arguments, in order.
pub fn handle_request(message: &mut Message) -> (r: Result<Request, RequestError>)
    ensures
        same_header(*old(message), *final(message)),
        request_outcome(message_opcode(*old(message)), cursor_of(*old(message)), r),
{
    let opcode = opcode_of(message);
    match signature(opcode) {
        None => Err(RequestError::UnknownOpcode(opcode)),
        Some(sig) => match read_args(message, &sig) {
            None => Err(RequestError::MalformedPayload),
            Some(args) => into_request(opcode, args),
        },
    }
}

/// The requests of `wl_shm_pool` as the protocol defines them: the opcode of
/// each, the kinds of its arguments in order, and the field each argument
/// fills; no other opcode names a request.
pub proof fn lemma_protocol_requests()
    ensures
        request_signature(0) == Some(seq![
            ArgKind::Object,
            ArgKind::Int,
            ArgKind::Int,
            ArgKind::Int,
            ArgKind::Int,
            ArgKind::Uint,
        ]),
        request_signature(1) == Some(Seq::<ArgKind>::empty()),
        request_signature(2) == Some(seq![ArgKind::Int]),
        forall|opcode: u16| opcode >= 3 ==> #[trigger] request_signature(opcode) is None,
        forall|req: Request, vals: Seq<ArgValue>| #[trigger] request_fits(req, 0, vals) <==> (req matches Request::CreateBuffer {
            id,
            offset,
            width,
            height,
            stride,
            format,
        } && vals == seq![
            ArgValue::Object(id),
            ArgValue::Int(offset),
            ArgValue::Int(width),
            ArgValue::Int(height),
            ArgValue::Int(stride),
            ArgValue::Uint(format.wire_value()),
        ]),
        forall|req: Request, vals: Seq<ArgValue>| #[trigger] request_fits(req, 1, vals) <==> (req is Destroy && vals == Seq::<ArgValue>::empty()),
        forall|req: Request, vals: Seq<ArgValue>| #[trigger] request_fits(req, 2, vals) <==> (req matches Request::Resize { size } && vals == seq![ArgValue::Int(size)]),
{
}

} // verus!
