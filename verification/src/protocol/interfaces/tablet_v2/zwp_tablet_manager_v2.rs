//! An object that provides access to the graphics tablets available on this
//! system. All tablets are associated with a seat, to get access to the
//! actual tablets, use wp_tablet_manager.get_tablet_seat.
//!
//! The `zwp_tablet_manager_v2` interface, version 1: decoding of its
//! requests and encoding of its events.
use crate::codec::{
    Arg, ArgKind, ArgValue, all_fit_wire, carries, kind_of, kinds_of, lemma_kinds_of, read_args,
    spec_read_args, take_object, views,
};
use crate::error::Error as RequestError;
use crate::wire::{Cursor, cursor_of, message_opcode, opcode_of, same_header};
use vstd::prelude::*;
use waynest::wire::Message;

verus! {

/// The name of the interface.
pub const INTERFACE: &'static str = "zwp_tablet_manager_v2";

/// The version of the interface that is implemented.
pub const VERSION: u32 = 1;

/// A request of `zwp_tablet_manager_v2`, decoded from the wire.
#[derive(Debug)]
pub enum Request {
    /// Get the wp_tablet_seat object for the given seat. This object
    /// provides access to all graphics tablets in this seat.
    GetTabletSeat {
        tablet_seat: u32,
        seat: u32,
    },
    /// Destroy the wp_tablet_manager object. Objects created from this
    /// object are unaffected and should be destroyed separately.
    Destroy,
}

/// The kinds of the arguments of the request with opcode `opcode`.
pub open spec fn request_signature(opcode: u16) -> Option<Seq<ArgKind>> {
    match opcode {
        0 => Some(seq![ArgKind::Object, ArgKind::Object]),
        1 => Some(Seq::<ArgKind>::empty()),
        _ => None,
    }
}

/// Whether decoded arguments hold, where the request takes an enumeration or
/// a bit set, a word that stands for one.
pub open spec fn request_args_valid(opcode: u16, vals: Seq<ArgValue>) -> bool {
    true
}

/// Whether `req` is the request with opcode `opcode` and arguments `vals`.
pub open spec fn request_fits(req: Request, opcode: u16, vals: Seq<ArgValue>) -> bool {
    match req {
        Request::GetTabletSeat { tablet_seat, seat } => {
            &&& opcode == 0
            &&& vals == seq![ArgValue::Object(tablet_seat), ArgValue::Object(seat)]
        },
        Request::Destroy => {
            &&& opcode == 1
            &&& vals == Seq::<ArgValue>::empty()
        },
    }
}

/// What decoding a request with opcode `opcode` from the payload and file
/// descriptors of `c` gives.
pub open spec fn request_outcome(opcode: u16, c: Cursor, r: Result<Request, RequestError>) -> bool {
    match request_signature(opcode) {
        None => r == Err::<Request, RequestError>(RequestError::UnknownOpcode(opcode)),
        Some(sig) => match spec_read_args(sig, c) {
            None => r == Err::<Request, RequestError>(RequestError::MalformedPayload),
            Some((vals, _)) => if request_args_valid(opcode, vals) {
                r matches Ok(req) && request_fits(req, opcode, vals)
            } else {
                r == Err::<Request, RequestError>(RequestError::MalformedPayload)
            },
        },
    }
}

/// A message that carries, for an object of `zwp_tablet_manager_v2`, arguments `vals` of
/// the kinds the request with opcode `opcode` takes decodes to that request
/// with those arguments, where they fit the wire and name known values of
/// its enumerations; where they name unknown values, it is refused as
/// malformed.
pub proof fn lemma_request_roundtrip(
    m: Message,
    object: u32,
    opcode: u16,
    vals: Seq<ArgValue>,
    r: Result<Request, RequestError>,
)
    requires
        request_signature(opcode) == Some(kinds_of(vals)),
        carries(m, object, opcode, vals),
        all_fit_wire(vals),
        request_outcome(message_opcode(m), cursor_of(m), r),
    ensures
        request_args_valid(opcode, vals) ==> (r matches Ok(req) && request_fits(req, opcode, vals)),
        !request_args_valid(opcode, vals) ==> r == Err::<Request, RequestError>(
            RequestError::MalformedPayload,
        ),
{
}

fn signature(opcode: u16) -> (r: Option<Vec<ArgKind>>)
    ensures
        match request_signature(opcode) {
            None => r is None,
            Some(sig) => r matches Some(v) && v@ == sig,
        },
{
    match opcode {
        0 => Some(vec![ArgKind::Object, ArgKind::Object]),
        1 => Some(Vec::new()),
        _ => None,
    }
}

fn decode_get_tablet_seat(args: Vec<Arg>) -> (r: Result<Request, RequestError>)
    requires
        kinds_of(views(args@)) == seq![ArgKind::Object, ArgKind::Object],
    ensures
        if request_args_valid(0, views(args@)) {
            r matches Ok(req) && request_fits(req, 0, views(args@))
        } else {
            r == Err::<Request, RequestError>(RequestError::MalformedPayload)
        },
{
    let ghost vals = views(args@);
    let mut args = args;
    proof {
        lemma_kinds_of(vals);
    }
    assert(vals.len() == 2);
    assert(views(args@) =~= vals.skip(0));
    assert(kind_of(vals[0]) == ArgKind::Object);
    let tablet_seat = take_object(&mut args);
    assert(views(args@) =~= vals.skip(1));
    assert(kind_of(vals[1]) == ArgKind::Object);
    let seat = take_object(&mut args);
    assert(vals =~= seq![ArgValue::Object(tablet_seat), ArgValue::Object(seat)]);
    Ok(Request::GetTabletSeat { tablet_seat, seat })
}

fn decode_destroy(args: Vec<Arg>) -> (r: Result<Request, RequestError>)
    requires
        kinds_of(views(args@)) == Seq::<ArgKind>::empty(),
    ensures
        if request_args_valid(1, views(args@)) {
            r matches Ok(req) && request_fits(req, 1, views(args@))
        } else {
            r == Err::<Request, RequestError>(RequestError::MalformedPayload)
        },
{
    let ghost vals = views(args@);
    proof {
        lemma_kinds_of(vals);
    }
    assert(vals =~= Seq::<ArgValue>::empty());
    Ok(Request::Destroy)
}

fn into_request(opcode: u16, args: Vec<Arg>) -> (r: Result<Request, RequestError>)
    requires
        request_signature(opcode) == Some(kinds_of(views(args@))),
    ensures
        if request_args_valid(opcode, views(args@)) {
            r matches Ok(req) && request_fits(req, opcode, views(args@))
        } else {
            r == Err::<Request, RequestError>(RequestError::MalformedPayload)
        },
{
    match opcode {
        0 => decode_get_tablet_seat(args),
        1 => decode_destroy(args),
        _ => {
            proof {
                assert(false);
            }
            Err(RequestError::UnknownOpcode(opcode))
        },
    }
}

/// Decodes the request a message carries for a `zwp_tablet_manager_v2` object: its opcode
/// picks the request, and its payload and file descriptors give the
/// arguments, in order.
pub fn handle_request(message: &mut Message) -> (r: Result<Request, RequestError>)
    ensures
        same_header(*old(message), *final(message)),
        request_outcome(message_opcode(*old(message)), cursor_of(*old(message)), r),
{
    let opcode = opcode_of(message);
    match signature(opcode) {
        None => Err(RequestError::UnknownOpcode(opcode)),
        Some(sig) => match read_args(message, &sig) {
            None => Err(RequestError::MalformedPayload),
            Some(args) => into_request(opcode, args),
        },
    }
}

/// The requests of `zwp_tablet_manager_v2` as the protocol defines them: the opcode of
/// each, the kinds of its arguments in order, and the field each argument
/// fills; no other opcode names a request.
pub proof fn lemma_protocol_requests()
    ensures
        request_signature(0) == Some(seq![ArgKind::Object, ArgKind::Object]),
        request_signature(1) == Some(Seq::<ArgKind>::empty()),
        forall|opcode: u16| opcode >= 2 ==> #[trigger] request_signature(opcode) is None,
        forall|req: Request, vals: Seq<ArgValue>| #[trigger] request_fits(req, 0, vals) <==> (req matches Request::GetTabletSeat { tablet_seat, seat } && vals == seq![
            ArgValue::Object(tablet_seat),
            ArgValue::Object(seat),
        ]),
        forall|req: Request, vals: Seq<ArgValue>| #[trigger] request_fits(req, 1, vals) <==> (req is Destroy && vals == Seq::<ArgValue>::empty()),
{
}

} // verus!
