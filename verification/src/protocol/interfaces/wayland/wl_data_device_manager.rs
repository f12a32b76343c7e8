//! The wl_data_device_manager is a singleton global object that
//! provides access to inter-client data transfer mechanisms such as
//! copy-and-paste and drag-and-drop.  These mechanisms are tied to
//! a wl_seat and this interface lets a client get a wl_data_device
//! corresponding to a wl_seat.
//!
//! The `wl_data_device_manager` interface, version 3: decoding of its
//! requests and encoding of its events.
use crate::codec::{
    Arg, ArgKind, ArgValue, all_fit_wire, carries, kind_of, kinds_of, lemma_kinds_of, read_args,
    spec_read_args, take_object, views,
};
use crate::error::DecodeError;
use crate::error::Error as RequestError;
use crate::wire::{Cursor, cursor_of, message_opcode, opcode_of, same_header};
use vstd::prelude::*;
use waynest::wire::Message;

verus! {

/// The name of the interface.
pub const INTERFACE: &'static str = "wl_data_device_manager";

/// The version of the interface that is implemented.
pub const VERSION: u32 = 3;

/// This is a bitmask of the available/preferred actions in a
/// drag-and-drop operation.
///
/// In the compositor, the selected action is a result of matching the
/// actions offered by the source and destination sides.  "action" events
/// with a "none" action will be sent to both source and destination if
/// there is no match. All further checks will effectively happen on
/// (source actions ∩ destination actions).
///
/// In addition, compositors may also pick different actions in
/// reaction to key modifiers being pressed. One common design that
/// is used in major toolkits (and the behavior recommended for
/// compositors) is:
///
/// - If no modifiers are pressed, the first match (in bit order)
/// will be used.
/// - Pressing Shift selects "move", if enabled in the mask.
/// - Pressing Control selects "copy", if enabled in the mask.
///
/// Behavior beyond that is considered implementation-dependent.
/// Compositors may for example bind other modifiers (like Alt/Meta)
/// or drags initiated with other buttons than BTN_LEFT to specific
/// actions (e.g. "ask").
///
/// Known bits: None = 0, Copy = 1, Move = 2, Ask = 4.
#[derive(Debug, PartialEq, Eq, PartialOrd, Ord, Hash, Clone, Copy)]
pub struct DndAction {
    pub bits: u32,
}

impl DndAction {
    /// The union of all known bits.
    pub open spec fn all_bits() -> u32 {
        0x7
    }

    /// The set a word stands for, if it holds only known bits.
    pub open spec fn from_wire(v: u32) -> Result<Self, DecodeError> {
        if v & !Self::all_bits() == 0 {
            Ok(DndAction { bits: v })
        } else {
            Err(DecodeError::MalformedPayload)
        }
    }

    /// The set a word stands for, if it holds only known bits.
    pub fn from_bits(v: u32) -> (r: Option<Self>)
        ensures
            r == match Self::from_wire(v) {
                Ok(f) => Some(f),
                Err(_) => None::<Self>,
            },
    {
        if v & !0x7u32 == 0 {
            Some(DndAction { bits: v })
        } else {
            None
        }
    }

    /// The word of the set.
    pub fn bits(&self) -> (r: u32)
        ensures
            r == self.bits,
    {
        self.bits
    }

    /// A set of known bits reads back from its word, and a word that reads as
    /// a set is that set's word.
    pub proof fn lemma_wire_roundtrip(self, v: u32)
        ensures
            self.bits & !Self::all_bits() == 0 ==> Self::from_wire(self.bits) == Ok::<
                Self,
                DecodeError,
            >(self),
            Self::from_wire(v) matches Ok(e) ==> e.bits == v,
    {
    }

    /// The bits the protocol defines for this set: None = 0, Copy = 1, Move = 2, Ask = 4.
    /// A word is a set exactly when it holds no other bit.
    pub proof fn lemma_protocol_values(v: u32)
        ensures
            Self::all_bits() == 0x7,
            Self::from_wire(v) is Ok <==> v & !0x7u32 == 0,
            Self::from_wire(v) matches Ok(f) ==> f.bits == v,
    {
    }
}

impl TryFrom<u32> for DndAction {
    type Error = DecodeError;

    fn try_from(v: u32) -> (r: Result<Self, DecodeError>) {
        match Self::from_bits(v) {
            Some(f) => Ok(f),
            None => Err(DecodeError::MalformedPayload),
        }
    }
}

impl vstd::std_specs::convert::TryFromSpecImpl<u32> for DndAction {
    open spec fn obeys_try_from_spec() -> bool {
        true
    }

    open spec fn try_from_spec(v: u32) -> Result<Self, DecodeError> {
        Self::from_wire(v)
    }
}

/// A request of `wl_data_device_manager`, decoded from the wire.
#[derive(Debug)]
pub enum Request {
    /// Create a new data source.
    CreateDataSource {
        id: u32,
    },
    /// Create a new data device for a given seat.
    GetDataDevice {
        id: u32,
        seat: u32,
    },
}

/// The kinds of the arguments of the request with opcode `opcode`.
pub open spec fn request_signature(opcode: u16) -> Option<Seq<ArgKind>> {
    match opcode {
        0 => Some(seq![ArgKind::Object]),
        1 => Some(seq![ArgKind::Object, ArgKind::Object]),
        _ => None,
    }
}

/// Whether decoded arguments hold, where the request takes an enumeration or
/// a bit set, a word that stands for one.
pub open spec fn request_args_valid(opcode: u16, vals: Seq<ArgValue>) -> bool {
    true
}

/// Whether `req` is the request with opcode `opcode` and arguments `vals`.
pub open spec fn request_fits(req: Request, opcode: u16, vals: Seq<ArgValue>) -> bool {
    match req {
        Request::CreateDataSource { id } => {
            &&& opcode == 0
            &&& vals == seq![ArgValue::Object(id)]
        },
        Request::GetDataDevice { id, seat } => {
            &&& opcode == 1
            &&& vals == seq![ArgValue::Object(id), ArgValue::Object(seat)]
        },
    }
}

/// What decoding a request with opcode `opcode` from the payload and file
/// descriptors of `c` gives.
pub open spec fn request_outcome(opcode: u16, c: Cursor, r: Result<Request, RequestError>) -> bool {
    match request_signature(opcode) {
        None => r == Err::<Request, RequestError>(RequestError::UnknownOpcode(opcode)),
        Some(sig) => match spec_read_args(sig, c) {
            None => r == Err::<Request, RequestError>(RequestError::MalformedPayload),
            Some((vals, _)) => if request_args_valid(opcode, vals) {
                r matches Ok(req) && request_fits(req, opcode, vals)
            } else {
                r == Err::<Request, RequestError>(RequestError::MalformedPayload)
            },
        },
    }
}

/// A message that carries, for an object of `wl_data_device_manager`, arguments `vals` of
/// the kinds the request with opcode `opcode` takes decodes to that request
/// with those arguments, where they fit the wire and name known values of
/// its enumerations; where they name unknown values, it is refused as
/// malformed.
pub proof fn lemma_request_roundtrip(
    m: Message,
    object: u32,
    opcode: u16,
    vals: Seq<ArgValue>,
    r: Result<Request, RequestError>,
)
    requires
        request_signature(opcode) == Some(kinds_of(vals)),
        carries(m, object, opcode, vals),
        all_fit_wire(vals),
        request_outcome(message_opcode(m), cursor_of(m), r),
    ensures
        request_args_valid(opcode, vals) ==> (r matches Ok(req) && request_fits(req, opcode, vals)),
        !request_args_valid(opcode, vals) ==> r == Err::<Request, RequestError>(
            RequestError::MalformedPayload,
        ),
{
}

fn signature(opcode: u16) -> (r: Option<Vec<ArgKind>>)
    ensures
        match request_signature(opcode) {
            None => r is None,
            Some(sig) => r matches Some(v) && v@ == sig,
        },
{
    match opcode {
        0 => Some(vec![ArgKind::Object]),
        1 => Some(vec![ArgKind::Object, ArgKind::Object]),
        _ => None,
    }
}

fn decode_create_data_source(args: Vec<Arg>) -> (r: Result<Request, RequestError>)
    requires
        kinds_of(views(args@)) == seq![ArgKind::Object],
    ensures
        if request_args_valid(0, views(args@)) {
            r matches Ok(req) && request_fits(req, 0, views(args@))
        } else {
            r == Err::<Request, RequestError>(RequestError::MalformedPayload)
        },
{
    let ghost vals = views(args@);
    let mut args = args;
    proof {
        lemma_kinds_of(vals);
    }
    assert(vals.len() == 1);
    assert(views(args@) =~= vals.skip(0));
    assert(kind_of(vals[0]) == ArgKind::Object);
    let id = take_object(&mut args);
    assert(vals =~= seq![ArgValue::Object(id)]);
    Ok(Request::CreateDataSource { id })
}

fn decode_get_data_device(args: Vec<Arg>) -> (r: Result<Request, RequestError>)
    requires
        kinds_of(views(args@)) == seq![ArgKind::Object, ArgKind::Object],
    ensures
        if request_args_valid(1, views(args@)) {
            r matches Ok(req) && request_fits(req, 1, views(args@))
        } else {
            r == Err::<Request, RequestError>(RequestError::MalformedPayload)
        },
{
    let ghost vals = views(args@);
    let mut args = args;
    proof {
        lemma_kinds_of(vals);
    }
    assert(vals.len() == 2);
    assert(views(args@) =~= vals.skip(0));
    assert(kind_of(vals[0]) == ArgKind::Object);
    let id = take_object(&mut args);
    assert(views(args@) =~= vals.skip(1));
    assert(kind_of(vals[1]) == ArgKind::Object);
    let seat = take_object(&mut args);
    assert(vals =~= seq![ArgValue::Object(id), ArgValue::Object(seat)]);
    Ok(Request::GetDataDevice { id, seat })
}

fn into_request(opcode: u16, args: Vec<Arg>) -> (r: Result<Request, RequestError>)
    requires
        request_signature(opcode) == Some(kinds_of(views(args@))),
    ensures
        if request_args_valid(opcode, views(args@)) {
            r matches Ok(req) && request_fits(req, opcode, views(args@))
        } else {
            r == Err::<Request, RequestError>(RequestError::MalformedPayload)
        },
{
    match opcode {
        0 => decode_create_data_source(args),
        1 => decode_get_data_device(args),
        _ => {
            proof {
                assert(false);
            }
            Err(RequestError::UnknownOpcode(opcode))
        },
    }
}

/// Decodes the request a message carries for a `wl_data_device_manager` object: its opcode
/// picks the request, and its payload and file descriptors give the
/// arguments, in order.
pub fn handle_request(message: &mut Message) -> (r: Result<Request, RequestError>)
    ensures
        same_header(*old(message), *final(message)),
        request_outcome(message_opcode(*old(message)), cursor_of(*old(message)), r),
{
    let opcode = opcode_of(message);
    match signature(opcode) {
        None => Err(RequestError::UnknownOpcode(opcode)),
        Some(sig) => match read_args(message, &sig) {
            None => Err(RequestError::MalformedPayload),
            Some(args) => into_request(opcode, args),
        },
    }
}

/// The requests of `wl_data_device_manager` as the protocol defines them: the opcode of
/// each, the kinds of its arguments in order, and the field each argument
/// fills; no other opcode names a request.
pub proof fn lemma_protocol_requests()
    ensures
        request_signature(0) == Some(seq![ArgKind::Object]),
        request_signature(1) == Some(seq![ArgKind::Object, ArgKind::Object]),
        forall|opcode: u16| opcode >= 2 ==> #[trigger] request_signature(opcode) is None,
        forall|req: Request, vals: Seq<ArgValue>| #[trigger] request_fits(req, 0, vals) <==> (req matches Request::CreateDataSource { id } && vals == seq![ArgValue::Object(id)]),
        forall|req: Request, vals: Seq<ArgValue>| #[trigger] request_fits(req, 1, vals) <==> (req matches Request::GetDataDevice { id, seat } && vals == seq![
            ArgValue::Object(id),
            ArgValue::Object(seat),
        ]),
{
}

} // verus!
