//! The wl_data_source object is the source side of a wl_data_offer.
//! It is created by the source client in a data transfer and
//! provides a way to describe the offered data and a way to respond
//! to requests to transfer the data.
//!
//! The `wl_data_source` interface, version 3: decoding of its
//! requests and encoding of its events.
use crate::codec::{
    Arg, ArgKind, ArgValue, all_fit_wire, carries, cursor_from, encode_message, encode_payload,
    kind_of, kinds_of, lemma_kinds_of, opt_text, read_args, spec_read_args, take_string, take_uint,
    views,
};
use crate::error::DecodeError;
use crate::error::Error as RequestError;
use crate::wire::{
    Cursor, built_payload, cursor_of, finish, message_opcode, opcode_of, pending_fds, put_fd,
    raw_fd_number, same_header,
};
use rustix::fd::OwnedFd;
use super::wl_data_device_manager::DndAction;
use vstd::prelude::*;
use waynest::wire::Message;

verus! {

/// The name of the interface.
pub const INTERFACE: &'static str = "wl_data_source";

/// The version of the interface that is implemented.
pub const VERSION: u32 = 3;

#[derive(Debug, PartialEq, Eq, PartialOrd, Ord, Hash, Clone, Copy)]
pub enum Error {
    /// Action mask contains invalid values
    InvalidActionMask,
    /// Source doesn't accept this request
    InvalidSource,
}

impl Error {
    /// The word that stands for this value on the wire.
    pub open spec fn wire_value(self) -> u32 {
        match self {
            Error::InvalidActionMask => 0,
            Error::InvalidSource => 1,
        }
    }

    /// The value a word stands for, if any.
    pub open spec fn from_wire(v: u32) -> Result<Self, DecodeError> {
        match v {
            0 => Ok(Error::InvalidActionMask),
            1 => Ok(Error::InvalidSource),
            _ => Err(DecodeError::MalformedPayload),
        }
    }

    /// The word that stands for this value on the wire.
    pub fn to_wire(self) -> (r: u32)
        ensures
            r == self.wire_value(),
    {
        match self {
            Error::InvalidActionMask => 0,
            Error::InvalidSource => 1,
        }
    }

    /// A value read back from its word is that value, and a word that reads
    /// as a value is that value's word.
    pub proof fn lemma_wire_roundtrip(self, v: u32)
        ensures
            Self::from_wire(self.wire_value()) == Ok::<Self, DecodeError>(self),
            Self::from_wire(v) matches Ok(e) ==> e.wire_value() == v,
    {
    }

    /// The words the protocol gives the values of this enumeration.
    pub proof fn lemma_protocol_values()
        ensures
            Error::InvalidActionMask.wire_value() == 0,
            Error::InvalidSource.wire_value() == 1,
            Self::from_wire(0) == Ok::<Self, DecodeError>(Error::InvalidActionMask),
            Self::from_wire(1) == Ok::<Self, DecodeError>(Error::InvalidSource),
    {
    }
}

impl TryFrom<u32> for Error {
    type Error = DecodeError;

    fn try_from(v: u32) -> (r: Result<Self, DecodeError>) {
        match v {
            0 => Ok(Error::InvalidActionMask),
            1 => Ok(Error::InvalidSource),
            _ => Err(DecodeError::MalformedPayload),
        }
    }
}

impl vstd::std_specs::convert::TryFromSpecImpl<u32> for Error {
    open spec fn obeys_try_from_spec() -> bool {
        true
    }

    open spec fn try_from_spec(v: u32) -> Result<Self, DecodeError> {
        Self::from_wire(v)
    }
}

/// A request of `wl_data_source`, decoded from the wire.
#[derive(Debug)]
pub enum Request {
    /// This request adds a mime type to the set of mime types
    /// advertised to targets.  Can be called several times to offer
    /// multiple types.
    Offer {
        mime_type: String,
    },
    /// Destroy the data source.
    Destroy,
    /// Sets the actions that the source side client supports for this
    /// operation. This request may trigger wl_data_source.action and
    /// wl_data_offer.action events if the compositor needs to change the
    /// selected action.
    SetActions {
        dnd_actions: DndAction,
    },
}

/// The kinds of the arguments of the request with opcode `opcode`.
pub open spec fn request_signature(opcode: u16) -> Option<Seq<ArgKind>> {
    match opcode {
        0 => Some(seq![ArgKind::String]),
        1 => Some(Seq::<ArgKind>::empty()),
        2 => Some(seq![ArgKind::Uint]),
        _ => None,
    }
}

/// Whether decoded arguments hold, where the request takes an enumeration or
/// a bit set, a word that stands for one.
pub open spec fn request_args_valid(opcode: u16, vals: Seq<ArgValue>) -> bool {
    match opcode {
        2 => DndAction::from_wire(vals[0]->Uint_0) is Ok,
        _ => true,
    }
}

/// Whether `req` is the request with opcode `opcode` and arguments `vals`.
pub open spec fn request_fits(req: Request, opcode: u16, vals: Seq<ArgValue>) -> bool {
    match req {
        Request::Offer { mime_type } => {
            &&& opcode == 0
            &&& vals == seq![ArgValue::Str(mime_type@)]
        },
        Request::Destroy => {
            &&& opcode == 1
            &&& vals == Seq::<ArgValue>::empty()
        },
        Request::SetActions { dnd_actions } => {
            &&& opcode == 2
            &&& vals == seq![ArgValue::Uint(dnd_actions.bits)]
        },
    }
}

/// What decoding a request with opcode `opcode` from the payload and file
/// descriptors of `c` gives.
pub open spec fn request_outcome(opcode: u16, c: Cursor, r: Result<Request, RequestError>) -> bool {
    match request_signature(opcode) {
        None => r == Err::<Request, RequestError>(RequestError::UnknownOpcode(opcode)),
        Some(sig) => match spec_read_args(sig, c) {
            None => r == Err::<Request, RequestError>(RequestError::MalformedPayload),
            Some((vals, _)) => if request_args_valid(opcode, vals) {
                r matches Ok(req) && request_fits(req, opcode, vals)
            } else {
                r == Err::<Request, RequestError>(RequestError::MalformedPayload)
            },
        },
    }
}

/// A message that carries, for an object of `wl_data_source`, arguments `vals` of
/// the kinds the request with opcode `opcode` takes decodes to that request
/// with those arguments, where they fit the wire and name known values of
/// its enumerations; where they name unknown values, it is refused as
/// malformed.
pub proof fn lemma_request_roundtrip(
    m: Message,
    object: u32,
    opcode: u16,
    vals: Seq<ArgValue>,
    r: Result<Request, RequestError>,
)
    requires
        request_signature(opcode) == Some(kinds_of(vals)),
        carries(m, object, opcode, vals),
        all_fit_wire(vals),
        request_outcome(message_opcode(m), cursor_of(m), r),
    ensures
        request_args_valid(opcode, vals) ==> (r matches Ok(req) && request_fits(req, opcode, vals)),
        !request_args_valid(opcode, vals) ==> r == Err::<Request, RequestError>(
            RequestError::MalformedPayload,
        ),
{
}

fn signature(opcode: u16) -> (r: Option<Vec<ArgKind>>)
    ensures
        match request_signature(opcode) {
            None => r is None,
            Some(sig) => r matches Some(v) && v@ == sig,
        },
{
    match opcode {
        0 => Some(vec![ArgKind::String]),
        1 => Some(Vec::new()),
        2 => Some(vec![ArgKind::Uint]),
        _ => None,
    }
}

fn decode_offer(args: Vec<Arg>) -> (r: Result<Request, RequestError>)
    requires
        kinds_of(views(args@)) == seq![ArgKind::String],
    ensures
        if request_args_valid(0, views(args@)) {
            r matches Ok(req) && request_fits(req, 0, views(args@))
        } else {
            r == Err::<Request, RequestError>(RequestError::MalformedPayload)
        },
{
    let ghost vals = views(args@);
    let mut args = args;
    proof {
        lemma_kinds_of(vals);
    }
    assert(vals.len() == 1);
    assert(views(args@) =~= vals.skip(0));
    assert(kind_of(vals[0]) == ArgKind::String);
    let mime_type = take_string(&mut args);
    assert(vals =~= seq![ArgValue::Str(mime_type@)]);
    Ok(Request::Offer { mime_type })
}

fn decode_destroy(args: Vec<Arg>) -> (r: Result<Request, RequestError>)
    requires
        kinds_of(views(args@)) == Seq::<ArgKind>::empty(),
    ensures
        if request_args_valid(1, views(args@)) {
            r matches Ok(req) && request_fits(req, 1, views(args@))
        } else {
            r == Err::<Request, RequestError>(RequestError::MalformedPayload)
        },
{
    let ghost vals = views(args@);
    proof {
        lemma_kinds_of(vals);
    }
    assert(vals =~= Seq::<ArgValue>::empty());
    Ok(Request::Destroy)
}

fn decode_set_actions(args: Vec<Arg>) -> (r: Result<Request, RequestError>)
    requires
        kinds_of(views(args@)) == seq![ArgKind::Uint],
    ensures
        if request_args_valid(2, views(args@)) {
            r matches Ok(req) && request_fits(req, 2, views(args@))
        } else {
            r == Err::<Request, RequestError>(RequestError::MalformedPayload)
        },
{
    let ghost vals = views(args@);
    let mut args = args;
    proof {
        lemma_kinds_of(vals);
    }
    assert(vals.len() == 1);
    assert(views(args@) =~= vals.skip(0));
    assert(kind_of(vals[0]) == ArgKind::Uint);
    let dnd_actions_word = take_uint(&mut args);
    let dnd_actions = match DndAction::try_from(dnd_actions_word) {
        Ok(v) => v,
        Err(_) => {
            return Err(RequestError::MalformedPayload);
        },
    };
    proof {
        dnd_actions.lemma_wire_roundtrip(dnd_actions_word);
    }
    assert(vals =~= seq![ArgValue::Uint(dnd_actions.bits)]);
    Ok(Request::SetActions { dnd_actions })
}

fn into_request(opcode: u16, args: Vec<Arg>) -> (r: Result<Request, RequestError>)
    requires
        request_signature(opcode) == Some(kinds_of(views(args@))),
    ensures
        if request_args_valid(opcode, views(args@)) {
            r matches Ok(req) && request_fits(req, opcode, views(args@))
        } else {
            r == Err::<Request, RequestError>(RequestError::MalformedPayload)
        },
{
    match opcode {
        0 => decode_offer(args),
        1 => decode_destroy(args),
        2 => decode_set_actions(args),
        _ => {
            proof {
                assert(false);
            }
            Err(RequestError::UnknownOpcode(opcode))
        },
    }
}

/// Decodes the request a message carries for a `wl_data_source` object: its opcode
/// picks the request, and its payload and file descriptors give the
/// arguments, in order.
pub fn handle_request(message: &mut Message) -> (r: Result<Request, RequestError>)
    ensures
        same_header(*old(message), *final(message)),
        request_outcome(message_opcode(*old(message)), cursor_of(*old(message)), r),
{
    let opcode = opcode_of(message);
    match signature(opcode) {
        None => Err(RequestError::UnknownOpcode(opcode)),
        Some(sig) => match read_args(message, &sig) {
            None => Err(RequestError::MalformedPayload),
            Some(args) => into_request(opcode, args),
        },
    }
}

/// Sent when a target accepts pointer_focus or motion events.  If
/// a target does not accept any of the offered types, type is NULL.
///
/// Used for feedback during drag-and-drop.
///
/// The message of this event, from the object `object`.
pub fn target(object: u32, mime_type: Option<String>) -> (m: Message)
    requires
        object != 0,
    ensures
        carries(m, object, 0, seq![ArgValue::NullableStr(opt_text(mime_type))]),
        pending_fds(m) == Seq::<i32>::empty(),
{
    let args = vec![Arg::NullableStr(mime_type)];
    assert(views(args@) =~= seq![ArgValue::NullableStr(opt_text(mime_type))]);
    encode_message(object, 0, &args)
}

/// Request for data from the client.  Send the data as the
/// specified mime type over the passed file descriptor, then
/// close it.
///
/// The message of this event, from the object `object`.
pub fn send(object: u32, mime_type: String, fd: OwnedFd) -> (m: Message)
    requires
        object != 0,
    ensures
        carries(m, object, 1, seq![ArgValue::Str(mime_type@)]),
        pending_fds(m) == seq![raw_fd_number(fd)],
{
    let args = vec![Arg::Str(mime_type)];
    assert(views(args@) =~= seq![ArgValue::Str(mime_type@)]);
    let payload = encode_payload(&args);
    let ghost bytes = built_payload(payload);
    let payload = put_fd(payload, fd);
    let m = finish(payload, object, 1);
    assert(cursor_of(m) == cursor_from(bytes, pending_fds(m)));
    m
}

/// This data source is no longer valid. There are several reasons why
/// this could happen:
///
/// - The data source has been replaced by another data source.
/// - The drag-and-drop operation was performed, but the drop destination
/// did not accept any of the mime types offered through
/// wl_data_source.target.
/// - The drag-and-drop operation was performed, but the drop destination
/// did not select any of the actions present in the mask offered through
/// wl_data_source.action.
/// - The drag-and-drop operation was performed but didn't happen over a
/// surface.
/// - The compositor cancelled the drag-and-drop operation (e.g. compositor
/// dependent timeouts to avoid stale drag-and-drop transfers).
///
/// The client should clean up and destroy this data source.
///
/// For objects of version 2 or older, wl_data_source.cancelled will
/// only be emitted if the data source was replaced by another data
/// source.
///
/// The message of this event, from the object `object`.
pub fn cancelled(object: u32) -> (m: Message)
    requires
        object != 0,
    ensures
        carries(m, object, 2, Seq::<ArgValue>::empty()),
        pending_fds(m) == Seq::<i32>::empty(),
{
    let args: Vec<Arg> = Vec::new();
    assert(views(args@) =~= Seq::<ArgValue>::empty());
    encode_message(object, 2, &args)
}

/// The user performed the drop action. This event does not indicate
/// acceptance, wl_data_source.cancelled may still be emitted afterwards
/// if the drop destination does not accept any mime type.
///
/// However, this event might however not be received if the compositor
/// cancelled the drag-and-drop operation before this event could happen.
///
/// Note that the data_source may still be used in the future and should
/// not be destroyed here.
///
/// The message of this event, from the object `object`.
pub fn dnd_drop_performed(object: u32) -> (m: Message)
    requires
        object != 0,
    ensures
        carries(m, object, 3, Seq::<ArgValue>::empty()),
        pending_fds(m) == Seq::<i32>::empty(),
{
    let args: Vec<Arg> = Vec::new();
    assert(views(args@) =~= Seq::<ArgValue>::empty());
    encode_message(object, 3, &args)
}

/// The drop destination finished interoperating with this data
/// source, so the client is now free to destroy this data source and
/// free all associated data.
///
/// If the action used to perform the operation was "move", the
/// source can now delete the transferred data.
///
/// The message of this event, from the object `object`.
pub fn dnd_finished(object: u32) -> (m: Message)
    requires
        object != 0,
    ensures
        carries(m, object, 4, Seq::<ArgValue>::empty()),
        pending_fds(m) == Seq::<i32>::empty(),
{
    let args: Vec<Arg> = Vec::new();
    assert(views(args@) =~= Seq::<ArgValue>::empty());
    encode_message(object, 4, &args)
}

/// This event indicates the action selected by the compositor after
/// matching the source/destination side actions. Only one action (or
/// none) will be offered here.
///
/// This event can be emitted multiple times during the drag-and-drop
/// operation, mainly in response to destination side changes through
/// wl_data_offer.set_actions, and as the data device enters/leaves
/// surfaces.
///
/// It is only possible to receive this event after
/// wl_data_source.dnd_drop_performed if the drag-and-drop operation
/// ended in an "ask" action, in which case the final wl_data_source.action
/// event will happen immediately before wl_data_source.dnd_finished.
///
/// Compositors may also change the selected action on the fly, mainly
/// in response to keyboard modifier changes during the drag-and-drop
/// operation.
///
/// The most recent action received is always the valid one. The chosen
/// action may change alongside negotiation (e.g. an "ask" action can turn
/// into a "move" operation), so the effects of the final action must
/// always be applied in wl_data_offer.dnd_finished.
///
/// Clients can trigger cursor surface changes from this point, so
/// they reflect the current action.
///
/// The message of this event, from the object `object`.
pub fn action(object: u32, dnd_action: DndAction) -> (m: Message)
    requires
        object != 0,
    ensures
        carries(m, object, 5, seq![ArgValue::Uint(dnd_action.bits)]),
        pending_fds(m) == Seq::<i32>::empty(),
{
    let args = vec![Arg::Uint(dnd_action.bits())];
    assert(views(args@) =~= seq![ArgValue::Uint(dnd_action.bits)]);
    encode_message(object, 5, &args)
}

/// The requests of `wl_data_source` as the protocol defines them: the opcode of
/// each, the kinds of its arguments in order, and the field each argument
/// fills; no other opcode names a request.
pub proof fn lemma_protocol_requests()
    ensures
        request_signature(0) == Some(seq![ArgKind::String]),
        request_signature(1) == Some(Seq::<ArgKind>::empty()),
        request_signature(2) == Some(seq![ArgKind::Uint]),
        forall|opcode: u16| opcode >= 3 ==> #[trigger] request_signature(opcode) is None,
        forall|req: Request, vals: Seq<ArgValue>| #[trigger] request_fits(req, 0, vals) <==> (req matches Request::Offer { mime_type } && vals == seq![ArgValue::Str(mime_type@)]),
        forall|req: Request, vals: Seq<ArgValue>| #[trigger] request_fits(req, 1, vals) <==> (req is Destroy && vals == Seq::<ArgValue>::empty()),
        forall|req: Request, vals: Seq<ArgValue>| #[trigger] request_fits(req, 2, vals) <==> (req matches Request::SetActions { dnd_actions } && vals == seq![ArgValue::Uint(dnd_actions.bits)]),
{
}

} // verus!
