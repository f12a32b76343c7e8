//! A wl_data_offer represents a piece of data offered for transfer
//! by another client (the source client).  It is used by the
//! copy-and-paste and drag-and-drop mechanisms.  The offer
//! describes the different mime types that the data can be
//! converted to and provides the mechanism for transferring the
//! data directly from the source client.
//!
//! The `wl_data_offer` interface, version 3: decoding of its
//! requests and encoding of its events.
use crate::codec::{
    Arg, ArgKind, ArgValue, all_fit_wire, carries, encode_message, kind_of, kinds_of,
    lemma_kinds_of, opt_text, read_args, spec_read_args, take_fd, take_nullable_string, take_string,
    take_uint, views,
};
use crate::error::DecodeError;
use crate::error::Error as RequestError;
use crate::wire::{fds_valid, Cursor, cursor_of, finish, message_opcode, opcode_of, pending_fds, same_header};
use super::wl_data_device_manager::DndAction;
use vstd::prelude::*;
use waynest::wire::Message;

verus! {

/// The name of the interface.
pub const INTERFACE: &'static str = "wl_data_offer";

/// The version of the interface that is implemented.
pub const VERSION: u32 = 3;

#[derive(Debug, PartialEq, Eq, PartialOrd, Ord, Hash, Clone, Copy)]
pub enum Error {
    /// Finish request was called untimely
    InvalidFinish,
    /// Action mask contains invalid values
    InvalidActionMask,
    /// Action argument has an invalid value
    InvalidAction,
    /// Offer doesn't accept this request
    InvalidOffer,
}

impl Error {
    /// The word that stands for this value on the wire.
    pub open spec fn wire_value(self) -> u32 {
        match self {
            Error::InvalidFinish => 0,
            Error::InvalidActionMask => 1,
            Error::InvalidAction => 2,
            Error::InvalidOffer => 3,
        }
    }

    /// The value a word stands for, if any.
    pub open spec fn from_wire(v: u32) -> Result<Self, DecodeError> {
        match v {
            0 => Ok(Error::InvalidFinish),
            1 => Ok(Error::InvalidActionMask),
            2 => Ok(Error::InvalidAction),
            3 => Ok(Error::InvalidOffer),
            _ => Err(DecodeError::MalformedPayload),
        }
    }

    /// The word that stands for this value on the wire.
    pub fn to_wire(self) -> (r: u32)
        ensures
            r == self.wire_value(),
    {
        match self {
            Error::InvalidFinish => 0,
            Error::InvalidActionMask => 1,
            Error::InvalidAction => 2,
            Error::InvalidOffer => 3,
        }
    }

    /// A value read back from its word is that value, and a word that reads
    /// as a value is that value's word.
    pub proof fn lemma_wire_roundtrip(self, v: u32)
        ensures
            Self::from_wire(self.wire_value()) == Ok::<Self, DecodeError>(self),
            Self::from_wire(v) matches Ok(e) ==> e.wire_value() == v,
    {
    }

    /// The words the protocol gives the values of this enumeration.
    pub proof fn lemma_protocol_values()
        ensures
            Error::InvalidFinish.wire_value() == 0,
            Error::InvalidActionMask.wire_value() == 1,
            Error::InvalidAction.wire_value() == 2,
            Error::InvalidOffer.wire_value() == 3,
            Self::from_wire(0) == Ok::<Self, DecodeError>(Error::InvalidFinish),
            Self::from_wire(1) == Ok::<Self, DecodeError>(Error::InvalidActionMask),
            Self::from_wire(2) == Ok::<Self, DecodeError>(Error::InvalidAction),
            Self::from_wire(3) == Ok::<Self, DecodeError>(Error::InvalidOffer),
    {
    }
}

impl TryFrom<u32> for Error {
    type Error = DecodeError;

    fn try_from(v: u32) -> (r: Result<Self, DecodeError>) {
        match v {
            0 => Ok(Error::InvalidFinish),
            1 => Ok(Error::InvalidActionMask),
            2 => Ok(Error::InvalidAction),
            3 => Ok(Error::InvalidOffer),
            _ => Err(DecodeError::MalformedPayload),
        }
    }
}

impl vstd::std_specs::convert::TryFromSpecImpl<u32> for Error {
    open spec fn obeys_try_from_spec() -> bool {
        true
    }

    open spec fn try_from_spec(v: u32) -> Result<Self, DecodeError> {
        Self::from_wire(v)
    }
}

/// A request of `wl_data_offer`, decoded from the wire.
#[derive(Debug)]
#[allow(inconsistent_fields)]
pub enum Request {
    /// Indicate that the client can accept the given mime type, or
    /// NULL for not accepted.
    Accept {
        serial: u32,
        mime_type: Option<String>,
    },
    /// To transfer the offered data, the client issues this request
    /// and indicates the mime type it wants to receive.  The transfer
    /// happens through the passed file descriptor (typically created
    /// with the pipe system call).  The source client writes the data
    /// in the mime type representation requested and then closes the
    /// file descriptor.
    Receive {
        mime_type: String,
        fd: i32,
    },
    /// Destroy the data offer.
    Destroy,
    /// Notifies the compositor that the drag destination successfully
    /// finished the drag-and-drop operation.
    Finish,
    /// Sets the actions that the destination side client supports for
    /// this operation. This request may trigger the emission of
    /// wl_data_source.action and wl_data_offer.action events if the compositor
    /// needs to change the selected action.
    SetActions {
        dnd_actions: DndAction,
        preferred_action: DndAction,
    },
}

/// The kinds of the arguments of the request with opcode `opcode`.
pub open spec fn request_signature(opcode: u16) -> Option<Seq<ArgKind>> {
    match opcode {
        0 => Some(seq![ArgKind::Uint, ArgKind::NullableString]),
        1 => Some(seq![ArgKind::String, ArgKind::Fd]),
        2 => Some(Seq::<ArgKind>::empty()),
        3 => Some(Seq::<ArgKind>::empty()),
        4 => Some(seq![ArgKind::Uint, ArgKind::Uint]),
        _ => None,
    }
}

/// Whether decoded arguments hold, where the request takes an enumeration or
/// a bit set, a word that stands for one.
pub open spec fn request_args_valid(opcode: u16, vals: Seq<ArgValue>) -> bool {
    match opcode {
        4 => DndAction::from_wire(vals[0]->Uint_0) is Ok && DndAction::from_wire(vals[1]->Uint_0) is Ok,
        _ => true,
    }
}

/// Whether `req` is the request with opcode `opcode` and arguments `vals`.
pub open spec fn request_fits(req: Request, opcode: u16, vals: Seq<ArgValue>) -> bool {
    match req {
        Request::Accept { serial, mime_type } => {
            &&& opcode == 0
            &&& vals == seq![ArgValue::Uint(serial), ArgValue::NullableStr(opt_text(mime_type))]
        },
        Request::Receive { mime_type, fd } => {
            &&& opcode == 1
            &&& vals == seq![ArgValue::Str(mime_type@), ArgValue::Fd(fd)]
        },
        Request::Destroy => {
            &&& opcode == 2
            &&& vals == Seq::<ArgValue>::empty()
        },
        Request::Finish => {
            &&& opcode == 3
            &&& vals == Seq::<ArgValue>::empty()
        },
        Request::SetActions { dnd_actions, preferred_action } => {
            &&& opcode == 4
            &&& vals == seq![
                ArgValue::Uint(dnd_actions.bits),
                ArgValue::Uint(preferred_action.bits),
            ]
        },
    }
}

/// What decoding a request with opcode `opcode` from the payload and file
/// descriptors of `c` gives.
pub open spec fn request_outcome(opcode: u16, c: Cursor, r: Result<Request, RequestError>) -> bool {
    match request_signature(opcode) {
        None => r == Err::<Request, RequestError>(RequestError::UnknownOpcode(opcode)),
        Some(sig) => match spec_read_args(sig, c) {
            None => r == Err::<Request, RequestError>(RequestError::MalformedPayload),
            Some((vals, _)) => if request_args_valid(opcode, vals) {
                r matches Ok(req) && request_fits(req, opcode, vals)
            } else {
                r == Err::<Request, RequestError>(RequestError::MalformedPayload)
            },
        },
    }
}

/// A message that carries, for an object of `wl_data_offer`, arguments `vals` of
/// the kinds the request with opcode `opcode` takes decodes to that request
/// with those arguments, where they fit the wire and name known values of
/// its enumerations; where they name unknown values, it is refused as
/// malformed.
pub proof fn lemma_request_roundtrip(
    m: Message,
    object: u32,
    opcode: u16,
    vals: Seq<ArgValue>,
    r: Result<Request, RequestError>,
)
    requires
        request_signature(opcode) == Some(kinds_of(vals)),
        carries(m, object, opcode, vals),
        all_fit_wire(vals),
        request_outcome(message_opcode(m), cursor_of(m), r),
    ensures
        request_args_valid(opcode, vals) ==> (r matches Ok(req) && request_fits(req, opcode, vals)),
        !request_args_valid(opcode, vals) ==> r == Err::<Request, RequestError>(
            RequestError::MalformedPayload,
        ),
{
}

fn signature(opcode: u16) -> (r: Option<Vec<ArgKind>>)
    ensures
        match request_signature(opcode) {
            None => r is None,
            Some(sig) => r matches Some(v) && v@ == sig,
        },
{
    match opcode {
        0 => Some(vec![ArgKind::Uint, ArgKind::NullableString]),
        1 => Some(vec![ArgKind::String, ArgKind::Fd]),
        2 => Some(Vec::new()),
        3 => Some(Vec::new()),
        4 => Some(vec![ArgKind::Uint, ArgKind::Uint]),
        _ => None,
    }
}

fn decode_accept(args: Vec<Arg>) -> (r: Result<Request, RequestError>)
    requires
        kinds_of(views(args@)) == seq![ArgKind::Uint, ArgKind::NullableString],
    ensures
        if request_args_valid(0, views(args@)) {
            r matches Ok(req) && request_fits(req, 0, views(args@))
        } else {
            r == Err::<Request, RequestError>(RequestError::MalformedPayload)
        },
{
    let ghost vals = views(args@);
    let mut args = args;
    proof {
        lemma_kinds_of(vals);
    }
    assert(vals.len() == 2);
    assert(views(args@) =~= vals.skip(0));
    assert(kind_of(vals[0]) == ArgKind::Uint);
    let serial = take_uint(&mut args);
    assert(views(args@) =~= vals.skip(1));
    assert(kind_of(vals[1]) == ArgKind::NullableString);
    let mime_type = take_nullable_string(&mut args);
    assert(vals =~= seq![ArgValue::Uint(serial), ArgValue::NullableStr(opt_text(mime_type))]);
    Ok(Request::Accept { serial, mime_type })
}

fn decode_receive(args: Vec<Arg>) -> (r: Result<Request, RequestError>)
    requires
        kinds_of(views(args@)) == seq![ArgKind::String, ArgKind::Fd],
    ensures
        if request_args_valid(1, views(args@)) {
            r matches Ok(req) && request_fits(req, 1, views(args@))
        } else {
            r == Err::<Request, RequestError>(RequestError::MalformedPayload)
        },
{
    let ghost vals = views(args@);
    let mut args = args;
    proof {
        lemma_kinds_of(vals);
    }
    assert(vals.len() == 2);
    assert(views(args@) =~= vals.skip(0));
    assert(kind_of(vals[0]) == ArgKind::String);
    let mime_type = take_string(&mut args);
    assert(views(args@) =~= vals.skip(1));
    assert(kind_of(vals[1]) == ArgKind::Fd);
    let fd = take_fd(&mut args);
    assert(vals =~= seq![ArgValue::Str(mime_type@), ArgValue::Fd(fd)]);
    Ok(Request::Receive { mime_type, fd })
}

fn decode_destroy(args: Vec<Arg>) -> (r: Result<Request, RequestError>)
    requires
        kinds_of(views(args@)) == Seq::<ArgKind>::empty(),
    ensures
        if request_args_valid(2, views(args@)) {
            r matches Ok(req) && request_fits(req, 2, views(args@))
        } else {
            r == Err::<Request, RequestError>(RequestError::MalformedPayload)
        },
{
    let ghost vals = views(args@);
    proof {
        lemma_kinds_of(vals);
    }
    assert(vals =~= Seq::<ArgValue>::empty());
    Ok(Request::Destroy)
}

fn decode_finish(args: Vec<Arg>) -> (r: Result<Request, RequestError>)
    requires
        kinds_of(views(args@)) == Seq::<ArgKind>::empty(),
    ensures
        if request_args_valid(3, views(args@)) {
            r matches Ok(req) && request_fits(req, 3, views(args@))
        } else {
            r == Err::<Request, RequestError>(RequestError::MalformedPayload)
        },
{
    let ghost vals = views(args@);
    proof {
        lemma_kinds_of(vals);
    }
    assert(vals =~= Seq::<ArgValue>::empty());
    Ok(Request::Finish)
}

fn decode_set_actions(args: Vec<Arg>) -> (r: Result<Request, RequestError>)
    requires
        kinds_of(views(args@)) == seq![ArgKind::Uint, ArgKind::Uint],
    ensures
        if request_args_valid(4, views(args@)) {
            r matches Ok(req) && request_fits(req, 4, views(args@))
        } else {
            r == Err::<Request, RequestError>(RequestError::MalformedPayload)
        },
{
    let ghost vals = views(args@);
    let mut args = args;
    proof {
        lemma_kinds_of(vals);
    }
    assert(vals.len() == 2);
    assert(views(args@) =~= vals.skip(0));
    assert(kind_of(vals[0]) == ArgKind::Uint);
    let dnd_actions_word = take_uint(&mut args);
    assert(views(args@) =~= vals.skip(1));
    assert(kind_of(vals[1]) == ArgKind::Uint);
    let preferred_action_word = take_uint(&mut args);
    let dnd_actions = match DndAction::try_from(dnd_actions_word) {
        Ok(v) => v,
        Err(_) => {
            return Err(RequestError::MalformedPayload);
        },
    };
    proof {
        dnd_actions.lemma_wire_roundtrip(dnd_actions_word);
    }
    let preferred_action = match DndAction::try_from(preferred_action_word) {
        Ok(v) => v,
        Err(_) => {
            return Err(RequestError::MalformedPayload);
        },
    };
    proof {
        preferred_action.lemma_wire_roundtrip(preferred_action_word);
    }
    assert(vals =~= seq![ArgValue::Uint(dnd_actions.bits), ArgValue::Uint(preferred_action.bits)]);
    Ok(Request::SetActions { dnd_actions, preferred_action })
}

fn into_request(opcode: u16, args: Vec<Arg>) -> (r: Result<Request, RequestError>)
    requires
        request_signature(opcode) == Some(kinds_of(views(args@))),
    ensures
        if request_args_valid(opcode, views(args@)) {
            r matches Ok(req) && request_fits(req, opcode, views(args@))
        } else {
            r == Err::<Request, RequestError>(RequestError::MalformedPayload)
        },
{
    match opcode {
        0 => decode_accept(args),
        1 => decode_receive(args),
        2 => decode_destroy(args),
        3 => decode_finish(args),
        4 => decode_set_actions(args),
        _ => {
            proof {
                assert(false);
            }
            Err(RequestError::UnknownOpcode(opcode))
        },
    }
}

/// Decodes the request a message carries for a `wl_data_offer` object: its opcode
/// picks the request, and its payload and file descriptors give the
/// arguments, in order.
///
/// A request that takes a file descriptor hands it to `OwnedFd`, so the
/// descriptors the message carries may not be -1.
pub fn handle_request(message: &mut Message) -> (r: Result<Request, RequestError>)
    requires
        (request_signature(message_opcode(*old(message))) matches Some(sig) && sig.contains(
            ArgKind::Fd,
        )) ==> fds_valid(pending_fds(*old(message))),
    ensures
        same_header(*old(message), *final(message)),
        request_outcome(message_opcode(*old(message)), cursor_of(*old(message)), r),
{
    let opcode = opcode_of(message);
    match signature(opcode) {
        None => Err(RequestError::UnknownOpcode(opcode)),
        Some(sig) => match read_args(message, &sig) {
            None => Err(RequestError::MalformedPayload),
            Some(args) => into_request(opcode, args),
        },
    }
}

/// Sent immediately after creating the wl_data_offer object.  One
/// event per offered mime type.
///
/// The message of this event, from the object `object`.
pub fn offer(object: u32, mime_type: String) -> (m: Message)
    requires
        object != 0,
    ensures
        carries(m, object, 0, seq![ArgValue::Str(mime_type@)]),
        pending_fds(m) == Seq::<i32>::empty(),
{
    let args = vec![Arg::Str(mime_type)];
    assert(views(args@) =~= seq![ArgValue::Str(mime_type@)]);
    encode_message(object, 0, &args)
}

/// This event indicates the actions offered by the data source. It
/// will be sent immediately after creating the wl_data_offer object,
/// or anytime the source side changes its offered actions through
/// wl_data_source.set_actions.
///
/// The message of this event, from the object `object`.
pub fn source_actions(object: u32, source_actions_value: DndAction) -> (m: Message)
    requires
        object != 0,
    ensures
        carries(m, object, 1, seq![ArgValue::Uint(source_actions_value.bits)]),
        pending_fds(m) == Seq::<i32>::empty(),
{
    let args = vec![Arg::Uint(source_actions_value.bits())];
    assert(views(args@) =~= seq![ArgValue::Uint(source_actions_value.bits)]);
    encode_message(object, 1, &args)
}

/// This event indicates the action selected by the compositor after
/// matching the source/destination side actions. Only one action (or
/// none) will be offered here.
///
/// This event can be emitted multiple times during the drag-and-drop
/// operation in response to destination side action changes through
/// wl_data_offer.set_actions.
///
/// This event will no longer be emitted after wl_data_device.drop
/// happened on the drag-and-drop destination, the client must
/// honor the last action received, or the last preferred one set
/// through wl_data_offer.set_actions when handling an "ask" action.
///
/// Compositors may also change the selected action on the fly, mainly
/// in response to keyboard modifier changes during the drag-and-drop
/// operation.
///
/// The most recent action received is always the valid one. Prior to
/// receiving wl_data_device.drop, the chosen action may change (e.g.
/// due to keyboard modifiers being pressed). At the time of receiving
/// wl_data_device.drop the drag-and-drop destination must honor the
/// last action received.
///
/// Action changes may still happen after wl_data_device.drop,
/// especially on "ask" actions, where the drag-and-drop destination
/// may choose another action afterwards. Action changes happening
/// at this stage are always the result of inter-client negotiation, the
/// compositor shall no longer be able to induce a different action.
///
/// Upon "ask" actions, it is expected that the drag-and-drop destination
/// may potentially choose a different action and/or mime type,
/// based on wl_data_offer.source_actions and finally chosen by the
/// user (e.g. popping up a menu with the available options). The
/// final wl_data_offer.set_actions and wl_data_offer.accept requests
/// must happen before the call to wl_data_offer.finish.
///
/// The message of this event, from the object `object`.
pub fn action(object: u32, dnd_action: DndAction) -> (m: Message)
    requires
        object != 0,
    ensures
        carries(m, object, 2, seq![ArgValue::Uint(dnd_action.bits)]),
        pending_fds(m) == Seq::<i32>::empty(),
{
    let args = vec![Arg::Uint(dnd_action.bits())];
    assert(views(args@) =~= seq![ArgValue::Uint(dnd_action.bits)]);
    encode_message(object, 2, &args)
}

/// The requests of `wl_data_offer` as the protocol defines them: the opcode of
/// each, the kinds of its arguments in order, and the field each argument
/// fills; no other opcode names a request.
pub proof fn lemma_protocol_requests()
    ensures
        request_signature(0) == Some(seq![ArgKind::Uint, ArgKind::NullableString]),
        request_signature(1) == Some(seq![ArgKind::String, ArgKind::Fd]),
        request_signature(2) == Some(Seq::<ArgKind>::empty()),
        request_signature(3) == Some(Seq::<ArgKind>::empty()),
        request_signature(4) == Some(seq![ArgKind::Uint, ArgKind::Uint]),
        forall|opcode: u16| opcode >= 5 ==> #[trigger] request_signature(opcode) is None,
        forall|req: Request, vals: Seq<ArgValue>| #[trigger] request_fits(req, 0, vals) <==> (req matches Request::Accept { serial, mime_type } && vals == seq![
            ArgValue::Uint(serial),
            ArgValue::NullableStr(opt_text(mime_type)),
        ]),
        forall|req: Request, vals: Seq<ArgValue>| #[trigger] request_fits(req, 1, vals) <==> (req matches Request::Receive { mime_type, fd } && vals == seq![
            ArgValue::Str(mime_type@),
            ArgValue::Fd(fd),
        ]),
        forall|req: Request, vals: Seq<ArgValue>| #[trigger] request_fits(req, 2, vals) <==> (req is Destroy && vals == Seq::<ArgValue>::empty()),
        forall|req: Request, vals: Seq<ArgValue>| #[trigger] request_fits(req, 3, vals) <==> (req is Finish && vals == Seq::<ArgValue>::empty()),
        forall|req: Request, vals: Seq<ArgValue>| #[trigger] request_fits(req, 4, vals) <==> (req matches Request::SetActions {
            dnd_actions,
            preferred_action,
        } && vals == seq![ArgValue::Uint(dnd_actions.bits), ArgValue::Uint(preferred_action.bits)]),
{
}

} // verus!
