//! A pad device is a set of buttons, rings and strips
//! usually physically present on the tablet device itself. Some
//! exceptions exist where the pad device is physically detached, e.g. the
//! Wacom ExpressKey Remote.
//!
//! The `zwp_tablet_pad_v2` interface, version 1: decoding of its
//! requests and encoding of its events.
use crate::codec::{
    Arg, ArgKind, ArgValue, all_fit_wire, carries, encode_message, kind_of, kinds_of,
    lemma_kinds_of, read_args, spec_read_args, take_string, take_uint, views,
};
use crate::error::DecodeError;
use crate::error::Error as RequestError;
use crate::wire::{Cursor, cursor_of, message_opcode, opcode_of, pending_fds, same_header};
use vstd::prelude::*;
use waynest::wire::Message;

verus! {

/// The name of the interface.
pub const INTERFACE: &'static str = "zwp_tablet_pad_v2";

/// The version of the interface that is implemented.
pub const VERSION: u32 = 1;

/// Describes the physical state of a button that caused the button
/// event.
#[derive(Debug, PartialEq, Eq, PartialOrd, Ord, Hash, Clone, Copy)]
pub enum ButtonState {
    /// The button is not pressed
    Released,
    /// The button is pressed
    Pressed,
}

impl ButtonState {
    /// The word that stands for this value on the wire.
    pub open spec fn wire_value(self) -> u32 {
        match self {
            ButtonState::Released => 0,
            ButtonState::Pressed => 1,
        }
    }

    /// The value a word stands for, if any.
    pub open spec fn from_wire(v: u32) -> Result<Self, DecodeError> {
        match v {
            0 => Ok(ButtonState::Released),
            1 => Ok(ButtonState::Pressed),
            _ => Err(DecodeError::MalformedPayload),
        }
    }

    /// The word that stands for this value on the wire.
    pub fn to_wire(self) -> (r: u32)
        ensures
            r == self.wire_value(),
    {
        match self {
            ButtonState::Released => 0,
            ButtonState::Pressed => 1,
        }
    }

    /// A value read back from its word is that value, and a word that reads
    /// as a value is that value's word.
    pub proof fn lemma_wire_roundtrip(self, v: u32)
        ensures
            Self::from_wire(self.wire_value()) == Ok::<Self, DecodeError>(self),
            Self::from_wire(v) matches Ok(e) ==> e.wire_value() == v,
    {
    }

    /// The words the protocol gives the values of this enumeration.
    pub proof fn lemma_protocol_values()
        ensures
            ButtonState::Released.wire_value() == 0,
            ButtonState::Pressed.wire_value() == 1,
            Self::from_wire(0) == Ok::<Self, DecodeError>(ButtonState::Released),
            Self::from_wire(1) == Ok::<Self, DecodeError>(ButtonState::Pressed),
    {
    }
}

impl TryFrom<u32> for ButtonState {
    type Error = DecodeError;

    fn try_from(v: u32) -> (r: Result<Self, DecodeError>) {
        match v {
            0 => Ok(ButtonState::Released),
            1 => Ok(ButtonState::Pressed),
            _ => Err(DecodeError::MalformedPayload),
        }
    }
}

impl vstd::std_specs::convert::TryFromSpecImpl<u32> for ButtonState {
    open spec fn obeys_try_from_spec() -> bool {
        true
    }

    open spec fn try_from_spec(v: u32) -> Result<Self, DecodeError> {
        Self::from_wire(v)
    }
}

/// A request of `zwp_tablet_pad_v2`, decoded from the wire.
#[derive(Debug)]
pub enum Request {
    /// Requests the compositor to use the provided feedback string
    /// associated with this button. This request should be issued immediately
    /// after a wp_tablet_pad_group.mode_switch event from the corresponding
    /// group is received, or whenever a button is mapped to a different
    /// action. See wp_tablet_pad_group.mode_switch for more details.
    SetFeedback {
        button: u32,
        description: String,
        serial: u32,
    },
    /// Destroy the wp_tablet_pad object. Objects created from this object
    /// are unaffected and should be destroyed separately.
    Destroy,
}

/// The kinds of the arguments of the request with opcode `opcode`.
pub open spec fn request_signature(opcode: u16) -> Option<Seq<ArgKind>> {
    match opcode {
        0 => Some(seq![ArgKind::Uint, ArgKind::String, ArgKind::Uint]),
        1 => Some(Seq::<ArgKind>::empty()),
        _ => None,
    }
}

/// Whether decoded arguments hold, where the request takes an enumeration or
/// a bit set, a word that stands for one.
pub open spec fn request_args_valid(opcode: u16, vals: Seq<ArgValue>) -> bool {
    true
}

/// Whether `req` is the request with opcode `opcode` and arguments `vals`.
pub open spec fn request_fits(req: Request, opcode: u16, vals: Seq<ArgValue>) -> bool {
    match req {
        Request::SetFeedback { button, description, serial } => {
            &&& opcode == 0
            &&& vals == seq![
                ArgValue::Uint(button),
                ArgValue::Str(description@),
                ArgValue::Uint(serial),
            ]
        },
        Request::Destroy => {
            &&& opcode == 1
            &&& vals == Seq::<ArgValue>::empty()
        },
    }
}

/// What decoding a request with opcode `opcode` from the payload and file
/// descriptors of `c` gives.
pub open spec fn request_outcome(opcode: u16, c: Cursor, r: Result<Request, RequestError>) -> bool {
    match request_signature(opcode) {
        None => r == Err::<Request, RequestError>(RequestError::UnknownOpcode(opcode)),
        Some(sig) => match spec_read_args(sig, c) {
            None => r == Err::<Request, RequestError>(RequestError::MalformedPayload),
            Some((vals, _)) => if request_args_valid(opcode, vals) {
                r matches Ok(req) && request_fits(req, opcode, vals)
            } else {
                r == Err::<Request, RequestError>(RequestError::MalformedPayload)
            },
        },
    }
}

/// A message that carries, for an object of `zwp_tablet_pad_v2`, arguments `vals` of
/// the kinds the request with opcode `opcode` takes decodes to that request
/// with those arguments, where they fit the wire and name known values of
/// its enumerations; where they name unknown values, it is refused as
/// malformed.
pub proof fn lemma_request_roundtrip(
    m: Message,
    object: u32,
    opcode: u16,
    vals: Seq<ArgValue>,
    r: Result<Request, RequestError>,
)
    requires
        request_signature(opcode) == Some(kinds_of(vals)),
        carries(m, object, opcode, vals),
        all_fit_wire(vals),
        request_outcome(message_opcode(m), cursor_of(m), r),
    ensures
        request_args_valid(opcode, vals) ==> (r matches Ok(req) && request_fits(req, opcode, vals)),
        !request_args_valid(opcode, vals) ==> r == Err::<Request, RequestError>(
            RequestError::MalformedPayload,
        ),
{
}

fn signature(opcode: u16) -> (r: Option<Vec<ArgKind>>)
    ensures
        match request_signature(opcode) {
            None => r is None,
            Some(sig) => r matches Some(v) && v@ == sig,
        },
{
    match opcode {
        0 => Some(vec![ArgKind::Uint, ArgKind::String, ArgKind::Uint]),
        1 => Some(Vec::new()),
        _ => None,
    }
}

fn decode_set_feedback(args: Vec<Arg>) -> (r: Result<Request, RequestError>)
    requires
        kinds_of(views(args@)) == seq![ArgKind::Uint, ArgKind::String, ArgKind::Uint],
    ensures
        if request_args_valid(0, views(args@)) {
            r matches Ok(req) && request_fits(req, 0, views(args@))
        } else {
            r == Err::<Request, RequestError>(RequestError::MalformedPayload)
        },
{
    let ghost vals = views(args@);
    let mut args = args;
    proof {
        lemma_kinds_of(vals);
    }
    assert(vals.len() == 3);
    assert(views(args@) =~= vals.skip(0));
    assert(kind_of(vals[0]) == ArgKind::Uint);
    let button = take_uint(&mut args);
    assert(views(args@) =~= vals.skip(1));
    assert(kind_of(vals[1]) == ArgKind::String);
    let description = take_string(&mut args);
    assert(views(args@) =~= vals.skip(2));
    assert(kind_of(vals[2]) == ArgKind::Uint);
    let serial = take_uint(&mut args);
    assert(vals =~= seq![
        ArgValue::Uint(button),
        ArgValue::Str(description@),
        ArgValue::Uint(serial),
    ]);
    Ok(Request::SetFeedback { button, description, serial })
}

fn decode_destroy(args: Vec<Arg>) -> (r: Result<Request, RequestError>)
    requires
        kinds_of(views(args@)) == Seq::<ArgKind>::empty(),
    ensures
        if request_args_valid(1, views(args@)) {
            r matches Ok(req) && request_fits(req, 1, views(args@))
        } else {
            r == Err::<Request, RequestError>(RequestError::MalformedPayload)
        },
{
    let ghost vals = views(args@);
    proof {
        lemma_kinds_of(vals);
    }
    assert(vals =~= Seq::<ArgValue>::empty());
    Ok(Request::Destroy)
}

fn into_request(opcode: u16, args: Vec<Arg>) -> (r: Result<Request, RequestError>)
    requires
        request_signature(opcode) == Some(kinds_of(views(args@))),
    ensures
        if request_args_valid(opcode, views(args@)) {
            r matches Ok(req) && request_fits(req, opcode, views(args@))
        } else {
            r == Err::<Request, RequestError>(RequestError::MalformedPayload)
        },
{
    match opcode {
        0 => decode_set_feedback(args),
        1 => decode_destroy(args),
        _ => {
            proof {
                assert(false);
            }
            Err(RequestError::UnknownOpcode(opcode))
        },
    }
}

/// Decodes the request a message carries for a `zwp_tablet_pad_v2` object: its opcode
/// picks the request, and its payload and file descriptors give the
/// arguments, in order.
pub fn handle_request(message: &mut Message) -> (r: Result<Request, RequestError>)
    ensures
        same_header(*old(message), *final(message)),
        request_outcome(message_opcode(*old(message)), cursor_of(*old(message)), r),
{
    let opcode = opcode_of(message);
    match signature(opcode) {
        None => Err(RequestError::UnknownOpcode(opcode)),
        Some(sig) => match read_args(message, &sig) {
            None => Err(RequestError::MalformedPayload),
            Some(args) => into_request(opcode, args),
        },
    }
}

/// Sent on wp_tablet_pad initialization to announce available groups.
/// One event is sent for each pad group available.
///
/// This event is sent in the initial burst of events before the
/// wp_tablet_pad.done event. At least one group will be announced.
///
/// The message of this event, from the object `object`.
pub fn group(object: u32, pad_group: u32) -> (m: Message)
    requires
        object != 0,
        pad_group != 0,
    ensures
        carries(m, object, 0, seq![ArgValue::Object(pad_group)]),
        pending_fds(m) == Seq::<i32>::empty(),
{
    let args = vec![Arg::Object(pad_group)];
    assert(views(args@) =~= seq![ArgValue::Object(pad_group)]);
    encode_message(object, 0, &args)
}

/// A system-specific device path that indicates which device is behind
/// this wp_tablet_pad. This information may be used to gather additional
/// information about the device, e.g. through libwacom.
///
/// The format of the path is unspecified, it may be a device node, a
/// sysfs path, or some other identifier. It is up to the client to
/// identify the string provided.
///
/// This event is sent in the initial burst of events before the
/// wp_tablet_pad.done event.
///
/// The message of this event, from the object `object`.
pub fn path(object: u32, path_value: String) -> (m: Message)
    requires
        object != 0,
    ensures
        carries(m, object, 1, seq![ArgValue::Str(path_value@)]),
        pending_fds(m) == Seq::<i32>::empty(),
{
    let args = vec![Arg::Str(path_value)];
    assert(views(args@) =~= seq![ArgValue::Str(path_value@)]);
    encode_message(object, 1, &args)
}

/// Sent on wp_tablet_pad initialization to announce the available
/// buttons.
///
/// This event is sent in the initial burst of events before the
/// wp_tablet_pad.done event. This event is only sent when at least one
/// button is available.
///
/// The message of this event, from the object `object`.
pub fn buttons(object: u32, buttons_value: u32) -> (m: Message)
    requires
        object != 0,
    ensures
        carries(m, object, 2, seq![ArgValue::Uint(buttons_value)]),
        pending_fds(m) == Seq::<i32>::empty(),
{
    let args = vec![Arg::Uint(buttons_value)];
    assert(views(args@) =~= seq![ArgValue::Uint(buttons_value)]);
    encode_message(object, 2, &args)
}

/// This event signals the end of the initial burst of descriptive
/// events. A client may consider the static description of the pad to
/// be complete and finalize initialization of the pad.
///
/// The message of this event, from the object `object`.
pub fn done(object: u32) -> (m: Message)
    requires
        object != 0,
    ensures
        carries(m, object, 3, Seq::<ArgValue>::empty()),
        pending_fds(m) == Seq::<i32>::empty(),
{
    let args: Vec<Arg> = Vec::new();
    assert(views(args@) =~= Seq::<ArgValue>::empty());
    encode_message(object, 3, &args)
}

/// Sent whenever the physical state of a button changes.
///
/// The message of this event, from the object `object`.
pub fn button(object: u32, time: u32, button_value: u32, state: ButtonState) -> (m: Message)
    requires
        object != 0,
    ensures
        carries(
            m,
            object,
            4,
            seq![
                ArgValue::Uint(time),
                ArgValue::Uint(button_value),
                ArgValue::Uint(state.wire_value()),
            ],
        ),
        pending_fds(m) == Seq::<i32>::empty(),
{
    let args = vec![Arg::Uint(time), Arg::Uint(button_value), Arg::Uint(state.to_wire())];
    assert(views(args@) =~= seq![
        ArgValue::Uint(time),
        ArgValue::Uint(button_value),
        ArgValue::Uint(state.wire_value()),
    ]);
    encode_message(object, 4, &args)
}

/// Notification that this pad is focused on the specified surface.
///
/// The message of this event, from the object `object`.
pub fn enter(object: u32, serial: u32, tablet: u32, surface: u32) -> (m: Message)
    requires
        object != 0,
        tablet != 0,
        surface != 0,
    ensures
        carries(
            m,
            object,
            5,
            seq![ArgValue::Uint(serial), ArgValue::Object(tablet), ArgValue::Object(surface)],
        ),
        pending_fds(m) == Seq::<i32>::empty(),
{
    let args = vec![Arg::Uint(serial), Arg::Object(tablet), Arg::Object(surface)];
    assert(views(args@) =~= seq![
        ArgValue::Uint(serial),
        ArgValue::Object(tablet),
        ArgValue::Object(surface),
    ]);
    encode_message(object, 5, &args)
}

/// Notification that this pad is no longer focused on the specified
/// surface.
///
/// The message of this event, from the object `object`.
pub fn leave(object: u32, serial: u32, surface: u32) -> (m: Message)
    requires
        object != 0,
        surface != 0,
    ensures
        carries(m, object, 6, seq![ArgValue::Uint(serial), ArgValue::Object(surface)]),
        pending_fds(m) == Seq::<i32>::empty(),
{
    let args = vec![Arg::Uint(serial), Arg::Object(surface)];
    assert(views(args@) =~= seq![ArgValue::Uint(serial), ArgValue::Object(surface)]);
    encode_message(object, 6, &args)
}

/// Sent when the pad has been removed from the system. When a tablet
/// is removed its pad(s) will be removed too.
///
/// When this event is received, the client must destroy all rings, strips
/// and groups that were offered by this pad, and issue wp_tablet_pad.destroy
/// the pad itself.
///
/// The message of this event, from the object `object`.
pub fn removed(object: u32) -> (m: Message)
    requires
        object != 0,
    ensures
        carries(m, object, 7, Seq::<ArgValue>::empty()),
        pending_fds(m) == Seq::<i32>::empty(),
{
    let args: Vec<Arg> = Vec::new();
    assert(views(args@) =~= Seq::<ArgValue>::empty());
    encode_message(object, 7, &args)
}

/// The requests of `zwp_tablet_pad_v2` as the protocol defines them: the opcode of
/// each, the kinds of its arguments in order, and the field each argument
/// fills; no other opcode names a request.
pub proof fn lemma_protocol_requests()
    ensures
        request_signature(0) == Some(seq![ArgKind::Uint, ArgKind::String, ArgKind::Uint]),
        request_signature(1) == Some(Seq::<ArgKind>::empty()),
        forall|opcode: u16| opcode >= 2 ==> #[trigger] request_signature(opcode) is None,
        forall|req: Request, vals: Seq<ArgValue>| #[trigger] request_fits(req, 0, vals) <==> (req matches Request::SetFeedback {
            button,
            description,
            serial,
        } && vals == seq![
            ArgValue::Uint(button),
            ArgValue::Str(description@),
            ArgValue::Uint(serial),
        ]),
        forall|req: Request, vals: Seq<ArgValue>| #[trigger] request_fits(req, 1, vals) <==> (req is Destroy && vals == Seq::<ArgValue>::empty()),
{
}

} // verus!
