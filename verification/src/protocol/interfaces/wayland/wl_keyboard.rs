//! The wl_keyboard interface represents one or more keyboards
//! associated with a seat.
//!
//! The `wl_keyboard` interface, version 9: decoding of its
//! requests and encoding of its events.
use crate::codec::{
    Arg, ArgKind, ArgValue, all_fit_wire, carries, cursor_from, encode_message, encode_payload,
    kinds_of, lemma_kinds_of, read_args, spec_read_args, views,
};
use crate::error::DecodeError;
use crate::error::Error as RequestError;
use crate::wire::{
    Cursor, built_payload, cursor_of, finish, message_opcode, opcode_of, pending_fds, put_fd,
    raw_fd_number, same_header,
};
use rustix::fd::OwnedFd;
use vstd::prelude::*;
use waynest::wire::Message;

verus! {

/// The name of the interface.
pub const INTERFACE: &'static str = "wl_keyboard";

/// The version of the interface that is implemented.
pub const VERSION: u32 = 9;

/// This specifies the format of the keymap provided to the
/// client with the wl_keyboard.keymap event.
#[derive(Debug, PartialEq, Eq, PartialOrd, Ord, Hash, Clone, Copy)]
pub enum KeymapFormat {
    /// No keymap; client must understand how to interpret the raw keycode
    NoKeymap,
    /// Libxkbcommon compatible, null-terminated string; to determine the xkb keycode, clients must add 8 to the key event keycode
    XkbV1,
}

impl KeymapFormat {
    /// The word that stands for this value on the wire.
    pub open spec fn wire_value(self) -> u32 {
        match self {
            KeymapFormat::NoKeymap => 0,
            KeymapFormat::XkbV1 => 1,
        }
    }

    /// The value a word stands for, if any.
    pub open spec fn from_wire(v: u32) -> Result<Self, DecodeError> {
        match v {
            0 => Ok(KeymapFormat::NoKeymap),
            1 => Ok(KeymapFormat::XkbV1),
            _ => Err(DecodeError::MalformedPayload),
        }
    }

    /// The word that stands for this value on the wire.
    pub fn to_wire(self) -> (r: u32)
        ensures
            r == self.wire_value(),
    {
        match self {
            KeymapFormat::NoKeymap => 0,
            KeymapFormat::XkbV1 => 1,
        }
    }

    /// A value read back from its word is that value, and a word that reads
    /// as a value is that value's word.
    pub proof fn lemma_wire_roundtrip(self, v: u32)
        ensures
            Self::from_wire(self.wire_value()) == Ok::<Self, DecodeError>(self),
            Self::from_wire(v) matches Ok(e) ==> e.wire_value() == v,
    {
    }

    /// The words the protocol gives the values of this enumeration.
    pub proof fn lemma_protocol_values()
        ensures
            KeymapFormat::NoKeymap.wire_value() == 0,
            KeymapFormat::XkbV1.wire_value() == 1,
            Self::from_wire(0) == Ok::<Self, DecodeError>(KeymapFormat::NoKeymap),
            Self::from_wire(1) == Ok::<Self, DecodeError>(KeymapFormat::XkbV1),
    {
    }
}

impl TryFrom<u32> for KeymapFormat {
    type Error = DecodeError;

    fn try_from(v: u32) -> (r: Result<Self, DecodeError>) {
        match v {
            0 => Ok(KeymapFormat::NoKeymap),
            1 => Ok(KeymapFormat::XkbV1),
            _ => Err(DecodeError::MalformedPayload),
        }
    }
}

impl vstd::std_specs::convert::TryFromSpecImpl<u32> for KeymapFormat {
    open spec fn obeys_try_from_spec() -> bool {
        true
    }

    open spec fn try_from_spec(v: u32) -> Result<Self, DecodeError> {
        Self::from_wire(v)
    }
}

/// Describes the physical state of a key that produced the key event.
#[derive(Debug, PartialEq, Eq, PartialOrd, Ord, Hash, Clone, Copy)]
pub enum KeyState {
    /// Key is not pressed
    Released,
    /// Key is pressed
    Pressed,
}

impl KeyState {
    /// The word that stands for this value on the wire.
    pub open spec fn wire_value(self) -> u32 {
        match self {
            KeyState::Released => 0,
            KeyState::Pressed => 1,
        }
    }

    /// The value a word stands for, if any.
    pub open spec fn from_wire(v: u32) -> Result<Self, DecodeError> {
        match v {
            0 => Ok(KeyState::Released),
            1 => Ok(KeyState::Pressed),
            _ => Err(DecodeError::MalformedPayload),
        }
    }

    /// The word that stands for this value on the wire.
    pub fn to_wire(self) -> (r: u32)
        ensures
            r == self.wire_value(),
    {
        match self {
            KeyState::Released => 0,
            KeyState::Pressed => 1,
        }
    }

    /// A value read back from its word is that value, and a word that reads
    /// as a value is that value's word.
    pub proof fn lemma_wire_roundtrip(self, v: u32)
        ensures
            Self::from_wire(self.wire_value()) == Ok::<Self, DecodeError>(self),
            Self::from_wire(v) matches Ok(e) ==> e.wire_value() == v,
    {
    }

    /// The words the protocol gives the values of this enumeration.
    pub proof fn lemma_protocol_values()
        ensures
            KeyState::Released.wire_value() == 0,
            KeyState::Pressed.wire_value() == 1,
            Self::from_wire(0) == Ok::<Self, DecodeError>(KeyState::Released),
            Self::from_wire(1) == Ok::<Self, DecodeError>(KeyState::Pressed),
    {
    }
}

impl TryFrom<u32> for KeyState {
    type Error = DecodeError;

    fn try_from(v: u32) -> (r: Result<Self, DecodeError>) {
        match v {
            0 => Ok(KeyState::Released),
            1 => Ok(KeyState::Pressed),
            _ => Err(DecodeError::MalformedPayload),
        }
    }
}

impl vstd::std_specs::convert::TryFromSpecImpl<u32> for KeyState {
    open spec fn obeys_try_from_spec() -> bool {
        true
    }

    open spec fn try_from_spec(v: u32) -> Result<Self, DecodeError> {
        Self::from_wire(v)
    }
}

/// A request of `wl_keyboard`, decoded from the wire.
#[derive(Debug)]
pub enum Request {
    Release,
}

/// The kinds of the arguments of the request with opcode `opcode`.
pub open spec fn request_signature(opcode: u16) -> Option<Seq<ArgKind>> {
    match opcode {
        0 => Some(Seq::<ArgKind>::empty()),
        _ => None,
    }
}

/// Whether decoded arguments hold, where the request takes an enumeration or
/// a bit set, a word that stands for one.
pub open spec fn request_args_valid(opcode: u16, vals: Seq<ArgValue>) -> bool {
    true
}

/// Whether `req` is the request with opcode `opcode` and arguments `vals`.
pub open spec fn request_fits(req: Request, opcode: u16, vals: Seq<ArgValue>) -> bool {
    match req {
        Request::Release => {
            &&& opcode == 0
            &&& vals == Seq::<ArgValue>::empty()
        },
    }
}

/// What decoding a request with opcode `opcode` from the payload and file
/// descriptors of `c` gives.
pub open spec fn request_outcome(opcode: u16, c: Cursor, r: Result<Request, RequestError>) -> bool {
    match request_signature(opcode) {
        None => r == Err::<Request, RequestError>(RequestError::UnknownOpcode(opcode)),
        Some(sig) => match spec_read_args(sig, c) {
            None => r == Err::<Request, RequestError>(RequestError::MalformedPayload),
            Some((vals, _)) => if request_args_valid(opcode, vals) {
                r matches Ok(req) && request_fits(req, opcode, vals)
            } else {
                r == Err::<Request, RequestError>(RequestError::MalformedPayload)
            },
        },
    }
}

/// A message that carries, for an object of `wl_keyboard`, arguments `vals` of
/// the kinds the request with opcode `opcode` takes decodes to that request
/// with those arguments, where they fit the wire and name known values of
/// its enumerations; where they name unknown values, it is refused as
/// malformed.
pub proof fn lemma_request_roundtrip(
    m: Message,
    object: u32,
    opcode: u16,
    vals: Seq<ArgValue>,
    r: Result<Request, RequestError>,
)
    requires
        request_signature(opcode) == Some(kinds_of(vals)),
        carries(m, object, opcode, vals),
        all_fit_wire(vals),
        request_outcome(message_opcode(m), cursor_of(m), r),
    ensures
        request_args_valid(opcode, vals) ==> (r matches Ok(req) && request_fits(req, opcode, vals)),
        !request_args_valid(opcode, vals) ==> r == Err::<Request, RequestError>(
            RequestError::MalformedPayload,
        ),
{
}

fn signature(opcode: u16) -> (r: Option<Vec<ArgKind>>)
    ensures
        match request_signature(opcode) {
            None => r is None,
            Some(sig) => r matches Some(v) && v@ == sig,
        },
{
    match opcode {
        0 => Some(Vec::new()),
        _ => None,
    }
}

fn decode_release(args: Vec<Arg>) -> (r: Result<Request, RequestError>)
    requires
        kinds_of(views(args@)) == Seq::<ArgKind>::empty(),
    ensures
        if request_args_valid(0, views(args@)) {
            r matches Ok(req) && request_fits(req, 0, views(args@))
        } else {
            r == Err::<Request, RequestError>(RequestError::MalformedPayload)
        },
{
    let ghost vals = views(args@);
    proof {
        lemma_kinds_of(vals);
    }
    assert(vals =~= Seq::<ArgValue>::empty());
    Ok(Request::Release)
}

fn into_request(opcode: u16, args: Vec<Arg>) -> (r: Result<Request, RequestError>)
    requires
        request_signature(opcode) == Some(kinds_of(views(args@))),
    ensures
        if request_args_valid(opcode, views(args@)) {
            r matches Ok(req) && request_fits(req, opcode, views(args@))
        } else {
            r == Err::<Request, RequestError>(RequestError::MalformedPayload)
        },
{
    match opcode {
        0 => decode_release(args),
        _ => {
            proof {
                assert(false);
            }
            Err(RequestError::UnknownOpcode(opcode))
        },
    }
}

/// Decodes the request a message carries for a `wl_keyboard` object: its opcode
/// picks the request, and its payload and file descriptors give the
/// arguments, in order.
pub fn handle_request(message: &mut Message) -> (r: Result<Request, RequestError>)
    ensures
        same_header(*old(message), *final(message)),
        request_outcome(message_opcode(*old(message)), cursor_of(*old(message)), r),
{
    let opcode = opcode_of(message);
    match signature(opcode) {
        None => Err(RequestError::UnknownOpcode(opcode)),
        Some(sig) => match read_args(message, &sig) {
            None => Err(RequestError::MalformedPayload),
            Some(args) => into_request(opcode, args),
        },
    }
}

/// This event provides a file descriptor to the client which can be
/// memory-mapped in read-only mode to provide a keyboard mapping
/// description.
///
/// From version 7 onwards, the fd must be mapped with MAP_PRIVATE by
/// the recipient, as MAP_SHARED may fail.
///
/// The message of this event, from the object `object`.
pub fn keymap(object: u32, format: KeymapFormat, fd: OwnedFd, size: u32) -> (m: Message)
    requires
        object != 0,
    ensures
        carries(m, object, 0, seq![ArgValue::Uint(format.wire_value()), ArgValue::Uint(size)]),
        pending_fds(m) == seq![raw_fd_number(fd)],
{
    let args = vec![Arg::Uint(format.to_wire()), Arg::Uint(size)];
    assert(views(args@) =~= seq![ArgValue::Uint(format.wire_value()), ArgValue::Uint(size)]);
    let payload = encode_payload(&args);
    let ghost bytes = built_payload(payload);
    let payload = put_fd(payload, fd);
    let m = finish(payload, object, 0);
    assert(cursor_of(m) == cursor_from(bytes, pending_fds(m)));
    m
}

/// Notification that this seat's keyboard focus is on a certain
/// surface.
///
/// The compositor must send the wl_keyboard.modifiers event after this
/// event.
///
/// In the wl_keyboard logical state, this event sets the active surface to
/// the surface argument and the keys currently logically down to the keys
/// in the keys argument. The compositor must not send this event if the
/// wl_keyboard already had an active surface immediately before this event.
///
/// The message of this event, from the object `object`.
pub fn enter(object: u32, serial: u32, surface: u32, keys: Vec<u8>) -> (m: Message)
    requires
        object != 0,
        surface != 0,
    ensures
        carries(
            m,
            object,
            1,
            seq![ArgValue::Uint(serial), ArgValue::Object(surface), ArgValue::Array(keys@)],
        ),
        pending_fds(m) == Seq::<i32>::empty(),
{
    let args = vec![Arg::Uint(serial), Arg::Object(surface), Arg::Array(keys)];
    assert(views(args@) =~= seq![
        ArgValue::Uint(serial),
        ArgValue::Object(surface),
        ArgValue::Array(keys@),
    ]);
    encode_message(object, 1, &args)
}

/// Notification that this seat's keyboard focus is no longer on
/// a certain surface.
///
/// The leave notification is sent before the enter notification
/// for the new focus.
///
/// In the wl_keyboard logical state, this event resets all values to their
/// defaults. The compositor must not send this event if the active surface
/// of the wl_keyboard was not equal to the surface argument immediately
/// before this event.
///
/// The message of this event, from the object `object`.
pub fn leave(object: u32, serial: u32, surface: u32) -> (m: Message)
    requires
        object != 0,
        surface != 0,
    ensures
        carries(m, object, 2, seq![ArgValue::Uint(serial), ArgValue::Object(surface)]),
        pending_fds(m) == Seq::<i32>::empty(),
{
    let args = vec![Arg::Uint(serial), Arg::Object(surface)];
    assert(views(args@) =~= seq![ArgValue::Uint(serial), ArgValue::Object(surface)]);
    encode_message(object, 2, &args)
}

/// A key was pressed or released.
/// The time argument is a timestamp with millisecond
/// granularity, with an undefined base.
///
/// The key is a platform-specific key code that can be interpreted
/// by feeding it to the keyboard mapping (see the keymap event).
///
/// If this event produces a change in modifiers, then the resulting
/// wl_keyboard.modifiers event must be sent after this event.
///
/// In the wl_keyboard logical state, this event adds the key to the keys
/// currently logically down (if the state argument is pressed) or removes
/// the key from the keys currently logically down (if the state argument is
/// released). The compositor must not send this event if the wl_keyboard
/// did not have an active surface immediately before this event. The
/// compositor must not send this event if state is pressed (resp. released)
/// and the key was already logically down (resp. was not logically down)
/// immediately before this event.
///
/// The message of this event, from the object `object`.
pub fn key(object: u32, serial: u32, time: u32, key_value: u32, state: KeyState) -> (m: Message)
    requires
        object != 0,
    ensures
        carries(
            m,
            object,
            3,
            seq![
                ArgValue::Uint(serial),
                ArgValue::Uint(time),
                ArgValue::Uint(key_value),
                ArgValue::Uint(state.wire_value()),
            ],
        ),
        pending_fds(m) == Seq::<i32>::empty(),
{
    let args = vec![
        Arg::Uint(serial),
        Arg::Uint(time),
        Arg::Uint(key_value),
        Arg::Uint(state.to_wire()),
    ];
    assert(views(args@) =~= seq![
        ArgValue::Uint(serial),
        ArgValue::Uint(time),
        ArgValue::Uint(key_value),
        ArgValue::Uint(state.wire_value()),
    ]);
    encode_message(object, 3, &args)
}

/// Notifies clients that the modifier and/or group state has
/// changed, and it should update its local state.
///
/// The compositor may send this event without a surface of the client
/// having keyboard focus, for example to tie modifier information to
/// pointer focus instead. If a modifier event with pressed modifiers is sent
/// without a prior enter event, the client can assume the modifier state is
/// valid until it receives the next wl_keyboard.modifiers event. In order to
/// reset the modifier state again, the compositor can send a
/// wl_keyboard.modifiers event with no pressed modifiers.
///
/// In the wl_keyboard logical state, this event updates the modifiers and
/// group.
///
/// The message of this event, from the object `object`.
pub fn modifiers(
    object: u32,
    serial: u32,
    mods_depressed: u32,
    mods_latched: u32,
    mods_locked: u32,
    group: u32,
) -> (m: Message)
    requires
        object != 0,
    ensures
        carries(
            m,
            object,
            4,
            seq![
                ArgValue::Uint(serial),
                ArgValue::Uint(mods_depressed),
                ArgValue::Uint(mods_latched),
                ArgValue::Uint(mods_locked),
                ArgValue::Uint(group),
            ],
        ),
        pending_fds(m) == Seq::<i32>::empty(),
{
    let args = vec![
        Arg::Uint(serial),
        Arg::Uint(mods_depressed),
        Arg::Uint(mods_latched),
        Arg::Uint(mods_locked),
        Arg::Uint(group),
    ];
    assert(views(args@) =~= seq![
        ArgValue::Uint(serial),
        ArgValue::Uint(mods_depressed),
        ArgValue::Uint(mods_latched),
        ArgValue::Uint(mods_locked),
        ArgValue::Uint(group),
    ]);
    encode_message(object, 4, &args)
}

/// Informs the client about the keyboard's repeat rate and delay.
///
/// This event is sent as soon as the wl_keyboard object has been created,
/// and is guaranteed to be received by the client before any key press
/// event.
///
/// Negative values for either rate or delay are illegal. A rate of zero
/// will disable any repeating (regardless of the value of delay).
///
/// This event can be sent later on as well with a new value if necessary,
/// so clients should continue listening for the event past the creation
/// of wl_keyboard.
///
/// The message of this event, from the object `object`.
pub fn repeat_info(object: u32, rate: i32, delay: i32) -> (m: Message)
    requires
        object != 0,
    ensures
        carries(m, object, 5, seq![ArgValue::Int(rate), ArgValue::Int(delay)]),
        pending_fds(m) == Seq::<i32>::empty(),
{
    let args = vec![Arg::Int(rate), Arg::Int(delay)];
    assert(views(args@) =~= seq![ArgValue::Int(rate), ArgValue::Int(delay)]);
    encode_message(object, 5, &args)
}

/// The requests of `wl_keyboard` as the protocol defines them: the opcode of
/// each, the kinds of its arguments in order, and the field each argument
/// fills; no other opcode names a request.
pub proof fn lemma_protocol_requests()
    ensures
        request_signature(0) == Some(Seq::<ArgKind>::empty()),
        forall|opcode: u16| opcode >= 1 ==> #[trigger] request_signature(opcode) is None,
        forall|req: Request, vals: Seq<ArgValue>| #[trigger] request_fits(req, 0, vals) <==> (req is Release && vals == Seq::<ArgValue>::empty()),
{
}

} // verus!
