//! A presentation_feedback object returns an indication that a
//! wl_surface content update has become visible to the user.
//! One object corresponds to one content update submission
//! (wl_surface.commit). There are two possible outcomes: the
//! content update is presented to the user, and a presentation
//! timestamp delivered; or, the user did not see the content
//! update because it was superseded or its surface destroyed,
//! and the content update is discarded.
//!
//! The `wp_presentation_feedback` interface, version 1: decoding of its
//! requests and encoding of its events.
use crate::codec::{Arg, ArgValue, carries, encode_message, views};
use crate::error::DecodeError;
use crate::error::Error as RequestError;
use crate::wire::{message_opcode, opcode_of, pending_fds};
use vstd::prelude::*;
use waynest::wire::Message;

verus! {

/// The name of the interface.
pub const INTERFACE: &'static str = "wp_presentation_feedback";

/// The version of the interface that is implemented.
pub const VERSION: u32 = 1;

/// These flags provide information about how the presentation of
/// the related content update was done. The intent is to help
/// clients assess the reliability of the feedback and the visual
/// quality with respect to possible tearing and timings.
///
/// Known bits: Vsync = 1, HwClock = 2, HwCompletion = 4, ZeroCopy = 8.
#[derive(Debug, PartialEq, Eq, PartialOrd, Ord, Hash, Clone, Copy)]
pub struct Kind {
    pub bits: u32,
}

impl Kind {
    /// The union of all known bits.
    pub open spec fn all_bits() -> u32 {
        0xf
    }

    /// The set a word stands for, if it holds only known bits.
    pub open spec fn from_wire(v: u32) -> Result<Self, DecodeError> {
        if v & !Self::all_bits() == 0 {
            Ok(Kind { bits: v })
        } else {
            Err(DecodeError::MalformedPayload)
        }
    }

    /// The set a word stands for, if it holds only known bits.
    pub fn from_bits(v: u32) -> (r: Option<Self>)
        ensures
            r == match Self::from_wire(v) {
                Ok(f) => Some(f),
                Err(_) => None::<Self>,
            },
    {
        if v & !0xfu32 == 0 {
            Some(Kind { bits: v })
        } else {
            None
        }
    }

    /// The word of the set.
    pub fn bits(&self) -> (r: u32)
        ensures
            r == self.bits,
    {
        self.bits
    }

    /// A set of known bits reads back from its word, and a word that reads as
    /// a set is that set's word.
    pub proof fn lemma_wire_roundtrip(self, v: u32)
        ensures
            self.bits & !Self::all_bits() == 0 ==> Self::from_wire(self.bits) == Ok::<
                Self,
                DecodeError,
            >(self),
            Self::from_wire(v) matches Ok(e) ==> e.bits == v,
    {
    }

    /// The bits the protocol defines for this set: Vsync = 1, HwClock = 2, HwCompletion = 4, ZeroCopy = 8.
    /// A word is a set exactly when it holds no other bit.
    pub proof fn lemma_protocol_values(v: u32)
        ensures
            Self::all_bits() == 0xf,
            Self::from_wire(v) is Ok <==> v & !0xfu32 == 0,
            Self::from_wire(v) matches Ok(f) ==> f.bits == v,
    {
    }
}

impl TryFrom<u32> for Kind {
    type Error = DecodeError;

    fn try_from(v: u32) -> (r: Result<Self, DecodeError>) {
        match Self::from_bits(v) {
            Some(f) => Ok(f),
            None => Err(DecodeError::MalformedPayload),
        }
    }
}

impl vstd::std_specs::convert::TryFromSpecImpl<u32> for Kind {
    open spec fn obeys_try_from_spec() -> bool {
        true
    }

    open spec fn try_from_spec(v: u32) -> Result<Self, DecodeError> {
        Self::from_wire(v)
    }
}

/// Refuses the request a message carries for a `wp_presentation_feedback` object: the
/// interface has no requests, so every opcode is unknown.
pub fn handle_request(message: &Message) -> (r: RequestError)
    ensures
        r == RequestError::UnknownOpcode(message_opcode(*message)),
{
    RequestError::UnknownOpcode(opcode_of(message))
}

/// As presentation can be synchronized to only one output at a
/// time, this event tells which output it was. This event is only
/// sent prior to the presented event.
///
/// As clients may bind to the same global wl_output multiple
/// times, this event is sent for each bound instance that matches
/// the synchronized output. If a client has not bound to the
/// right wl_output global at all, this event is not sent.
///
/// The message of this event, from the object `object`.
pub fn sync_output(object: u32, output: u32) -> (m: Message)
    requires
        object != 0,
        output != 0,
    ensures
        carries(m, object, 0, seq![ArgValue::Object(output)]),
        pending_fds(m) == Seq::<i32>::empty(),
{
    let args = vec![Arg::Object(output)];
    assert(views(args@) =~= seq![ArgValue::Object(output)]);
    encode_message(object, 0, &args)
}

/// The associated content update was displayed to the user at the
/// indicated time (tv_sec_hi/lo, tv_nsec). For the interpretation of
/// the timestamp, see presentation.clock_id event.
///
/// The timestamp corresponds to the time when the content update
/// turned into light the first time on the surface's main output.
/// Compositors may approximate this from the framebuffer flip
/// completion events from the system, and the latency of the
/// physical display path if known.
///
/// This event is preceded by all related sync_output events
/// telling which output's refresh cycle the feedback corresponds
/// to, i.e. the main output for the surface. Compositors are
/// recommended to choose the output containing the largest part
/// of the wl_surface, or keeping the output they previously
/// chose. Having a stable presentation output association helps
/// clients predict future output refreshes (vblank).
///
/// The 'refresh' argument gives the compositor's prediction of how
/// many nanoseconds after tv_sec, tv_nsec the very next output
/// refresh may occur. This is to further aid clients in
/// predicting future refreshes, i.e., estimating the timestamps
/// targeting the next few vblanks. If such prediction cannot
/// usefully be done, the argument is zero.
///
/// If the output does not have a constant refresh rate, explicit
/// video mode switches excluded, then the refresh argument must
/// be zero.
///
/// The 64-bit value combined from seq_hi and seq_lo is the value
/// of the output's vertical retrace counter when the content
/// update was first scanned out to the display. This value must
/// be compatible with the definition of MSC in
/// GLX_OML_sync_control specification. Note, that if the display
/// path has a non-zero latency, the time instant specified by
/// this counter may differ from the timestamp's.
///
/// If the output does not have a concept of vertical retrace or a
/// refresh cycle, or the output device is self-refreshing without
/// a way to query the refresh count, then the arguments seq_hi
/// and seq_lo must be zero.
///
/// The message of this event, from the object `object`.
pub fn presented(
    object: u32,
    tv_sec_hi: u32,
    tv_sec_lo: u32,
    tv_nsec: u32,
    refresh: u32,
    seq_hi: u32,
    seq_lo: u32,
    flags: Kind,
) -> (m: Message)
    requires
        object != 0,
    ensures
        carries(
            m,
            object,
            1,
            seq![
                ArgValue::Uint(tv_sec_hi),
                ArgValue::Uint(tv_sec_lo),
                ArgValue::Uint(tv_nsec),
                ArgValue::Uint(refresh),
                ArgValue::Uint(seq_hi),
                ArgValue::Uint(seq_lo),
                ArgValue::Uint(flags.bits),
            ],
        ),
        pending_fds(m) == Seq::<i32>::empty(),
{
    let args = vec![
        Arg::Uint(tv_sec_hi),
        Arg::Uint(tv_sec_lo),
        Arg::Uint(tv_nsec),
        Arg::Uint(refresh),
        Arg::Uint(seq_hi),
        Arg::Uint(seq_lo),
        Arg::Uint(flags.bits()),
    ];
    assert(views(args@) =~= seq![
        ArgValue::Uint(tv_sec_hi),
        ArgValue::Uint(tv_sec_lo),
        ArgValue::Uint(tv_nsec),
        ArgValue::Uint(refresh),
        ArgValue::Uint(seq_hi),
        ArgValue::Uint(seq_lo),
        ArgValue::Uint(flags.bits),
    ]);
    encode_message(object, 1, &args)
}

/// The content update was never displayed to the user.
///
/// The message of this event, from the object `object`.
pub fn discarded(object: u32) -> (m: Message)
    requires
        object != 0,
    ensures
        carries(m, object, 2, Seq::<ArgValue>::empty()),
        pending_fds(m) == Seq::<i32>::empty(),
{
    let args: Vec<Arg> = Vec::new();
    assert(views(args@) =~= Seq::<ArgValue>::empty());
    encode_message(object, 2, &args)
}

} // verus!
