//! The shared-memory global: the pixel formats it offers.
use crate::codec::{carries, ArgValue};
use crate::protocol::interfaces::wayland::wl_shm::{self, Format};
use vstd::prelude::*;
use waynest::wire::Message;

verus! {

/// The formats the compositor supports, in the order in which they are advertised.
pub open spec fn supported_formats() -> Seq<Format> {
    seq![Format::Argb8888, Format::Xrgb8888]
}

/// `events` are the `format` events of the shm object `shm`, one for each
/// supported format, in order.
pub open spec fn formats_advertised(events: Seq<Message>, shm: u32) -> bool {
    &&& events.len() == supported_formats().len()
    &&& forall|i: int|
        0 <= i < events.len() ==> carries(
            #[trigger] events[i],
            shm,
            0,
            seq![ArgValue::Uint(supported_formats()[i].wire_value())],
        )
}

/// The events that advertise the supported formats on the shm object `shm`.
pub fn advertise_formats(shm: u32) -> (events: Vec<Message>)
    requires
        shm != 0,
    ensures
        formats_advertised(events@, shm),
{
    let mut events = Vec::new();
    events.push(wl_shm::format(shm, Format::Argb8888));
    events.push(wl_shm::format(shm, Format::Xrgb8888));
    events
}

/// `wl_shm` advertises exactly two formats, ARGB8888 (word 0) first and
/// XRGB8888 (word 1) second.
pub proof fn lemma_supported_formats()
    ensures
        supported_formats().len() == 2,
        supported_formats()[0] == Format::Argb8888,
        supported_formats()[1] == Format::Xrgb8888,
        supported_formats()[0].wire_value() == 0,
        supported_formats()[1].wire_value() == 1,
{
}

} // verus!
