//! The display singleton: sync barriers and the registry.
use crate::codec::{carries, ArgValue};
use crate::protocol::interfaces::wayland::{wl_callback, wl_display};
use crate::protocol::wayland::registry::{advertise_globals, advertises, globals};
use vstd::prelude::*;
use waynest::wire::Message;

verus! {

/// The events that answer a `sync` request sent to the display `display`: the
/// callback `callback` is done with `serial`, and the display then tells the
/// client that the callback's id is free again.
pub fn sync(display: u32, callback: u32, serial: u32) -> (events: Vec<Message>)
    requires
        display != 0,
        callback != 0,
    ensures
        events.len() == 2,
        carries(events@[0], callback, 0, seq![ArgValue::Uint(serial)]),
        carries(events@[1], display, 1, seq![ArgValue::Uint(callback)]),
{
    let mut events = Vec::new();
    events.push(wl_callback::done(callback, serial));
    events.push(wl_display::delete_id(display, callback));
    events
}

/// The events that answer a `get_registry` request: the new registry
/// `registry` advertises every global.
pub fn get_registry(registry: u32) -> (events: Vec<Message>)
    requires
        registry != 0,
    ensures
        events.len() == globals().len(),
        forall|i: int|
            0 <= i < globals().len() ==> advertises(#[trigger] events@[i], registry, globals()[i]),
{
    advertise_globals(registry)
}

} // verus!
