//! The registry: the globals the compositor offers, and binding to them.
use crate::codec::{carries, ArgValue};
use crate::protocol::interfaces::wayland::{wl_compositor, wl_output, wl_registry, wl_seat, wl_shm};
use crate::protocol::interfaces::xdg_shell::xdg_wm_base;
use crate::protocol::wayland::shm::{advertise_formats, formats_advertised};
use vstd::prelude::*;
use waynest::wire::Message;

verus! {

/// A global object the registry offers.
#[derive(Debug, Clone, Copy, PartialEq, Eq, Structural)]
pub enum Global {
    Compositor,
    Shm,
    WmBase,
    Seat,
    Output,
}

impl Global {
    /// The numeric name the global is advertised under.
    pub open spec fn spec_name(self) -> u32 {
        match self {
            Global::Compositor => 0,
            Global::Shm => 1,
            Global::WmBase => 2,
            Global::Seat => 3,
            Global::Output => 4,
        }
    }

    /// The interface the global implements.
    pub open spec fn spec_interface(self) -> &'static str {
        match self {
            Global::Compositor => wl_compositor::INTERFACE,
            Global::Shm => wl_shm::INTERFACE,
            Global::WmBase => xdg_wm_base::INTERFACE,
            Global::Seat => wl_seat::INTERFACE,
            Global::Output => wl_output::INTERFACE,
        }
    }

    /// The version of the interface the global implements.
    pub open spec fn spec_version(self) -> u32 {
        match self {
            Global::Compositor => wl_compositor::VERSION,
            Global::Shm => wl_shm::VERSION,
            Global::WmBase => xdg_wm_base::VERSION,
            Global::Seat => wl_seat::VERSION,
            Global::Output => wl_output::VERSION,
        }
    }

    pub fn name(self) -> (r: u32)
        ensures
            r == self.spec_name(),
    {
        match self {
            Global::Compositor => 0,
            Global::Shm => 1,
            Global::WmBase => 2,
            Global::Seat => 3,
            Global::Output => 4,
        }
    }

    pub fn interface(self) -> (r: &'static str)
        ensures
            r == self.spec_interface(),
    {
        match self {
            Global::Compositor => wl_compositor::INTERFACE,
            Global::Shm => wl_shm::INTERFACE,
            Global::WmBase => xdg_wm_base::INTERFACE,
            Global::Seat => wl_seat::INTERFACE,
            Global::Output => wl_output::INTERFACE,
        }
    }

    pub fn version(self) -> (r: u32)
        ensures
            r == self.spec_version(),
    {
        match self {
            Global::Compositor => wl_compositor::VERSION,
            Global::Shm => wl_shm::VERSION,
            Global::WmBase => xdg_wm_base::VERSION,
            Global::Seat => wl_seat::VERSION,
            Global::Output => wl_output::VERSION,
        }
    }
}

/// The globals, in the order in which they are advertised.
pub open spec fn globals() -> Seq<Global> {
    seq![Global::Compositor, Global::Shm, Global::WmBase, Global::Seat, Global::Output]
}

/// The global advertised under `name`, if any.
pub open spec fn global_named(name: u32) -> Option<Global> {
    if name == 0 {
        Some(Global::Compositor)
    } else if name == 1 {
        Some(Global::Shm)
    } else if name == 2 {
        Some(Global::WmBase)
    } else if name == 3 {
        Some(Global::Seat)
    } else if name == 4 {
        Some(Global::Output)
    } else {
        None
    }
}

/// The `global` event that advertises `g` on the registry `registry`.
pub open spec fn advertises(m: Message, registry: u32, g: Global) -> bool {
    carries(
        m,
        registry,
        0,
        seq![
            ArgValue::Uint(g.spec_name()),
            ArgValue::Str(g.spec_interface()@),
            ArgValue::Uint(g.spec_version()),
        ],
    )
}

/// Why a bind request was refused.
#[derive(Debug, Clone, Copy, PartialEq, Eq, Structural)]
pub enum BindError {
    /// No global is advertised under the name.
    UnknownGlobal(u32),
}

/// The events that advertise every global on the registry `registry`, one
/// `global` event each, in order.
pub fn advertise_globals(registry: u32) -> (events: Vec<Message>)
    requires
        registry != 0,
    ensures
        events.len() == globals().len(),
        forall|i: int| 0 <= i < globals().len() ==> advertises(#[trigger] events@[i], registry, globals()[i]),
{
    let all = [Global::Compositor, Global::Shm, Global::WmBase, Global::Seat, Global::Output];
    let mut events: Vec<Message> = Vec::new();
    let mut i: usize = 0;
    while i < 5
        invariant
            0 <= i <= 5,
            registry != 0,
            all@ == globals(),
            events.len() == i,
            forall|j: int| 0 <= j < i ==> advertises(#[trigger] events@[j], registry, globals()[j]),
        decreases 5 - i,
    {
        let g = all[i];
        let interface = g.interface().to_owned();
        events.push(wl_registry::global(registry, g.name(), interface, g.version()));
        i = i + 1;
    }
    events
}

/// Binds the global advertised under `name` as the object `id`: the global to
/// create, and the events the new object sends first (the pixel formats, for
/// `wl_shm`).
pub fn bind(name: u32, id: u32) -> (r: Result<(Global, Vec<Message>), BindError>)
    requires
        id != 0,
    ensures
        match global_named(name) {
            None => r == Err::<(Global, Vec<Message>), BindError>(BindError::UnknownGlobal(name)),
            Some(g) => r matches Ok((b, events)) && b == g && if g == Global::Shm {
                formats_advertised(events@, id)
            } else {
                events.len() == 0
            },
        },
{
    let g = if name == 0 {
        Global::Compositor
    } else if name == 1 {
        Global::Shm
    } else if name == 2 {
        Global::WmBase
    } else if name == 3 {
        Global::Seat
    } else if name == 4 {
        Global::Output
    } else {
        return Err(BindError::UnknownGlobal(name));
    };
    match g {
        Global::Shm => Ok((g, advertise_formats(id))),
        _ => Ok((g, Vec::new())),
    }
}

/// Every advertised global binds under the name it was advertised with, and
/// no other name binds.
pub proof fn lemma_advertised_globals_bind(name: u32)
    ensures
        forall|i: int| 0 <= i < globals().len() ==> global_named(#[trigger] globals()[i].spec_name()) == Some(globals()[i]),
        global_named(name) matches Some(g) ==> globals().contains(g) && g.spec_name() == name,
{
    assert(globals()[0] == Global::Compositor);
    assert(globals()[1] == Global::Shm);
    assert(globals()[2] == Global::WmBase);
    assert(globals()[3] == Global::Seat);
    assert(globals()[4] == Global::Output);
    if let Some(g) = global_named(name) {
        assert(globals()[name as int] == g);
    }
}

/// The globals the registry offers: the compositor under name 0, `wl_shm`
/// under 1, `xdg_wm_base` under 2, the seat under 3 and the output under 4,
/// advertised in that order, each with the name and version of its
/// interface; no name from 5 on is a global.
pub proof fn lemma_registry_globals()
    ensures
        globals() == seq![Global::Compositor, Global::Shm, Global::WmBase, Global::Seat, Global::Output],
        Global::Compositor.spec_name() == 0,
        Global::Shm.spec_name() == 1,
        Global::WmBase.spec_name() == 2,
        Global::Seat.spec_name() == 3,
        Global::Output.spec_name() == 4,
        Global::Compositor.spec_interface() == wl_compositor::INTERFACE,
        Global::Shm.spec_interface() == wl_shm::INTERFACE,
        Global::WmBase.spec_interface() == xdg_wm_base::INTERFACE,
        Global::Seat.spec_interface() == wl_seat::INTERFACE,
        Global::Output.spec_interface() == wl_output::INTERFACE,
        Global::Compositor.spec_version() == wl_compositor::VERSION,
        Global::Shm.spec_version() == wl_shm::VERSION,
        Global::WmBase.spec_version() == xdg_wm_base::VERSION,
        Global::Seat.spec_version() == wl_seat::VERSION,
        Global::Output.spec_version() == wl_output::VERSION,
        forall|name: u32| name >= 5 ==> #[trigger] global_named(name) is None,
        forall|name: u32|
            name < 5 ==> (#[trigger] global_named(name) matches Some(g) && g.spec_name() == name),
{
}

} // verus!
