use waynest::wire::Message;
use verdi::codec::{Arg, ArgKind, read_arg, read_args};
use verdi::protocol::interfaces::wayland::wl_shm::Format;
use verdi::protocol::wayland::buffer::Buffer;
use verdi::protocol::wayland::display::{get_registry, sync};
use verdi::protocol::wayland::registry::{advertise_globals, bind, BindError, Global};
use verdi::protocol::wayland::shm::advertise_formats;
use verdi::protocol::wayland::surface::{Role, RoleError, Surface};
use verdi::protocol::xdg::toplevel::ToplevelData;

fn object_of(m: &Message) -> u32 {
    m.object_id().as_raw()
}

fn opcode_of(m: &Message) -> u16 {
    m.opcode()
}

fn read_uint(m: &mut Message) -> Option<u32> {
    match read_arg(m, ArgKind::Uint) {
        Some(Arg::Uint(v)) => Some(v),
        None => None,
        Some(other) => panic!("unexpected {:?}", other),
    }
}

fn global_of(m: &mut waynest::wire::Message) -> (u32, String, u32) {
    let kinds = vec![ArgKind::Uint, ArgKind::String, ArgKind::Uint];
    let mut back = read_args(m, &kinds).unwrap();
    let version = match back.pop() {
        Some(Arg::Uint(v)) => v,
        _ => panic!("no version"),
    };
    let interface = match back.pop() {
        Some(Arg::Str(s)) => s,
        _ => panic!("no interface"),
    };
    let name = match back.pop() {
        Some(Arg::Uint(v)) => v,
        _ => panic!("no name"),
    };
    (name, interface, version)
}

#[test]
fn the_registry_advertises_five_globals_in_order() {
    let mut events = advertise_globals(2);
    assert_eq!(events.len(), 5);
    let expected = [
        (0, "wl_compositor", 6),
        (1, "wl_shm", 2),
        (2, "xdg_wm_base", 6),
        (3, "wl_seat", 9),
        (4, "wl_output", 4),
    ];
    for (m, (name, interface, version)) in events.iter_mut().zip(expected) {
        assert_eq!((object_of(m), opcode_of(m)), (2, 0));
        assert_eq!(global_of(m), (name, interface.to_string(), version));
    }
}

#[test]
fn every_advertised_global_binds_by_its_name() {
    let all = [Global::Compositor, Global::Shm, Global::WmBase, Global::Seat, Global::Output];
    for g in all {
        match bind(g.name(), 20) {
            Ok((bound, _)) => assert_eq!(bound, g),
            Err(e) => panic!("refused {:?}", e),
        }
    }
}

#[test]
fn an_unknown_global_is_refused() {
    assert!(matches!(bind(5, 20), Err(BindError::UnknownGlobal(5))));
    assert!(matches!(bind(u32::MAX, 20), Err(BindError::UnknownGlobal(u32::MAX))));
}

#[test]
fn binding_shm_advertises_its_formats() {
    let (g, mut events) = bind(1, 21).unwrap();
    assert_eq!(g, Global::Shm);
    assert_eq!(events.len(), 2);
    assert_eq!(object_of(&events[0]), 21);
    assert_eq!(read_uint(&mut events[0]), Some(0));
    assert_eq!(read_uint(&mut events[1]), Some(1));
    let (g, events) = bind(0, 22).unwrap();
    assert_eq!(g, Global::Compositor);
    assert!(events.is_empty());
}

#[test]
fn formats_are_argb_then_xrgb() {
    let mut events = advertise_formats(3);
    assert_eq!(read_uint(&mut events[0]), Some(Format::Argb8888.to_wire()));
    assert_eq!(read_uint(&mut events[1]), Some(Format::Xrgb8888.to_wire()));
}

#[test]
fn sync_finishes_the_callback_then_frees_its_id() {
    let mut events = sync(1, 6, 99);
    assert_eq!(events.len(), 2);
    assert_eq!((object_of(&events[0]), opcode_of(&events[0])), (6, 0));
    assert_eq!(read_uint(&mut events[0]), Some(99));
    assert_eq!((object_of(&events[1]), opcode_of(&events[1])), (1, 1));
    assert_eq!(read_uint(&mut events[1]), Some(6));
}

#[test]
fn get_registry_advertises_on_the_new_registry() {
    let events = get_registry(12);
    assert_eq!(events.len(), 5);
    assert!(events.iter().all(|m| object_of(m) == 12));
}

#[test]
fn a_surface_keeps_its_first_role() {
    let mut s = Surface::new();
    assert_eq!(s.role(), None);
    assert!(s.set_role(Role::XdgToplevel).is_ok());
    assert_eq!(s.role(), Some(Role::XdgToplevel));
    assert_eq!(s.set_role(Role::Cursor), Err(RoleError::RoleTaken(Role::XdgToplevel)));
    assert_eq!(s.role(), Some(Role::XdgToplevel));
}

#[test]
fn giving_the_current_role_again_is_allowed() {
    let mut s = Surface::new();
    assert_eq!(s.set_role(Role::Subsurface), Ok(()));
    assert_eq!(s.set_role(Role::Subsurface), Ok(()));
    assert_eq!(s.role(), Some(Role::Subsurface));
}

#[test]
fn the_latest_setter_call_wins() {
    let mut d = ToplevelData::new();
    d.set_app_id("a".to_string());
    d.set_app_id("b".to_string());
    assert_eq!(d.title(), None);
    d.set_title("one".to_string());
    d.set_title("two".to_string());
    d.set_app_id("c".to_string());
    assert_eq!(d.title(), Some("two".to_string()));
    assert_eq!(d.app_id(), Some("c".to_string()));
}

#[test]
fn toplevel_title_and_app_id_read_back() {
    let mut d = ToplevelData::new();
    assert_eq!(d.title(), None);
    assert_eq!(d.app_id(), None);
    d.set_title("shell".to_string());
    d.set_app_id("org.example.Shell".to_string());
    d.set_title("shell - 2".to_string());
    assert_eq!(d.title(), Some("shell - 2".to_string()));
    assert_eq!(d.app_id(), Some("org.example.Shell".to_string()));
}

#[test]
fn a_buffer_takes_the_bits_of_its_words() {
    let b = Buffer::new(16, 100, 50, 400, Format::Argb8888);
    assert_eq!((b.offset(), b.width(), b.height(), b.stride()), (16, 100, 50, 400));
    assert_eq!(b.format(), Format::Argb8888);
    let odd = Buffer::new(-1, -2, 3, -4, Format::Xrgb8888);
    assert_eq!(odd.offset(), usize::MAX);
    assert_eq!(odd.width(), u32::MAX - 1);
    assert_eq!(odd.stride(), u32::MAX - 3);
}
