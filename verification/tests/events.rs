use rustix::fd::AsRawFd;
use waynest::wire::Message;
use verdi::codec::{Arg, ArgKind, Fixed, read_arg, read_args};
use verdi::protocol::interfaces::tablet_v2::zwp_tablet_tool_v2;
use verdi::protocol::interfaces::wayland::wl_keyboard::{self, KeymapFormat};
use verdi::protocol::interfaces::wayland::wl_pointer::{self, ButtonState};
use verdi::protocol::interfaces::wayland::wl_seat::{self, Capability};
use verdi::protocol::interfaces::wayland::{wl_callback, wl_data_device, wl_display, wl_output};

fn object_of(m: &Message) -> u32 {
    m.object_id().as_raw()
}

fn opcode_of(m: &Message) -> u16 {
    m.opcode()
}

fn read_fd(m: &mut Message) -> Option<i32> {
    match read_arg(m, ArgKind::Fd) {
        Some(Arg::Fd(v)) => Some(v),
        None => None,
        Some(other) => panic!("unexpected {:?}", other),
    }
}

fn read_int(m: &mut Message) -> Option<i32> {
    match read_arg(m, ArgKind::Int) {
        Some(Arg::Int(v)) => Some(v),
        None => None,
        Some(other) => panic!("unexpected {:?}", other),
    }
}

fn read_object(m: &mut Message) -> Option<Option<u32>> {
    match read_arg(m, ArgKind::NullableObject) {
        Some(Arg::NullableObject(v)) => Some(v),
        None => None,
        Some(other) => panic!("unexpected {:?}", other),
    }
}

fn read_string(m: &mut Message) -> Option<Option<String>> {
    match read_arg(m, ArgKind::NullableString) {
        Some(Arg::NullableStr(v)) => Some(v),
        None => None,
        Some(other) => panic!("unexpected {:?}", other),
    }
}

fn read_uint(m: &mut Message) -> Option<u32> {
    match read_arg(m, ArgKind::Uint) {
        Some(Arg::Uint(v)) => Some(v),
        None => None,
        Some(other) => panic!("unexpected {:?}", other),
    }
}

#[test]
fn done_carries_its_serial() {
    let mut m = wl_callback::done(5, 77);
    assert_eq!((object_of(&m), opcode_of(&m)), (5, 0));
    assert_eq!(read_uint(&mut m), Some(77));
    assert_eq!(read_uint(&mut m), None);
}

#[test]
fn error_carries_object_code_and_message() {
    let mut m = wl_display::error(1, 4, 2, "bad".to_string());
    assert_eq!(opcode_of(&m), 0);
    assert_eq!(read_object(&mut m), Some(Some(4)));
    assert_eq!(read_uint(&mut m), Some(2));
    assert_eq!(read_string(&mut m), Some(Some("bad".to_string())));
}

#[test]
fn motion_carries_fixed_point_coordinates() {
    let mut m = wl_pointer::motion(6, 1000, Fixed { raw: 256 * 10 }, Fixed { raw: (-3i32 * 256) as u32 });
    assert_eq!(opcode_of(&m), 2);
    assert_eq!(read_uint(&mut m), Some(1000));
    assert_eq!(read_uint(&mut m), Some(2560));
    assert_eq!(read_int(&mut m), Some(-768));
}

#[test]
fn button_carries_its_state_word() {
    let mut m = wl_pointer::button(6, 1, 2, 0x110, ButtonState::Pressed);
    let kinds = vec![ArgKind::Uint, ArgKind::Uint, ArgKind::Uint, ArgKind::Uint];
    let back = read_args(&mut m, &kinds).unwrap();
    assert!(matches!(back[3], Arg::Uint(1)));
    assert_eq!(ButtonState::Pressed.to_wire(), 1);
}

#[test]
fn capabilities_carry_their_bits() {
    let caps = Capability::from_bits(3).unwrap();
    let mut m = wl_seat::capabilities(7, caps);
    assert_eq!(read_uint(&mut m), Some(3));
}

#[test]
fn keymap_carries_its_file_descriptor() {
    let fd = rustix::fs::memfd_create("keymap", rustix::fs::MemfdFlags::CLOEXEC).unwrap();
    let raw = fd.as_raw_fd();
    let mut m = wl_keyboard::keymap(8, KeymapFormat::XkbV1, fd, 1234);
    assert_eq!(read_uint(&mut m), Some(1));
    assert_eq!(read_uint(&mut m), Some(1234));
    assert_eq!(read_fd(&mut m), Some(raw));
    assert_eq!(read_fd(&mut m), None);
}

#[test]
fn enter_may_name_no_offer() {
    let mut m = wl_data_device::selection(3, None);
    assert_eq!(read_object(&mut m), Some(None));
}

#[test]
fn geometry_carries_its_strings() {
    let mut m = wl_output::geometry(
        9,
        0,
        0,
        300,
        200,
        wl_output::Subpixel::Unknown,
        "maker".to_string(),
        "model".to_string(),
        wl_output::Transform::Normal,
    );
    let kinds = vec![
        ArgKind::Int,
        ArgKind::Int,
        ArgKind::Int,
        ArgKind::Int,
        ArgKind::Int,
        ArgKind::String,
        ArgKind::String,
        ArgKind::Int,
    ];
    let back = read_args(&mut m, &kinds).unwrap();
    assert!(matches!(&back[5], Arg::Str(s) if s == "maker"));
    assert!(matches!(&back[6], Arg::Str(s) if s == "model"));
}

#[test]
fn tool_type_is_sent_as_its_word() {
    let mut m = zwp_tablet_tool_v2::tool_type(4, zwp_tablet_tool_v2::Type::Pen);
    assert_eq!(read_uint(&mut m), Some(0x140));
}
