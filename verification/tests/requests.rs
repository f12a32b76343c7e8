use verdi::codec::{encode_message, Arg};
use verdi::error::Error;
use verdi::protocol::interfaces::wayland::wl_shm::Format;
use verdi::protocol::interfaces::wayland::{
    wl_callback, wl_compositor, wl_data_offer, wl_display, wl_registry, wl_shm, wl_shm_pool,
    wl_shell_surface,
};
use verdi::protocol::interfaces::xdg_shell::{xdg_positioner, xdg_toplevel};
use rustix::fd::AsRawFd;
use waynest::wire::{Message, ObjectId, PayloadBuilder};

#[test]
fn create_surface_decodes_its_new_id() {
    let mut m = encode_message(3, 0, &vec![Arg::Object(8)]);
    match wl_compositor::handle_request(&mut m) {
        Ok(wl_compositor::Request::CreateSurface { id }) => assert_eq!(id, 8),
        other => panic!("unexpected {:?}", other),
    }
}

#[test]
fn an_unknown_opcode_is_refused() {
    let mut m = encode_message(3, 7, &vec![Arg::Object(8)]);
    assert!(matches!(
        wl_compositor::handle_request(&mut m),
        Err(Error::UnknownOpcode(7))
    ));
}

#[test]
fn a_missing_argument_is_malformed() {
    let mut m = encode_message(3, 0, &Vec::new());
    assert!(matches!(
        wl_compositor::handle_request(&mut m),
        Err(Error::MalformedPayload)
    ));
}

#[test]
fn a_null_required_object_is_malformed() {
    let mut m = encode_message(1, 0, &vec![Arg::Uint(0)]);
    assert!(matches!(
        wl_display::handle_request(&mut m),
        Err(Error::MalformedPayload)
    ));
}

#[test]
fn sync_and_get_registry_decode() {
    let mut m = encode_message(1, 0, &vec![Arg::Object(2)]);
    assert!(matches!(
        wl_display::handle_request(&mut m),
        Ok(wl_display::Request::Sync { callback: 2 })
    ));
    let mut m = encode_message(1, 1, &vec![Arg::Object(3)]);
    assert!(matches!(
        wl_display::handle_request(&mut m),
        Ok(wl_display::Request::GetRegistry { registry: 3 })
    ));
}

#[test]
fn create_buffer_decodes_a_known_format() {
    let args = vec![
        Arg::Object(10),
        Arg::Int(0),
        Arg::Int(640),
        Arg::Int(480),
        Arg::Int(2560),
        Arg::Uint(1),
    ];
    let mut m = encode_message(4, 0, &args);
    match wl_shm_pool::handle_request(&mut m) {
        Ok(wl_shm_pool::Request::CreateBuffer { id, offset, width, height, stride, format }) => {
            assert_eq!((id, offset, width, height, stride), (10, 0, 640, 480, 2560));
            assert_eq!(format, Format::Xrgb8888);
        }
        other => panic!("unexpected {:?}", other),
    }
}

#[test]
fn create_buffer_refuses_an_unknown_format() {
    let args = vec![
        Arg::Object(10),
        Arg::Int(0),
        Arg::Int(1),
        Arg::Int(1),
        Arg::Int(4),
        Arg::Uint(12345),
    ];
    let mut m = encode_message(4, 0, &args);
    assert!(matches!(
        wl_shm_pool::handle_request(&mut m),
        Err(Error::MalformedPayload)
    ));
}

#[test]
fn resize_of_a_pool_decodes() {
    let mut m = encode_message(4, 2, &vec![Arg::Int(8192)]);
    assert!(matches!(
        wl_shm_pool::handle_request(&mut m),
        Ok(wl_shm_pool::Request::Resize { size: 8192 })
    ));
}

#[test]
fn set_title_decodes_its_text() {
    let mut m = encode_message(9, 2, &vec![Arg::Str("terminal".to_string())]);
    match xdg_toplevel::handle_request(&mut m) {
        Ok(xdg_toplevel::Request::SetTitle { title }) => assert_eq!(title, "terminal"),
        other => panic!("unexpected {:?}", other),
    }
}

#[test]
fn a_null_title_is_malformed() {
    let mut m = encode_message(9, 2, &vec![Arg::NullableStr(None)]);
    assert!(matches!(
        xdg_toplevel::handle_request(&mut m),
        Err(Error::MalformedPayload)
    ));
}

#[test]
fn a_title_that_is_not_utf8_is_malformed() {
    let mut m = encode_message(9, 2, &vec![Arg::Array(vec![0xc3, 0x28, 0])]);
    assert!(matches!(
        xdg_toplevel::handle_request(&mut m),
        Err(Error::MalformedPayload)
    ));
}

#[test]
fn a_request_without_arguments_decodes() {
    let mut m = encode_message(9, 0, &Vec::new());
    assert!(matches!(
        xdg_toplevel::handle_request(&mut m),
        Ok(xdg_toplevel::Request::Destroy)
    ));
}

#[test]
fn a_nullable_string_may_be_null() {
    let mut m = encode_message(6, 0, &vec![Arg::Uint(5), Arg::NullableStr(None)]);
    assert!(matches!(
        wl_data_offer::handle_request(&mut m),
        Ok(wl_data_offer::Request::Accept { serial: 5, mime_type: None })
    ));
}

#[test]
fn bind_decodes_a_named_new_id() {
    let args = vec![Arg::Uint(1), Arg::NewId("wl_shm".to_string(), 2, 7)];
    let mut m = encode_message(2, 0, &args);
    match wl_registry::handle_request(&mut m) {
        Ok(wl_registry::Request::Bind { name, id }) => {
            assert_eq!(name, 1);
            assert_eq!((id.interface.as_str(), id.version, id.id), ("wl_shm", 2, 7));
        }
        other => panic!("unexpected {:?}", other),
    }
}

#[test]
fn resize_of_a_shell_surface_checks_its_edges() {
    let good = vec![Arg::Object(3), Arg::Uint(11), Arg::Uint(10)];
    let mut m = encode_message(5, 2, &good);
    match wl_shell_surface::handle_request(&mut m) {
        Ok(wl_shell_surface::Request::Resize { seat, serial, edges }) => {
            assert_eq!((seat, serial, edges.bits()), (3, 11, 10));
        }
        other => panic!("unexpected {:?}", other),
    }
    let bad = vec![Arg::Object(3), Arg::Uint(11), Arg::Uint(16)];
    let mut m = encode_message(5, 2, &bad);
    assert!(matches!(
        wl_shell_surface::handle_request(&mut m),
        Err(Error::MalformedPayload)
    ));
}

#[test]
fn positioner_anchor_decodes() {
    let mut m = encode_message(5, 3, &vec![Arg::Uint(8)]);
    assert!(matches!(
        xdg_positioner::handle_request(&mut m),
        Ok(xdg_positioner::Request::SetAnchor { anchor: xdg_positioner::Anchor::BottomRight })
    ));
}

#[test]
fn create_pool_takes_its_file_descriptor() {
    let fd = rustix::fs::memfd_create("pool", rustix::fs::MemfdFlags::CLOEXEC).unwrap();
    let raw = fd.as_raw_fd();
    let (payload, fds) = PayloadBuilder::new().put_uint(5).put_fd(fd).put_int(4096).build();
    let mut m = Message::new(ObjectId::new(2).unwrap(), 0, payload, fds);
    match wl_shm::handle_request(&mut m) {
        Ok(wl_shm::Request::CreatePool { id, fd, size }) => {
            assert_eq!((id, fd, size), (5, raw, 4096));
        }
        other => panic!("unexpected {:?}", other),
    }
}

#[test]
fn create_pool_without_a_file_descriptor_is_malformed() {
    let mut m = encode_message(2, 0, &vec![Arg::Object(5), Arg::Int(4096)]);
    assert!(matches!(wl_shm::handle_request(&mut m), Err(Error::MalformedPayload)));
}

#[test]
fn a_callback_has_no_requests() {
    let m = encode_message(3, 0, &Vec::new());
    assert_eq!(wl_callback::handle_request(&m), Error::UnknownOpcode(0));
}
