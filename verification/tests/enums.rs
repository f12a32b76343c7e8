use verdi::error::DecodeError;
use verdi::protocol::interfaces::wayland::wl_data_device_manager::DndAction;
use verdi::protocol::interfaces::wayland::wl_output::Transform;
use verdi::protocol::interfaces::wayland::wl_shm::Format;
use verdi::protocol::interfaces::xdg_shell::xdg_toplevel::{ResizeEdge, State};

#[test]
fn format_codes_are_fourcc_except_the_first_two() {
    assert_eq!(Format::try_from(0), Ok(Format::Argb8888));
    assert_eq!(Format::try_from(1), Ok(Format::Xrgb8888));
    assert_eq!(Format::try_from(0x20203843), Ok(Format::C8));
    assert_eq!(Format::C8.to_wire(), 0x20203843);
    assert_eq!(Format::try_from(2), Err(DecodeError::MalformedPayload));
}

#[test]
fn every_transform_reads_back_from_its_word() {
    for v in 0..8u32 {
        let t = Transform::try_from(v).unwrap();
        assert_eq!(t.to_wire(), v);
    }
    assert_eq!(Transform::try_from(8), Err(DecodeError::MalformedPayload));
}

#[test]
fn xdg_states_start_at_one() {
    assert_eq!(State::try_from(0), Err(DecodeError::MalformedPayload));
    assert_eq!(State::try_from(1), Ok(State::Maximized));
    assert_eq!(State::try_from(9), Ok(State::Suspended));
    assert_eq!(ResizeEdge::try_from(10), Ok(ResizeEdge::BottomRight));
    assert_eq!(ResizeEdge::try_from(0), Ok(ResizeEdge::NoEdge));
}

#[test]
fn dnd_actions_admit_only_known_bits() {
    assert_eq!(DndAction::try_from(0).map(|a| a.bits()), Ok(0));
    assert_eq!(DndAction::try_from(7).map(|a| a.bits()), Ok(7));
    assert_eq!(DndAction::try_from(8), Err(DecodeError::MalformedPayload));
    assert_eq!(DndAction::from_bits(6).map(|a| a.bits()), Some(6));
    assert_eq!(DndAction::from_bits(0x10), None);
}
