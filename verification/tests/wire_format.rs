use verdi::codec::{Arg, ArgKind, encode_message, read_arg, read_args};
use waynest::wire::{Message, ObjectId, PayloadBuilder};

fn object_of(m: &Message) -> u32 {
    m.object_id().as_raw()
}

fn opcode_of(m: &Message) -> u16 {
    m.opcode()
}

fn read_array(m: &mut Message) -> Option<Vec<u8>> {
    match read_arg(m, ArgKind::Array) {
        Some(Arg::Array(v)) => Some(v),
        None => None,
        Some(other) => panic!("unexpected {:?}", other),
    }
}

fn read_int(m: &mut Message) -> Option<i32> {
    match read_arg(m, ArgKind::Int) {
        Some(Arg::Int(v)) => Some(v),
        None => None,
        Some(other) => panic!("unexpected {:?}", other),
    }
}

fn read_object(m: &mut Message) -> Option<Option<u32>> {
    match read_arg(m, ArgKind::NullableObject) {
        Some(Arg::NullableObject(v)) => Some(v),
        None => None,
        Some(other) => panic!("unexpected {:?}", other),
    }
}

fn read_string(m: &mut Message) -> Option<Option<String>> {
    match read_arg(m, ArgKind::NullableString) {
        Some(Arg::NullableStr(v)) => Some(v),
        None => None,
        Some(other) => panic!("unexpected {:?}", other),
    }
}

fn read_uint(m: &mut Message) -> Option<u32> {
    match read_arg(m, ArgKind::Uint) {
        Some(Arg::Uint(v)) => Some(v),
        None => None,
        Some(other) => panic!("unexpected {:?}", other),
    }
}

fn message_from(builder: PayloadBuilder, object: u32, opcode: u16) -> Message {
    let (payload, fds) = builder.build();
    Message::new(ObjectId::new(object).unwrap(), opcode, payload, fds)
}

#[test]
fn words_read_back_in_order() {
    let b = PayloadBuilder::new().put_uint(7).put_int(-3).put_uint(0xdead_beef);
    let mut m = message_from(b, 4, 2);
    assert_eq!(opcode_of(&m), 2);
    assert_eq!(object_of(&m), 4);
    assert_eq!(read_uint(&mut m), Some(7));
    assert_eq!(read_int(&mut m), Some(-3));
    assert_eq!(read_uint(&mut m), Some(0xdead_beef));
    assert_eq!(read_uint(&mut m), None);
}

#[test]
fn a_short_payload_is_refused() {
    let mut m = message_from(PayloadBuilder::new(), 1, 0);
    assert_eq!(read_uint(&mut m), None);
    assert_eq!(read_int(&mut m), None);
    assert_eq!(read_object(&mut m), None);
}

#[test]
fn object_zero_is_null() {
    let b = PayloadBuilder::new().put_uint(0).put_uint(9);
    let mut m = message_from(b, 1, 0);
    assert_eq!(read_object(&mut m), Some(None));
    assert_eq!(read_object(&mut m), Some(Some(9)));
}

#[test]
fn strings_and_arrays_are_padded_to_words() {
    let b = PayloadBuilder::new()
        .put_string(Some("hello"))
        .put_array(vec![1u8, 2, 3])
        .put_string(None::<String>)
        .put_uint(42);
    let mut m = message_from(b, 1, 0);
    assert_eq!(read_string(&mut m), Some(Some("hello".to_string())));
    assert_eq!(read_array(&mut m), Some(vec![1, 2, 3]));
    assert_eq!(read_string(&mut m), Some(None));
    assert_eq!(read_uint(&mut m), Some(42));
}

#[test]
fn a_string_without_its_nul_is_refused() {
    let b = PayloadBuilder::new().put_array(vec![b'a', b'b']);
    let mut m = message_from(b, 1, 0);
    assert_eq!(read_string(&mut m), None);
}

#[test]
fn a_string_that_is_not_utf8_is_refused() {
    let b = PayloadBuilder::new().put_array(vec![0xff, 0]);
    let mut m = message_from(b, 1, 0);
    assert_eq!(read_string(&mut m), None);
}

#[test]
fn an_array_longer_than_the_payload_is_refused() {
    let b = PayloadBuilder::new().put_uint(12).put_uint(1);
    let mut m = message_from(b, 1, 0);
    assert_eq!(read_array(&mut m), None);
}

#[test]
fn encoded_arguments_read_back_with_their_kinds() {
    let args = vec![
        Arg::Int(-7),
        Arg::Uint(3),
        Arg::Fixed(0x180),
        Arg::Object(12),
        Arg::NullableObject(None),
        Arg::NewId("wl_seat".to_string(), 9, 33),
        Arg::Str("xdg".to_string()),
        Arg::NullableStr(Some(String::new())),
        Arg::Array(vec![9, 8, 7, 6, 5]),
    ];
    let mut m = encode_message(5, 3, &args);
    assert_eq!(opcode_of(&m), 3);
    assert_eq!(object_of(&m), 5);
    let kinds = vec![
        ArgKind::Int,
        ArgKind::Uint,
        ArgKind::Fixed,
        ArgKind::Object,
        ArgKind::NullableObject,
        ArgKind::NewId,
        ArgKind::String,
        ArgKind::NullableString,
        ArgKind::Array,
    ];
    let back = read_args(&mut m, &kinds).unwrap();
    assert!(matches!(back[0], Arg::Int(-7)));
    assert!(matches!(back[1], Arg::Uint(3)));
    assert!(matches!(back[2], Arg::Fixed(0x180)));
    assert!(matches!(back[3], Arg::Object(12)));
    assert!(matches!(back[4], Arg::NullableObject(None)));
    assert!(matches!(&back[5], Arg::NewId(name, 9, 33) if name == "wl_seat"));
    assert!(matches!(&back[6], Arg::Str(s) if s == "xdg"));
    assert!(matches!(&back[7], Arg::NullableStr(Some(s)) if s.is_empty()));
    assert!(matches!(&back[8], Arg::Array(a) if a == &vec![9, 8, 7, 6, 5]));
    assert_eq!(read_uint(&mut m), None);
}

#[test]
fn the_encoder_writes_what_waynest_writes() {
    let args = vec![Arg::Uint(1), Arg::Str("wl_compositor".to_string()), Arg::Uint(6)];
    let mut ours = encode_message(2, 0, &args);
    let theirs = PayloadBuilder::new()
        .put_uint(1)
        .put_string(Some("wl_compositor"))
        .put_uint(6);
    let mut theirs = message_from(theirs, 2, 0);
    loop {
        let a = read_uint(&mut ours);
        let b = read_uint(&mut theirs);
        assert_eq!(a, b);
        if a.is_none() {
            break;
        }
    }
}
