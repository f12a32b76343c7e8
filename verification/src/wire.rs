//! The boundary with the wire layer of `waynest`.
//!
//! Everything the protocol code needs from `waynest::wire` goes through the
//! trusted items of this file: the readers of `Message`, the writers of
//! `PayloadBuilder`, and the construction of an outgoing `Message`.  Their
//! contracts are stated over a byte-level model of a message: the payload
//! bytes that are still unread, and the file descriptors still pending.
use rustix::fd::IntoRawFd;
use rustix::fd::OwnedFd;
use vstd::prelude::*;
use vstd::utf8::*;
use waynest::wire::Message;
use waynest::wire::ObjectId;
use waynest::wire::PayloadBuilder;

verus! {

#[verifier::external_type_specification]
#[verifier::external_body]
pub struct ExMessage(Message);

#[verifier::external_type_specification]
#[verifier::external_body]
pub struct ExPayloadBuilder(PayloadBuilder);

#[verifier::external_type_specification]
#[verifier::external_body]
pub struct ExOwnedFd(OwnedFd);

/// The payload bytes of a message that no reader has consumed yet.
pub uninterp spec fn unread_payload(m: Message) -> Seq<u8>;

/// The file descriptors a message still carries, in the order in which they are stored.
pub uninterp spec fn pending_fds(m: Message) -> Seq<i32>;

/// The opcode a message was made with.
pub uninterp spec fn message_opcode(m: Message) -> u16;

/// The raw id of the object a message was sent by, or is sent to.
pub uninterp spec fn message_object(m: Message) -> u32;

/// The payload bytes a builder holds so far.
pub uninterp spec fn built_payload(b: PayloadBuilder) -> Seq<u8>;

/// The file descriptors a builder holds so far.
pub uninterp spec fn built_fds(b: PayloadBuilder) -> Seq<i32>;

/// The four bytes of a 32-bit word in the host's byte order (`u32::to_ne_bytes`).
pub uninterp spec fn native_word_bytes(v: u32) -> Seq<u8>;

/// The 32-bit word that four bytes denote in the host's byte order (`u32::from_ne_bytes`).
pub uninterp spec fn native_word_value(b: Seq<u8>) -> u32;

/// The descriptor number that an owned file descriptor gives up (`IntoRawFd::into_raw_fd`).
pub uninterp spec fn raw_fd_number(fd: OwnedFd) -> i32;

/// The view of a message that the readers work on.
pub struct Cursor {
    pub payload: Seq<u8>,
    pub fds: Seq<i32>,
}

pub open spec fn cursor_of(m: Message) -> Cursor {
    Cursor { payload: unread_payload(m), fds: pending_fds(m) }
}

/// The word at the front of a payload, if there is a whole one.
pub open spec fn spec_word(p: Seq<u8>) -> Option<(u32, Seq<u8>)> {
    if p.len() >= 4 {
        Some((native_word_value(p.take(4)), p.skip(4)))
    } else {
        None
    }
}

/// An array at the front of a payload: a length word, that many bytes, and
/// then as many bytes as the rest of the payload has beyond a multiple of four.
pub open spec fn spec_array(p: Seq<u8>) -> Option<(Seq<u8>, Seq<u8>)> {
    match spec_word(p) {
        None => None,
        Some((len, q)) => if len == 0 {
            Some((Seq::<u8>::empty(), q))
        } else if q.len() < len {
            None
        } else {
            let rest = q.skip(len as int);
            Some((q.take(len as int), rest.skip(rest.len() as int % 4)))
        },
    }
}

/// A string at the front of a payload: an array that is empty (no string),
/// or that ends in a NUL byte and holds UTF-8 text before it.
pub open spec fn spec_string(p: Seq<u8>) -> Option<(Option<Seq<char>>, Seq<u8>)> {
    match spec_array(p) {
        None => None,
        Some((data, rest)) => if data.len() == 0 {
            Some((None, rest))
        } else if data.last() != 0u8 {
            None
        } else if valid_utf8(data.drop_last()) {
            Some((Some(decode_utf8(data.drop_last())), rest))
        } else {
            None
        },
    }
}

/// What a header field of a message does not change when its payload is read.
pub open spec fn same_header(a: Message, b: Message) -> bool {
    message_opcode(a) == message_opcode(b) && message_object(a) == message_object(b)
}

/// Reads the opcode of a message (`Message::opcode`).
#[verifier::external_body]
pub(crate) fn opcode_of(m: &Message) -> (r: u16)
    ensures
        r == message_opcode(*m),
{
    m.opcode()
}

/// Reads a signed word (`Message::int`): the host-order word at the front of
/// the payload, taken as two's complement; it fails where fewer than four
/// bytes are left.
#[verifier::external_body]
pub(crate) fn read_int(m: &mut Message) -> (r: Option<i32>)
    ensures
        same_header(*old(m), *final(m)),
        pending_fds(*final(m)) == pending_fds(*old(m)),
        match spec_word(unread_payload(*old(m))) {
            None => r is None,
            Some((v, rest)) => r == Some(v as i32) && unread_payload(*final(m)) == rest,
        },
{
    match m.int() {
        Ok(v) => Some(v),
        Err(_) => None,
    }
}

/// Reads an unsigned word (`Message::uint`).
#[verifier::external_body]
pub(crate) fn read_uint(m: &mut Message) -> (r: Option<u32>)
    ensures
        same_header(*old(m), *final(m)),
        pending_fds(*final(m)) == pending_fds(*old(m)),
        match spec_word(unread_payload(*old(m))) {
            None => r is None,
            Some((v, rest)) => r == Some(v) && unread_payload(*final(m)) == rest,
        },
{
    match m.uint() {
        Ok(v) => Some(v),
        Err(_) => None,
    }
}

/// Reads a fixed-point number (`Message::fixed`), given back as its raw word.
#[verifier::external_body]
pub(crate) fn read_fixed(m: &mut Message) -> (r: Option<u32>)
    ensures
        same_header(*old(m), *final(m)),
        pending_fds(*final(m)) == pending_fds(*old(m)),
        match spec_word(unread_payload(*old(m))) {
            None => r is None,
            Some((v, rest)) => r == Some(v) && unread_payload(*final(m)) == rest,
        },
{
    match m.fixed() {
        Ok(v) => Some(v.into_raw()),
        Err(_) => None,
    }
}

/// Reads an object id (`Message::object`): a word, where zero stands for no object.
#[verifier::external_body]
pub(crate) fn read_object(m: &mut Message) -> (r: Option<Option<u32>>)
    ensures
        same_header(*old(m), *final(m)),
        pending_fds(*final(m)) == pending_fds(*old(m)),
        match spec_word(unread_payload(*old(m))) {
            None => r is None,
            Some((v, rest)) => r == Some(if v == 0 { None::<u32> } else { Some(v) })
                && unread_payload(*final(m)) == rest,
        },
{
    match m.object() {
        Ok(Some(id)) => Some(Some(id.as_raw())),
        Ok(None) => Some(None),
        Err(_) => None,
    }
}

/// Reads an array (`Message::array`).
#[verifier::external_body]
pub(crate) fn read_array(m: &mut Message) -> (r: Option<Vec<u8>>)
    ensures
        same_header(*old(m), *final(m)),
        pending_fds(*final(m)) == pending_fds(*old(m)),
        match spec_array(unread_payload(*old(m))) {
            None => r is None,
            Some((data, rest)) => r matches Some(v) && v@ == data && unread_payload(*final(m))
                == rest,
        },
{
    match m.array() {
        Ok(v) => Some(v),
        Err(_) => None,
    }
}

/// Reads a string (`Message::string`); `Some(None)` is the null string.
#[verifier::external_body]
pub(crate) fn read_string(m: &mut Message) -> (r: Option<Option<String>>)
    ensures
        same_header(*old(m), *final(m)),
        pending_fds(*final(m)) == pending_fds(*old(m)),
        match spec_string(unread_payload(*old(m))) {
            None => r is None,
            Some((None, rest)) => r == Some(None::<String>) && unread_payload(*final(m)) == rest,
            Some((Some(text), rest)) => r matches Some(Some(s)) && s@ == text && unread_payload(
                *final(m),
            ) == rest,
        },
{
    match m.string() {
        Ok(s) => Some(s),
        Err(_) => None,
    }
}

/// Whether none of the descriptors is -1, the value `OwnedFd::from_raw_fd`
/// refuses.  Descriptors a message received from a socket are open ones.
pub open spec fn fds_valid(fds: Seq<i32>) -> bool {
    forall|i: int| 0 <= i < fds.len() ==> #[trigger] fds[i] != -1
}

/// Takes a file descriptor out of a message (`Message::fd`): the last one it
/// holds.  `Message::fd` hands the descriptor to `OwnedFd::from_raw_fd`, which
/// panics on -1, so the last pending descriptor may not be -1.
#[verifier::external_body]
pub(crate) fn read_fd(m: &mut Message) -> (r: Option<i32>)
    requires
        pending_fds(*old(m)).len() > 0 ==> pending_fds(*old(m)).last() != -1,
    ensures
        same_header(*old(m), *final(m)),
        unread_payload(*final(m)) == unread_payload(*old(m)),
        if pending_fds(*old(m)).len() > 0 {
            r == Some(pending_fds(*old(m)).last()) && pending_fds(*final(m)) == pending_fds(
                *old(m),
            ).drop_last()
        } else {
            r is None
        },
{
    match m.fd() {
        Ok(fd) => Some(fd.into_raw_fd()),
        Err(_) => None,
    }
}

/// An empty builder (`PayloadBuilder::new`).
#[verifier::external_body]
pub(crate) fn new_builder() -> (b: PayloadBuilder)
    ensures
        built_payload(b) == Seq::<u8>::empty(),
        built_fds(b) == Seq::<i32>::empty(),
{
    PayloadBuilder::new()
}

/// Appends a word in host order (`PayloadBuilder::put_uint`).  The bytes it
/// appends are four, and read back as the same word.
#[verifier::external_body]
pub(crate) fn put_uint(b: PayloadBuilder, v: u32) -> (r: PayloadBuilder)
    ensures
        built_payload(r) == built_payload(b) + native_word_bytes(v),
        built_payload(r).len() == built_payload(b).len() + 4,
        native_word_value(built_payload(r).skip(built_payload(b).len() as int)) == v,
        built_fds(r) == built_fds(b),
{
    b.put_uint(v)
}

/// Appends a signed word (`PayloadBuilder::put_int`): the host-order bytes of
/// its two's complement word.
#[verifier::external_body]
pub(crate) fn put_int(b: PayloadBuilder, v: i32) -> (r: PayloadBuilder)
    ensures
        built_payload(r) == built_payload(b) + native_word_bytes(v as u32),
        built_payload(r).len() == built_payload(b).len() + 4,
        native_word_value(built_payload(r).skip(built_payload(b).len() as int)) == v as u32,
        built_fds(r) == built_fds(b),
{
    b.put_int(v)
}

/// Appends an object id (`PayloadBuilder::put_object`): the word of the id,
/// zero for no object.
#[verifier::external_body]
pub(crate) fn put_object(b: PayloadBuilder, id: u32) -> (r: PayloadBuilder)
    ensures
        built_payload(r) == built_payload(b) + native_word_bytes(id),
        built_payload(r).len() == built_payload(b).len() + 4,
        native_word_value(built_payload(r).skip(built_payload(b).len() as int)) == id,
        built_fds(r) == built_fds(b),
{
    b.put_object(ObjectId::new(id))
}

/// The padding that follows `n` bytes of array or string data.
pub open spec fn padding_after(n: nat) -> nat {
    if (n + 4) % 4 == 0 {
        0
    } else {
        (4 - (n + 4) % 4) as nat
    }
}

pub open spec fn zeros(n: nat) -> Seq<u8> {
    Seq::new(n, |i: int| 0u8)
}

/// The bytes of an array on the wire.
pub open spec fn array_bytes(data: Seq<u8>) -> Seq<u8> {
    native_word_bytes(data.len() as u32) + data + zeros(padding_after(data.len()))
}

/// The bytes of a string on the wire; the null string is a zero word.
pub open spec fn string_bytes(s: Option<Seq<char>>) -> Seq<u8> {
    match s {
        None => native_word_bytes(0),
        Some(text) => array_bytes(encode_utf8(text).push(0u8)),
    }
}

/// Appends an array (`PayloadBuilder::put_array`): its length word, its
/// bytes, and zero bytes up to a multiple of four.
#[verifier::external_body]
pub(crate) fn put_array(b: PayloadBuilder, data: &Vec<u8>) -> (r: PayloadBuilder)
    ensures
        built_payload(r) == built_payload(b) + array_bytes(data@),
        built_payload(r).len() == built_payload(b).len() + 4 + data@.len() + padding_after(
            data@.len(),
        ),
        native_word_value(built_payload(r).skip(built_payload(b).len() as int).take(4))
            == data@.len() as u32,
        built_fds(r) == built_fds(b),
{
    b.put_array(data)
}

/// Appends a string (`PayloadBuilder::put_string`): the null string as a zero
/// word, any other as an array of its UTF-8 bytes and a closing NUL.
#[verifier::external_body]
pub(crate) fn put_string(b: PayloadBuilder, s: Option<&String>) -> (r: PayloadBuilder)
    ensures
        built_payload(r) == built_payload(b) + string_bytes(
            match s {
                None => None,
                Some(t) => Some(t@),
            },
        ),
        built_payload(r).len() == built_payload(b).len() + 4 + match s {
            None => 0nat,
            Some(t) => encode_utf8(t@).len() + 1 + padding_after(encode_utf8(t@).len() + 1),
        },
        native_word_value(built_payload(r).skip(built_payload(b).len() as int).take(4)) == (
        match s {
            None => 0u32,
            Some(t) => (encode_utf8(t@).len() + 1) as u32,
        }),
        built_fds(r) == built_fds(b),
{
    b.put_string(s)
}

/// Attaches a file descriptor (`PayloadBuilder::put_fd`); the payload is unchanged.
#[verifier::external_body]
pub(crate) fn put_fd(b: PayloadBuilder, fd: OwnedFd) -> (r: PayloadBuilder)
    ensures
        built_payload(r) == built_payload(b),
        built_fds(r) == built_fds(b).push(raw_fd_number(fd)),
{
    b.put_fd(fd)
}

/// Turns a builder into a message (`PayloadBuilder::build`, then `Message::new`)
/// from the object `object`, with opcode `opcode`.
#[verifier::external_body]
pub(crate) fn finish(b: PayloadBuilder, object: u32, opcode: u16) -> (m: Message)
    requires
        object != 0,
    ensures
        message_object(m) == object,
        message_opcode(m) == opcode,
        unread_payload(m) == built_payload(b),
        pending_fds(m) == built_fds(b),
{
    let (payload, fds) = b.build();
    Message::new(ObjectId::new(object).unwrap(), opcode, payload, fds)
}

} // verus!
