//! Arguments of requests and events, as the wire carries them.
//!
//! A request or event has a signature: the kinds of its arguments, in order.
//! Decoding a request reads one value of each kind off a message; encoding an
//! event writes one value after the other into a payload.  Both directions are
//! stated over `spec_read_args` and `spec_encode_args`, and a message built by
//! `encode_message` reads back, with its own signature, to the values it was
//! built from.
use crate::wire::{
    fds_valid,
    built_fds, built_payload, finish, message_object, message_opcode, new_builder, padding_after,
    pending_fds, put_array, put_int, put_object, put_string, put_uint, unread_payload, zeros,
    array_bytes, cursor_of, native_word_bytes, native_word_value, read_array, read_fd, read_fixed,
    read_int, read_object, read_string, read_uint, same_header, spec_array, spec_string, spec_word,
    string_bytes, Cursor,
};
use vstd::prelude::*;
use vstd::utf8::*;
use waynest::wire::Message;
use waynest::wire::PayloadBuilder;

verus! {

/// The kind of an argument.  Enumerations and bit sets travel as `Uint`.
#[derive(Debug, Clone, Copy, PartialEq, Eq, Structural)]
pub enum ArgKind {
    Int,
    Uint,
    Fixed,
    /// An object id that may not be null (this includes a `new_id` of a known interface).
    Object,
    NullableObject,
    /// A `new_id` of an interface named on the wire: interface name, version, id.
    NewId,
    String,
    NullableString,
    Array,
    Fd,
}

/// The mathematical value of an argument.
pub enum ArgValue {
    Int(i32),
    Uint(u32),
    Fixed(u32),
    Object(u32),
    NullableObject(Option<u32>),
    NewId(Seq<char>, u32, u32),
    Str(Seq<char>),
    NullableStr(Option<Seq<char>>),
    Array(Seq<u8>),
    Fd(i32),
}

/// An argument as a value of the program.
#[derive(Debug)]
pub enum Arg {
    Int(i32),
    Uint(u32),
    /// A fixed-point number, by its raw word (24.8 two's complement).
    Fixed(u32),
    Object(u32),
    NullableObject(Option<u32>),
    NewId(String, u32, u32),
    Str(String),
    NullableStr(Option<String>),
    Array(Vec<u8>),
    Fd(i32),
}

impl View for Arg {
    type V = ArgValue;

    open spec fn view(&self) -> ArgValue {
        match self {
            Arg::Int(v) => ArgValue::Int(*v),
            Arg::Uint(v) => ArgValue::Uint(*v),
            Arg::Fixed(v) => ArgValue::Fixed(*v),
            Arg::Object(v) => ArgValue::Object(*v),
            Arg::NullableObject(v) => ArgValue::NullableObject(*v),
            Arg::NewId(s, v, id) => ArgValue::NewId(s@, *v, *id),
            Arg::Str(s) => ArgValue::Str(s@),
            Arg::NullableStr(s) => ArgValue::NullableStr(
                match s {
                    None => None,
                    Some(t) => Some(t@),
                },
            ),
            Arg::Array(a) => ArgValue::Array(a@),
            Arg::Fd(fd) => ArgValue::Fd(*fd),
        }
    }
}

pub open spec fn views(args: Seq<Arg>) -> Seq<ArgValue> {
    args.map_values(|a: Arg| a@)
}

pub open spec fn kind_of(v: ArgValue) -> ArgKind {
    match v {
        ArgValue::Int(_) => ArgKind::Int,
        ArgValue::Uint(_) => ArgKind::Uint,
        ArgValue::Fixed(_) => ArgKind::Fixed,
        ArgValue::Object(_) => ArgKind::Object,
        ArgValue::NullableObject(_) => ArgKind::NullableObject,
        ArgValue::NewId(_, _, _) => ArgKind::NewId,
        ArgValue::Str(_) => ArgKind::String,
        ArgValue::NullableStr(_) => ArgKind::NullableString,
        ArgValue::Array(_) => ArgKind::Array,
        ArgValue::Fd(_) => ArgKind::Fd,
    }
}

pub open spec fn kinds_of(vals: Seq<ArgValue>) -> Seq<ArgKind> {
    vals.map_values(|v: ArgValue| kind_of(v))
}

pub open spec fn cursor_from(payload: Seq<u8>, fds: Seq<i32>) -> Cursor {
    Cursor { payload, fds }
}

pub open spec fn with_payload(c: Cursor, p: Seq<u8>) -> Cursor {
    Cursor { payload: p, fds: c.fds }
}

/// Reads one argument of kind `kind` off the front of `c`.
#[verifier::opaque]
pub open spec fn spec_read_arg(kind: ArgKind, c: Cursor) -> Option<(ArgValue, Cursor)> {
    match kind {
        ArgKind::Int => match spec_word(c.payload) {
            None => None,
            Some((v, rest)) => Some((ArgValue::Int(v as i32), with_payload(c, rest))),
        },
        ArgKind::Uint => match spec_word(c.payload) {
            None => None,
            Some((v, rest)) => Some((ArgValue::Uint(v), with_payload(c, rest))),
        },
        ArgKind::Fixed => match spec_word(c.payload) {
            None => None,
            Some((v, rest)) => Some((ArgValue::Fixed(v), with_payload(c, rest))),
        },
        ArgKind::Object => match spec_word(c.payload) {
            None => None,
            Some((v, rest)) => if v == 0 {
                None
            } else {
                Some((ArgValue::Object(v), with_payload(c, rest)))
            },
        },
        ArgKind::NullableObject => match spec_word(c.payload) {
            None => None,
            Some((v, rest)) => Some(
                (
                    ArgValue::NullableObject(
                        if v == 0 {
                            None
                        } else {
                            Some(v)
                        },
                    ),
                    with_payload(c, rest),
                ),
            ),
        },
        ArgKind::NewId => match spec_string(c.payload) {
            Some((Some(name), p1)) => match spec_word(p1) {
                None => None,
                Some((version, p2)) => match spec_word(p2) {
                    None => None,
                    Some((id, p3)) => if id == 0 {
                        None
                    } else {
                        Some((ArgValue::NewId(name, version, id), with_payload(c, p3)))
                    },
                },
            },
            _ => None,
        },
        ArgKind::String => match spec_string(c.payload) {
            Some((Some(text), rest)) => Some((ArgValue::Str(text), with_payload(c, rest))),
            _ => None,
        },
        ArgKind::NullableString => match spec_string(c.payload) {
            None => None,
            Some((s, rest)) => Some((ArgValue::NullableStr(s), with_payload(c, rest))),
        },
        ArgKind::Array => match spec_array(c.payload) {
            None => None,
            Some((data, rest)) => Some((ArgValue::Array(data), with_payload(c, rest))),
        },
        ArgKind::Fd => if c.fds.len() > 0 {
            Some((ArgValue::Fd(c.fds.last()), Cursor { payload: c.payload, fds: c.fds.drop_last() }))
        } else {
            None
        },
    }
}

/// Reads the arguments of a signature, in order, off the front of `c`.
pub open spec fn spec_read_args(sig: Seq<ArgKind>, c: Cursor) -> Option<(Seq<ArgValue>, Cursor)>
    decreases sig.len(),
{
    if sig.len() == 0 {
        Some((Seq::<ArgValue>::empty(), c))
    } else {
        match spec_read_arg(sig[0], c) {
            None => None,
            Some((v, c1)) => match spec_read_args(sig.drop_first(), c1) {
                None => None,
                Some((vs, c2)) => Some((seq![v] + vs, c2)),
            },
        }
    }
}

/// The bytes that encode one argument.  A file descriptor adds no bytes.
pub open spec fn spec_encode_arg(v: ArgValue) -> Seq<u8> {
    match v {
        ArgValue::Int(i) => native_word_bytes(i as u32),
        ArgValue::Uint(u) => native_word_bytes(u),
        ArgValue::Fixed(u) => native_word_bytes(u),
        ArgValue::Object(o) => native_word_bytes(o),
        ArgValue::NullableObject(o) => native_word_bytes(
            match o {
                None => 0u32,
                Some(x) => x,
            },
        ),
        ArgValue::NewId(name, version, id) => string_bytes(Some(name)) + native_word_bytes(version)
            + native_word_bytes(id),
        ArgValue::Str(s) => string_bytes(Some(s)),
        ArgValue::NullableStr(s) => string_bytes(s),
        ArgValue::Array(a) => array_bytes(a),
        ArgValue::Fd(_) => Seq::<u8>::empty(),
    }
}

pub open spec fn spec_encode_args(vals: Seq<ArgValue>) -> Seq<u8>
    decreases vals.len(),
{
    if vals.len() == 0 {
        Seq::<u8>::empty()
    } else {
        spec_encode_arg(vals[0]) + spec_encode_args(vals.drop_first())
    }
}

/// The host byte order encodes `w` in four bytes that decode back to `w`.
pub open spec fn word_ok(w: u32) -> bool {
    native_word_bytes(w).len() == 4 && native_word_value(native_word_bytes(w)) == w
}

pub open spec fn text_len_word(s: Seq<char>) -> u32 {
    (encode_utf8(s).len() + 1) as u32
}

/// The words an encoding of `v` is made of behave as words do.
pub open spec fn words_ok(v: ArgValue) -> bool {
    match v {
        ArgValue::Int(i) => word_ok(i as u32),
        ArgValue::Uint(u) => word_ok(u),
        ArgValue::Fixed(u) => word_ok(u),
        ArgValue::Object(o) => word_ok(o),
        ArgValue::NullableObject(o) => word_ok(
            match o {
                None => 0u32,
                Some(x) => x,
            },
        ),
        ArgValue::NewId(name, version, id) => word_ok(text_len_word(name)) && word_ok(version)
            && word_ok(id),
        ArgValue::Str(s) => word_ok(text_len_word(s)),
        ArgValue::NullableStr(s) => match s {
            None => word_ok(0),
            Some(t) => word_ok(text_len_word(t)),
        },
        ArgValue::Array(a) => word_ok(a.len() as u32),
        ArgValue::Fd(_) => true,
    }
}

/// An argument the wire can carry and give back unchanged: object ids that
/// may not be null are not zero, and lengths fit in a word.
pub open spec fn fits_wire(v: ArgValue) -> bool {
    match v {
        ArgValue::Object(o) => o != 0,
        ArgValue::NullableObject(o) => o != Some(0u32),
        ArgValue::NewId(name, _, id) => id != 0 && encode_utf8(name).len() + 1 <= u32::MAX,
        ArgValue::Str(s) => encode_utf8(s).len() + 1 <= u32::MAX,
        ArgValue::NullableStr(s) => match s {
            None => true,
            Some(t) => encode_utf8(t).len() + 1 <= u32::MAX,
        },
        ArgValue::Array(a) => a.len() <= u32::MAX,
        ArgValue::Fd(_) => false,
        _ => true,
    }
}

pub open spec fn all_fit_wire(vals: Seq<ArgValue>) -> bool {
    forall|i: int| 0 <= i < vals.len() ==> fits_wire(#[trigger] vals[i])
}

pub open spec fn has_no_fd(vals: Seq<ArgValue>) -> bool {
    forall|i: int| 0 <= i < vals.len() ==> !(#[trigger] vals[i] is Fd)
}

/// Reading an argument of a kind gives a value of that kind.
pub proof fn lemma_read_arg_kind(kind: ArgKind, c: Cursor)
    ensures
        spec_read_arg(kind, c) matches Some((v, _)) ==> kind_of(v) == kind,
{
    reveal(spec_read_arg);
}

/// Reading the arguments of a signature gives values of the kinds it lists.
pub proof fn lemma_read_args_kinds(sig: Seq<ArgKind>, c: Cursor)
    ensures
        spec_read_args(sig, c) matches Some((vals, _)) ==> kinds_of(vals) == sig,
    decreases sig.len(),
{
    if sig.len() > 0 {
        lemma_read_arg_kind(sig[0], c);
        match spec_read_arg(sig[0], c) {
            None => {},
            Some((v, c1)) => {
                lemma_read_args_kinds(sig.drop_first(), c1);
                match spec_read_args(sig.drop_first(), c1) {
                    None => {},
                    Some((vs, _)) => {
                        let all = seq![v] + vs;
                        lemma_kinds_of(all);
                        lemma_kinds_of(vs);
                        assert forall|i: int| 0 <= i < sig.len() implies #[trigger] kinds_of(all)[i]
                            == sig[i] by {
                            if i > 0 {
                                assert(all[i] == vs[i - 1]);
                                assert(sig.drop_first()[i - 1] == sig[i]);
                            }
                        }
                        assert(kinds_of(all) =~= sig);
                    },
                }
            },
        }
    }
}

/// The kinds of a sequence of values, one by one.
pub proof fn lemma_kinds_of(vals: Seq<ArgValue>)
    ensures
        kinds_of(vals).len() == vals.len(),
        forall|i: int|
            #![trigger kinds_of(vals)[i]]
            #![trigger vals[i]]
            0 <= i < vals.len() ==> kinds_of(vals)[i] == kind_of(vals[i]),
{
}

/// Reads one argument off a message.
pub fn read_arg(m: &mut Message, kind: ArgKind) -> (r: Option<Arg>)
    requires
        kind == ArgKind::Fd ==> fds_valid(pending_fds(*old(m))),
    ensures
        same_header(*old(m), *final(m)),
        r is Some && fds_valid(pending_fds(*old(m))) ==> fds_valid(pending_fds(*final(m))),
        match spec_read_arg(kind, cursor_of(*old(m))) {
            None => r is None,
            Some((v, c)) => r matches Some(a) && a@ == v && cursor_of(*final(m)) == c,
        },
{
    reveal(spec_read_arg);
    match kind {
        ArgKind::Int => match read_int(m) {
            Some(v) => Some(Arg::Int(v)),
            None => None,
        },
        ArgKind::Uint => match read_uint(m) {
            Some(v) => Some(Arg::Uint(v)),
            None => None,
        },
        ArgKind::Fixed => match read_fixed(m) {
            Some(v) => Some(Arg::Fixed(v)),
            None => None,
        },
        ArgKind::Object => match read_object(m) {
            Some(Some(v)) => Some(Arg::Object(v)),
            _ => None,
        },
        ArgKind::NullableObject => match read_object(m) {
            Some(v) => Some(Arg::NullableObject(v)),
            None => None,
        },
        ArgKind::NewId => {
            let name = match read_string(m) {
                Some(Some(s)) => s,
                _ => {
                    return None;
                },
            };
            let version = match read_uint(m) {
                Some(v) => v,
                None => {
                    return None;
                },
            };
            match read_object(m) {
                Some(Some(id)) => Some(Arg::NewId(name, version, id)),
                _ => None,
            }
        },
        ArgKind::String => match read_string(m) {
            Some(Some(s)) => Some(Arg::Str(s)),
            _ => None,
        },
        ArgKind::NullableString => match read_string(m) {
            Some(s) => Some(Arg::NullableStr(s)),
            None => None,
        },
        ArgKind::Array => match read_array(m) {
            Some(a) => Some(Arg::Array(a)),
            None => None,
        },
        ArgKind::Fd => match read_fd(m) {
            Some(fd) => {
                proof {
                    let fds = pending_fds(*old(m));
                    assert(fds[fds.len() - 1] != -1);
                    assert forall|i: int| 0 <= i < fds.drop_last().len() implies #[trigger] fds.drop_last()[i] != -1 by {
                        assert(fds[i] != -1);
                    }
                }
                Some(Arg::Fd(fd))
            },
            None => None,
        },
    }
}

/// Reads the arguments of signature `sig` off a message, in order.
pub fn read_args(m: &mut Message, sig: &Vec<ArgKind>) -> (r: Option<Vec<Arg>>)
    requires
        sig@.contains(ArgKind::Fd) ==> fds_valid(pending_fds(*old(m))),
    ensures
        same_header(*old(m), *final(m)),
        match spec_read_args(sig@, cursor_of(*old(m))) {
            None => r is None,
            Some((vals, c)) => r matches Some(args) && views(args@) == vals && cursor_of(*final(m))
                == c && kinds_of(vals) == sig@,
        },
{
    let ghost c0 = cursor_of(*m);
    proof {
        lemma_read_args_kinds(sig@, c0);
    }
    let mut args: Vec<Arg> = Vec::new();
    let mut i: usize = 0;
    assert(sig@.skip(0) =~= sig@);
    assert(views(args@) =~= Seq::<ArgValue>::empty());
    while i < sig.len()
        invariant
            0 <= i <= sig.len(),
            same_header(*old(m), *m),
            c0 == cursor_of(*old(m)),
            sig@.contains(ArgKind::Fd) ==> fds_valid(pending_fds(*m)),
            spec_read_args(sig@, c0) == match spec_read_args(sig@.skip(i as int), cursor_of(*m)) {
                None => None,
                Some((vs, c)) => Some((views(args@) + vs, c)),
            },
        decreases sig.len() - i,
    {
        let ghost before = cursor_of(*m);
        let ghost done = views(args@);
        assert(sig@.skip(i as int).drop_first() =~= sig@.skip(i + 1));
        assert(sig@.skip(i as int)[0] == sig@[i as int]);
        assert(sig@[i as int] == ArgKind::Fd ==> sig@.contains(ArgKind::Fd));
        match read_arg(m, sig[i]) {
            None => {
                assert(spec_read_args(sig@.skip(i as int), before) is None);
                return None;
            },
            Some(a) => {
                args.push(a);
                proof {
                    assert(views(args@) =~= done.push(a@));
                    match spec_read_args(sig@.skip(i + 1), cursor_of(*m)) {
                        None => {},
                        Some((vs, c)) => {
                            assert(done + (seq![a@] + vs) =~= done.push(a@) + vs);
                        },
                    }
                }
            },
        }
        i = i + 1;
    }
    proof {
        assert(sig@.skip(i as int) =~= Seq::<ArgKind>::empty());
        assert(views(args@) + Seq::<ArgValue>::empty() =~= views(args@));
    }
    Some(args)
}


proof fn lemma_word_written(before: Seq<u8>, after: Seq<u8>, w: u32)
    requires
        after == before + native_word_bytes(w),
        after.len() == before.len() + 4,
        native_word_value(after.skip(before.len() as int)) == w,
    ensures
        word_ok(w),
{
    assert(after.skip(before.len() as int) =~= native_word_bytes(w));
}

proof fn lemma_word_prefix_written(before: Seq<u8>, after: Seq<u8>, w: u32, tail: Seq<u8>)
    requires
        after == before + (native_word_bytes(w) + tail),
        after.len() == before.len() + 4 + tail.len(),
        native_word_value(after.skip(before.len() as int).take(4)) == w,
    ensures
        word_ok(w),
{
    assert(native_word_bytes(w).len() == 4);
    assert(after.skip(before.len() as int).take(4) =~= native_word_bytes(w));
}

/// Appends one argument to a builder.
pub fn write_arg(b: PayloadBuilder, a: &Arg) -> (r: PayloadBuilder)
    requires
        !(a@ is Fd),
    ensures
        built_payload(r) == built_payload(b) + spec_encode_arg(a@),
        built_fds(r) == built_fds(b),
        words_ok(a@),
{
    let ghost p0 = built_payload(b);
    match a {
        Arg::Int(v) => {
            let r = put_int(b, *v);
            proof {
                lemma_word_written(p0, built_payload(r), *v as u32);
            }
            r
        },
        Arg::Uint(v) => {
            let r = put_uint(b, *v);
            proof {
                lemma_word_written(p0, built_payload(r), *v);
            }
            r
        },
        Arg::Fixed(v) => {
            let r = put_uint(b, *v);
            proof {
                lemma_word_written(p0, built_payload(r), *v);
            }
            r
        },
        Arg::Object(v) => {
            let r = put_object(b, *v);
            proof {
                lemma_word_written(p0, built_payload(r), *v);
            }
            r
        },
        Arg::NullableObject(v) => {
            let id = match v {
                Some(x) => *x,
                None => 0,
            };
            let r = put_object(b, id);
            proof {
                lemma_word_written(p0, built_payload(r), id);
            }
            r
        },
        Arg::NewId(name, version, id) => {
            let b1 = put_string(b, Some(name));
            let ghost p1 = built_payload(b1);
            proof {
                let data = encode_utf8(name@).push(0u8);
                assert(string_bytes(Some(name@)) =~= native_word_bytes(text_len_word(name@)) + (data
                    + zeros(padding_after(data.len()))));
                lemma_word_prefix_written(
                    p0,
                    p1,
                    text_len_word(name@),
                    data + zeros(padding_after(data.len())),
                );
            }
            let b2 = put_uint(b1, *version);
            let ghost p2 = built_payload(b2);
            proof {
                lemma_word_written(p1, p2, *version);
            }
            let r = put_object(b2, *id);
            proof {
                lemma_word_written(p2, built_payload(r), *id);
                assert(built_payload(r) =~= p0 + spec_encode_arg(a@));
            }
            r
        },
        Arg::Str(s) => {
            let r = put_string(b, Some(s));
            proof {
                let data = encode_utf8(s@).push(0u8);
                assert(string_bytes(Some(s@)) =~= native_word_bytes(text_len_word(s@)) + (data
                    + zeros(padding_after(data.len()))));
                lemma_word_prefix_written(
                    p0,
                    built_payload(r),
                    text_len_word(s@),
                    data + zeros(padding_after(data.len())),
                );
            }
            r
        },
        Arg::NullableStr(s) => {
            match s {
                Some(t) => {
                    let r = put_string(b, Some(t));
                    proof {
                        let data = encode_utf8(t@).push(0u8);
                        assert(string_bytes(Some(t@)) =~= native_word_bytes(text_len_word(t@)) + (
                        data + zeros(padding_after(data.len()))));
                        lemma_word_prefix_written(
                            p0,
                            built_payload(r),
                            text_len_word(t@),
                            data + zeros(padding_after(data.len())),
                        );
                    }
                    r
                },
                None => {
                    let r = put_string(b, None);
                    proof {
                        lemma_word_prefix_written(p0, built_payload(r), 0, Seq::<u8>::empty());
                        assert(native_word_bytes(0) + Seq::<u8>::empty() =~= native_word_bytes(0));
                    }
                    r
                },
            }
        },
        Arg::Array(data) => {
            let r = put_array(b, data);
            proof {
                assert(array_bytes(data@) =~= native_word_bytes(data@.len() as u32) + (data@ + zeros(
                    padding_after(data@.len()),
                )));
                lemma_word_prefix_written(
                    p0,
                    built_payload(r),
                    data@.len() as u32,
                    data@ + zeros(padding_after(data@.len())),
                );
            }
            r
        },
        Arg::Fd(_) => {
            proof {
                assert(false);
            }
            b
        },
    }
}

pub open spec fn all_words_ok(vals: Seq<ArgValue>) -> bool {
    forall|i: int| 0 <= i < vals.len() ==> words_ok(#[trigger] vals[i])
}

proof fn lemma_encode_args_push(vals: Seq<ArgValue>, v: ArgValue)
    ensures
        spec_encode_args(vals.push(v)) == spec_encode_args(vals) + spec_encode_arg(v),
    decreases vals.len(),
{
    if vals.len() == 0 {
        assert(vals.push(v).drop_first() =~= Seq::<ArgValue>::empty());
        assert(vals.push(v)[0] == v);
        assert(spec_encode_args(Seq::<ArgValue>::empty()) == Seq::<u8>::empty());
        assert(spec_encode_args(vals) == Seq::<u8>::empty());
        assert(spec_encode_args(vals.push(v)) =~= spec_encode_args(vals) + spec_encode_arg(v));
    } else {
        assert(vals.push(v).drop_first() =~= vals.drop_first().push(v));
        lemma_encode_args_push(vals.drop_first(), v);
        assert(spec_encode_args(vals.push(v)) =~= spec_encode_args(vals) + spec_encode_arg(v));
    }
}

/// Appends arguments to a builder, in order.
pub fn write_args(b: PayloadBuilder, args: &Vec<Arg>) -> (r: PayloadBuilder)
    requires
        has_no_fd(views(args@)),
    ensures
        built_payload(r) == built_payload(b) + spec_encode_args(views(args@)),
        built_fds(r) == built_fds(b),
        all_words_ok(views(args@)),
{
    let ghost p0 = built_payload(b);
    let mut r = b;
    let mut i: usize = 0;
    assert(views(args@).take(0) =~= Seq::<ArgValue>::empty());
    assert(p0 + spec_encode_args(Seq::<ArgValue>::empty()) =~= p0);
    while i < args.len()
        invariant
            0 <= i <= args.len(),
            has_no_fd(views(args@)),
            built_payload(r) == p0 + spec_encode_args(views(args@).take(i as int)),
            built_fds(r) == built_fds(b),
            forall|j: int| 0 <= j < i ==> words_ok(#[trigger] views(args@)[j]),
        decreases args.len() - i,
    {
        assert(views(args@)[i as int] == args@[i as int]@);
        assert(!(views(args@)[i as int] is Fd));
        r = write_arg(r, &args[i]);
        proof {
            let vs = views(args@);
            assert(vs.take(i + 1) =~= vs.take(i as int).push(vs[i as int]));
            lemma_encode_args_push(vs.take(i as int), vs[i as int]);
        }
        i = i + 1;
    }
    assert(views(args@).take(i as int) =~= views(args@));
    r
}

/// The bytes of a word, then anything, read back as that word.
proof fn lemma_read_word(w: u32, rest: Seq<u8>)
    requires
        word_ok(w),
    ensures
        spec_word(native_word_bytes(w) + rest) == Some((w, rest)),
{
    let p = native_word_bytes(w) + rest;
    assert(p.take(4) =~= native_word_bytes(w));
    assert(p.skip(4) =~= rest);
}

proof fn lemma_padding(n: nat, rest: Seq<u8>)
    requires
        rest.len() % 4 == 0,
    ensures
        (zeros(padding_after(n)) + rest).len() as int % 4 == padding_after(n),
        (n + padding_after(n)) % 4 == 0,
        padding_after(n) < 4,
{
}

/// An array written to the wire reads back, given that what follows it is
/// whole words.
proof fn lemma_read_array(data: Seq<u8>, rest: Seq<u8>)
    requires
        word_ok(data.len() as u32),
        data.len() <= u32::MAX,
        rest.len() % 4 == 0,
    ensures
        spec_array(array_bytes(data) + rest) == Some((data, rest)),
        array_bytes(data).len() % 4 == 0,
{
    let w = data.len() as u32;
    let pad = zeros(padding_after(data.len()));
    let p = array_bytes(data) + rest;
    assert(p =~= native_word_bytes(w) + (data + pad + rest));
    lemma_read_word(w, data + pad + rest);
    lemma_padding(data.len(), rest);
    let q = data + pad + rest;
    if w == 0 {
        assert(data.len() == 0);
        assert(padding_after(0) == 0);
        assert(q =~= rest);
        assert(data =~= Seq::<u8>::empty());
    } else {
        assert(q.take(w as int) =~= data);
        assert(q.skip(w as int) =~= pad + rest);
        let r2 = q.skip(w as int);
        assert(r2.skip(r2.len() as int % 4) =~= rest);
    }
}

proof fn lemma_read_string(s: Option<Seq<char>>, rest: Seq<u8>)
    requires
        match s {
            None => word_ok(0),
            Some(t) => word_ok(text_len_word(t)) && encode_utf8(t).len() + 1 <= u32::MAX,
        },
        rest.len() % 4 == 0,
    ensures
        spec_string(string_bytes(s) + rest) == Some((s, rest)),
        string_bytes(s).len() % 4 == 0,
{
    match s {
        None => {
            lemma_read_word(0, rest);
        },
        Some(t) => {
            let data = encode_utf8(t).push(0u8);
            assert(data.len() as u32 == text_len_word(t));
            lemma_read_array(data, rest);
            assert(data.drop_last() =~= encode_utf8(t));
            vstd::utf8::encode_utf8_valid_utf8(t);
            vstd::utf8::encode_utf8_decode_utf8(t);
        },
    }
}

proof fn lemma_read_encoded_int(i: i32, rest: Seq<u8>, fds: Seq<i32>)
    requires
        word_ok(i as u32),
    ensures
        spec_read_arg(ArgKind::Int, cursor_from(native_word_bytes(i as u32) + rest, fds)) == Some(
            (ArgValue::Int(i), cursor_from(rest, fds)),
        ),
{
    reveal(spec_read_arg);
    assert((i as u32) as i32 == i) by (bit_vector);
    lemma_read_word(i as u32, rest);
}

proof fn lemma_read_encoded_uint(kind: ArgKind, u: u32, rest: Seq<u8>, fds: Seq<i32>)
    requires
        word_ok(u),
        kind == ArgKind::Uint || kind == ArgKind::Fixed || kind == ArgKind::NullableObject || (
        kind == ArgKind::Object && u != 0),
    ensures
        spec_read_arg(kind, cursor_from(native_word_bytes(u) + rest, fds)) == Some(
            (
                match kind {
                    ArgKind::Uint => ArgValue::Uint(u),
                    ArgKind::Fixed => ArgValue::Fixed(u),
                    ArgKind::Object => ArgValue::Object(u),
                    _ => ArgValue::NullableObject(
                        if u == 0 {
                            None
                        } else {
                            Some(u)
                        },
                    ),
                },
                cursor_from(rest, fds),
            ),
        ),
{
    reveal(spec_read_arg);
    lemma_read_word(u, rest);
}

proof fn lemma_read_encoded_new_id(
    name: Seq<char>,
    version: u32,
    id: u32,
    rest: Seq<u8>,
    fds: Seq<i32>,
)
    requires
        words_ok(ArgValue::NewId(name, version, id)),
        fits_wire(ArgValue::NewId(name, version, id)),
        rest.len() % 4 == 0,
    ensures
        spec_read_arg(
            ArgKind::NewId,
            cursor_from(spec_encode_arg(ArgValue::NewId(name, version, id)) + rest, fds),
        ) == Some((ArgValue::NewId(name, version, id), cursor_from(rest, fds))),
        spec_encode_arg(ArgValue::NewId(name, version, id)).len() % 4 == 0,
{
    reveal(spec_read_arg);
    let tail = native_word_bytes(version) + native_word_bytes(id) + rest;
    assert(tail.len() % 4 == 0);
    lemma_read_string(Some(name), tail);
    assert(spec_encode_arg(ArgValue::NewId(name, version, id)) + rest =~= string_bytes(Some(name))
        + tail);
    assert(tail =~= native_word_bytes(version) + (native_word_bytes(id) + rest));
    lemma_read_word(version, native_word_bytes(id) + rest);
    lemma_read_word(id, rest);
}

/// One argument written to the wire reads back as itself.
proof fn lemma_read_encoded_arg(v: ArgValue, rest: Seq<u8>, fds: Seq<i32>)
    requires
        fits_wire(v),
        words_ok(v),
        rest.len() % 4 == 0,
    ensures
        spec_read_arg(kind_of(v), cursor_from(spec_encode_arg(v) + rest, fds)) == Some(
            (v, cursor_from(rest, fds)),
        ),
        spec_encode_arg(v).len() % 4 == 0,
{
    reveal(spec_read_arg);
    match v {
        ArgValue::Int(i) => {
            lemma_read_encoded_int(i, rest, fds);
        },
        ArgValue::Uint(u) => {
            lemma_read_encoded_uint(ArgKind::Uint, u, rest, fds);
        },
        ArgValue::Fixed(u) => {
            lemma_read_encoded_uint(ArgKind::Fixed, u, rest, fds);
        },
        ArgValue::Object(o) => {
            lemma_read_encoded_uint(ArgKind::Object, o, rest, fds);
        },
        ArgValue::NullableObject(o) => {
            let w = match o {
                None => 0u32,
                Some(x) => x,
            };
            lemma_read_encoded_uint(ArgKind::NullableObject, w, rest, fds);
        },
        ArgValue::NewId(name, version, id) => {
            lemma_read_encoded_new_id(name, version, id, rest, fds);
        },
        ArgValue::Str(s) => {
            lemma_read_string(Some(s), rest);
        },
        ArgValue::NullableStr(s) => {
            lemma_read_string(s, rest);
        },
        ArgValue::Array(a) => {
            lemma_read_array(a, rest);
        },
        ArgValue::Fd(_) => {},
    }
}

/// Each argument as the wire carries it, and read back off it.  A number is
/// one word (a signed one by its two's complement word); an object id is its
/// word, zero for no object; a string is its string bytes; a `new_id` is the
/// string of its interface name, then the word of its version, then the word
/// of its id; an array is its array bytes; a file descriptor adds no bytes
/// and travels as the last pending descriptor.  Reading the argument's kind
/// off a payload that starts with those bytes gives the argument back and
/// leaves the rest.
pub proof fn lemma_arguments_on_the_wire(v: ArgValue, rest: Seq<u8>, fds: Seq<i32>)
    requires
        v is Fd || fits_wire(v),
        words_ok(v),
        rest.len() % 4 == 0,
    ensures
        match v {
            ArgValue::Int(i) => spec_encode_arg(v) == native_word_bytes(i as u32) && spec_read_arg(
                ArgKind::Int,
                cursor_from(native_word_bytes(i as u32) + rest, fds),
            ) == Some((v, cursor_from(rest, fds))),
            ArgValue::Uint(u) => spec_encode_arg(v) == native_word_bytes(u) && spec_read_arg(
                ArgKind::Uint,
                cursor_from(native_word_bytes(u) + rest, fds),
            ) == Some((v, cursor_from(rest, fds))),
            ArgValue::Fixed(u) => spec_encode_arg(v) == native_word_bytes(u) && spec_read_arg(
                ArgKind::Fixed,
                cursor_from(native_word_bytes(u) + rest, fds),
            ) == Some((v, cursor_from(rest, fds))),
            ArgValue::Object(o) => spec_encode_arg(v) == native_word_bytes(o) && spec_read_arg(
                ArgKind::Object,
                cursor_from(native_word_bytes(o) + rest, fds),
            ) == Some((v, cursor_from(rest, fds))),
            ArgValue::NullableObject(o) => {
                let w: u32 = match o {
                    None => 0u32,
                    Some(x) => x,
                };
                spec_encode_arg(v) == native_word_bytes(w) && spec_read_arg(
                    ArgKind::NullableObject,
                    cursor_from(native_word_bytes(w) + rest, fds),
                ) == Some((v, cursor_from(rest, fds)))
            },
            ArgValue::NewId(name, version, id) => spec_encode_arg(v) == string_bytes(Some(name))
                + native_word_bytes(version) + native_word_bytes(id) && spec_read_arg(
                ArgKind::NewId,
                cursor_from(
                    string_bytes(Some(name)) + native_word_bytes(version) + native_word_bytes(id)
                        + rest,
                    fds,
                ),
            ) == Some((v, cursor_from(rest, fds))),
            ArgValue::Str(t) => spec_encode_arg(v) == string_bytes(Some(t)) && spec_read_arg(
                ArgKind::String,
                cursor_from(string_bytes(Some(t)) + rest, fds),
            ) == Some((v, cursor_from(rest, fds))),
            ArgValue::NullableStr(t) => spec_encode_arg(v) == string_bytes(t) && spec_read_arg(
                ArgKind::NullableString,
                cursor_from(string_bytes(t) + rest, fds),
            ) == Some((v, cursor_from(rest, fds))),
            ArgValue::Array(a) => spec_encode_arg(v) == array_bytes(a) && spec_read_arg(
                ArgKind::Array,
                cursor_from(array_bytes(a) + rest, fds),
            ) == Some((v, cursor_from(rest, fds))),
            ArgValue::Fd(fd) => spec_encode_arg(v) == Seq::<u8>::empty() && spec_read_arg(
                ArgKind::Fd,
                cursor_from(rest, fds.push(fd)),
            ) == Some((v, cursor_from(rest, fds))),
        },
{
    match v {
        ArgValue::Fd(fd) => {
            reveal(spec_read_arg);
            assert(fds.push(fd).drop_last() =~= fds);
        },
        _ => {
            lemma_read_encoded_arg(v, rest, fds);
        },
    }
}

/// Arguments written to the wire, one after the other, read back as
/// themselves with their own signature.
proof fn lemma_read_encoded_args(vals: Seq<ArgValue>, rest: Seq<u8>, fds: Seq<i32>)
    requires
        all_fit_wire(vals),
        all_words_ok(vals),
        rest.len() % 4 == 0,
    ensures
        spec_read_args(kinds_of(vals), cursor_from(spec_encode_args(vals) + rest, fds)) == Some(
            (vals, cursor_from(rest, fds)),
        ),
        spec_encode_args(vals).len() % 4 == 0,
    decreases vals.len(),
{
    if vals.len() == 0 {
        assert(kinds_of(vals) =~= Seq::<ArgKind>::empty());
        assert(spec_encode_args(vals) + rest =~= rest);
    } else {
        let v = vals[0];
        let tail = vals.drop_first();
        assert(fits_wire(vals[0]) && words_ok(vals[0]));
        assert forall|i: int| 0 <= i < tail.len() implies fits_wire(#[trigger] tail[i]) && words_ok(
            tail[i],
        ) by {
            assert(tail[i] == vals[i + 1]);
        }
        lemma_read_encoded_args(tail, rest, fds);
        let after = spec_encode_args(tail) + rest;
        lemma_read_encoded_arg(v, after, fds);
        assert(spec_encode_args(vals) + rest =~= spec_encode_arg(v) + after);
        assert(kinds_of(vals)[0] == kind_of(v));
        assert(kinds_of(vals).drop_first() =~= kinds_of(tail));
        assert(seq![v] + tail =~= vals);
    }
}

/// A message that carries `vals` and reads back to them.
pub open spec fn carries(m: Message, object: u32, opcode: u16, vals: Seq<ArgValue>) -> bool {
    &&& message_object(m) == object
    &&& message_opcode(m) == opcode
    &&& unread_payload(m) == spec_encode_args(vals)
    &&& (all_fit_wire(vals) ==> spec_read_args(kinds_of(vals), cursor_of(m)) == Some(
        (vals, Cursor { payload: Seq::<u8>::empty(), fds: pending_fds(m) }),
    ))
}

/// Builds the payload of `args`, in order.
pub fn encode_payload(args: &Vec<Arg>) -> (b: PayloadBuilder)
    requires
        has_no_fd(views(args@)),
    ensures
        built_payload(b) == spec_encode_args(views(args@)),
        built_fds(b) == Seq::<i32>::empty(),
        forall|fds: Seq<i32>|
            all_fit_wire(views(args@)) ==> spec_read_args(
                kinds_of(views(args@)),
                #[trigger] cursor_from(built_payload(b), fds),
            ) == Some((views(args@), Cursor { payload: Seq::<u8>::empty(), fds })),
{
    let b = new_builder();
    let r = write_args(b, args);
    proof {
        let vals = views(args@);
        assert(built_payload(r) =~= spec_encode_args(vals));
        assert forall|fds: Seq<i32>|
            all_fit_wire(vals) implies spec_read_args(
                kinds_of(vals),
                #[trigger] cursor_from(built_payload(r), fds),
            ) == Some((vals, Cursor { payload: Seq::<u8>::empty(), fds })) by {
            lemma_read_encoded_args(vals, Seq::<u8>::empty(), fds);
            assert(spec_encode_args(vals) + Seq::<u8>::empty() =~= spec_encode_args(vals));
        }
    }
    r
}

/// Builds a message from object `object` with opcode `opcode` that carries
/// `args`, and no file descriptor.
pub fn encode_message(object: u32, opcode: u16, args: &Vec<Arg>) -> (m: Message)
    requires
        object != 0,
        has_no_fd(views(args@)),
    ensures
        carries(m, object, opcode, views(args@)),
        pending_fds(m) == Seq::<i32>::empty(),
{
    let b = encode_payload(args);
    let m = finish(b, object, opcode);
    proof {
        assert(cursor_of(m) == cursor_from(built_payload(b), built_fds(b)));
    }
    m
}


/// A fixed-point number of the wire: a signed 24.8 value, by its raw word.
#[derive(Debug, Clone, Copy, PartialEq, Eq, Structural)]
pub struct Fixed {
    pub raw: u32,
}

/// A new object of an interface that the request names.
#[derive(Debug)]
pub struct NewId {
    pub interface: String,
    pub version: u32,
    pub id: u32,
}

pub open spec fn opt_text(s: Option<String>) -> Option<Seq<char>> {
    match s {
        None => None,
        Some(t) => Some(t@),
    }
}

/// Takes the first of the decoded arguments: a signed word.
pub fn take_int(args: &mut Vec<Arg>) -> (v: i32)
    requires
        old(args)@.len() > 0,
        views(old(args)@)[0] is Int,
    ensures
        ArgValue::Int(v) == views(old(args)@)[0],
        views(final(args)@) == views(old(args)@).drop_first(),
{
    let a = args.remove(0);
    proof {
        assert(views(args@) =~= views(old(args)@).drop_first());
    }
    match a {
        Arg::Int(v) => v,
        _ => {
            proof {
                assert(false);
            }
            vstd::pervasive::unreached()
        },
    }
}

/// Takes the first of the decoded arguments: an unsigned word (also an enumeration or a bit set).
pub fn take_uint(args: &mut Vec<Arg>) -> (v: u32)
    requires
        old(args)@.len() > 0,
        views(old(args)@)[0] is Uint,
    ensures
        ArgValue::Uint(v) == views(old(args)@)[0],
        views(final(args)@) == views(old(args)@).drop_first(),
{
    let a = args.remove(0);
    proof {
        assert(views(args@) =~= views(old(args)@).drop_first());
    }
    match a {
        Arg::Uint(v) => v,
        _ => {
            proof {
                assert(false);
            }
            vstd::pervasive::unreached()
        },
    }
}

/// Takes the first of the decoded arguments: a fixed-point number.
pub fn take_fixed(args: &mut Vec<Arg>) -> (v: Fixed)
    requires
        old(args)@.len() > 0,
        views(old(args)@)[0] is Fixed,
    ensures
        ArgValue::Fixed(v.raw) == views(old(args)@)[0],
        views(final(args)@) == views(old(args)@).drop_first(),
{
    let a = args.remove(0);
    proof {
        assert(views(args@) =~= views(old(args)@).drop_first());
    }
    match a {
        Arg::Fixed(v) => Fixed { raw: v },
        _ => {
            proof {
                assert(false);
            }
            vstd::pervasive::unreached()
        },
    }
}

/// Takes the first of the decoded arguments: an object id that is not null.
pub fn take_object(args: &mut Vec<Arg>) -> (v: u32)
    requires
        old(args)@.len() > 0,
        views(old(args)@)[0] is Object,
    ensures
        ArgValue::Object(v) == views(old(args)@)[0],
        views(final(args)@) == views(old(args)@).drop_first(),
{
    let a = args.remove(0);
    proof {
        assert(views(args@) =~= views(old(args)@).drop_first());
    }
    match a {
        Arg::Object(v) => v,
        _ => {
            proof {
                assert(false);
            }
            vstd::pervasive::unreached()
        },
    }
}

/// Takes the first of the decoded arguments: an object id that may be null.
pub fn take_nullable_object(args: &mut Vec<Arg>) -> (v: Option<u32>)
    requires
        old(args)@.len() > 0,
        views(old(args)@)[0] is NullableObject,
    ensures
        ArgValue::NullableObject(v) == views(old(args)@)[0],
        views(final(args)@) == views(old(args)@).drop_first(),
{
    let a = args.remove(0);
    proof {
        assert(views(args@) =~= views(old(args)@).drop_first());
    }
    match a {
        Arg::NullableObject(v) => v,
        _ => {
            proof {
                assert(false);
            }
            vstd::pervasive::unreached()
        },
    }
}

/// Takes the first of the decoded arguments: a new id with its interface named.
pub fn take_new_id(args: &mut Vec<Arg>) -> (v: NewId)
    requires
        old(args)@.len() > 0,
        views(old(args)@)[0] is NewId,
    ensures
        ArgValue::NewId(v.interface@, v.version, v.id) == views(old(args)@)[0],
        views(final(args)@) == views(old(args)@).drop_first(),
{
    let a = args.remove(0);
    proof {
        assert(views(args@) =~= views(old(args)@).drop_first());
    }
    match a {
        Arg::NewId(interface, version, id) => NewId { interface, version, id },
        _ => {
            proof {
                assert(false);
            }
            vstd::pervasive::unreached()
        },
    }
}

/// Takes the first of the decoded arguments: a string that is not null.
pub fn take_string(args: &mut Vec<Arg>) -> (v: String)
    requires
        old(args)@.len() > 0,
        views(old(args)@)[0] is Str,
    ensures
        ArgValue::Str(v@) == views(old(args)@)[0],
        views(final(args)@) == views(old(args)@).drop_first(),
{
    let a = args.remove(0);
    proof {
        assert(views(args@) =~= views(old(args)@).drop_first());
    }
    match a {
        Arg::Str(s) => s,
        _ => {
            proof {
                assert(false);
            }
            vstd::pervasive::unreached()
        },
    }
}

/// Takes the first of the decoded arguments: a string that may be null.
pub fn take_nullable_string(args: &mut Vec<Arg>) -> (v: Option<String>)
    requires
        old(args)@.len() > 0,
        views(old(args)@)[0] is NullableStr,
    ensures
        ArgValue::NullableStr(opt_text(v)) == views(old(args)@)[0],
        views(final(args)@) == views(old(args)@).drop_first(),
{
    let a = args.remove(0);
    proof {
        assert(views(args@) =~= views(old(args)@).drop_first());
    }
    match a {
        Arg::NullableStr(s) => s,
        _ => {
            proof {
                assert(false);
            }
            vstd::pervasive::unreached()
        },
    }
}

/// Takes the first of the decoded arguments: an array of bytes.
pub fn take_array(args: &mut Vec<Arg>) -> (v: Vec<u8>)
    requires
        old(args)@.len() > 0,
        views(old(args)@)[0] is Array,
    ensures
        ArgValue::Array(v@) == views(old(args)@)[0],
        views(final(args)@) == views(old(args)@).drop_first(),
{
    let a = args.remove(0);
    proof {
        assert(views(args@) =~= views(old(args)@).drop_first());
    }
    match a {
        Arg::Array(a) => a,
        _ => {
            proof {
                assert(false);
            }
            vstd::pervasive::unreached()
        },
    }
}

/// Takes the first of the decoded arguments: a file descriptor, by its number.
pub fn take_fd(args: &mut Vec<Arg>) -> (v: i32)
    requires
        old(args)@.len() > 0,
        views(old(args)@)[0] is Fd,
    ensures
        ArgValue::Fd(v) == views(old(args)@)[0],
        views(final(args)@) == views(old(args)@).drop_first(),
{
    let a = args.remove(0);
    proof {
        assert(views(args@) =~= views(old(args)@).drop_first());
    }
    match a {
        Arg::Fd(fd) => fd,
        _ => {
            proof {
                assert(false);
            }
            vstd::pervasive::unreached()
        },
    }
}

} // verus!
