# verdi

The protocol core of Verdi, a Wayland compositor, written in Verus: the
decoding of client requests, the encoding of server events, the registry of
globals, and the state the compositor keeps for its objects, each with a
contract that Verus proves.

## Layout

- `src/wire.rs` — the boundary with `waynest`'s wire types. Its trusted items
  read arguments off a `Message` and write them into a `PayloadBuilder`; their
  contracts describe a message as its unread payload bytes and pending file
  descriptors.
- `src/codec.rs` — arguments of requests and events by kind, reading a
  signature off a message, writing arguments into a payload, and the proof
  that an encoded message reads back to the values it was built from.
- `src/protocol/interfaces/` — one module per interface of the core Wayland,
  xdg-shell, linux-dmabuf, presentation-time, tablet and viewporter protocols:
  its enumerations and bit sets with their wire words, its `Request` type and
  `handle_request`, and one function per event.
- `src/protocol/wayland/`, `src/protocol/xdg/` — the objects the compositor
  implements: the display's `sync` and registry, binding of globals, the
  formats of `wl_shm`, surface roles, buffer geometry and toplevel metadata.
- `src/winit_backend.rs` — the decisions of the nested backend and the test
  pattern it paints.
- `app/` — the code around the library that Verus does not see: the
  connection's dispatchers, shared-memory mapping, the wgpu renderer and the
  winit window.
- `tests/` — tests of the library on concrete messages.
