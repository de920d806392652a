# hydrabadger

The messages of a node in a Honey Badger BFT network, as a Verus library.

- `src/uid.rs`, `src/addr.rs`: identifiers and addresses of nodes.
- `src/wire.rs`: messages that nodes send each other.
- `src/internal.rs`: messages between the tasks inside a node.
- `src/framing.rs`: how payloads are laid out on a stream of bytes, and what
  follows from it: what is sent is received, whole and in order, in whatever
  pieces it arrives.
- `src/stream.rs`: sending and receiving wire messages. Each function decides
  what follows an event; the socket and the serializer are the caller's.
- `src/outside.rs`: types of other crates that are carried along unopened.

`app/` connects the library to `tokio` sockets and `bincode`. It is ordinary
Rust and is not verified.
