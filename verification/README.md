# libp2p

The core of a peer-to-peer networking stack, written and verified in Verus.

Everything that waits for the network is a state machine: a function takes what has just happened
(a frame was read, so many bytes were written, a future is not ready) and says what is to be done
next. Its contract states the step exactly. What reads, writes, polls and keeps time is outside.

- `src/`: the verified library.
  - `multistream_select`: agreeing on a protocol, from both sides.
  - `noise`: encrypted connections, their handshake and their framing.
  - `request_response`: requests and responses with limits per peer.
  - `nodes`: listening on many addresses, and reports of what happens.
  - `datastore`: queries on entries.
  - `transport`, `either`, `builder`, `common_transport`, `timeout`, `relay`: transports and how
    they are combined.
  - `upgrade`, `yamux_muxer`, `secio`, `muxing`: upgrades, multiplexing, buffering.
  - `address`, `varint`, `async_value`, `protocol_name`, `swarm`, `io_error`: what the others share.
- `tests/`: tests of the library.
- `app/`: ordinary Rust that runs the library on futures, sockets and timers.

Laws, which relate several functions or hold of every state, are public proof functions whose names
start with `law_`. The functions of other crates that the library calls stand behind small wrappers;
the doc comment of each says what is claimed of the function that it calls.
