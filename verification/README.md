# udp_relay

A relay that makes a UDP service behind a NAT reachable from the internet.
A public **server** listens for users on a UDP socket; a **client** next to
the hidden service keeps a TCP control connection to the server. For each new
user the server sends an open-channel command; the client opens a TCP data
channel and a UDP socket towards the service, and datagrams then travel in
both directions as length-prefixed packages.

## Layout

- `src/` — the verified library (Verus):
  - `frame.rs` — the wire format: big-endian `i32` size headers, packages
    (address frame, payload frame), the heartbeat; laws on reading a header
    back.
  - `reader.rs` — what to do after each exact read of a frame (data packages
    and control commands), and the laws that what is written is read back
    and that packages are unambiguous.
  - `table.rs` — an address-keyed map kept as a list with distinct keys.
  - `relay.rs` — the server's event-loop state: control connection, users,
    data channels, timers; routing of user datagrams; laws on it.
  - `control.rs` — the key check and the heartbeat verdict of the control
    connection.
  - `channel.rs` — the frame sequence on a data channel, on both sides.
  - `client.rs` — the client's reconnection count and its handling of a new
    user's first datagram.
  - `echo.rs` — the answer of the test echo service and the text the test
    client prints.
  - `clock.rs` — the local time of log lines (trusted calls into chrono).
  - `text.rs` — lossy UTF-8 decoding (trusted call into std).
- `app/` — the programs (`server`, `client`, `udp-client`, `udp-server`
  subcommands): argument parsing, sockets, tasks, timers, logging.
- `tests/` — tests of the library on concrete values.
