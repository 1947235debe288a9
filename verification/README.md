# dgram

UDP datagram sockets for a JavaScript runtime, named by integer handles: `createSocket`, `bind`,
`send`, `sendBuffer`, `recv`, `close`, `address`, `setBroadcast`, `addMembership` and
`dropMembership`.

- `src/` is the library, verified with Verus. It holds the table of open sockets and decides what
  every operation does: which requests are refused and with what message, which endpoint a socket is
  bound to, what is sent where, and what a caller is handed. `src/laws.rs` states what holds of all
  operations together.
- `app/` is ordinary Rust around it: the exported `js_dgram_*` symbols, the conversion of raw
  pointers and floating-point arguments, the promises, and the calls into the network.
- `tests/` exercises the library.

An operation that needs the system comes in two halves. The first looks at the registry and either
answers, refuses, or returns a request (`SendRequest`, `RecvRequest`, ...). The caller performs the
request and passes the outcome to the matching `finish_` function.

A send on a handle that is not open is rejected with `invalid socket handle`, and one on a socket
that is open but not bound with `socket not bound`. Of two binds of one socket that overlap, the one
that ends second is rejected with `socket already bound`. A `recv` that is still waiting when its socket is
closed is rejected with `socket closed`.
