# hub

Expose your TCP service behind NAT to a remote host.

A hub runs on the remote host, a spoke runs next to the service. The spoke keeps a control channel
to the hub; for each client of the hub it opens a data channel, through which the client is proxied.

- `src/` holds the protocol, verified with Verus: the one-byte codec (`handshake`), the messages of a
  channel (`channel`), the challenge and its answer (`auth`), the two sides as state machines (`hub`,
  `spoke`), what holds of them whatever happens (`laws`), and what comes of the two together
  (`session`).
- `app/` holds the program: sockets, timers, tasks, logging and the command line.
- `tests/` runs the library.

Both sides take a key, which has to be the same. A hub with a key challenges its spokes, and lets in
only those that answer with the HMAC-SHA256 code of the challenge under that key; the key itself is
never sent. A spoke with a key expects to be challenged.
