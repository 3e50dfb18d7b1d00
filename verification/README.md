# eoip_rs

Userspace EoIP/EoIPv6 tunneling compatible with MikroTik RouterOS. The core of
the daemon is a Verus library: what it does is stated in `requires` and
`ensures` clauses and proved. The sockets, threads and servers around it are
ordinary Rust.

## Layout

- `src/` is the verified library.
  - `addr`: IP addresses as numbers, and the key that packets are demultiplexed by.
  - `text`: decimal numbers, trimming, comparing texts.
  - `config`: the daemon's configuration, its defaults and its validation.
  - `tunnel`: the lifecycle of a tunnel, its counters, its handle, the registry
    of tunnels and the manager that creates and destroys them.
  - `packet`: packet buffers and their pool, the receive path, the send path with
    its adaptive batches, and the walk over a block of the receive ring.
  - `net`: overlay MTU, path MTU discovery, and choosing a TAP-Windows adapter.
  - `keepalive`: when a tunnel goes stale and when it recovers.
  - `startup`: decisions of the daemon's startup.
  - `api`: what the management API answers.
  - `ipsec`: the strongSwan messages that encrypt a tunnel, and what the replies say.
- `tests/` runs the library.
- `app/` is the daemon: `main`, files, sockets, threads, the gRPC server, and the
  encoding of the tunnel headers by the workspace's protocol crates.

## What is believed without proof

Calls into `crossbeam`, `dashmap`, `rustici` and one function of the standard
library stand behind small functions marked `#[verifier::external_body]`. The doc
comment above each says which function it calls and what is claimed of it.

Each law of the library is a public proof function whose name starts with `law_`.

Values that threads share are borrowed exclusively by the library's functions;
the daemon keeps them behind locks.
