# uni_stream

TCP and UDP streams behind one interface, so that a service (a proxy, say) can
speak both with one implementation, with DNS servers of its own choice.

`src/` holds the decisions, verified with Verus:

| module | what it decides |
| --- | --- |
| `net`, `host_port`, `addr` | what an address, a list, a text or a host resolves to, and in which order addresses are tried |
| `dns` | which servers are asked |
| `timeout`, `idle` | how long a UDP stream may stay idle, and what starts its timer anew |
| `datagram`, `read`, `delivery` | how datagrams are handed to a reader, and that no byte is lost, repeated or moved |
| `peers`, `listener` | which stream of a listener a datagram belongs to |
| `udp`, `stream` | what a stream, its halves and the providers are made of |
| `error` | the errors raised |

`app/` runs them on tokio: sockets, channels, timers, tasks and the resolver.

UDP keeps packet boundaries where the reader asks for whole datagrams
(`recv_datagram`); read as a byte stream, a datagram may be cut to the reader's
buffer, but two are never merged.

Built with `RUSTFLAGS="--cfg uni_stream_no_udp_timeout"`, UDP streams have no idle
timeout.
