# bitfab

The verified core of a small peer-to-peer gossip node with an HTTP front end.

- `src/` is the library, verified with Verus: gossip message kinds and their
  names (`p2p::message`), the HTTP and gossip route tables (`router`,
  `p2p::router`, `routes`, `p2p_routes`), a node's peer list and the
  decisions its message handlers take (`p2p::server`, `p2p::utils`), plain
  network addresses (`address`), text helpers (`text`), the HTTP server's
  request keys (`http_core`) and the command line (`cli`).
- `app/` is the program around it: command-line parsing with clap, the HTTP
  server on hyper, TCP networking on tokio and the JSON wire form of
  messages with serde.
- `tests/` exercises the library on concrete values.

A message may carry information on its sender: its address and the port it
listens on. A node learns the listening ports of its peers from it.
