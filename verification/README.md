# NodeSea

NodeSea is a local BitTorrent DHT node: a daemon that serves a
Unix-domain socket, and a command-line client that connects to it. The
BitTorrent engine's native session is driven through a C++ bridge that this
crate does not link; the engine's lifecycle rules, events, settings and wire
payloads are part of the library, and the daemon here runs its transport
without an engine beside it.

The library under `src/` holds the project's rules, each with a contract
proved by Verus:

- `dht` — node identifiers and the XOR metric, prefix-range buckets, and the
  routing table (insertion with bucket splitting, closest-node queries).
- `bt` — BitTorrent identities and their hexadecimal forms, torrent
  identities and their wire form, typed settings packs, engine events, the
  wire payloads exchanged with the native engine, and the engine lifecycle
  (how command requests, the runner and the command worker advance).
- `daemon` — socket locations per platform and user, the binding and
  cleanup procedure of the Unix socket, how the daemon's run ends, and the
  status reported to clients.
- `cli` — command-line arguments, locale catalog selection, and status
  presentation.
- `proto` — the status values carried by the daemon API.

`app/` holds the entry points and the operating-system work: argument
parsing, reading the environment and the passwd database, filesystem and
socket operations, and logging. Each of them hands what it read to the
library and performs what the library decides.
