# herdr-fleet

The verified core of a terminal fleet client and of the framed sessions that
serve it.

- `src/client_state/`: what the client knows of each remote, the view composed
  from it, and the decisions of the run loop (`run/`).
- `src/protocol/`: frames, negotiation, requests, history paging.
- `src/api/`: the event hub, the session API, and the server side of framed
  sessions (`server/`).
- `src/client/`, `src/cli/`: attaching to a pane, the host terminal, and the
  `remote` command.
- `src/fleet/`, `src/json.rs`, `src/json_room.rs`, `src/text.rs`, `src/seqs.rs`,
  `src/sorted_map.rs`: the fleet's config and what everything rests on.

Each function states in its contract what it returns or changes; the public
proof functions state what holds across functions.

`app/` is ordinary Rust around the library: sockets, threads, processes, the
host terminal and the serde types. Times in the library are milliseconds that
the caller passes in.
