# xmrt-mesh

A mesh node for an agent fleet: nodes find each other, announce their
capabilities over gossip, dispatch tasks to one another over request-response,
answer health pings, and report task results to a relay daemon.

The library (`src/`) holds the node's logic, verified with Verus:

- `config`: defaults, and command-line flags laid over the configuration file.
- `identity`: the node key as a key file holds it (hex of the protobuf
  encoding), and the peer id derived from it.
- `protocol`: the messages and their display text.
- `relay`: the relay's URLs and the report of a finished task.
- `mesh`: the node as a state machine from events to actions (task dispatch,
  shell tasks, pings, announcements, relay reports), with its laws.
- `text`: decimal rendering and Unicode white-space trimming.

`app/` is the program around it: command line, files, the libp2p swarm, the
shell, the HTTP client, and the serde forms of the messages.
