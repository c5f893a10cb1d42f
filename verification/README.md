# lighthouse_nym

The decisions of a beacon node that gossips over the Nym mixnet, verified with Verus.

- `src/` is the library. Lookups, the peer manager and the network service are written as steps: a
  step says what it needs to know or what is to be done, and takes the answer to the next step. Each
  function states in its contract exactly what it decides, and the laws that hold across functions
  are public proof functions next to them.
- `app/` runs the steps: it answers lookups from the beacon chain, takes blocks apart for deep
  storage, drives the libp2p swarm and starts the nym client.
- `tests/` runs the library on concrete values.

Each beacon node must be connected to a nym client of its own. `nym_client` picks a free port for a
client and derives its name, its commands and its websocket address from the port, so that clients
on different ports are reached at different addresses.

One call is trusted: `gen_range` in `src/nym_client.rs`, which draws a port with the `rand` crate.
