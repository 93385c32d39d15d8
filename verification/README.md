# dsbox

A simulator for distributed systems. Node processes exchange messages through a
simulation core, which holds every message in a network until it is delivered, keeps
the registry of nodes and their aliases, runs timers, enforces the capabilities of the
nodes and publishes what happens to subscribers.

## Layout

- `src/` is the library, verified with Verus. `sim_core.rs` is the core: a state
  machine that a driver feeds with the events of the node processes, the expired
  timers and remote commands; the core puts the commands for the processes into an
  outbox and the lines for the log into a log. Its building blocks are the network
  (`network.rs`), the node registry (`node_manager.rs`), the timers
  (`timer_manager.rs`), timestamps, capabilities, messages and events, and the
  error descriptions. `session.rs` configures a session, `remote.rs` holds the
  decisions of the remote control, `util.rs` and `interpreters.rs` choose runners and
  interpreters.
- `app/` is the command line program: it starts native node processes with tokio,
  speaks JSON lines with them and runs the core's loop.
- `tests/` holds the tests of the library.

Run a simulation with

```shell
dsbox cli --test-command ./test.py --server-command ./server.py
```
