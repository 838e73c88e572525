# ppaass_proxy

The decision logic of a ppaass proxy, verified with Verus.

- `src/` is the library. Every flow that waits on the network is a state
  machine: `exec` takes the current state and what the caller observed, and
  returns the next state and the action to perform. Each step is specified
  by a spec relation (`init_step`, `tcp_connect_step`, `proxy_to_target_step`,
  `target_to_proxy_step`, `udp_agent_relay_step`, `udp_response_writer_step`,
  `tunnel_step`, `server_step`), and the properties of the machines are
  proved as `lemma_*` proof functions next to them.
  - `message`: addresses and payloads of the agent's messages.
  - `domain`, `chunk`: name normalisation, IPv4 filtering, cutting data into
    payload-sized chunks.
  - `init`, `tcp_connect`, `tcp_relay`, `udp_relay`: the flows of one agent
    connection.
  - `tunnel`, `dispatcher`, `connection`: tunnel and channel states and the
    message dispatcher.
  - `server`: the server's command loop.
  - `key_cache`: each user's key material, found by user token.
- `app/` performs the actions: sockets, name lookups, JSON, timers, threads
  and the key directory.
- `tests/` runs the library on concrete values.
