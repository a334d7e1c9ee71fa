# mcp-proxy

A proxy between an MCP client on stdio and an MCP server that speaks Streamable
HTTP. It relays messages in both directions, holds requests back while the server
is away, reopens the session behind the client's back when the server returns,
and answers for the server when it does not.

## Layout

* `src/` is the verified library: everything that decides.
  * `message`, `transport`, `step` hold the messages, the failures to send, and
    what can happen to the proxy and what it can ask to be done.
  * `state` is the state of the proxy, `session` what becomes of messages, and
    `proxy` the state machine: `AppState::step` takes an event and the time, and
    returns what is to be done.
  * `http_client` reads HTTP responses, `startup` decides what comes before the
    proxy is up, `clock` reads the time.
  * `run`, `accounting` and `laws` hold no code that runs. They state and prove
    what holds of every run: the invariant, that no request is lost, that ids
    travel untouched, that a reconnect whose handshake succeeds is hidden from the
    client, that reconnecting goes on while there is time and ends when there is
    none, and more.
* `app/` is the program around it: arguments, stdio, HTTP, timers.
* `tests/` runs the library: whole conversations, and single decisions.

Contracts are written as predicates over the state before, the event, the time,
the state after and the step (`transition` and what it is made of), so that the
laws speak of the same predicates as the functions.

What the library takes on trust from `rmcp`, `serde_json`, `http` and std is
declared in `message`, `http_client` and `clock`, each item with a comment that
says what is believed.
