# http_client

An HTTP client whose decisions are verified with Verus.

The library in `src/` decides; it never waits. It refuses or accepts a request,
finds its destination, takes part in the race between the pool and the connector,
settles the protocol of a new connection, brings the request into the form that the
connection takes, says what becomes of the response and of the connection, and sends
a request again that a reused connection failed before it was written.
URIs are read and put together by the `http` crate, header fields are kept in its
header map, and connections tell their state through `hyper`.

- `uri`, `text`: URIs and their components
- `forms`: the forms of a URI, and the destination that it names
- `headers`, `request`: requests
- `error`: client errors
- `config`, `builder`: settings
- `pool`: connections, and how they are handed out and given back
- `connect`, `race`: the way to a connection
- `client`: the client
- `send`: whether a request goes to another connection

The crate in `app/` runs these decisions: it awaits sockets, handshakes and
responses with `hyper`, and implements `tower_service::Service`. Connectors, pools
and executors are its parameters.
