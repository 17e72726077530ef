# rustplus

A client for the Rust+ companion protocol, split in two:

- `src/` is the verified library. It holds the requests a client sends and
  their cost against the server's rate limits (`client`), the dual token
  bucket that paces them (`ratelimit`), the bookkeeping that matches
  responses to waiting requests (`tracker`), the connection address and
  handshake headers (`target`), the proxy-version cache (`proxy`), the map
  and camera monitors (`monitors`) with their events (`events`), and a
  monotonic clock (`clock`).
- `app/` is the asynchronous shell around it: the WebSocket connection,
  protobuf encoding and decoding, the HTTP fetch of the proxy version, and
  the loop that polls map markers and feeds the monitors.
