# foxhole

A small synchronous HTTP framework whose request handling is verified with Verus.

- `src/` is the verified library: parsing of HTTP/1 request heads, the router, the
  resolution of system parameters, systems and their dispatch, responses and their wire
  form, layers, url query decoding, and websocket framing, handshake and upgrade. Calls into the
  `http`, `sha1`, `base64` and `chrono` crates stand behind small trusted wrappers whose
  contracts say what those crates do.
- `app/` holds what runs around it: the event loop and thread pool, connections, TLS, the
  type cache, and the reading and writing of websocket frames over an upgraded stream.
- `tests/` exercises the library on concrete values.
