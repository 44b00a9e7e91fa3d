# FreshBlu

A Meshblu-compatible IoT messaging platform: every device, service or user
is a device with a UUID and a token; devices message each other, subscribe
to each other's events and guard themselves with per-operation whitelists.

The library under `src/` is written in Verus, and each public function
carries a contract that Verus proves:

- `permissions`, `access`: whitelists and the access decisions of the API
  (reading, changing, acting as, messaging, subscribing), with their laws.
- `delivery`, `routing`, `message`, `subjects`: who receives a message, how
  events travel between pods and the router, and the bus subjects.
- `socket`: the WebSocket session protocol as a state machine.
- `codec`, `auth`, `token`, `uuid_text`: base64, Basic credentials, tokens
  and their expiry, UUID text.
- `rate_limit`, `url_guard`, `forwarder`, `config`, `client`, `props`,
  `device`, `subscription`, `error`: the remaining rules of the server and
  the client.

Calls into outside crates (uuid, base64, bcrypt, sha2, rand, url, chrono,
dashmap, serde_json) go through small trusted wrappers whose contracts are
stated in their doc comments.

`app/` holds the program around the library: the command-line client, the
HTTP/WebSocket/MQTT server (against a storage interface that a backend
implements), the router process, and the JSON forms of the library's types.
