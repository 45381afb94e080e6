# meshguard

Client-side logic for the MeshGuard governance gateway, verified with Verus.

- `src/` is the verified library. It decides every request that the client
  sends to the gateway (URL, query parameters, headers) and how every answer
  is read (policy decisions, errors), and it formats error messages.
  `src/laws.rs` states properties of the library as a whole; `src/outside.rs`
  holds the outside types and calls that the library relies on.
- `app/` is the transport: the JSON forms of the library's types (serde),
  and the async calls that send the described requests with `reqwest` and
  hand the answers back to the library.
- `tests/` exercises the library on concrete values.
