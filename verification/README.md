# agp_dataplane

Verified core of the AGP data plane, written in Verus.

`src/` is the library; every function in it is verified against its
contract, except the small trusted wrappers that call `bit_vec`,
`jsonwebtoken_aws_lc`, `url`, `serde_json` and `rand`, whose contracts are
stated in their doc comments.

- `pool`: a slot table that stores each element at the lowest free slot,
  doubles when full, and records the highest occupied slot; `bitvec` is the
  trusted interface to the bitmap of occupied slots.
- `workload`: the parser of workload lines (`SUB` and `PUB` messages), with
  its own whitespace splitting and decimal number reading.
- `auth`: the type-state JWT builder (`builder`, `state`), the signature
  algorithms (`algorithm`), the trusted interface to `jsonwebtoken_aws_lc`
  (`jwt_keys`), the key resolver's choice and decoding of a key, its JWKS
  locations and the reading of discovery documents (`resolver`), and the
  cache of fetched key sets with its freshness rule (`cache`).
- `session`: the session table of a connection and the routing decision for
  each message.
- `mcp`: the reply decision of the tool server.
- `datapath_error`, `text`: error texts and decimal formatting.

`app/` holds what performs network work: the `KeyResolver`, which fetches
key sets over HTTP, reads the clock for the library's cache and hands the
bodies to the library, and the error types with their `Display`
implementations.
