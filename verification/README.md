# arkiv_sdk

A Rust SDK core for the Arkiv storage network, verified with Verus.

- `src/` is the verified library: content types and MIME validation, blocks-to-live,
  nonce management, RLP encoding of storage operations and payloads, storage
  transaction requests, decoding of the storage contract's event logs into events
  and receipts, the options and startup decisions of a local `geth` node and the
  choice and checksum verification of its release assets, ETH and wei
  conversions, and the fixed fees and retry decisions of funding transfers on a
  development node. Each public function states its result in its `ensures`; the laws
  that span functions are public proof functions (`law_*`).
- `tests/` holds the tests, run against the compiled library.
- `app/` holds what cannot be verified: process spawning, downloads and archives,
  serde and error-message forms of the library's types, and conversions from the
  types of `alloy` and `bigdecimal`.
