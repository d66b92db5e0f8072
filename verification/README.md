# acala_service

The decision logic of the Acala node service, verified with Verus.

- `src/variant.rs` tells which network (Acala, Karura, Mandala, development)
  a chain specification identifier names.
- `src/service.rs` plans how a node is assembled: import queue, relay-chain
  interface, collator or full node, development-node authoring, and the
  runtime used for chain operations.
- `src/weight.rs` and `src/dex_weights.rs` give the saturating weight
  arithmetic and the benchmarked weights of the DEX extrinsics.
- `src/sovereign.rs` builds the sovereign accounts of parachains.
- `src/executor.rs` names the native execution dispatchers.
- `app/lib.rs` assembles the node from the Substrate and Cumulus services,
  following the plans of the library.
