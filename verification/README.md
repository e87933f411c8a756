# token_gate

Pay-per-use API access paid in GATE tokens: users buy GATE with XLM
(1 GATE per 1_000_000 stroops), approve the contract to burn tokens, and
each API call burns the endpoint's price and credits its XLM value to the
developer, who withdraws it later.

- `src/rules.rs` — the pricing and accounting rules on plain values.
- `src/steps.rs` — one decision per operation, from the stored values read
  to the values to write back; `TokenGate` and the contract both run them.
- `src/state.rs` — the abstract state and what each operation does to it.
- `src/gate.rs` — `TokenGate`, the verified records and operations.
- `src/prices.rs`, `src/sums.rs` — the price list and finite-map sums.
- `src/laws.rs` — properties that hold across operations.
- `app/lib.rs` — the Soroban contract: authorization, storage, address
  comparison and XLM transfers on the host. Each operation reads its stored
  values, calls the verified step function, and writes back its result; the
  order of reads, writes and the XLM transfer there is not verified.
