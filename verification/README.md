# sol_parser_sdk

Decoders that turn Pump.fun / PumpSwap account data and `Program data:` log
lines into typed `DexEvent`s, written in Verus. Every decoder states, over
the raw bytes, exactly when it succeeds and which field comes from which
offset, and Verus proves the code against that statement.

Layout:

- `src/layout.rs`, `src/pubkey.rs`: little-endian field readers and the byte
  models they are specified against.
- `src/events.rs`, `src/filter.rs`: the event types and the event-kind filter.
- `src/accounts/`: account decoders (PumpSwap global config and pool, Pump.fun
  and Pump fees accounts, durable nonce accounts) and the owner-based router
  `parse_account_unified`.
- `src/logs/`: base64 payload extraction and the Pump.fun event decoders,
  dispatched by `parse_log`.
- `src/agreement.rs`: when two decoder results carry the same event, and
  lemmas that each decoder's description fixes its event.
- `src/laws.rs`: properties that span several decoders (filters only drop
  events and never change one, selectors and log-line decoders agree with the
  body decoders, round trips of encoded events, padding invariance).
- `app/`: conversions to and from the Solana SDK types and parse-time
  counters.

Calls into `memchr`, `base64-simd`, `bs58`, `spl-token` and `spl-token-2022` sit behind small
wrappers in `src/` whose contracts state what those crates return.
