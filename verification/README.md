# star-escrow

StarEscrow is a pair of Soroban contracts (an escrow between a payer and a
freelancer, and a governance contract that votes on the escrow's parameters)
and a command-line client.

- `src/` is the verified library:
  - `escrow` — the escrow state machine (`create`, `submit_work`, `approve`,
    `cancel`, `expire`), returning for each accepted call the authorization,
    token payment and event the ledger must carry out; `escrow::storage` holds
    the record, `escrow::events` the events. Laws on funds conservation, the
    lifecycle and authorization are proved next to the operations.
  - `governance` — the proposal rules (`new_proposal`, `check_vote`, `tally`,
    `finalize_proposal`, `execute_proposal`), each contract call on the
    records it reads (`initialize`, `propose_call`, `vote_gate` with
    `record_vote`, `finalize_call`, `execute_call`), which the ledger glue
    runs, and the contract over its whole storage, whose steps are defined by
    the same calls;
    `governance::laws` proves the properties that span calls (one vote per
    voter, sequential ids, finalisation and timelocked, one-time execution).
  - `xdr` — base64 helpers for XDR payloads, on the `base64` crate.
  - `cli` — the argument list for the Stellar CLI, and the listing of a
    payer's escrows from the JSON event list it prints (parsed with
    `serde_json`).
- `app/` holds the ledger glue (the `#[contract]` types, storage, token
  transfers, events, cross-contract calls) and the `star-escrow` binary.
- `tests/` runs the library on concrete values.
