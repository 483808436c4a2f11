# recurring_escrow

A recurring payment escrow for Soroban. The owner deploys the escrow with a
payee, a fixed `amount_per_period`, a `period_ledgers` schedule and a token,
then funds it by transferring the token to the contract. The payee pulls
`amount_per_period` at most once per period while the balance covers it; the
owner may cancel at any time, which refunds the remaining balance and disables
further pulls for good.

Layout:

- `src/rules.rs` — the decisions on plain values (construction terms, the pull
  window, the funds check, the refund, the state transitions) with exact
  contracts, and the spec functions they are stated with.
- `src/contract.rs` — the operations (`__constructor`, `pull`, `cancel`) as
  steps from what the host reported (whether the escrow is initialized, the
  stored records, the ledger sequence, the token balance) to the effects the
  host must carry out (records to store, payments, events), each proved equal
  to its spec function; and who must authorize each operation.
- `src/laws.rs` — proved properties across operations: construction is set
  once, cancellation is final and refunds the whole balance, pulls pay exactly
  the amount and are a full period apart, the first pull waits a period, pulls
  never overdraw the escrow.
- `src/host.rs` — Soroban's `Address`, which the records carry.
- `app/lib.rs` — the Soroban contract: instance storage, authorization, the
  token contract and events, around the library's steps.
