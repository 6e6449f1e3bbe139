# paymandate_mandate

Verified core of the PayMandate payment-mandate contract for Soroban.

- `src/` (Verus): the contract's decisions on plain values.
  - `types.rs`: errors and their codes, mandate status, the mandate, events, ledger readings.
  - `ttl.rs`: storage lifetimes in ledgers.
  - `period.rs`: period slots and period indices.
  - `contract.rs`: `MandateContract::create`, `fund`, `charge`, `revoke`,
    `reduced_allowance`, `get_mandate` and the authorizers, each with its exact contract.
  - `laws.rs`: the mandate invariant and the properties that hold across calls.
- `app/`: the Soroban contract. It does authorization, storage, token calls and events, and
  asks the library for every decision.
- `tests/`: `decisions.rs` on plain values; `contract_flow.rs` runs the contract's scenarios
  against a real Stellar asset contract in a test ledger.
