# supportchain

Automated enforcement of a court-ordered monthly child support payment, as a
Soroban contract on Stellar, with its rules verified in Verus.

- `src/` is the verified library. `model.rs` states the contract as a state
  machine over abstract values (what each entry point does and when it
  refuses); `contract.rs` holds the contract's storage and entry points, each
  proved to follow the model and keep the invariant `contract_wf`;
  `history.rs` computes counts, totals and the compliance score;
  `laws.rs` proves properties across calls (initialised once, one payment per
  month taken no earlier than the order's due day, refusals change nothing,
  history is append-only, a default alerts the court, the total paid under
  one order is its amount times the successful payments and equals what was
  transferred, the score never falls on a payment nor rises on a default, a
  deactivated order is never paid, score bounds).
- `app/` is the Soroban contract: it reads instance storage, the ledger time,
  authorisations and token balances, calls the library, and performs its
  decisions (storage writes, token transfers, the court's default event,
  panics that revert a call).
- `tests/` run the library on the contract's scenarios.
