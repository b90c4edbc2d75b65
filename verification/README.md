# katherine_fundraising

A fundraising engine on top of a liquid-staking token. A project (a
"kickstarter") asks its supporters to lock stNEAR for a while; if one of its
goals is met, the supporters receive the project's tokens, released linearly
over time, and the project keeps the staking rewards that the locked stNEAR
earned. If no goal is met, the supporters take their stNEAR back.

The library in `src/` is verified with Verus. Every public operation states,
over a mathematical view of the contract's state, what it returns and how the
state changes, and that a refused call changes nothing. Operations that need
another contract (a token transfer, a query of the stNEAR price) return the
call to make; the callback that reports its outcome is an operation of its own.

- `contract.rs`, `kickstarter.rs`, `goal.rs`, `supporter.rs`: the state and its
  invariants.
- `admin.rs`, `deposit.rs`, `process.rs`, `withdraw.rs`, `claim.rs`,
  `interest.rs`, `balances.rs`: the operations.
- `views.rs`: read-only queries.
- `utils.rs`, `collections.rs`: exact arithmetic (a 256-bit-free
  `amount * numerator / denominator`), linear release, account-id checks, and
  the two in-memory collections.
- `laws.rs`: properties across operations, such as what a failed transfer's
  callback restores.

`app/` is the NEAR contract around the library: storage, the runtime's
values, the cross-contract calls and their callbacks. The state it reads back
from storage is checked to be well formed before any operation uses it.
