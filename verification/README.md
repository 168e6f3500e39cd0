# pension_chain

The rules of an on-chain pension fund, verified with Verus: fund and pool creation,
affiliate registration with beneficiaries, periodic contributions with missed-period
penalties, keeper yield harvests net of a protocol fee, retirement / emergency / early
withdrawal requests, their execution (principal first, yearly retirement counter), death
marking and inheritance payouts.

Layout:

- `src/state/` — the account types (`FundConfig`, `InvestmentPool`, `AffiliateAccount`,
  `ContributionRecord`, `WithdrawalRequest`) and their helpers (`age_at`,
  `contribution_years`, `beneficiaries_valid`, `default_allocation`, `allocation_valid`).
- `src/instructions/` — one module per instruction. Each holds the accounts the instruction
  reads and writes (a plain struct), spec functions stating exactly when it is refused
  (`*_error`, in check order) and what it writes when it is not (`*_applied`), and the
  verified `handler`. Handlers take the current time as an argument and return the token
  transfer they require, if any; a refused instruction leaves every account unchanged.
- `src/laws.rs` — properties that span instructions or hold of every input, proved over
  those spec functions.
- `src/key.rs`, `src/math.rs` — 32-byte addresses, basis-point arithmetic, truncating
  division, years.
- `app/` — the Solana program: Anchor account loading and address derivation, clock reads,
  token transfers and logging around the library.
