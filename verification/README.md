# presale_launcher

A token presale launcher for Solana, as a verified library (`src/`) and the
Anchor program around it (`app/`).

- `src/state/`: the launcher account (admin, fee pool) and launchpad
  accounts (owner, mint, presale state), with their checks and updates.
- `src/instructions/`: one module per instruction. Each takes the values
  that the instruction reads from its accounts and returns either the error
  that refuses it or the calls (token and lamport transfers, the AMM pool's
  creation) that carry it out, and the accounts' new state.
- `src/pricing.rs`: the presale price and the split of each payment between
  the presale treasury and the protocol's fee pool.
- `src/cpi.rs`: the calls that an instruction plans, and what they move.
- `src/properties.rs`: properties that span instructions.
- `app/`: the Anchor accounts, entrypoints and cross-program calls.
