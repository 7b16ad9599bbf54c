# chain_fund_me

A crowdfunding program for Solana: a factory with an owner, moderators, a
platform fee and accepted tokens; campaigns that take contributions in
lamports or tokens between their start and end times; withdrawals by the
campaign's owner; and a points system with purchasable multiplier tiers.

- `src/` is the verified core. Each instruction under `src/instructions/` is
  a function from the accounts it reads and writes (held as plain values) and
  its arguments to the new account contents, an error, and the transfers and
  events that the runtime must carry out. Its contract is given by spec
  functions over the accounts' views; a refused instruction changes nothing.
  `src/laws.rs` proves properties that span instructions.
- `src/token_account.rs` reads SPL token accounts through `anchor_spl`.
- `app/` is the on-chain program: Anchor account validation, clock and rent
  sysvars, CPI transfers, events, and the conversions to and from the
  library's types.
