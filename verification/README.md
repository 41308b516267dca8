# chat

A verified core for an on-chain chat board (an Anchor program on Solana):
user accounts with a display name, comment sections, comments and replies,
votes, and two operator-only moderation flags (star and feature).

- `src/` is the library, verified with Verus. Each instruction takes the
  accounts it works on and its arguments, and its contract says, through one
  spec function per instruction in `src/instructions.rs`, what the accounts hold
  afterwards or which error it returns (a refused instruction changes nothing).
  `src/laws.rs` proves properties that span instructions.
- `app/` is the Anchor program: account validation and addressing (seeds),
  the clock, logging, and conversion between Anchor's account types and the
  library's.
- `tests/` runs the library on concrete accounts.
