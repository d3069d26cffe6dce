# landlord

A verified core for a Solana real-estate tokenization platform and its DAO governor.
Assets are issued as NFTs and can be split into fractional tokens. Holders lock those
tokens in escrows for a dividend checkpoint and then claim their share of the dividend.

- `src/` holds the library, checked by Verus. Each instruction is a function from
  the accounts' contents (as plain values) to their new contents plus the token
  transfers, mints and events that result. Its contract says which error comes back
  for which inputs. `src/laws.rs` states and proves properties that span functions,
  for example that dividend shares never add up to more than the amount distributed,
  and that a locker's supply stays equal to what its escrows hold.
- `app/` is the Anchor program around it. It validates and stores accounts, reads
  the clock, makes the token, system and metadata program calls, and writes event logs.
- `tests/` runs the library on concrete accounts, with the SPL token layouts produced
  by the token program's own packing code.
