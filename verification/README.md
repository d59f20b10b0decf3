# nft_staking

A staking pool for NFTs on NEAR, with its logic verified by Verus.

Accounts stake tokens by sending them to the contract (`nft_on_transfer`).
Each staked token earns `daily_reward` for every `interval` boundary that
passes; `claim_rewards` pays the accrued reward in the configured fungible
token. `create_unstake` starts a lock period (`lock_time` seconds) during
which nothing more accrues; after it, `fetch_unstake` returns the tokens and
the unclaimed reward and removes the account's record.

Layout:

- `src/contract.rs`: the contract state and every call, each with a contract
  that states the resulting staking table, the effects asked of the host, or
  the error that refuses the call.
- `src/entries.rs`: the model of the staking table (an ordered list of
  accounts and records) and its lemmas.
- `src/laws.rs`: properties that span calls (accrual, claims, unstaking).
- `src/store.rs`, `src/host.rs`: the near-sdk collections and calls the
  library uses, with the contracts that are trusted, not proved.
- `src/types.rs`, `src/decimal.rs`, `src/nft_callbacks.rs`: records, effects,
  errors, decimal rendering, the NFT receiver interface.
- `app/`: the NEAR contract around the library: reads the call context from
  the host, carries out the effects (cross-contract calls, JSON log lines) and
  panics with the contract's messages on errors.
