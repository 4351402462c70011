# nft_staking

Staking of Metaplex Core assets on Solana, as a verified library.

A user stakes an asset of the configured collection: the asset is frozen,
with thaw rights delegated to the stake record's program address, and earns
`points_per_stake` reward points per second. Points are claimed as tokens of
the rewards mint (one whole token per point). Once the freeze period is over
the asset is thawed, its rewards settled, and the stake record closed. The
collection carries an Attributes plugin whose `staked` entry mirrors the number
of staked assets.

Layout:

- `src/state.rs`: the stored accounts (config, user record, stake record).
- `src/error.rs`: the program's errors and their messages.
- `src/mpl_core.rs`: the Core program's plugin types, their borsh encoding,
  and the instructions the program sends to Core.
- `src/instructions/`: one module per instruction; each `handler` takes the
  accounts as plain values, updates them, and returns the calls to make to
  other programs. Where the instruction counts or mints after a call to
  another program (stake, unstake, claim), a second step (`finish`,
  `mint_rewards`) takes over once that call has succeeded. `mod.rs` holds
  reward settlement and the attribute list.
- `src/lifecycle.rs`: properties across instructions (stake and unstake,
  freeze period, claims, the counts against the open stake records).
- `app/`: the Anchor program: account validation, the clock, account storage,
  and the cross-program invocations.
