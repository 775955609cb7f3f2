# margined_power

A power-perpetual vault protocol for CosmWasm chains, with its decision
logic verified in Verus.

Users lock collateral (the base asset, or a listed liquid-staked asset) in
vaults and mint power tokens against it; a vault must keep its collateral
worth at least 3/2 of its debt at the index price, or anyone may liquidate
it for a 10% bounty. A normalisation factor, moved by funding towards the
index, scales every vault's debt. A fee collector holds the minting fees.

- `src/` is the library. Each user operation (mint, burn, deposit,
  withdraw, liquidate, open and close a short, flash liquidation, removing
  empty vaults, funding, pausing, configuration, the fee collector's token
  list, ownership transfer) is a function from the stored values and the
  prices read for the block to the values to store and the transfers to
  make, with a contract that states its result exactly. The laws that
  relate operations are public proof functions named `law_*`.
- `app/` holds the contracts' entry points: storage, chain queries and
  messages around the library.
- `tests/` runs the library on concrete values.

Fixed-point arithmetic, decimal parsing and the fractional power used by
funding call `cosmwasm-std` and `injective-math` through a few trusted
functions whose contracts are stated in `src/math.rs`, `src/admin.rs` and
`src/funding.rs`.
