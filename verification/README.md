# vault_strategies

Strategies for DeFindex vaults on Soroban, verified with Verus.

A vault deposits one asset with a strategy and withdraws it again. Several
vaults can share one strategy; what belongs to which vault is kept in storage.

| Strategy | What it does with the asset |
| --- | --- |
| `aquarius` | swaps half of it and provides liquidity on an Aquarius pool |
| `soroswap` | swaps half of it and provides liquidity on a Soroswap pair |
| `neko` | lends it on a Neko pool (`rwa_lending` holds its storage) |
| `blend` | lends it on a Blend pool and reinvests the BLND rewards |

## Layout

- `src/` is the verified library. An entry point is a script over a
  `session::Session`: it asks for one host call at a time and goes on from the
  reply. It ends with a value, with an error that the entry point returns, or
  with an abort of the invocation.
- `src/*/laws.rs`, `src/blend/accounting.rs`, `src/position.rs` and
  `src/attribution.rs` state what holds of the scripts and of the books: that a
  deposit or a withdrawal touches no other vault, that what it returns is the
  balance, that shares and reserves agree, that rounding never takes from the
  other vaults, and so on.
- `src/fixed_point.rs` is all that is trusted: three calls into
  `soroban-fixed-point-math`.
- `app/` puts the scripts on the host as Soroban contracts: it performs the
  calls and converts the values. It is not verified.
- `tests/` runs the library against scripted hosts.
