# dusn

The verified core of the dUSN vault, a NEAR contract that mints dUSN against
deposited USN, redeems dUSN for USN, and keeps its USN reserve in a Ref Finance
stable pool.

- `src/` is the library, verified with Verus. Each contract entry point is a
  transition from the vault's state and an incoming event to its next state and
  a plan of cross-contract calls (`plan::PromisePlan`):
  `ft_receiver` (deposits, redemptions, settlement), `ref_function` (Ref
  Finance liquidity, staking, rewards, storage), `pricing` (the USN/dUSN rate),
  `ref_config` (where Ref lives on each network), `account` (NEAR account ids,
  decimals), and `laws` (what holds across operations: rounding never creates
  USN, deposits and settled redemptions never lower the backing of a dUSN, a
  failed redemption gives every burned dUSN back).
- `app/` is the NEAR contract around it: it reads the chain, applies the
  library's decisions to the dUSN ledger of `near-contract-standards`, emits
  the events, and turns plans into promises.
- `tests/` runs the library on concrete values.
