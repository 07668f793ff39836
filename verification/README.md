# my_token

Four token programs that tax their transfers, written as verified instruction
handlers over the account states they read and write.

- `src/accounts.rs`: addresses, mints, token accounts, the king whale record,
  the lock account, the clock readings and the error.
- `src/fees.rs`: the tax (5%), the king whale and marketing cuts, the pool cut
  (20%) and the king whale record update.
- `src/burnit.rs`, `src/kingwhale.rs`, `src/lquiditypool.rs`, `src/lockit.rs`:
  the handlers of each program, each with a contract that gives the accounts
  after the call exactly, and `can_*` functions that tell whether a call stays
  within its integer types.
- `src/laws.rs`: where the tax goes, how the king whale record grows, how the
  three taxed transfers relate, repeated unlocking and burning.
- `app/`: the Anchor account validation and the token program call, around the
  verified handlers.
