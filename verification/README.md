# entropy

A verified library for the Entropy on-chain randomness service: users
request a random number, a crank operator periodically writes a seed built
from ten Pyth price feeds, and the user's proxy signer later fetches the
number, the Keccak-256 digest of the seed, the request id and the user.

- `src/` — the Verus library: account types, the `initialize`, `request`,
  `turn_crank` and `fetch` instructions with their account constraints
  (`entropy.rs`), the seed and number derivations, the crank operator's
  decisions (`operator.rs`), client-side address derivations, and the
  cross-instruction properties (`laws.rs`).
- `tests/` — tests on concrete values.
- `app/` — the Anchor program glue, the crank operator's event loop and the
  end-to-end test routine; it performs the I/O and calls the library.

`app/main.rs` runs the crank operator (`init`, `turn-crank`); `<binary> test
all` runs the end-to-end test routine. Those client parts use `anchor-client`,
which is not among the dependencies: its dependency tree is too large for this
build, so `app/` does not build as it stands.

`src/constants.rs` holds the deployment constants (delay, fees, reserve,
program and wallet addresses, the Pyth price accounts); set them to the
values of the deployment.
