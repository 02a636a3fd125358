# kitties

A registry of kitties, verified with Verus. Kitties are minted or bred,
priced by their owner, transferred between accounts and bought; the kitties
of each account are kept in a bounded list, no longer than a bound fixed
when the registry is made.

Layout of `src/`:

- `types.rs`: accounts, hashes, `Gender`, `Kitty`, errors, origins, events,
  the entropy a call draws from, and the payment a purchase asks for.
- `hashing.rs`: the SCALE encodings that identifiers and DNA are hashed
  from, and the calls into `BlakeTwo256`.
- `owned.rs`: the bounded list of an account's kitties (`BoundedVec`).
- `table.rs`: the table from kitty identifiers to kitties.
- `dna.rs`: gender from DNA, and DNA breeding.
- `model.rs`: the registry's state as mathematical values, and what each
  call does to it.
- `pallet.rs`: the registry and its calls, each proved to do what
  `model.rs` says.
- `genesis.rs`: the kitties a chain starts with.
- `laws.rs`: properties of the calls: consistency is kept, kitties are
  never lost, purchases complete or change nothing, breeding keeps what
  both parents share.

`app/` holds what the runtime needs around it: SCALE and serde copies of
the records, and the purchase flow that pays through the currency.
