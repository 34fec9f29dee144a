# contracts

Verified state transitions of a collection of ledger contracts (escrows,
lending, governance, payment channels, marketplaces, access control and
more), written in Verus.

- `src/` holds the library. Each contract is a struct whose public fields
  are its storage; every entry point is a method whose contract states the
  result for every input, when each error is returned, and how the storage
  changes. A refused call leaves the storage as it was; a refused flash-loan
  repayment puts the provider back as it was before the loan began. Token
  transfers out of a contract are returned as `Payout` values; the current
  time or ledger sequence, and oracle prices, are passed in.
- Storage is held in std collections (`HashMap`, `Vec`, and `BytesMap`, a
  list-backed map keyed by byte strings). On the ledger a contract's storage
  lives in the host, and soroban's `Map` and `Vec` are handles whose every
  operation is a call into the host environment; the library therefore
  takes and returns plain values, and `app/` converts to and from ledger
  storage. Declaring soroban's collections to Verus was not tried.
- Hashing and Ed25519 signature checks go through the `sha2` and
  `ed25519-dalek` crates behind small trusted wrappers in `src/crypto.rs`.
- Properties that span calls (replay protection, one vote per voter,
  solvency, conservation of channel deposits, ...) are stated as public
  proof functions or as invariants every method keeps.
- `tests/` runs the library on concrete scenarios.
- `app/` holds ledger entry points for some of the contracts: account
  numbering, authorization and token transfers around the library calls.
