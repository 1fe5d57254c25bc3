# notary_contracts

The logic of two Casper smart contracts, verified with Verus.

* The **associate registrar** records which public keys belong to the firm and in which role
  (`NotMember`, `Partner`, `Judge`, `Lawyer`, `Clerk`). It keeps two dictionaries in global
  state: `associates` (role numbers, filed under the text of each public key and of its account
  hash) and `public_keys` (the links between a key and its account).
* The **document notarizer** lets members record metadata for document hashes, in a
  `documents` dictionary filed under the base64 text of each hash, and asks the registrar for
  the role of each caller.

Layout:

* `src/` — the verified library. `registrar/` and `notarizer/` hold each contract's roles,
  errors, the dictionary reads and writes each operation makes, its entry points, and the laws
  proved of them (`laws.rs`). `encoding.rs` holds the texts used as dictionary item keys and the
  calls into `casper_types` and `base64` that produce them. `meta_check.rs` is the check made
  by the session that tests the notarizer.
* `app/` — the contract runtime: entry points, host reads and writes, calls between
  contracts, reverts.
* `tests/` — the library driven over an in-memory copy of the contracts' dictionaries.
