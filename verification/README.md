# horizon_dtl

A ledger library for distributed settlement, verified with Verus. Vaults hold
reserves of an asset; an issuer's signed ingress order moves value into a
vault and issues a delivery note; the beneficiary's signed redemption ticket
settles the note, paid out at the payout vault's current share index. Every
applied transaction is journaled with the digest of the ledger state.

## Layout

- `src/amount.rs`, `src/asset.rs`, `src/fees.rs`, `src/risk.rs`: amounts,
  share units and indices, basis points, asset configuration, the fee
  schedule and the risk limits.
- `src/bytes.rs`, `src/bytemap.rs`, `src/codec.rs`: byte order and hex,
  ordered maps keyed by 32-byte identifiers, and the canonical JSON encoding
  that digests and signatures are taken over.
- `src/ids.rs`, `src/crypto.rs`: identifiers derived by BLAKE3 over
  length-framed parts, and Ed25519 identities and signatures.
- `src/vault.rs`, `src/notes.rs`, `src/tickets.rs`, `src/routes.rs`,
  `src/oracle.rs`, `src/operators.rs`: vault reserves, ingress orders and
  delivery notes, redemption tickets, settlement routes, index observations
  and operator roles.
- `src/ledger/`: accounts, the journal, the ledger state with its
  transactions, and `laws.rs`, which proves what every transaction keeps:
  per-asset conservation of value, the journal's order, and that processed
  tickets and applied orders are not accepted again.
- `app/`: what callers need around the library that Verus does not check:
  conversion from `ed25519_dalek` signatures, and the text of errors,
  amounts and identifiers.
- `tests/`: scenario tests of the ledger, and tests of the encoding, hashing
  and signing against `serde_json`, `hex`, `blake3` and `ed25519-dalek`.

The ledger's tables are `ByteMap`s: vectors of entries kept in ascending key
order by a type invariant, standing for ordered maps and sets keyed by 32-byte
identifiers. vstd does specify `BTreeMap`, but the order in which it walks its
entries is specified only for key types known to obey the comparison laws, and
an identifier's derived `Ord` is not read by Verus. The canonical encoding and
the conservation check walk entries in key order, so the tables carry that
order themselves and expose it in their contracts (`keys_sorted`).

The BLAKE3 and Ed25519 calls are the only trusted items: each is a small
function in `src/ids.rs` or `src/crypto.rs` whose contract names the result.
