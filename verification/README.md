# circles

Verified core of a rotating savings circle platform, written in Verus.

- `src/types.rs`: addresses, configuration records, error enums, and the
  checks on platform fees (0..=10000 basis points) and circle parameters.
- `src/factory.rs`: the factory state (administrator, fee, circle settings,
  pause flag, registry of deployed circles), its operations with contracts
  over an abstract view, and proofs of the laws relating them.
- `src/circle.rs`: a deployed circle's settings, which only its factory may
  change.
- `src/vote.rs`: resolution of payout votes among active members, with
  proofs of uniqueness and stability of the winner.

Host concerns (storage, authentication, contract deployment, events, token
transfers) are left to the embedding contract; the library takes and returns
plain values. Tests live in `tests/`.
