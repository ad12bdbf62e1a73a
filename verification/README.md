# astroid-multisig

The verified core of an N-of-M multisig contract for Soroban. A dynamic signer
set and a threshold govern internal proposals through an approve, then execute
flow, with an optional time lock for each proposal and a global emergency lock.

- `src/` is the library. Every request has an exact contract (`src/model.rs`
  says what it answers and what it leaves behind), and `src/laws.rs` proves what
  holds of all requests together: the configuration stays usable, the lock stops
  proposals and nothing else, nothing executes without a quorum of different
  signers, execution is final.
  `src/address_codec.rs` reads and writes the host's serialized addresses and
  proves that nothing is lost either way.
- `app/` is the contract itself: it loads storage, calls the library, and
  carries out what the library asks of the host (authorization, lifetime
  extension, events).
- `tests/` runs the library against the real host lists and texts.

What is taken on trust is the behaviour of the host's list type and of its text
type, as far as `src/address_list.rs` and `src/validation.rs` state it.
