# substrate_kitties

Verified logic of three runtime modules and the test runtime they run in:

- `src/poe.rs`: a proof-of-existence registry (claim, revoke, transfer byte-string claims).
  A record holds the owner and the block of the claim or of its last transfer. Revoking a
  claim that is not recorded is refused with `NoSuchClaim`; transferring one is refused
  with `ClaimAlreadyClaimed`.
- `src/kitties.rs`: kitties with random DNA: creation against a reserved deposit,
  transfer, and breeding that mixes the parents' DNA bit by bit.
- `src/ocw.rs`: an off-chain price feed: which block runs the worker, how the web reply
  is read (the string field `data.priceUsd`), and the bounded queue of prices. The
  answer to the signed submission does not change the worker's result.
- `src/json.rs`: JSON documents as library values, and lookups of their fields.
- `src/mock.rs`: the test runtime's parameters and the hook schedule that moves it from
  block to block.
- `src/hashing.rs`, `src/origin.rs`: the random value of a kitty and signed origins.

Each dispatchable call is specified by a function on the module's abstract state; the
laws of each module are proof functions beside it.

## Storage

A runtime's storage items live in the chain's state, reached through types that the
`decl_storage!` macro generates; the library holds each module's storage as a value of
its own instead, with the same contents:

- The claims are keyed by byte strings. The standard `HashMap` is specified for integer
  and boolean keys only, so the registry keeps its claims and their records in two
  vectors and proves them equal to the map it stands for.
- The kitties, their owners and the creation counts are keyed by integers and are kept in
  standard `HashMap`s.
- The prices are kept in a `VecDeque`, as the module stores them.

The currency and the randomness of the runtime stay outside: a kitty's creation takes the
random seed, the extrinsic index and the currency's answer to the deposit as arguments.

`app/` holds what talks to a running chain: the web request, the deposit in the balances
module, the chain's randomness, the SCALE-encoded form of a kitty, and the driver of a
test runtime's hooks and genesis storage.

## Dependencies

`Cargo.toml` pins `syn` to 1.0.58 and `substrate-bip39` to 0.4.2: with later versions of
these, `frame-support` 2.0.1 and `sp-core` 2.0.1 do not compile.
