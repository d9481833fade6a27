# ivoirechain

The domain logic of the IvoireChain lottery platform (tickets, draws, users,
wallets and rounds recorded on a Hyperledger Fabric ledger, payments through
Ivorian mobile-money providers), written in Verus and verified.

- `src/` is the verified library. Each public function states in its
  contract what it returns or changes; the laws that relate several functions
  are public proof functions (`lemma_*`). The calls into `uuid`, `chrono`,
  `hex` and the few standard functions that vstd does not specify are
  gathered in `src/outside.rs`, each with the contract it is trusted to keep.
- `app/` is the ordinary Rust around it: reading the environment, the
  PostgreSQL and Redis connections, running the peer commands through
  `docker exec`, the async ports of the use cases, the HTTP answer of errors,
  the serde and validator forms of the request and response bodies, and the
  conversions of amounts to and from floating-point FCFA.
- `tests/` runs the library on concrete values.
