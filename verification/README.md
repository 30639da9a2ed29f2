# Real-estate contracts, verified

A library of real-estate tokenisation contracts written in Verus: a cross-chain
property bridge, a property exchange (AMM pools, order book, governance, trading
competitions), escrows with multi-signature release, crowdfunding campaigns, a
compliance registry, fractional ownership, multisig governance, a contract
factory, an event bus, loan statistics and a routing-path cache.

Each contract is a plain Rust value. What a blockchain runtime would supply
(caller, block number, timestamp, attached payment, a transaction hash) is an
explicit argument, and native transfers are recorded in a payout list that the
host performs. Every contract has an abstract view (maps and sequences), and each
operation's `ensures` gives its result and next view exactly.

Contract storage is kept in `common::Table`, a verified map held as a list of
distinct keys: it gives the storage maps of each contract a specification that
the proofs can use, and keeps the library free of any runtime crate.

Layout: one module per contract under `src/`, with submodules for its larger
parts; laws that span several operations are public proof functions next to the
specifications they speak of; `tests/` exercises the library on concrete values.
