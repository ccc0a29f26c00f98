# ccdscan_backend

The computations of the CCDScan backend, verified with Verus: what the GraphQL
API answers about bakers and passive delegation, and what the indexer makes of
each finalized block before it writes it to the database.

- `src/` is the verified library:
  - `text.rs`: decimal text of integers, and the law that an identifier read
    back from its text is the same identifier;
  - `decimal.rs`: decimals as mantissa and scale, with the calls into
    `rust_decimal`, `bigdecimal` (through sqlx) and `concordium-rust-sdk`
    that produce them;
  - `commission.rs`: commission rates stored as parts per hundred thousand;
  - `connection.rs`: pages of GraphQL connections and whether a page has
    neighbours;
  - `baker.rs`, `passive_delegation.rs`: the resolvers' computations;
  - `energy.rs`: the CCD cost of energy, computed exactly on 192-bit products;
  - `transaction_type.rs`, `indexer.rs`: blocks and block items as the
    database records them, where indexing starts, and how the last finalized
    block is tracked.
- `app/` holds the database queries and the node access around the library.
- `tests/` runs the library on concrete values.
