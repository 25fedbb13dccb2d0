# edgedb_codegen

Generates the Rust source of a typed query module from the type descriptions
that an EdgeDB (or Gel) server returns for a query. The generation logic is
written and verified with Verus; the calls into outside crates (case
conversion, keyword escaping, path handling, string literals)
sit behind small trusted wrappers whose contracts are believed, and the parts
that talk to the database, the file system or `rustfmt` live in `app/`.

## Layout

- `src/` — the verified library.
  - `descriptor.rs`, `gel_descriptor.rs`: the type descriptions of the two
    protocol versions (blocks that name each other by position).
  - `generator.rs`: the string-building generator for EdgeDB; its behaviour
    is stated by the spec functions `explore_at`, `object_at` and
    `query_module_text`.
  - `gel_generator.rs`: the generator of the gel flavour (type aliases,
    structs with rename and builder attributes, the query module); its
    behaviour is stated by `gel_explore_at`, `gel_object` and `gelx_module`.
  - `gelx.rs`, `scalars.rs`, `cardinality.rs`: scalar types and cardinalities
    as Rust types.
  - `paths.rs`, `query_input.rs`: where a query's text comes from.
  - `naming.rs`: case conversion (`heck`) and keyword escaping
    (`check_keyword`).
  - `laws.rs`: properties that hold across the generator's functions.
- `tests/` — tests on concrete inputs.
- `app/` — the database round trip and the decoding of the type
  descriptions it returns (for both protocols), files, `rustfmt` and
  `prettyplease`, and the implementations of outside traits.
