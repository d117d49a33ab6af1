# seu

Generic, type-level representations of Rust data types, and what is built on them.

- `src/generic`: products and sums of types (`Cons`, `Nil`, `Sum`), type-level numbers that
  index them, and the representations of fields, variants, structs and enums (`DataType`).
- `src/serde`: serialisation of representations into a tree of serializer calls, and
  deserialisation from self-describing content, with the laws that a representation comes back
  unchanged (`serde/roundtrip.rs`).
- `src/macros`: the code generation behind the `DataType` derive and the number macros, from a
  model of the annotated type (or the source text of an integer literal) to Rust source text,
  with the laws that the generated
  representations agree on their name markers and declare each one once
  (`macros/derive/consistency.rs`, `macros/names.rs`).
- `app`: the token-stream entry points for a procedural-macro crate (with the conversion of
  `syn`'s derive input into the library's model), and the bridges to serde's `Serialize` and
  `Deserialize`.

Every function under `src` is verified with Verus against its contract, but for four wrappers
whose contracts are trusted: two around standard-library calls (`str::to_lowercase`,
`String::push`) and two around `syn`, which reads an integer literal and checks the path of the target
crate from source text.
