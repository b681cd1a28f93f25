# lib

Verified generator of Rust source for the fltk crate from the tokens of a
FLUID (`.fl`) file.

- `src/parser.rs`: the token types the generator consumes.
- `src/text.rs`: character-sequence operations (prefix, substring, search,
  whitespace-separated words) with their specifications.
- `src/utils.rs`: value transformations (brace stripping, Pascal-case names,
  integer parsing, menu paths, widget type families).
- `src/model.rs`: the generator stated over character sequences: state,
  per-token step, the inputs it refuses, the rendered file.
- `src/gen.rs`: the executable generator, proved against `model.rs`;
  `generate` and `try_generate` are the entry points.
- `src/laws.rs`: properties of the generator as a whole.
