# bridge_check

Verified checks of the declarations of a Rust/C++ bridge module: shared
structs and enums, opaque types and functions of either language, type
aliases, explicit impls, and every type written in them.

- `src/syntax.rs` — the declarations as the checks read them; every node
  carries the location (any `Copy` span type) that diagnostics point at.
- `src/types.rs` — what is known of the declared names.
- `src/atom.rs` — the builtin type names.
- `src/ident.rs` — the spelling rules for declared names (the first pass).
- `src/report.rs` — diagnostics and their specification helpers.
- `src/check.rs` — the type and item checks, each proved to append exactly
  the diagnostics listed by its `spec_check_*` function; `typecheck` runs
  the name pass, then the type pass, then the item pass.
- `src/laws.rs` — properties of the checks as a whole.
- `app/lib.rs` — glue for a procedural macro: `proc_macro2` spans in,
  `compile_error!` tokens out.
