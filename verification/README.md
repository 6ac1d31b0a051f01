# pine_analysis

A static analyzer for Pine Script v6 documents, written in Verus.

Given the text of a document, its line index and its syntax tree, the
analyzer defines the symbols of the document in nested scopes, resolves every
use of a name, infers expression types, and reports diagnostics: syntax
errors, unknown functions, duplicate and shadowing definitions, unused
symbols and enum members, uses before definition, argument checks for the
built-in functions (`request.security`, `input.*`, `strategy.*`, `ta.*`,
arrays, matrices, maps, drawing objects, plots), constant conditions,
recursion, and the document-level checks for the `//@version=6` directive and
the `indicator()` / `strategy()` entry point.

## Layout

- `src/` — the verified library.
  - `text.rs`, `position.rs`, `fmt.rs`, `name_map.rs` — characters,
    positions and the line index, message text, and a map keyed by names.
  - `big.rs`, `num.rs` — natural numbers of any size as decimal digits, and
    the exact rational numbers built on them that constant expressions
    evaluate to.
  - `syntax.rs` — the syntax tree as an arena of nodes.
  - `types.rs` — value types and their display names.
  - `builtins/` — the tables of built-in functions and values.
  - `analysis/` — the analyzer: settings (`settings`), evaluation of
    constant expressions (`eval`), call arguments (`args`), type inference
    (`infer`), scopes and definitions (`symbols`), enum declarations
    (`enums`), the walk of the tree (`walk`), the checks (`checks/`), the
    reports made after the walk (`summary`), how diagnostics only grow
    (`growth`), and the analysis from start to end (`run`, `entry`).
- `tests/` — tests of the built-in tables and of whole analyses.
- `app/` — the glue to tree-sitter, serde and the language server protocol.
