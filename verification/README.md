# flowscope

Two pieces of a SQL lineage tool, verified with Verus.

- `src/ast.rs`, `src/extract.rs`: the parts of a parsed SQL statement that
  table extraction reads, and `extract_tables`, whose contract gives the exact
  list of relation names (as spec functions over the tree), with a proof that
  extraction over a list of statements is the concatenation of the parts.
- `src/analysis.rs`, `src/issue_export.rs`, `src/decimal.rs`: the issues of an
  analysis result and their export rows, whose every field is stated.
- `app/lib.rs`: the same entry points on `sqlparser`'s syntax tree and with
  autofixes written as JSON by `serde_json`; it converts and calls the library.
- `tests/`: scenarios for both.
