# Zerum

Deterministic code governance for Python: about 75 checks (ZR001–ZR510) for
maintainability, consistency, architecture boundaries and AI-slop patterns,
with quiet `default` and full `strict` profiles, explainable findings and
optional Ruff orchestration.

The library under `src/` is written in Verus; its behaviour is stated in
`requires` / `ensures` contracts and proved:

- `parser/` — the Python parser call (`rustpython_parser`), the reading of
  its tree rendering and the lowering into the syntax tree the rules inspect,
  each specified exactly; byte offsets to line and column.
- `analysis/` — facts of a parsed file: function and class metrics, imports,
  lines and comments.
- `checks/` — the `Check` trait, the rule catalog, every detector, the
  stand-alone checks, and laws over running checks.
- `config/` — `zerum.toml` resolution (profiles, inheritance, overrides),
  validation, the search for the configuration file, and its laws.
- `analyzers/` — the deterministic analyzer, report order, external checkers.
- `reporters/`, `cli.rs`, `discovery.rs`, `integrations/` — report texts,
  exit codes, file selection, Ruff findings.

`app/` is the `zerum` command line around the library: argument parsing,
file-system access, running Ruff and JSON/SARIF serialization.
