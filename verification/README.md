# codebeacon

A verified library for a code-index assistant toolkit, written in Verus.

* `src/security` — write-time security checks: allocation, subtraction,
  division and buffer-copy sites extracted from single lines, exact overflow /
  underflow / division-by-zero decisions with witnesses, heuristic patterns
  (command injection, format strings, secrets, deserialization, path
  traversal), and the policy that turns findings into allow / warn / block.
* `src/query` — search tokenization (identifier splitting, stemming,
  stopwords) with exact UTF-8 byte semantics, and the term frequencies of a
  search document.
* `src/loop_coord` — loop sessions (begin, record, tick, end), their storage
  paths, the tick's plan (`plan_tick`) and answer (`finish_tick`), and signals.
  The index status and the focus and task contexts a tick reports come from
  the index service, which is not part of this crate.
* `src/run_plan` — plan discovery keys, mission briefs and prompts, agent
  command lines and binary resolution.
* `src/tui` — multi-agent session state: spawn queue and agent records,
  pane status transitions, screen detection of agents waiting for input, key
  handling, fresh pane keys.
* `src/lsp`, `src/mcp` — LSP message framing and response records, file
  URIs, repository-confined path resolution, the MCP tool list, symbol
  lookups over package records, and the text side of checked writes and
  edits.
* `src/report.rs` — where the repository report is written and the exact
  Markdown it holds.
* `src/text.rs`, `src/unicode.rs`, `src/paths.rs`, `src/matching.rs` — the
  string, UTF-8, path and regular-expression foundations the rest builds on.

`app/` is the command-line front end: it reads files and the environment,
serialises records with serde, and calls the library. `tests/` exercise the
library on concrete values.

Two collections are held as vectors with their invariant stated: the enabled
CWE identifiers of a security policy (`Vec<String>`, where membership is what
counts) and the term frequencies of a search document (`Vec<(String, u32)>`
with distinct keys). With `String` keys, a `HashSet` or `HashMap` was
accepted by Verus but nothing about its contents could be proved, so the
vector form is the one whose contracts say what the original's maps held.
