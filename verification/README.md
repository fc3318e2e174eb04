# llm_wiki_desktop

The verified core of the LLM Wiki desktop workbench. This crate holds the decisions behind
Tasks, work-tracking sessions, reviews, execution runs, the Workbench, the overview, Vault
search and publication. Each decision is an executable function with a `requires`/`ensures`
contract over spec functions, and Verus proves it.

- `src/`: the library, checked by Verus. Each module opens with a line on what it decides.
  Public `proof fn`s state the laws that span several functions, such as
  `run::halts_never_rerun` and `workbench::display_order_is_strict_total`.
- `tests/`: ordinary Rust tests that run the library on concrete values.
- `app/`: a small command-line tool around the library for some of the workbench's
  commands. It reads and writes the SQLite database and converts JSON; the checks and
  choices it applies are the library's. Its `open` command opens a work session from a
  capture through the library's opening decisions. It carries no Vault adapter and no
  projector.

SHA-256 (`sha2`), Base64 (`base64`) and JSON serialization (`serde_json`) are called through a
few trusted wrappers, each with a doc comment that says what its contract claims of the outside function.
