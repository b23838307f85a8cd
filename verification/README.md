# openbatrangs

An agentic coding CLI for local models served by Ollama: it picks a model that
fits the machine, then lets the model explore, edit and verify code through a
small set of tools (list, read, grep, write, run), bounded by a step budget.

## Layout

- `src/` — the library, written in Verus. Every decision of the tool lives here
  with a contract: path safety (`path`), tool outputs (`files`, `text`), the
  agent loop as a state machine (`agent`), streaming reply parsing (`stream`,
  `ollama`), tool-call decoding (`tool`), the interactive UI's state and key
  handling (`tui`), model selection and reports (`commands`, `models`,
  `hardware`), engines (`engine`) and the startup banner (`banner`).
- `tests/` — tests of the library on concrete values.
- `app/` — the binary: argument parsing, HTTP calls to Ollama, the filesystem,
  shell commands, the terminal, and the floating-point weights of model
  scoring (the metadata they weigh is read by `models`).
