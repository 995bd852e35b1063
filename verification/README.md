# mre_sdk

A software development kit for feature phones that run the MediaTek Runtime
Environment (MRE), in two parts:

- `src/` is the library, written in Verus and verified: paths and UTF-16
  text, file attributes and metadata, directory listings, file copies, the
  layer stack and colours, the key table, processes and messages, the task
  pump, system facts and the log format, name lookups and the TCP state
  machine, HTTP bodies, the crash report and the private stack. Each
  public function states in its contract what it returns. Where a value
  comes from an outside library (a log record's level, file and line, a
  colour's raw word, a socket address's bytes and port), the contract
  speaks of it through a named result of that library's accessor; the text
  of a log record's message is left unstated. The laws that tie functions
  together are public proof functions (`lemma_*`).
- `app/` is ordinary Rust around it: the runtime's functions resolved by
  name, the global state that the platform's callbacks reach, the panic
  handler, and the implementations of the traits of `embedded-io`,
  `embedded-io-async`, `embedded-nal-async`, `embedded-graphics` and `log`.
  It takes no decision of its own: it makes the platform calls and hands
  their results to the library.

`tests/` runs the library on concrete values.
