# tinyruntime

The routing core of a language-runtime router, written in Verus.

A host asks for code to run in a language; the router normalises the
language, finds the provider module that answers for it, checks that the
provider speaks a compatible contract, and hands the job to a pool of warm
workers. This crate holds the parts of that which can be stated and proved:

- `language` — language identifiers and their normal form (trimmed, ASCII
  lower-cased), with the laws that normalising is idempotent and ignores
  letter case and surrounding whitespace.
- `provider` — the routing table (one route per language, registration order
  kept, re-registration replacing in place), the contract-version gate, and
  the rows of the language listing.
- `store` — where managed toolchains are installed, and how a staging
  directory (an install in progress) is named and recognised.
- `worker_env` — a worker's environment: the toolchain first on `PATH`, an
  allow-list of inherited variables, the provider's extras, and nothing else.
- `pool`, `exec` — pool tuning, execution requests and responses.
- `config` — the load-time configuration, its decoding and the harness
  directory.
- `fake_worker` — the decisions of the stand-in worker used to exercise the
  pool: how a job's directive is spelled, and what is answered to it.
- `text` — the character-level operations the above rest on.

`app/` holds what cannot be verified: the JSON forms of the types (serde), the
platform path conversions, reading this process's environment, and the fake worker's socket loop.

Paths are handled as `/`-separated UTF-8 text, as on Unix.
