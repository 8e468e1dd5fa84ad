# pixly_kernel

The decision-making core of an image and media converter, written in Verus
and proved against its contracts: format tables and parsing, parameter and
configuration validation, conversion stage planning, encoder argument lists,
GIF optimisation passes, filename normalisation with reversible mappings,
batch queues and progress counting, worker-pool sizing, memory pools, the
format knowledge base, model routing, XMP sidecar merging as a state
machine, and the Eagle library bookkeeping.

Layout:

- `src/` — the verified library. Each module states its behaviour over
  spec functions and views; functions named `law_*` are proved properties
  that relate several operations. Floating-point figures are carried as
  their IEEE-754 bit patterns.
- `tests/` — ordinary Rust tests run against the compiled library.
- `app/` — the unverified shell around it: file system and process I/O,
  threads, the clock, serialisation, and the floating-point estimates.
