# engine

A verified library for a project's Charter lifecycle and promotion records: charter intake
and candidate assembly, lifecycle events and their committed history, lifecycle-validation
results, posture and promotion transaction intents, context-resolution authority checks, and
runtime record fingerprint vectors.

- `src/` is the library. Every function there is checked by Verus against its `requires` /
  `ensures` contract. Canonical JSON (RFC 8785), SHA-256, base64 and random numbers come from
  outside crates through a few trusted wrappers, whose contracts name what those crates compute.
- `tests/` runs the library on concrete records.
- `app/` holds the input and output around it: the lifecycle event journal on disk, the clock,
  and the closed JSON parse of a vector fixture.
