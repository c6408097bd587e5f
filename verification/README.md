# plskit

PLS regression with resampling inference, split in two crates:

- `src/` — the verified library (Verus). Everything here is integer
  valued: option types and their defaults, method dispatch, the argument
  checks each entry point makes before numeric work (with structured
  errors), fold / split / permutation / bootstrap index draws from seeded
  ChaCha8 streams, the execution-route rules of the resampling loops, the
  sign tally of the subsampling CIs, and the per-component test sequence
  that decides how far a closed-testing run goes.
- `app/` — the numeric engine in ordinary Rust on top of the library:
  NIPALS / SVD fits, standardization, test statistics, CIs and the rayon
  fan-out. It computes in floating point, which the verified library does
  not hold, and calls the library for every rule above.

`tests/` exercises the library from outside.
