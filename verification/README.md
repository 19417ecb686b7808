# optopus_py

Python bindings for the optopus combinatorial optimization library, with the
decision logic of the bindings written in Verus and proved against its
contracts.

- `src/` — the verified library:
  - `runner.rs`: which heuristic runs on which problem, through which
    neighborhood (`build`, `plan_solve`), and the laws of that resolution;
  - `heuristic.rs`: the heuristics' parameters and constructor checks;
  - `graph.rs`: parameter rules of the random graph generators;
  - `problem.rs`: direction and relation names, flat polynomials to
    expressions, job shop machine counts;
  - `seed.rs`: seed resolution and per-run seed derivation;
  - `stop_condition.rs`, `text.rs`: stopping criteria, string helpers.
- `tests/` — tests of the library on concrete values.
- `app/` — the pyo3 extension module: Python classes, conversion of Python
  values, calls into the optimization core, and the floating-point checks and
  statistics.

Real-valued parameters cross the library as the bit patterns of their `f64`
values (`f64::to_bits`); the library carries them and never computes with them.
