# boehm_reals

Exact rational arithmetic (`BoundedRational`) and the building blocks of
constructive reals, written in Verus: every function of the library carries
a contract over mathematical fractions and integers, and Verus proves it.

Layout:

- `src/bigint.rs`: `BigInt`, whose arithmetic is carried out by `num-bigint`
  and `num-integer` behind small trusted wrappers; its value in contracts is
  an `int`.
- `src/rational.rs`, `src/number_theory.rs`: fractions as pairs of integers,
  gcd, reduction to lowest terms, and the lemmas about them.
- `src/evaluation/bounded_rational.rs` and its submodules: `BoundedRational`,
  its operators, its conversions from and to `f64` bit patterns
  (`double.rs`), and the laws that hold across its operations (`laws.rs`).
- `src/ieee.rs`: IEEE 754 binary64 patterns, their values, and rounding to
  the nearest pattern.
- `src/evaluation/creals/`: the `CR` trait, the approximation cache, and
  `StringFloatRep`.
- `app/lib.rs`: what takes `f64` values or holds a lock (`value_of_double`,
  `double_value`, `CachedCR`), as thin shells around the library.
- `tests/`: the test suite, run against the compiled library.
