# tpcdsgen

Building blocks of a TPC-DS data generator, verified with Verus.

- `src/random`: the multiplicative congruential random number streams (one
  per generator column, with a per-row allotment of draws and row skipping)
  and the generators of random values built on them (uniform integers, keys,
  decimals, dates, strings, weighted indices, English sentences, text and
  syllable words).
- `src/distribution`: cumulative weight building, string distributions, the
  English word distributions and the calendar distribution.
- `src/table.rs`, `src/column`, `src/generator`, `src/table_flags.rs`,
  `src/scaling_info.rs`, `src/config`: table metadata — names, flags,
  columns, generator columns, scaling information and base row counts.
- `src/slowly_changing_dimension_utils.rs`, `src/business_key_generator.rs`:
  revision keys of tables that keep history.
- `src/join_key_utils.rs`: foreign keys between tables.
- `src/row`: the stream bookkeeping shared by row generators.
- `app/`: the command-line program and what goes through floating point
  (scale factors, probability draws).

Every function of `src/` carries a contract over a mathematical model of its
inputs and results, except the methods of the two traits that users
implement (`TableRow::get_values` and the `Column` trait of
`column/column.rs`); the proof functions named `lemma_*` with public
visibility state properties that span several functions.
