# datafusion_count

The COUNT aggregate of a query engine, verified with Verus: it counts the
non-null values of an Arrow column, keeping one counter per group.

- `src/accumulator.rs`: `CountAccumulatorFly` and the two interfaces it
  implements, `AccumulatorFly` (many groups, addressed by index) and
  `Accumulator` (one group, group 0, opened on first use), plus
  `try_update_batch` / `try_merge_batch`, which read the column and refuse
  (`None`) a missing group or a count that would leave a `u64`.
- `src/aggregate.rs`: `CountFly`, the aggregate expression (fields, input
  expression, accumulator), and `format_state_name`.
- `src/scalar.rs`: `ScalarValue`, a single value of a column.
- `src/columnar.rs`: the Arrow items the aggregate uses (`ArrayData`,
  `DataType`, `Field`, `compute::sum`), with the contracts taken on trust.
- `src/laws.rs`: properties across operations (batch and row counting
  agree, merging a state adds its count, merges commute, merging `state_all`
  restores the counts, the counts are everything fed in, ...).
- `app/`: the engine-facing layer over `ArrayRef`, which checks inputs and
  times the whole-column reads.
