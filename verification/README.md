# json_union_to_text

A verified library that flattens a JSON union column (Arrow's sparse union of nulls, booleans,
integers, floats, strings, arrays and objects) into one `Utf8View` column of canonical JSON text:

- `true`, `42` and `1.5` for scalars,
- quoted and escaped literals for strings,
- the JSON text itself for arrays and objects,
- SQL `NULL` for a JSON `null`.

`src/` is the library. Its contracts are proved by Verus; `src/arrow.rs` and `src/strings.rs` hold
what it takes on trust of Arrow, DataFusion and the standard library. `app/` registers the function
with DataFusion. `tests/` runs the library on real Arrow arrays.
