# spark_regexp_extract

Spark's `regexp_extract(str, regexp, idx)`: the text that group `idx` of the first match of a
regular expression takes in a string, or in each row of a string column. Group 0 is the whole
match. Where nothing matches, or the group does not, the text is empty. A null string gives null,
and so does a pattern that is null or no regular expression.

* `src/` is the library, verified with Verus. Regular expressions are those of the `regex` crate,
  columns are Arrow string arrays; what is taken on trust of these crates and of
  `datafusion-common` is stated at each call, in `src/matching.rs`, `src/arrays.rs`,
  `src/types.rs` and `src/function.rs`. `src/laws.rs` holds what is proved of the function as a
  whole.
* `app/` makes the library a scalar function of DataFusion.
* `tests/` runs the library on examples.
