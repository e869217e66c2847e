//! Spark's `regexp_extract`: the text that one group of a regular expression matches in a string
//! or in every row of a string column.
//!
//! * [`matching`] runs a regular expression and picks a group out of its first match.
//! * [`arrays`] reads and builds the Arrow string arrays that hold the columns.
//! * [`types`] holds the argument and result values, the data types and the errors.
//! * [`function`] is the function: its signature, its type rules and its evaluation.
//! * [`laws`] states what holds of the function as a whole, [`view_laws`] what the views say.
//! * [`text`] writes numbers in decimal for the error messages.

pub mod arrays;
pub mod function;
pub mod laws;
pub mod matching;
pub mod text;
pub mod types;
pub mod view_laws;

pub use arrays::{LargeUtf8Array, Utf8Array, Utf8ViewArray};
pub use function::{Extracted, SparkRegexpExtract};
pub use matching::regexp_extract_impl;
pub use types::{
    Array, ColumnarValue, DataType, ExtractError, ScalarValue, Signature, TypeSignature, Volatility,
};
