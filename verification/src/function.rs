//! The function itself: its name and signature, the types it takes and gives, and its evaluation.

use crate::arrays::{
    collect_utf8, fits_utf8, lemma_total_bytes_mono, read_large_utf8, read_utf8, read_utf8_view,
    row_bytes, total_bytes, MAX_UTF8_BYTES,
};
use crate::matching::{extracted, is_substring, regex_of, regexp_extract_impl};
use crate::text::{decimal, decimal_text};
use crate::types::{
    int64_debug, int64_debug_text, outcome, Array, ArrayView, ColumnarValue, ColumnarView,
    DataType, DataTypeView, ExtractError, ExtractErrorView, ScalarValue, ScalarView, Signature,
    TypeSignature, Volatility,
};
use datafusion_common::utils::take_function_args;
use datafusion_common::DataFusionError;
use regex::Regex;
use vstd::prelude::*;

verus! {

/// The name under which queries call the function.
pub open spec fn function_name() -> Seq<char> {
    "regexp_extract"@
}

/// `text`, followed by the name of the function that it is about.
pub open spec fn about_function(text: Seq<char>) -> Seq<char> {
    text + " for function `"@ + function_name() + "`"@
}

/// The message that reports `count` arguments where three are needed.
pub open spec fn arity_message(name: Seq<char>, count: nat) -> Seq<char> {
    name + " function requires 3 arguments, got "@ + decimal(count)
}

/// `take_function_args` of DataFusion, for three arguments: the arguments in their order where
/// there are three of them, and otherwise the message of its error (`DataFusionError::message`),
/// which names the function and counts the arguments. That error is an execution error. (A
/// backtrace follows the message only under the `backtrace` feature of `datafusion-common`, which
/// is off here.)
#[verifier::external_body]
fn take_three_args<'a>(name: &str, args: &'a [ColumnarValue]) -> (taken: Result<
    [&'a ColumnarValue; 3],
    String,
>)
    ensures
        match taken {
            Ok(three) => {
                &&& args@.len() == 3
                &&& three[0] == args@[0]
                &&& three[1] == args@[1]
                &&& three[2] == args@[2]
            },
            Err(message) => {
                &&& args@.len() != 3
                &&& message@ == arity_message(name@, args@.len())
            },
        },
{
    take_function_args(name, args).map_err(|error: DataFusionError| error.message().into_owned())
}

/// What is extracted from one row: nothing from a null row.
pub open spec fn extracted_row(regex: Regex, row: Option<Seq<char>>, idx: int) -> Option<
    Seq<char>,
> {
    match row {
        Some(input) => Some(extracted(regex, input, idx)),
        None => None,
    }
}

/// What is extracted from each row.
pub open spec fn extracted_rows(regex: Regex, rows: Seq<Option<Seq<char>>>, idx: int) -> Seq<
    Option<Seq<char>>,
> {
    Seq::new(rows.len(), |i: int| extracted_row(regex, rows[i], idx))
}

/// The single null value.
pub open spec fn null_text() -> ColumnarView {
    ColumnarView::Scalar(ScalarView::Utf8(None))
}

/// The pattern that the second argument holds; `None` is a null pattern.
pub open spec fn pattern_argument(value: ColumnarView) -> Result<
    Option<Seq<char>>,
    ExtractErrorView,
> {
    match value {
        ColumnarView::Scalar(ScalarView::Utf8(pattern)) => Ok(pattern),
        ColumnarView::Scalar(ScalarView::LargeUtf8(pattern)) => Ok(pattern),
        ColumnarView::Scalar(ScalarView::Utf8View(pattern)) => Ok(pattern),
        _ => Err(
            ExtractErrorView::Execution(
                about_function("'regexp' argument must be a scalar string"@),
            ),
        ),
    }
}

/// The index of the group that the third argument asks for.
pub open spec fn index_argument(value: ColumnarView) -> Result<usize, ExtractErrorView> {
    match value {
        ColumnarView::Scalar(ScalarView::Int64(Some(idx))) => if idx < 0 {
            Err(
                ExtractErrorView::Execution(
                    about_function("Index argument must be a non-negative integer"@),
                ),
            )
        } else {
            Ok(idx as usize)
        },
        _ => Err(
            ExtractErrorView::Execution(about_function("'idx' argument must be an integer"@)),
        ),
    }
}

/// The error for a first argument that holds no text; `shown` is how it is shown.
pub open spec fn unsupported(shown: Seq<char>) -> ExtractErrorView {
    ExtractErrorView::Execution(about_function("Unsupported data type "@ + shown))
}

/// What is extracted from the first argument: a text from a text, a column of texts from a column
/// of texts. The result is a plain string column or value, whichever string type the argument has.
pub open spec fn extraction(value: ColumnarView, regex: Regex, idx: int) -> Result<
    ColumnarView,
    ExtractErrorView,
> {
    match value {
        ColumnarView::Array(array) => match array {
            ArrayView::Utf8(rows) | ArrayView::LargeUtf8(rows) | ArrayView::Utf8View(rows) => Ok(
                ColumnarView::Array(ArrayView::Utf8(extracted_rows(regex, rows, idx))),
            ),
            ArrayView::Other(data_type) => Err(unsupported(data_type.debug_text())),
        },
        ColumnarView::Scalar(scalar) => match scalar {
            ScalarView::Utf8(text) | ScalarView::LargeUtf8(text) | ScalarView::Utf8View(text) => Ok(
                ColumnarView::Scalar(ScalarView::Utf8(extracted_row(regex, text, idx))),
            ),
            ScalarView::Int64(number) => Err(
                unsupported("Scalar("@ + int64_debug(number) + ")"@),
            ),
            ScalarView::Other(shown) => Err(unsupported("Scalar("@ + shown + ")"@)),
        },
    }
}

/// The result once the pattern is compiled: null for a pattern that is no regular expression,
/// before the index and the first argument are looked at.
pub open spec fn compiled_evaluation(
    value: ColumnarView,
    compiled: Option<Regex>,
    index: ColumnarView,
) -> Result<ColumnarView, ExtractErrorView> {
    match compiled {
        None => Ok(null_text()),
        Some(regex) => match index_argument(index) {
            Err(error) => Err(error),
            Ok(idx) => extraction(value, regex, idx as int),
        },
    }
}

/// The result of the function on `args`: the value to extract from, the pattern and the index.
pub open spec fn evaluation(args: Seq<ColumnarView>) -> Result<ColumnarView, ExtractErrorView> {
    if args.len() != 3 {
        Err(ExtractErrorView::Execution(arity_message(function_name(), args.len())))
    } else {
        match pattern_argument(args[1]) {
            Err(error) => Err(error),
            Ok(None) => Ok(null_text()),
            Ok(Some(pattern)) => compiled_evaluation(args[0], regex_of(pattern), args[2]),
        }
    }
}

/// The rows of a column of texts.
pub open spec fn column_rows(value: ColumnarView) -> Option<Seq<Option<Seq<char>>>> {
    match value {
        ColumnarView::Array(ArrayView::Utf8(rows)) => Some(rows),
        ColumnarView::Array(ArrayView::LargeUtf8(rows)) => Some(rows),
        ColumnarView::Array(ArrayView::Utf8View(rows)) => Some(rows),
        _ => None,
    }
}

/// The text of a single value; a null text and a value that is no text have none.
pub open spec fn scalar_text(value: ColumnarView) -> Option<Seq<char>> {
    match value {
        ColumnarView::Scalar(ScalarView::Utf8(text)) => text,
        ColumnarView::Scalar(ScalarView::LargeUtf8(text)) => text,
        ColumnarView::Scalar(ScalarView::Utf8View(text)) => text,
        _ => None,
    }
}

/// A text that was found in a row is a part of the text of the row.
pub open spec fn is_row_part(found: Option<Seq<char>>, row: Option<Seq<char>>) -> bool {
    found matches Some(text) ==> (row matches Some(input) && is_substring(text, input))
}

/// Each text of the result is a part of the text at the same place in `value`.
pub open spec fn is_part(
    result: Result<ColumnarView, ExtractErrorView>,
    value: ColumnarView,
) -> bool {
    match result {
        Ok(ColumnarView::Array(ArrayView::Utf8(found))) => {
            &&& column_rows(value) matches Some(rows)
            &&& found.len() == rows.len()
            &&& forall|i: int| 0 <= i < found.len() ==> is_row_part(#[trigger] found[i], rows[i])
        },
        Ok(found) => is_row_part(scalar_text(found), scalar_text(value)),
        Err(_) => true,
    }
}

/// A column in the result fits into one array with 32-bit offsets.
pub open spec fn fits(result: Result<ColumnarView, ExtractErrorView>) -> bool {
    match result {
        Ok(ColumnarView::Array(ArrayView::Utf8(rows))) => total_bytes(rows) <= MAX_UTF8_BYTES,
        _ => true,
    }
}

/// A string column with 32-bit offsets.
pub open spec fn is_utf8_column(value: ColumnarView) -> bool {
    value matches ColumnarView::Array(ArrayView::Utf8(_))
}

/// The texts that an evaluation gives, before they become an Arrow array.
#[derive(Debug)]
pub enum Extracted {
    Scalar(Option<String>),
    Rows(Vec<Option<String>>),
}

impl View for Extracted {
    type V = ColumnarView;

    open spec fn view(&self) -> ColumnarView {
        match self {
            Extracted::Scalar(text) => ColumnarView::Scalar(ScalarView::Utf8(text.deep_view())),
            Extracted::Rows(rows) => ColumnarView::Array(ArrayView::Utf8(rows.deep_view())),
        }
    }
}

impl DeepView for Extracted {
    type V = ColumnarView;

    open spec fn deep_view(&self) -> ColumnarView {
        self@
    }
}

impl Extracted {
    /// Whether the texts fit into one array with 32-bit offsets.
    pub fn fits(&self) -> (yes: bool)
        ensures
            yes == fits(Ok(self@)),
    {
        match self {
            Extracted::Scalar(_) => true,
            Extracted::Rows(rows) => fits_utf8(rows),
        }
    }

    /// The texts as a result of the function.
    pub fn into_columnar_value(self) -> (value: ColumnarValue)
        requires
            fits(Ok(self@)),
        ensures
            value@ == self@,
    {
        match self {
            Extracted::Scalar(text) => ColumnarValue::Scalar(ScalarValue::Utf8(text)),
            Extracted::Rows(rows) => ColumnarValue::Array(Array::Utf8(collect_utf8(rows))),
        }
    }
}

/// The type of the result, as the type of the first argument decides it.
pub open spec fn result_type(arg_type: DataTypeView) -> Result<DataTypeView, ExtractErrorView> {
    match arg_type {
        DataTypeView::LargeUtf8 => Ok(DataTypeView::LargeUtf8),
        DataTypeView::Utf8 | DataTypeView::Utf8View => Ok(DataTypeView::Utf8),
        other => Err(
            ExtractErrorView::Execution(
                "The regexp_extract function can only return strings. Got "@
                    + other.display_text(),
            ),
        ),
    }
}

/// The types that arguments of the types `arg_types` are cast to before an evaluation. The type
/// of the first argument is not looked at.
pub open spec fn coercion(arg_types: Seq<DataTypeView>) -> Result<
    Seq<DataTypeView>,
    ExtractErrorView,
> {
    if arg_types.len() != 3 {
        Err(
            ExtractErrorView::Plan(
                "The "@ + function_name() + " function requires 3 argument, but got "@ + decimal(
                    arg_types.len(),
                ) + "."@,
            ),
        )
    } else if !arg_types[1].is_string() {
        Err(ExtractErrorView::Plan(about_function("'regexp' argument must be a string"@)))
    } else if !arg_types[2].is_integer() {
        Err(ExtractErrorView::Plan(about_function("'idx' argument must be an integer"@)))
    } else {
        Ok(seq![arg_types[0], arg_types[1], DataTypeView::Int64])
    }
}

/// Extracts group `idx` from each row.
fn extract_rows(rows: &Vec<Option<&str>>, regex: &Regex, idx: usize) -> (texts: Vec<
    Option<String>,
>)
    ensures
        texts.deep_view() == extracted_rows(*regex, rows.deep_view(), idx as int),
        total_bytes(texts.deep_view()) <= total_bytes(rows.deep_view()),
        forall|i: int|
            0 <= i < rows@.len() ==> is_row_part(
                #[trigger] texts.deep_view()[i],
                rows.deep_view()[i],
            ),
{
    let mut texts: Vec<Option<String>> = Vec::new();
    for i in 0..rows.len()
        invariant
            texts@.len() == i,
            forall|j: int|
                0 <= j < i ==> {
                    &&& (#[trigger] texts@[j]).deep_view() == extracted_row(
                        *regex,
                        rows@[j].deep_view(),
                        idx as int,
                    )
                    &&& row_bytes(texts@[j].deep_view()) <= row_bytes(rows@[j].deep_view())
                    &&& is_row_part(texts@[j].deep_view(), rows@[j].deep_view())
                },
    {
        let text = match rows[i] {
            Some(input) => Some(regexp_extract_impl(input, regex, idx)),
            None => None,
        };
        texts.push(text);
    }
    assert(texts.deep_view() =~= extracted_rows(*regex, rows.deep_view(), idx as int));
    proof {
        lemma_total_bytes_mono(texts.deep_view(), rows.deep_view());
    }
    texts
}

/// Extracts group `idx` from a single value.
fn extract_scalar(text: &Option<String>, regex: &Regex, idx: usize) -> (extracted: Option<String>)
    ensures
        extracted.deep_view() == extracted_row(*regex, text.deep_view(), idx as int),
        is_row_part(extracted.deep_view(), text.deep_view()),
{
    match text {
        Some(input) => Some(regexp_extract_impl(input.as_str(), regex, idx)),
        None => None,
    }
}

/// Whether the first argument is a column whose text may take more bytes than one array with
/// 32-bit offsets holds.
fn has_unbounded_column(args: &[ColumnarValue]) -> (yes: bool)
    ensures
        yes == (args@.len() > 0 && (args@[0]@ matches ColumnarView::Array(array)
            && (array is LargeUtf8 || array is Utf8View))),
{
    if args.len() == 0 {
        return false;
    }
    match &args[0] {
        ColumnarValue::Array(Array::LargeUtf8(_)) => true,
        ColumnarValue::Array(Array::Utf8View(_)) => true,
        _ => false,
    }
}

/// Spark's `regexp_extract`: extracts the text of one group of a regular expression.
///
/// As a trade-off, the index of the group must always be given, as an integer.
#[derive(Debug)]
pub struct SparkRegexpExtract {
    signature: Signature,
}

impl View for SparkRegexpExtract {
    type V = Signature;

    closed spec fn view(&self) -> Signature {
        self.signature
    }
}

impl Default for SparkRegexpExtract {
    fn default() -> (function: Self)
        ensures
            function@ == (Signature {
                type_signature: TypeSignature::UserDefined,
                volatility: Volatility::Immutable,
            }),
    {
        Self::new()
    }
}

impl SparkRegexpExtract {
    #[verifier::type_invariant]
    spec fn is_immutable(self) -> bool {
        &&& self.signature.type_signature == TypeSignature::UserDefined
        &&& self.signature.volatility == Volatility::Immutable
    }

    /// The function.
    pub fn new() -> (function: Self)
        ensures
            function@ == (Signature {
                type_signature: TypeSignature::UserDefined,
                volatility: Volatility::Immutable,
            }),
    {
        SparkRegexpExtract { signature: Signature::user_defined(Volatility::Immutable) }
    }

    /// The name under which queries call the function.
    pub fn name(&self) -> (name: &str)
        ensures
            name@ == function_name(),
    {
        "regexp_extract"
    }

    /// The signature of the function: it coerces its argument types itself, and its result depends
    /// on nothing but its arguments.
    pub fn signature(&self) -> (signature: &Signature)
        ensures
            *signature == self@,
            signature.type_signature == TypeSignature::UserDefined,
            signature.volatility == Volatility::Immutable,
    {
        proof {
            use_type_invariant(self);
        }
        &self.signature
    }

    /// The type of the result for arguments of the given types.
    pub fn return_type(&self, arg_types: &[DataType]) -> (result: Result<DataType, ExtractError>)
        requires
            arg_types@.len() > 0,
        ensures
            outcome(result) == result_type(arg_types@[0]@),
    {
        match &arg_types[0] {
            DataType::LargeUtf8 => Ok(DataType::LargeUtf8),
            DataType::Utf8 | DataType::Utf8View => Ok(DataType::Utf8),
            other => {
                let mut message =
                    "The regexp_extract function can only return strings. Got ".to_string();
                message.append(other.display_text());
                Err(ExtractError::Execution(message))
            },
        }
    }

    /// Checks the types of the arguments, and gives the types to cast the arguments to.
    pub fn coerce_types(&self, arg_types: &[DataType]) -> (result: Result<
        Vec<DataType>,
        ExtractError,
    >)
        ensures
            outcome(result) == coercion(arg_types.deep_view()),
    {
        if arg_types.len() != 3 {
            let mut message = "The ".to_string();
            message.append(self.name());
            message.append(" function requires 3 argument, but got ");
            message.append(decimal_text(arg_types.len()).as_str());
            message.append(".");
            return Err(ExtractError::Plan(message));
        }
        if !arg_types[1].is_string() {
            return Err(ExtractError::Plan(self.about("'regexp' argument must be a string")));
        }
        if !arg_types[2].is_integer() {
            return Err(ExtractError::Plan(self.about("'idx' argument must be an integer")));
        }
        let coerced = vec![arg_types[0].clone(), arg_types[1].clone(), DataType::Int64];
        assert(coerced.deep_view() =~= coercion(arg_types.deep_view())->Ok_0);
        Ok(coerced)
    }

    fn about(&self, text: &str) -> (message: String)
        ensures
            message@ == about_function(text@),
    {
        let mut message = text.to_string();
        message.append(" for function `");
        message.append(self.name());
        message.append("`");
        message
    }

    fn pattern<'a>(&self, value: &'a ColumnarValue) -> (pattern: Result<
        Option<&'a str>,
        ExtractError,
    >)
        ensures
            outcome(pattern) == pattern_argument(value@),
    {
        match value {
            ColumnarValue::Scalar(ScalarValue::Utf8(Some(pattern))) => Ok(Some(pattern.as_str())),
            ColumnarValue::Scalar(ScalarValue::LargeUtf8(Some(pattern))) => Ok(
                Some(pattern.as_str()),
            ),
            ColumnarValue::Scalar(ScalarValue::Utf8View(Some(pattern))) => Ok(
                Some(pattern.as_str()),
            ),
            ColumnarValue::Scalar(ScalarValue::Utf8(None)) => Ok(None),
            ColumnarValue::Scalar(ScalarValue::LargeUtf8(None)) => Ok(None),
            ColumnarValue::Scalar(ScalarValue::Utf8View(None)) => Ok(None),
            _ => Err(
                ExtractError::Execution(self.about("'regexp' argument must be a scalar string")),
            ),
        }
    }

    fn index(&self, value: &ColumnarValue) -> (index: Result<usize, ExtractError>)
        ensures
            match index {
                Ok(idx) => index_argument(value@) == Ok::<usize, ExtractErrorView>(idx),
                Err(error) => index_argument(value@) == Err::<usize, ExtractErrorView>(error@),
            },
    {
        match value {
            ColumnarValue::Scalar(ScalarValue::Int64(Some(idx))) => {
                if *idx < 0 {
                    return Err(
                        ExtractError::Execution(
                            self.about("Index argument must be a non-negative integer"),
                        ),
                    );
                }
                Ok(*idx as usize)
            },
            _ => Err(ExtractError::Execution(self.about("'idx' argument must be an integer"))),
        }
    }

    fn unsupported(&self, shown: &str) -> (error: ExtractError)
        ensures
            error@ == unsupported(shown@),
    {
        let mut text = "Unsupported data type ".to_string();
        text.append(shown);
        ExtractError::Execution(self.about(text.as_str()))
    }

    fn unsupported_scalar(&self, shown: &str) -> (error: ExtractError)
        ensures
            error@ == unsupported("Scalar("@ + shown@ + ")"@),
    {
        let mut text = "Scalar(".to_string();
        text.append(shown);
        text.append(")");
        self.unsupported(text.as_str())
    }

    /// Extracts group `idx` of `regex` from the first argument.
    pub fn extract(&self, value: &ColumnarValue, regex: &Regex, idx: usize) -> (result: Result<
        Extracted,
        ExtractError,
    >)
        ensures
            outcome(result) == extraction(value@, *regex, idx as int),
            is_part(outcome(result), value@),
            is_utf8_column(value@) ==> fits(outcome(result)),
    {
        match value {
            ColumnarValue::Array(Array::Utf8(array)) => {
                let rows = read_utf8(array);
                Ok(Extracted::Rows(extract_rows(&rows, regex, idx)))
            },
            ColumnarValue::Array(Array::LargeUtf8(array)) => {
                let rows = read_large_utf8(array);
                Ok(Extracted::Rows(extract_rows(&rows, regex, idx)))
            },
            ColumnarValue::Array(Array::Utf8View(array)) => {
                let rows = read_utf8_view(array);
                Ok(Extracted::Rows(extract_rows(&rows, regex, idx)))
            },
            ColumnarValue::Array(Array::Other(data_type)) => {
                Err(self.unsupported(data_type.debug_text()))
            },
            ColumnarValue::Scalar(ScalarValue::Utf8(text)) => {
                Ok(Extracted::Scalar(extract_scalar(text, regex, idx)))
            },
            ColumnarValue::Scalar(ScalarValue::LargeUtf8(text)) => {
                Ok(Extracted::Scalar(extract_scalar(text, regex, idx)))
            },
            ColumnarValue::Scalar(ScalarValue::Utf8View(text)) => {
                Ok(Extracted::Scalar(extract_scalar(text, regex, idx)))
            },
            ColumnarValue::Scalar(ScalarValue::Int64(number)) => {
                let shown = int64_debug_text(*number);
                Err(self.unsupported_scalar(shown.as_str()))
            },
            ColumnarValue::Scalar(ScalarValue::Other(shown)) => {
                Err(self.unsupported_scalar(shown.as_str()))
            },
        }
    }

    /// Evaluates the function on a pattern that `Regex::new` compiled or refused.
    pub fn evaluate_compiled(
        &self,
        value: &ColumnarValue,
        compiled: &Result<Regex, regex::Error>,
        index: &ColumnarValue,
    ) -> (result: Result<Extracted, ExtractError>)
        ensures
            outcome(result) == compiled_evaluation(value@, compiled.ok(), index@),
            is_part(outcome(result), value@),
            is_utf8_column(value@) ==> fits(outcome(result)),
    {
        match compiled {
            Err(_) => Ok(Extracted::Scalar(None)),
            Ok(regex) => match self.index(index) {
                Err(error) => Err(error),
                Ok(idx) => self.extract(value, regex, idx),
            },
        }
    }

    /// Evaluates the function: the value to extract from, the pattern and the index of the group.
    pub fn evaluate(&self, args: &[ColumnarValue]) -> (result: Result<Extracted, ExtractError>)
        ensures
            outcome(result) == evaluation(args.deep_view()),
            args@.len() > 0 ==> is_part(outcome(result), args@[0]@),
            args@.len() > 0 && is_utf8_column(args@[0]@) ==> fits(outcome(result)),
    {
        let taken = match take_three_args(self.name(), args) {
            Ok(taken) => taken,
            Err(message) => {
                return Err(ExtractError::Execution(message));
            },
        };
        let value = taken[0];
        let pattern = match self.pattern(taken[1]) {
            Ok(Some(pattern)) => pattern,
            Ok(None) => {
                return Ok(Extracted::Scalar(None));
            },
            Err(error) => {
                return Err(error);
            },
        };
        let compiled = Regex::new(pattern);
        self.evaluate_compiled(value, &compiled, taken[2])
    }

    /// The result of the function on `args`, for arguments that give an array within its limit.
    pub fn invoke_with_args(&self, args: &[ColumnarValue]) -> (result: Result<
        ColumnarValue,
        ExtractError,
    >)
        requires
            (args@.len() > 0 && is_utf8_column(args@[0]@)) || fits(evaluation(args.deep_view())),
        ensures
            outcome(result) == evaluation(args.deep_view()),
            args@.len() > 0 ==> is_part(outcome(result), args@[0]@),
            fits(outcome(result)),
    {
        match self.evaluate(args) {
            Ok(extracted) => Ok(extracted.into_columnar_value()),
            Err(error) => Err(error),
        }
    }

    /// The result of the function on `args`, or `None` where the texts of the result take more
    /// bytes than one array with 32-bit offsets holds.
    pub fn try_invoke_with_args(&self, args: &[ColumnarValue]) -> (result: Option<
        Result<ColumnarValue, ExtractError>,
    >)
        ensures
            result is Some <==> fits(evaluation(args.deep_view())),
            result matches Some(value) ==> outcome(value) == evaluation(args.deep_view()),
            args@.len() > 0 ==> (result matches Some(value) ==> is_part(
                outcome(value),
                args@[0]@,
            )),
            args@.len() > 0 && is_utf8_column(args@[0]@) ==> result is Some,
    {
        if has_unbounded_column(args) {
            match self.evaluate(args) {
                Ok(extracted) => if extracted.fits() {
                    Some(Ok(extracted.into_columnar_value()))
                } else {
                    None
                },
                Err(error) => Some(Err(error)),
            }
        } else {
            Some(self.invoke_with_args(args))
        }
    }
}

} // verus!
