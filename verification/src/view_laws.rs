//! What the views say of the values that they stand for: which kind a value has, and what it holds.

use crate::arrays::{
    large_utf8_rows, utf8_rows, utf8_view_rows, LargeUtf8Array, Utf8Array, Utf8ViewArray,
};
use crate::function::Extracted;
use crate::types::{
    outcome, Array, ArrayView, ColumnarValue, ColumnarView, DataType, DataTypeView, ExtractError,
    ExtractErrorView, ScalarValue, ScalarView,
};
use vstd::prelude::*;

verus! {

/// The view of a type is of the same kind, with the same texts.
pub proof fn law_view_of_data_type(data_type: DataType)
    ensures
        data_type.deep_view() == data_type@,
        data_type is Utf8 <==> data_type@ is Utf8,
        data_type is LargeUtf8 <==> data_type@ is LargeUtf8,
        data_type is Utf8View <==> data_type@ is Utf8View,
        data_type is Int8 <==> data_type@ is Int8,
        data_type is Int16 <==> data_type@ is Int16,
        data_type is Int32 <==> data_type@ is Int32,
        data_type is Int64 <==> data_type@ is Int64,
        data_type is UInt8 <==> data_type@ is UInt8,
        data_type is UInt16 <==> data_type@ is UInt16,
        data_type is UInt32 <==> data_type@ is UInt32,
        data_type is UInt64 <==> data_type@ is UInt64,
        data_type is Other <==> data_type@ is Other,
        data_type matches DataType::Other { display, debug } ==> {
            &&& data_type@->display == display@
            &&& data_type@->debug == debug@
        },
{
}

/// The view of a single value is of the same kind, with the same text or number.
pub proof fn law_view_of_scalar(value: ScalarValue)
    ensures
        match value {
            ScalarValue::Utf8(Some(text)) => value@ == ScalarView::Utf8(Some(text@)),
            ScalarValue::Utf8(None) => value@ == ScalarView::Utf8(None),
            ScalarValue::LargeUtf8(Some(text)) => value@ == ScalarView::LargeUtf8(Some(text@)),
            ScalarValue::LargeUtf8(None) => value@ == ScalarView::LargeUtf8(None),
            ScalarValue::Utf8View(Some(text)) => value@ == ScalarView::Utf8View(Some(text@)),
            ScalarValue::Utf8View(None) => value@ == ScalarView::Utf8View(None),
            ScalarValue::Int64(number) => value@ == ScalarView::Int64(number),
            ScalarValue::Other(shown) => value@ == ScalarView::Other(shown@),
        },
{
}

/// The view of a column is of the same kind, with the rows of its Arrow array.
pub proof fn law_view_of_array(array: Array)
    ensures
        match array {
            Array::Utf8(values) => array@ == ArrayView::Utf8(utf8_rows(values)),
            Array::LargeUtf8(values) => array@ == ArrayView::LargeUtf8(large_utf8_rows(values)),
            Array::Utf8View(values) => array@ == ArrayView::Utf8View(utf8_view_rows(values)),
            Array::Other(data_type) => array@ == ArrayView::Other(data_type@),
        },
{
}

/// The views of the Arrow arrays are their rows.
pub proof fn law_view_of_rows(
    utf8: Utf8Array,
    large_utf8: LargeUtf8Array,
    utf8_view: Utf8ViewArray,
)
    ensures
        utf8@ == utf8_rows(utf8),
        large_utf8@ == large_utf8_rows(large_utf8),
        utf8_view@ == utf8_view_rows(utf8_view),
{
}

/// The view of an argument or a result is that of its column or of its single value.
pub proof fn law_view_of_columnar_value(value: ColumnarValue)
    ensures
        value.deep_view() == value@,
        value matches ColumnarValue::Array(array) ==> value@ == ColumnarView::Array(array@),
        value matches ColumnarValue::Scalar(scalar) ==> value@ == ColumnarView::Scalar(scalar@),
{
}

/// Extracted texts are viewed as a plain string column with a row for each of them, in their
/// order, or as a single plain string.
pub proof fn law_view_of_extracted(value: Extracted)
    ensures
        value.deep_view() == value@,
        value matches Extracted::Scalar(text) ==> value@ == ColumnarView::Scalar(
            ScalarView::Utf8(
                match text {
                    Some(found) => Some(found@),
                    None => None,
                },
            ),
        ),
        value matches Extracted::Rows(texts) ==> {
            &&& value@ matches ColumnarView::Array(ArrayView::Utf8(rows))
            &&& rows.len() == texts@.len()
            &&& forall|i: int|
                0 <= i < texts@.len() ==> match texts@[i] {
                    Some(found) => #[trigger] rows[i] == Some(found@),
                    None => rows[i] is None,
                }
        },
{
}

/// The view of an error is of the same kind, with the same message.
pub proof fn law_view_of_error(error: ExtractError)
    ensures
        match error {
            ExtractError::Execution(message) => error@ == ExtractErrorView::Execution(message@),
            ExtractError::Plan(message) => error@ == ExtractErrorView::Plan(message@),
        },
{
}

/// The outcome of a call is a success with the view of its value, or a failure with the view of
/// its error.
pub proof fn law_outcome<T: DeepView>(result: Result<T, ExtractError>)
    ensures
        result matches Ok(value) ==> outcome(result) == Ok::<T::V, ExtractErrorView>(
            value.deep_view(),
        ),
        result matches Err(error) ==> outcome(result) == Err::<T::V, ExtractErrorView>(error@),
{
}

} // verus!
