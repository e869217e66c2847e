//! The values that the function takes and gives, their data types, and its errors. Each type has a
//! view of the same shape in which texts and columns are sequences.

use crate::arrays::{LargeUtf8Array, Utf8Array, Utf8ViewArray};
use crate::text::signed_decimal;
use vstd::prelude::*;

verus! {

/// An Arrow data type, as far as the function tells the types apart.
#[derive(Debug)]
pub enum DataType {
    Utf8,
    LargeUtf8,
    Utf8View,
    Int8,
    Int16,
    Int32,
    Int64,
    UInt8,
    UInt16,
    UInt32,
    UInt64,
    /// Any other type, by the texts in which Arrow's `Display` and `Debug` show it.
    Other { display: String, debug: String },
}

/// The view of a [`DataType`].
pub enum DataTypeView {
    Utf8,
    LargeUtf8,
    Utf8View,
    Int8,
    Int16,
    Int32,
    Int64,
    UInt8,
    UInt16,
    UInt32,
    UInt64,
    Other { display: Seq<char>, debug: Seq<char> },
}

impl DataTypeView {
    /// One of the three types whose values are texts.
    pub open spec fn is_string(self) -> bool {
        self is Utf8 || self is LargeUtf8 || self is Utf8View
    }

    /// One of the signed or unsigned integer types.
    pub open spec fn is_integer(self) -> bool {
        ||| self is Int8
        ||| self is Int16
        ||| self is Int32
        ||| self is Int64
        ||| self is UInt8
        ||| self is UInt16
        ||| self is UInt32
        ||| self is UInt64
    }

    /// The name of the type; a type that is known by its texts alone has none.
    pub open spec fn name(self) -> Seq<char> {
        match self {
            DataTypeView::Utf8 => "Utf8"@,
            DataTypeView::LargeUtf8 => "LargeUtf8"@,
            DataTypeView::Utf8View => "Utf8View"@,
            DataTypeView::Int8 => "Int8"@,
            DataTypeView::Int16 => "Int16"@,
            DataTypeView::Int32 => "Int32"@,
            DataTypeView::Int64 => "Int64"@,
            DataTypeView::UInt8 => "UInt8"@,
            DataTypeView::UInt16 => "UInt16"@,
            DataTypeView::UInt32 => "UInt32"@,
            DataTypeView::UInt64 => "UInt64"@,
            DataTypeView::Other { .. } => ""@,
        }
    }

    /// The text in which Arrow displays the type.
    pub open spec fn display_text(self) -> Seq<char> {
        match self {
            DataTypeView::Other { display, .. } => display,
            _ => self.name(),
        }
    }

    /// The text in which Arrow shows the type for debugging.
    pub open spec fn debug_text(self) -> Seq<char> {
        match self {
            DataTypeView::Other { debug, .. } => debug,
            _ => self.name(),
        }
    }
}

impl View for DataType {
    type V = DataTypeView;

    open spec fn view(&self) -> DataTypeView {
        match self {
            DataType::Utf8 => DataTypeView::Utf8,
            DataType::LargeUtf8 => DataTypeView::LargeUtf8,
            DataType::Utf8View => DataTypeView::Utf8View,
            DataType::Int8 => DataTypeView::Int8,
            DataType::Int16 => DataTypeView::Int16,
            DataType::Int32 => DataTypeView::Int32,
            DataType::Int64 => DataTypeView::Int64,
            DataType::UInt8 => DataTypeView::UInt8,
            DataType::UInt16 => DataTypeView::UInt16,
            DataType::UInt32 => DataTypeView::UInt32,
            DataType::UInt64 => DataTypeView::UInt64,
            DataType::Other { display, debug } => DataTypeView::Other {
                display: display@,
                debug: debug@,
            },
        }
    }
}

impl DeepView for DataType {
    type V = DataTypeView;

    open spec fn deep_view(&self) -> DataTypeView {
        self@
    }
}

impl Clone for DataType {
    fn clone(&self) -> (copy: Self)
        ensures
            copy@ == self@,
    {
        match self {
            DataType::Utf8 => DataType::Utf8,
            DataType::LargeUtf8 => DataType::LargeUtf8,
            DataType::Utf8View => DataType::Utf8View,
            DataType::Int8 => DataType::Int8,
            DataType::Int16 => DataType::Int16,
            DataType::Int32 => DataType::Int32,
            DataType::Int64 => DataType::Int64,
            DataType::UInt8 => DataType::UInt8,
            DataType::UInt16 => DataType::UInt16,
            DataType::UInt32 => DataType::UInt32,
            DataType::UInt64 => DataType::UInt64,
            DataType::Other { display, debug } => DataType::Other {
                display: display.clone(),
                debug: debug.clone(),
            },
        }
    }
}

impl DataType {
    /// Whether the values of the type are texts.
    pub fn is_string(&self) -> (yes: bool)
        ensures
            yes == self@.is_string(),
    {
        match self {
            DataType::Utf8 | DataType::LargeUtf8 | DataType::Utf8View => true,
            _ => false,
        }
    }

    /// Whether the values of the type are integers, signed or unsigned.
    pub fn is_integer(&self) -> (yes: bool)
        ensures
            yes == self@.is_integer(),
    {
        match self {
            DataType::Int8 | DataType::Int16 | DataType::Int32 | DataType::Int64 => true,
            DataType::UInt8 | DataType::UInt16 | DataType::UInt32 | DataType::UInt64 => true,
            _ => false,
        }
    }

    fn name(&self) -> (name: &'static str)
        ensures
            name@ == self@.name(),
    {
        match self {
            DataType::Utf8 => "Utf8",
            DataType::LargeUtf8 => "LargeUtf8",
            DataType::Utf8View => "Utf8View",
            DataType::Int8 => "Int8",
            DataType::Int16 => "Int16",
            DataType::Int32 => "Int32",
            DataType::Int64 => "Int64",
            DataType::UInt8 => "UInt8",
            DataType::UInt16 => "UInt16",
            DataType::UInt32 => "UInt32",
            DataType::UInt64 => "UInt64",
            DataType::Other { .. } => "",
        }
    }

    /// The text in which Arrow displays the type.
    pub fn display_text(&self) -> (text: &str)
        ensures
            text@ == self@.display_text(),
    {
        match self {
            DataType::Other { display, .. } => display.as_str(),
            _ => self.name(),
        }
    }

    /// The text in which Arrow shows the type for debugging.
    pub fn debug_text(&self) -> (text: &str)
        ensures
            text@ == self@.debug_text(),
    {
        match self {
            DataType::Other { debug, .. } => debug.as_str(),
            _ => self.name(),
        }
    }
}

/// A single value.
#[derive(Debug)]
pub enum ScalarValue {
    Utf8(Option<String>),
    LargeUtf8(Option<String>),
    Utf8View(Option<String>),
    Int64(Option<i64>),
    /// A value of any other type, by the text in which DataFusion's `Debug` shows it.
    Other(String),
}

/// The view of a [`ScalarValue`].
pub enum ScalarView {
    Utf8(Option<Seq<char>>),
    LargeUtf8(Option<Seq<char>>),
    Utf8View(Option<Seq<char>>),
    Int64(Option<i64>),
    Other(Seq<char>),
}

impl View for ScalarValue {
    type V = ScalarView;

    open spec fn view(&self) -> ScalarView {
        match self {
            ScalarValue::Utf8(text) => ScalarView::Utf8(text.deep_view()),
            ScalarValue::LargeUtf8(text) => ScalarView::LargeUtf8(text.deep_view()),
            ScalarValue::Utf8View(text) => ScalarView::Utf8View(text.deep_view()),
            ScalarValue::Int64(number) => ScalarView::Int64(*number),
            ScalarValue::Other(text) => ScalarView::Other(text@),
        }
    }
}

/// The text in which DataFusion shows a 64-bit integer value for debugging.
pub open spec fn int64_debug(number: Option<i64>) -> Seq<char> {
    "Int64("@ + (match number {
        Some(n) => signed_decimal(n as int),
        None => "NULL"@,
    }) + ")"@
}

/// `Debug` of DataFusion's `ScalarValue` on a 64-bit integer: the number in decimal, or `NULL`,
/// in brackets after the name of the type.
#[verifier::external_body]
pub(crate) fn int64_debug_text(number: Option<i64>) -> (text: String)
    ensures
        text@ == int64_debug(number),
{
    format!("{:?}", datafusion_common::ScalarValue::Int64(number))
}

/// A column of values.
#[derive(Debug)]
pub enum Array {
    Utf8(Utf8Array),
    LargeUtf8(LargeUtf8Array),
    Utf8View(Utf8ViewArray),
    /// A column of any other type, by its type.
    Other(DataType),
}

/// The view of an [`Array`].
pub enum ArrayView {
    Utf8(Seq<Option<Seq<char>>>),
    LargeUtf8(Seq<Option<Seq<char>>>),
    Utf8View(Seq<Option<Seq<char>>>),
    Other(DataTypeView),
}

impl View for Array {
    type V = ArrayView;

    open spec fn view(&self) -> ArrayView {
        match self {
            Array::Utf8(array) => ArrayView::Utf8(array@),
            Array::LargeUtf8(array) => ArrayView::LargeUtf8(array@),
            Array::Utf8View(array) => ArrayView::Utf8View(array@),
            Array::Other(data_type) => ArrayView::Other(data_type@),
        }
    }
}

/// An argument or a result: a column, or one value that stands for every row.
#[derive(Debug)]
pub enum ColumnarValue {
    Array(Array),
    Scalar(ScalarValue),
}

/// The view of a [`ColumnarValue`].
pub enum ColumnarView {
    Array(ArrayView),
    Scalar(ScalarView),
}

impl View for ColumnarValue {
    type V = ColumnarView;

    open spec fn view(&self) -> ColumnarView {
        match self {
            ColumnarValue::Array(array) => ColumnarView::Array(array@),
            ColumnarValue::Scalar(scalar) => ColumnarView::Scalar(scalar@),
        }
    }
}

impl DeepView for ColumnarValue {
    type V = ColumnarView;

    open spec fn deep_view(&self) -> ColumnarView {
        self@
    }
}

/// How far the result of a function depends on more than its arguments.
#[derive(Clone, Copy, Debug, PartialEq, Eq, Structural)]
pub enum Volatility {
    /// The same arguments always give the same result.
    Immutable,
    /// The same arguments give the same result within one query.
    Stable,
    /// The same arguments may give another result each time.
    Volatile,
}

/// Who says which argument types a function takes.
#[derive(Clone, Copy, Debug, PartialEq, Eq, Structural)]
pub enum TypeSignature {
    /// The function itself, by coercing the types of its arguments.
    UserDefined,
}

/// What a planner knows of a function before it looks at the arguments.
#[derive(Clone, Copy, Debug, PartialEq, Eq, Structural)]
pub struct Signature {
    pub type_signature: TypeSignature,
    pub volatility: Volatility,
}

impl Signature {
    /// The signature of a function that coerces its argument types itself.
    pub fn user_defined(volatility: Volatility) -> (signature: Self)
        ensures
            signature.type_signature == TypeSignature::UserDefined,
            signature.volatility == volatility,
    {
        Signature { type_signature: TypeSignature::UserDefined, volatility }
    }
}

/// Why a call of the function fails.
#[derive(Debug)]
pub enum ExtractError {
    /// The arguments of an evaluation are wrong.
    Execution(String),
    /// The types of the arguments are wrong.
    Plan(String),
}

/// The view of an [`ExtractError`].
pub enum ExtractErrorView {
    Execution(Seq<char>),
    Plan(Seq<char>),
}

impl View for ExtractError {
    type V = ExtractErrorView;

    open spec fn view(&self) -> ExtractErrorView {
        match self {
            ExtractError::Execution(message) => ExtractErrorView::Execution(message@),
            ExtractError::Plan(message) => ExtractErrorView::Plan(message@),
        }
    }
}

/// The view of a result.
pub open spec fn outcome<T: DeepView>(result: Result<T, ExtractError>) -> Result<
    T::V,
    ExtractErrorView,
> {
    match result {
        Ok(value) => Ok(value.deep_view()),
        Err(error) => Err(error@),
    }
}

} // verus!
