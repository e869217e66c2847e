use regex::Regex;
use spark_regexp_extract::arrays::fits_utf8;
use spark_regexp_extract::{
    Array, ColumnarValue, DataType, ExtractError, Extracted, LargeUtf8Array, ScalarValue,
    SparkRegexpExtract, Utf8Array, Utf8ViewArray,
};

fn utf8(text: Option<&str>) -> ColumnarValue {
    ColumnarValue::Scalar(ScalarValue::Utf8(text.map(|t| t.to_string())))
}

fn int64(number: Option<i64>) -> ColumnarValue {
    ColumnarValue::Scalar(ScalarValue::Int64(number))
}

fn utf8_column(rows: Vec<Option<&str>>) -> ColumnarValue {
    ColumnarValue::Array(Array::Utf8(Utf8Array {
        values: arrow::array::StringArray::from(rows),
    }))
}

fn large_utf8_column(rows: Vec<Option<&str>>) -> ColumnarValue {
    ColumnarValue::Array(Array::LargeUtf8(LargeUtf8Array {
        values: arrow::array::LargeStringArray::from(rows),
    }))
}

fn utf8_view_column(rows: Vec<Option<&str>>) -> ColumnarValue {
    ColumnarValue::Array(Array::Utf8View(Utf8ViewArray {
        values: arrow::array::StringViewArray::from(rows),
    }))
}

fn scalar_of(value: ColumnarValue) -> Option<String> {
    match value {
        ColumnarValue::Scalar(ScalarValue::Utf8(text)) => text,
        other => panic!("Expected ScalarValue::Utf8, got {:?}", other),
    }
}

fn rows_of(value: ColumnarValue) -> Vec<Option<String>> {
    match value {
        ColumnarValue::Array(Array::Utf8(array)) => {
            array.values.iter().map(|row| row.map(|text| text.to_string())).collect()
        }
        other => panic!("Expected an Array result, got {:?}", other),
    }
}

fn owned(rows: Vec<Option<&str>>) -> Vec<Option<String>> {
    rows.into_iter().map(|row| row.map(|text| text.to_string())).collect()
}

fn execution_message(result: Result<ColumnarValue, ExtractError>) -> String {
    match result {
        Err(ExtractError::Execution(message)) => message,
        other => panic!("Expected an execution error, got {:?}", other),
    }
}

// Integration tests
#[test]
fn test_regexp_extract_scalar_invocation() {
    let invocation_args = [
        (Some("100-200".to_string()), Some(r"(\d+)-(\d+)".to_string()), Some(1)),
        (Some("foo".to_string()), Some(r"(\d+)".to_string()), Some(1)),
        (Some("aaaac".to_string()), Some("(a+)(b)?(c)".to_string()), Some(2)),
        (Some("abc".to_string()), Some(r"(a)(b)(c)".to_string()), Some(3)),
        (Some("xyz".to_string()), Some("abc".to_string()), Some(0)),
        (None, Some(r"(\d+)".to_string()), Some(1)),
        (Some("some text".to_string()), None, Some(1)),
    ];

    let expected = [Some("100"), Some(""), Some(""), Some("c"), Some(""), None, None];

    for i in 0..invocation_args.len() {
        let (input, pattern, idx) = &invocation_args[i];

        let args = vec![
            ColumnarValue::Scalar(ScalarValue::Utf8(input.clone())),
            ColumnarValue::Scalar(ScalarValue::Utf8(pattern.clone())),
            ColumnarValue::Scalar(ScalarValue::Int64(*idx)),
        ];

        let udf = SparkRegexpExtract::new();

        let res = udf.invoke_with_args(&args).unwrap();
        let found = match res {
            ColumnarValue::Scalar(ScalarValue::Utf8(found)) => found,
            _ => panic!("Expected ScalarValue::Utf8"),
        };
        assert_eq!(found.is_none(), expected[i].is_none(), "At index {i}");
        let actual = found.unwrap_or_default();
        let expected = expected[i].as_ref().map(|e| e.to_string()).unwrap_or_default();

        assert_eq!(expected, actual, "At index {i}: expected '{expected}', got '{actual}'");
    }
}

#[test]
fn test_regexp_extract_scalar_invocation_edge_cases() {
    // Integration test for various edge cases
    let invocation_args = [
        // Empty regex pattern
        (Some("abc".to_string()), Some("".to_string()), Some(0)),
        // Unicode characters
        (
            Some("こんにちは世界".to_string()),
            Some("(こんにちは)(世界)".to_string()),
            Some(2),
        ),
        // Emoji characters
        (Some("😀😃😄".to_string()), Some("(😀)(😃)(😄)".to_string()), Some(3)),
        // Extremely large index
        (Some("abc".to_string()), Some("(a)(b)(c)".to_string()), Some(999)),
        // Multiple matches (only first match is returned)
        (Some("abc abc abc".to_string()), Some("(abc)".to_string()), Some(1)),
        // Sequential capture groups (not truly overlapping)
        (Some("abcde".to_string()), Some("(a)(b)(c)(d)(e)".to_string()), Some(2)),
        // Nested capture groups
        (Some("abcde".to_string()), Some("(a(b(c)d)e)".to_string()), Some(3)),
        // Character classes
        (Some("abc123".to_string()), Some("([a-z]+)([0-9]+)".to_string()), Some(1)),
        // Special regex syntax - non-capturing group
        (Some("abc123".to_string()), Some("(a)(?:bc)(\\d+)".to_string()), Some(2)),
    ];

    let expected = [
        Some(""),
        Some("世界"),
        Some("😄"),
        Some(""),
        Some("abc"),
        Some("b"),
        Some("c"),
        Some("abc"),
        Some("123"),
    ];

    for i in 0..invocation_args.len() {
        let (input, pattern, idx) = &invocation_args[i];

        let args = vec![
            ColumnarValue::Scalar(ScalarValue::Utf8(input.clone())),
            ColumnarValue::Scalar(ScalarValue::Utf8(pattern.clone())),
            ColumnarValue::Scalar(ScalarValue::Int64(*idx)),
        ];

        let udf = SparkRegexpExtract::new();

        let res = udf.invoke_with_args(&args).unwrap();
        let actual = match res {
            ColumnarValue::Scalar(ScalarValue::Utf8(Some(s))) => s,
            ColumnarValue::Scalar(ScalarValue::Utf8(None)) => String::new(),
            _ => panic!("Expected ScalarValue::Utf8"),
        };
        let expected = expected[i].as_ref().map(|e| e.to_string()).unwrap_or_default();

        assert_eq!(expected, actual, "At index {i}: expected '{expected}', got '{actual}'");
    }
}

#[test]
fn test_regexp_extract_array_invocation() {
    let target_arr = utf8_column(vec![
        Some("100-200"),
        Some("300-400"),
        None,
        Some("500-600"),
        Some("700-800"),
    ]);

    let regexp = Some(r"(\d+)-(\d+)".to_string());
    let idx = Some(2); // expecting to extract the second group

    let expected = [
        Some("200".to_string()),
        Some("400".to_string()),
        None,
        Some("600".to_string()),
        Some("800".to_string()),
    ];

    let args = vec![
        target_arr,
        ColumnarValue::Scalar(ScalarValue::Utf8(regexp)),
        ColumnarValue::Scalar(ScalarValue::Int64(idx)),
    ];

    let udf = SparkRegexpExtract::new();
    let res = udf.invoke_with_args(&args).unwrap();
    let actual_arr = match res {
        ColumnarValue::Array(_) => rows_of(res),
        _ => panic!("Expected an Array result"),
    };

    assert_eq!(actual_arr.len(), expected.len());
    for i in 0..actual_arr.len() {
        if actual_arr[i].is_none() {
            assert!(expected[i].is_none(), "Expected None at index {i}");
        } else {
            // Sanity check
            assert!(expected[i].is_some(), "Expected Some at index {i}");

            let actual = actual_arr[i].as_ref().unwrap().as_str();
            let expected = expected[i].as_ref().unwrap().as_str();
            assert_eq!(
                actual, expected,
                "At index {i}: expected '{expected}', got '{actual}'"
            );
        }
    }
}

#[test]
fn every_string_column_is_read() {
    let rows = || vec![Some("k=v"), None, Some("none"), Some("a=b, c=d"), Some("")];
    let expected = owned(vec![Some("v"), None, Some(""), Some("b"), Some("")]);
    let udf = SparkRegexpExtract::new();
    for column in [utf8_column(rows()), large_utf8_column(rows()), utf8_view_column(rows())] {
        let args = vec![column, utf8(Some(r"(\w)=(\w)")), int64(Some(2))];
        assert_eq!(rows_of(udf.invoke_with_args(&args).unwrap()), expected);
        let checked = udf.try_invoke_with_args(&args).unwrap().unwrap();
        assert_eq!(rows_of(checked), expected);
    }
}

#[test]
fn empty_column_gives_empty_column() {
    let udf = SparkRegexpExtract::new();
    let args = vec![utf8_column(vec![]), utf8(Some("a")), int64(Some(0))];
    assert_eq!(rows_of(udf.invoke_with_args(&args).unwrap()), Vec::new());
}

#[test]
fn sliced_column_gives_its_own_rows() {
    let whole = arrow::array::StringArray::from(vec![Some("a1"), Some("b2"), None, Some("c3")]);
    let column = ColumnarValue::Array(Array::Utf8(Utf8Array { values: whole.slice(1, 3) }));
    let udf = SparkRegexpExtract::new();
    let args = vec![column, utf8(Some("\\d")), int64(Some(0))];
    assert_eq!(
        rows_of(udf.invoke_with_args(&args).unwrap()),
        owned(vec![Some("2"), None, Some("3")])
    );
}

#[test]
fn column_agrees_with_its_rows() {
    let rows = vec![Some("100-200"), Some("x"), None, Some("7-8")];
    let udf = SparkRegexpExtract::new();
    for idx in 0..4 {
        let args =
            vec![utf8_column(rows.clone()), utf8(Some(r"(\d+)-(\d+)")), int64(Some(idx))];
        let column = rows_of(udf.invoke_with_args(&args).unwrap());
        assert_eq!(column.len(), rows.len());
        for i in 0..rows.len() {
            let args = vec![utf8(rows[i]), utf8(Some(r"(\d+)-(\d+)")), int64(Some(idx))];
            assert_eq!(scalar_of(udf.invoke_with_args(&args).unwrap()), column[i]);
        }
    }
}

#[test]
fn parts_of_a_column_are_independent() {
    let first = vec![Some("a1"), None];
    let second = vec![Some("b"), Some("c3")];
    let udf = SparkRegexpExtract::new();
    let run = |rows: Vec<Option<&str>>| {
        let args = vec![utf8_column(rows), utf8(Some("[a-z](\\d)")), int64(Some(1))];
        rows_of(udf.invoke_with_args(&args).unwrap())
    };
    let mut parts = run(first.clone());
    parts.extend(run(second.clone()));
    let mut rows = first;
    rows.extend(second);
    assert_eq!(run(rows), parts);
}

#[test]
fn every_string_scalar_is_read() {
    let text = || Some("a-b".to_string());
    let pattern = || Some("(.)-(.)".to_string());
    let udf = SparkRegexpExtract::new();
    for value in [
        ScalarValue::Utf8(text()),
        ScalarValue::LargeUtf8(text()),
        ScalarValue::Utf8View(text()),
    ] {
        let args = vec![ColumnarValue::Scalar(value), utf8(Some("(.)-(.)")), int64(Some(2))];
        let found = scalar_of(udf.invoke_with_args(&args).unwrap());
        assert_eq!(found, Some("b".to_string()));
    }
    for value in [
        ScalarValue::Utf8(pattern()),
        ScalarValue::LargeUtf8(pattern()),
        ScalarValue::Utf8View(pattern()),
    ] {
        let args = vec![utf8(Some("a-b")), ColumnarValue::Scalar(value), int64(Some(1))];
        let found = scalar_of(udf.invoke_with_args(&args).unwrap());
        assert_eq!(found, Some("a".to_string()));
    }
    for value in [
        ScalarValue::Utf8(None),
        ScalarValue::LargeUtf8(None),
        ScalarValue::Utf8View(None),
    ] {
        let args = vec![ColumnarValue::Scalar(value), utf8(Some("a")), int64(Some(0))];
        assert_eq!(scalar_of(udf.invoke_with_args(&args).unwrap()), None);
    }
}

#[test]
fn bad_pattern_gives_null_before_anything_else_is_looked_at() {
    let udf = SparkRegexpExtract::new();
    let null_patterns = [
        ScalarValue::Utf8(None),
        ScalarValue::LargeUtf8(None),
        ScalarValue::Utf8View(None),
        ScalarValue::Utf8(Some("(".to_string())),
        ScalarValue::Utf8(Some("a{2,1}".to_string())),
    ];
    for pattern in null_patterns {
        let args = vec![int64(Some(5)), ColumnarValue::Scalar(pattern), int64(Some(-1))];
        assert_eq!(scalar_of(udf.invoke_with_args(&args).unwrap()), None);
    }
    let args = vec![utf8_column(vec![Some("a")]), utf8(Some("[")), int64(Some(0))];
    assert_eq!(scalar_of(udf.invoke_with_args(&args).unwrap()), None);
}

#[test]
fn compiled_pattern_decides() {
    let udf = SparkRegexpExtract::new();
    let refused = Regex::new("(");
    let result = udf.evaluate_compiled(&utf8(Some("a")), &refused, &int64(None)).unwrap();
    assert!(matches!(result, Extracted::Scalar(None)));

    let compiled = Regex::new("(a)(b)?");
    let value = utf8_column(vec![Some("ab"), None, Some("a")]);
    let result = udf.evaluate_compiled(&value, &compiled, &int64(Some(2))).unwrap();
    assert!(result.fits());
    match result {
        Extracted::Rows(rows) => assert_eq!(rows, owned(vec![Some("b"), None, Some("")])),
        other => panic!("Expected rows, got {:?}", other),
    }
}

#[test]
fn wrong_number_of_arguments_is_an_execution_error() {
    let udf = SparkRegexpExtract::new();
    let args = vec![utf8(Some("a")), utf8(Some("a"))];
    assert_eq!(
        execution_message(udf.invoke_with_args(&args)),
        "regexp_extract function requires 3 arguments, got 2"
    );
    assert_eq!(
        execution_message(udf.invoke_with_args(&[])),
        "regexp_extract function requires 3 arguments, got 0"
    );
    let args: Vec<ColumnarValue> = (0..12).map(|_| utf8(Some("a"))).collect();
    assert_eq!(
        execution_message(udf.try_invoke_with_args(&args).unwrap()),
        "regexp_extract function requires 3 arguments, got 12"
    );
}

#[test]
fn pattern_must_be_a_single_text() {
    let udf = SparkRegexpExtract::new();
    let expected = "'regexp' argument must be a scalar string for function `regexp_extract`";
    let patterns = [
        int64(Some(1)),
        utf8_column(vec![Some("a")]),
        ColumnarValue::Scalar(ScalarValue::Other("Boolean(true)".to_string())),
    ];
    for pattern in patterns {
        let args = vec![utf8(Some("a")), pattern, int64(Some(0))];
        assert_eq!(execution_message(udf.invoke_with_args(&args)), expected);
    }
}

#[test]
fn index_must_be_an_integer_that_is_not_negative() {
    let udf = SparkRegexpExtract::new();
    let args = vec![utf8(Some("a")), utf8(Some("a")), int64(Some(-1))];
    assert_eq!(
        execution_message(udf.invoke_with_args(&args)),
        "Index argument must be a non-negative integer for function `regexp_extract`"
    );
    let expected = "'idx' argument must be an integer for function `regexp_extract`";
    let indices = [
        int64(None),
        utf8(Some("1")),
        ColumnarValue::Scalar(ScalarValue::Other("Int32(1)".to_string())),
        ColumnarValue::Array(Array::Other(DataType::Int64)),
    ];
    for index in indices {
        // The index is looked at before the value to extract from.
        let args = vec![int64(Some(3)), utf8(Some("a")), index];
        assert_eq!(execution_message(udf.invoke_with_args(&args)), expected);
    }
}

#[test]
fn value_without_text_is_an_execution_error() {
    let udf = SparkRegexpExtract::new();
    let shown = |value: ColumnarValue| {
        let args = vec![value, utf8(Some("a")), int64(Some(0))];
        execution_message(udf.invoke_with_args(&args))
    };
    assert_eq!(
        shown(int64(Some(-120))),
        "Unsupported data type Scalar(Int64(-120)) for function `regexp_extract`"
    );
    assert_eq!(
        shown(int64(Some(0))),
        "Unsupported data type Scalar(Int64(0)) for function `regexp_extract`"
    );
    assert_eq!(
        shown(int64(Some(i64::MIN))),
        "Unsupported data type Scalar(Int64(-9223372036854775808)) for function `regexp_extract`"
    );
    assert_eq!(
        shown(int64(None)),
        "Unsupported data type Scalar(Int64(NULL)) for function `regexp_extract`"
    );
    assert_eq!(
        shown(ColumnarValue::Scalar(ScalarValue::Other("Boolean(true)".to_string()))),
        "Unsupported data type Scalar(Boolean(true)) for function `regexp_extract`"
    );
    assert_eq!(
        shown(ColumnarValue::Array(Array::Other(DataType::Int32))),
        "Unsupported data type Int32 for function `regexp_extract`"
    );
    let binary = DataType::Other {
        display: "shown to users".to_string(),
        debug: "Binary".to_string(),
    };
    assert_eq!(
        shown(ColumnarValue::Array(Array::Other(binary))),
        "Unsupported data type Binary for function `regexp_extract`"
    );
}

#[test]
fn short_rows_fit_into_an_array() {
    assert!(fits_utf8(&owned(vec![])));
    assert!(fits_utf8(&owned(vec![Some("abc"), None, Some("😀")])));
    assert!(Extracted::Scalar(None).fits());
}
