//! What holds of the function as a whole, proved of the specifications that its contracts use.

use crate::arrays::{row_bytes, total_bytes, MAX_UTF8_BYTES};
use crate::function::{
    coercion, compiled_evaluation, evaluation, extracted_rows, extraction, fits, function_name,
    index_argument, is_utf8_column, pattern_argument, result_type,
};
use crate::matching::{
    extracted, group_text, groups_of, is_match_in, is_substring, lemma_substring_transitive,
    regex_of,
};
use crate::text::{decimal, signed_decimal};
use crate::types::{
    int64_debug, ArrayView, ColumnarView, DataTypeView, ExtractErrorView, ScalarView,
};
use regex::Regex;
use vstd::prelude::*;
use vstd::utf8::encode_utf8;

verus! {

/// A column of texts of the given string type.
pub open spec fn text_column(data_type: DataTypeView, rows: Seq<Option<Seq<char>>>) -> ColumnarView
    recommends
        data_type.is_string(),
{
    match data_type {
        DataTypeView::LargeUtf8 => ColumnarView::Array(ArrayView::LargeUtf8(rows)),
        DataTypeView::Utf8View => ColumnarView::Array(ArrayView::Utf8View(rows)),
        _ => ColumnarView::Array(ArrayView::Utf8(rows)),
    }
}

/// A single text of the given string type.
pub open spec fn text_value(data_type: DataTypeView, text: Option<Seq<char>>) -> ColumnarView
    recommends
        data_type.is_string(),
{
    match data_type {
        DataTypeView::LargeUtf8 => ColumnarView::Scalar(ScalarView::LargeUtf8(text)),
        DataTypeView::Utf8View => ColumnarView::Scalar(ScalarView::Utf8View(text)),
        _ => ColumnarView::Scalar(ScalarView::Utf8(text)),
    }
}

/// The string type of a value that holds texts.
pub open spec fn string_type(value: ColumnarView) -> Option<DataTypeView> {
    match value {
        ColumnarView::Array(ArrayView::Utf8(_)) => Some(DataTypeView::Utf8),
        ColumnarView::Array(ArrayView::LargeUtf8(_)) => Some(DataTypeView::LargeUtf8),
        ColumnarView::Array(ArrayView::Utf8View(_)) => Some(DataTypeView::Utf8View),
        ColumnarView::Scalar(ScalarView::Utf8(_)) => Some(DataTypeView::Utf8),
        ColumnarView::Scalar(ScalarView::LargeUtf8(_)) => Some(DataTypeView::LargeUtf8),
        ColumnarView::Scalar(ScalarView::Utf8View(_)) => Some(DataTypeView::Utf8View),
        _ => None,
    }
}

/// Where the regular expression does not match, or the group that is asked for does not exist or
/// does not match, the extracted text is empty; otherwise it is the text of the group.
pub proof fn law_unmatched_group_is_empty(groups: Option<Seq<Option<Seq<char>>>>, idx: nat)
    ensures
        groups is None ==> group_text(groups, idx as int) == Seq::<char>::empty(),
        groups matches Some(all) ==> {
            &&& idx >= all.len() ==> group_text(groups, idx as int) == Seq::<char>::empty()
            &&& idx < all.len() && all[idx as int] is None ==> group_text(groups, idx as int)
                == Seq::<char>::empty()
            &&& idx < all.len() && all[idx as int] is Some ==> group_text(groups, idx as int)
                == all[idx as int]->0
        },
{
}

/// The text of any group is a part of the text of group 0, the whole match, which is a part of the
/// input. So no group is longer than the whole match, the whole match is no longer than the input,
/// and an empty match has no group with a text that is not empty.
pub proof fn law_group_is_part_of_match(
    groups: Option<Seq<Option<Seq<char>>>>,
    input: Seq<char>,
    idx: nat,
)
    requires
        groups matches Some(all) ==> is_match_in(all, input),
    ensures
        is_substring(group_text(groups, 0), input),
        is_substring(group_text(groups, idx as int), group_text(groups, 0)),
        is_substring(group_text(groups, idx as int), input),
        group_text(groups, idx as int).len() <= group_text(groups, 0).len() <= input.len(),
        group_text(groups, 0).len() == 0 ==> group_text(groups, idx as int).len() == 0,
{
    let whole = group_text(groups, 0);
    let text = group_text(groups, idx as int);
    assert(Seq::<char>::empty() =~= input.subrange(0, 0));
    assert(Seq::<char>::empty() =~= whole.subrange(0, 0));
    lemma_substring_transitive(text, whole, input);
}

/// A pattern that is null or no regular expression gives the null value, whatever the other two
/// arguments are.
pub proof fn law_bad_pattern_gives_null(args: Seq<ColumnarView>)
    requires
        args.len() == 3,
        pattern_argument(args[1]) matches Ok(pattern) && (pattern matches Some(text)
            ==> regex_of(text) is None),
    ensures
        evaluation(args) == Ok::<ColumnarView, ExtractErrorView>(
            ColumnarView::Scalar(ScalarView::Utf8(None)),
        ),
{
}

/// An evaluation succeeds on just these arguments: there are three of them, the pattern is a
/// single text, and the pattern is null or no regular expression, or the index is a single
/// integer that is not negative and the value to extract from holds texts.
pub proof fn law_success(args: Seq<ColumnarView>)
    ensures
        evaluation(args) is Ok <==> {
            &&& args.len() == 3
            &&& pattern_argument(args[1]) matches Ok(pattern)
            &&& {
                ||| pattern is None
                ||| regex_of(pattern->0) is None
                ||| {
                    &&& args[2] matches ColumnarView::Scalar(ScalarView::Int64(Some(idx)))
                    &&& idx >= 0
                    &&& string_type(args[0]) is Some
                }
            }
        },
        pattern_argument(args[1]) is Ok <==> (args[1] is Scalar && string_type(args[1]) is Some),
{
}

/// A failed evaluation reports an execution error, a failed coercion a planning error; both
/// refuse any number of arguments other than three.
pub proof fn law_errors(args: Seq<ColumnarView>, arg_types: Seq<DataTypeView>)
    ensures
        evaluation(args) matches Err(error) ==> error is Execution,
        coercion(arg_types) matches Err(error) ==> error is Plan,
        args.len() != 3 ==> evaluation(args) is Err,
        arg_types.len() != 3 ==> coercion(arg_types) is Err,
{
}

/// Extraction from a column is extraction from each of its rows: the result has as many rows, and
/// each is what the function gives for that row as a single value.
pub proof fn law_column_is_rowwise(
    data_type: DataTypeView,
    rows: Seq<Option<Seq<char>>>,
    pattern: ColumnarView,
    index: ColumnarView,
    texts: Seq<Option<Seq<char>>>,
)
    requires
        data_type.is_string(),
        evaluation(seq![text_column(data_type, rows), pattern, index]) == Ok::<
            ColumnarView,
            ExtractErrorView,
        >(text_column(DataTypeView::Utf8, texts)),
    ensures
        texts.len() == rows.len(),
        forall|i: int|
            0 <= i < rows.len() ==> evaluation(
                seq![text_value(data_type, #[trigger] rows[i]), pattern, index],
            ) == Ok::<ColumnarView, ExtractErrorView>(text_value(DataTypeView::Utf8, texts[i])),
        forall|i: int| 0 <= i < rows.len() ==> (#[trigger] texts[i] is None <==> rows[i] is None),
{
    let args = seq![text_column(data_type, rows), pattern, index];
    assert(args[0] == text_column(data_type, rows) && args[1] == pattern && args[2] == index);
    assert forall|i: int| 0 <= i < rows.len() implies evaluation(
        seq![text_value(data_type, #[trigger] rows[i]), pattern, index],
    ) == Ok::<ColumnarView, ExtractErrorView>(text_value(DataTypeView::Utf8, texts[i])) by {
        let one = seq![text_value(data_type, rows[i]), pattern, index];
        assert(one[0] == text_value(data_type, rows[i]) && one[1] == pattern && one[2] == index);
    }
}

/// A single text that is not null, a pattern that is a regular expression and an index that is
/// not negative give a text, never null; a null text gives null.
pub proof fn law_null_text_only_from_null(
    data_type: DataTypeView,
    text: Option<Seq<char>>,
    pattern: Seq<char>,
    pattern_type: DataTypeView,
    idx: i64,
)
    requires
        data_type.is_string(),
        pattern_type.is_string(),
        regex_of(pattern) is Some,
        idx >= 0,
    ensures
        evaluation(
            seq![
                text_value(data_type, text),
                text_value(pattern_type, Some(pattern)),
                ColumnarView::Scalar(ScalarView::Int64(Some(idx))),
            ],
        ) matches Ok(ColumnarView::Scalar(ScalarView::Utf8(found))) && (found is None
            <==> text is None),
{
    let args = seq![
        text_value(data_type, text),
        text_value(pattern_type, Some(pattern)),
        ColumnarView::Scalar(ScalarView::Int64(Some(idx))),
    ];
    assert(args[0] == text_value(data_type, text));
    assert(args[1] == text_value(pattern_type, Some(pattern)));
    assert(args[2] == ColumnarView::Scalar(ScalarView::Int64(Some(idx))));
}

/// The rows of a column do not influence each other: a column in two parts gives what its parts
/// give.
pub proof fn law_rows_are_independent(
    regex: Regex,
    first: Seq<Option<Seq<char>>>,
    second: Seq<Option<Seq<char>>>,
    idx: int,
)
    ensures
        extracted_rows(regex, first + second, idx) == extracted_rows(regex, first, idx)
            + extracted_rows(regex, second, idx),
{
    assert(extracted_rows(regex, first + second, idx) =~= extracted_rows(regex, first, idx)
        + extracted_rows(regex, second, idx));
}

/// The result does not depend on which of the string types the texts and the pattern have.
pub proof fn law_string_types_agree(
    data_type: DataTypeView,
    pattern_type: DataTypeView,
    rows: Seq<Option<Seq<char>>>,
    text: Option<Seq<char>>,
    pattern: Option<Seq<char>>,
    index: ColumnarView,
)
    requires
        data_type.is_string(),
        pattern_type.is_string(),
    ensures
        evaluation(seq![text_column(data_type, rows), text_value(pattern_type, pattern), index])
            == evaluation(
            seq![
                text_column(DataTypeView::Utf8, rows),
                text_value(DataTypeView::Utf8, pattern),
                index,
            ],
        ),
        evaluation(seq![text_value(data_type, text), text_value(pattern_type, pattern), index])
            == evaluation(
            seq![
                text_value(DataTypeView::Utf8, text),
                text_value(DataTypeView::Utf8, pattern),
                index,
            ],
        ),
{
}

/// A result is always a plain string column or value.
pub proof fn law_result_is_plain_string(args: Seq<ColumnarView>)
    ensures
        evaluation(args) matches Ok(value) ==> string_type(value) == Some(DataTypeView::Utf8),
{
}

/// A result has the type that was announced for it, unless the texts to extract from are large
/// strings.
pub proof fn law_result_has_announced_type(args: Seq<ColumnarView>, arg_type: DataTypeView)
    requires
        args.len() == 3,
        string_type(args[0]) == Some(arg_type),
        arg_type != DataTypeView::LargeUtf8,
    ensures
        evaluation(args) matches Ok(value) ==> string_type(value) is Some && result_type(arg_type)
            == Ok::<DataTypeView, ExtractErrorView>(string_type(value)->0),
{
}

/// Coercion keeps the types of the value and of the pattern, and turns an integer type of any
/// width into the type that an index has in an evaluation.
pub proof fn law_coercion(arg_types: Seq<DataTypeView>)
    ensures
        coercion(arg_types) is Ok <==> arg_types.len() == 3 && arg_types[1].is_string()
            && arg_types[2].is_integer(),
        coercion(arg_types) matches Ok(coerced) ==> {
            &&& coerced.len() == 3
            &&& coerced[0] == arg_types[0]
            &&& coerced[1] == arg_types[1]
            &&& coerced[2] == DataTypeView::Int64
        },
{
}

/// Coerced types need no further coercion.
pub proof fn law_coercion_is_idempotent(
    arg_types: Seq<DataTypeView>,
    coerced: Seq<DataTypeView>,
)
    requires
        coercion(arg_types) == Ok::<Seq<DataTypeView>, ExtractErrorView>(coerced),
    ensures
        coercion(coerced) == Ok::<Seq<DataTypeView>, ExtractErrorView>(coerced),
{
    assert(coerced =~= seq![coerced[0], coerced[1], DataTypeView::Int64]);
}

/// `text` is what group number `group` took in a match with these groups: the text of the group
/// where the match has that group and it took part, and otherwise no characters at all.
pub open spec fn is_text_of_group(
    text: Seq<char>,
    groups: Option<Seq<Option<Seq<char>>>>,
    group: int,
) -> bool {
    match groups {
        Some(all) if 0 <= group < all.len() && all[group] is Some => Some(text) == all[group],
        _ => text.len() == 0,
    }
}

/// `found` holds for each of `rows`, at the same place, what the given group of the first match of
/// `regex` in that row took, and null for a null row.
pub open spec fn is_rowwise_text_of_group(
    found: Seq<Option<Seq<char>>>,
    rows: Seq<Option<Seq<char>>>,
    regex: Regex,
    group: int,
) -> bool {
    &&& found.len() == rows.len()
    &&& forall|i: int|
        0 <= i < rows.len() ==> match rows[i] {
            Some(input) => {
                &&& #[trigger] found[i] matches Some(text)
                &&& is_text_of_group(text, groups_of(regex, input), group)
            },
            None => found[i] is None,
        }
}

/// The number of the group that an index asks for: the index itself, wherever the machine can
/// count that far.
pub open spec fn group_number(idx: i64) -> int {
    if idx <= usize::MAX {
        idx as int
    } else {
        (idx as usize) as int
    }
}

/// Parts of a text are what stands between a beginning and an end of it.
pub proof fn law_substring(text: Seq<char>, haystack: Seq<char>)
    ensures
        is_substring(text, haystack) <==> exists|before: Seq<char>, after: Seq<char>|
            haystack == #[trigger] (before + text + after),
{
    if is_substring(text, haystack) {
        let (start, end) = choose|start: int, end: int|
            0 <= start <= end <= haystack.len() && text == #[trigger] haystack.subrange(
                start,
                end,
            );
        let before = haystack.subrange(0, start);
        let after = haystack.subrange(end, haystack.len() as int);
        assert(haystack =~= before + text + after);
    }
    if exists|before: Seq<char>, after: Seq<char>| haystack == #[trigger] (before + text + after) {
        let (before, after) = choose|before: Seq<char>, after: Seq<char>|
            haystack == #[trigger] (before + text + after);
        assert(text =~= haystack.subrange(
            before.len() as int,
            (before.len() + text.len()) as int,
        ));
    }
}

/// The extracted text is the text that the group with the given number took in the first match of
/// the given regular expression in the given input.
pub proof fn law_extracted_text_is_that_of_the_group(regex: Regex, input: Seq<char>, idx: nat)
    ensures
        is_text_of_group(extracted(regex, input, idx as int), groups_of(regex, input), idx as int),
{
}

/// Extraction from a column of any of the three string types gives a plain string column with as
/// many rows, in which each row holds what the group took in the row at the same place.
pub proof fn law_extraction_from_column(
    value: ColumnarView,
    rows: Seq<Option<Seq<char>>>,
    regex: Regex,
    idx: nat,
)
    requires
        value == ColumnarView::Array(ArrayView::Utf8(rows)) || value == ColumnarView::Array(
            ArrayView::LargeUtf8(rows),
        ) || value == ColumnarView::Array(ArrayView::Utf8View(rows)),
    ensures
        extraction(value, regex, idx as int) matches Ok(
            ColumnarView::Array(ArrayView::Utf8(found)),
        ) && is_rowwise_text_of_group(found, rows, regex, idx as int),
{
}

/// Extraction from a single text of any of the three string types gives the text that the group
/// took in it, and null for a null text.
pub proof fn law_extraction_from_text(
    value: ColumnarView,
    text: Option<Seq<char>>,
    regex: Regex,
    idx: nat,
)
    requires
        value == ColumnarView::Scalar(ScalarView::Utf8(text)) || value == ColumnarView::Scalar(
            ScalarView::LargeUtf8(text),
        ) || value == ColumnarView::Scalar(ScalarView::Utf8View(text)),
    ensures
        extraction(value, regex, idx as int) matches Ok(
            ColumnarView::Scalar(ScalarView::Utf8(found)),
        ) && match text {
            Some(input) => {
                &&& found matches Some(part)
                &&& is_text_of_group(part, groups_of(regex, input), idx as int)
            },
            None => found is None,
        },
{
}

/// Extraction from anything but texts is refused, with a message that shows the type of a column
/// and the value of a scalar.
pub proof fn law_extraction_from_other_values(value: ColumnarView, regex: Regex, idx: int)
    ensures
        value matches ColumnarView::Array(ArrayView::Other(data_type)) ==> extraction(
            value,
            regex,
            idx,
        ) == Err::<ColumnarView, ExtractErrorView>(
            ExtractErrorView::Execution(
                "Unsupported data type "@ + data_type.debug_text()
                    + " for function `regexp_extract`"@,
            ),
        ),
        value matches ColumnarView::Scalar(ScalarView::Int64(number)) ==> extraction(
            value,
            regex,
            idx,
        ) == Err::<ColumnarView, ExtractErrorView>(
            ExtractErrorView::Execution(
                "Unsupported data type Scalar(Int64("@ + (match number {
                    Some(n) => signed_decimal(n as int),
                    None => "NULL"@,
                }) + ")) for function `regexp_extract`"@,
            ),
        ),
        value matches ColumnarView::Scalar(ScalarView::Other(shown)) ==> extraction(
            value,
            regex,
            idx,
        ) == Err::<ColumnarView, ExtractErrorView>(
            ExtractErrorView::Execution(
                "Unsupported data type Scalar("@ + shown + ") for function `regexp_extract`"@,
            ),
        ),
{
    reveal_strlit("Unsupported data type ");
    reveal_strlit("Unsupported data type Scalar(");
    reveal_strlit("Unsupported data type Scalar(Int64(");
    reveal_strlit("Scalar(");
    reveal_strlit("Int64(");
    reveal_strlit(")");
    reveal_strlit(" for function `");
    reveal_strlit("regexp_extract");
    reveal_strlit("`");
    reveal_strlit(" for function `regexp_extract`");
    reveal_strlit(") for function `regexp_extract`");
    reveal_strlit(")) for function `regexp_extract`");
    match value {
        ColumnarView::Array(ArrayView::Other(data_type)) => {
            let shown = data_type.debug_text();
            assert("Unsupported data type "@ + shown + " for function `"@ + "regexp_extract"@
                + "`"@ =~= "Unsupported data type "@ + shown
                + " for function `regexp_extract`"@);
        },
        ColumnarView::Scalar(ScalarView::Int64(number)) => {
            let shown = match number {
                Some(n) => signed_decimal(n as int),
                None => "NULL"@,
            };
            assert("Unsupported data type "@ + ("Scalar("@ + ("Int64("@ + shown + ")"@) + ")"@)
                + " for function `"@ + "regexp_extract"@ + "`"@
                =~= "Unsupported data type Scalar(Int64("@ + shown
                + ")) for function `regexp_extract`"@);
        },
        ColumnarView::Scalar(ScalarView::Other(shown)) => {
            assert("Unsupported data type "@ + ("Scalar("@ + shown + ")"@) + " for function `"@
                + "regexp_extract"@ + "`"@ =~= "Unsupported data type Scalar("@ + shown
                + ") for function `regexp_extract`"@);
        },
        _ => {},
    }
}

/// The pattern is the text of a single value of any of the three string types; anything else is
/// refused.
pub proof fn law_pattern_argument(value: ColumnarView)
    ensures
        value matches ColumnarView::Scalar(ScalarView::Utf8(text)) ==> pattern_argument(value)
            == Ok::<Option<Seq<char>>, ExtractErrorView>(text),
        value matches ColumnarView::Scalar(ScalarView::LargeUtf8(text)) ==> pattern_argument(value)
            == Ok::<Option<Seq<char>>, ExtractErrorView>(text),
        value matches ColumnarView::Scalar(ScalarView::Utf8View(text)) ==> pattern_argument(value)
            == Ok::<Option<Seq<char>>, ExtractErrorView>(text),
        (value is Array || value->Scalar_0 is Int64 || value->Scalar_0 is Other)
            ==> pattern_argument(value) == Err::<Option<Seq<char>>, ExtractErrorView>(
            ExtractErrorView::Execution(
                "'regexp' argument must be a scalar string for function `regexp_extract`"@,
            ),
        ),
{
    reveal_strlit("'regexp' argument must be a scalar string");
    reveal_strlit(" for function `");
    reveal_strlit("regexp_extract");
    reveal_strlit("`");
    reveal_strlit("'regexp' argument must be a scalar string for function `regexp_extract`");
    assert("'regexp' argument must be a scalar string"@ + " for function `"@ + "regexp_extract"@
        + "`"@ =~= "'regexp' argument must be a scalar string for function `regexp_extract`"@);
}

/// The index is the number that a single 64-bit integer holds, where it is not negative; a
/// negative number, null and anything else are refused.
pub proof fn law_index_argument(value: ColumnarView)
    ensures
        value matches ColumnarView::Scalar(ScalarView::Int64(Some(idx))) ==> {
            &&& idx >= 0 ==> (index_argument(value) matches Ok(index) && index == group_number(idx))
            &&& idx < 0 ==> index_argument(value) == Err::<usize, ExtractErrorView>(
                ExtractErrorView::Execution(
                    "Index argument must be a non-negative integer for function `regexp_extract`"@,
                ),
            )
        },
        (value is Array || value->Scalar_0 !is Int64 || value->Scalar_0->Int64_0 is None)
            ==> index_argument(value) == Err::<usize, ExtractErrorView>(
            ExtractErrorView::Execution(
                "'idx' argument must be an integer for function `regexp_extract`"@,
            ),
        ),
{
    reveal_strlit("Index argument must be a non-negative integer");
    reveal_strlit("'idx' argument must be an integer");
    reveal_strlit(" for function `");
    reveal_strlit("regexp_extract");
    reveal_strlit("`");
    reveal_strlit("Index argument must be a non-negative integer for function `regexp_extract`");
    reveal_strlit("'idx' argument must be an integer for function `regexp_extract`");
    assert("Index argument must be a non-negative integer"@ + " for function `"@
        + "regexp_extract"@ + "`"@
        =~= "Index argument must be a non-negative integer for function `regexp_extract`"@);
    assert("'idx' argument must be an integer"@ + " for function `"@ + "regexp_extract"@ + "`"@
        =~= "'idx' argument must be an integer for function `regexp_extract`"@);
}

/// Once a pattern is compiled, the evaluation gives null for a refused pattern and otherwise
/// extracts, with the compiled regular expression, the group with the number that the index holds;
/// an index that holds no such number is reported whatever the value to extract from is.
pub proof fn law_compiled_evaluation(
    value: ColumnarView,
    compiled: Option<Regex>,
    index: ColumnarView,
)
    ensures
        compiled is None ==> compiled_evaluation(value, compiled, index) == Ok::<
            ColumnarView,
            ExtractErrorView,
        >(ColumnarView::Scalar(ScalarView::Utf8(None))),
        compiled matches Some(regex) ==> match index {
            ColumnarView::Scalar(ScalarView::Int64(Some(idx))) if idx >= 0 => compiled_evaluation(
                value,
                compiled,
                index,
            ) == extraction(value, regex, group_number(idx)),
            ColumnarView::Scalar(ScalarView::Int64(Some(idx))) => compiled_evaluation(
                value,
                compiled,
                index,
            ) == Err::<ColumnarView, ExtractErrorView>(
                ExtractErrorView::Execution(
                    "Index argument must be a non-negative integer for function `regexp_extract`"@,
                ),
            ),
            _ => compiled_evaluation(value, compiled, index) == Err::<
                ColumnarView,
                ExtractErrorView,
            >(
                ExtractErrorView::Execution(
                    "'idx' argument must be an integer for function `regexp_extract`"@,
                ),
            ),
        },
{
    law_index_argument(index);
}

/// An evaluation on a column of texts, of any string type and any length, with a pattern that
/// compiles and an index that is not negative gives a plain string column with as many rows. Each
/// row holds what the group with the number of the index took in the first match of the regular
/// expression of exactly that pattern, and null stands for a null row.
pub proof fn law_column_evaluation(
    args: Seq<ColumnarView>,
    rows: Seq<Option<Seq<char>>>,
    pattern: Seq<char>,
    regex: Regex,
    idx: i64,
)
    requires
        args.len() == 3,
        args[0] == ColumnarView::Array(ArrayView::Utf8(rows)) || args[0] == ColumnarView::Array(
            ArrayView::LargeUtf8(rows),
        ) || args[0] == ColumnarView::Array(ArrayView::Utf8View(rows)),
        args[1] == ColumnarView::Scalar(ScalarView::Utf8(Some(pattern))) || args[1]
            == ColumnarView::Scalar(ScalarView::LargeUtf8(Some(pattern))) || args[1]
            == ColumnarView::Scalar(ScalarView::Utf8View(Some(pattern))),
        regex_of(pattern) == Some(regex),
        args[2] == ColumnarView::Scalar(ScalarView::Int64(Some(idx))),
        idx >= 0,
    ensures
        evaluation(args) matches Ok(ColumnarView::Array(ArrayView::Utf8(found)))
            && is_rowwise_text_of_group(found, rows, regex, group_number(idx)),
{
    law_compiled_evaluation(args[0], Some(regex), args[2]);
    law_extraction_from_column(args[0], rows, regex, group_number(idx) as nat);
}

/// An evaluation on a single text, of any string type, with a pattern that compiles and an index
/// that is not negative gives what the group with the number of the index took in the first match
/// of the regular expression of exactly that pattern, and null for a null text.
pub proof fn law_text_evaluation(
    args: Seq<ColumnarView>,
    text: Option<Seq<char>>,
    pattern: Seq<char>,
    regex: Regex,
    idx: i64,
)
    requires
        args.len() == 3,
        args[0] == ColumnarView::Scalar(ScalarView::Utf8(text)) || args[0] == ColumnarView::Scalar(
            ScalarView::LargeUtf8(text),
        ) || args[0] == ColumnarView::Scalar(ScalarView::Utf8View(text)),
        args[1] == ColumnarView::Scalar(ScalarView::Utf8(Some(pattern))) || args[1]
            == ColumnarView::Scalar(ScalarView::LargeUtf8(Some(pattern))) || args[1]
            == ColumnarView::Scalar(ScalarView::Utf8View(Some(pattern))),
        regex_of(pattern) == Some(regex),
        args[2] == ColumnarView::Scalar(ScalarView::Int64(Some(idx))),
        idx >= 0,
    ensures
        evaluation(args) matches Ok(ColumnarView::Scalar(ScalarView::Utf8(found))) && match text {
            Some(input) => {
                &&& found matches Some(part)
                &&& is_text_of_group(part, groups_of(regex, input), group_number(idx))
            },
            None => found is None,
        },
{
    law_compiled_evaluation(args[0], Some(regex), args[2]);
    law_extraction_from_text(args[0], text, regex, group_number(idx) as nat);
}

/// The arguments of an evaluation are looked at in one order. Their number comes first, and then
/// the pattern; a null pattern or one that does not compile ends the evaluation with null. The
/// index comes next, and the value to extract from last.
pub proof fn law_order_of_checks(args: Seq<ColumnarView>)
    ensures
        args.len() != 3 ==> evaluation(args) == Err::<ColumnarView, ExtractErrorView>(
            ExtractErrorView::Execution(
                "regexp_extract function requires 3 arguments, got "@ + decimal(args.len()),
            ),
        ),
        args.len() == 3 ==> match args[1] {
            ColumnarView::Scalar(ScalarView::Utf8(pattern)) | ColumnarView::Scalar(
                ScalarView::LargeUtf8(pattern),
            ) | ColumnarView::Scalar(ScalarView::Utf8View(pattern)) => match pattern {
                Some(source) => evaluation(args) == compiled_evaluation(
                    args[0],
                    regex_of(source),
                    args[2],
                ),
                None => evaluation(args) == Ok::<ColumnarView, ExtractErrorView>(
                    ColumnarView::Scalar(ScalarView::Utf8(None)),
                ),
            },
            _ => evaluation(args) == Err::<ColumnarView, ExtractErrorView>(
                ExtractErrorView::Execution(
                    "'regexp' argument must be a scalar string for function `regexp_extract`"@,
                ),
            ),
        },
{
    law_pattern_argument(args[1]);
    reveal_strlit("regexp_extract");
    reveal_strlit(" function requires 3 arguments, got ");
    reveal_strlit("regexp_extract function requires 3 arguments, got ");
    assert("regexp_extract"@ + " function requires 3 arguments, got "@ + decimal(args.len())
        =~= "regexp_extract function requires 3 arguments, got "@ + decimal(args.len()));
}

/// A result type is announced for the three string types and for no other type: large strings for
/// large strings, and plain strings for the other two. The refusal shows the type.
pub proof fn law_announced_type(arg_type: DataTypeView)
    ensures
        result_type(arg_type) is Ok <==> (arg_type == DataTypeView::Utf8 || arg_type
            == DataTypeView::LargeUtf8 || arg_type == DataTypeView::Utf8View),
        arg_type == DataTypeView::LargeUtf8 ==> result_type(arg_type) == Ok::<
            DataTypeView,
            ExtractErrorView,
        >(DataTypeView::LargeUtf8),
        arg_type == DataTypeView::Utf8 || arg_type == DataTypeView::Utf8View ==> result_type(
            arg_type,
        ) == Ok::<DataTypeView, ExtractErrorView>(DataTypeView::Utf8),
        result_type(arg_type) matches Err(error) ==> error == ExtractErrorView::Execution(
            "The regexp_extract function can only return strings. Got "@ + arg_type.display_text(),
        ),
{
}

/// Types are coerced where there are three of them, the second is one of the three string types
/// and the third is one of the eight integer types; the first may be any type. The first two stay
/// as they are, and the third becomes the 64-bit signed integer. The number of the types is looked
/// at first, then the type of the pattern, then that of the index.
pub proof fn law_coerced_types(arg_types: Seq<DataTypeView>)
    ensures
        arg_types.len() != 3 ==> coercion(arg_types) == Err::<Seq<DataTypeView>, ExtractErrorView>(
            ExtractErrorView::Plan(
                "The regexp_extract function requires 3 argument, but got "@ + decimal(
                    arg_types.len(),
                ) + "."@,
            ),
        ),
        arg_types.len() == 3 ==> match arg_types[1] {
            DataTypeView::Utf8 | DataTypeView::LargeUtf8 | DataTypeView::Utf8View => {
                match arg_types[2] {
                    DataTypeView::Int8
                    | DataTypeView::Int16
                    | DataTypeView::Int32
                    | DataTypeView::Int64
                    | DataTypeView::UInt8
                    | DataTypeView::UInt16
                    | DataTypeView::UInt32
                    | DataTypeView::UInt64 => {
                        &&& coercion(arg_types) matches Ok(coerced)
                        &&& coerced.len() == 3
                        &&& coerced[0] == arg_types[0]
                        &&& coerced[1] == arg_types[1]
                        &&& coerced[2] == DataTypeView::Int64
                    },
                    _ => coercion(arg_types) == Err::<Seq<DataTypeView>, ExtractErrorView>(
                        ExtractErrorView::Plan(
                            "'idx' argument must be an integer for function `regexp_extract`"@,
                        ),
                    ),
                }
            },
            _ => coercion(arg_types) == Err::<Seq<DataTypeView>, ExtractErrorView>(
                ExtractErrorView::Plan(
                    "'regexp' argument must be a string for function `regexp_extract`"@,
                ),
            ),
        },
{
    reveal_strlit("The ");
    reveal_strlit("regexp_extract");
    reveal_strlit(" function requires 3 argument, but got ");
    reveal_strlit("The regexp_extract function requires 3 argument, but got ");
    assert("The "@ + "regexp_extract"@ + " function requires 3 argument, but got "@
        =~= "The regexp_extract function requires 3 argument, but got "@);
    reveal_strlit("'regexp' argument must be a string");
    reveal_strlit("'idx' argument must be an integer");
    reveal_strlit(" for function `");
    reveal_strlit("`");
    reveal_strlit("'regexp' argument must be a string for function `regexp_extract`");
    reveal_strlit("'idx' argument must be an integer for function `regexp_extract`");
    assert("'regexp' argument must be a string"@ + " for function `"@ + "regexp_extract"@ + "`"@
        =~= "'regexp' argument must be a string for function `regexp_extract`"@);
    assert("'idx' argument must be an integer"@ + " for function `"@ + "regexp_extract"@ + "`"@
        =~= "'idx' argument must be an integer for function `regexp_extract`"@);
}

/// The string types are the three types of text, and the integer types the four signed and the
/// four unsigned ones.
pub proof fn law_kinds_of_types(data_type: DataTypeView)
    ensures
        data_type.is_string() <==> match data_type {
            DataTypeView::Utf8 | DataTypeView::LargeUtf8 | DataTypeView::Utf8View => true,
            _ => false,
        },
        data_type.is_integer() <==> match data_type {
            DataTypeView::Utf8 | DataTypeView::LargeUtf8 | DataTypeView::Utf8View => false,
            DataTypeView::Other { .. } => false,
            _ => true,
        },
{
}

/// A type is shown by its name, to users and for debugging alike; a type that is known by its two
/// texts alone is shown by these.
pub proof fn law_texts_of_types(data_type: DataTypeView)
    ensures
        data_type matches DataTypeView::Other { display, debug } ==> {
            &&& data_type.display_text() == display
            &&& data_type.debug_text() == debug
        },
        data_type !is Other ==> data_type.display_text() == data_type.debug_text(),
        data_type is Utf8 ==> data_type.debug_text() == "Utf8"@,
        data_type is LargeUtf8 ==> data_type.debug_text() == "LargeUtf8"@,
        data_type is Utf8View ==> data_type.debug_text() == "Utf8View"@,
        data_type is Int8 ==> data_type.debug_text() == "Int8"@,
        data_type is Int16 ==> data_type.debug_text() == "Int16"@,
        data_type is Int32 ==> data_type.debug_text() == "Int32"@,
        data_type is Int64 ==> data_type.debug_text() == "Int64"@,
        data_type is UInt8 ==> data_type.debug_text() == "UInt8"@,
        data_type is UInt16 ==> data_type.debug_text() == "UInt16"@,
        data_type is UInt32 ==> data_type.debug_text() == "UInt32"@,
        data_type is UInt64 ==> data_type.debug_text() == "UInt64"@,
{
}

/// Queries call the function by its name in Spark.
pub proof fn law_name()
    ensures
        function_name() == "regexp_extract"@,
{
}

/// The bytes of rows add up: none for no rows, and with one more row the bytes of its text in
/// UTF-8 more, none for a null row.
pub proof fn law_bytes_add_up(rows: Seq<Option<Seq<char>>>, text: Seq<char>)
    ensures
        total_bytes(Seq::<Option<Seq<char>>>::empty()) == 0,
        total_bytes(rows.push(None)) == total_bytes(rows),
        total_bytes(rows.push(Some(text))) == total_bytes(rows) + encode_utf8(text).len(),
        row_bytes(None) == 0,
        row_bytes(Some(text)) == encode_utf8(text).len(),
{
    assert(rows.push(None).drop_last() =~= rows);
    assert(rows.push(Some(text)).drop_last() =~= rows);
}

/// A result fits unless it is a string column whose text takes more bytes than the largest 32-bit
/// signed integer.
pub proof fn law_limit(result: Result<ColumnarView, ExtractErrorView>)
    ensures
        MAX_UTF8_BYTES == i32::MAX,
        fits(result) <==> (result matches Ok(ColumnarView::Array(ArrayView::Utf8(rows)))
            ==> total_bytes(rows) <= i32::MAX),
        result matches Ok(value) ==> (is_utf8_column(value) <==> (value is Array
            && value->Array_0 is Utf8)),
{
}

/// A decimal numeral has its digits in the order of their weight, and a minus sign stands in front
/// of the numeral of a negative number: the numeral of ten times a number and a digit is the
/// numeral of the number followed by the digit.
pub proof fn law_decimal(n: nat, d: nat)
    requires
        d < 10,
    ensures
        decimal(d) == seq![(('0' as int + d) as char)],
        n > 0 ==> decimal(10 * n + d) == decimal(n).push(('0' as int + d) as char),
        signed_decimal(n as int) == decimal(n),
        n > 0 ==> signed_decimal(-(n as int)) == seq!['-'] + decimal(n),
{
    assert(d == 0 || d == 1 || d == 2 || d == 3 || d == 4 || d == 5 || d == 6 || d == 7 || d == 8
        || d == 9);
    assert((10 * n + d) / 10 == n);
    assert((10 * n + d) % 10 == d);
}

/// A 64-bit integer value is shown by its type and its number, or by its type and `NULL`.
pub proof fn law_shown_integer(number: Option<i64>)
    ensures
        number matches Some(n) ==> int64_debug(number) == "Int64("@ + signed_decimal(n as int)
            + ")"@,
        number is None ==> int64_debug(number) == "Int64(NULL)"@,
{
    reveal_strlit("Int64(");
    reveal_strlit("NULL");
    reveal_strlit(")");
    reveal_strlit("Int64(NULL)");
    assert("Int64("@ + "NULL"@ + ")"@ =~= "Int64(NULL)"@);
}

} // verus!
