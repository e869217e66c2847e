//! Columns of text: the Arrow string arrays, the rows that they hold, and the bytes that the rows
//! take.

use vstd::prelude::*;
use vstd::utf8::encode_utf8;

verus! {

/// The most bytes of text that one Arrow array with 32-bit offsets holds.
pub const MAX_UTF8_BYTES: usize = 0x7fff_ffff;

/// An Arrow array of strings with 32-bit offsets.
#[verifier::external_body]
#[derive(Debug)]
pub struct Utf8Array {
    pub values: arrow::array::StringArray,
}

/// An Arrow array of strings with 64-bit offsets.
#[verifier::external_body]
#[derive(Debug)]
pub struct LargeUtf8Array {
    pub values: arrow::array::LargeStringArray,
}

/// An Arrow array of string views.
#[verifier::external_body]
#[derive(Debug)]
pub struct Utf8ViewArray {
    pub values: arrow::array::StringViewArray,
}

/// The rows of `array`, from first to last; a null row is `None`.
pub uninterp spec fn utf8_rows(array: Utf8Array) -> Seq<Option<Seq<char>>>;

/// The rows of `array`, from first to last; a null row is `None`.
pub uninterp spec fn large_utf8_rows(array: LargeUtf8Array) -> Seq<Option<Seq<char>>>;

/// The rows of `array`, from first to last; a null row is `None`.
pub uninterp spec fn utf8_view_rows(array: Utf8ViewArray) -> Seq<Option<Seq<char>>>;

impl View for Utf8Array {
    type V = Seq<Option<Seq<char>>>;

    open spec fn view(&self) -> Seq<Option<Seq<char>>> {
        utf8_rows(*self)
    }
}

impl View for LargeUtf8Array {
    type V = Seq<Option<Seq<char>>>;

    open spec fn view(&self) -> Seq<Option<Seq<char>>> {
        large_utf8_rows(*self)
    }
}

impl View for Utf8ViewArray {
    type V = Seq<Option<Seq<char>>>;

    open spec fn view(&self) -> Seq<Option<Seq<char>>> {
        utf8_view_rows(*self)
    }
}

/// The bytes of text in one row; a null row has none.
pub open spec fn row_bytes(row: Option<Seq<char>>) -> nat {
    match row {
        Some(text) => encode_utf8(text).len(),
        None => 0,
    }
}

/// The bytes of text in all rows together.
pub open spec fn total_bytes(rows: Seq<Option<Seq<char>>>) -> nat
    decreases rows.len(),
{
    if rows.len() == 0 {
        0
    } else {
        total_bytes(rows.drop_last()) + row_bytes(rows.last())
    }
}

/// `GenericByteArray::iter` on an array with 32-bit offsets: its rows in order, `None` for a null
/// one. The offsets of such an array never decrease and end at or below the largest `i32`, so its
/// text takes no more bytes than that.
#[verifier::external_body]
pub(crate) fn read_utf8(array: &Utf8Array) -> (rows: Vec<Option<&str>>)
    ensures
        rows.deep_view() == utf8_rows(*array),
        total_bytes(rows.deep_view()) <= MAX_UTF8_BYTES,
{
    array.values.iter().collect()
}

/// `GenericByteArray::iter` on an array with 64-bit offsets: its rows in order, `None` for a null
/// one.
#[verifier::external_body]
pub(crate) fn read_large_utf8(array: &LargeUtf8Array) -> (rows: Vec<Option<&str>>)
    ensures
        rows.deep_view() == large_utf8_rows(*array),
{
    array.values.iter().collect()
}

/// `GenericByteViewArray::iter`: the rows of a view array in order, `None` for a null one.
#[verifier::external_body]
pub(crate) fn read_utf8_view(array: &Utf8ViewArray) -> (rows: Vec<Option<&str>>)
    ensures
        rows.deep_view() == utf8_view_rows(*array),
{
    array.values.iter().collect()
}

/// The `FromIterator` of Arrow's `StringArray`: an array of the given rows in the given order,
/// with a null row for each `None`. It panics where the rows take more bytes than a 32-bit offset
/// can count.
#[verifier::external_body]
pub(crate) fn collect_utf8(rows: Vec<Option<String>>) -> (array: Utf8Array)
    requires
        total_bytes(rows.deep_view()) <= MAX_UTF8_BYTES,
    ensures
        utf8_rows(array) == rows.deep_view(),
{
    Utf8Array { values: rows.into_iter().collect() }
}

/// Whether the rows fit into one array with 32-bit offsets.
pub fn fits_utf8(rows: &Vec<Option<String>>) -> (fits: bool)
    ensures
        fits == (total_bytes(rows.deep_view()) <= MAX_UTF8_BYTES),
{
    let ghost all = rows.deep_view();
    let mut total: usize = 0;
    for i in 0..rows.len()
        invariant
            all == rows.deep_view(),
            total == total_bytes(all.take(i as int)),
            total <= MAX_UTF8_BYTES,
    {
        let bytes: usize = match &rows[i] {
            Some(text) => text.as_str().as_bytes().len(),
            None => 0,
        };
        proof {
            assert(all.take(i + 1).drop_last() =~= all.take(i as int));
            assert(all.take(i + 1).last() == rows[i as int].deep_view());
            assert(total_bytes(all.take(i + 1)) == total + bytes);
        }
        if bytes > MAX_UTF8_BYTES - total {
            proof {
                lemma_total_bytes_take(all, i + 1);
            }
            return false;
        }
        total = total + bytes;
    }
    assert(all.take(rows.len() as int) =~= all);
    true
}

/// The first `n` rows take no more bytes than all of them.
proof fn lemma_total_bytes_take(rows: Seq<Option<Seq<char>>>, n: int)
    requires
        0 <= n <= rows.len(),
    ensures
        total_bytes(rows.take(n)) <= total_bytes(rows),
    decreases rows.len(),
{
    if n == rows.len() {
        assert(rows.take(n) =~= rows);
    } else {
        assert(rows.drop_last().take(n) =~= rows.take(n));
        lemma_total_bytes_take(rows.drop_last(), n);
    }
}

/// Rows that take no more bytes than the rows at the same places take no more bytes together.
pub(crate) proof fn lemma_total_bytes_mono(
    small: Seq<Option<Seq<char>>>,
    large: Seq<Option<Seq<char>>>,
)
    requires
        small.len() == large.len(),
        forall|i: int| 0 <= i < small.len() ==> row_bytes(#[trigger] small[i]) <= row_bytes(large[i]),
    ensures
        total_bytes(small) <= total_bytes(large),
    decreases small.len(),
{
    if small.len() > 0 {
        lemma_total_bytes_mono(small.drop_last(), large.drop_last());
    }
}

} // verus!
