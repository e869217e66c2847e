//! The first match of a regular expression in a text, and the group that a caller asks for.

use crate::laws::law_group_is_part_of_match;
use regex::Regex;
use vstd::prelude::*;
use vstd::utf8::encode_utf8;

verus! {

/// A compiled regular expression of the `regex` crate.
#[verifier::external_type_specification]
#[verifier::external_body]
pub struct ExRegex(Regex);

/// The reason for which the `regex` crate refuses a pattern.
#[verifier::external_type_specification]
#[verifier::external_body]
pub struct ExRegexError(regex::Error);

/// The regular expression that `Regex::new` compiles from `pattern`, or `None` where it refuses
/// the pattern.
pub uninterp spec fn regex_of(pattern: Seq<char>) -> Option<Regex>;

/// The groups of the match that `Regex::captures` finds in `haystack`, in the order of their
/// opening parentheses with the whole match at index 0, or `None` where nothing matches. A group
/// that took no part in the match is `None`.
pub uninterp spec fn groups_of(regex: Regex, haystack: Seq<char>) -> Option<
    Seq<Option<Seq<char>>>,
>;

/// `Regex::new` compiles a pattern under the default settings of the `regex` crate, its default
/// size limit among them. What it returns depends on the pattern alone within one build; as the
/// limit counts bytes of memory, a pattern close to it may compile on a 32-bit machine only. Why a
/// pattern is refused is not stated.
pub assume_specification[ Regex::new ](re: &str) -> (compiled: Result<Regex, regex::Error>)
    ensures
        match compiled {
            Ok(regex) => regex_of(re@) == Some(regex),
            Err(_) => regex_of(re@) is None,
        },
;

/// `text` stands somewhere in `haystack` without a gap.
pub open spec fn is_substring(text: Seq<char>, haystack: Seq<char>) -> bool {
    exists|start: int, end: int|
        0 <= start <= end <= haystack.len() && text == #[trigger] haystack.subrange(start, end)
}

/// The groups of a match in `haystack`: group 0 takes part in every match and is a part of
/// `haystack`, the whole match; each group that takes part in the match is a part of group 0.
pub open spec fn is_match_in(groups: Seq<Option<Seq<char>>>, haystack: Seq<char>) -> bool {
    &&& groups.len() > 0
    &&& groups[0] matches Some(whole)
    &&& is_substring(whole, haystack)
    &&& forall|i: int|
        0 <= i < groups.len() ==> (#[trigger] groups[i] matches Some(text) ==> is_substring(
            text,
            whole,
        ))
}

/// `Regex::captures`, with the groups of `Captures::iter` handed out as the parts of `haystack`
/// that they matched (`Match::as_str`). A match has a group 0, which always takes part in it and
/// matched a part of `haystack`. Each group that takes part in the match lies within group 0: a
/// pattern is compiled as the inside of group 0, and each engine that resolves groups notes their
/// bounds, one after the other, on its way from the start of group 0 to its end.
#[verifier::external_body]
fn captures<'h>(regex: &Regex, haystack: &'h str) -> (groups: Option<Vec<Option<&'h str>>>)
    ensures
        groups.deep_view() == groups_of(*regex, haystack@),
        groups.deep_view() matches Some(all) ==> is_match_in(all, haystack@),
{
    let captures = regex.captures(haystack)?;
    Some(captures.iter().map(|group| group.map(|found| found.as_str())).collect())
}

/// The text of group `idx`, and the empty text where there is no match, no such group, or where
/// the group took no part in the match.
pub open spec fn group_text(groups: Option<Seq<Option<Seq<char>>>>, idx: int) -> Seq<char> {
    match groups {
        Some(all) => if 0 <= idx < all.len() && all[idx] is Some {
            all[idx]->0
        } else {
            Seq::empty()
        },
        None => Seq::empty(),
    }
}

/// The text that group `idx` of the first match of `regex` takes in `input`.
pub open spec fn extracted(regex: Regex, input: Seq<char>, idx: int) -> Seq<char> {
    group_text(groups_of(regex, input), idx)
}

/// Picks the text of group `idx` out of the groups of a match.
pub fn select_group(groups: &Option<Vec<Option<&str>>>, idx: usize) -> (text: String)
    ensures
        text@ == group_text(groups.deep_view(), idx as int),
        groups.deep_view() is None ==> text@.len() == 0,
        groups.deep_view() matches Some(all) ==> if idx < all.len() && all[idx as int] is Some {
            Some(text@) == all[idx as int]
        } else {
            text@.len() == 0
        },
{
    match groups {
        Some(all) => {
            assert(groups.deep_view()->0 == all.deep_view());
            if idx < all.len() {
                match all[idx] {
                    Some(text) => text.to_string(),
                    None => String::new(),
                }
            } else {
                String::new()
            }
        },
        None => String::new(),
    }
}

/// Extracts the text that group `idx` of the first match of `regex` takes in `input`; group 0 is
/// the whole match. Where the regular expression or the group does not match, the text is empty.
pub fn regexp_extract_impl(input: &str, regex: &Regex, idx: usize) -> (text: String)
    ensures
        text@ == extracted(*regex, input@, idx as int),
        groups_of(*regex, input@) is None ==> text@.len() == 0,
        groups_of(*regex, input@) matches Some(all) ==> if idx < all.len()
            && all[idx as int] is Some {
            Some(text@) == all[idx as int]
        } else {
            text@.len() == 0
        },
        idx == 0 ==> (groups_of(*regex, input@) matches Some(groups) ==> {
            &&& groups.len() > 0
            &&& groups[0] == Some(text@)
        }),
        is_substring(text@, extracted(*regex, input@, 0)),
        is_substring(extracted(*regex, input@, 0), input@),
        is_substring(text@, input@),
        encode_utf8(text@).len() <= encode_utf8(input@).len(),
{
    let groups = captures(regex, input);
    let text = select_group(&groups, idx);
    proof {
        law_group_is_part_of_match(groups.deep_view(), input@, idx as nat);
        lemma_substring_bytes(text@, input@);
    }
    text
}

/// A part of a part is a part.
pub(crate) proof fn lemma_substring_transitive(
    text: Seq<char>,
    whole: Seq<char>,
    haystack: Seq<char>,
)
    requires
        is_substring(text, whole),
        is_substring(whole, haystack),
    ensures
        is_substring(text, haystack),
{
    let (start, end) = choose|start: int, end: int|
        0 <= start <= end <= whole.len() && text == #[trigger] whole.subrange(start, end);
    let (from, to) = choose|from: int, to: int|
        0 <= from <= to <= haystack.len() && whole == #[trigger] haystack.subrange(from, to);
    assert(text =~= haystack.subrange(from + start, from + end));
}

proof fn lemma_encode_concat(left: Seq<char>, right: Seq<char>)
    ensures
        encode_utf8(left + right) == encode_utf8(left) + encode_utf8(right),
    decreases left.len(),
{
    if left.len() == 0 {
        assert(left + right =~= right);
    } else {
        assert((left + right).drop_first() =~= left.drop_first() + right);
        lemma_encode_concat(left.drop_first(), right);
    }
}

/// A part of a text takes no more bytes in UTF-8 than the text itself.
proof fn lemma_substring_bytes(text: Seq<char>, haystack: Seq<char>)
    requires
        is_substring(text, haystack),
    ensures
        encode_utf8(text).len() <= encode_utf8(haystack).len(),
{
    let (start, end) = choose|start: int, end: int|
        0 <= start <= end <= haystack.len() && text == #[trigger] haystack.subrange(start, end);
    let head = haystack.subrange(0, start);
    let tail = haystack.subrange(end, haystack.len() as int);
    assert(haystack =~= head + (text + tail));
    lemma_encode_concat(head, text + tail);
    lemma_encode_concat(text, tail);
}

} // verus!
