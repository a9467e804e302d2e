//! Text operations on device and rule names.
//!
//! Names are compared as sequences of characters. The executable functions
//! here hand the work to the standard library; their contracts say, over the
//! character sequences, what the standard library documents.

use vstd::prelude::*;

verus! {

/// `needle` stands in `haystack` at position `at`.
pub open spec fn occurs_at(haystack: Seq<char>, needle: Seq<char>, at: int) -> bool {
    &&& 0 <= at
    &&& at + needle.len() <= haystack.len()
    &&& haystack.subrange(at, at + needle.len()) == needle
}

/// `needle` is a contiguous part of `haystack`.
pub open spec fn contains_text(haystack: Seq<char>, needle: Seq<char>) -> bool {
    exists|at: int| occurs_at(haystack, needle, at)
}

/// `text` begins with `prefix`.
pub open spec fn starts_with_text(text: Seq<char>, prefix: Seq<char>) -> bool {
    occurs_at(text, prefix, 0)
}

/// `text` ends with `suffix`.
pub open spec fn ends_with_text(text: Seq<char>, suffix: Seq<char>) -> bool {
    occurs_at(text, suffix, text.len() - suffix.len())
}

/// The lower-case form of a text, as `str::to_lowercase` computes it.
pub uninterp spec fn lowercase_of(text: Seq<char>) -> Seq<char>;

/// Whether a character is white space, as `str::trim` understands it:
/// whether it has the Unicode property `White_Space`.
pub open spec fn is_whitespace(c: char) -> bool {
    let code = c as u32;
    ||| 0x09 <= code <= 0x0D
    ||| code == 0x20
    ||| code == 0x85
    ||| code == 0xA0
    ||| code == 0x1680
    ||| 0x2000 <= code <= 0x200A
    ||| code == 0x2028
    ||| code == 0x2029
    ||| code == 0x202F
    ||| code == 0x205F
    ||| code == 0x3000
}

/// What is left of a text without the white space at either end neither
/// begins nor ends with white space.
pub proof fn lemma_trimmed_text(text: Seq<char>)
    ensures
        trimmed_text(text).len() > 0 ==> !is_whitespace(trimmed_text(text).first())
            && !is_whitespace(trimmed_text(text).last()),
{
    lemma_leading_skipped(text);
    let inner = skip_leading_whitespace(text);
    lemma_trailing_skipped(inner);
}

/// What is left without the leading white space does not begin with any
/// and is an end of the text.
proof fn lemma_leading_skipped(text: Seq<char>)
    ensures
        skip_leading_whitespace(text).len() > 0 ==> !is_whitespace(
            skip_leading_whitespace(text).first(),
        ),
        skip_leading_whitespace(text).len() <= text.len(),
        skip_leading_whitespace(text) == text.subrange(
            text.len() - skip_leading_whitespace(text).len(),
            text.len() as int,
        ),
    decreases text.len(),
{
    if text.len() > 0 && is_whitespace(text[0]) {
        let rest = text.drop_first();
        lemma_leading_skipped(rest);
        let kept = skip_leading_whitespace(rest);
        assert(rest.subrange(rest.len() - kept.len(), rest.len() as int) =~= text.subrange(
            text.len() - kept.len(),
            text.len() as int,
        ));
    } else {
        assert(text.subrange(0, text.len() as int) =~= text);
    }
}

/// What is left without the trailing white space does not end with any
/// and is a beginning of the text.
proof fn lemma_trailing_skipped(text: Seq<char>)
    ensures
        skip_trailing_whitespace(text).len() > 0 ==> !is_whitespace(
            skip_trailing_whitespace(text).last(),
        ),
        skip_trailing_whitespace(text).len() <= text.len(),
        skip_trailing_whitespace(text) == text.subrange(
            0,
            skip_trailing_whitespace(text).len() as int,
        ),
    decreases text.len(),
{
    if text.len() > 0 && is_whitespace(text.last()) {
        let rest = text.drop_last();
        lemma_trailing_skipped(rest);
        let kept = skip_trailing_whitespace(rest);
        assert(rest.subrange(0, kept.len() as int) =~= text.subrange(0, kept.len() as int));
    } else {
        assert(text.subrange(0, text.len() as int) =~= text);
    }
}

/// `text` without the white space it begins with.
pub open spec fn skip_leading_whitespace(text: Seq<char>) -> Seq<char>
    decreases text.len(),
{
    if text.len() > 0 && is_whitespace(text[0]) {
        skip_leading_whitespace(text.drop_first())
    } else {
        text
    }
}

/// `text` without the white space it ends with.
pub open spec fn skip_trailing_whitespace(text: Seq<char>) -> Seq<char>
    decreases text.len(),
{
    if text.len() > 0 && is_whitespace(text.last()) {
        skip_trailing_whitespace(text.drop_last())
    } else {
        text
    }
}

/// `text` without the white space at either end.
pub open spec fn trimmed_text(text: Seq<char>) -> Seq<char> {
    skip_trailing_whitespace(skip_leading_whitespace(text))
}

/// The part of `text` before the first `delimiter`; all of `text` where
/// the delimiter does not occur.
pub open spec fn prefix_before(text: Seq<char>, delimiter: char) -> Seq<char>
    decreases text.len(),
{
    if text.len() == 0 || text[0] == delimiter {
        Seq::empty()
    } else {
        seq![text[0]] + prefix_before(text.drop_first(), delimiter)
    }
}

/// A text in which the delimiter does not occur is its own prefix.
pub proof fn lemma_prefix_before_absent(text: Seq<char>, delimiter: char)
    requires
        !text.contains(delimiter),
    ensures
        prefix_before(text, delimiter) == text,
    decreases text.len(),
{
    if text.len() > 0 {
        assert(text[0] != delimiter);
        let rest = text.drop_first();
        assert forall|k: int| 0 <= k < rest.len() implies rest[k] != delimiter by {
            assert(rest[k] == text[k + 1]);
        }
        lemma_prefix_before_absent(rest, delimiter);
        assert(seq![text[0]] + rest == text);
    }
}

/// Where a text is cut at a delimiter and the first part holds none, the
/// first part is the prefix before the delimiter.
pub proof fn lemma_prefix_before_split(head: Seq<char>, delimiter: char, tail: Seq<char>)
    requires
        !head.contains(delimiter),
    ensures
        prefix_before(head + seq![delimiter] + tail, delimiter) == head,
    decreases head.len(),
{
    let text = head + seq![delimiter] + tail;
    if head.len() == 0 {
        assert(text[0] == delimiter);
        assert(head == Seq::<char>::empty());
    } else {
        assert(text[0] == head[0]);
        assert(head[0] != delimiter);
        let rest = head.drop_first();
        assert forall|k: int| 0 <= k < rest.len() implies rest[k] != delimiter by {
            assert(rest[k] == head[k + 1]);
        }
        lemma_prefix_before_split(rest, delimiter, tail);
        assert(text.drop_first() == rest + seq![delimiter] + tail);
        assert(seq![head[0]] + rest == head);
    }
}

/// Calls `str::contains` with a text pattern: whether `needle` matches a
/// part of `haystack`.
#[verifier::external_body]
pub(crate) fn contains(haystack: &str, needle: &str) -> (found: bool)
    ensures
        found == contains_text(haystack@, needle@),
{
    haystack.contains(needle)
}

/// Calls `str::starts_with` with a text pattern: whether `prefix` matches
/// the beginning of `text`.
#[verifier::external_body]
pub(crate) fn starts_with(text: &str, prefix: &str) -> (found: bool)
    ensures
        found == starts_with_text(text@, prefix@),
{
    text.starts_with(prefix)
}

/// Calls `str::ends_with` with a text pattern: whether `suffix` matches
/// the end of `text`.
#[verifier::external_body]
pub(crate) fn ends_with(text: &str, suffix: &str) -> (found: bool)
    ensures
        found == ends_with_text(text@, suffix@),
{
    text.ends_with(suffix)
}

/// Calls `str::to_lowercase`. The result is a function of the text alone;
/// the contract gives it a name and claims nothing else of it.
#[verifier::external_body]
pub(crate) fn lowercase(text: &str) -> (lowered: String)
    ensures
        lowered@ == lowercase_of(text@),
{
    text.to_lowercase()
}

/// Calls `str::trim`: the text with leading and trailing white space
/// removed.
#[verifier::external_body]
pub(crate) fn trim(text: &str) -> (trimmed: &str)
    ensures
        trimmed@ == trimmed_text(text@),
{
    text.trim()
}

/// Calls `str::split_once` with a character: the parts before and after
/// the first occurrence of `delimiter`, or `None` where there is none.
#[verifier::external_body]
pub(crate) fn split_once(text: &str, delimiter: char) -> (parts: Option<(&str, &str)>)
    ensures
        match parts {
            Some((head, tail)) => {
                &&& text@ == head@ + seq![delimiter] + tail@
                &&& !head@.contains(delimiter)
            },
            None => !text@.contains(delimiter),
        },
{
    text.split_once(delimiter)
}

/// The part of `text` before the first `delimiter`.
pub fn before_first<'a>(text: &'a str, delimiter: char) -> (prefix: &'a str)
    ensures
        prefix@ == prefix_before(text@, delimiter),
{
    match split_once(text, delimiter) {
        Some((head, tail)) => {
            proof {
                lemma_prefix_before_split(head@, delimiter, tail@);
            }
            head
        },
        None => {
            proof {
                lemma_prefix_before_absent(text@, delimiter);
            }
            text
        },
    }
}

/// The views of a list of texts, in order.
pub open spec fn text_views(texts: Seq<String>) -> Seq<Seq<char>> {
    texts.map_values(|text: String| text@)
}

/// The order of texts: character by character, by code point; a text
/// comes before every text that it begins.
pub open spec fn text_le(left: Seq<char>, right: Seq<char>) -> bool
    decreases left.len(),
{
    if left.len() == 0 {
        true
    } else if right.len() == 0 {
        false
    } else if left[0] != right[0] {
        (left[0] as u32) < (right[0] as u32)
    } else {
        text_le(left.drop_first(), right.drop_first())
    }
}

/// Whether a list of texts is in ascending order.
pub open spec fn is_sorted(texts: Seq<Seq<char>>) -> bool {
    forall|i: int, j: int|
        0 <= i <= j < texts.len() ==> text_le(#[trigger] texts[i], #[trigger] texts[j])
}

/// The order of texts as a relation.
pub open spec fn text_order() -> spec_fn(Seq<char>, Seq<char>) -> bool {
    |left: Seq<char>, right: Seq<char>| text_le(left, right)
}

/// A list of texts in ascending order.
pub open spec fn sorted_texts(texts: Seq<Seq<char>>) -> Seq<Seq<char>> {
    texts.sort_by(text_order())
}

/// Every text comes no later than itself.
pub proof fn lemma_text_le_reflexive(text: Seq<char>)
    ensures
        text_le(text, text),
    decreases text.len(),
{
    if text.len() > 0 {
        lemma_text_le_reflexive(text.drop_first());
    }
}

/// Two texts that come no later than one another are the same text.
pub proof fn lemma_text_le_antisymmetric(left: Seq<char>, right: Seq<char>)
    requires
        text_le(left, right),
        text_le(right, left),
    ensures
        left == right,
    decreases left.len(),
{
    if left.len() == 0 || right.len() == 0 {
        assert(left =~= right);
    } else {
        lemma_text_le_antisymmetric(left.drop_first(), right.drop_first());
        assert(left =~= seq![left[0]] + left.drop_first());
        assert(right =~= seq![right[0]] + right.drop_first());
    }
}

/// The order of texts is transitive.
pub proof fn lemma_text_le_transitive(left: Seq<char>, middle: Seq<char>, right: Seq<char>)
    requires
        text_le(left, middle),
        text_le(middle, right),
    ensures
        text_le(left, right),
    decreases left.len(),
{
    if left.len() > 0 && middle.len() > 0 && right.len() > 0 {
        if left[0] == middle[0] && middle[0] == right[0] {
            lemma_text_le_transitive(left.drop_first(), middle.drop_first(), right.drop_first());
        }
    }
}

/// Of two texts one comes no later than the other.
pub proof fn lemma_text_le_connected(left: Seq<char>, right: Seq<char>)
    ensures
        text_le(left, right) || text_le(right, left),
    decreases left.len(),
{
    if left.len() > 0 && right.len() > 0 {
        if left[0] == right[0] {
            lemma_text_le_connected(left.drop_first(), right.drop_first());
        } else {
            vstd::utf8::char_u32_cast(left[0], left[0] as u32);
            vstd::utf8::char_u32_cast(right[0], right[0] as u32);
            assert(left[0] as u32 != right[0] as u32);
        }
    }
}

/// The order of texts is a total order.
pub proof fn lemma_text_order_total()
    ensures
        vstd::relations::total_ordering(text_order()),
{
    let order = text_order();
    assert forall|text: Seq<char>| #[trigger] order(text, text) by {
        lemma_text_le_reflexive(text);
    }
    assert forall|left: Seq<char>, right: Seq<char>| #[trigger]
        order(left, right) && #[trigger] order(right, left) implies left == right by {
        lemma_text_le_antisymmetric(left, right);
    }
    assert forall|left: Seq<char>, middle: Seq<char>, right: Seq<char>| #[trigger]
        order(left, middle) && #[trigger] order(middle, right) implies order(left, right) by {
        lemma_text_le_transitive(left, middle, right);
    }
    assert forall|left: Seq<char>, right: Seq<char>| #[trigger]
        order(left, right) || #[trigger] order(right, left) by {
        lemma_text_le_connected(left, right);
    }
}

/// A list of texts in ascending order that holds the texts of `texts`,
/// each as often as `texts` does, is `texts` sorted: there is one such
/// list only. It is as long as `texts`.
pub proof fn lemma_sorted_texts(texts: Seq<Seq<char>>, sorted: Seq<Seq<char>>)
    requires
        is_sorted(sorted),
        sorted.to_multiset() == texts.to_multiset(),
    ensures
        sorted == sorted_texts(texts),
        sorted_texts(texts).len() == texts.len(),
{
    lemma_text_order_total();
    texts.lemma_sort_by_ensures(text_order());
    let order = text_order();
    assert(vstd::relations::sorted_by(sorted, order)) by {
        assert forall|i: int, j: int| 0 <= i < j < sorted.len() implies #[trigger] order(
            sorted[i],
            sorted[j],
        ) by {
            assert(text_le(sorted[i], sorted[j]));
        }
    }
    vstd::seq_lib::lemma_sorted_unique(sorted, sorted_texts(texts), order);
    broadcast use vstd::seq_lib::group_to_multiset_ensures;
    assert(sorted.len() == sorted.to_multiset().len());
    assert(texts.len() == texts.to_multiset().len());
}

/// Calls `sort` on a slice of strings: afterwards the same strings stand
/// in ascending order. Strings are ordered by their bytes, which is the
/// order of their code points.
#[verifier::external_body]
pub(crate) fn sort(texts: &mut Vec<String>)
    ensures
        is_sorted(text_views(final(texts)@)),
        text_views(final(texts)@).to_multiset() == text_views(old(texts)@).to_multiset(),
        final(texts)@.len() == old(texts)@.len(),
{
    texts.sort();
}

/// Whether two lists hold the same texts in the same order.
pub fn same_texts(left: &Vec<String>, right: &Vec<String>) -> (same: bool)
    ensures
        same == (text_views(left@) == text_views(right@)),
{
    if left.len() != right.len() {
        assert(text_views(left@).len() != text_views(right@).len());
        return false;
    }
    let mut index: usize = 0;
    while index < left.len()
        invariant
            index <= left@.len(),
            left@.len() == right@.len(),
            forall|k: int| 0 <= k < index ==> (#[trigger] left@[k])@ == right@[k]@,
        decreases left@.len() - index,
    {
        if !(left[index] == right[index]) {
            assert(text_views(left@)[index as int] != text_views(right@)[index as int]);
            return false;
        }
        index += 1;
    }
    assert(text_views(left@) =~= text_views(right@));
    true
}

} // verus!
