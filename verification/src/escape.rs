//! Escaping of text for embedding in markup, done by the `html-escape`
//! crate, and what holds of escaped text.

use crate::text::occurs_at;
use vstd::prelude::*;

verus! {

/// What stands for one character in escaped text: an entity for each of the
/// five characters that markup reserves, the character itself otherwise.
pub open spec fn entity(c: char) -> Seq<char> {
    if c == '&' {
        "&amp;"@
    } else if c == '<' {
        "&lt;"@
    } else if c == '>' {
        "&gt;"@
    } else if c == '"' {
        "&quot;"@
    } else if c == '\'' {
        "&#x27;"@
    } else {
        seq![c]
    }
}

/// `text` with each character replaced by what stands for it.
pub open spec fn escaped(text: Seq<char>) -> Seq<char> {
    text.map_values(|c: char| entity(c)).flatten()
}

/// Whether one of the five entities stands in `text` at index `i`.
pub open spec fn entity_at(text: Seq<char>, i: int) -> bool {
    ||| occurs_at(text, "&amp;"@, i)
    ||| occurs_at(text, "&lt;"@, i)
    ||| occurs_at(text, "&gt;"@, i)
    ||| occurs_at(text, "&quot;"@, i)
    ||| occurs_at(text, "&#x27;"@, i)
}

/// Whether the character at index `i` of `text` is harmless in markup: no
/// angle bracket, no quote, and an ampersand only at the start of an entity.
pub open spec fn harmless_at(text: Seq<char>, i: int) -> bool {
    &&& text[i] != '<'
    &&& text[i] != '>'
    &&& text[i] != '"'
    &&& text[i] != '\''
    &&& text[i] == '&' ==> entity_at(text, i)
}

/// Whether `text` can stand in markup as it is.
pub open spec fn is_harmless(text: Seq<char>) -> bool {
    forall|i: int| 0 <= i < text.len() ==> #[trigger] harmless_at(text, i)
}

/// `html_escape::encode_quoted_attribute`: replaces `&`, `<`, `>`, `"` and
/// `'` by `&amp;`, `&lt;`, `&gt;`, `&quot;` and `&#x27;`, and leaves every
/// other character as it is.
#[verifier::external_body]
pub(crate) fn encode(text: &str) -> (out: String)
    ensures
        out@ == escaped(text@),
{
    html_escape::encode_quoted_attribute(text).into_owned()
}

/// Escaping one more character adds what stands for it at the end.
pub proof fn lemma_escaped_push(text: Seq<char>, c: char)
    ensures
        escaped(text.push(c)) == escaped(text) + entity(c),
{
    let pieces = text.push(c).map_values(|c: char| entity(c));
    let before = text.map_values(|c: char| entity(c));
    assert(pieces.drop_last() =~= before);
    assert(pieces.last() == entity(c));
    pieces.lemma_flatten_and_flatten_alt_are_equivalent();
    before.lemma_flatten_and_flatten_alt_are_equivalent();
}

/// What stands at an index of `text` stands at the matching index of
/// `before + text + after`.
proof fn lemma_occurs_inside(
    before: Seq<char>,
    text: Seq<char>,
    after: Seq<char>,
    needle: Seq<char>,
    i: int,
)
    requires
        occurs_at(text, needle, i),
    ensures
        occurs_at(before + text + after, needle, before.len() + i),
{
    assert((before + text + after).subrange(before.len() + i, before.len() + i + needle.len())
        =~= text.subrange(i, i + needle.len()));
}

/// A harmless index of `text` is harmless at the matching index of
/// `before + text + after`.
pub proof fn lemma_harmless_inside(before: Seq<char>, text: Seq<char>, after: Seq<char>, i: int)
    requires
        0 <= i < text.len(),
        harmless_at(text, i),
    ensures
        harmless_at(before + text + after, before.len() + i),
{
    assert((before + text + after)[before.len() + i] == text[i]);
    if text[i] == '&' {
        if occurs_at(text, "&amp;"@, i) {
            lemma_occurs_inside(before, text, after, "&amp;"@, i);
        } else if occurs_at(text, "&lt;"@, i) {
            lemma_occurs_inside(before, text, after, "&lt;"@, i);
        } else if occurs_at(text, "&gt;"@, i) {
            lemma_occurs_inside(before, text, after, "&gt;"@, i);
        } else if occurs_at(text, "&quot;"@, i) {
            lemma_occurs_inside(before, text, after, "&quot;"@, i);
        } else {
            lemma_occurs_inside(before, text, after, "&#x27;"@, i);
        }
    }
}

/// Every index of what stands for `c`, put after `text`, is harmless.
proof fn lemma_entity_is_harmless(text: Seq<char>, c: char, k: int)
    requires
        0 <= k < entity(c).len(),
    ensures
        harmless_at(text + entity(c), text.len() + k),
{
    reveal_strlit("&amp;");
    reveal_strlit("&lt;");
    reveal_strlit("&gt;");
    reveal_strlit("&quot;");
    reveal_strlit("&#x27;");
    let whole = text + entity(c);
    let at = text.len() as int;
    assert(whole[at + k] == entity(c)[k]);
    if k == 0 {
        assert(whole.subrange(at, at + entity(c).len()) =~= entity(c));
    }
}

/// Escaped text is harmless: it holds no angle bracket and no quote, and
/// each ampersand in it begins an entity.
pub proof fn law_escaped_is_harmless(text: Seq<char>)
    ensures
        is_harmless(escaped(text)),
    decreases text.len(),
{
    if text.len() == 0 {
        assert(text.map_values(|c: char| entity(c)) =~= Seq::<Seq<char>>::empty());
    } else {
        let before = escaped(text.drop_last());
        let last = entity(text.last());
        law_escaped_is_harmless(text.drop_last());
        lemma_escaped_push(text.drop_last(), text.last());
        assert(text.drop_last().push(text.last()) =~= text);
        assert forall|i: int| 0 <= i < (before + last).len() implies #[trigger] harmless_at(
            before + last,
            i,
        ) by {
            if i < before.len() {
                assert(harmless_at(before, i));
                lemma_harmless_inside(Seq::empty(), before, last, i);
                assert(Seq::<char>::empty() + before + last =~= before + last);
            } else {
                lemma_entity_is_harmless(before, text.last(), i - before.len());
            }
        }
    }
}

} // verus!
