//! Character-level helpers on strings: searching, whitespace, and the cut
//! that isolates the date in a date cell.

use vstd::prelude::*;

verus! {

/// Whether `c` has the Unicode property White_Space.
pub open spec fn is_space(c: char) -> bool {
    let n = c as u32;
    ||| 0x09 <= n <= 0x0D
    ||| n == 0x20
    ||| n == 0x85
    ||| n == 0xA0
    ||| n == 0x1680
    ||| 0x2000 <= n <= 0x200A
    ||| n == 0x2028
    ||| n == 0x2029
    ||| n == 0x202F
    ||| n == 0x205F
    ||| n == 0x3000
}

/// Whether `needle` stands in `text` at index `i`.
pub open spec fn occurs_at(text: Seq<char>, needle: Seq<char>, i: int) -> bool {
    &&& 0 <= i
    &&& i + needle.len() <= text.len()
    &&& text.subrange(i, i + needle.len()) == needle
}

/// The least index at which `needle` stands in `text`, if it stands there
/// at all.
pub open spec fn first_occurrence(text: Seq<char>, needle: Seq<char>) -> Option<int> {
    if exists|i: int| occurs_at(text, needle, i) {
        Some(
            choose|i: int|
                occurs_at(text, needle, i) && forall|j: int|
                    0 <= j < i ==> !occurs_at(text, needle, j),
        )
    } else {
        None
    }
}

/// Whether some character of `s` is whitespace.
pub open spec fn has_space(s: Seq<char>) -> bool {
    exists|i: int| 0 <= i < s.len() && is_space(s[i])
}

/// `s` without the characters that follow its last whitespace character.
pub open spec fn without_last_word(s: Seq<char>) -> Seq<char>
    decreases s.len(),
{
    if s.len() == 0 || is_space(s.last()) {
        s
    } else {
        without_last_word(s.drop_last())
    }
}

/// `s` without the whitespace at its end.
pub open spec fn without_trailing_space(s: Seq<char>) -> Seq<char>
    decreases s.len(),
{
    if s.len() == 0 || !is_space(s.last()) {
        s
    } else {
        without_trailing_space(s.drop_last())
    }
}

/// The part of a date cell's text that holds the date: what precedes the
/// first `PT`, cut again where its last run of whitespace begins. Without
/// whitespace the second cut is not made, and without `PT` there is no stem.
#[verifier::opaque]
pub open spec fn stem_of(text: Seq<char>) -> Option<Seq<char>> {
    match first_occurrence(text, "PT"@) {
        None => None,
        Some(m) => {
            let head = text.take(m);
            if has_space(head) {
                Some(without_trailing_space(without_last_word(head)))
            } else {
                Some(head)
            }
        },
    }
}

/// The characters of `s`, in order.
pub fn chars_of(s: &str) -> (out: Vec<char>)
    ensures
        out@ == s@,
{
    let mut out: Vec<char> = Vec::new();
    for c in it: s.chars()
        invariant
            out@ == it.seq().take(it.index()),
            it.seq() == s@,
    {
        out.push(c);
    }
    out
}

/// Whether two strings hold the same characters.
pub fn same_text(a: &str, b: &str) -> (same: bool)
    ensures
        same == (a@ == b@),
{
    a.to_owned() == b.to_owned()
}

/// Whether `c` is whitespace.
pub fn is_whitespace(c: char) -> (space: bool)
    ensures
        space == is_space(c),
{
    let n: u32 = c as u32;
    (0x09 <= n && n <= 0x0D) || n == 0x20 || n == 0x85 || n == 0xA0 || n == 0x1680 || (0x2000 <= n
        && n <= 0x200A) || n == 0x2028 || n == 0x2029 || n == 0x202F || n == 0x205F || n == 0x3000
}

/// Whether `needle` stands in `text` at index `i`.
fn stands_at(text: &Vec<char>, needle: &Vec<char>, i: usize) -> (found: bool)
    requires
        i + needle@.len() <= text@.len(),
    ensures
        found == occurs_at(text@, needle@, i as int),
{
    let total: usize = text.len();
    let width: usize = needle.len();
    let mut k: usize = 0;
    while k < width
        invariant
            k <= width == needle@.len(),
            i + width <= total == text@.len(),
            forall|j: int| 0 <= j < k ==> text@[i + j] == needle@[j],
        decreases width - k,
    {
        if text[i + k] != needle[k] {
            proof {
                let window = text@.subrange(i as int, i + width);
                assert(window[k as int] == text@[i + k]);
            }
            return false;
        }
        k += 1;
    }
    proof {
        assert(text@.subrange(i as int, i + width) =~= needle@);
    }
    true
}

/// The index of the first place at which `needle` stands in `text`.
pub fn find(text: &Vec<char>, needle: &Vec<char>) -> (at: Option<usize>)
    ensures
        match at {
            Some(i) => occurs_at(text@, needle@, i as int) && first_occurrence(text@, needle@)
                == Some(i as int),
            None => first_occurrence(text@, needle@) is None,
        },
{
    if needle.len() > text.len() {
        return None;
    }
    let last: usize = text.len() - needle.len();
    let mut i: usize = 0;
    loop
        invariant
            last == text@.len() - needle@.len(),
            i <= last,
            forall|j: int| 0 <= j < i ==> !occurs_at(text@, needle@, j),
        decreases last - i,
    {
        if stands_at(text, needle, i) {
            return Some(i);
        }
        if i == last {
            return None;
        }
        i += 1;
    }
}

/// Where the last word of `s` begins, if `k` is that place.
pub proof fn lemma_last_word(s: Seq<char>, k: int)
    requires
        0 <= k <= s.len(),
        forall|j: int| k <= j < s.len() ==> !is_space(s[j]),
        k > 0 ==> is_space(s[k - 1]),
    ensures
        without_last_word(s) == s.take(k),
    decreases s.len() - k,
{
    if k == s.len() {
        assert(s.take(k) =~= s);
    } else {
        lemma_last_word(s.drop_last(), k);
        assert(s.drop_last().take(k) =~= s.take(k));
    }
}

/// Where the whitespace at the end of `s` begins, if `r` is that place.
pub proof fn lemma_trailing_space(s: Seq<char>, r: int)
    requires
        0 <= r <= s.len(),
        forall|j: int| r <= j < s.len() ==> is_space(s[j]),
        r > 0 ==> !is_space(s[r - 1]),
    ensures
        without_trailing_space(s) == s.take(r),
    decreases s.len() - r,
{
    if r == s.len() {
        assert(s.take(r) =~= s);
    } else {
        lemma_trailing_space(s.drop_last(), r);
        assert(s.drop_last().take(r) =~= s.take(r));
    }
}

/// The index below `end` at which the run of characters that are not
/// whitespace, and that reaches up to `end`, begins.
fn word_start(chars: &Vec<char>, end: usize) -> (k: usize)
    requires
        end <= chars@.len(),
    ensures
        k <= end,
        forall|j: int| k <= j < end ==> !is_space(chars@[j]),
        k > 0 ==> is_space(chars@[k - 1]),
{
    let mut k: usize = end;
    while k > 0 && !is_whitespace(chars[k - 1])
        invariant
            k <= end <= chars@.len(),
            forall|j: int| k <= j < end ==> !is_space(chars@[j]),
        decreases k,
    {
        k -= 1;
    }
    k
}

/// The index below `end` at which the run of whitespace that reaches up to
/// `end` begins.
fn space_start(chars: &Vec<char>, end: usize) -> (r: usize)
    requires
        end <= chars@.len(),
    ensures
        r <= end,
        forall|j: int| r <= j < end ==> is_space(chars@[j]),
        r > 0 ==> !is_space(chars@[r - 1]),
{
    let mut r: usize = end;
    while r > 0 && is_whitespace(chars[r - 1])
        invariant
            r <= end <= chars@.len(),
            forall|j: int| r <= j < end ==> is_space(chars@[j]),
        decreases r,
    {
        r -= 1;
    }
    r
}

/// The stem of a text whose part before the marker holds no whitespace.
proof fn lemma_stem_whole(text: Seq<char>, m: int)
    requires
        first_occurrence(text, "PT"@) == Some(m),
        0 <= m <= text.len(),
        forall|j: int| 0 <= j < m ==> !is_space(text[j]),
    ensures
        stem_of(text) == Some(text.subrange(0, m)),
{
    reveal(stem_of);
    let head = text.take(m);
    assert(!has_space(head));
}

/// The stem of a text whose part before the marker holds whitespace.
proof fn lemma_stem_cut(text: Seq<char>, m: int, k: int, r: int)
    requires
        first_occurrence(text, "PT"@) == Some(m),
        0 <= r <= k <= m <= text.len(),
        k > 0,
        is_space(text[k - 1]),
        forall|j: int| k <= j < m ==> !is_space(text[j]),
        forall|j: int| r <= j < k ==> is_space(text[j]),
        r > 0 ==> !is_space(text[r - 1]),
    ensures
        stem_of(text) == Some(text.subrange(0, r)),
{
    reveal(stem_of);
    let head = text.take(m);
    assert(is_space(head[k - 1]));
    assert(has_space(head));
    lemma_last_word(head, k);
    lemma_trailing_space(head.take(k), r);
    assert(head.take(k).take(r) =~= text.subrange(0, r));
}

/// Cuts the date out of the text of a date cell.
pub fn date_stem(text: &str) -> (stem: Option<String>)
    ensures
        match stem {
            Some(s) => stem_of(text@) == Some(s@),
            None => stem_of(text@) is None,
        },
{
    let chars = chars_of(text);
    let marker = chars_of("PT");
    let m: usize = match find(&chars, &marker) {
        Some(m) => m,
        None => {
            proof {
                reveal(stem_of);
            }
            return None;
        },
    };
    let k = word_start(&chars, m);
    if k == 0 {
        proof {
            lemma_stem_whole(text@, m as int);
        }
        return Some(text.substring_char(0, m).to_owned());
    }
    let r = space_start(&chars, k);
    proof {
        lemma_stem_cut(text@, m as int, k as int, r as int);
    }
    Some(text.substring_char(0, r).to_owned())
}

} // verus!
