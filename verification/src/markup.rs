//! Rendering as markup: one capability, in the shapes of a scalar, an
//! optional value and a repeated value.

use vstd::prelude::*;

verus! {

/// The element `name` around `content`.
pub open spec fn element(name: Seq<char>, content: Seq<char>) -> Seq<char> {
    "<"@ + name + ">"@ + content + "</"@ + name + ">"@
}

/// The element `name` around `content` where there is content, and nothing
/// where there is none.
pub open spec fn optional_element(name: Seq<char>, content: Option<Seq<char>>) -> Seq<char> {
    match content {
        Some(content) => element(name, content),
        None => Seq::empty(),
    }
}

/// The renderings of `items`, one after the other, with nothing between
/// them and nothing around them.
pub open spec fn each<V>(items: Seq<V>, render: spec_fn(V) -> Seq<char>) -> Seq<char> {
    items.map_values(render).flatten()
}

/// The renderings of `items` under one name, one after the other.
pub open spec fn repeated<T: IntoXMLString>(items: Seq<T>, name: Seq<char>) -> Seq<char> {
    each(items, |item: T| item.xml(name))
}

/// A value that renders as markup under a name that its place gives it.
pub trait IntoXMLString {
    /// The markup of the value under `name`.
    spec fn xml(&self, name: Seq<char>) -> Seq<char>;

    /// Renders the value under `var_name`.
    fn to_xml_str(&self, var_name: &str) -> (out: String)
        ensures
            out@ == self.xml(var_name@),
    ;
}

/// Renders a scalar: its text inside an element.
pub fn to_xml_str(value: &str, var_name: &str) -> (out: String)
    ensures
        out@ == element(var_name@, value@),
{
    let mut out = String::new();
    out.append("<");
    out.append(var_name);
    out.append(">");
    out.append(value);
    out.append("</");
    out.append(var_name);
    out.append(">");
    proof {
        assert(out@ =~= element(var_name@, value@));
    }
    out
}

impl IntoXMLString for String {
    open spec fn xml(&self, name: Seq<char>) -> Seq<char> {
        element(name, self@)
    }

    fn to_xml_str(&self, var_name: &str) -> (out: String) {
        self::to_xml_str(self.as_str(), var_name)
    }
}

impl<T: IntoXMLString> IntoXMLString for Option<T> {
    open spec fn xml(&self, name: Seq<char>) -> Seq<char> {
        match self {
            Some(value) => value.xml(name),
            None => Seq::empty(),
        }
    }

    fn to_xml_str(&self, var_name: &str) -> (out: String) {
        match self {
            Some(value) => value.to_xml_str(var_name),
            None => String::new(),
        }
    }
}

impl<T: IntoXMLString> IntoXMLString for Vec<T> {
    open spec fn xml(&self, name: Seq<char>) -> Seq<char> {
        repeated(self@, name)
    }

    fn to_xml_str(&self, var_name: &str) -> (out: String) {
        let mut out = String::new();
        let mut i: usize = 0;
        proof {
            lemma_each_none(|item: T| item.xml(var_name@));
            assert(self@.take(0) =~= Seq::empty());
        }
        while i < self.len()
            invariant
                i <= self@.len(),
                out@ == repeated(self@.take(i as int), var_name@),
            decreases self@.len() - i,
        {
            let piece = self[i].to_xml_str(var_name);
            proof {
                lemma_each_push(self@.take(i as int), self@[i as int], |item: T| item.xml(var_name@));
                assert(self@.take(i as int).push(self@[i as int]) =~= self@.take(i + 1));
            }
            out.append(piece.as_str());
            i += 1;
        }
        proof {
            assert(self@.take(i as int) =~= self@);
        }
        out
    }
}

/// Nothing renders as nothing.
pub proof fn lemma_each_none<V>(render: spec_fn(V) -> Seq<char>)
    ensures
        each(Seq::<V>::empty(), render) == Seq::<char>::empty(),
{
    assert(Seq::<V>::empty().map_values(render) =~= Seq::<Seq<char>>::empty());
}

/// One more item adds its rendering at the end.
pub proof fn lemma_each_push<V>(items: Seq<V>, item: V, render: spec_fn(V) -> Seq<char>)
    ensures
        each(items.push(item), render) == each(items, render) + render(item),
{
    let pieces = items.push(item).map_values(render);
    let before = items.map_values(render);
    assert(pieces.drop_last() =~= before);
    assert(pieces.last() == render(item));
    pieces.lemma_flatten_and_flatten_alt_are_equivalent();
    before.lemma_flatten_and_flatten_alt_are_equivalent();
}

/// Repeated values render in sequence order and without a container: the
/// rendering of two sequences joined is the rendering of the first followed
/// by the rendering of the second.
pub proof fn law_each_in_order<V>(first: Seq<V>, second: Seq<V>, render: spec_fn(V) -> Seq<char>)
    ensures
        each(first + second, render) == each(first, render) + each(second, render),
    decreases second.len(),
{
    if second.len() == 0 {
        lemma_each_none(render);
        assert(first + second =~= first);
        assert(second =~= Seq::<V>::empty());
        assert(each(first, render) + Seq::<char>::empty() =~= each(first, render));
    } else {
        let head = second.drop_last();
        let last = second.last();
        law_each_in_order(first, head, render);
        lemma_each_push(first + head, last, render);
        lemma_each_push(head, last, render);
        assert((first + head).push(last) =~= first + second);
        assert(head.push(last) =~= second);
        assert(each(first, render) + (each(head, render) + render(last)) =~= (each(first, render)
            + each(head, render)) + render(last));
    }
}

/// Two items render as the first followed by the second.
pub proof fn law_each_pair<V>(first: V, second: V, render: spec_fn(V) -> Seq<char>)
    ensures
        each(seq![first, second], render) == render(first) + render(second),
{
    lemma_each_none(render);
    lemma_each_push(Seq::<V>::empty(), first, render);
    lemma_each_push(seq![first], second, render);
    assert(Seq::<V>::empty().push(first) =~= seq![first]);
    assert(seq![first].push(second) =~= seq![first, second]);
    assert(Seq::<char>::empty() + render(first) =~= render(first));
}

} // verus!
