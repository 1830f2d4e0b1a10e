//! The link record: a bag of optional attributes that renders as one
//! self-closing element.

use crate::markup::IntoXMLString;
use crate::text::chars_of;
use vstd::prelude::*;

verus! {

/// A link of a feed or of an entry.
pub struct Link {
    href: Option<String>,
    rel: Option<String>,
    type_: Option<String>,
    hreflang: Option<String>,
    title: Option<String>,
}

/// A link as the characters it holds.
pub struct LinkView {
    pub href: Option<Seq<char>>,
    pub rel: Option<Seq<char>>,
    pub type_: Option<Seq<char>>,
    pub hreflang: Option<Seq<char>>,
    pub title: Option<Seq<char>>,
}

/// The key under which a field is written: the field's name without the
/// underscores at its end.
pub open spec fn key_of(field: Seq<char>) -> Seq<char>
    decreases field.len(),
{
    if field.len() > 0 && field.last() == '_' {
        key_of(field.drop_last())
    } else {
        field
    }
}

/// One attribute as it is written.
pub open spec fn attribute_text(field: Seq<char>, value: Seq<char>) -> Seq<char> {
    key_of(field) + "=\""@ + value + "\""@
}

/// The fields of a link with their values, in the order in which they are
/// written.
pub open spec fn slots(link: LinkView) -> Seq<(Seq<char>, Option<Seq<char>>)> {
    seq![
        ("href"@, link.href),
        ("rel"@, link.rel),
        ("type_"@, link.type_),
        ("hrefLang"@, link.hreflang),
        ("title"@, link.title),
    ]
}

/// The attributes that are written for a sequence of fields: those of the
/// fields that have a value, in the order of the fields.
pub open spec fn present(slots: Seq<(Seq<char>, Option<Seq<char>>)>) -> Seq<Seq<char>>
    decreases slots.len(),
{
    if slots.len() == 0 {
        Seq::empty()
    } else {
        let before = present(slots.drop_last());
        match slots.last().1 {
            Some(value) => before.push(attribute_text(slots.last().0, value)),
            None => before,
        }
    }
}

/// `parts` with one space between each two neighbours.
pub open spec fn spaced(parts: Seq<Seq<char>>) -> Seq<char>
    decreases parts.len(),
{
    if parts.len() == 0 {
        Seq::empty()
    } else if parts.len() == 1 {
        parts[0]
    } else {
        spaced(parts.drop_last()) + " "@ + parts.last()
    }
}

/// The attributes of a link as they are written.
pub open spec fn attributes_of(link: LinkView) -> Seq<char> {
    spaced(present(slots(link)))
}

/// The element of a link.
pub open spec fn link_xml(link: LinkView, name: Seq<char>) -> Seq<char> {
    "<"@ + name + " "@ + attributes_of(link) + " />"@
}

impl View for Link {
    type V = LinkView;

    closed spec fn view(&self) -> LinkView {
        LinkView {
            href: self.href.deep_view(),
            rel: self.rel.deep_view(),
            type_: self.type_.deep_view(),
            hreflang: self.hreflang.deep_view(),
            title: self.title.deep_view(),
        }
    }
}

impl DeepView for Link {
    type V = LinkView;

    open spec fn deep_view(&self) -> LinkView {
        self@
    }
}

/// Where the underscores at the end of `s` begin, if `r` is that place.
proof fn lemma_key(s: Seq<char>, r: int)
    requires
        0 <= r <= s.len(),
        forall|j: int| r <= j < s.len() ==> s[j] == '_',
        r > 0 ==> s[r - 1] != '_',
    ensures
        key_of(s) == s.take(r),
    decreases s.len() - r,
{
    if r == s.len() {
        assert(s.take(r) =~= s);
    } else {
        lemma_key(s.drop_last(), r);
        assert(s.drop_last().take(r) =~= s.take(r));
    }
}

/// The key under which a field is written.
pub fn attribute_key(field: &str) -> (key: String)
    ensures
        key@ == key_of(field@),
{
    let chars = chars_of(field);
    let mut r: usize = chars.len();
    while r > 0 && chars[r - 1] == '_'
        invariant
            r <= chars@.len(),
            forall|j: int| r <= j < chars@.len() ==> chars@[j] == '_',
        decreases r,
    {
        r -= 1;
    }
    proof {
        lemma_key(field@, r as int);
    }
    field.substring_char(0, r).to_owned()
}

/// One more attribute is written after a space, the first one without.
proof fn lemma_spaced_push(parts: Seq<Seq<char>>, part: Seq<char>)
    ensures
        spaced(parts.push(part)) == if parts.len() == 0 {
            part
        } else {
            spaced(parts) + " "@ + part
        },
{
    assert(parts.push(part).drop_last() =~= parts);
}

/// Writes the attribute of one field after those already written.
fn write_attribute(
    out: &mut String,
    field: &str,
    value: &Option<String>,
    Ghost(before): Ghost<Seq<(Seq<char>, Option<Seq<char>>)>>,
)
    requires
        old(out)@ == spaced(present(before)),
        old(out)@.len() == 0 <==> present(before).len() == 0,
    ensures
        final(out)@ == spaced(present(before.push((field@, value.deep_view())))),
        final(out)@.len() == 0 <==> present(before.push((field@, value.deep_view()))).len() == 0,
{
    let ghost after = before.push((field@, value.deep_view()));
    proof {
        assert(after.drop_last() =~= before);
    }
    if let Some(v) = value {
        proof {
            lemma_spaced_push(present(before), attribute_text(field@, v@));
            reveal_strlit("=\"");
        }
        if !out.as_str().is_empty() {
            out.append(" ");
        }
        out.append(attribute_key(field).as_str());
        out.append("=\"");
        out.append(v.as_str());
        out.append("\"");
        proof {
            assert(final(out)@ =~= spaced(present(after)));
        }
    }
}

impl Link {
    /// A link without attributes.
    pub fn new() -> (link: Self)
        ensures
            link@ == (LinkView { href: None, rel: None, type_: None, hreflang: None, title: None }),
    {
        Link { href: None, rel: None, type_: None, hreflang: None, title: None }
    }

    /// The same link with that target.
    pub fn href(self, href: &str) -> (link: Self)
        ensures
            link@ == (LinkView { href: Some(href@), ..self@ }),
    {
        Link {
            href: Some(href.to_owned()),
            rel: self.rel,
            type_: self.type_,
            hreflang: self.hreflang,
            title: self.title,
        }
    }

    /// The same link with that relation.
    pub fn rel(self, rel: &str) -> (link: Self)
        ensures
            link@ == (LinkView { rel: Some(rel@), ..self@ }),
    {
        Link {
            href: self.href,
            rel: Some(rel.to_owned()),
            type_: self.type_,
            hreflang: self.hreflang,
            title: self.title,
        }
    }

    /// The same link with that media type.
    pub fn type_(self, type_: &str) -> (link: Self)
        ensures
            link@ == (LinkView { type_: Some(type_@), ..self@ }),
    {
        Link {
            href: self.href,
            rel: self.rel,
            type_: Some(type_.to_owned()),
            hreflang: self.hreflang,
            title: self.title,
        }
    }

    /// The same link with that language of its target, which is written
    /// under the key `hrefLang`.
    pub fn hreflang(self, hreflang: &str) -> (link: Self)
        ensures
            link@ == (LinkView { hreflang: Some(hreflang@), ..self@ }),
    {
        Link {
            href: self.href,
            rel: self.rel,
            type_: self.type_,
            hreflang: Some(hreflang.to_owned()),
            title: self.title,
        }
    }

    /// The same link with that title.
    pub fn title(self, title: &str) -> (link: Self)
        ensures
            link@ == (LinkView { title: Some(title@), ..self@ }),
    {
        Link {
            href: self.href,
            rel: self.rel,
            type_: self.type_,
            hreflang: self.hreflang,
            title: Some(title.to_owned()),
        }
    }

    /// Writes the attributes that have a value, in the order of the
    /// fields, with one space between each two.
    pub fn as_xml_attributes(&self) -> (out: String)
        ensures
            out@ == attributes_of(self@),
    {
        let mut out = String::new();
        let ghost all = slots(self@);
        let ghost none = Seq::<(Seq<char>, Option<Seq<char>>)>::empty();
        write_attribute(&mut out, "href", &self.href, Ghost(none));
        proof {
            assert(none.push(all[0]) =~= all.take(1));
        }
        write_attribute(&mut out, "rel", &self.rel, Ghost(all.take(1)));
        proof {
            assert(all.take(1).push(all[1]) =~= all.take(2));
        }
        write_attribute(&mut out, "type_", &self.type_, Ghost(all.take(2)));
        proof {
            assert(all.take(2).push(all[2]) =~= all.take(3));
        }
        write_attribute(&mut out, "hrefLang", &self.hreflang, Ghost(all.take(3)));
        proof {
            assert(all.take(3).push(all[3]) =~= all.take(4));
        }
        write_attribute(&mut out, "title", &self.title, Ghost(all.take(4)));
        proof {
            assert(all.take(4).push(all[4]) =~= all);
        }
        out
    }
}

impl Default for Link {
    fn default() -> (link: Self)
        ensures
            link@ == (LinkView { href: None, rel: None, type_: None, hreflang: None, title: None }),
    {
        Link::new()
    }
}

impl IntoXMLString for Link {
    open spec fn xml(&self, name: Seq<char>) -> Seq<char> {
        link_xml(self@, name)
    }

    fn to_xml_str(&self, var_name: &str) -> (out: String) {
        let mut out = String::new();
        out.append("<");
        out.append(var_name);
        out.append(" ");
        out.append(self.as_xml_attributes().as_str());
        out.append(" />");
        proof {
            assert(out@ =~= link_xml(self@, var_name@));
        }
        out
    }
}

/// A field without a value is written as nothing, and one with a value as
/// its one attribute.
pub proof fn law_present_one(field: Seq<char>, value: Option<Seq<char>>)
    ensures
        present(seq![(field, value)]) == match value {
            Some(v) => seq![attribute_text(field, v)],
            None => Seq::<Seq<char>>::empty(),
        },
{
    let one = seq![(field, value)];
    assert(one.drop_last() =~= Seq::<(Seq<char>, Option<Seq<char>>)>::empty());
    assert(present(one.drop_last()) =~= Seq::<Seq<char>>::empty());
    match value {
        Some(v) => {
            assert(Seq::<Seq<char>>::empty().push(attribute_text(field, v)) =~= seq![
                attribute_text(field, v),
            ]);
        },
        None => {},
    }
}

/// The attributes written for fields keep the order of the fields,
/// whichever of them have a value: what is written for two sequences of
/// fields joined is what is written for the first, followed by what is
/// written for the second.
pub proof fn law_present_in_order(
    first: Seq<(Seq<char>, Option<Seq<char>>)>,
    second: Seq<(Seq<char>, Option<Seq<char>>)>,
)
    ensures
        present(first + second) == present(first) + present(second),
    decreases second.len(),
{
    if second.len() == 0 {
        assert(first + second =~= first);
        assert(present(first) + present(second) =~= present(first));
    } else {
        law_present_in_order(first, second.drop_last());
        assert((first + second).drop_last() =~= first + second.drop_last());
        assert((first + second).last() == second.last());
        match second.last().1 {
            Some(value) => {
                let text = attribute_text(second.last().0, value);
                assert((present(first) + present(second.drop_last())).push(text) =~= present(first)
                    + present(second.drop_last()).push(text));
            },
            None => {},
        }
    }
}

/// A link none of whose fields has a value writes no attribute.
pub proof fn law_no_attributes(link: LinkView)
    requires
        link.href is None,
        link.rel is None,
        link.type_ is None,
        link.hreflang is None,
        link.title is None,
    ensures
        attributes_of(link) == Seq::<char>::empty(),
{
    let all = slots(link);
    assert(all.take(0) =~= Seq::empty());
    assert(all.take(1).drop_last() =~= all.take(0));
    assert(all.take(2).drop_last() =~= all.take(1));
    assert(all.take(3).drop_last() =~= all.take(2));
    assert(all.take(4).drop_last() =~= all.take(3));
    assert(all.drop_last() =~= all.take(4));
    assert(present(all.take(0)).len() == 0);
    assert(present(all.take(1)).len() == 0);
    assert(present(all.take(2)).len() == 0);
    assert(present(all.take(3)).len() == 0);
    assert(present(all.take(4)).len() == 0);
}

} // verus!
