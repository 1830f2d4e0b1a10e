//! The records of a feed document and how each renders as markup.

use crate::escape::encode;
use crate::escape::escaped;
use crate::escape::harmless_at;
use crate::escape::is_harmless;
use crate::escape::lemma_harmless_inside;
use crate::escape::law_escaped_is_harmless;
use crate::link::link_xml;
use crate::link::Link;
use crate::link::LinkView;
use crate::markup::each;
use crate::markup::element;
use crate::markup::lemma_each_none;
use crate::markup::optional_element;
use crate::markup::IntoXMLString;
use vstd::prelude::*;

verus! {

/// A person: an author of a feed or of an entry.
pub struct Person {
    name: String,
    uri: Option<String>,
    email: Option<String>,
}

/// A person as the characters it holds.
pub struct PersonView {
    pub name: Seq<char>,
    pub uri: Option<Seq<char>>,
    pub email: Option<Seq<char>>,
}

/// What a person renders inside its element: its name, then its URI and
/// its e-mail address where it has them.
pub open spec fn person_inner(person: PersonView) -> Seq<char> {
    element("name"@, person.name) + optional_element("uri"@, person.uri) + optional_element(
        "email"@,
        person.email,
    )
}

impl View for Person {
    type V = PersonView;

    closed spec fn view(&self) -> PersonView {
        PersonView {
            name: self.name@,
            uri: self.uri.deep_view(),
            email: self.email.deep_view(),
        }
    }
}

impl DeepView for Person {
    type V = PersonView;

    open spec fn deep_view(&self) -> PersonView {
        self@
    }
}

/// The element of a person.
pub open spec fn person_xml(person: PersonView, name: Seq<char>) -> Seq<char> {
    element(name, person_inner(person))
}

/// The elements of some people under one name, one after the other.
pub open spec fn people_xml(people: Seq<PersonView>, name: Seq<char>) -> Seq<char> {
    each(people, |person: PersonView| person_xml(person, name))
}

impl Person {
    /// A person of that name, without URI or e-mail address.
    pub fn new(name: &str) -> (person: Self)
        ensures
            person@ == (PersonView { name: name@, uri: None, email: None }),
    {
        Person { name: name.to_owned(), uri: None, email: None }
    }

    /// The same person with that URI.
    pub fn uri(self, uri: &str) -> (person: Self)
        ensures
            person@ == (PersonView { uri: Some(uri@), ..self@ }),
    {
        Person { name: self.name, uri: Some(uri.to_owned()), email: self.email }
    }

    /// The same person with that e-mail address.
    pub fn email(self, email: &str) -> (person: Self)
        ensures
            person@ == (PersonView { email: Some(email@), ..self@ }),
    {
        Person { name: self.name, uri: self.uri, email: Some(email.to_owned()) }
    }

    /// Renders the fields, one after the other.
    pub fn as_concatenated_xml(&self) -> (out: String)
        ensures
            out@ == person_inner(self@),
    {
        let mut out = String::new();
        out.append(self.name.to_xml_str("name").as_str());
        out.append(self.uri.to_xml_str("uri").as_str());
        out.append(self.email.to_xml_str("email").as_str());
        proof {
            assert(out@ =~= person_inner(self@));
        }
        out
    }
}

impl IntoXMLString for Person {
    open spec fn xml(&self, name: Seq<char>) -> Seq<char> {
        person_xml(self@, name)
    }

    fn to_xml_str(&self, var_name: &str) -> (out: String) {
        crate::markup::to_xml_str(self.as_concatenated_xml().as_str(), var_name)
    }
}

/// Text that is escaped once, when it is made, and written as it is.
pub struct HTMLText {
    text: String,
}

/// The element of escaped text: its body as it is, marked as HTML.
pub open spec fn html_xml(body: Seq<char>, name: Seq<char>) -> Seq<char> {
    "<"@ + name + " type=\"html\">"@ + body + "</"@ + name + ">"@
}

impl View for HTMLText {
    type V = Seq<char>;

    closed spec fn view(&self) -> Seq<char> {
        self.text@
    }
}

impl HTMLText {
    #[verifier::type_invariant]
    closed spec fn is_escaped(&self) -> bool {
        is_harmless(self.text@)
    }

    /// The escaped form of `s`.
    pub fn new(s: &str) -> (text: Self)
        ensures
            text@ == escaped(s@),
    {
        proof {
            law_escaped_is_harmless(s@);
        }
        HTMLText { text: encode(s) }
    }

    /// The body: harmless in markup, whatever text it was made from.
    pub fn as_str(&self) -> (body: &str)
        ensures
            body@ == self@,
            is_harmless(body@),
    {
        proof {
            use_type_invariant(self);
        }
        self.text.as_str()
    }
}

/// In the element of escaped text, what stands between the opening and
/// the closing tag is harmless: no angle bracket and no quote stands there,
/// and each ampersand there begins an entity.
pub proof fn law_escaped_then_rendered(text: Seq<char>, name: Seq<char>)
    ensures
        ({
            let open = "<"@ + name + " type=\"html\">"@;
            let body = escaped(text);
            let out = html_xml(body, name);
            &&& out == open + body + ("</"@ + name + ">"@)
            &&& forall|i: int| open.len() <= i < open.len() + body.len() ==> harmless_at(out, i)
        }),
{
    let open = "<"@ + name + " type=\"html\">"@;
    let close = "</"@ + name + ">"@;
    let body = escaped(text);
    let out = html_xml(body, name);
    law_escaped_is_harmless(text);
    assert(out =~= open + body + close);
    assert forall|i: int| open.len() <= i < open.len() + body.len() implies harmless_at(
        out,
        i,
    ) by {
        assert(harmless_at(body, i - open.len()));
        lemma_harmless_inside(open, body, close, i - open.len());
    }
}

impl IntoXMLString for HTMLText {
    open spec fn xml(&self, name: Seq<char>) -> Seq<char> {
        html_xml(self@, name)
    }

    fn to_xml_str(&self, var_name: &str) -> (out: String) {
        let mut out = String::new();
        out.append("<");
        out.append(var_name);
        out.append(" type=\"html\">");
        out.append(self.as_str());
        out.append("</");
        out.append(var_name);
        out.append(">");
        proof {
            assert(out@ =~= html_xml(self@, var_name@));
        }
        out
    }
}


/// The element of escaped text where there is one, and nothing otherwise.
pub open spec fn optional_html(body: Option<Seq<char>>, name: Seq<char>) -> Seq<char> {
    match body {
        Some(body) => html_xml(body, name),
        None => Seq::empty(),
    }
}

/// The element of a link where there is one, and nothing otherwise.
pub open spec fn optional_link(link: Option<LinkView>, name: Seq<char>) -> Seq<char> {
    match link {
        Some(link) => link_xml(link, name),
        None => Seq::empty(),
    }
}

/// The elements of some links under one name, one after the other.
pub open spec fn links_xml(links: Seq<LinkView>, name: Seq<char>) -> Seq<char> {
    each(links, |link: LinkView| link_xml(link, name))
}

/// What a written sequence of people says in terms of their views.
proof fn lemma_people(people: &Vec<Person>, name: Seq<char>)
    ensures
        people.xml(name) == people_xml(people.deep_view(), name),
{
    assert(people@.map_values(|item: Person| item.xml(name)) =~= people.deep_view().map_values(
        |person: PersonView| person_xml(person, name),
    ));
}

/// What a written sequence of links says in terms of their views.
proof fn lemma_links(links: &Vec<Link>, name: Seq<char>)
    ensures
        links.xml(name) == links_xml(links.deep_view(), name),
{
    assert(links@.map_values(|item: Link| item.xml(name)) =~= links.deep_view().map_values(
        |link: LinkView| link_xml(link, name),
    ));
}

/// One entry of a feed.
pub struct Entry {
    id: String,
    title: HTMLText,
    updated: String,
    author: Vec<Person>,
    content: Option<HTMLText>,
    link: Option<Link>,
    summary: Option<HTMLText>,
}

/// An entry as the characters it holds.
pub struct EntryView {
    pub id: Seq<char>,
    pub title: Seq<char>,
    pub updated: Seq<char>,
    pub author: Seq<PersonView>,
    pub content: Option<Seq<char>>,
    pub link: Option<LinkView>,
    pub summary: Option<Seq<char>>,
}

/// What an entry renders inside its element: its fields in the order of
/// their declaration, each under its own name.
pub open spec fn entry_inner(entry: EntryView) -> Seq<char> {
    element("id"@, entry.id) + html_xml(entry.title, "title"@) + element("updated"@, entry.updated)
        + people_xml(entry.author, "author"@) + optional_html(entry.content, "content"@)
        + optional_link(entry.link, "link"@) + optional_html(entry.summary, "summary"@)
}

/// The element of an entry.
pub open spec fn entry_xml(entry: EntryView, name: Seq<char>) -> Seq<char> {
    element(name, entry_inner(entry))
}

/// The elements of some entries under one name, one after the other.
pub open spec fn entries_xml(entries: Seq<EntryView>, name: Seq<char>) -> Seq<char> {
    each(entries, |entry: EntryView| entry_xml(entry, name))
}

/// The view of an optional escaped text.
pub open spec fn optional_body(text: Option<HTMLText>) -> Option<Seq<char>> {
    match text {
        Some(text) => Some(text@),
        None => None,
    }
}

impl View for Entry {
    type V = EntryView;

    closed spec fn view(&self) -> EntryView {
        EntryView {
            id: self.id@,
            title: self.title@,
            updated: self.updated@,
            author: self.author.deep_view(),
            content: optional_body(self.content),
            link: self.link.deep_view(),
            summary: optional_body(self.summary),
        }
    }
}

impl DeepView for Entry {
    type V = EntryView;

    open spec fn deep_view(&self) -> EntryView {
        self@
    }
}

impl Entry {
    /// An entry with its three required fields, and nothing else.
    pub fn new(id: String, title: HTMLText, updated: String) -> (entry: Self)
        ensures
            entry@ == (EntryView {
                id: id@,
                title: title@,
                updated: updated@,
                author: Seq::empty(),
                content: None,
                link: None,
                summary: None,
            }),
    {
        let author: Vec<Person> = Vec::new();
        proof {
            assert(author.deep_view() =~= Seq::empty());
        }
        Entry { id, title, updated, author, content: None, link: None, summary: None }
    }

    /// The same entry with that content.
    pub fn content(self, content: HTMLText) -> (entry: Self)
        ensures
            entry@ == (EntryView { content: Some(content@), ..self@ }),
    {
        Entry {
            id: self.id,
            title: self.title,
            updated: self.updated,
            author: self.author,
            content: Some(content),
            link: self.link,
            summary: self.summary,
        }
    }

    /// The same entry with that link.
    pub fn link(self, link: Link) -> (entry: Self)
        ensures
            entry@ == (EntryView { link: Some(link@), ..self@ }),
    {
        Entry {
            id: self.id,
            title: self.title,
            updated: self.updated,
            author: self.author,
            content: self.content,
            link: Some(link),
            summary: self.summary,
        }
    }

    /// The same entry with that summary.
    pub fn summary(self, summary: HTMLText) -> (entry: Self)
        ensures
            entry@ == (EntryView { summary: Some(summary@), ..self@ }),
    {
        Entry {
            id: self.id,
            title: self.title,
            updated: self.updated,
            author: self.author,
            content: self.content,
            link: self.link,
            summary: Some(summary),
        }
    }

    /// The same entry with those authors.
    pub fn author(self, author: Vec<Person>) -> (entry: Self)
        ensures
            entry@ == (EntryView { author: author.deep_view(), ..self@ }),
    {
        Entry {
            id: self.id,
            title: self.title,
            updated: self.updated,
            author,
            content: self.content,
            link: self.link,
            summary: self.summary,
        }
    }

    /// Renders the fields, one after the other.
    pub fn as_concatenated_xml(&self) -> (out: String)
        ensures
            out@ == entry_inner(self@),
    {
        let mut out = String::new();
        out.append(self.id.to_xml_str("id").as_str());
        out.append(self.title.to_xml_str("title").as_str());
        out.append(self.updated.to_xml_str("updated").as_str());
        out.append(self.author.to_xml_str("author").as_str());
        out.append(self.content.to_xml_str("content").as_str());
        out.append(self.link.to_xml_str("link").as_str());
        out.append(self.summary.to_xml_str("summary").as_str());
        proof {
            lemma_people(&self.author, "author"@);
            assert(out@ =~= entry_inner(self@));
        }
        out
    }
}

impl IntoXMLString for Entry {
    open spec fn xml(&self, name: Seq<char>) -> Seq<char> {
        entry_xml(self@, name)
    }

    fn to_xml_str(&self, var_name: &str) -> (out: String) {
        crate::markup::to_xml_str(self.as_concatenated_xml().as_str(), var_name)
    }
}

/// What a written sequence of entries says in terms of their views.
proof fn lemma_entries(entries: &Vec<Entry>, name: Seq<char>)
    ensures
        entries.xml(name) == entries_xml(entries.deep_view(), name),
{
    assert(entries@.map_values(|item: Entry| item.xml(name)) =~= entries.deep_view().map_values(
        |entry: EntryView| entry_xml(entry, name),
    ));
}

/// A feed: the whole document.
pub struct Feed {
    id: String,
    title: String,
    updated: String,
    author: Vec<Person>,
    link: Vec<Link>,
    entry: Vec<Entry>,
}

/// A feed as the characters it holds.
pub struct FeedView {
    pub id: Seq<char>,
    pub title: Seq<char>,
    pub updated: Seq<char>,
    pub author: Seq<PersonView>,
    pub link: Seq<LinkView>,
    pub entry: Seq<EntryView>,
}

/// The XML declaration and the opening tag of the root element, which
/// names the Atom namespace.
pub open spec fn feed_head() -> Seq<char> {
    "<?xml version=\"1.0\" encoding=\"utf-8\"?>\n<feed xmlns=\"http://www.w3.org/2005/Atom\">"@
}

/// What a feed renders inside its root element: its fields in the order
/// of their declaration, each under its own name.
pub open spec fn feed_inner(feed: FeedView) -> Seq<char> {
    element("id"@, feed.id) + element("title"@, feed.title) + element("updated"@, feed.updated)
        + people_xml(feed.author, "author"@) + links_xml(feed.link, "link"@) + entries_xml(
        feed.entry,
        "entry"@,
    )
}

/// The document of a feed: the XML declaration, then the root element
/// around what the feed renders.
pub open spec fn feed_document(feed: FeedView) -> Seq<char> {
    feed_head() + feed_inner(feed) + "</feed>"@
}

impl View for Feed {
    type V = FeedView;

    closed spec fn view(&self) -> FeedView {
        FeedView {
            id: self.id@,
            title: self.title@,
            updated: self.updated@,
            author: self.author.deep_view(),
            link: self.link.deep_view(),
            entry: self.entry.deep_view(),
        }
    }
}

impl Feed {
    /// A feed with its three required fields, and nothing else.
    pub fn new(id: String, title: String, updated: String) -> (feed: Self)
        ensures
            feed@ == (FeedView {
                id: id@,
                title: title@,
                updated: updated@,
                author: Seq::empty(),
                link: Seq::empty(),
                entry: Seq::empty(),
            }),
    {
        let author: Vec<Person> = Vec::new();
        let link: Vec<Link> = Vec::new();
        let entry: Vec<Entry> = Vec::new();
        proof {
            assert(author.deep_view() =~= Seq::empty());
            assert(link.deep_view() =~= Seq::empty());
            assert(entry.deep_view() =~= Seq::empty());
        }
        Feed { id, title, updated, author, link, entry }
    }

    /// The same feed with those authors.
    pub fn author(self, author: Vec<Person>) -> (feed: Self)
        ensures
            feed@ == (FeedView { author: author.deep_view(), ..self@ }),
    {
        Feed {
            id: self.id,
            title: self.title,
            updated: self.updated,
            author,
            link: self.link,
            entry: self.entry,
        }
    }

    /// The same feed with those links.
    pub fn link(self, link: Vec<Link>) -> (feed: Self)
        ensures
            feed@ == (FeedView { link: link.deep_view(), ..self@ }),
    {
        Feed {
            id: self.id,
            title: self.title,
            updated: self.updated,
            author: self.author,
            link,
            entry: self.entry,
        }
    }

    /// The same feed with those entries.
    pub fn entry(self, entry: Vec<Entry>) -> (feed: Self)
        ensures
            feed@ == (FeedView { entry: entry.deep_view(), ..self@ }),
    {
        Feed {
            id: self.id,
            title: self.title,
            updated: self.updated,
            author: self.author,
            link: self.link,
            entry,
        }
    }

    /// Renders the fields, one after the other.
    pub fn as_concatenated_xml(&self) -> (out: String)
        ensures
            out@ == feed_inner(self@),
    {
        let mut out = String::new();
        out.append(self.id.to_xml_str("id").as_str());
        out.append(self.title.to_xml_str("title").as_str());
        out.append(self.updated.to_xml_str("updated").as_str());
        out.append(self.author.to_xml_str("author").as_str());
        out.append(self.link.to_xml_str("link").as_str());
        out.append(self.entry.to_xml_str("entry").as_str());
        proof {
            lemma_people(&self.author, "author"@);
            lemma_links(&self.link, "link"@);
            lemma_entries(&self.entry, "entry"@);
            assert(out@ =~= feed_inner(self@));
        }
        out
    }

    /// Renders the whole document.
    pub fn to_xml(&self) -> (out: String)
        ensures
            out@ == feed_document(self@),
    {
        let mut out = String::new();
        out.append(
            "<?xml version=\"1.0\" encoding=\"utf-8\"?>\n<feed xmlns=\"http://www.w3.org/2005/Atom\">",
        );
        out.append(self.as_concatenated_xml().as_str());
        out.append("</feed>");
        proof {
            assert(out@ =~= feed_document(self@));
        }
        out
    }
}

/// A feed without entries renders no entry element: its document ends
/// with its links and the closing tag of the root element.
pub proof fn law_feed_without_entries(feed: FeedView)
    requires
        feed.entry.len() == 0,
    ensures
        feed_document(feed) == feed_head() + element("id"@, feed.id) + element(
            "title"@,
            feed.title,
        ) + element("updated"@, feed.updated) + people_xml(feed.author, "author"@) + links_xml(
            feed.link,
            "link"@,
        ) + "</feed>"@,
{
    lemma_each_none(|entry: EntryView| entry_xml(entry, "entry"@));
    assert(feed.entry =~= Seq::<EntryView>::empty());
    assert(feed_document(feed) =~= feed_head() + element("id"@, feed.id) + element(
        "title"@,
        feed.title,
    ) + element("updated"@, feed.updated) + people_xml(feed.author, "author"@) + links_xml(
        feed.link,
        "link"@,
    ) + "</feed>"@);
}

} // verus!
