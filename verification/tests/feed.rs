use message_center_feed::article::Article;
use message_center_feed::assemble::entries_for;
use message_center_feed::assemble::entry_for;
use message_center_feed::feed::Entry;
use message_center_feed::feed::Feed;
use message_center_feed::feed::HTMLText;
use message_center_feed::feed::Person;
use message_center_feed::link::attribute_key;
use message_center_feed::link::Link;
use message_center_feed::markup::to_xml_str;
use message_center_feed::markup::IntoXMLString;

const HEAD: &str =
    "<?xml version=\"1.0\" encoding=\"utf-8\"?>\n<feed xmlns=\"http://www.w3.org/2005/Atom\">";

#[test]
fn scalar_renders_inside_its_element() {
    assert_eq!(to_xml_str("value", "id"), "<id>value</id>");
    assert_eq!("value".to_string().to_xml_str("id"), "<id>value</id>");
    assert_eq!(to_xml_str("", "id"), "<id></id>");
}

#[test]
fn absent_optional_renders_nothing() {
    let absent: Option<String> = None;
    assert_eq!(absent.to_xml_str("uri"), "");
    assert_eq!(Some("u".to_string()).to_xml_str("uri"), "<uri>u</uri>");
    let no_link: Option<Link> = None;
    assert_eq!(no_link.to_xml_str("link"), "");
}

#[test]
fn repeated_renders_siblings_without_container() {
    let names = vec!["a".to_string(), "b".to_string(), "c".to_string()];
    assert_eq!(names.to_xml_str("n"), "<n>a</n><n>b</n><n>c</n>");
    let none: Vec<String> = Vec::new();
    assert_eq!(none.to_xml_str("n"), "");
}

#[test]
fn person_renders_its_fields_in_order() {
    assert_eq!(
        Person::new("direek").to_xml_str("author"),
        "<author><name>direek</name></author>"
    );
    let full = Person::new("A").email("a@example.com").uri("https://a.example");
    assert_eq!(
        full.as_concatenated_xml(),
        "<name>A</name><uri>https://a.example</uri><email>a@example.com</email>"
    );
    assert_eq!(
        full.to_xml_str("author"),
        "<author><name>A</name><uri>https://a.example</uri><email>a@example.com</email></author>"
    );
    assert_eq!(
        Person::new("B").email("b@example.com").as_concatenated_xml(),
        "<name>B</name><email>b@example.com</email>"
    );
}

#[test]
fn link_writes_present_attributes_in_fixed_order() {
    let all = Link::new().title("t").hreflang("en").type_("text/html").rel("self").href("h");
    assert_eq!(
        all.as_xml_attributes(),
        "href=\"h\" rel=\"self\" type=\"text/html\" hrefLang=\"en\" title=\"t\""
    );
    assert_eq!(
        all.to_xml_str("link"),
        "<link href=\"h\" rel=\"self\" type=\"text/html\" hrefLang=\"en\" title=\"t\" />"
    );
    assert_eq!(Link::new().title("t").href("h").as_xml_attributes(), "href=\"h\" title=\"t\"");
    assert_eq!(Link::new().type_("text/html").as_xml_attributes(), "type=\"text/html\"");
    assert_eq!(
        Link::new().hreflang("en").rel("self").as_xml_attributes(),
        "rel=\"self\" hrefLang=\"en\""
    );
}

#[test]
fn language_sits_between_type_and_title() {
    let link = Link::new().title("t").hreflang("en").type_("x");
    assert_eq!(link.to_xml_str("link"), "<link type=\"x\" hrefLang=\"en\" title=\"t\" />");
}

#[test]
fn link_without_attributes_is_still_an_element() {
    assert_eq!(Link::new().as_xml_attributes(), "");
    assert_eq!(Link::new().to_xml_str("link"), "<link  />");
    assert_eq!(Link::default().as_xml_attributes(), "");
}

#[test]
fn later_value_of_an_attribute_replaces_the_earlier() {
    assert_eq!(Link::new().href("a").href("b").as_xml_attributes(), "href=\"b\"");
}

#[test]
fn attribute_key_drops_trailing_underscores() {
    assert_eq!(attribute_key("type_"), "type");
    assert_eq!(attribute_key("href"), "href");
    assert_eq!(attribute_key("a_b__"), "a_b");
    assert_eq!(attribute_key("__"), "");
    assert_eq!(attribute_key(""), "");
}

#[test]
fn text_is_escaped_once_when_made() {
    let text = HTMLText::new("a < b & \"c\" > 'd'");
    assert_eq!(text.as_str(), "a &lt; b &amp; &quot;c&quot; &gt; &#x27;d&#x27;");
    assert_eq!(
        text.to_xml_str("title"),
        "<title type=\"html\">a &lt; b &amp; &quot;c&quot; &gt; &#x27;d&#x27;</title>"
    );
    assert_eq!(HTMLText::new("plain é—").as_str(), "plain é—");
    assert_eq!(HTMLText::new("").to_xml_str("summary"), "<summary type=\"html\"></summary>");
    assert_eq!(HTMLText::new("&amp;").as_str(), "&amp;amp;");
}

#[test]
fn escaped_text_holds_no_raw_markup() {
    let body = HTMLText::new("<div class=\"x\">Tom & Jerry's</div>");
    let body = body.as_str();
    assert!(!body.contains('<'));
    assert!(!body.contains('>'));
    assert!(!body.contains('"'));
    assert!(!body.contains('\''));
    for (at, _) in body.match_indices('&') {
        let rest = &body[at..];
        assert!(
            rest.starts_with("&amp;")
                || rest.starts_with("&lt;")
                || rest.starts_with("&gt;")
                || rest.starts_with("&quot;")
                || rest.starts_with("&#x27;")
        );
    }
}

#[test]
fn entry_renders_its_fields_in_order() {
    let entry = Entry::new("id1".to_string(), HTMLText::new("T"), "u".to_string())
        .summary(HTMLText::new("s"))
        .link(Link::new().href("h").rel("alternate"))
        .content(HTMLText::new("<p>"))
        .author(vec![Person::new("A")]);
    assert_eq!(
        entry.to_xml_str("entry"),
        "<entry><id>id1</id><title type=\"html\">T</title><updated>u</updated>\
<author><name>A</name></author><content type=\"html\">&lt;p&gt;</content>\
<link href=\"h\" rel=\"alternate\" /><summary type=\"html\">s</summary></entry>"
    );
    let bare = Entry::new("id2".to_string(), HTMLText::new("T"), "u".to_string());
    assert_eq!(
        bare.as_concatenated_xml(),
        "<id>id2</id><title type=\"html\">T</title><updated>u</updated>"
    );
}

#[test]
fn feed_without_entries_is_a_whole_document() {
    let feed = Feed::new("urn:x".to_string(), "T".to_string(), "2024-01-01T00:00:00Z".to_string());
    let xml = feed.to_xml();
    assert_eq!(
        xml,
        format!(
            "{}<id>urn:x</id><title>T</title><updated>2024-01-01T00:00:00Z</updated></feed>",
            HEAD
        )
    );
    assert!(!xml.contains("<entry"));
    let feed = Feed::new("urn:x".to_string(), "T".to_string(), "u".to_string())
        .link(vec![Link::new().href("h")])
        .entry(Vec::new());
    assert_eq!(
        feed.to_xml(),
        format!("{}<id>urn:x</id><title>T</title><updated>u</updated><link href=\"h\" /></feed>", HEAD)
    );
}

#[test]
fn two_authors_and_two_links_keep_their_order() {
    let feed = Feed::new("i".to_string(), "t".to_string(), "u".to_string())
        .link(vec![
            Link::new().href("https://page.example").type_("text/html"),
            Link::new().href("https://feed.example/atom.xml").type_("application/atom+xml").rel("self"),
        ])
        .author(vec![Person::new("direek"), Person::new("Microsoft")]);
    assert_eq!(
        feed.as_concatenated_xml(),
        "<id>i</id><title>t</title><updated>u</updated>\
<author><name>direek</name></author><author><name>Microsoft</name></author>\
<link href=\"https://page.example\" type=\"text/html\" />\
<link href=\"https://feed.example/atom.xml\" rel=\"self\" type=\"application/atom+xml\" />"
    );
}

#[test]
fn feed_renders_its_entries_last() {
    let entry = Entry::new("e".to_string(), HTMLText::new("E"), "v".to_string());
    let feed = Feed::new("i".to_string(), "t".to_string(), "u".to_string())
        .entry(vec![entry])
        .author(vec![Person::new("A")]);
    assert_eq!(
        feed.to_xml(),
        format!(
            "{}<id>i</id><title>t</title><updated>u</updated><author><name>A</name></author>\
<entry><id>e</id><title type=\"html\">E</title><updated>v</updated></entry></feed>",
            HEAD
        )
    );
}

fn article(id: &str, rel: &'static str) -> Article {
    Article::new(
        id.to_string(),
        "https://example.org/post".to_string(),
        rel,
        "Tom & Jerry".to_string(),
        "2022-05-24T21:00:00Z".to_string(),
        "<div>body</div>".to_string(),
    )
}

#[test]
fn article_keeps_its_fields() {
    let a = article("7", "self");
    assert_eq!(a.id, "7");
    assert_eq!(a.url, "https://example.org/post");
    assert_eq!(a.rel, "self");
    assert_eq!(a.title, "Tom & Jerry");
    assert_eq!(a.date, "2022-05-24T21:00:00Z");
    assert_eq!(a.body, "<div>body</div>");
}

#[test]
fn entry_of_an_article_has_its_fragment_link_and_escaped_body() {
    let entry = entry_for(&article("3110", "alternate"), "https://page.example/center");
    assert_eq!(
        entry.to_xml_str("entry"),
        "<entry><id>https://page.example/center#3110</id>\
<title type=\"html\">Tom &amp; Jerry</title><updated>2022-05-24T21:00:00Z</updated>\
<content type=\"html\">&lt;div&gt;body&lt;/div&gt;</content>\
<link href=\"https://example.org/post\" rel=\"alternate\" /></entry>"
    );
}

#[test]
fn entries_follow_their_articles() {
    let articles = vec![article("1", "alternate"), article("2", "self")];
    let entries = entries_for(&articles, "p");
    assert_eq!(entries.len(), 2);
    assert!(entries[0].as_concatenated_xml().starts_with("<id>p#1</id>"));
    assert!(entries[1].as_concatenated_xml().starts_with("<id>p#2</id>"));
    assert!(entries[1].as_concatenated_xml().ends_with("rel=\"self\" />"));
    assert!(entries_for(&Vec::new(), "p").is_empty());
}
