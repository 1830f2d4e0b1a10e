//! From announcement records to the entries of the feed.

use crate::article::Article;
use crate::article::ArticleView;
use crate::escape::escaped;
use crate::feed::Entry;
use crate::feed::EntryView;
use crate::feed::HTMLText;
use crate::link::Link;
use crate::link::LinkView;
use vstd::prelude::*;

verus! {

/// The entry that stands for an announcement of the page at `page`: its
/// identifier is the page's URL with the row's identifier as fragment, its
/// title and content are the announcement's headline and body, escaped, and
/// its one link has the announcement's URL and relation.
pub open spec fn entry_of(article: ArticleView, page: Seq<char>) -> EntryView {
    EntryView {
        id: page + "#"@ + article.id,
        title: escaped(article.title),
        updated: article.date,
        author: Seq::empty(),
        content: Some(escaped(article.body)),
        link: Some(
            LinkView {
                href: Some(article.url),
                rel: Some(article.rel),
                type_: None,
                hreflang: None,
                title: None,
            },
        ),
        summary: None,
    }
}

/// Makes the entry of one announcement.
pub fn entry_for(article: &Article, page: &str) -> (entry: Entry)
    ensures
        entry@ == entry_of(article@, page@),
{
    let mut id = page.to_owned();
    id.append("#");
    id.append(article.id.as_str());
    let title = HTMLText::new(article.title.as_str());
    let link = Link::new().href(article.url.as_str()).rel(article.rel);
    let content = HTMLText::new(article.body.as_str());
    Entry::new(id, title, article.date.clone()).link(link).content(content)
}

/// Makes the entries of some announcements, in their order.
pub fn entries_for(articles: &Vec<Article>, page: &str) -> (entries: Vec<Entry>)
    ensures
        entries.deep_view() == articles.deep_view().map_values(
            |article: ArticleView| entry_of(article, page@),
        ),
{
    let mut entries: Vec<Entry> = Vec::new();
    let mut i: usize = 0;
    while i < articles.len()
        invariant
            i <= articles@.len(),
            entries@.len() == i,
            forall|j: int| 0 <= j < i ==> (#[trigger] entries@[j])@ == entry_of(articles@[j]@, page@),
        decreases articles@.len() - i,
    {
        entries.push(entry_for(&articles[i], page));
        i += 1;
    }
    proof {
        assert(entries.deep_view() =~= articles.deep_view().map_values(
            |article: ArticleView| entry_of(article, page@),
        ));
    }
    entries
}

} // verus!
