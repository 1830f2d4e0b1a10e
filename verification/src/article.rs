//! The announcement record.

use vstd::prelude::*;

verus! {

/// One announcement of the page.
#[derive(Debug)]
pub struct Article {
    /// The identifier of the row.
    pub id: String,
    /// The absolute URL that the announcement links to.
    pub url: String,
    /// The relation of that link: `alternate` or `self`.
    pub rel: &'static str,
    /// The headline, as plain text.
    pub title: String,
    /// The date, as a UTC timestamp.
    pub date: String,
    /// The body: the inner markup of the announcement's body blocks, joined
    /// in document order.
    pub body: String,
}

/// An announcement as the characters it holds.
pub struct ArticleView {
    pub id: Seq<char>,
    pub url: Seq<char>,
    pub rel: Seq<char>,
    pub title: Seq<char>,
    pub date: Seq<char>,
    pub body: Seq<char>,
}

impl View for Article {
    type V = ArticleView;

    open spec fn view(&self) -> ArticleView {
        ArticleView {
            id: self.id@,
            url: self.url@,
            rel: self.rel@,
            title: self.title@,
            date: self.date@,
            body: self.body@,
        }
    }
}

impl DeepView for Article {
    type V = ArticleView;

    open spec fn deep_view(&self) -> ArticleView {
        self@
    }
}

impl Article {
    /// An announcement of the given fields.
    pub fn new(
        id: String,
        url: String,
        rel: &'static str,
        title: String,
        date: String,
        body: String,
    ) -> (article: Self)
        ensures
            article.id == id,
            article.url == url,
            article.rel == rel,
            article.title == title,
            article.date == date,
            article.body == body,
    {
        Article { id, url, rel, title, date, body }
    }
}

} // verus!
