//! The extractor: from the markup of the page to announcement records.

use crate::article::Article;
use crate::article::ArticleView;
use crate::dom::attribute;
use crate::dom::compile;
use crate::dom::compiled;
use crate::dom::document_matches;
use crate::dom::element_attribute;
use crate::dom::element_markup;
use crate::dom::element_matches;
use crate::dom::element_text;
use crate::dom::first;
use crate::dom::markup_of;
use crate::dom::parse_document;
use crate::dom::parsed;
use crate::dom::select_in_document;
use crate::dom::select_in_element;
use crate::dom::text_of;
use crate::row::Anchor;
use crate::row::AnchorView;
use crate::row::Row;
use crate::row::RowView;
use crate::stamp::stamp_of;
use crate::stamp::stamp_view;
use crate::stamp::utc_stamp;
use crate::stamp::DateError;
use crate::text::same_text;
use scraper::ElementRef;
use scraper::Html;
use scraper::Selector;
use vstd::prelude::*;

verus! {

/// The compiled selectors of the page layout.
#[derive(Debug)]
pub struct Selectors {
    /// Finds the rows of the table that follows the announcements heading.
    pub table_line: Selector,
    /// Finds, in a row, the heading anchor.
    pub article_head: Selector,
    /// Finds, in a row, the cell with an identifier.
    pub article_id: Selector,
    /// Finds, in a heading anchor, the bold elements.
    pub b_for_alternate: Selector,
    /// Finds, in a row, the bold children of the cell with an identifier.
    pub b_for_self: Selector,
    /// Finds, in a row, the divisions that are children of that cell.
    pub article_body: Selector,
    /// Finds, in a row, the cell that follows that cell.
    pub article_date: Selector,
}

/// The extractor, with the two URLs it resolves links against.
#[derive(Debug)]
pub struct Parser {
    self_uri: String,
    base_url: String,
    selectors: Option<Selectors>,
}

/// The selectors of the page layout, as compiled from their CSS texts;
/// `None` if one of the texts is rejected.
pub open spec fn layout() -> Option<Selectors> {
    match (
        compiled("#recent-announcements + table tr"@),
        compiled("td[id] > a[data-linktype]"@),
        compiled("td[id]"@),
        compiled("b"@),
        compiled("td[id] > b"@),
        compiled("td[id] > div"@),
        compiled("td[id] + td"@),
    ) {
        (Some(a), Some(b), Some(c), Some(d), Some(e), Some(f), Some(g)) => Some(
            Selectors {
                table_line: a,
                article_head: b,
                article_id: c,
                b_for_alternate: d,
                b_for_self: e,
                article_body: f,
                article_date: g,
            },
        ),
        _ => None,
    }
}

/// The text of the first element that `selector` finds below `element`.
pub open spec fn first_text_of(element: ElementRef, selector: Selector) -> Option<Seq<char>> {
    let found = element_matches(element, selector);
    if found.len() > 0 {
        Some(element_text(found[0]))
    } else {
        None
    }
}

/// What is read of a heading anchor: its link type, its `href`, and the
/// text of the first bold element below it.
pub open spec fn anchor_of(selectors: Selectors, anchor: ElementRef) -> AnchorView {
    AnchorView {
        linktype: element_attribute(anchor, "data-linktype"@),
        href: element_attribute(anchor, "href"@),
        title: first_text_of(anchor, selectors.b_for_alternate),
    }
}

/// What is read of a row: its first heading anchor, the text of the first
/// bold child of its cell with an identifier, that identifier, the inner markup
/// of every division that is a child of that cell, in order, and the text
/// of the cell that follows.
pub open spec fn row_of(selectors: Selectors, tr: ElementRef) -> RowView {
    let heads = element_matches(tr, selectors.article_head);
    let cells = element_matches(tr, selectors.article_id);
    RowView {
        anchor: if heads.len() > 0 {
            Some(anchor_of(selectors, heads[0]))
        } else {
            None
        },
        cell_title: first_text_of(tr, selectors.b_for_self),
        id: if cells.len() > 0 {
            element_attribute(cells[0], "id"@)
        } else {
            None
        },
        blocks: element_matches(tr, selectors.article_body).map_values(
            |division: ElementRef<'static>| element_markup(division),
        ),
        date: first_text_of(tr, selectors.article_date),
    }
}

/// The rows of a document: what is read of each row of the table that
/// follows the announcements heading, in order; none without selectors.
pub open spec fn rows_in(selectors: Option<Selectors>, document: Html) -> Seq<RowView> {
    match selectors {
        None => Seq::empty(),
        Some(selectors) => document_matches(document, selectors.table_line).map_values(
            |tr: ElementRef<'static>| row_of(selectors, tr),
        ),
    }
}

/// The link of a row: its URL and its relation.
pub open spec fn link_of(self_uri: Seq<char>, base_url: Seq<char>, anchor: AnchorView) -> Option<
    (Seq<char>, Seq<char>),
> {
    match anchor.linktype {
        None => None,
        Some(kind) => if kind == "external"@ {
            match anchor.href {
                Some(href) => Some((href, "alternate"@)),
                None => None,
            }
        } else if kind == "absolute-path"@ {
            match anchor.href {
                Some(href) => Some((base_url + href, "alternate"@)),
                None => None,
            }
        } else if kind == "self-bookmark"@ {
            Some((self_uri, "self"@))
        } else {
            None
        },
    }
}

/// The headline of a row whose link has the relation `rel`.
pub open spec fn title_of(row: RowView, rel: Seq<char>) -> Option<Seq<char>> {
    if rel == "self"@ {
        row.cell_title
    } else if rel == "alternate"@ {
        match row.anchor {
            Some(anchor) => anchor.title,
            None => None,
        }
    } else {
        None
    }
}

/// What a row gives: an announcement, nothing, or the error of its date.
pub open spec fn line_of(self_uri: Seq<char>, base_url: Seq<char>, row: RowView) -> Result<
    Option<ArticleView>,
    DateError,
> {
    if row.anchor is None {
        Ok(None)
    } else {
        let link = link_of(self_uri, base_url, row.anchor->0);
        if link is None {
            Ok(None)
        } else {
            let (url, rel) = link->0;
            let title = title_of(row, rel);
            if title is None || row.id is None || row.blocks.len() == 0 || row.date is None {
                Ok(None)
            } else {
                match stamp_of(row.date->0) {
                    Err(e) => Err(e),
                    Ok(date) => Ok(
                        Some(
                            ArticleView {
                                id: row.id->0,
                                url,
                                rel,
                                title: title->0,
                                date,
                                body: row.blocks.flatten(),
                            },
                        ),
                    ),
                }
            }
        }
    }
}

/// What a sequence of rows gives: the announcements of its rows in row
/// order, or the error of the first row whose date is in error.
pub open spec fn articles_of(self_uri: Seq<char>, base_url: Seq<char>, rows: Seq<RowView>) -> Result<
    Seq<ArticleView>,
    DateError,
>
    decreases rows.len(),
{
    if rows.len() == 0 {
        Ok(Seq::empty())
    } else {
        match articles_of(self_uri, base_url, rows.drop_last()) {
            Err(e) => Err(e),
            Ok(before) => match line_of(self_uri, base_url, rows.last()) {
                Err(e) => Err(e),
                Ok(None) => Ok(before),
                Ok(Some(article)) => Ok(before.push(article)),
            },
        }
    }
}

/// Whether an announcement has one of the two relations, and with the
/// relation `self` the URL of the feed.
pub open spec fn well_linked(article: ArticleView, self_uri: Seq<char>) -> bool {
    ||| article.rel == "alternate"@
    ||| article.rel == "self"@ && article.url == self_uri
}

/// What a computed link says in terms of characters.
pub open spec fn link_view(out: Option<(String, &'static str)>) -> Option<(Seq<char>, Seq<char>)> {
    match out {
        Some((url, rel)) => Some((url@, rel@)),
        None => None,
    }
}

/// What the outcome of a row says in terms of characters.
pub open spec fn line_view(out: Result<Option<Article>, DateError>) -> Result<
    Option<ArticleView>,
    DateError,
> {
    match out {
        Ok(Some(article)) => Ok(Some(article@)),
        Ok(None) => Ok(None),
        Err(e) => Err(e),
    }
}

/// What the outcome of a sequence of rows says in terms of characters.
pub open spec fn articles_view(out: Result<Vec<Article>, DateError>) -> Result<
    Seq<ArticleView>,
    DateError,
> {
    match out {
        Ok(articles) => Ok(articles.deep_view()),
        Err(e) => Err(e),
    }
}

/// A copy of an optional text.
fn copy_of(text: &Option<String>) -> (copy: Option<String>)
    ensures
        copy.deep_view() == text.deep_view(),
{
    match text {
        Some(t) => Some(t.clone()),
        None => None,
    }
}

/// The blocks of a row, joined in order.
fn join(blocks: &Vec<String>) -> (body: String)
    ensures
        body@ == blocks.deep_view().flatten(),
{
    let mut body = String::new();
    let mut i: usize = 0;
    while i < blocks.len()
        invariant
            i <= blocks@.len(),
            body@ == blocks.deep_view().take(i as int).flatten(),
        decreases blocks@.len() - i,
    {
        proof {
            let all = blocks.deep_view();
            let next = all.take(i + 1);
            assert(next.drop_last() =~= all.take(i as int));
            assert(next.last() == blocks@[i as int]@);
            next.lemma_flatten_and_flatten_alt_are_equivalent();
            next.drop_last().lemma_flatten_and_flatten_alt_are_equivalent();
        }
        body.append(blocks[i].as_str());
        i += 1;
    }
    proof {
        assert(blocks.deep_view().take(i as int) =~= blocks.deep_view());
    }
    body
}

impl Selectors {
    /// Compiles the selectors; `None` if one of them was rejected.
    fn compile() -> (selectors: Option<Selectors>)
        ensures
            selectors == layout(),
    {
        let table_line = compile("#recent-announcements + table tr");
        let article_head = compile("td[id] > a[data-linktype]");
        let article_id = compile("td[id]");
        let b_for_alternate = compile("b");
        let b_for_self = compile("td[id] > b");
        let article_body = compile("td[id] > div");
        let article_date = compile("td[id] + td");
        match (
            table_line,
            article_head,
            article_id,
            b_for_alternate,
            b_for_self,
            article_body,
            article_date,
        ) {
            (Some(a), Some(b), Some(c), Some(d), Some(e), Some(f), Some(g)) => Some(
                Selectors {
                    table_line: a,
                    article_head: b,
                    article_id: c,
                    b_for_alternate: d,
                    b_for_self: e,
                    article_body: f,
                    article_date: g,
                },
            ),
            _ => None,
        }
    }

    /// The text of the first element that the selector finds below `tr`.
    fn first_text<'a>(tr: ElementRef<'a>, selector: &Selector) -> (text: Option<String>)
        ensures
            text.deep_view() == first_text_of(tr, *selector),
    {
        match first(&select_in_element(tr, selector)) {
            Some(found) => Some(text_of(found)),
            None => None,
        }
    }

    /// Reads the heading anchor.
    fn read_anchor<'a>(&self, anchor: ElementRef<'a>) -> (read: Anchor)
        ensures
            read@ == anchor_of(*self, anchor),
    {
        Anchor {
            linktype: attribute(anchor, "data-linktype"),
            href: attribute(anchor, "href"),
            title: Self::first_text(anchor, &self.b_for_alternate),
        }
    }

    /// Reads one row of the table.
    fn read_row<'a>(&self, tr: ElementRef<'a>) -> (row: Row)
        ensures
            row@ == row_of(*self, tr),
    {
        let anchor = match first(&select_in_element(tr, &self.article_head)) {
            Some(found) => Some(self.read_anchor(found)),
            None => None,
        };
        let id = match first(&select_in_element(tr, &self.article_id)) {
            Some(cell) => attribute(cell, "id"),
            None => None,
        };
        let divisions = select_in_element(tr, &self.article_body);
        let mut blocks: Vec<String> = Vec::new();
        let mut i: usize = 0;
        while i < divisions.len()
            invariant
                i <= divisions@.len(),
                blocks@.len() == i,
                forall|j: int| 0 <= j < i ==> (#[trigger] blocks@[j])@ == element_markup(divisions@[j]),
            decreases divisions@.len() - i,
        {
            blocks.push(markup_of(divisions[i]));
            i += 1;
        }
        proof {
            assert(blocks.deep_view() =~= divisions@.map_values(
                |division: ElementRef<'static>| element_markup(division),
            ));
        }
        Row {
            anchor,
            cell_title: Self::first_text(tr, &self.b_for_self),
            id,
            blocks,
            date: Self::first_text(tr, &self.article_date),
        }
    }
}

impl Parser {
    /// The canonical URL of the feed, which rows that link to themselves
    /// get.
    pub closed spec fn self_uri(&self) -> Seq<char> {
        self.self_uri@
    }

    /// The URL that path-relative links are resolved against.
    pub closed spec fn base_url(&self) -> Seq<char> {
        self.base_url@
    }

    /// The selectors that the extractor holds, if they were compiled.
    pub closed spec fn selectors(&self) -> Option<Selectors> {
        self.selectors
    }

    /// Whether the selectors of the page layout were compiled. Without
    /// them the extractor finds no rows.
    pub open spec fn is_ready(&self) -> bool {
        self.selectors() is Some
    }

    /// The rows that this extractor reads out of the markup of a page.
    pub open spec fn rows_of(&self, markup: Seq<char>) -> Seq<RowView> {
        rows_in(self.selectors(), parsed(markup))
    }

    /// What this extractor makes of one row.
    pub open spec fn line(&self, row: RowView) -> Result<Option<ArticleView>, DateError> {
        line_of(self.self_uri(), self.base_url(), row)
    }

    /// What this extractor makes of a sequence of rows.
    pub open spec fn articles_from(&self, rows: Seq<RowView>) -> Result<
        Seq<ArticleView>,
        DateError,
    > {
        articles_of(self.self_uri(), self.base_url(), rows)
    }

    /// An extractor for a feed that lives at `self_uri`, of a page whose
    /// path-relative links are relative to `base_url`.
    pub fn new(self_uri: &str, base_url: &str) -> (parser: Self)
        ensures
            parser.self_uri() == self_uri@,
            parser.base_url() == base_url@,
            parser.selectors() == layout(),
    {
        Parser {
            self_uri: self_uri.to_owned(),
            base_url: base_url.to_owned(),
            selectors: Selectors::compile(),
        }
    }

    /// Whether the selectors of the page layout were compiled.
    pub fn has_selectors(&self) -> (ready: bool)
        ensures
            ready == self.is_ready(),
    {
        self.selectors.is_some()
    }

    /// Resolves the link of a row from its heading anchor.
    pub fn parse_url(&self, anchor: &Anchor) -> (out: Option<(String, &'static str)>)
        ensures
            link_view(out) == link_of(self.self_uri(), self.base_url(), anchor@),
    {
        let kind = match &anchor.linktype {
            Some(kind) => kind,
            None => {
                return None;
            },
        };
        if same_text(kind.as_str(), "external") {
            match &anchor.href {
                Some(href) => Some((href.clone(), "alternate")),
                None => None,
            }
        } else if same_text(kind.as_str(), "absolute-path") {
            match &anchor.href {
                Some(href) => Some((self.base_url.clone().concat(href.as_str()), "alternate")),
                None => None,
            }
        } else if same_text(kind.as_str(), "self-bookmark") {
            Some((self.self_uri.clone(), "self"))
        } else {
            None
        }
    }

    /// Reads the text of a date cell as a UTC timestamp.
    pub fn parse_date(&self, text: &str) -> (out: Result<String, DateError>)
        ensures
            stamp_view(out) == stamp_of(text@),
    {
        utc_stamp(text)
    }

    /// Resolves the headline of a row whose link has the relation `rel`.
    pub fn parse_title(&self, row: &Row, rel: &str) -> (out: Option<String>)
        ensures
            out.deep_view() == title_of(row@, rel@),
    {
        if same_text(rel, "self") {
            copy_of(&row.cell_title)
        } else if same_text(rel, "alternate") {
            match &row.anchor {
                Some(anchor) => copy_of(&anchor.title),
                None => None,
            }
        } else {
            None
        }
    }

    /// Resolves one row: `Ok(None)` where a part of the record is missing,
    /// an error where all parts are there and the date cannot be read.
    pub fn parse_line(&self, row: &Row) -> (out: Result<Option<Article>, DateError>)
        ensures
            line_view(out) == self.line(row@),
    {
        let anchor = match &row.anchor {
            Some(anchor) => anchor,
            None => {
                return Ok(None);
            },
        };
        let (url, rel) = match self.parse_url(anchor) {
            Some(link) => link,
            None => {
                return Ok(None);
            },
        };
        let title = match self.parse_title(row, rel) {
            Some(title) => title,
            None => {
                return Ok(None);
            },
        };
        let id = match &row.id {
            Some(id) => id.clone(),
            None => {
                return Ok(None);
            },
        };
        if row.blocks.len() == 0 {
            return Ok(None);
        }
        let body = join(&row.blocks);
        let text = match &row.date {
            Some(text) => text,
            None => {
                return Ok(None);
            },
        };
        match self.parse_date(text.as_str()) {
            Ok(date) => Ok(Some(Article::new(id, url, rel, title, date, body))),
            Err(e) => Err(e),
        }
    }

    /// Reads the rows of the announcements table out of the markup of the
    /// page, in the order in which they are found. A page without such a
    /// table has no rows, and an extractor without selectors finds none.
    pub fn rows(&self, doc: &str) -> (rows: Vec<Row>)
        ensures
            rows.deep_view() == self.rows_of(doc@),
            !self.is_ready() ==> rows@.len() == 0,
    {
        let mut rows: Vec<Row> = Vec::new();
        let selectors = match &self.selectors {
            Some(selectors) => selectors,
            None => {
                proof {
                    assert(rows.deep_view() =~= Seq::empty());
                }
                return rows;
            },
        };
        let document = parse_document(doc);
        let lines = select_in_document(&document, &selectors.table_line);
        let mut i: usize = 0;
        while i < lines.len()
            invariant
                i <= lines@.len(),
                rows@.len() == i,
                forall|j: int| 0 <= j < i ==> (#[trigger] rows@[j])@ == row_of(*selectors, lines@[j]),
            decreases lines@.len() - i,
        {
            rows.push(selectors.read_row(lines[i]));
            i += 1;
        }
        proof {
            assert(rows.deep_view() =~= lines@.map_values(
                |tr: ElementRef<'static>| row_of(*selectors, tr),
            ));
        }
        rows
    }

    /// Resolves rows in order: the announcements of the rows that have
    /// one, or the error of the first row whose date cannot be read.
    pub fn articles(&self, rows: &Vec<Row>) -> (out: Result<Vec<Article>, DateError>)
        ensures
            articles_view(out) == self.articles_from(rows.deep_view()),
            out matches Ok(articles) ==> forall|i: int|
                0 <= i < articles@.len() ==> well_linked(
                    (#[trigger] articles@[i])@,
                    self.self_uri(),
                ),
    {
        let mut articles: Vec<Article> = Vec::new();
        let mut i: usize = 0;
        proof {
            assert(articles.deep_view() =~= Seq::empty());
        }
        while i < rows.len()
            invariant
                i <= rows@.len(),
                self.articles_from(rows.deep_view().take(i as int)) == Ok::<
                    Seq<ArticleView>,
                    DateError,
                >(articles.deep_view()),
            decreases rows@.len() - i,
        {
            proof {
                let next = rows.deep_view().take(i + 1);
                assert(next.drop_last() =~= rows.deep_view().take(i as int));
                assert(next.last() == rows@[i as int]@);
            }
            let ghost before = articles.deep_view();
            match self.parse_line(&rows[i]) {
                Err(e) => {
                    proof {
                        lemma_error_stays(
                            self.self_uri(),
                            self.base_url(),
                            rows.deep_view(),
                            i + 1,
                        );
                    }
                    return Err(e);
                },
                Ok(None) => {},
                Ok(Some(article)) => {
                    articles.push(article);
                    proof {
                        assert(articles.deep_view() =~= before.push(article@));
                    }
                },
            }
            i += 1;
        }
        proof {
            assert(rows.deep_view().take(i as int) =~= rows.deep_view());
            law_articles_are_well_linked(self.self_uri(), self.base_url(), rows.deep_view());
            let found = articles_of(self.self_uri(), self.base_url(), rows.deep_view());
            assert(found->Ok_0 == articles.deep_view());
            assert forall|i: int| 0 <= i < articles@.len() implies well_linked(
                (#[trigger] articles@[i])@,
                self.self_uri(),
            ) by {
                assert(found->Ok_0[i] == articles@[i]@);
            }
        }
        Ok(articles)
    }

    /// Extracts the announcements of the page: those of its rows, in row
    /// order, or the error of the first row whose date cannot be read.
    pub fn parse(&self, doc: &str) -> (out: Result<Vec<Article>, DateError>)
        ensures
            articles_view(out) == self.articles_from(self.rows_of(doc@)),
            out matches Ok(articles) ==> forall|i: int|
                0 <= i < articles@.len() ==> well_linked(
                    (#[trigger] articles@[i])@,
                    self.self_uri(),
                ),
            !self.is_ready() ==> (out matches Ok(articles) && articles@.len() == 0),
    {
        let rows = self.rows(doc);
        let out = self.articles(&rows);
        proof {
            if !self.is_ready() {
                assert(rows.deep_view() =~= Seq::empty());
                assert(out->Ok_0.deep_view().len() == out->Ok_0@.len());
            }
        }
        out
    }
}

/// An error among the first `n` rows is the error of the whole sequence.
pub proof fn lemma_error_stays(
    self_uri: Seq<char>,
    base_url: Seq<char>,
    rows: Seq<RowView>,
    n: int,
)
    requires
        0 <= n <= rows.len(),
        articles_of(self_uri, base_url, rows.take(n)) is Err,
    ensures
        articles_of(self_uri, base_url, rows) == articles_of(self_uri, base_url, rows.take(n)),
    decreases rows.len() - n,
{
    if n == rows.len() {
        assert(rows.take(n) =~= rows);
    } else {
        assert(rows.drop_last().take(n) =~= rows.take(n));
        lemma_error_stays(self_uri, base_url, rows.drop_last(), n);
    }
}

/// The announcements of two sequences of rows joined are those of the
/// first followed by those of the second; an error in the first goes before
/// one in the second.
pub proof fn law_articles_in_row_order(
    self_uri: Seq<char>,
    base_url: Seq<char>,
    first: Seq<RowView>,
    second: Seq<RowView>,
)
    ensures
        articles_of(self_uri, base_url, first + second) == match articles_of(
            self_uri,
            base_url,
            first,
        ) {
            Err(e) => Err(e),
            Ok(head) => match articles_of(self_uri, base_url, second) {
                Err(e) => Err(e),
                Ok(tail) => Ok(head + tail),
            },
        },
    decreases second.len(),
{
    let head = articles_of(self_uri, base_url, first);
    if second.len() == 0 {
        assert(first + second =~= first);
        if head is Ok {
            assert(head->Ok_0 + Seq::<ArticleView>::empty() =~= head->Ok_0);
        }
    } else {
        law_articles_in_row_order(self_uri, base_url, first, second.drop_last());
        assert((first + second).drop_last() =~= first + second.drop_last());
        assert((first + second).last() == second.last());
        let tail = articles_of(self_uri, base_url, second.drop_last());
        if head is Ok && tail is Ok {
            match line_of(self_uri, base_url, second.last()) {
                Ok(Some(article)) => {
                    assert((head->Ok_0 + tail->Ok_0).push(article) =~= head->Ok_0
                        + tail->Ok_0.push(article));
                },
                _ => {},
            }
        }
    }
}

/// A row without a body block gives no announcement, whatever else it
/// holds, and no error either.
pub proof fn law_row_without_body(self_uri: Seq<char>, base_url: Seq<char>, row: RowView)
    requires
        row.blocks.len() == 0,
    ensures
        line_of(self_uri, base_url, row) == Ok::<Option<ArticleView>, DateError>(None),
{
}

/// A row without a body block, wherever it stands among other rows, leaves
/// what they give as it is.
pub proof fn law_row_without_body_among_rows(
    self_uri: Seq<char>,
    base_url: Seq<char>,
    before: Seq<RowView>,
    row: RowView,
    after: Seq<RowView>,
)
    requires
        row.blocks.len() == 0,
    ensures
        articles_of(self_uri, base_url, before + seq![row] + after) == articles_of(
            self_uri,
            base_url,
            before + after,
        ),
{
    let one = seq![row];
    assert(one.drop_last() =~= Seq::<RowView>::empty());
    assert(one.last() == row);
    assert(articles_of(self_uri, base_url, one.drop_last()) == Ok::<Seq<ArticleView>, DateError>(
        Seq::empty(),
    ));
    assert(articles_of(self_uri, base_url, one) == Ok::<Seq<ArticleView>, DateError>(
        Seq::empty(),
    ));
    law_articles_in_row_order(self_uri, base_url, before, one);
    law_articles_in_row_order(self_uri, base_url, before + one, after);
    law_articles_in_row_order(self_uri, base_url, before, after);
    let head = articles_of(self_uri, base_url, before);
    if head is Ok {
        assert(head->Ok_0 + Seq::<ArticleView>::empty() =~= head->Ok_0);
    }
}

/// A heading anchor whose link type is `self-bookmark` links to the feed
/// itself, whatever its own `href` is.
pub proof fn law_self_bookmark_link(self_uri: Seq<char>, base_url: Seq<char>, anchor: AnchorView)
    requires
        anchor.linktype == Some("self-bookmark"@),
    ensures
        link_of(self_uri, base_url, anchor) == Some((self_uri, "self"@)),
{
    reveal_strlit("self-bookmark");
    reveal_strlit("external");
    reveal_strlit("absolute-path");
    assert("self-bookmark"@.len() != "external"@.len());
    assert("self-bookmark"@[0] != "absolute-path"@[0]);
}

/// The relation of a resolved link is `self` or `alternate`, and a link
/// of the relation `self` has the URL of the feed.
pub proof fn law_self_relation_has_feed_url(
    self_uri: Seq<char>,
    base_url: Seq<char>,
    anchor: AnchorView,
)
    requires
        link_of(self_uri, base_url, anchor) is Some,
    ensures
        ({
            let (url, rel) = link_of(self_uri, base_url, anchor)->0;
            &&& rel == "self"@ || rel == "alternate"@
            &&& rel == "self"@ ==> url == self_uri
        }),
{
    reveal_strlit("self");
    reveal_strlit("alternate");
    assert("self"@.len() != "alternate"@.len());
}

/// An announcement of the relation `self` has the URL of the feed, and
/// every announcement has one of the two relations.
pub proof fn law_article_is_well_linked(self_uri: Seq<char>, base_url: Seq<char>, row: RowView)
    requires
        line_of(self_uri, base_url, row) matches Ok(Some(_)),
    ensures
        line_of(self_uri, base_url, row) matches Ok(Some(article)) && well_linked(article, self_uri),
{
    law_self_relation_has_feed_url(self_uri, base_url, row.anchor->0);
}

/// Every announcement of a sequence of rows has one of the two
/// relations, and with the relation `self` the URL of the feed.
pub proof fn law_articles_are_well_linked(
    self_uri: Seq<char>,
    base_url: Seq<char>,
    rows: Seq<RowView>,
)
    ensures
        articles_of(self_uri, base_url, rows) matches Ok(articles) ==> forall|i: int|
            0 <= i < articles.len() ==> well_linked(#[trigger] articles[i], self_uri),
    decreases rows.len(),
{
    if rows.len() > 0 {
        law_articles_are_well_linked(self_uri, base_url, rows.drop_last());
        if line_of(self_uri, base_url, rows.last()) matches Ok(Some(_)) {
            law_article_is_well_linked(self_uri, base_url, rows.last());
        }
    }
}

} // verus!
