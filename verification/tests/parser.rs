use message_center_feed::parser::Parser;
use message_center_feed::row::Anchor;
use message_center_feed::row::Row;
use message_center_feed::stamp::DateError;
use regex::Regex;
use scraper::Html;
use scraper::Selector;

const HTML_OF_ABSOLUTE_PATH: &str = r##"
<!DOCTYPE html>
<html>
<body>
<h2 id="recent-announcements">Recent announcements</h2>
<table border ='0'>
<tr><td id="3112">
<a
    href="/en-us/lifecycle/announcements/windows-10-21h2-end-of-servicing"
    target="_blank"
    data-linktype="absolute-path"
    ><b
        >Reminder: End of servicing for Windows 10, version
        21H2 Home, Pro, Pro Education, and Pro for
        Workstations</b
    ></a
></td><td class='has-no-wrap'>2022-05-24 <br>14:00 PT</td></tr>
</table>
</body>
</html>"##;
const HTML_OF_EXTERNAL: &str = r##"
<!DOCTYPE html>
<html>
<body>
<h2 id="recent-announcements">Recent announcements</h2>
<table border ='0'>
<tr><td id="3110">
<a
    href="https://support.microsoft.com/help/5027231"
    target="_blank"
    data-linktype="external"
    ><b
        >Take action: June 2023 security update is now available</b
    ></a
><a
    class="docon docon-link heading-anchor"
    aria-labelledby="3110"
    href="#3110"
    data-linktype="self-bookmark"
></a
><br />
<div>
    The June 2023 security update release is now available
    for Windows 11 and all supported versions of Windows
    10. We recommend that you install these updates
    promptly. For more information about the contents of
    this update, see the release notes, which are easily
    accessible from the&nbsp;<a
        href="https://support.microsoft.com/help/5027231"
        rel="noopener noreferrer"
        target="_blank"
        data-linktype="external"
        >Windows 11</a
    >&nbsp;and&nbsp;<a
        href="https://support.microsoft.com/help/5027215"
        rel="noopener noreferrer"
        target="_blank"
        data-linktype="external"
        >Windows 10</a
    >&nbsp;update history pages. For instructions on how
    to install this update on your home device, check
    the&nbsp;<a
        href="https://support.microsoft.com/windows/update-windows-3c5ae7fc-9fb6-9af1-1984-b5e0412c556a#WindowsVersion=Windows_11"
        rel="noopener noreferrer"
        target="_blank"
        data-linktype="external"
        >Update Windows</a
    >&nbsp;article. To learn more about the different
    types of monthly quality updates, see
    <a
        href="https://aka.ms/Windows/MonthlyUpdates"
        rel="noopener noreferrer"
        target="_blank"
        data-linktype="external"
        >Windows monthly updates explained</a
    >. To be informed about the latest updates and
    releases, follow us on Twitter <a
        href="https://twitter.com/windowsupdate"
        rel="noopener noreferrer"
        target="_blank"
        data-linktype="external"
        ><u>@WindowsUpdate</u></a
    >.
</div>
<div>&nbsp;&nbsp;</div>
<div>
    <strong
        >Highlights for the Windows 11 update:&nbsp;</strong
    >
</div>
<ul>
    <li>
        This update addresses security issues for your
        Windows operating system.&nbsp;&nbsp;&nbsp;
    </li>
    <li>
        This update addresses a known issue that affects
        32-bit apps that are&nbsp;<a
            href="/en-us/windows/win32/memory/memory-limits-for-windows-releases#memory-and-address-space-limits"
            rel="noopener noreferrer"
            target="_blank"
            data-linktype="absolute-path"
            >large address aware</a
        >&nbsp;and use the&nbsp;<a
            href="/en-us/windows/win32/api/winbase/nf-winbase-copyfile"
            rel="noopener noreferrer"
            target="_blank"
            data-linktype="absolute-path"
            >CopyFile API</a
        >. You might have issues when you save, copy, or
        attach files. If you use some commercial or
        enterprise security software that uses extended file
        attributes, this issue will likely affect you. For
        Microsoft Office apps, this issue only affects the
        32-bit versions. You might receive the error,
        "Document not saved."&nbsp;
    </li>
</ul>
<div></div>
<div>
    Short on time? Watch our short
    <a
        href="https://youtu.be/2CPFOqAoG4o"
        rel="noopener noreferrer"
        target="_blank"
        data-linktype="external"
        >Windows 11 update</a
    >
    release notes video for this month's tips.
</div>
</td><td class='has-no-wrap'>2022-05-24 <br>14:00 PT</td></tr>
</table>
</body>
</html>"##;
const HTML_OF_SELF_BOOKMARK: &str = r##"
<!DOCTYPE html>
<html>
<body>
<h2 id="recent-announcements">Recent announcements</h2>
<table border ='0'>
<tr><td id="3113">
<b
    >Reminder: Security hardening changes for Netlogon and Kerberos coming in June and July 2023</b
><a
    class="docon docon-link heading-anchor"
    aria-labelledby="3113"
    href="#3113"
    data-linktype="self-bookmark"
></a
></td><td class='has-no-wrap'>2022-05-24 <br>14:00 PT</td></tr>
</table>
</body>
</html>"##;

#[test]
fn parse_date() {
    let doc = Html::parse_document(HTML_OF_EXTERNAL);
    let selector = Selector::parse("td[id] + td").unwrap();
    let elem = doc.select(&selector).next().unwrap();
    let text: String = elem.text().collect();
    let parsed = Parser::new("", "").parse_date(&text);
    assert_eq!(parsed.ok(), Some("2022-05-24T21:00:00Z".to_string()));
}

#[test]
fn parse_url_when_absolute_path() {
    let p = Parser::new("", "https://learn.microsoft.com");
    let rows = p.rows(HTML_OF_ABSOLUTE_PATH);
    let title_element = rows[0].anchor.as_ref().unwrap();
    let ret = p.parse_url(title_element);
    assert!(ret.is_some());
    let (url, rel) = ret.unwrap();
    assert_eq!(url, "https://learn.microsoft.com/en-us/lifecycle/announcements/windows-10-21h2-end-of-servicing");
    assert_eq!(rel, "alternate");
}

#[test]
fn parse_url_when_external() {
    let p = Parser::new("", "");
    let rows = p.rows(HTML_OF_EXTERNAL);
    let title_element = rows[0].anchor.as_ref().unwrap();
    let ret = p.parse_url(title_element);
    assert!(ret.is_some());
    let (url, rel) = ret.unwrap();
    assert_eq!(url, "https://support.microsoft.com/help/5027231");
    assert_eq!(rel, "alternate");
}

#[test]
fn parse_url_when_self_bookmark() {
    let p = Parser::new(
        "https://yumetodo.github.io/unofficial-windows-message-center-rss/feed/atom10.xml",
        "",
    );
    let rows = p.rows(HTML_OF_SELF_BOOKMARK);
    let title_element = rows[0].anchor.as_ref().unwrap();
    let ret = p.parse_url(title_element);
    assert!(ret.is_some());
    let (url, rel) = ret.unwrap();
    assert_eq!(
        url,
        "https://yumetodo.github.io/unofficial-windows-message-center-rss/feed/atom10.xml"
    );
    assert_eq!(rel, "self");
}

#[test]
fn parse_title_when_alternate() {
    let p = Parser::new("", "");
    let rows = p.rows(HTML_OF_EXTERNAL);
    let ret = p.parse_title(&rows[0], "alternate");
    assert!(ret.is_some());
    let title = ret.unwrap();
    assert_eq!(
        title,
        "Take action: June 2023 security update is now available"
    );
}

#[test]
fn parse_title_when_self() {
    let p = Parser::new("", "");
    let rows = p.rows(HTML_OF_SELF_BOOKMARK);
    let ret = p.parse_title(&rows[0], "self");
    assert!(ret.is_some());
    let title = ret.unwrap();
    assert_eq!(
        title,
        "Reminder: Security hardening changes for Netlogon and Kerberos coming in June and July 2023"
    );
}

#[test]
fn parse() {
    let p = Parser::new("", "");
    let ret = p.parse(HTML_OF_EXTERNAL).unwrap();
    assert_eq!(ret.len(), 1);
    let article = &ret[0];
    assert_eq!(article.id, "3110");
    assert_eq!(article.url, "https://support.microsoft.com/help/5027231");
    assert_eq!(article.rel, "alternate");
    assert_eq!(
        article.title,
        "Take action: June 2023 security update is now available"
    );
    assert_eq!(article.date, "2022-05-24T21:00:00Z");
    let count_div = Regex::new(r"</?div>").unwrap();
    assert_eq!(count_div.find_iter(&article.body).count(), 0);
    assert!(article.body.contains(
        r"The June 2023 security update release is now available
    for Windows 11 and all supported versions of Windows
    10. We recommend that you install these updates
    promptly. For more information about the contents of
    this update, see the release notes, which are easily
    accessible from the"
    ));
    assert!(article.body.contains(
        r"article. To learn more about the different
    types of monthly quality updates, see"
    ));
    assert!(article.body.contains(
        r"To be informed about the latest updates and
    releases, follow us on Twitter"
    ));
    assert!(article
        .body
        .contains("Highlights for the Windows 11 update"));
    assert!(article.body.contains("Short on time? Watch our short"));
    assert!(article
        .body
        .contains("release notes video for this month's tips."));
}

fn text(s: &str) -> Option<String> {
    Some(s.to_string())
}

fn external_row() -> Row {
    Row {
        anchor: Some(Anchor {
            linktype: text("external"),
            href: text("https://example.org/post"),
            title: text("Inside the anchor"),
        }),
        cell_title: text("Beside the anchor"),
        id: text("42"),
        blocks: vec!["one".to_string(), "<i>two</i>".to_string()],
        date: text("2022-05-24 14:00 PT"),
    }
}

#[test]
fn rows_are_read_as_plain_text() {
    let p = Parser::new("", "");
    let rows = p.rows(HTML_OF_SELF_BOOKMARK);
    assert_eq!(rows.len(), 1);
    let row = &rows[0];
    assert_eq!(row.id.as_deref(), Some("3113"));
    assert_eq!(row.date.as_deref(), Some("2022-05-24 14:00 PT"));
    assert!(row.blocks.is_empty());
    let anchor = row.anchor.as_ref().unwrap();
    assert_eq!(anchor.linktype.as_deref(), Some("self-bookmark"));
    assert_eq!(anchor.href.as_deref(), Some("#3113"));
    assert_eq!(anchor.title, None);
    assert_eq!(
        row.cell_title.as_deref(),
        Some("Reminder: Security hardening changes for Netlogon and Kerberos coming in June and July 2023")
    );
}

#[test]
fn rows_outside_the_announcements_table_are_not_read() {
    let p = Parser::new("", "");
    let page = r#"<html><body><h2 id="other">Other</h2><table><tr><td id="1">x</td><td>y</td></tr></table></body></html>"#;
    assert!(p.rows(page).is_empty());
    assert_eq!(p.parse(page).unwrap().len(), 0);
    assert!(p.rows("").is_empty());
}

#[test]
fn row_without_body_gives_no_record() {
    let p = Parser::new("https://feed.example/atom.xml", "https://example.com");
    assert_eq!(p.parse(HTML_OF_ABSOLUTE_PATH).unwrap().len(), 0);
    assert_eq!(p.parse(HTML_OF_SELF_BOOKMARK).unwrap().len(), 0);
    let mut row = external_row();
    row.blocks.clear();
    assert!(p.parse_line(&row).unwrap().is_none());
    row.date = text("not a date");
    assert!(p.parse_line(&row).unwrap().is_none());
}

#[test]
fn row_with_every_part_gives_its_record() {
    let p = Parser::new("https://feed.example/atom.xml", "https://example.com");
    let article = p.parse_line(&external_row()).unwrap().unwrap();
    assert_eq!(article.id, "42");
    assert_eq!(article.url, "https://example.org/post");
    assert_eq!(article.rel, "alternate");
    assert_eq!(article.title, "Inside the anchor");
    assert_eq!(article.date, "2022-05-24T21:00:00Z");
    assert_eq!(article.body, "one<i>two</i>");
}

#[test]
fn absolute_path_is_put_behind_the_base_url() {
    let p = Parser::new("https://feed.example/atom.xml", "https://example.com");
    let anchor = Anchor { linktype: text("absolute-path"), href: text("/a/b"), title: None };
    assert_eq!(p.parse_url(&anchor), Some(("https://example.com/a/b".to_string(), "alternate")));
}

#[test]
fn self_bookmark_takes_the_feed_url_and_the_title_beside_the_anchor() {
    let p = Parser::new("https://feed.example/atom.xml", "https://example.com");
    let mut row = external_row();
    row.anchor = Some(Anchor {
        linktype: text("self-bookmark"),
        href: text("#42"),
        title: text("Inside the anchor"),
    });
    let anchor = row.anchor.as_ref().unwrap();
    assert_eq!(p.parse_url(anchor), Some(("https://feed.example/atom.xml".to_string(), "self")));
    let article = p.parse_line(&row).unwrap().unwrap();
    assert_eq!(article.url, "https://feed.example/atom.xml");
    assert_eq!(article.rel, "self");
    assert_eq!(article.title, "Beside the anchor");
    row.anchor = Some(Anchor { linktype: text("self-bookmark"), href: None, title: None });
    let article = p.parse_line(&row).unwrap().unwrap();
    assert_eq!(article.url, "https://feed.example/atom.xml");
}

#[test]
fn link_needs_a_known_type_and_its_href() {
    let p = Parser::new("https://feed.example/atom.xml", "https://example.com");
    let unknown = Anchor { linktype: text("relative-path"), href: text("a"), title: None };
    assert_eq!(p.parse_url(&unknown), None);
    let untyped = Anchor { linktype: None, href: text("a"), title: None };
    assert_eq!(p.parse_url(&untyped), None);
    let external = Anchor { linktype: text("external"), href: None, title: None };
    assert_eq!(p.parse_url(&external), None);
    let path = Anchor { linktype: text("absolute-path"), href: None, title: None };
    assert_eq!(p.parse_url(&path), None);
}

#[test]
fn title_follows_the_relation() {
    let p = Parser::new("", "");
    let row = external_row();
    assert_eq!(p.parse_title(&row, "alternate").as_deref(), Some("Inside the anchor"));
    assert_eq!(p.parse_title(&row, "self").as_deref(), Some("Beside the anchor"));
    assert_eq!(p.parse_title(&row, "related"), None);
    let mut bare = external_row();
    bare.anchor = None;
    assert_eq!(p.parse_title(&bare, "alternate"), None);
}

#[test]
fn row_with_a_missing_part_is_dropped() {
    let p = Parser::new("", "");
    let mut row = external_row();
    row.anchor = None;
    assert!(p.parse_line(&row).unwrap().is_none());
    let mut row = external_row();
    row.id = None;
    assert!(p.parse_line(&row).unwrap().is_none());
    let mut row = external_row();
    row.date = None;
    assert!(p.parse_line(&row).unwrap().is_none());
    let mut row = external_row();
    row.anchor.as_mut().unwrap().title = None;
    assert!(p.parse_line(&row).unwrap().is_none());
}

#[test]
fn unreadable_date_stops_the_extraction() {
    let p = Parser::new("", "");
    let mut bad = external_row();
    bad.date = text("24 May 2022 PT");
    assert_eq!(p.parse_line(&bad).err(), Some(DateError::Malformed));
    let mut worse = external_row();
    worse.date = text("2022-05-24 14:00");
    let rows = vec![external_row(), bad, worse, external_row()];
    assert_eq!(p.articles(&rows).err(), Some(DateError::Malformed));
    let page = HTML_OF_EXTERNAL.replace("14:00 PT", "14:00");
    assert_eq!(p.parse(&page).err(), Some(DateError::MissingMarker));
}

#[test]
fn records_come_in_row_order() {
    let p = Parser::new("", "");
    let mut second = external_row();
    second.id = text("43");
    let mut dropped = external_row();
    dropped.blocks.clear();
    let rows = vec![external_row(), dropped, second];
    let articles = p.articles(&rows).unwrap();
    assert_eq!(articles.len(), 2);
    assert_eq!(articles[0].id, "42");
    assert_eq!(articles[1].id, "43");
    assert_eq!(p.articles(&Vec::new()).unwrap().len(), 0);
}

#[test]
fn row_parts_come_from_the_first_match_in_document_order() {
    let page = [
        r#"<html><body><h2 id="recent-announcements">Recent</h2><table>"#,
        r#"<tr><td id="1"><a data-linktype="external" href="h1">plain</a>"#,
        r#"<a data-linktype="external" href="h2"><b>second</b></a><b>beside</b>"#,
        r#"<div>a</div><span><div>nested</div></span><div><i>b</i> c</div><div></div></td>"#,
        r#"<td>d1</td><td>d2</td></tr>"#,
        r#"<tr><td id="2"></td></tr>"#,
        r#"</table></body></html>"#,
    ]
    .join("");
    let p = Parser::new("", "");
    assert!(p.has_selectors());
    let rows = p.rows(&page);
    assert_eq!(rows.len(), 2);
    let anchor = rows[0].anchor.as_ref().unwrap();
    assert_eq!(anchor.linktype.as_deref(), Some("external"));
    assert_eq!(anchor.href.as_deref(), Some("h1"));
    assert_eq!(anchor.title, None);
    assert_eq!(rows[0].cell_title.as_deref(), Some("beside"));
    assert_eq!(rows[0].id.as_deref(), Some("1"));
    assert_eq!(rows[0].blocks, vec!["a".to_string(), "<i>b</i> c".to_string(), "".to_string()]);
    assert_eq!(rows[0].date.as_deref(), Some("d1"));
    assert!(rows[1].anchor.is_none());
    assert_eq!(rows[1].cell_title, None);
    assert_eq!(rows[1].id.as_deref(), Some("2"));
    assert!(rows[1].blocks.is_empty());
    assert_eq!(rows[1].date, None);
}

#[test]
fn body_is_the_inner_markup_of_each_division() {
    let p = Parser::new("", "");
    let doc = "<h2 id='recent-announcements'>R</h2><table><tr><td id='7'><a href='u' data-linktype='external'><b>T</b></a><div>d</div><div><i>e</i></div></td><td>2022-05-24 14:00 PT</td></tr></table>";
    let articles = p.parse(doc).unwrap();
    assert_eq!(articles.len(), 1);
    assert_eq!(articles[0].id, "7");
    assert_eq!(articles[0].body, "d<i>e</i>");
}

#[test]
fn division_without_content_still_counts_as_a_body() {
    let p = Parser::new("", "");
    let doc = "<h2 id='recent-announcements'>R</h2><table><tr><td id='7'><a href='u' data-linktype='external'><b>T</b></a><div></div></td><td>2022-05-24 14:00 PT</td></tr></table>";
    let articles = p.parse(doc).unwrap();
    assert_eq!(articles.len(), 1);
    assert_eq!(articles[0].body, "");
}
