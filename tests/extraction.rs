use tarjousbot::scrape::{
    extract_page, parse_next_page, parse_post_marker, render_content, resolve_link, ContentNode,
};
use tarjousbot::crawl::{Crawl, Cursor, PageRef, Phase, Step};
use tarjousbot::cursor::CursorStore;
use tarjousbot::post::Error;

fn post_html(marker: &str, body: &str, avatar: bool) -> String {
    let avatar_html = if avatar {
        "<div class=\"avatar\"><img src=\"/data/avatars/m/1/1.jpg\" alt=\"\"></div>"
    } else {
        ""
    };
    format!(
        "<article class=\"message\" data-content=\"{}\">{}\
         <a href=\"/members/alice.1/\" class=\"username\">Alice</a>\
         <time class=\"u-dt\" datetime=\"2024-03-01T10:00:00+0200\">1.3.2024</time>\
         <div class=\"bbWrapper\">{}</div></article>",
        marker, avatar_html, body
    )
}

fn page_html(posts: &[String], nav: &str) -> String {
    format!("<html><body>{}{}</body></html>", posts.concat(), nav)
}

const NAV_WITH_NEXT: &str = "<ul><li class=\"pageNav-page\"><a>1</a></li>\
    <li class=\"pageNav-page pageNav-page--current\"><a>2</a></li>\
    <li class=\"pageNav-page\"><a>3</a></li></ul>";

const NAV_LAST: &str = "<ul><li class=\"pageNav-page\"><a>1</a></li>\
    <li class=\"pageNav-page pageNav-page--current\"><a>2</a></li></ul>";

#[test]
fn extracts_posts_and_next_page() {
    let body = "Tuote:Widget<br>Price <b>10 <i>e</i></b> <a href=\"https://shop.example/w\">here</a>";
    let html = page_html(&[post_html("post-41", body, true), post_html("post-42", "plain", false)], NAV_WITH_NEXT);
    let scan = extract_page(&html).unwrap();
    assert_eq!(scan.next_page, Some(3));
    assert_eq!(scan.posts.len(), 2);
    let first = &scan.posts[0];
    assert_eq!(first.id, 41);
    assert_eq!(first.raw_content, "Tuote:Widget\nPrice 10  https://shop.example/w");
    assert_eq!(first.title, "Widget");
    assert_eq!(first.author_name, "Alice");
    assert_eq!(first.author_url, "https://bbs.io-tech.fi/members/alice.1/");
    assert_eq!(first.author_avatar_url.as_deref(), Some("https://bbs.io-tech.fi/data/avatars/m/1/1.jpg"));
    assert_eq!(first.timestamp, "2024-03-01T10:00:00+0200");
    let second = &scan.posts[1];
    assert_eq!(second.id, 42);
    assert_eq!(second.author_avatar_url, None);
    assert_eq!(second.title, "Uusi tarjous");
}

#[test]
fn last_page_has_no_next() {
    let html = page_html(&[post_html("post-1", "x", false)], NAV_LAST);
    assert_eq!(extract_page(&html).unwrap().next_page, None);
    let html = page_html(&[post_html("post-1", "x", false)], "");
    assert_eq!(extract_page(&html).unwrap().next_page, None);
}

#[test]
fn malformed_marker_fails_whole_page() {
    let html = page_html(&[post_html("post-1", "x", false), post_html("post-x1", "y", false)], "");
    assert!(matches!(extract_page(&html), Err(Error::Scraping)));
    let html = page_html(&[post_html("comment-5", "y", false)], "");
    assert!(matches!(extract_page(&html), Err(Error::Scraping)));
    let html = page_html(&[post_html("post-+5", "y", false)], "");
    assert!(matches!(extract_page(&html), Err(Error::Scraping)));
}

#[test]
fn missing_time_element_is_scraping_error() {
    let html = "<div class=\"message\" data-content=\"post-9\"><a class=\"username\" href=\"/m/\">Bob</a>\
                <div class=\"bbWrapper\">hi</div></div>";
    assert!(matches!(extract_page(html), Err(Error::Scraping)));
}

#[test]
fn missing_body_is_scraping_error() {
    let html = "<div class=\"message\" data-content=\"post-9\"><a class=\"username\" href=\"/m/\">Bob</a>\
                <time class=\"u-dt\" datetime=\"t\"></time></div>";
    assert!(matches!(extract_page(html), Err(Error::Scraping)));
}

#[test]
fn avatar_without_source_is_scraping_error() {
    let html = "<div class=\"message\" data-content=\"post-9\"><div class=\"avatar\"><img alt=\"\"></div>\
                <a class=\"username\" href=\"/m/\">Bob</a><time class=\"u-dt\" datetime=\"t\"></time>\
                <div class=\"bbWrapper\">hi</div></div>";
    assert!(matches!(extract_page(html), Err(Error::Scraping)));
}

#[test]
fn unparsable_next_page_is_scraping_error() {
    let nav = "<ul><li class=\"pageNav-page pageNav-page--current\"><a>2</a></li>\
               <li class=\"pageNav-page\"><a>next</a></li></ul>";
    let html = page_html(&[post_html("post-1", "x", false)], nav);
    assert!(matches!(extract_page(&html), Err(Error::Scraping)));
}

#[test]
fn body_text_rules_example() {
    let body = "Tuote:X<br><a href=\"https://u\">label</a><b>one<i>two</i>three</b><!--c-->";
    let html = page_html(&[post_html("post-3", body, false)], "");
    let scan = extract_page(&html).unwrap();
    assert_eq!(scan.posts[0].raw_content, "Tuote:X\nhttps://uone");
    assert_eq!(scan.posts[0].title, "X");
}

#[test]
fn fatal_scraping_error_writes_no_checkpoint() {
    let mut store = CursorStore { last_page: Some(vec![1, 0, 0, 0]), last_post: Some(vec![1, 0, 0, 0]) };
    let before = (store.last_page.clone(), store.last_post.clone());
    let (mut crawl, step) = Crawl::start(&store.load());
    assert!(matches!(step, Step::Fetch(PageRef::Number(1))));
    let page1 = page_html(&[post_html("post-2", "a", false), post_html("post-3", "b", false)], NAV_WITH_NEXT);
    let mut step = crawl.page_loaded(None, extract_page(&page1).unwrap()).unwrap();
    let mut delivered = 0;
    while let Step::Deliver(_) = step {
        delivered += 1;
        step = crawl.delivered(true);
    }
    assert_eq!(delivered, 2);
    assert!(matches!(step, Step::Fetch(PageRef::Number(3))));
    let page2 = page_html(&[post_html("post-4", "c", false), post_html("post-x", "d", false)], "");
    let result = extract_page(&page2);
    assert!(matches!(result, Err(Error::Scraping)));
    assert_eq!(crawl.phase, Phase::Fetching);
    assert_eq!((store.last_page.clone(), store.last_post.clone()), before);
    store = CursorStore { last_page: before.0.clone(), last_post: before.1.clone() };
    let (_, again) = Crawl::start(&store.load());
    assert!(matches!(again, Step::Fetch(PageRef::Number(1))));
}

#[test]
fn content_pieces_concatenate() {
    let nodes = vec![
        ContentNode::Text("a".to_string()),
        ContentNode::LineBreak,
        ContentNode::Link(Some("https://x/".to_string())),
        ContentNode::Link(None),
        ContentNode::Nested(Some("quoted".to_string())),
        ContentNode::Nested(None),
        ContentNode::Other,
        ContentNode::Text("z".to_string()),
    ];
    assert_eq!(render_content(&nodes), "a\nhttps://x/quotedz");
    assert_eq!(render_content(&vec![]), "");
}

#[test]
fn post_markers() {
    assert_eq!(parse_post_marker(Some("post-123")), Some(123));
    assert_eq!(parse_post_marker(Some("post-")), None);
    assert_eq!(parse_post_marker(Some("post123")), None);
    assert_eq!(parse_post_marker(None), None);
}

#[test]
fn links_resolve_against_origin() {
    assert_eq!(resolve_link(Some("/members/a.1/")), Ok("https://bbs.io-tech.fi/members/a.1/".to_string()));
    assert_eq!(resolve_link(None), Err(Error::Scraping));
}

#[test]
fn next_page_text() {
    assert_eq!(parse_next_page(false, None), Ok(None));
    assert_eq!(parse_next_page(true, Some("7")), Ok(Some(7)));
    assert_eq!(parse_next_page(true, Some("…")), Err(Error::Scraping));
    assert_eq!(parse_next_page(true, None), Err(Error::Scraping));
}
