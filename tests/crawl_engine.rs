use tarjousbot::crawl::{page_address, Checkpoint, Crawl, Cursor, PageRef, PageScan, Phase, Step};
use tarjousbot::post::{Error, Post};

fn post(id: u32) -> Post {
    Post {
        id,
        timestamp: format!("2024-01-01T00:00:{:02}", id % 60),
        author_name: format!("user{}", id),
        author_url: format!("https://bbs.io-tech.fi/members/u.{}/", id),
        author_avatar_url: None,
        raw_content: format!("Tuote:Item {}\nbody", id),
        title: format!("Item {}", id),
    }
}

fn page(ids: &[u32], next: Option<u32>) -> PageScan {
    PageScan {
        posts: ids.iter().map(|&id| post(id)).collect(),
        next_page: next,
    }
}

fn delivered_title(step: &Step) -> String {
    match step {
        Step::Deliver(n) => n.embed.title.clone().unwrap(),
        _ => panic!("expected a delivery"),
    }
}

fn persisted(step: &Step) -> Checkpoint {
    match step {
        Step::Persist(cp) => *cp,
        _ => panic!("expected a checkpoint"),
    }
}

/// Runs one page, delivering with the given outcomes; returns the titles
/// delivered and the final step.
fn run_page(crawl: &mut Crawl, scan: PageScan, outcomes: &[bool]) -> (Vec<String>, Step) {
    let mut sent = Vec::new();
    let mut step = crawl.page_loaded(None, scan).unwrap();
    let mut k = 0;
    while let Step::Deliver(_) = &step {
        let ok = outcomes[k];
        if ok {
            sent.push(delivered_title(&step));
        }
        k += 1;
        step = crawl.delivered(ok);
    }
    (sent, step)
}

#[test]
fn start_fetches_last_page_or_latest() {
    let (c, s) = Crawl::start(&Cursor { last_page: Some(4), last_sent_id: Some(10) });
    assert!(matches!(s, Step::Fetch(PageRef::Number(4))));
    assert_eq!(c.phase, Phase::Fetching);
    let (_, s) = Crawl::start(&Cursor { last_page: None, last_sent_id: None });
    assert!(matches!(s, Step::Fetch(PageRef::Latest)));
    assert_eq!(page_address(PageRef::Number(4)), "https://bbs.io-tech.fi/threads/151/page-4");
    assert_eq!(
        page_address(PageRef::Latest),
        "https://bbs.io-tech.fi/threads/151/page-4294967295"
    );
}

#[test]
fn rerun_unchanged_thread_is_idempotent() {
    let (mut c, _) = Crawl::start(&Cursor { last_page: Some(3), last_sent_id: Some(30) });
    let (sent, step) = run_page(&mut c, page(&[28, 29, 30], None), &[]);
    assert!(sent.is_empty());
    assert_eq!(persisted(&step), Checkpoint { page: 3, last_sent_id: 30 });
}

#[test]
fn baseline_run_delivers_nothing() {
    let (mut c, _) = Crawl::start(&Cursor { last_page: Some(1), last_sent_id: None });
    let (sent, step) = run_page(&mut c, page(&[5, 6, 7], None), &[]);
    assert!(sent.is_empty());
    assert_eq!(persisted(&step), Checkpoint { page: 1, last_sent_id: 7 });
}

#[test]
fn baseline_on_empty_page_is_scraping_error() {
    let (mut c, _) = Crawl::start(&Cursor { last_page: Some(1), last_sent_id: None });
    let step = c.page_loaded(None, page(&[], None));
    assert!(matches!(step, Err(Error::Scraping)));
    assert_eq!(c.phase, Phase::Finished);
}

#[test]
fn partial_failure_checkpoints_progress() {
    let (mut c, _) = Crawl::start(&Cursor { last_page: Some(2), last_sent_id: Some(7) });
    let (sent, step) = run_page(&mut c, page(&[8, 9, 10], Some(3)), &[true, false]);
    assert_eq!(sent, vec!["Item 8".to_string()]);
    assert_eq!(persisted(&step), Checkpoint { page: 2, last_sent_id: 8 });
    assert_eq!(c.phase, Phase::Finished);
}

#[test]
fn baseline_spans_pages_without_delivering() {
    let (mut c, _) = Crawl::start(&Cursor { last_page: Some(1), last_sent_id: None });
    let (sent, step) = run_page(&mut c, page(&[1, 2], Some(2)), &[]);
    assert!(sent.is_empty());
    assert!(matches!(step, Step::Fetch(PageRef::Number(2))));
    let (sent, step) = run_page(&mut c, page(&[3, 4], None), &[]);
    assert!(sent.is_empty());
    assert_eq!(persisted(&step), Checkpoint { page: 2, last_sent_id: 4 });
}

#[test]
fn last_page_ends_in_done() {
    let (mut c, _) = Crawl::start(&Cursor { last_page: Some(1), last_sent_id: Some(1) });
    let (sent, step) = run_page(&mut c, page(&[2], Some(2)), &[true]);
    assert_eq!(sent, vec!["Item 2".to_string()]);
    assert!(matches!(step, Step::Fetch(PageRef::Number(2))));
    let (sent, step) = run_page(&mut c, page(&[3, 4], None), &[true, true]);
    assert_eq!(sent, vec!["Item 3".to_string(), "Item 4".to_string()]);
    assert_eq!(persisted(&step), Checkpoint { page: 2, last_sent_id: 4 });
    assert_eq!(c.phase, Phase::Finished);
}

#[test]
fn latest_page_resolved_from_segment() {
    let (mut c, _) = Crawl::start(&Cursor { last_page: None, last_sent_id: Some(1) });
    let step = c.page_loaded(Some("page-12"), page(&[], None)).unwrap();
    assert_eq!(persisted(&step), Checkpoint { page: 12, last_sent_id: 1 });
    let (mut c, _) = Crawl::start(&Cursor { last_page: None, last_sent_id: Some(1) });
    assert!(matches!(c.page_loaded(Some("page-+12"), page(&[], None)), Err(Error::Scraping)));

    let (mut c, _) = Crawl::start(&Cursor { last_page: None, last_sent_id: Some(1) });
    assert!(matches!(c.page_loaded(Some("151"), page(&[], None)), Err(Error::Scraping)));
    let (mut c, _) = Crawl::start(&Cursor { last_page: None, last_sent_id: Some(1) });
    assert!(matches!(c.page_loaded(None, page(&[], None)), Err(Error::Scraping)));
}

#[test]
fn watermark_never_decreases_across_runs() {
    let (mut c, _) = Crawl::start(&Cursor { last_page: Some(1), last_sent_id: None });
    let (_, step) = run_page(&mut c, page(&[5, 6, 7], None), &[]);
    let first = persisted(&step);
    let (mut c, _) = Crawl::start(&Cursor {
        last_page: Some(first.page),
        last_sent_id: Some(first.last_sent_id),
    });
    let (sent, step) = run_page(&mut c, page(&[3, 6, 7, 8], None), &[false]);
    assert!(sent.is_empty());
    let second = persisted(&step);
    assert!(second.last_sent_id >= first.last_sent_id);
    assert_eq!(second, Checkpoint { page: 1, last_sent_id: 7 });
}
