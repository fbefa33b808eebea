//! The crawl engine: decides, from the cursor and what each page holds, which
//! page to fetch, which posts to announce and what checkpoint to persist.
//!
//! The caller performs each [`Step`] and reports back: the content of a
//! fetched page, or whether a delivery succeeded.
use vstd::prelude::*;
use crate::embed::{opt_str_view, EmbedBuilder};
use crate::post::{format_post, is_notification_of, Error, Post};
use crate::text::{get_page_url, number_after, page_url, parse_prefixed_u32};

verus! {

/// A page to fetch: a numbered one, or the thread's latest.
#[derive(Debug, PartialEq, Eq, Structural, Clone, Copy)]
pub enum PageRef {
    Latest,
    Number(u32),
}

/// What a page holds: its posts in document order, and the number of the next
/// page (none on the last page).
pub struct PageScan {
    pub posts: Vec<Post>,
    pub next_page: Option<u32>,
}

/// The durable state as loaded at the start of a run.
#[derive(Debug, PartialEq, Eq, Structural, Clone, Copy)]
pub struct Cursor {
    pub last_page: Option<u32>,
    pub last_sent_id: Option<u32>,
}

/// The durable state a run writes when it ends.
#[derive(Debug, PartialEq, Eq, Structural, Clone, Copy)]
pub struct Checkpoint {
    pub page: u32,
    pub last_sent_id: u32,
}

#[derive(Debug, PartialEq, Eq, Structural, Clone, Copy)]
pub enum Phase {
    /// Waiting for the content of `request`.
    Fetching,
    /// Waiting for the outcome of the delivery of the post at `pos`.
    Delivering,
    /// The run has ended, with a checkpoint or with an error.
    Finished,
}

/// What the caller does next.
pub enum Step {
    Fetch(PageRef),
    Deliver(EmbedBuilder),
    Persist(Checkpoint),
}

/// The state of one run.
pub struct Crawl {
    /// The page to fetch next.
    pub request: PageRef,
    /// The page being scanned.
    pub page: u32,
    /// The watermark loaded from the cursor; none on a baseline run.
    pub loaded_id: Option<u32>,
    /// The highest post id delivered so far (or, on a baseline run, the last seen).
    pub watermark: u32,
    /// A delivery has failed in this run.
    pub failed: bool,
    pub scan: PageScan,
    /// Where the scan of the current page stands.
    pub pos: usize,
    pub phase: Phase,
}

/// The marker in front of a page number in the address of a page.
pub open spec fn page_prefix() -> Seq<char> {
    seq!['p', 'a', 'g', 'e', '-']
}

/// The page that a fetch of `request` resolved to, given the last path segment
/// of the address the server answered from.
pub open spec fn resolved_page(request: PageRef, segment: Option<Seq<char>>) -> Option<u32> {
    match request {
        PageRef::Number(n) => Some(n),
        PageRef::Latest => match segment {
            Some(s) => number_after(s, page_prefix()),
            None => None,
        },
    }
}

/// The page number in the address that the server redirects to its latest page.
pub const LATEST_PAGE_ALIAS: u32 = 4294967295;

/// The address fetched for `request`.
pub open spec fn request_url(request: PageRef) -> Seq<char> {
    match request {
        PageRef::Number(n) => page_url(n),
        PageRef::Latest => page_url(LATEST_PAGE_ALIAS),
    }
}

/// The address to fetch for `request`.
pub fn page_address(request: PageRef) -> (r: String)
    ensures
        r@ == request_url(request),
{
    match request {
        PageRef::Number(n) => get_page_url(n),
        PageRef::Latest => get_page_url(LATEST_PAGE_ALIAS),
    }
}

/// The post `p` is already delivered under watermark `w`.
pub open spec fn seen(p: Post, w: u32) -> bool {
    p.id <= w
}

/// The first slot from `from` on that is not seen under `w`; the length if none.
pub open spec fn first_new(posts: Seq<Post>, w: u32, from: int) -> int
    decreases posts.len() - from,
{
    if 0 <= from < posts.len() && seen(posts[from], w) {
        first_new(posts, w, from + 1)
    } else {
        from
    }
}

impl Crawl {
    /// No post is delivered in this run: the cursor had no watermark.
    pub open spec fn baseline(&self) -> bool {
        self.loaded_id is None
    }

    pub open spec fn wf_core(&self) -> bool {
        &&& self.pos <= self.scan.posts@.len()
        &&& self.loaded_id is Some ==> self.watermark >= self.loaded_id->Some_0
    }

    pub open spec fn wf(&self) -> bool {
        &&& self.wf_core()
        &&& self.phase == Phase::Delivering ==> {
            &&& !self.baseline()
            &&& !self.failed
            &&& self.pos < self.scan.posts@.len()
            &&& self.scan.posts@[self.pos as int].id > self.watermark
        }
    }
}

/// Index of the next post to deliver on the current page; the page's length
/// when there is none (on a baseline run, or after a failed delivery).
pub open spec fn pending(c: Crawl) -> int {
    if c.baseline() || c.failed {
        c.scan.posts@.len() as int
    } else {
        first_new(c.scan.posts@, c.watermark, c.pos as int)
    }
}

/// The id of the last post of a page, as a baseline run takes it.
pub open spec fn baseline_id(scan: PageScan) -> Option<u32> {
    if scan.posts@.len() == 0 {
        None
    } else {
        Some(scan.posts@.last().id)
    }
}

/// The state once page `page` with content `scan` is loaded.
pub open spec fn loaded(c: Crawl, page: u32, scan: PageScan) -> Crawl {
    Crawl {
        page,
        scan,
        pos: 0,
        watermark: if c.baseline() {
            baseline_id(scan)->Some_0
        } else {
            c.watermark
        },
        ..c
    }
}

/// The state once the delivery of the pending post succeeded or failed.
pub open spec fn after_delivery(c: Crawl, ok: bool) -> Crawl {
    if ok {
        Crawl {
            watermark: c.scan.posts@[c.pos as int].id,
            pos: (c.pos + 1) as usize,
            ..c
        }
    } else {
        Crawl { failed: true, ..c }
    }
}

/// The checkpoint of state `c`.
pub open spec fn checkpoint_of(c: Crawl) -> Checkpoint {
    Checkpoint { page: c.page, last_sent_id: c.watermark }
}

/// The step once no post of the current page is left to deliver: stay on
/// this page after a failed delivery, else go on to the next page, or end
/// on the last one.
pub open spec fn finish_outcome(c: Crawl) -> Step {
    if c.failed {
        Step::Persist(checkpoint_of(c))
    } else {
        match c.scan.next_page {
            Some(p) => Step::Fetch(PageRef::Number(p)),
            None => Step::Persist(checkpoint_of(c)),
        }
    }
}

/// The state once no post of the current page is left to deliver.
pub open spec fn after_finish(c: Crawl) -> Crawl {
    if !c.failed && c.scan.next_page is Some {
        Crawl {
            request: PageRef::Number(c.scan.next_page->Some_0),
            phase: Phase::Fetching,
            ..c
        }
    } else {
        Crawl { phase: Phase::Finished, ..c }
    }
}

/// From state `c` the run went on to state `n` with step `r`: it announces
/// the next new post of the page, or else finishes the page.
pub open spec fn advanced(c: Crawl, n: Crawl, r: Step) -> bool {
    let posts = c.scan.posts@;
    let j = pending(c);
    if j < posts.len() {
        &&& n == Crawl { pos: j as usize, phase: Phase::Delivering, ..c }
        &&& r is Deliver
        &&& is_notification_of(r->Deliver_0, posts[j])
    } else {
        &&& r == finish_outcome(c)
        &&& n == after_finish(c)
    }
}

proof fn lemma_first_new(posts: Seq<Post>, w: u32, from: int)
    requires
        0 <= from <= posts.len(),
    ensures
        from <= first_new(posts, w, from) <= posts.len(),
        first_new(posts, w, from) < posts.len() ==> !seen(posts[first_new(posts, w, from)], w),
        forall|k: int| from <= k < first_new(posts, w, from) ==> seen(#[trigger] posts[k], w),
    decreases posts.len() - from,
{
    if from < posts.len() && seen(posts[from], w) {
        lemma_first_new(posts, w, from + 1);
    }
}

/// Whether post `p` is seen under watermark `w`.
fn post_seen(p: &Post, w: u32) -> (r: bool)
    ensures
        r == seen(*p, w),
{
    p.id <= w
}

impl Crawl {
    /// Begins a run from the loaded cursor: the first step fetches the page
    /// last scanned, or the latest page when none was.
    pub fn start(cursor: &Cursor) -> (r: (Crawl, Step))
        ensures
            r.0.wf(),
            r.0.phase == Phase::Fetching,
            r.0.request == (match cursor.last_page {
                Some(p) => PageRef::Number(p),
                None => PageRef::Latest,
            }),
            r.0.loaded_id == cursor.last_sent_id,
            cursor.last_sent_id is Some ==> r.0.watermark == cursor.last_sent_id->Some_0,
            !r.0.failed,
            r.1 == Step::Fetch(r.0.request),
    {
        let request = match cursor.last_page {
            Some(p) => PageRef::Number(p),
            None => PageRef::Latest,
        };
        let watermark = match cursor.last_sent_id {
            Some(w) => w,
            None => 0,
        };
        let crawl = Crawl {
            request,
            page: 0,
            loaded_id: cursor.last_sent_id,
            watermark,
            failed: false,
            scan: PageScan { posts: Vec::new(), next_page: None },
            pos: 0,
            phase: Phase::Fetching,
        };
        (crawl, Step::Fetch(request))
    }

    /// Index of the next post to deliver on the current page.
    fn next_pending(&self) -> (j: usize)
        requires
            self.wf_core(),
        ensures
            j == pending(*self),
    {
        let len = self.scan.posts.len();
        if self.loaded_id.is_none() || self.failed {
            return len;
        }
        let mut j = self.pos;
        while j < len && post_seen(&self.scan.posts[j], self.watermark)
            invariant
                self.wf_core(),
                !self.baseline(),
                !self.failed,
                len == self.scan.posts@.len(),
                self.pos <= j <= len,
                first_new(self.scan.posts@, self.watermark, self.pos as int) == first_new(
                    self.scan.posts@,
                    self.watermark,
                    j as int,
                ),
            decreases len - j,
        {
            j = j + 1;
        }
        j
    }

    /// Goes on from the current scan position.
    fn advance(&mut self) -> (r: Step)
        requires
            old(self).wf_core(),
        ensures
            advanced(*old(self), *final(self), r),
            final(self).wf(),
    {
        let j = self.next_pending();
        let len = self.scan.posts.len();
        proof {
            if !self.baseline() && !self.failed {
                lemma_first_new(self.scan.posts@, self.watermark, self.pos as int);
            }
        }
        if j < len {
            let note = format_post(&self.scan.posts[j]);
            self.pos = j;
            self.phase = Phase::Delivering;
            return Step::Deliver(note);
        }
        if self.failed {
            self.phase = Phase::Finished;
            return Step::Persist(Checkpoint { page: self.page, last_sent_id: self.watermark });
        }
        match self.scan.next_page {
            Some(p) => {
                let next = PageRef::Number(p);
                self.request = next;
                self.phase = Phase::Fetching;
                Step::Fetch(next)
            },
            None => {
                self.phase = Phase::Finished;
                Step::Persist(Checkpoint { page: self.page, last_sent_id: self.watermark })
            },
        }
    }

    /// Takes in the page that was fetched for `request`: `segment` is the last
    /// path segment of the address the server answered from, and `scan` what
    /// the page holds.
    pub fn page_loaded(&mut self, segment: Option<&str>, scan: PageScan) -> (r: Result<
        Step,
        Error,
    >)
        requires
            old(self).wf(),
            old(self).phase == Phase::Fetching,
        ensures
            final(self).wf(),
            match resolved_page(old(self).request, opt_str_view(segment)) {
                None => r == Err::<Step, Error>(Error::Scraping) && final(self).phase
                    == Phase::Finished,
                Some(p) => if old(self).baseline() && baseline_id(scan) is None {
                    r == Err::<Step, Error>(Error::Scraping) && final(self).phase
                        == Phase::Finished
                } else {
                    r is Ok && advanced(loaded(*old(self), p, scan), *final(self), r->Ok_0)
                },
            },
    {
        let page = match self.request {
            PageRef::Number(n) => n,
            PageRef::Latest => {
                proof {
                    reveal_strlit("page-");
                }
                let prefix = "page-";
                assert(prefix@ =~= page_prefix());
                let found = match segment {
                    Some(s) => parse_prefixed_u32(s, prefix),
                    None => None,
                };
                match found {
                    Some(n) => n,
                    None => {
                        self.phase = Phase::Finished;
                        return Err(Error::Scraping);
                    },
                }
            },
        };
        if self.loaded_id.is_none() {
            let len = scan.posts.len();
            if len == 0 {
                self.phase = Phase::Finished;
                return Err(Error::Scraping);
            }
            self.watermark = scan.posts[len - 1].id;
        }
        self.page = page;
        self.scan = scan;
        self.pos = 0;
        Ok(self.advance())
    }

    /// Takes in the outcome of the delivery of the pending post.
    pub fn delivered(&mut self, ok: bool) -> (r: Step)
        requires
            old(self).wf(),
            old(self).phase == Phase::Delivering,
        ensures
            final(self).wf(),
            advanced(after_delivery(*old(self), ok), *final(self), r),
    {
        if ok {
            let len = self.scan.posts.len();
            self.watermark = self.scan.posts[self.pos].id;
            self.pos = self.pos + 1;
        } else {
            self.failed = true;
        }
        self.advance()
    }
}

/// A re-run over an unchanged thread, from the checkpoint that the last run
/// left on its last page, delivers nothing and persists that same checkpoint.
pub proof fn lemma_rerun_changes_nothing(
    c: Crawl,
    segment: Option<Seq<char>>,
    scan: PageScan,
    page: u32,
    last_sent_id: u32,
)
    requires
        c.wf(),
        c.phase == Phase::Fetching,
        c.request == PageRef::Number(page),
        c.loaded_id == Some(last_sent_id),
        c.watermark == last_sent_id,
        !c.failed,
        forall|i: int| 0 <= i < scan.posts@.len() ==> seen(#[trigger] scan.posts@[i], last_sent_id),
        scan.next_page is None,
    ensures
        resolved_page(c.request, segment) == Some(page),
        pending(loaded(c, page, scan)) == scan.posts@.len(),
        finish_outcome(loaded(c, page, scan)) == Step::Persist(Checkpoint { page, last_sent_id }),
{
    let m = loaded(c, page, scan);
    lemma_first_new(scan.posts@, last_sent_id, 0);
    let j = first_new(scan.posts@, last_sent_id, 0);
    if j < scan.posts@.len() {
        assert(seen(scan.posts@[j], last_sent_id));
    }
}

/// The watermark that a run persists is never below the one it loaded, and
/// every transition keeps the state well formed, so the persisted watermark
/// never decreases from run to run.
pub proof fn lemma_persisted_watermark_monotone(c: Crawl)
    requires
        c.wf(),
        c.loaded_id is Some,
    ensures
        finish_outcome(c) is Persist ==> finish_outcome(c)->Persist_0.last_sent_id
            >= c.loaded_id->Some_0,
{
}

/// On a baseline run no post of a page is pending, and the watermark becomes
/// the id of the page's last post.
pub proof fn lemma_baseline_delivers_nothing(c: Crawl, page: u32, scan: PageScan)
    requires
        c.baseline(),
        baseline_id(scan) is Some,
    ensures
        pending(loaded(c, page, scan)) == scan.posts@.len(),
        loaded(c, page, scan).watermark == scan.posts@.last().id,
{
}

/// After a failed delivery nothing more is delivered on the page, and the run
/// persists the current page with the watermark of the last success.
pub proof fn lemma_failed_delivery_checkpoints(c: Crawl)
    requires
        c.wf(),
        c.phase == Phase::Delivering,
    ensures
        pending(after_delivery(c, false)) == c.scan.posts@.len(),
        finish_outcome(after_delivery(c, false)) == Step::Persist(
            Checkpoint { page: c.page, last_sent_id: c.watermark },
        ),
        after_finish(after_delivery(c, false)).phase == Phase::Finished,
{
}

/// A page without a next page ends the run once its posts are handled,
/// persisting the page itself.
pub proof fn lemma_last_page_finishes(c: Crawl)
    requires
        c.scan.next_page is None,
    ensures
        finish_outcome(c) == Step::Persist(checkpoint_of(c)),
        after_finish(c).phase == Phase::Finished,
{
}

} // verus!
