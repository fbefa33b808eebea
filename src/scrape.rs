//! Extraction of posts and of the next page number from a thread page.
//!
//! The markup is parsed and queried by `scraper`; what is read from it is
//! turned into a [`PageScan`] here.
use vstd::prelude::*;
use scraper::{ElementRef, Html, Node, Selector};
use crate::crawl::PageScan;
use crate::embed::{opt_str_view, opt_view};
use crate::post::{Error, Post};
use crate::text::{get_title, number_after, parse_u32, u32_of, DEFAULT_TITLE};

verus! {

#[verifier::external_type_specification]
#[verifier::external_body]
pub struct ExHtml(Html);

#[verifier::external_type_specification]
#[verifier::external_body]
pub struct ExSelector(Selector);

#[verifier::external_type_specification]
#[verifier::external_body]
pub struct ExElementRef<'a>(ElementRef<'a>);

/// The site that relative links of a page point into.
pub const ORIGIN: &'static str = "https://bbs.io-tech.fi";

pub const POST_SELECTOR: &'static str = ".message";
pub const NEXT_PAGE_SELECTOR: &'static str = ".pageNav-page--current+ .pageNav-page";
pub const TIME_SELECTOR: &'static str = ".u-dt";
pub const USERNAME_SELECTOR: &'static str = ".username";
pub const AVATAR_SELECTOR: &'static str = ".avatar img";
pub const CONTENT_SELECTOR: &'static str = ".bbWrapper";

/// A child node of an element, as far as content extraction tells them apart.
pub enum ChildNode<'a> {
    Text(String),
    Element(ElementRef<'a>),
    Other,
}

/// The page that `scraper` parses from `body`.
pub uninterp spec fn parsed_document(body: Seq<char>) -> Html;

/// The selector that `scraper` compiles from `css`, if it is valid.
pub uninterp spec fn compiled_selector(css: Seq<char>) -> Option<Selector>;

/// The elements of a page that match a selector, in document order.
pub uninterp spec fn document_matches(doc: &Html, selector: Selector) -> Seq<ElementRef>;

/// The first element of a page that matches a selector.
pub uninterp spec fn document_first_match(doc: &Html, selector: Selector) -> Option<ElementRef>;

/// The first descendant of an element that matches a selector.
pub uninterp spec fn first_match(element: ElementRef, selector: Selector) -> Option<ElementRef>;

/// The value of an element's attribute.
pub uninterp spec fn attr_value(element: ElementRef, name: Seq<char>) -> Option<Seq<char>>;

/// The first descendant text node of an element, in depth-first order.
pub uninterp spec fn first_text_of(element: ElementRef) -> Option<Seq<char>>;

/// An element's local name.
pub uninterp spec fn name_of(element: ElementRef) -> Seq<char>;

/// An element's child nodes in document order.
pub uninterp spec fn children_of(element: ElementRef) -> Seq<ChildNode>;

/// Relies on `scraper::Html::parse_document`: parses a whole page.
#[verifier::external_body]
fn parse_document(body: &str) -> (r: Html)
    ensures
        r == parsed_document(body@),
{
    Html::parse_document(body)
}

/// Relies on `scraper::Selector::parse`: compiles a CSS selector.
#[verifier::external_body]
fn parse_selector(css: &str) -> (r: Option<Selector>)
    ensures
        r == compiled_selector(css@),
{
    Selector::parse(css).ok()
}

/// Relies on `scraper::Html::select`: the matching elements in document order.
#[verifier::external_body]
fn select_all<'a>(doc: &'a Html, selector: &Selector) -> (r: Vec<ElementRef<'a>>)
    ensures
        r@ == document_matches(doc, *selector),
{
    doc.select(selector).collect()
}

/// Relies on `scraper::Html::select`: the first matching element of the page.
#[verifier::external_body]
fn select_first_in_document<'a>(doc: &'a Html, selector: &Selector) -> (r: Option<ElementRef<'a>>)
    ensures
        r == document_first_match(doc, *selector),
{
    doc.select(selector).next()
}

/// Relies on `scraper::ElementRef::select`: the first matching descendant.
#[verifier::external_body]
fn select_first<'a>(element: &ElementRef<'a>, selector: &Selector) -> (r: Option<ElementRef<'a>>)
    ensures
        r == first_match(*element, *selector),
{
    element.select(selector).next()
}

/// Relies on `scraper::ElementRef::attr`: the value of an attribute.
#[verifier::external_body]
fn attribute(element: &ElementRef, name: &str) -> (r: Option<String>)
    ensures
        opt_view(r) == attr_value(*element, name@),
{
    element.attr(name).map(String::from)
}

/// Relies on `scraper::ElementRef::text`: the first descendant text node.
#[verifier::external_body]
fn first_text(element: &ElementRef) -> (r: Option<String>)
    ensures
        opt_view(r) == first_text_of(*element),
{
    element.text().next().map(String::from)
}

/// Relies on `scraper::node::Element::name`: the element's local name.
#[verifier::external_body]
fn element_name(element: &ElementRef) -> (r: String)
    ensures
        r@ == name_of(*element),
{
    String::from(element.value().name())
}

/// Relies on `ego_tree::NodeRef::children`, reached through `ElementRef`: the
/// child nodes in document order.
#[verifier::external_body]
fn child_nodes<'a>(element: &ElementRef<'a>) -> (r: Vec<ChildNode<'a>>)
    ensures
        r@ == children_of(*element),
{
    element.children().map(|child| match child.value() {
        Node::Text(text) => ChildNode::Text(String::from(&**text)),
        Node::Element(_) => match ElementRef::wrap(child) {
            Some(e) => ChildNode::Element(e),
            None => ChildNode::Other,
        },
        _ => ChildNode::Other,
    }).collect()
}

/// What one child node of a post body contributes to the post's text.
pub enum ContentNode {
    /// A text node: its text.
    Text(String),
    /// A line break: one newline.
    LineBreak,
    /// A link: its target, if it has one.
    Link(Option<String>),
    /// Any other element: its first descendant text, if any.
    Nested(Option<String>),
    /// Any other node: nothing.
    Other,
}

pub open spec fn opt_text(s: Option<String>) -> Seq<char> {
    match s {
        Some(v) => v@,
        None => Seq::empty(),
    }
}

/// The text that a child node contributes.
pub open spec fn piece_text(n: ContentNode) -> Seq<char> {
    match n {
        ContentNode::Text(t) => t@,
        ContentNode::LineBreak => seq!['\n'],
        ContentNode::Link(h) => opt_text(h),
        ContentNode::Nested(t) => opt_text(t),
        ContentNode::Other => Seq::empty(),
    }
}

/// The text of a post body with child nodes `nodes`: their pieces in order.
pub open spec fn content_text(nodes: Seq<ContentNode>) -> Seq<char>
    decreases nodes.len(),
{
    if nodes.len() == 0 {
        Seq::empty()
    } else {
        content_text(nodes.drop_last()) + piece_text(nodes.last())
    }
}

/// Concatenates what each child node of a post body contributes.
pub fn render_content(nodes: &Vec<ContentNode>) -> (r: String)
    ensures
        r@ == content_text(nodes@),
{
    let mut out = String::new();
    let mut i: usize = 0;
    while i < nodes.len()
        invariant
            0 <= i <= nodes@.len(),
            out@ == content_text(nodes@.take(i as int)),
        decreases nodes@.len() - i,
    {
        proof {
            assert(nodes@.take(i + 1).drop_last() =~= nodes@.take(i as int));
        }
        match &nodes[i] {
            ContentNode::Text(t) => out.append(t.as_str()),
            ContentNode::LineBreak => {
                let nl = String::from_str("\n");
                proof {
                    reveal_strlit("\n");
                }
                assert(nl@ =~= seq!['\n']);
                out.append(nl.as_str());
            },
            ContentNode::Link(h) | ContentNode::Nested(h) => match h {
                Some(t) => out.append(t.as_str()),
                None => {
                    assert(out@ =~= out@ + Seq::<char>::empty());
                },
            },
            ContentNode::Other => {
                assert(out@ =~= out@ + Seq::<char>::empty());
            },
        }
        i = i + 1;
    }
    assert(nodes@.take(i as int) =~= nodes@);
    out
}

/// The text of an optional text, empty when there is none.
pub open spec fn text_or_empty(s: Option<Seq<char>>) -> Seq<char> {
    match s {
        Some(v) => v,
        None => Seq::empty(),
    }
}

/// What a child node of a post body contributes: a text node its text, a line
/// break a newline, a link its target, any other element its first text.
pub open spec fn child_text(child: ChildNode) -> Seq<char> {
    match child {
        ChildNode::Text(t) => t@,
        ChildNode::Element(e) => if name_of(e) == seq!['b', 'r'] {
            seq!['\n']
        } else if name_of(e) == seq!['a'] {
            text_or_empty(attr_value(e, seq!['h', 'r', 'e', 'f']))
        } else {
            text_or_empty(first_text_of(e))
        },
        ChildNode::Other => Seq::empty(),
    }
}

/// The text of a post body with child nodes `children`.
pub open spec fn children_text(children: Seq<ChildNode>) -> Seq<char>
    decreases children.len(),
{
    if children.len() == 0 {
        Seq::empty()
    } else {
        children_text(children.drop_last()) + child_text(children.last())
    }
}

proof fn lemma_opt_text(h: Option<String>)
    ensures
        opt_text(h) == text_or_empty(opt_view(h)),
{
}

/// Classifies a child node of a post body: line breaks and links by the
/// element's name, any other element by its first text.
fn classify(child: &ChildNode) -> (r: ContentNode)
    ensures
        piece_text(r) == child_text(*child),
{
    match child {
        ChildNode::Text(t) => ContentNode::Text(t.clone()),
        ChildNode::Element(e) => {
            proof {
                reveal_strlit("br");
                reveal_strlit("a");
                reveal_strlit("href");
            }
            let name = element_name(e);
            let br = String::from_str("br");
            let a = String::from_str("a");
            assert(br@ =~= seq!['b', 'r']);
            assert(a@ =~= seq!['a']);
            assert("href"@ =~= seq!['h', 'r', 'e', 'f']);
            if name == br {
                assert(seq!['\n'] =~= seq!['\n']);
                ContentNode::LineBreak
            } else if name == a {
                let h = attribute(e, "href");
                proof {
                    lemma_opt_text(h);
                }
                ContentNode::Link(h)
            } else {
                let t = first_text(e);
                proof {
                    lemma_opt_text(t);
                }
                ContentNode::Nested(t)
            }
        },
        ChildNode::Other => ContentNode::Other,
    }
}

proof fn lemma_content_matches(nodes: Seq<ContentNode>, children: Seq<ChildNode>)
    requires
        nodes.len() == children.len(),
        forall|k: int| 0 <= k < nodes.len() ==> piece_text(#[trigger] nodes[k]) == child_text(children[k]),
    ensures
        content_text(nodes) == children_text(children),
    decreases nodes.len(),
{
    if nodes.len() > 0 {
        let n = nodes.drop_last();
        let c = children.drop_last();
        assert forall|k: int| 0 <= k < n.len() implies piece_text(#[trigger] n[k]) == child_text(c[k]) by {
            assert(n[k] == nodes[k]);
            assert(c[k] == children[k]);
        }
        lemma_content_matches(n, c);
        assert(piece_text(nodes.last()) == child_text(children.last()));
    }
}

/// The marker in front of a post's id.
pub open spec fn post_prefix() -> Seq<char> {
    seq!['p', 'o', 's', 't', '-']
}

/// The id that a post marker attribute gives.
pub open spec fn post_id_of(marker: Option<Seq<char>>) -> Option<u32> {
    match marker {
        Some(m) => number_after(m, post_prefix()),
        None => None,
    }
}

/// Reads a post's id from its marker attribute, of the shape `post-<digits>`.
pub fn parse_post_marker(marker: Option<&str>) -> (r: Option<u32>)
    ensures
        r == post_id_of(crate::embed::opt_str_view(marker)),
{
    proof {
        reveal_strlit("post-");
    }
    let prefix = "post-";
    assert(prefix@ =~= post_prefix());
    match marker {
        Some(m) => crate::text::parse_prefixed_u32(m, prefix),
        None => None,
    }
}

/// An address on the site of a page-relative link.
pub open spec fn absolute(path: Seq<char>) -> Seq<char> {
    ORIGIN@ + path
}

/// Resolves a page-relative link against the site; a missing link is an error.
pub fn resolve_link(path: Option<&str>) -> (r: Result<String, Error>)
    ensures
        path is None ==> r == Err::<String, Error>(Error::Scraping),
        path is Some ==> r is Ok && r->Ok_0@ == absolute(path->Some_0@),
{
    match path {
        Some(p) => {
            let mut url = String::from_str(ORIGIN);
            url.append(p);
            Ok(url)
        },
        None => Err(Error::Scraping),
    }
}

/// The next page number, read from the text of the navigation element that
/// follows the current page's: none without that element, an error when its
/// text is missing or not a number.
pub fn parse_next_page(has_nav: bool, text: Option<&str>) -> (r: Result<Option<u32>, Error>)
    ensures
        !has_nav ==> r == Ok::<Option<u32>, Error>(None),
        has_nav && text is None ==> r == Err::<Option<u32>, Error>(Error::Scraping),
        has_nav && text is Some ==> r == match u32_of(text->Some_0@) {
            Some(n) => Ok::<Option<u32>, Error>(Some(n)),
            None => Err(Error::Scraping),
        },
{
    if !has_nav {
        return Ok(None);
    }
    match text {
        Some(t) => match parse_u32(t) {
            Some(n) => Ok(Some(n)),
            None => Err(Error::Scraping),
        },
        None => Err(Error::Scraping),
    }
}

fn opt_as_str(s: &Option<String>) -> (r: Option<&str>)
    ensures
        opt_str_view(r) == opt_view(*s),
{
    match s {
        Some(v) => Some(v.as_str()),
        None => None,
    }
}

/// The compiled selectors that locate the parts of a page.
pub struct Selectors {
    pub post: Selector,
    pub next_page: Selector,
    pub time: Selector,
    pub username: Selector,
    pub avatar: Selector,
    pub content: Selector,
}

/// Every selector of the thread's markup compiles.
pub open spec fn selectors_compile() -> bool {
    &&& compiled_selector(POST_SELECTOR@) is Some
    &&& compiled_selector(NEXT_PAGE_SELECTOR@) is Some
    &&& compiled_selector(TIME_SELECTOR@) is Some
    &&& compiled_selector(USERNAME_SELECTOR@) is Some
    &&& compiled_selector(AVATAR_SELECTOR@) is Some
    &&& compiled_selector(CONTENT_SELECTOR@) is Some
}

/// The selectors of the thread's markup, once compiled.
pub open spec fn thread_selectors() -> Selectors {
    Selectors {
        post: compiled_selector(POST_SELECTOR@)->Some_0,
        next_page: compiled_selector(NEXT_PAGE_SELECTOR@)->Some_0,
        time: compiled_selector(TIME_SELECTOR@)->Some_0,
        username: compiled_selector(USERNAME_SELECTOR@)->Some_0,
        avatar: compiled_selector(AVATAR_SELECTOR@)->Some_0,
        content: compiled_selector(CONTENT_SELECTOR@)->Some_0,
    }
}

impl Selectors {
    /// Compiles the selectors of the thread's markup.
    pub fn new() -> (r: Option<Selectors>)
        ensures
            r is Some <==> selectors_compile(),
            r is Some ==> r->Some_0 == thread_selectors(),
    {
        let post = parse_selector(POST_SELECTOR)?;
        let next_page = parse_selector(NEXT_PAGE_SELECTOR)?;
        let time = parse_selector(TIME_SELECTOR)?;
        let username = parse_selector(USERNAME_SELECTOR)?;
        let avatar = parse_selector(AVATAR_SELECTOR)?;
        let content = parse_selector(CONTENT_SELECTOR)?;
        Some(Selectors { post, next_page, time, username, avatar, content })
    }
}

/// The id of the post in container `post`.
pub open spec fn id_of(post: ElementRef) -> Option<u32> {
    post_id_of(attr_value(post, "data-content"@))
}

/// An attribute of the first descendant of `post` that matches `selector`.
pub open spec fn found_attr(post: ElementRef, selector: Selector, name: Seq<char>) -> Option<
    Seq<char>,
> {
    match first_match(post, selector) {
        Some(e) => attr_value(e, name),
        None => None,
    }
}

/// The author's profile address, if the author's element has a link.
pub open spec fn user_url_of(username: ElementRef) -> Option<Seq<char>> {
    match attr_value(username, "href"@) {
        Some(h) => Some(absolute(h)),
        None => None,
    }
}

/// The avatar of a post: `Some(None)` without an avatar image, `Some(Some(u))`
/// for an image with a source, none (an error) for an image without one.
pub open spec fn avatar_of(post: ElementRef, selector: Selector) -> Option<Option<Seq<char>>> {
    match first_match(post, selector) {
        None => Some(None),
        Some(img) => match attr_value(img, "src"@) {
            Some(src) => Some(Some(absolute(src))),
            None => None,
        },
    }
}

/// The plain text of a post's body, if it has one.
pub open spec fn content_of(post: ElementRef, selector: Selector) -> Option<Seq<char>> {
    match first_match(post, selector) {
        Some(body) => Some(children_text(children_of(body))),
        None => None,
    }
}

/// Every part of the post in container `post` can be read, its id aside.
pub open spec fn parts_readable(post: ElementRef, s: Selectors) -> bool {
    &&& found_attr(post, s.time, "datetime"@) is Some
    &&& first_match(post, s.username) is Some
    &&& first_text_of(first_match(post, s.username)->Some_0) is Some
    &&& user_url_of(first_match(post, s.username)->Some_0) is Some
    &&& avatar_of(post, s.avatar) is Some
    &&& content_of(post, s.content) is Some
}

/// `p` is the post read from container `post`, apart from its id.
pub open spec fn parts_of(p: Post, post: ElementRef, s: Selectors) -> bool {
    let user = first_match(post, s.username)->Some_0;
    &&& p.timestamp@ == found_attr(post, s.time, "datetime"@)->Some_0
    &&& p.author_name@ == first_text_of(user)->Some_0
    &&& p.author_url@ == user_url_of(user)->Some_0
    &&& opt_view(p.author_avatar_url) == avatar_of(post, s.avatar)->Some_0
    &&& p.raw_content@ == content_of(post, s.content)->Some_0
    &&& p.wf()
}

/// Reads a post's id from its container's marker attribute.
pub fn get_post_id(post: &ElementRef) -> (r: Option<u32>)
    ensures
        r == id_of(*post),
{
    proof {
        reveal_strlit("data-content");
    }
    let marker = attribute(post, "data-content");
    parse_post_marker(opt_as_str(&marker))
}

/// The post's timestamp: the `datetime` attribute of its time element.
pub fn get_timestamp(post: &ElementRef, time_selector: &Selector) -> (r: Result<String, Error>)
    ensures
        found_attr(*post, *time_selector, "datetime"@) is None ==> r == Err::<String, Error>(
            Error::Scraping,
        ),
        found_attr(*post, *time_selector, "datetime"@) is Some ==> r is Ok && r->Ok_0@
            == found_attr(*post, *time_selector, "datetime"@)->Some_0,
{
    match select_first(post, time_selector) {
        Some(time) => match attribute(&time, "datetime") {
            Some(t) => Ok(t),
            None => Err(Error::Scraping),
        },
        None => Err(Error::Scraping),
    }
}

/// The author's element of a post.
pub fn get_username_element<'a>(post: &ElementRef<'a>, username_selector: &Selector) -> (r: Result<
    ElementRef<'a>,
    Error,
>)
    ensures
        first_match(*post, *username_selector) is None ==> r == Err::<ElementRef, Error>(
            Error::Scraping,
        ),
        first_match(*post, *username_selector) is Some ==> r == Ok::<ElementRef, Error>(
            first_match(*post, *username_selector)->Some_0,
        ),
{
    match select_first(post, username_selector) {
        Some(e) => Ok(e),
        None => Err(Error::Scraping),
    }
}

/// The author's name: the first text of the author's element.
pub fn get_username_str(username_element: &ElementRef) -> (r: Result<String, Error>)
    ensures
        first_text_of(*username_element) is None ==> r == Err::<String, Error>(Error::Scraping),
        first_text_of(*username_element) is Some ==> r is Ok && r->Ok_0@ == first_text_of(
            *username_element,
        )->Some_0,
{
    match first_text(username_element) {
        Some(t) => Ok(t),
        None => Err(Error::Scraping),
    }
}

/// The author's profile address, resolved against the site.
pub fn get_user_url(username_element: &ElementRef) -> (r: Result<String, Error>)
    ensures
        user_url_of(*username_element) is None ==> r == Err::<String, Error>(Error::Scraping),
        user_url_of(*username_element) is Some ==> r is Ok && r->Ok_0@ == user_url_of(
            *username_element,
        )->Some_0,
{
    let href = attribute(username_element, "href");
    resolve_link(opt_as_str(&href))
}

/// The author's avatar address, when the post shows an avatar image; an image
/// without a source is an error.
pub fn get_avatar_url(post: &ElementRef, avatar_selector: &Selector) -> (r: Result<
    Option<String>,
    Error,
>)
    ensures
        avatar_of(*post, *avatar_selector) is None ==> r == Err::<Option<String>, Error>(
            Error::Scraping,
        ),
        avatar_of(*post, *avatar_selector) is Some ==> r is Ok && opt_view(r->Ok_0) == avatar_of(
            *post,
            *avatar_selector,
        )->Some_0,
{
    match select_first(post, avatar_selector) {
        Some(img) => {
            let src = attribute(&img, "src");
            match resolve_link(opt_as_str(&src)) {
                Ok(u) => Ok(Some(u)),
                Err(e) => Err(e),
            }
        },
        None => Ok(None),
    }
}

/// The plain text of a post's body; a post without a body is an error.
pub fn get_content(post: &ElementRef, content_selector: &Selector) -> (r: Result<String, Error>)
    ensures
        content_of(*post, *content_selector) is None ==> r == Err::<String, Error>(
            Error::Scraping,
        ),
        content_of(*post, *content_selector) is Some ==> r is Ok && r->Ok_0@ == content_of(
            *post,
            *content_selector,
        )->Some_0,
{
    let body = match select_first(post, content_selector) {
        Some(b) => b,
        None => {
            return Err(Error::Scraping);
        },
    };
    let children = child_nodes(&body);
    let mut nodes: Vec<ContentNode> = Vec::new();
    let mut i: usize = 0;
    while i < children.len()
        invariant
            0 <= i <= children@.len(),
            nodes@.len() == i,
            forall|k: int| 0 <= k < i ==> piece_text(#[trigger] nodes@[k]) == child_text(children@[k]),
        decreases children@.len() - i,
    {
        nodes.push(classify(&children[i]));
        i = i + 1;
    }
    proof {
        lemma_content_matches(nodes@, children@);
    }
    let text = render_content(&nodes);
    Ok(text)
}

/// Reads every part of the post in container `post`, whose id is `id`.
pub fn extract_post(post: &ElementRef, id: u32, selectors: &Selectors) -> (r: Result<Post, Error>)
    ensures
        !parts_readable(*post, *selectors) ==> r == Err::<Post, Error>(Error::Scraping),
        parts_readable(*post, *selectors) ==> r is Ok && r->Ok_0.id == id && parts_of(
            r->Ok_0,
            *post,
            *selectors,
        ),
{
    let timestamp = get_timestamp(post, &selectors.time)?;
    let username_element = get_username_element(post, &selectors.username)?;
    let author_name = get_username_str(&username_element)?;
    let author_url = get_user_url(&username_element)?;
    let author_avatar_url = get_avatar_url(post, &selectors.avatar)?;
    let raw_content = get_content(post, &selectors.content)?;
    let title = String::from_str(get_title(raw_content.as_str(), DEFAULT_TITLE));
    Ok(Post { id, timestamp, author_name, author_url, author_avatar_url, raw_content, title })
}

/// The next page number of a page: none without a navigation element after
/// the current page's; an error (none) when its text is missing or not a number.
pub open spec fn next_page_of(doc: &Html, s: Selectors) -> Option<Option<u32>> {
    match document_first_match(doc, s.next_page) {
        None => Some(None),
        Some(nav) => match first_text_of(nav) {
            Some(t) => match u32_of(t) {
                Some(n) => Some(Some(n)),
                None => None,
            },
            None => None,
        },
    }
}

/// Reads the next page number from the page's navigation.
pub fn get_next_page(doc: &Html, selectors: &Selectors) -> (r: Result<Option<u32>, Error>)
    ensures
        next_page_of(doc, *selectors) is None ==> r == Err::<Option<u32>, Error>(Error::Scraping),
        next_page_of(doc, *selectors) is Some ==> r == Ok::<Option<u32>, Error>(
            next_page_of(doc, *selectors)->Some_0,
        ),
{
    match select_first_in_document(doc, &selectors.next_page) {
        Some(nav) => {
            let text = first_text(&nav);
            parse_next_page(true, opt_as_str(&text))
        },
        None => parse_next_page(false, None),
    }
}

/// The post containers of a page.
pub open spec fn containers_of(doc: &Html) -> Seq<ElementRef> {
    document_matches(doc, thread_selectors().post)
}

/// The container `post` holds a post that can be read whole.
pub open spec fn post_readable(post: ElementRef, s: Selectors) -> bool {
    id_of(post) is Some && parts_readable(post, s)
}

/// The page `body` can be read whole: every post and the navigation.
pub open spec fn page_readable(body: Seq<char>) -> bool {
    &&& selectors_compile()
    &&& forall|i: int|
        0 <= i < containers_of(&parsed_document(body)).len() ==> post_readable(
            #[trigger] containers_of(&parsed_document(body))[i],
            thread_selectors(),
        )
    &&& next_page_of(&parsed_document(body), thread_selectors()) is Some
}

/// A post container whose marker cannot be read makes its whole page a
/// scraping error, whatever the other posts of the page hold.
pub proof fn lemma_malformed_marker_fails_page(body: Seq<char>, i: int)
    requires
        0 <= i < containers_of(&parsed_document(body)).len(),
        id_of(containers_of(&parsed_document(body))[i]) is None,
    ensures
        !page_readable(body),
{
    assert(!post_readable(containers_of(&parsed_document(body))[i], thread_selectors()));
}

/// Reads a whole page: every post container in document order, and the next
/// page number. Any part that cannot be read makes the whole page an error,
/// so that nothing of a malformed page is acted on.
pub fn extract_page(body: &str) -> (r: Result<PageScan, Error>)
    ensures
        !page_readable(body@) ==> r == Err::<PageScan, Error>(Error::Scraping),
        page_readable(body@) ==> {
            &&& r is Ok
            &&& r->Ok_0.posts@.len() == containers_of(&parsed_document(body@)).len()
            &&& forall|i: int|
                0 <= i < r->Ok_0.posts@.len() ==> {
                    let p = #[trigger] r->Ok_0.posts@[i];
                    let c = containers_of(&parsed_document(body@))[i];
                    Some(p.id) == id_of(c) && parts_of(p, c, thread_selectors())
                }
            &&& r->Ok_0.next_page == next_page_of(
                &parsed_document(body@),
                thread_selectors(),
            )->Some_0
        },
{
    let selectors = match Selectors::new() {
        Some(s) => s,
        None => {
            return Err(Error::Scraping);
        },
    };
    let doc = parse_document(body);
    let containers = select_all(&doc, &selectors.post);
    let mut posts: Vec<Post> = Vec::new();
    let mut i: usize = 0;
    while i < containers.len()
        invariant
            selectors_compile(),
            selectors == thread_selectors(),
            doc == parsed_document(body@),
            containers@ == containers_of(&parsed_document(body@)),
            0 <= i <= containers@.len(),
            posts@.len() == i,
            forall|k: int|
                0 <= k < i ==> {
                    let p = #[trigger] posts@[k];
                    Some(p.id) == id_of(containers@[k]) && parts_of(
                        p,
                        containers@[k],
                        thread_selectors(),
                    )
                },
            forall|k: int| 0 <= k < i ==> post_readable(#[trigger] containers@[k], selectors),
        decreases containers@.len() - i,
    {
        let container = &containers[i];
        let id = match get_post_id(container) {
            Some(n) => n,
            None => {
                return Err(Error::Scraping);
            },
        };
        let post = match extract_post(container, id, &selectors) {
            Ok(p) => p,
            Err(e) => {
                return Err(e);
            },
        };
        posts.push(post);
        i = i + 1;
    }
    let next_page = match get_next_page(&doc, &selectors) {
        Ok(n) => n,
        Err(e) => {
            return Err(e);
        },
    };
    Ok(PageScan { posts, next_page })
}

} // verus!
