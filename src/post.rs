//! Posts extracted from a thread page, and their notification form.
use vstd::prelude::*;
use crate::embed::{opt_view, EmbedBuilder};
use crate::text::{prefix_chars, title_of, truncate, DEFAULT_TITLE};

verus! {

/// Longest title, in characters, that a notification carries.
pub const TITLE_LIMIT: usize = 256;

/// Longest description, in characters, that a notification carries.
pub const DESCRIPTION_LIMIT: usize = 2048;

/// Longest author name, in characters, that a notification carries.
pub const AUTHOR_LIMIT: usize = 256;

/// A failure that aborts a whole run.
#[derive(Debug, PartialEq, Eq, Structural)]
pub enum Error {
    /// An expected part of a page is missing or malformed.
    Scraping,
}

impl Error {
    /// A one-line description of the failure.
    pub fn message(&self) -> (r: String)
        ensures
            r@ == "Error scraping webpage"@,
    {
        String::from_str("Error scraping webpage")
    }
}

/// One forum message.
pub struct Post {
    pub id: u32,
    pub timestamp: String,
    pub author_name: String,
    pub author_url: String,
    pub author_avatar_url: Option<String>,
    /// Plain-text reconstruction of the body.
    pub raw_content: String,
    /// Title derived from `raw_content`.
    pub title: String,
}

impl Post {
    /// The title is the one derived from the content.
    pub open spec fn wf(&self) -> bool {
        self.title@ == title_of(self.raw_content@, DEFAULT_TITLE@)
    }
}

/// `n` is the notification of post `p`: title, description and author name cut
/// to their limits, the other parts passed through, and nothing else set.
pub open spec fn is_notification_of(n: EmbedBuilder, p: Post) -> bool {
    &&& opt_view(n.embed.title) == Some(prefix_chars(p.title@, TITLE_LIMIT as nat))
    &&& opt_view(n.embed.description) == Some(
        prefix_chars(p.raw_content@, DESCRIPTION_LIMIT as nat),
    )
    &&& opt_view(n.embed.timestamp) == Some(p.timestamp@)
    &&& n.embed.author is Some
    &&& opt_view(n.embed.author->Some_0.name) == Some(
        prefix_chars(p.author_name@, AUTHOR_LIMIT as nat),
    )
    &&& opt_view(n.embed.author->Some_0.url) == Some(p.author_url@)
    &&& opt_view(n.embed.author->Some_0.icon_url) == opt_view(p.author_avatar_url)
    &&& n.embed.url is None
    &&& n.embed.color is None
    &&& n.embed.footer is None
    &&& n.embed.image is None
    &&& n.embed.thumbnail is None
    &&& n.embed.fields@.len() == 0
}

/// The notification that announces `post`.
pub fn format_post(post: &Post) -> (r: EmbedBuilder)
    ensures
        is_notification_of(r, *post),
{
    let avatar: Option<&str> = match &post.author_avatar_url {
        Some(a) => Some(a.as_str()),
        None => None,
    };
    let mut embed = EmbedBuilder::new();
    embed.timestamp(post.timestamp.as_str());
    embed.author(
        Some(truncate(post.author_name.as_str(), AUTHOR_LIMIT)),
        Some(post.author_url.as_str()),
        avatar,
    );
    embed.description(truncate(post.raw_content.as_str(), DESCRIPTION_LIMIT));
    embed.title(truncate(post.title.as_str(), TITLE_LIMIT));
    embed
}

} // verus!
