//! The notification payload: an embed assembled by a fluent builder.
use vstd::prelude::*;

verus! {

pub struct EmbedFooter {
    pub text: String,
    pub icon_url: Option<String>,
}

pub struct EmbedImage {
    pub url: String,
}

pub struct EmbedThumbnail {
    pub url: String,
}

pub struct EmbedAuthor {
    pub name: Option<String>,
    pub url: Option<String>,
    pub icon_url: Option<String>,
}

pub struct EmbedField {
    pub name: String,
    pub value: String,
    pub inline: Option<bool>,
}

/// One embed of a notification; every part is optional.
pub struct Embed {
    pub title: Option<String>,
    pub description: Option<String>,
    pub url: Option<String>,
    pub timestamp: Option<String>,
    pub color: Option<i32>,
    pub footer: Option<EmbedFooter>,
    pub image: Option<EmbedImage>,
    pub thumbnail: Option<EmbedThumbnail>,
    pub author: Option<EmbedAuthor>,
    pub fields: Vec<EmbedField>,
}

/// Builds an [`Embed`] one part at a time.
pub struct EmbedBuilder {
    pub embed: Embed,
}

/// The text of an optional string part.
pub open spec fn opt_view(s: Option<String>) -> Option<Seq<char>> {
    match s {
        Some(v) => Some(v@),
        None => None,
    }
}

/// The text of an optional string argument.
pub open spec fn opt_str_view(s: Option<&str>) -> Option<Seq<char>> {
    match s {
        Some(v) => Some(v@),
        None => None,
    }
}

fn owned(s: Option<&str>) -> (r: Option<String>)
    ensures
        opt_view(r) == opt_str_view(s),
{
    match s {
        Some(v) => Some(String::from_str(v)),
        None => None,
    }
}

impl EmbedBuilder {
    /// An embed with no part set.
    pub fn new() -> (r: Self)
        ensures
            r.embed.title is None,
            r.embed.description is None,
            r.embed.url is None,
            r.embed.timestamp is None,
            r.embed.color is None,
            r.embed.footer is None,
            r.embed.image is None,
            r.embed.thumbnail is None,
            r.embed.author is None,
            r.embed.fields@.len() == 0,
    {
        EmbedBuilder {
            embed: Embed {
                title: None,
                description: None,
                url: None,
                timestamp: None,
                color: None,
                footer: None,
                image: None,
                thumbnail: None,
                author: None,
                fields: Vec::new(),
            },
        }
    }

    /// Sets the title.
    pub fn title(&mut self, title: &str) -> (r: &mut Self)
        ensures
            opt_view(r.embed.title) == Some(title@),
            r.embed == (Embed { title: r.embed.title, ..old(self).embed }),
            *final(self) == *final(r),
    {
        self.embed.title = Some(String::from_str(title));
        self
    }

    /// Sets the description.
    pub fn description(&mut self, description: &str) -> (r: &mut Self)
        ensures
            opt_view(r.embed.description) == Some(description@),
            r.embed == (Embed { description: r.embed.description, ..old(self).embed }),
            *final(self) == *final(r),
    {
        self.embed.description = Some(String::from_str(description));
        self
    }

    /// Sets the link of the title.
    pub fn url(&mut self, url: &str) -> (r: &mut Self)
        ensures
            opt_view(r.embed.url) == Some(url@),
            r.embed == (Embed { url: r.embed.url, ..old(self).embed }),
            *final(self) == *final(r),
    {
        self.embed.url = Some(String::from_str(url));
        self
    }

    /// Sets the timestamp, passed through as given.
    pub fn timestamp(&mut self, timestamp: &str) -> (r: &mut Self)
        ensures
            opt_view(r.embed.timestamp) == Some(timestamp@),
            r.embed == (Embed { timestamp: r.embed.timestamp, ..old(self).embed }),
            *final(self) == *final(r),
    {
        self.embed.timestamp = Some(String::from_str(timestamp));
        self
    }

    /// Sets the colour.
    pub fn color(&mut self, color: i32) -> (r: &mut Self)
        ensures
            r.embed.color == Some(color),
            r.embed == (Embed { color: r.embed.color, ..old(self).embed }),
            *final(self) == *final(r),
    {
        self.embed.color = Some(color);
        self
    }

    /// Sets the footer text and its optional icon.
    pub fn footer(&mut self, text: &str, icon_url: Option<&str>) -> (r: &mut Self)
        ensures
            r.embed.footer is Some,
            r.embed.footer->Some_0.text@ == text@,
            opt_view(r.embed.footer->Some_0.icon_url) == opt_str_view(icon_url),
            r.embed == (Embed { footer: r.embed.footer, ..old(self).embed }),
            *final(self) == *final(r),
    {
        self.embed.footer = Some(EmbedFooter { text: String::from_str(text), icon_url: owned(icon_url) });
        self
    }

    /// Sets the image.
    pub fn image(&mut self, url: &str) -> (r: &mut Self)
        ensures
            r.embed.image is Some,
            r.embed.image->Some_0.url@ == url@,
            r.embed == (Embed { image: r.embed.image, ..old(self).embed }),
            *final(self) == *final(r),
    {
        self.embed.image = Some(EmbedImage { url: String::from_str(url) });
        self
    }

    /// Sets the thumbnail.
    pub fn thumbnail(&mut self, url: &str) -> (r: &mut Self)
        ensures
            r.embed.thumbnail is Some,
            r.embed.thumbnail->Some_0.url@ == url@,
            r.embed == (Embed { thumbnail: r.embed.thumbnail, ..old(self).embed }),
            *final(self) == *final(r),
    {
        self.embed.thumbnail = Some(EmbedThumbnail { url: String::from_str(url) });
        self
    }

    /// Sets the author block: name, link and icon, each optional.
    pub fn author(&mut self, name: Option<&str>,
        url: Option<&str>,
        icon_url: Option<&str>,) -> (r: &mut Self)
        ensures
            r.embed.author is Some,
            opt_view(r.embed.author->Some_0.name) == opt_str_view(name),
            opt_view(r.embed.author->Some_0.url) == opt_str_view(url),
            opt_view(r.embed.author->Some_0.icon_url) == opt_str_view(icon_url),
            r.embed == (Embed { author: r.embed.author, ..old(self).embed }),
            *final(self) == *final(r),
    {
        self.embed.author = Some(
            EmbedAuthor { name: owned(name), url: owned(url), icon_url: owned(icon_url) },
        );
        self
    }

    /// Appends a field after those already added.
    pub fn field(&mut self, name: &str, value: &str, inline: Option<bool>) -> (r: &mut Self)
        ensures
            r.embed.fields@.len() == old(self).embed.fields@.len() + 1,
            r.embed.fields@.drop_last() == old(self).embed.fields@,
            r.embed.fields@.last().name@ == name@,
            r.embed.fields@.last().value@ == value@,
            r.embed.fields@.last().inline == inline,
            r.embed == (Embed { fields: r.embed.fields, ..old(self).embed }),
            *final(self) == *final(r),
    {
        self.embed.fields.push(
            EmbedField { name: String::from_str(name), value: String::from_str(value), inline },
        );
        assert(self.embed.fields@.drop_last() =~= old(self).embed.fields@);
        self
    }
}

} // verus!
