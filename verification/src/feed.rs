//! The feed of a site: its posts as feed readers take them.

use crate::config::Config;
use crate::page::Post;
use crate::text::{copy_texts, without_trailing};
use vstd::prelude::*;
use vstd::string::*;

verus! {

/// Who wrote an item of a feed.
#[derive(Debug, Clone, PartialEq, Eq)]
pub struct Author {
    pub avatar: String,
    pub name: String,
    pub url: String,
}

/// A post as an item of a feed.
#[derive(Debug, Clone, PartialEq, Eq)]
pub struct FeedItem {
    pub id: String,
    pub url: Option<String>,
    pub external_url: Option<String>,
    pub title: Option<String>,
    pub content_text: Option<String>,
    pub content_html: Option<String>,
    pub summary: Option<String>,
    pub image: Option<String>,
    pub banner_image: Option<String>,
    pub date_published: Option<String>,
    pub date_modified: Option<String>,
    pub author: Option<Author>,
    pub tags: Option<Vec<String>>,
}

/// Why a feed could not be made.
#[derive(Debug, PartialEq, Eq)]
pub enum Error {
    Json(String),
    Atom,
}

impl Error {
    /// Says why the feed could not be made.
    pub fn describe(&self) -> (text: String)
        ensures
            text@ == match *self {
                Error::Json(_) => "could not convert to JSON feed"@,
                Error::Atom => "could not convert to Atom feed"@,
            },
    {
        match self {
            Error::Json(_) => String::from_str("could not convert to JSON feed"),
            Error::Atom => String::from_str("could not convert to Atom feed"),
        }
    }
}

/// Whether this is the item of a feed for a post of a site. It has the
/// identifier, the address, the title, the rendered text, the summary as it
/// was written, the image and the tags of the post; it was published when
/// the post is dated, and modified when the post was last updated.
pub open spec fn is_item_of(item: FeedItem, post: Post, config: Config) -> bool {
    &&& item.id@ == post.page.id@
    &&& item.url matches Some(url) && url@ == without_trailing(config.url@, '/') + "/"@
        + post.page.path@
    &&& item.external_url is None
    &&& item.title == Some(post.page.data.title)
    &&& item.content_text is None
    &&& item.content_html == Some(post.page.content)
    &&& crate::paths::text_of(item.summary) == match post.page.data.summary {
        Some(summary) => Some(summary.source@),
        None => None,
    }
    &&& crate::paths::text_of(item.image) == match post.page.data.image {
        Some(image) => Some(image.url@),
        None => None,
    }
    &&& item.banner_image is None
    &&& item.date_published == Some(post.date.rfc3339)
    &&& item.date_modified == if post.page.data.updated@.len() > 0 {
        Some(post.page.data.updated@.last().at.rfc3339)
    } else {
        None
    }
    &&& item.author matches Some(author) && author.avatar@
        == "https://cdn.chriskrycho.com/images/avatars/2024%20600%C3%97600.jpeg"@ && author.name@
        == "Chris Krycho"@ && author.url@ == "https://www.chriskrycho.com"@
    &&& item.tags matches Some(tags) && tags@ == post.page.data.tags@
}

impl FeedItem {
    /// Makes the item of a feed for a post.
    pub fn from(post: &Post, config: &Config) -> (item: FeedItem)
        ensures
            is_item_of(item, *post, *config),
    {
        let updated = &post.page.data.updated;
        FeedItem {
            id: post.page.id.describe(),
            url: Some(post.page.path.url(config)),
            external_url: None,
            title: Some(post.page.data.title.clone()),
            content_text: None,
            content_html: Some(post.page.content.clone()),
            summary: match &post.page.data.summary {
                Some(summary) => Some(summary.plain()),
                None => None,
            },
            image: match &post.page.data.image {
                Some(image) => Some(String::from_str(image.url())),
                None => None,
            },
            banner_image: None,
            date_published: Some(post.date.rfc3339.clone()),
            date_modified: if updated.len() > 0 {
                Some(updated[updated.len() - 1].at.rfc3339.clone())
            } else {
                None
            },
            author: Some(
                Author {
                    avatar: String::from_str(
                        "https://cdn.chriskrycho.com/images/avatars/2024%20600%C3%97600.jpeg",
                    ),
                    name: String::from_str("Chris Krycho"),
                    url: String::from_str("https://www.chriskrycho.com"),
                },
            ),
            tags: Some(copy_texts(&post.page.data.tags)),
        }
    }
}

/// What a feed is made of.
#[derive(Debug)]
pub struct Feed<'a> {
    /// Every feed has a title of its own.
    pub title: String,
    /// The configuration of the site.
    pub site_config: &'a Config,
    /// The posts of the feed.
    pub items: &'a Vec<Post<'a>>,
}

impl<'a> Feed<'a> {
    pub fn new(title: String, site_config: &'a Config, items: &'a Vec<Post<'a>>) -> (feed: Feed<'a>)
        ensures
            feed.title == title,
            feed.site_config == site_config,
            feed.items == items,
    {
        Feed { title, site_config, items }
    }

    /// The items of the feed, one for each post and in the order of the
    /// posts.
    pub fn items(&self) -> (items: Vec<FeedItem>)
        ensures
            items@.len() == self.items@.len(),
            forall|i: int|
                0 <= i < items@.len() ==> is_item_of(
                    #[trigger] items@[i],
                    self.items@[i],
                    *self.site_config,
                ),
    {
        let mut items: Vec<FeedItem> = Vec::new();
        let mut i: usize = 0;
        while i < self.items.len()
            invariant
                i <= self.items.len(),
                items@.len() == i,
                forall|j: int|
                    0 <= j < i ==> is_item_of(
                        #[trigger] items@[j],
                        self.items@[j],
                        *self.site_config,
                    ),
            decreases self.items.len() - i,
        {
            items.push(FeedItem::from(&self.items[i], self.site_config));
            i += 1;
        }
        items
    }
}

/// Who stands behind a feed as a whole. Each part may be missing.
#[derive(Debug, Clone, PartialEq, Eq)]
pub struct FeedAuthor {
    pub name: Option<String>,
    pub url: Option<String>,
    pub avatar: Option<String>,
}

/// A whole feed, as it is written out.
#[derive(Debug, Clone, PartialEq, Eq)]
pub struct JsonFeed {
    pub title: String,
    pub author: FeedAuthor,
    pub description: String,
    pub items: Vec<FeedItem>,
}

impl JsonFeed {
    /// Whether this is the feed that is made of these pieces: it has their
    /// title, the name of the site's author and nothing else of them, the
    /// description of the site, and one item for each post, in order.
    pub open spec fn made_of(self, feed: Feed) -> bool {
        &&& self.title@ == feed.title@
        &&& self.author.name matches Some(name) && name@ == feed.site_config.author.name@
        &&& self.author.url is None
        &&& self.author.avatar is None
        &&& self.description@ == feed.site_config.description@
        &&& self.items@.len() == feed.items@.len()
        &&& forall|i: int|
            0 <= i < self.items@.len() ==> is_item_of(
                #[trigger] self.items@[i],
                feed.items@[i],
                *feed.site_config,
            )
    }

    /// Makes the whole feed. A feed needs something of its author, and the
    /// author's name is always there, so this does not fail.
    pub fn try_from(feed: &Feed) -> (result: Result<JsonFeed, Error>)
        ensures
            result is Ok,
            result->Ok_0.made_of(*feed),
    {
        Ok(
            JsonFeed {
                title: feed.title.clone(),
                author: FeedAuthor {
                    name: Some(feed.site_config.author.name.clone()),
                    url: None,
                    avatar: None,
                },
                description: feed.site_config.description.clone(),
                items: feed.items(),
            },
        )
    }
}

} // verus!
