//! Pages and posts: an item of the site on its way from a source file to
//! rendered HTML.

use crate::config::Config;
use crate::item::{Metadata, RenderedTexts, Slug, SlugView};
use crate::paths::path_strip_prefix;
use crate::serial;
use crate::text::{trim_end, without_trailing};
use uuid::Uuid;
use vstd::prelude::*;
use vstd::string::*;

verus! {

/// A source file: where it lies, and what it holds.
#[derive(Debug, Clone, PartialEq, Eq)]
pub struct Source {
    pub path: String,
    pub contents: String,
}

/// What `Uuid::new_v5` gives, written with hyphens, for the object
/// identifier namespace and a name: the name-based, SHA-1 UUID of the name.
pub uninterp spec fn oid_uuid_of(name: Seq<char>) -> Seq<char>;

/// Calls `Uuid::new_v5` with `Uuid::NAMESPACE_OID` on the bytes of a name.
/// Trusted: the result, written with hyphens, is the named result of that
/// function on the same name.
#[verifier::external_body]
fn oid_uuid(name: &str) -> (result: String)
    ensures
        result@ == oid_uuid_of(name@),
{
    Uuid::new_v5(&Uuid::NAMESPACE_OID, name.as_bytes()).hyphenated().to_string()
}

/// What tells one item from every other. It is made from the path of the
/// item's source file and from nothing else, so an item keeps it from build
/// to build.
#[derive(Debug, Clone, PartialEq, Eq, Hash)]
pub struct Id(pub String);

impl View for Id {
    type V = Seq<char>;

    open spec fn view(&self) -> Seq<char> {
        self.0@
    }
}

impl Id {
    /// The identifier of the item whose source file lies at a path.
    pub fn of(path: &str) -> (id: Id)
        ensures
            id@ == oid_uuid_of(path@),
    {
        Id(oid_uuid(path))
    }

    /// Writes the identifier.
    pub fn describe(&self) -> (text: String)
        ensures
            text@ == self@,
    {
        self.0.clone()
    }
}

/// Why an item could not be prepared or rendered.
#[derive(Debug, PartialEq, Eq)]
pub enum Error {
    Preparation { source: String },
    MissingMetadata,
    MetadataParsing { source: String },
    MetadataResolution { source: crate::item::Error },
    Render { source: String },
    BadSlugRoot { root: String, slug: String },
}

pub enum ErrorView {
    Preparation { source: Seq<char> },
    MissingMetadata,
    MetadataParsing { source: Seq<char> },
    MetadataResolution { source: crate::item::ErrorView },
    Render { source: Seq<char> },
    BadSlugRoot { root: Seq<char>, slug: Seq<char> },
}

impl View for Error {
    type V = ErrorView;

    open spec fn view(&self) -> ErrorView {
        match self {
            Error::Preparation { source } => ErrorView::Preparation { source: source@ },
            Error::MissingMetadata => ErrorView::MissingMetadata,
            Error::MetadataParsing { source } => ErrorView::MetadataParsing { source: source@ },
            Error::MetadataResolution { source } => ErrorView::MetadataResolution {
                source: source@,
            },
            Error::Render { source } => ErrorView::Render { source: source@ },
            Error::BadSlugRoot { root, slug } => ErrorView::BadSlugRoot {
                root: root@,
                slug: slug@,
            },
        }
    }
}

pub open spec fn error_text(error: ErrorView) -> Seq<char> {
    match error {
        ErrorView::Preparation { source } => "could not prepare Markdown for parsing"@,
        ErrorView::MissingMetadata => "no metadata"@,
        ErrorView::MetadataParsing { source } => source,
        ErrorView::MetadataResolution { source } => "could not resolve metadata"@,
        ErrorView::Render { source } => source,
        ErrorView::BadSlugRoot { root, slug } => "Invalid combination of root '"@ + root
            + "' and slug '"@ + slug + "'"@,
    }
}

/// What lies behind an error: the error that caused it, where it has one
/// that its own text does not show.
pub open spec fn error_cause(error: ErrorView) -> Option<Seq<char>> {
    match error {
        ErrorView::Preparation { source } => Some(source),
        ErrorView::MetadataResolution { source } => Some(crate::item::error_text(source)),
        _ => None,
    }
}

impl Error {
    /// Says why the item could not be prepared or rendered.
    pub fn describe(&self) -> (text: String)
        ensures
            text@ == error_text(self@),
    {
        match self {
            Error::Preparation { source: _ } => String::from_str(
                "could not prepare Markdown for parsing",
            ),
            Error::MissingMetadata => String::from_str("no metadata"),
            Error::MetadataParsing { source } => source.clone(),
            Error::MetadataResolution { source: _ } => String::from_str(
                "could not resolve metadata",
            ),
            Error::Render { source } => source.clone(),
            Error::BadSlugRoot { root, slug } => {
                let mut text = String::from_str("Invalid combination of root '");
                text.append(root.as_str());
                text.append("' and slug '");
                text.append(slug.as_str());
                text.append("'");
                text
            },
        }
    }

    /// Says what caused the error, where its own text does not show it.
    pub fn cause(&self) -> (text: Option<String>)
        ensures
            crate::paths::text_of(text) == error_cause(self@),
    {
        match self {
            Error::Preparation { source } => Some(source.clone()),
            Error::MetadataResolution { source } => Some(source.describe()),
            _ => None,
        }
    }
}

/// What came of reading the header of a source file.
#[derive(Debug)]
pub enum Parsed {
    /// The file could not be taken apart.
    Unprepared { reason: String },
    /// The file has no header.
    NoMetadata,
    /// The header could not be read.
    Unparsed { reason: String },
    /// The header, and the text that follows it.
    Header { item: serial::Item, body: String },
}

/// An item whose metadata is resolved and whose text is not yet rendered.
#[derive(Debug, Clone, PartialEq, Eq)]
pub struct Prepared {
    /// The resolved metadata of the item.
    pub data: Metadata,
    /// The date of the item, if it has one.
    pub date: Option<serial::Timestamp>,
    /// The text that is still to be rendered.
    pub to_render: String,
}

/// Why an item cannot be prepared, if it cannot: its file could not be
/// taken apart, it has no header, its header could not be read, or its
/// metadata does not resolve.
pub open spec fn preparation_error(
    source_path: Seq<char>,
    parsed: Parsed,
    cascade: serial::Inherited,
    rendered: RenderedTexts,
) -> Option<ErrorView> {
    match parsed {
        Parsed::Unprepared { reason } => Some(ErrorView::Preparation { source: reason@ }),
        Parsed::NoMetadata => Some(ErrorView::MissingMetadata),
        Parsed::Unparsed { reason } => Some(ErrorView::MetadataParsing { source: reason@ }),
        Parsed::Header { item, body } => match crate::item::resolution_error(
            item,
            source_path,
            cascade,
            rendered,
        ) {
            Some(source) => Some(ErrorView::MetadataResolution { source }),
            None => None,
        },
    }
}

/// The name of the template that an item is rendered with where nothing
/// names another.
pub open spec fn default_template() -> Seq<char> {
    "base.jinja"@
}

/// Prepares an item: resolves its metadata from the header of its source
/// file and from what the directories above it say.
pub fn prepare(
    source: &Source,
    parsed: Parsed,
    cascade: serial::Inherited,
    rendered: RenderedTexts,
) -> (result: Result<Prepared, Error>)
    ensures
        match result {
            Ok(prepared) => {
                &&& preparation_error(source.path@, parsed, cascade, rendered) is None
                &&& parsed matches Parsed::Header { item, body }
                &&& exists|template: String|
                    template@ == default_template() && crate::item::resolves_to(
                        prepared.data,
                        item,
                        source.path@,
                        cascade,
                        template,
                        rendered,
                    )
                &&& prepared.date == item.date
                &&& prepared.to_render == body
            },
            Err(error) => preparation_error(source.path@, parsed, cascade, rendered) == Some(
                error@,
            ),
        },
{
    match parsed {
        Parsed::Unprepared { reason } => Err(Error::Preparation { source: reason }),
        Parsed::NoMetadata => Err(Error::MissingMetadata),
        Parsed::Unparsed { reason } => Err(Error::MetadataParsing { source: reason }),
        Parsed::Header { item, body } => {
            let template = String::from_str("base.jinja");
            match Metadata::resolved(item, source.path.as_str(), cascade, template, rendered) {
                Ok((data, date)) => Ok(Prepared { data, date, to_render: body }),
                Err(source) => Err(Error::MetadataResolution { source }),
            }
        },
    }
}

/// An item whose text is rendered.
#[derive(Debug, Clone, PartialEq, Eq)]
pub struct Rendered {
    pub content: String,
    pub date: Option<serial::Timestamp>,
    pub data: Metadata,
}

impl Prepared {
    /// Takes the outcome of rendering the item's text: the HTML, or why
    /// there is none.
    pub fn render(self, outcome: Result<String, String>) -> (result: Result<Rendered, Error>)
        ensures
            result == match outcome {
                Ok(content) => Ok::<Rendered, Error>(
                    Rendered { content, date: self.date, data: self.data },
                ),
                Err(source) => Err(Error::Render { source }),
            },
    {
        match outcome {
            Ok(content) => Ok(Rendered { content, date: self.date, data: self.data }),
            Err(source) => Err(Error::Render { source }),
        }
    }
}

/// Where an item lies on the site, counted from the site's root.
#[derive(Debug, Clone, PartialEq, Eq)]
pub struct RootedPath(pub String);

impl View for RootedPath {
    type V = Seq<char>;

    open spec fn view(&self) -> Seq<char> {
        self.0@
    }
}

/// The place of an item with this slug on a site whose content lies in this
/// directory. A permalink is the place. A slug that follows the source file
/// is the place once the content directory is taken off its front, and no
/// place where it does not lie in that directory.
pub open spec fn rooted(slug: SlugView, root_dir: Seq<char>) -> Result<Seq<char>, ErrorView> {
    match slug {
        SlugView::Permalink(link) => Ok(link),
        SlugView::FromPath(path) => match path_strip_prefix(path, root_dir) {
            Some(rest) => Ok(rest),
            None => Err(ErrorView::BadSlugRoot { root: root_dir, slug: path }),
        },
    }
}

/// A place or an error, as plain text.
pub open spec fn rooted_view(result: Result<RootedPath, Error>) -> Result<Seq<char>, ErrorView> {
    match result {
        Ok(path) => Ok(path@),
        Err(error) => Err(error@),
    }
}

impl RootedPath {
    /// Finds the place of an item on the site.
    pub fn new(slug: &Slug, root_dir: &str) -> (result: Result<RootedPath, Error>)
        ensures
            rooted_view(result) == rooted(slug@, root_dir@),
    {
        match slug {
            Slug::Permalink(link) => Ok(RootedPath(link.clone())),
            Slug::FromPath(path) => match crate::paths::strip_prefix(path.as_str(), root_dir) {
                Some(rest) => Ok(RootedPath(rest)),
                None => Err(
                    Error::BadSlugRoot { root: String::from_str(root_dir), slug: path.clone() },
                ),
            },
        }
    }

    /// The address of the place: the address of the site without the
    /// slashes at its end, a slash, and the place.
    pub fn url(&self, config: &Config) -> (url: String)
        ensures
            url@ == without_trailing(config.url@, '/') + "/"@ + self@,
    {
        let mut url = trim_end(config.url.as_str(), '/');
        url.append("/");
        url.append(self.0.as_str());
        url
    }

    /// The place as text.
    pub fn as_str(&self) -> (text: &str)
        ensures
            text@ == self@,
    {
        self.0.as_str()
    }
}

/// An item of the site, ready to be put into its template and written out.
#[derive(Debug)]
pub struct Page<'s> {
    pub id: Id,
    /// The resolved metadata of the page.
    pub data: Metadata,
    /// The rendered text of the page.
    pub content: String,
    pub source: &'s Source,
    pub path: RootedPath,
}

/// A page with a date.
#[derive(Debug)]
pub struct Post<'e> {
    pub page: Page<'e>,
    pub date: serial::Timestamp,
}

/// An item of the site: a page, or a post where it has a date.
#[derive(Debug)]
pub enum Item<'s> {
    Page(Page<'s>),
    Post(Post<'s>),
}

impl<'s> Page<'s> {
    /// Whether two pages are the same item: whether they have the same
    /// identifier.
    pub fn same(&self, other: &Page) -> (result: bool)
        ensures
            result == (self.id@ == other.id@),
    {
        self.id.0 == other.id.0
    }
}

/// Two pages are equal where they have the same identifier: a page is told
/// from another by the path of its source file alone.
impl<'s> PartialEq for Page<'s> {
    fn eq(&self, other: &Self) -> (result: bool) {
        self.id.0 == other.id.0
    }
}

impl<'s> Eq for Page<'s> {

}

impl<'s> vstd::std_specs::cmp::PartialEqSpecImpl for Page<'s> {
    open spec fn obeys_eq_spec() -> bool {
        true
    }

    open spec fn eq_spec(&self, other: &Self) -> bool {
        self.id@ == other.id@
    }
}

/// Two posts are equal where their pages are equal and their dates are the
/// same.
impl<'e> PartialEq for Post<'e> {
    fn eq(&self, other: &Self) -> (result: bool) {
        self.page.same(&other.page) && self.date.same(&other.date)
    }
}

impl<'e> Eq for Post<'e> {

}

impl<'e> vstd::std_specs::cmp::PartialEqSpecImpl for Post<'e> {
    open spec fn obeys_eq_spec() -> bool {
        true
    }

    open spec fn eq_spec(&self, other: &Self) -> bool {
        self.page.id@ == other.page.id@ && self.date.agrees(other.date)
    }
}

impl<'e> Post<'e> {
    /// Whether a moment lies before another.
    pub open spec fn earlier(first: serial::Timestamp, second: serial::Timestamp) -> bool {
        first.unix_seconds < second.unix_seconds || (first.unix_seconds == second.unix_seconds
            && first.nanoseconds < second.nanoseconds)
    }

    /// Whether this post is older than another. Posts are ordered by their
    /// dates and by nothing else.
    pub fn is_before(&self, other: &Post) -> (result: bool)
        ensures
            result == Self::earlier(self.date, other.date),
    {
        self.date.unix_seconds < other.date.unix_seconds || (self.date.unix_seconds
            == other.date.unix_seconds && self.date.nanoseconds < other.date.nanoseconds)
    }
}

impl<'s> Item<'s> {
    /// The page of the item.
    pub open spec fn page(self) -> Page<'s> {
        match self {
            Item::Page(page) => page,
            Item::Post(post) => post.page,
        }
    }

    /// Makes an item from its rendered text. Its identifier comes from the
    /// path of its source file, its place from its slug, and it is a post
    /// exactly where it has a date.
    pub fn from_rendered(rendered: Rendered, source: &'s Source, in_dir: &str) -> (result: Result<
        Item<'s>,
        Error,
    >)
        ensures
            match rooted(rendered.data.slug@, in_dir@) {
                Err(error) => result is Err && result->Err_0@ == error,
                Ok(path) => {
                    &&& result is Ok
                    &&& result->Ok_0 is Post == rendered.date is Some
                    &&& result->Ok_0 matches Item::Post(post) ==> Some(post.date) == rendered.date
                    &&& result->Ok_0.page().id@ == oid_uuid_of(source.path@)
                    &&& result->Ok_0.page().content == rendered.content
                    &&& result->Ok_0.page().data == rendered.data
                    &&& result->Ok_0.page().source == source
                    &&& result->Ok_0.page().path@ == path
                },
            },
    {
        let id = Id::of(source.path.as_str());
        let path = match RootedPath::new(&rendered.data.slug, in_dir) {
            Ok(path) => path,
            Err(error) => {
                return Err(error);
            },
        };
        let page = Page { id, content: rendered.content, data: rendered.data, source, path };
        let item = match rendered.date {
            Some(date) => Item::Post(Post { date, page }),
            None => Item::Page(page),
        };
        Ok(item)
    }

    pub fn content(&self) -> (content: &str)
        ensures
            content@ == self.page().content@,
    {
        match self {
            Item::Page(page) => page.content.as_str(),
            Item::Post(post) => post.page.content.as_str(),
        }
    }

    pub fn layout(&self) -> (layout: &str)
        ensures
            layout@ == self.page().data.layout@,
    {
        self.data().layout.as_str()
    }

    pub fn path(&self) -> (path: &RootedPath)
        ensures
            *path == self.page().path,
    {
        match self {
            Item::Page(page) => &page.path,
            Item::Post(post) => &post.page.path,
        }
    }

    pub fn source(&self) -> (source: &Source)
        ensures
            source == self.page().source,
    {
        match self {
            Item::Page(page) => page.source,
            Item::Post(post) => post.page.source,
        }
    }

    pub fn title(&self) -> (title: &str)
        ensures
            title@ == self.page().data.title@,
    {
        self.data().title.as_str()
    }

    pub fn data(&self) -> (data: &Metadata)
        ensures
            *data == self.page().data,
    {
        match self {
            Item::Page(page) => &page.data,
            Item::Post(post) => &post.page.data,
        }
    }
}

/// A link to a post, as an archive lists it.
#[derive(Debug, Clone, PartialEq, Eq)]
pub struct PostLink {
    pub anchor_title: String,
    pub slug: Slug,
}

pub struct PostLinkView {
    pub anchor_title: Seq<char>,
    pub slug: SlugView,
}

impl View for PostLink {
    type V = PostLinkView;

    open spec fn view(&self) -> PostLinkView {
        PostLinkView { anchor_title: self.anchor_title@, slug: self.slug@ }
    }
}

/// The link to a post with this metadata. Its title says where it leads:
/// to what the post links to, or to the post itself.
pub open spec fn link_to(data: Metadata) -> PostLinkView {
    PostLinkView {
        anchor_title: match data.link {
            Some(url) => "link to "@ + url@,
            None => "post permalink"@,
        },
        slug: data.slug@,
    }
}

fn copy_slug(slug: &Slug) -> (result: Slug)
    ensures
        result@ == slug@,
{
    match slug {
        Slug::Permalink(link) => Slug::Permalink(link.clone()),
        Slug::FromPath(path) => Slug::FromPath(path.clone()),
    }
}

impl PostLink {
    /// Makes the link to a post.
    pub fn from(post: &Post) -> (link: PostLink)
        ensures
            link@ == link_to(post.page.data),
    {
        PostLink {
            anchor_title: match &post.page.data.link {
                Some(url) => {
                    let mut title = String::from_str("link to ");
                    title.append(url.as_str());
                    title
                },
                None => String::from_str("post permalink"),
            },
            slug: copy_slug(&post.page.data.slug),
        }
    }

    /// Whether two links are the same.
    pub fn same(&self, other: &PostLink) -> (result: bool)
        ensures
            result == (self@ == other@),
    {
        let same_slug = match (&self.slug, &other.slug) {
            (Slug::Permalink(a), Slug::Permalink(b)) => *a == *b,
            (Slug::FromPath(a), Slug::FromPath(b)) => *a == *b,
            _ => false,
        };
        self.anchor_title == other.anchor_title && same_slug
    }
}

} // verus!
