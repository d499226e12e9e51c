//! The metadata of an item: what its own header says, merged with what the
//! directories above it say for all their items.

use crate::paths::{path_file_stem, path_join, path_parent, path_starts_with};
use crate::serial;
use crate::text::{join_texts, joined, texts, trim_both, without_leading, without_trailing};
use std::collections::HashMap;
use vstd::prelude::*;
use vstd::string::*;

verus! {

/// Which field of a musical work is missing.
#[derive(Debug, Clone, Copy, PartialEq, Eq, Structural)]
pub enum WorkError {
    Title,
    Instrumentation,
    Date,
    Duration,
}

/// Where a field of a musical work was looked for and not found.
#[derive(Debug, Clone, Copy, PartialEq, Eq, Structural)]
pub enum WorkMissingFrom {
    Item,
    Cascade,
    Both,
}

/// A field that is there but cannot be used.
#[derive(Debug, Clone, Copy, PartialEq, Eq, Structural)]
pub enum FieldError {
    Update,
    Work(WorkError, WorkMissingFrom),
}

/// Why the metadata of an item could not be resolved.
#[derive(Debug, PartialEq, Eq)]
pub enum Error {
    MissingRequiredField { name: String },
    BadField { source: FieldError },
    BadPermalink { reason: String },
    Markdown { source: String },
}

pub enum ErrorView {
    MissingRequiredField { name: Seq<char> },
    BadField { source: FieldError },
    BadPermalink { reason: Seq<char> },
    Markdown { source: Seq<char> },
}

impl View for Error {
    type V = ErrorView;

    open spec fn view(&self) -> ErrorView {
        match self {
            Error::MissingRequiredField { name } => ErrorView::MissingRequiredField {
                name: name@,
            },
            Error::BadField { source } => ErrorView::BadField { source: *source },
            Error::BadPermalink { reason } => ErrorView::BadPermalink { reason: reason@ },
            Error::Markdown { source } => ErrorView::Markdown { source: source@ },
        }
    }
}

pub open spec fn work_error_text(error: WorkError) -> Seq<char> {
    match error {
        WorkError::Title => "title"@,
        WorkError::Instrumentation => "instrumentation"@,
        WorkError::Date => "date"@,
        WorkError::Duration => "duration"@,
    }
}

pub open spec fn missing_from_text(from: WorkMissingFrom) -> Seq<char> {
    match from {
        WorkMissingFrom::Item => "item (not present in cascade)"@,
        WorkMissingFrom::Cascade => "cascade (not present on item)"@,
        WorkMissingFrom::Both => "both item and cascade"@,
    }
}

pub open spec fn field_error_text(error: FieldError) -> Seq<char> {
    match error {
        FieldError::Update => "missing `updated.at` field"@,
        FieldError::Work(what, from) => "missing `"@ + work_error_text(what) + "` in "@
            + missing_from_text(from),
    }
}

pub open spec fn error_text(error: ErrorView) -> Seq<char> {
    match error {
        ErrorView::MissingRequiredField { name } => "missing required field '"@ + name + "'"@,
        ErrorView::BadField { source } => "bad field data"@,
        ErrorView::BadPermalink { reason } => "bad permalink: '"@ + reason + "'"@,
        ErrorView::Markdown { source } => source,
    }
}

impl WorkError {
    /// Names the field.
    pub fn describe(&self) -> (text: String)
        ensures
            text@ == work_error_text(*self),
    {
        match self {
            WorkError::Title => String::from_str("title"),
            WorkError::Instrumentation => String::from_str("instrumentation"),
            WorkError::Date => String::from_str("date"),
            WorkError::Duration => String::from_str("duration"),
        }
    }
}

impl WorkMissingFrom {
    /// Names the places.
    pub fn describe(&self) -> (text: String)
        ensures
            text@ == missing_from_text(*self),
    {
        match self {
            WorkMissingFrom::Item => String::from_str("item (not present in cascade)"),
            WorkMissingFrom::Cascade => String::from_str("cascade (not present on item)"),
            WorkMissingFrom::Both => String::from_str("both item and cascade"),
        }
    }
}

impl FieldError {
    /// Says what is wrong with the field.
    pub fn describe(&self) -> (text: String)
        ensures
            text@ == field_error_text(*self),
    {
        match self {
            FieldError::Update => String::from_str("missing `updated.at` field"),
            FieldError::Work(what, from) => {
                let mut text = String::from_str("missing `");
                text.append(what.describe().as_str());
                text.append("` in ");
                text.append(from.describe().as_str());
                text
            },
        }
    }
}

impl Error {
    /// Wraps what is wrong with a field.
    pub fn bad_field(source: FieldError) -> (error: Error)
        ensures
            error == (Error::BadField { source }),
    {
        Error::BadField { source }
    }

    /// Says why the metadata could not be resolved.
    pub fn describe(&self) -> (text: String)
        ensures
            text@ == error_text(self@),
    {
        match self {
            Error::MissingRequiredField { name } => {
                let mut text = String::from_str("missing required field '");
                text.append(name.as_str());
                text.append("'");
                text
            },
            Error::BadField { source: _ } => String::from_str("bad field data"),
            Error::BadPermalink { reason } => {
                let mut text = String::from_str("bad permalink: '");
                text.append(reason.as_str());
                text.append("'");
                text
            },
            Error::Markdown { source } => source.clone(),
        }
    }
}

/// A list as one writes it in a sentence: nothing for no item, the item
/// itself for one, `a and b` for two, and `a, b, and c` for more.
pub open spec fn nice_list_text(items: Seq<Seq<char>>) -> Option<Seq<char>> {
    if items.len() == 0 {
        None
    } else if items.len() == 1 {
        Some(items[0])
    } else if items.len() == 2 {
        Some(items[0] + " and "@ + items[1])
    } else {
        Some(joined(items.drop_last(), ", "@) + ", and "@ + items.last())
    }
}

/// Writes a list as one writes it in a sentence.
pub fn nice_list(strings: &Vec<String>) -> (result: Option<String>)
    ensures
        crate::paths::text_of(result) == nice_list_text(texts(strings@)),
{
    let n = strings.len();
    if n == 0 {
        None
    } else if n == 1 {
        Some(strings[0].clone())
    } else if n == 2 {
        let mut text = strings[0].clone();
        text.append(" and ");
        text.append(strings[1].as_str());
        Some(text)
    } else {
        let mut init: Vec<String> = Vec::new();
        let mut i: usize = 0;
        while i < n - 1
            invariant
                n == strings.len(),
                i <= n - 1,
                init.len() == i,
                forall|j: int| 0 <= j < i ==> init[j]@ == strings[j]@,
            decreases n - i,
        {
            init.push(strings[i].clone());
            i += 1;
        }
        assert(texts(init@) =~= texts(strings@).drop_last());
        let mut text = join_texts(&init, ", ");
        text.append(", and ");
        text.append(strings[n - 1].as_str());
        Some(text)
    }
}

/// What `slug::slugify` gives for a text: the text in lower-case ASCII
/// letters and digits, with single dashes where anything else stood.
pub uninterp spec fn slug_of(text: Seq<char>) -> Seq<char>;

/// Calls `slug::slugify`. Trusted: the result is the named result of that
/// function on the same text.
#[verifier::external_body]
fn slugify(text: &str) -> (result: String)
    ensures
        result@ == slug_of(text@),
{
    slug::slugify(text)
}

/// Where an item is to be found on the site.
#[derive(Debug, Clone, PartialEq, Eq)]
pub enum Slug {
    /// The item's header says where.
    Permalink(String),
    /// The place follows from where the item's file lies.
    FromPath(String),
}

pub enum SlugView {
    Permalink(Seq<char>),
    FromPath(Seq<char>),
}

impl View for Slug {
    type V = SlugView;

    open spec fn view(&self) -> SlugView {
        match self {
            Slug::Permalink(link) => SlugView::Permalink(link@),
            Slug::FromPath(path) => SlugView::FromPath(path@),
        }
    }
}

/// The slug of an item with this permalink, if it has one, and this source
/// file. A permalink is always taken as it is. Without one, the slug is the
/// file's directory followed by the file's stem made fit for a URL; a file
/// without a directory or without a stem has no slug.
pub open spec fn slug_for(permalink: Option<Seq<char>>, source: Seq<char>) -> Result<
    SlugView,
    ErrorView,
> {
    match permalink {
        Some(link) => Ok(SlugView::Permalink(link)),
        None => match path_parent(source) {
            None => Err(
                ErrorView::BadPermalink { reason: "missing parent on '"@ + source + "'?!?"@ },
            ),
            Some(start) => match path_file_stem(source) {
                None => Err(
                    ErrorView::BadPermalink {
                        reason: "missing file stem on '"@ + source + "'?!?"@,
                    },
                ),
                Some(stem) => Ok(SlugView::FromPath(path_join(start, slug_of(stem)))),
            },
        },
    }
}

/// A slug or an error, as plain text.
pub open spec fn slug_result_view(result: Result<Slug, Error>) -> Result<SlugView, ErrorView> {
    match result {
        Ok(slug) => Ok(slug@),
        Err(error) => Err(error@),
    }
}

/// The text inside an optional string slice.
pub open spec fn str_text_of(value: Option<&str>) -> Option<Seq<char>> {
    match value {
        Some(text) => Some(text@),
        None => None,
    }
}

impl Slug {
    /// Builds the slug of an item from its permalink, if it has one, and
    /// the path of its source file.
    pub fn new(permalink: Option<&str>, source: &str) -> (result: Result<Slug, Error>)
        ensures
            slug_result_view(result) == slug_for(str_text_of(permalink), source@),
    {
        match permalink {
            Some(link) => Ok(Slug::Permalink(String::from_str(link))),
            None => {
                let start = match crate::paths::parent(source) {
                    Some(start) => start,
                    None => {
                        let mut reason = String::from_str("missing parent on '");
                        reason.append(source);
                        reason.append("'?!?");
                        return Err(Error::BadPermalink { reason });
                    },
                };
                let stem = match crate::paths::file_stem(source) {
                    Some(stem) => stem,
                    None => {
                        let mut reason = String::from_str("missing file stem on '");
                        reason.append(source);
                        reason.append("'?!?");
                        return Err(Error::BadPermalink { reason });
                    },
                };
                let end = slugify(stem.as_str());
                Ok(Slug::FromPath(crate::paths::join(start.as_str(), end.as_str())))
            },
        }
    }
}

/// The first of two optional values that is there.
pub open spec fn either_of<T>(first: Option<T>, second: Option<T>) -> Option<T> {
    match first {
        Some(_) => first,
        None => second,
    }
}

/// Picks the first of two optional values that is there.
pub fn either<T>(first: Option<T>, second: Option<T>) -> (result: Option<T>)
    ensures
        result == either_of(first, second),
{
    match first {
        Some(value) => Some(value),
        None => second,
    }
}

/// An image, by its address.
#[derive(Debug, Clone, PartialEq, Eq)]
pub struct Image {
    pub url: String,
}

impl Image {
    pub fn from(url: String) -> (image: Image)
        ensures
            image == (Image { url }),
    {
        Image { url }
    }

    pub fn url(&self) -> (url: &str)
        ensures
            url@ == self.url@,
    {
        self.url.as_str()
    }
}

/// A piece of text together with the HTML it was rendered to.
#[derive(Debug, Clone, PartialEq, Eq)]
pub struct Rendered {
    pub source: String,
    pub html: String,
}

impl Rendered {
    /// The text as it was written.
    pub fn plain(&self) -> (text: String)
        ensures
            text@ == self.source@,
    {
        self.source.clone()
    }
}

/// A later change to an item.
#[derive(Debug, Clone, PartialEq, Eq)]
pub struct Update {
    pub at: serial::Timestamp,
    pub changes: Option<String>,
}

/// What a reader should know before reading an item.
#[derive(Debug, Clone, PartialEq, Eq)]
pub struct Qualifiers {
    pub audience: Option<String>,
    pub epistemic: Option<String>,
    pub context: Option<String>,
    pub discusses: Option<String>,
    pub disclosure: Option<String>,
    pub retraction: Option<serial::Retraction>,
}

/// A qualifier as a paragraph: its opening, its text and its closing, or
/// nothing where the qualifier is not there.
pub open spec fn paragraph(opening: Seq<char>, value: Option<String>) -> Seq<char> {
    match value {
        Some(text) => opening + text@ + "</p>"@,
        None => Seq::empty(),
    }
}

/// The notice that an item has been retracted, or nothing where it has not.
pub open spec fn retraction_text(retraction: Option<serial::Retraction>) -> Seq<char> {
    match retraction {
        Some(retraction) =>
            "<p><strong>Caveat lector:</strong> I have since retracted this (see <a href=\""@
            + retraction.url@ + "\">"@ + retraction.title@
            + "</a>), but as a matter of policy I leave even work I have retracted publicly available as a matter of record.<p>"@,
        None => Seq::empty(),
    }
}

pub open spec fn audience_opening() -> Seq<char> {
    "<p class=\"qualifier\"><b><a href=\"https://v4.chriskrycho.com/2018/assumed-audiences.html\">Assumed Audience</a>:</b> "@
}

pub open spec fn epistemic_opening() -> Seq<char> {
    "<p class=\"qualifier\"><b><a href='https://v5.chriskrycho.com/journal/epistemic-status/'>Epistemic status</a>:</b> "@
}

pub open spec fn context_opening() -> Seq<char> {
    "<p class=\"qualifier\"><b>A bit of context:</b> "@
}

pub open spec fn discusses_opening() -> Seq<char> {
    "<p class=\"qualifier\"><b>Heads up:</b> this post directly discusses "@
}

pub open spec fn disclosure_opening() -> Seq<char> {
    "<p class=\"qualifier\"><b>Full disclosure:</b> "@
}

fn push_paragraph(into: &mut String, opening: &str, value: &Option<String>)
    ensures
        final(into)@ == old(into)@ + paragraph(opening@, *value),
{
    match value {
        Some(text) => {
            into.append(opening);
            into.append(text.as_str());
            into.append("</p>");
            assert(into@ =~= old(into)@ + paragraph(opening@, *value));
        },
        None => {
            assert(into@ =~= old(into)@ + paragraph(opening@, *value));
        },
    }
}

impl Qualifiers {
    /// Whether there is any qualifier to show.
    pub fn needs_to_render(&self) -> (result: bool)
        ensures
            result == (self.audience is Some || self.epistemic is Some || self.context is Some
                || self.discusses is Some || self.disclosure is Some || self.retraction is Some),
    {
        self.audience.is_some() || self.epistemic.is_some() || self.context.is_some()
            || self.discusses.is_some() || self.disclosure.is_some() || self.retraction.is_some()
    }

    /// The qualifiers as HTML: one paragraph for each that is there, in the
    /// order audience, epistemic status, context, subjects discussed,
    /// disclosure, retraction.
    pub open spec fn html(self) -> Seq<char> {
        paragraph(audience_opening(), self.audience) + paragraph(
            epistemic_opening(),
            self.epistemic,
        ) + paragraph(context_opening(), self.context) + paragraph(
            discusses_opening(),
            self.discusses,
        ) + paragraph(disclosure_opening(), self.disclosure) + retraction_text(self.retraction)
    }

    /// Writes the qualifiers as HTML.
    pub fn render(&self) -> (text: String)
        ensures
            text@ == self.html(),
    {
        let mut text = String::new();
        push_paragraph(
            &mut text,
            "<p class=\"qualifier\"><b><a href=\"https://v4.chriskrycho.com/2018/assumed-audiences.html\">Assumed Audience</a>:</b> ",
            &self.audience,
        );
        push_paragraph(
            &mut text,
            "<p class=\"qualifier\"><b><a href='https://v5.chriskrycho.com/journal/epistemic-status/'>Epistemic status</a>:</b> ",
            &self.epistemic,
        );
        push_paragraph(
            &mut text,
            "<p class=\"qualifier\"><b>A bit of context:</b> ",
            &self.context,
        );
        push_paragraph(
            &mut text,
            "<p class=\"qualifier\"><b>Heads up:</b> this post directly discusses ",
            &self.discusses,
        );
        push_paragraph(
            &mut text,
            "<p class=\"qualifier\"><b>Full disclosure:</b> ",
            &self.disclosure,
        );
        match &self.retraction {
            Some(retraction) => {
                text.append(
                    "<p><strong>Caveat lector:</strong> I have since retracted this (see <a href=\"",
                );
                text.append(retraction.url.as_str());
                text.append("\">");
                text.append(retraction.title.as_str());
                text.append(
                    "</a>), but as a matter of policy I leave even work I have retracted publicly available as a matter of record.<p>",
                );
            },
            None => {},
        }
        assert(text@ =~= self.html());
        text
    }
}

/// A book that an item is about.
#[derive(Debug, Clone, PartialEq, Eq)]
pub struct Book {
    pub title: Option<String>,
    pub author: Option<String>,
    pub year: Option<String>,
    pub editors: Option<String>,
    pub translators: Option<String>,
    pub cover: Option<Image>,
    pub link: Option<String>,
    pub review: Option<serial::Review>,
}

/// The image at an optional address.
pub open spec fn image_of(url: Option<String>) -> Option<Image> {
    match url {
        Some(url) => Some(Image { url }),
        None => None,
    }
}

fn image_from(url: Option<String>) -> (image: Option<Image>)
    ensures
        image == image_of(url),
{
    match url {
        Some(url) => Some(Image::from(url)),
        None => None,
    }
}

/// Whether two optional texts are the same.
pub fn same_option(first: &Option<String>, second: &Option<String>) -> (result: bool)
    ensures
        result == (crate::paths::text_of(*first) == crate::paths::text_of(*second)),
{
    match (first, second) {
        (Some(first), Some(second)) => *first == *second,
        (None, None) => true,
        _ => false,
    }
}

/// What a review says, as plain values.
pub open spec fn review_view(review: Option<serial::Review>) -> Option<
    (serial::Rating, Seq<char>),
> {
    match review {
        Some(review) => Some((review.rating, review.summary@)),
        None => None,
    }
}

/// The address of an optional image.
pub open spec fn image_text(image: Option<Image>) -> Option<Seq<char>> {
    match image {
        Some(image) => Some(image.url@),
        None => None,
    }
}

impl Book {
    /// Whether two books are the same book: whether everything that is
    /// said of them is the same.
    pub open spec fn agrees(self, other: Book) -> bool {
        &&& crate::paths::text_of(self.title) == crate::paths::text_of(other.title)
        &&& crate::paths::text_of(self.author) == crate::paths::text_of(other.author)
        &&& crate::paths::text_of(self.year) == crate::paths::text_of(other.year)
        &&& crate::paths::text_of(self.editors) == crate::paths::text_of(other.editors)
        &&& crate::paths::text_of(self.translators) == crate::paths::text_of(other.translators)
        &&& image_text(self.cover) == image_text(other.cover)
        &&& crate::paths::text_of(self.link) == crate::paths::text_of(other.link)
        &&& review_view(self.review) == review_view(other.review)
    }

    /// Tells whether two books are the same book.
    pub fn same(&self, other: &Book) -> (result: bool)
        ensures
            result == self.agrees(*other),
    {
        let same_cover = match (&self.cover, &other.cover) {
            (Some(first), Some(second)) => first.url == second.url,
            (None, None) => true,
            _ => false,
        };
        let same_review = match (&self.review, &other.review) {
            (Some(first), Some(second)) => first.rating == second.rating && first.summary
                == second.summary,
            (None, None) => true,
            _ => false,
        };
        same_option(&self.title, &other.title) && same_option(&self.author, &other.author)
            && same_option(&self.year, &other.year) && same_option(&self.editors, &other.editors)
            && same_option(&self.translators, &other.translators) && same_cover && same_option(
            &self.link,
            &other.link,
        ) && same_review
    }

    /// The book that a header or a data file describes.
    pub open spec fn of(book: serial::Book) -> Book {
        Book {
            title: book.title,
            author: book.author,
            year: book.year,
            editors: book.editors,
            translators: book.translators,
            cover: image_of(book.cover),
            link: book.link,
            review: book.review,
        }
    }

    pub fn from(book: serial::Book) -> (result: Book)
        ensures
            result == Book::of(book),
    {
        Book {
            title: book.title,
            author: book.author,
            year: book.year,
            editors: book.editors,
            translators: book.translators,
            cover: image_from(book.cover),
            link: book.link,
            review: book.review,
        }
    }
}

/// Where a musical work can be heard.
#[derive(Debug, Clone, PartialEq, Eq)]
pub struct Listen {
    pub buy: HashMap<String, String>,
    pub stream: HashMap<String, String>,
}

impl Listen {
    pub open spec fn of(listen: serial::Listen) -> Listen {
        Listen { buy: listen.buy, stream: listen.stream }
    }

    pub fn from(listen: serial::Listen) -> (result: Listen)
        ensures
            result == Listen::of(listen),
    {
        Listen { buy: listen.buy, stream: listen.stream }
    }
}

/// A video of a musical work.
#[derive(Debug, Clone, PartialEq, Eq)]
pub enum Video {
    YouTube { id: String },
    YouTubePlaylist { id: String },
    Url { url: String },
}

impl Video {
    pub open spec fn of(video: serial::Video) -> Video {
        match video {
            serial::Video::YouTube { yt } => Video::YouTube { id: yt },
            serial::Video::YouTubePlaylist { pl } => Video::YouTubePlaylist { id: pl },
            serial::Video::Url { url } => Video::Url { url },
        }
    }

    pub fn from(video: serial::Video) -> (result: Video)
        ensures
            result == Video::of(video),
    {
        match video {
            serial::Video::YouTube { yt } => Video::YouTube { id: yt },
            serial::Video::YouTubePlaylist { pl } => Video::YouTubePlaylist { id: pl },
            serial::Video::Url { url } => Video::Url { url },
        }
    }
}

/// A piece of music.
#[derive(Debug, Clone, PartialEq, Eq)]
pub struct MusicalWork {
    pub title: String,
    /// The instruments, as free text.
    pub instrumentation: String,
    pub duration: String,
    pub subtitle: Option<String>,
    /// When the work was published.
    pub date: String,
    pub listen: Option<Listen>,
    pub video: Option<Video>,
}

/// What is known of a work when its item and the directories above the item
/// are put together: field by field, what the item says comes first.
pub open spec fn merged_work(
    from_item: Option<serial::MusicalWork>,
    from_cascade: Option<serial::MusicalWork>,
) -> Option<serial::MusicalWork> {
    match (from_item, from_cascade) {
        (Some(item), Some(cascade)) => Some(
            serial::MusicalWork {
                title: either_of(item.title, cascade.title),
                subtitle: either_of(item.subtitle, cascade.subtitle),
                date: either_of(item.date, cascade.date),
                duration: either_of(item.duration, cascade.duration),
                instrumentation: either_of(item.instrumentation, cascade.instrumentation),
                listen: either_of(item.listen, cascade.listen),
                video: either_of(item.video, cascade.video),
            },
        ),
        (Some(item), None) => Some(item),
        (None, Some(cascade)) => Some(cascade),
        (None, None) => None,
    }
}

/// Where a work was described: this is where a missing field is missing
/// from.
pub open spec fn work_origin(
    from_item: Option<serial::MusicalWork>,
    from_cascade: Option<serial::MusicalWork>,
) -> WorkMissingFrom {
    if from_item is Some && from_cascade is Some {
        WorkMissingFrom::Both
    } else if from_item is Some {
        WorkMissingFrom::Item
    } else {
        WorkMissingFrom::Cascade
    }
}

/// The first required field that a work lacks: its title, its date, its
/// duration or its instrumentation, looked for in this order.
pub open spec fn first_missing(work: serial::MusicalWork) -> Option<WorkError> {
    if work.title is None {
        Some(WorkError::Title)
    } else if work.date is None {
        Some(WorkError::Date)
    } else if work.duration is None {
        Some(WorkError::Duration)
    } else if work.instrumentation is None {
        Some(WorkError::Instrumentation)
    } else {
        None
    }
}

pub open spec fn listen_of(listen: Option<serial::Listen>) -> Option<Listen> {
    match listen {
        Some(listen) => Some(Listen::of(listen)),
        None => None,
    }
}

pub open spec fn video_of(video: Option<serial::Video>) -> Option<Video> {
    match video {
        Some(video) => Some(Video::of(video)),
        None => None,
    }
}

/// The work of an item. There is none where neither the item nor the
/// directories above it describe one. Where they do, the descriptions are
/// merged, and the first required field that is still missing is an error.
pub open spec fn resolved_work(
    from_item: Option<serial::MusicalWork>,
    from_cascade: Option<serial::MusicalWork>,
) -> Result<Option<MusicalWork>, Error> {
    match merged_work(from_item, from_cascade) {
        None => Ok(None),
        Some(work) => match first_missing(work) {
            Some(what) => Err(
                Error::BadField {
                    source: FieldError::Work(what, work_origin(from_item, from_cascade)),
                },
            ),
            None => Ok(
                Some(
                    MusicalWork {
                        title: work.title->0,
                        instrumentation: work.instrumentation->0,
                        duration: work.duration->0,
                        subtitle: work.subtitle,
                        date: work.date->0,
                        listen: listen_of(work.listen),
                        video: video_of(work.video),
                    },
                ),
            ),
        },
    }
}

fn required(field: Option<String>, what: WorkError, from: WorkMissingFrom) -> (result: Result<
    String,
    Error,
>)
    ensures
        result == match field {
            Some(value) => Ok::<String, Error>(value),
            None => Err(Error::BadField { source: FieldError::Work(what, from) }),
        },
{
    match field {
        Some(value) => Ok(value),
        None => Err(Error::bad_field(FieldError::Work(what, from))),
    }
}

impl MusicalWork {
    /// Resolves the work of an item from what the item says of it and what
    /// the directories above the item say of it.
    pub fn resolved(
        from_item: Option<serial::MusicalWork>,
        from_cascade: Option<serial::MusicalWork>,
    ) -> (result: Result<Option<MusicalWork>, Error>)
        ensures
            result == resolved_work(from_item, from_cascade),
    {
        let (work, from) = match (from_item, from_cascade) {
            (Some(item), Some(cascade)) => (
                serial::MusicalWork {
                    title: either(item.title, cascade.title),
                    subtitle: either(item.subtitle, cascade.subtitle),
                    date: either(item.date, cascade.date),
                    duration: either(item.duration, cascade.duration),
                    instrumentation: either(item.instrumentation, cascade.instrumentation),
                    listen: either(item.listen, cascade.listen),
                    video: either(item.video, cascade.video),
                },
                WorkMissingFrom::Both,
            ),
            (Some(item), None) => (item, WorkMissingFrom::Item),
            (None, Some(cascade)) => (cascade, WorkMissingFrom::Cascade),
            (None, None) => {
                return Ok(None);
            },
        };
        let title = match required(work.title, WorkError::Title, from) {
            Ok(title) => title,
            Err(error) => {
                return Err(error);
            },
        };
        let date = match required(work.date, WorkError::Date, from) {
            Ok(date) => date,
            Err(error) => {
                return Err(error);
            },
        };
        let duration = match required(work.duration, WorkError::Duration, from) {
            Ok(duration) => duration,
            Err(error) => {
                return Err(error);
            },
        };
        let instrumentation = match required(
            work.instrumentation,
            WorkError::Instrumentation,
            from,
        ) {
            Ok(instrumentation) => instrumentation,
            Err(error) => {
                return Err(error);
            },
        };
        let listen = match work.listen {
            Some(listen) => Some(Listen::from(listen)),
            None => None,
        };
        let video = match work.video {
            Some(video) => Some(Video::from(video)),
            None => None,
        };
        Ok(
            Some(
                MusicalWork {
                    title,
                    instrumentation,
                    duration,
                    subtitle: work.subtitle,
                    date,
                    listen,
                    video,
                },
            ),
        )
    }
}

/// Everything that is known of an item besides its content.
#[derive(Debug, Clone, PartialEq, Eq)]
pub struct Metadata {
    pub title: String,
    /// Where the item is to be found on the site.
    pub slug: Slug,
    /// The template that the item is rendered with.
    pub layout: String,
    pub book: Option<Book>,
    pub featured: bool,
    pub image: Option<Image>,
    /// What the item links to, where it is a comment on something else.
    pub link: Option<String>,
    pub qualifiers: Qualifiers,
    pub series: Option<serial::Series>,
    pub subscribe: Option<serial::Subscribe>,
    pub subtitle: Option<Rendered>,
    pub summary: Option<Rendered>,
    pub tags: Vec<String>,
    pub thanks: Option<Rendered>,
    pub updated: Vec<Update>,
    pub work: Option<MusicalWork>,
}

/// The pieces of an item's metadata that are written in Markdown.
#[derive(Debug, Clone, PartialEq, Eq)]
pub struct Texts {
    pub subtitle: Option<String>,
    pub summary: Option<String>,
    pub thanks: Option<String>,
}

/// What rendering the pieces gave: for each piece the HTML, or why there is
/// none. Where an item has no such piece, what stands here for it is not
/// looked at.
#[derive(Debug, PartialEq, Eq)]
pub struct RenderedTexts {
    pub subtitle: Result<String, String>,
    pub summary: Result<String, String>,
    pub thanks: Result<String, String>,
}

/// A permalink as it is used: without the slashes around it.
pub open spec fn permalink_of(permalink: Option<String>) -> Option<Seq<char>> {
    match permalink {
        Some(link) => Some(without_trailing(without_leading(link@, '/'), '/')),
        None => None,
    }
}

/// The changes to an item, each with its time: there are none where one of
/// them has no time.
pub open spec fn updates_of(updated: Seq<serial::Update>) -> Option<Seq<Update>> {
    if forall|i: int| 0 <= i < updated.len() ==> updated[i].at is Some {
        Some(
            Seq::new(
                updated.len(),
                |i: int| Update { at: updated[i].at->0, changes: updated[i].changes },
            ),
        )
    } else {
        None
    }
}

/// What an item is said to discuss, by the item itself and then by the
/// directories above it.
pub open spec fn discussed(
    from_item: Option<serial::Qualifiers>,
    from_cascade: Option<serial::Qualifiers>,
) -> Seq<Seq<char>> {
    (match from_item {
        Some(qualifiers) => texts(qualifiers.discusses@),
        None => Seq::empty(),
    }) + (match from_cascade {
        Some(qualifiers) => texts(qualifiers.discusses@),
        None => Seq::empty(),
    })
}

/// The warning about what an item discusses, or nothing where it is said to
/// discuss nothing.
pub open spec fn discusses_text(topics: Seq<Seq<char>>) -> Option<Seq<char>> {
    match nice_list_text(topics) {
        Some(list) => Some("<b>Heads up:</b> this post directly discusses"@ + " "@ + list),
        None => None,
    }
}

/// A rendered piece of text, where the item has that piece.
pub open spec fn rendered_of(text: Option<String>, html: Result<String, String>) -> Option<
    Rendered,
> {
    match text {
        Some(source) => Some(Rendered { source, html: html->Ok_0 }),
        None => None,
    }
}

/// Whether rendering a piece of text that the item has failed.
pub open spec fn render_failed(text: Option<String>, html: Result<String, String>) -> bool {
    text is Some && html is Err
}

pub open spec fn book_of(book: Option<serial::Book>) -> Option<Book> {
    match book {
        Some(book) => Some(Book::of(book)),
        None => None,
    }
}

/// Why the metadata of an item cannot be resolved, if it cannot. What is
/// looked at, in this order: the directory of the source file, the musical
/// work, the title, the slug, the subtitle, the summary, the times of the
/// updates, the thanks. The first of them that fails gives the error.
pub open spec fn resolution_error(
    item: serial::Item,
    source_path: Seq<char>,
    cascade: serial::Inherited,
    rendered: RenderedTexts,
) -> Option<ErrorView> {
    let work = resolved_work(item.work, cascade.work);
    let slug = slug_for(permalink_of(item.permalink), source_path);
    if path_parent(source_path) is None {
        Some(
            ErrorView::BadPermalink {
                reason: "Missing parent for file at "@ + source_path,
            },
        )
    } else if work is Err {
        Some(work->Err_0@)
    } else if work->Ok_0 is None && item.title is None {
        Some(ErrorView::MissingRequiredField { name: "title"@ })
    } else if slug is Err {
        Some(slug->Err_0)
    } else if render_failed(item.subtitle, rendered.subtitle) {
        Some(ErrorView::Markdown { source: rendered.subtitle->Err_0@ })
    } else if render_failed(item.summary, rendered.summary) {
        Some(ErrorView::Markdown { source: rendered.summary->Err_0@ })
    } else if updates_of(item.updated@) is None {
        Some(ErrorView::BadField { source: FieldError::Update })
    } else if render_failed(either_of(item.thanks, cascade.thanks), rendered.thanks) {
        Some(ErrorView::Markdown { source: rendered.thanks->Err_0@ })
    } else {
        None
    }
}

/// Whether this is the metadata that an item's header, its source path and
/// the directories above it resolve to. Of every field the item's own word
/// comes first and the directories' word second; tags and the subjects
/// discussed are added up; the title of a musical work is the item's title.
pub open spec fn resolves_to(
    metadata: Metadata,
    item: serial::Item,
    source_path: Seq<char>,
    cascade: serial::Inherited,
    default_template_name: String,
    rendered: RenderedTexts,
) -> bool {
    let work = resolved_work(item.work, cascade.work)->Ok_0;
    let own = item.qualifiers;
    let inherited = cascade.qualifiers;
    &&& metadata.title == (match work {
        Some(work) => work.title,
        None => item.title->0,
    })
    &&& Ok::<SlugView, ErrorView>(metadata.slug@) == slug_for(
        permalink_of(item.permalink),
        source_path,
    )
    &&& metadata.subtitle == rendered_of(item.subtitle, rendered.subtitle)
    &&& metadata.layout == either_of(
        either_of(item.layout, cascade.layout),
        Some(default_template_name),
    )->0
    &&& metadata.summary == rendered_of(item.summary, rendered.summary)
    &&& metadata.qualifiers.audience == either_of(
        qualifier(own, |q: serial::Qualifiers| q.audience),
        qualifier(inherited, |q: serial::Qualifiers| q.audience),
    )
    &&& metadata.qualifiers.epistemic == either_of(
        qualifier(own, |q: serial::Qualifiers| q.epistemic),
        qualifier(inherited, |q: serial::Qualifiers| q.epistemic),
    )
    &&& metadata.qualifiers.context == either_of(
        qualifier(own, |q: serial::Qualifiers| q.context),
        qualifier(inherited, |q: serial::Qualifiers| q.context),
    )
    &&& crate::paths::text_of(metadata.qualifiers.discusses) == discusses_text(
        discussed(own, inherited),
    )
    &&& metadata.qualifiers.disclosure == either_of(
        qualifier(own, |q: serial::Qualifiers| q.disclosure),
        qualifier(inherited, |q: serial::Qualifiers| q.disclosure),
    )
    &&& metadata.qualifiers.retraction == either_of(
        qualifier(own, |q: serial::Qualifiers| q.retraction),
        qualifier(inherited, |q: serial::Qualifiers| q.retraction),
    )
    &&& Some(metadata.updated@) == updates_of(item.updated@)
    &&& metadata.thanks == rendered_of(either_of(item.thanks, cascade.thanks), rendered.thanks)
    &&& metadata.tags@ == (match item.tags {
        Some(tags) => tags@,
        None => Seq::empty(),
    }) + cascade.tags@
    &&& metadata.featured == item.featured
    &&& metadata.image == image_of(either_of(item.image, cascade.image))
    &&& metadata.link == item.link
    &&& metadata.book == book_of(either_of(item.book, cascade.book))
    &&& metadata.series == either_of(item.series, cascade.series)
    &&& metadata.subscribe == cascade.subscribe
    &&& metadata.work == work
}

/// A field of the qualifiers, where there are qualifiers.
pub open spec fn qualifier<T>(
    qualifiers: Option<serial::Qualifiers>,
    field: spec_fn(serial::Qualifiers) -> Option<T>,
) -> Option<T> {
    match qualifiers {
        Some(qualifiers) => field(qualifiers),
        None => None,
    }
}

fn render_one(text: Option<String>, html: Result<String, String>) -> (result: Result<
    Option<Rendered>,
    Error,
>)
    ensures
        render_failed(text, html) ==> result is Err && result->Err_0@ == (ErrorView::Markdown {
            source: html->Err_0@,
        }),
        !render_failed(text, html) ==> result == Ok::<Option<Rendered>, Error>(
            rendered_of(text, html),
        ),
{
    match text {
        Some(source) => match html {
            Ok(html) => Ok(Some(Rendered { source, html })),
            Err(source) => Err(Error::Markdown { source }),
        },
        None => Ok(None),
    }
}

fn timed_updates(written: Vec<serial::Update>) -> (result: Option<Vec<Update>>)
    ensures
        match result {
            Some(updated) => Some(updated@) == updates_of(written@),
            None => updates_of(written@) is None,
        },
{
    let mut updated: Vec<Update> = Vec::new();
    let mut rest = written;
    let mut i: usize = 0;
    let n = rest.len();
    while i < n
        invariant
            n == written@.len(),
            i <= n,
            rest@.len() == n - i,
            forall|j: int| 0 <= j < rest@.len() ==> rest@[j] == #[trigger] written@[i + j],
            updated@.len() == i,
            forall|j: int| 0 <= j < i ==> (#[trigger] written@[j]).at is Some,
            forall|j: int|
                0 <= j < i ==> #[trigger] updated@[j] == (Update {
                    at: written@[j].at->0,
                    changes: written@[j].changes,
                }),
        decreases n - i,
    {
        let ghost before = rest@;
        let next = rest.remove(0);
        assert(next == written@[i + 0]);
        match next.at {
            Some(at) => {
                updated.push(Update { at, changes: next.changes });
            },
            None => {
                assert(written@[i as int].at is None);
                return None;
            },
        }
        assert forall|j: int| 0 <= j < rest@.len() implies rest@[j] == #[trigger] written@[i + 1
            + j] by {
            assert(written@[i + (j + 1)] == before[j + 1]);
        }
        i += 1;
    }
    assert(updated@ =~= updates_of(written@)->0);
    Some(updated)
}

fn empty_qualifiers() -> (result: serial::Qualifiers)
    ensures
        result.audience is None,
        result.epistemic is None,
        result.context is None,
        result.discusses@.len() == 0,
        result.disclosure is None,
        result.retraction is None,
{
    serial::Qualifiers {
        audience: None,
        epistemic: None,
        context: None,
        discusses: Vec::new(),
        disclosure: None,
        retraction: None,
    }
}

impl Metadata {
    /// The pieces of an item's metadata that have to be rendered before the
    /// metadata can be resolved. For the thanks, what the item says comes
    /// before what the directories above it say.
    pub fn texts_to_render(item: &serial::Item, cascade: &serial::Inherited) -> (texts: Texts)
        ensures
            texts.subtitle == item.subtitle,
            texts.summary == item.summary,
            texts.thanks == either_of(item.thanks, cascade.thanks),
    {
        Texts {
            subtitle: item.subtitle.clone(),
            summary: item.summary.clone(),
            thanks: match &item.thanks {
                Some(thanks) => Some(thanks.clone()),
                None => cascade.thanks.clone(),
            },
        }
    }

    /// Resolves the metadata of an item from its header, the path of its
    /// source file, what the directories above it say, and the rendered
    /// pieces of text. Gives the metadata together with the item's date.
    pub fn resolved(
        item: serial::Item,
        source_path: &str,
        cascade: serial::Inherited,
        default_template_name: String,
        rendered: RenderedTexts,
    ) -> (result: Result<(Metadata, Option<serial::Timestamp>), Error>)
        ensures
            match result {
                Ok((metadata, date)) => {
                    &&& resolution_error(item, source_path@, cascade, rendered) is None
                    &&& resolves_to(
                        metadata,
                        item,
                        source_path@,
                        cascade,
                        default_template_name,
                        rendered,
                    )
                    &&& date == item.date
                },
                Err(error) => resolution_error(item, source_path@, cascade, rendered) == Some(
                    error@,
                ),
            },
    {
        if crate::paths::parent(source_path).is_none() {
            let mut reason = String::from_str("Missing parent for file at ");
            reason.append(source_path);
            return Err(Error::BadPermalink { reason });
        }
        let work = match MusicalWork::resolved(item.work, cascade.work) {
            Ok(work) => work,
            Err(error) => {
                return Err(error);
            },
        };
        let title = match &work {
            Some(work) => work.title.clone(),
            None => match item.title {
                Some(title) => title,
                None => {
                    return Err(
                        Error::MissingRequiredField { name: String::from_str("title") },
                    );
                },
            },
        };
        let slug = match item.permalink {
            Some(link) => {
                let trimmed = trim_both(link.as_str(), '/');
                Slug::new(Some(trimmed.as_str()), source_path)
            },
            None => Slug::new(None, source_path),
        };
        let slug = match slug {
            Ok(slug) => slug,
            Err(error) => {
                return Err(error);
            },
        };
        let subtitle = match render_one(item.subtitle, rendered.subtitle) {
            Ok(subtitle) => subtitle,
            Err(error) => {
                return Err(error);
            },
        };
        let layout = match either(
            either(item.layout, cascade.layout),
            Some(default_template_name),
        ) {
            Some(layout) => layout,
            None => String::new(),
        };
        let summary = match render_one(item.summary, rendered.summary) {
            Ok(summary) => summary,
            Err(error) => {
                return Err(error);
            },
        };
        let from_item = match item.qualifiers {
            Some(qualifiers) => qualifiers,
            None => empty_qualifiers(),
        };
        let from_cascade = match cascade.qualifiers {
            Some(qualifiers) => qualifiers,
            None => empty_qualifiers(),
        };
        let mut topics = from_item.discusses;
        let mut more = from_cascade.discusses;
        topics.append(&mut more);
        assert(texts(topics@) =~= discussed(item.qualifiers, cascade.qualifiers));
        let discusses = match nice_list(&topics) {
            Some(list) => {
                let mut text = String::from_str("<b>Heads up:</b> this post directly discusses");
                text.append(" ");
                text.append(list.as_str());
                Some(text)
            },
            None => None,
        };
        let qualifiers = Qualifiers {
            audience: either(from_item.audience, from_cascade.audience),
            epistemic: either(from_item.epistemic, from_cascade.epistemic),
            context: either(from_item.context, from_cascade.context),
            discusses,
            disclosure: either(from_item.disclosure, from_cascade.disclosure),
            retraction: either(from_item.retraction, from_cascade.retraction),
        };
        let updated = match timed_updates(item.updated) {
            Some(updated) => updated,
            None => {
                return Err(Error::bad_field(FieldError::Update));
            },
        };
        let thanks = match render_one(either(item.thanks, cascade.thanks), rendered.thanks) {
            Ok(thanks) => thanks,
            Err(error) => {
                return Err(error);
            },
        };
        let mut tags = match item.tags {
            Some(tags) => tags,
            None => Vec::new(),
        };
        let mut more_tags = cascade.tags;
        tags.append(&mut more_tags);
        let image = image_from(either(item.image, cascade.image));
        let book = match either(item.book, cascade.book) {
            Some(book) => Some(Book::from(book)),
            None => None,
        };
        let metadata = Metadata {
            title,
            slug,
            layout,
            book,
            featured: item.featured,
            image,
            link: item.link,
            qualifiers,
            series: either(item.series, cascade.series),
            subscribe: cascade.subscribe,
            subtitle,
            summary,
            tags,
            thanks,
            updated,
            work,
        };
        Ok((metadata, item.date))
    }
}

/// Which of the directories that have a data file speaks for a source
/// file: of those in which the file lies, the one that lies in all the
/// others, which is the nearest. The directories are looked at in their
/// order, and one is taken where the file lies in it and it lies in the one
/// taken before.
pub open spec fn nearest_of(dirs: Seq<Seq<char>>, source_path: Seq<char>) -> Option<int>
    decreases dirs.len(),
{
    if dirs.len() == 0 {
        None
    } else {
        let before = nearest_of(dirs.drop_last(), source_path);
        if path_starts_with(source_path, dirs.last()) && (before is None || path_starts_with(
            dirs.last(),
            dirs[before->0],
        )) {
            Some(dirs.len() - 1)
        } else {
            before
        }
    }
}

/// Finds which of the directories that have a data file speaks for a
/// source file, if any does.
pub fn nearest_data_dir(dirs: &Vec<String>, source_path: &str) -> (result: Option<usize>)
    ensures
        match result {
            Some(index) => index < dirs.len() && nearest_of(texts(dirs@), source_path@) == Some(
                index as int,
            ),
            None => nearest_of(texts(dirs@), source_path@) is None,
        },
{
    let mut best: Option<usize> = None;
    let mut i: usize = 0;
    assert(texts(dirs@).take(0) =~= Seq::empty());
    while i < dirs.len()
        invariant
            i <= dirs.len(),
            match best {
                Some(index) => index < i && nearest_of(texts(dirs@).take(i as int), source_path@)
                    == Some(index as int),
                None => nearest_of(texts(dirs@).take(i as int), source_path@) is None,
            },
        decreases dirs.len() - i,
    {
        let ghost seen = texts(dirs@).take(i as int);
        let ghost next = texts(dirs@).take(i + 1);
        assert(next.drop_last() =~= seen);
        assert(next.last() == dirs@[i as int]@);
        if crate::paths::starts_with(source_path, dirs[i].as_str()) {
            let nearer = match best {
                Some(index) => {
                    assert(next[index as int] == dirs@[index as int]@);
                    crate::paths::starts_with(dirs[i].as_str(), dirs[index].as_str())
                },
                None => true,
            };
            if nearer {
                best = Some(i);
            }
        }
        i += 1;
    }
    assert(texts(dirs@).take(i as int) =~= texts(dirs@));
    best
}

} // verus!
