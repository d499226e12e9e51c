//! What the templates of a site can call: titles, descriptions and labels
//! for the head of a page.

use crate::config::Config;
use crate::item::{Image, Metadata};
use crate::page::RootedPath;
use crate::serial::rating_text;
use crate::text::{decimal, decimal_text, join_texts, joined, texts, without_trailing};
use vstd::prelude::*;
use vstd::string::*;
use vstd::utf8::*;

verus! {

/// The title of a page as the browser shows it: the title of the page and
/// the title of the site, unless they are the same or the page has none.
pub open spec fn full_title(page_title: Option<Seq<char>>, site_title: Seq<char>) -> Seq<char> {
    match page_title {
        Some(page_title) => if page_title != site_title {
            page_title + " | "@ + site_title
        } else {
            page_title
        },
        None => site_title,
    }
}

/// Writes the title of a page as the browser shows it.
pub fn resolved_title(page_title: Option<String>, site_title: String) -> (title: String)
    ensures
        title@ == full_title(crate::paths::text_of(page_title), site_title@),
{
    match page_title {
        Some(page_title) => {
            if page_title != site_title {
                let mut title = page_title;
                title.append(" | ");
                title.append(site_title.as_str());
                title
            } else {
                page_title
            }
        },
        None => site_title,
    }
}

/// The address of a place on the site.
pub fn url_for(path: &RootedPath, config: &Config) -> (url: String)
    ensures
        url@ == without_trailing(config.url@, '/') + "/"@ + path@,
{
    path.url(config)
}

/// The address of the image of a page: its own, or else that of the site.
pub fn resolved_image(from_page: Option<Image>, from_config: Image) -> (url: String)
    ensures
        url@ == match from_page {
            Some(image) => image.url@,
            None => from_config.url@,
        },
{
    match from_page {
        Some(image) => image.url,
        None => from_config.url,
    }
}

/// What `nanohtml2text::html2text` gives for a piece of HTML: its text
/// without the markup.
pub uninterp spec fn html_text_of(html: Seq<char>) -> Seq<char>;

/// Calls `nanohtml2text::html2text`. Trusted: the result is the named
/// result of that function on the same text.
#[verifier::external_body]
fn html2text(html: &str) -> (result: String)
    ensures
        result@ == html_text_of(html@),
{
    nanohtml2text::html2text(html)
}

/// The text of a piece of HTML, without its tags.
pub fn strip_tags(value: String) -> (text: String)
    ensures
        text@ == html_text_of(value@),
{
    html2text(value.as_str())
}

/// How many bytes of a text a description keeps.
pub const DESCRIPTION_BYTES: usize = 155;

/// Whether a text can be cut for a description: it is short enough to
/// stay whole, or no character of it lies across the place of the cut.
pub open spec fn can_truncate(content: Seq<char>) -> bool {
    encode_utf8(content).len() > DESCRIPTION_BYTES ==> is_char_boundary(
        encode_utf8(content),
        DESCRIPTION_BYTES as int,
    )
}

/// Whether a text is another cut for a description: the same where it has
/// no more than 155 bytes, and else its first 155 bytes and an ellipsis.
pub open spec fn truncated_to(content: Seq<char>, result: Seq<char>) -> bool {
    if encode_utf8(content).len() > DESCRIPTION_BYTES {
        exists|head: Seq<char>|
            encode_utf8(head) == encode_utf8(content).subrange(0, DESCRIPTION_BYTES as int)
                && result == head + "…"@
    } else {
        result == content
    }
}

/// Cuts a text for a description.
pub fn truncate(content: &str) -> (result: String)
    requires
        can_truncate(content@),
    ensures
        truncated_to(content@, result@),
{
    assert(content.spec_bytes() == encode_utf8(content@));
    if content.as_bytes().len() > DESCRIPTION_BYTES {
        let (head, _) = content.split_at(DESCRIPTION_BYTES);
        let mut truncated = String::from_str(head);
        truncated.append("…");
        assert(head.spec_bytes() == encode_utf8(head@));
        assert(encode_utf8(head@) == encode_utf8(content@).subrange(0, DESCRIPTION_BYTES as int));
        assert(truncated@ == head@ + "…"@);
        truncated
    } else {
        String::from_str(content)
    }
}

/// Tells whether a text can be cut for a description.
pub fn fits_description(content: &str) -> (result: bool)
    ensures
        result == can_truncate(content@),
{
    assert(content.spec_bytes() == encode_utf8(content@));
    !(content.as_bytes().len() > DESCRIPTION_BYTES && !content.is_char_boundary(
        DESCRIPTION_BYTES,
    ))
}

/// Cuts a text for a description, where it can be cut: there is no result
/// for a longer text with a character across the place of the cut.
pub fn try_truncate(content: &str) -> (result: Option<String>)
    ensures
        result is Some == can_truncate(content@),
        result matches Some(text) ==> truncated_to(content@, text@),
{
    if fits_description(content) {
        Some(truncate(content))
    } else {
        None
    }
}

/// What describes a page before its content is looked at: its summary, or
/// the review of its book, or its subtitle.
pub open spec fn own_description(page_data: Metadata) -> Option<Seq<char>> {
    if page_data.summary is Some {
        Some(page_data.summary->0.source@)
    } else if page_data.book is Some && page_data.book->0.review is Some {
        Some(
            rating_text(page_data.book->0.review->0.rating) + ": "@
                + page_data.book->0.review->0.summary@,
        )
    } else if page_data.subtitle is Some {
        Some(page_data.subtitle->0.source@)
    } else {
        None
    }
}

/// Whether a text describes a page: it is the page's own description, or,
/// where the page has none, the start of the text of its content.
pub open spec fn describes(page_data: Metadata, content: Seq<char>, result: Seq<char>) -> bool {
    match own_description(page_data) {
        Some(text) => result == text,
        None => truncated_to(html_text_of(content), result),
    }
}

fn described(page_data: &Metadata) -> (result: Option<String>)
    ensures
        crate::paths::text_of(result) == own_description(*page_data),
{
    match &page_data.summary {
        Some(summary) => {
            return Some(summary.plain());
        },
        None => {},
    }
    match &page_data.book {
        Some(book) => match &book.review {
            Some(review) => {
                return Some(review.describe());
            },
            None => {},
        },
        None => {},
    }
    match &page_data.subtitle {
        Some(subtitle) => Some(subtitle.plain()),
        None => None,
    }
}

/// Describes a page for search engines and link previews.
pub fn description(page_data: &Metadata, content: &str) -> (result: String)
    requires
        own_description(*page_data) is None ==> can_truncate(html_text_of(content@)),
    ensures
        describes(*page_data, content@, result@),
{
    match described(page_data) {
        Some(text) => text,
        None => {
            let text = html2text(content);
            truncate(text.as_str())
        },
    }
}

/// Describes a page for search engines and link previews, where that can
/// be done: there is no description where it would be the start of the
/// content and the content cannot be cut.
pub fn try_description(page_data: &Metadata, content: &str) -> (result: Option<String>)
    ensures
        result is Some == (own_description(*page_data) is None ==> can_truncate(
            html_text_of(content@),
        )),
        result matches Some(text) ==> describes(*page_data, content@, text@),
{
    if described(page_data).is_some() {
        Some(description(page_data, content))
    } else {
        let text = html2text(content);
        if fits_description(text.as_str()) {
            Some(description(page_data, content))
        } else {
            None
        }
    }
}

/// What is shown of values while a template is being debugged: the name,
/// where there is one, and the values, where there are any.
pub open spec fn debug_text(name: Option<Seq<char>>, args: Option<Seq<char>>) -> Seq<char> {
    (match name {
        Some(name) => "<p>"@ + name + ":</p>"@,
        None => Seq::empty(),
    }) + "<pre><code>"@ + (match args {
        Some(args) => args,
        None => "{no args!}"@,
    }) + "</code></pre>"@
}

/// Shows values while a template is being debugged. The values come
/// already written out.
pub fn fancy_debug(name: Option<&str>, args: Option<&str>) -> (text: String)
    ensures
        text@ == debug_text(crate::item::str_text_of(name), crate::item::str_text_of(args)),
{
    let mut text = String::new();
    match name {
        Some(name) => {
            text.append("<p>");
            text.append(name);
            text.append(":</p>");
        },
        None => {},
    }
    text.append("<pre><code>");
    match args {
        Some(args) => text.append(args),
        None => text.append("{no args!}"),
    }
    text.append("</code></pre>");
    assert(text@ =~= debug_text(crate::item::str_text_of(name), crate::item::str_text_of(args)));
    text
}

/// What `count_md::count` gives for a text in Markdown: the number of its
/// words.
pub uninterp spec fn markdown_words(text: Seq<char>) -> u64;

/// How many `>` a line may hold for its words to be counted.
pub const MAX_QUOTE_MARKS: usize = 255;

/// How many `>` stand in the last line of a text, given as its bytes.
pub open spec fn marks_in_last_line(bytes: Seq<u8>) -> nat
    decreases bytes.len(),
{
    if bytes.len() == 0 {
        0
    } else if bytes.last() == 10 {
        0
    } else {
        marks_in_last_line(bytes.drop_last()) + if bytes.last() == 62 {
            1nat
        } else {
            0nat
        }
    }
}

/// Whether the words of a text can be counted: no line of it holds more
/// than 255 `>`. Each `>` at the start of a line may open a block quote
/// within the one before, and the counter of the word count has room for
/// 255 of them.
pub open spec fn can_count(text: Seq<char>) -> bool {
    forall|n: int|
        0 <= n <= encode_utf8(text).len() ==> marks_in_last_line(
            #[trigger] encode_utf8(text).take(n),
        ) <= MAX_QUOTE_MARKS
}

/// Tells whether the words of a text can be counted.
pub fn fits_count(text: &str) -> (result: bool)
    ensures
        result == can_count(text@),
{
    assert(text.spec_bytes() == encode_utf8(text@));
    let bytes = text.as_bytes();
    let mut marks: usize = 0;
    let mut i: usize = 0;
    while i < bytes.len()
        invariant
            i <= bytes.len(),
            bytes@ == encode_utf8(text@),
            marks == marks_in_last_line(bytes@.take(i as int)),
            forall|n: int|
                0 <= n <= i ==> marks_in_last_line(#[trigger] bytes@.take(n)) <= MAX_QUOTE_MARKS,
        decreases bytes.len() - i,
    {
        assert(bytes@.take(i + 1).drop_last() =~= bytes@.take(i as int));
        if bytes[i] == 10 {
            marks = 0;
        } else if bytes[i] == 62 {
            if marks == MAX_QUOTE_MARKS {
                assert(marks_in_last_line(bytes@.take(i + 1)) > MAX_QUOTE_MARKS);
                return false;
            }
            marks += 1;
        }
        i += 1;
    }
    true
}

/// Calls `count_md::count`. Trusted: the result is the named result of
/// that function on the same text. The function counts the block quotes
/// that are open in a counter of eight bits, so a text that can open more
/// than 255 of them may not be handed in.
#[verifier::external_body]
fn count_words(text: &str) -> (result: u64)
    requires
        can_count(text@),
    ensures
        result == markdown_words(text@),
{
    count_md::count(text)
}

/// About how long a text is, in words.
#[derive(Debug, Clone, Copy, PartialEq, Eq, Structural)]
pub struct ApproximateLength {
    pub rounded: u64,
}

/// A number of words, rounded down: to tens below a hundred, to fifties
/// below a thousand, and to hundreds from there on.
pub open spec fn rounded_down(actual: nat) -> nat {
    if actual < 100 {
        (actual / 10) * 10
    } else if actual < 1000 {
        (actual / 50) * 50
    } else {
        (actual / 100) * 100
    }
}

/// A number below a thousand in exactly three digits.
pub open spec fn three_digits(n: nat) -> Seq<char> {
    seq![
        crate::text::digit_char(n / 100),
        crate::text::digit_char((n / 10) % 10),
        crate::text::digit_char(n % 10),
    ]
}

/// A number in decimal, with a comma before each group of three digits.
pub open spec fn with_commas(n: nat) -> Seq<char>
    decreases n,
{
    if n < 1000 {
        decimal(n)
    } else {
        with_commas(n / 1000) + ","@ + three_digits(n % 1000)
    }
}

fn padded(n: u64) -> (text: String)
    requires
        n < 1000,
    ensures
        text@ == three_digits(n as nat),
{
    let mut text = decimal_text(n / 100);
    text.append(decimal_text((n / 10) % 10).as_str());
    text.append(decimal_text(n % 10).as_str());
    assert(text@ =~= three_digits(n as nat));
    text
}

fn commas(n: u64) -> (text: String)
    ensures
        text@ == with_commas(n as nat),
    decreases n,
{
    if n < 1000 {
        decimal_text(n)
    } else {
        let mut text = commas(n / 1000);
        text.append(",");
        text.append(padded(n % 1000).as_str());
        text
    }
}

impl ApproximateLength {
    /// Rounds a number of words.
    pub fn of_count(actual: u64) -> (length: ApproximateLength)
        ensures
            length.rounded == rounded_down(actual as nat),
    {
        let rounded = if actual < 100 {
            (actual / 10) * 10
        } else if actual < 1_000 {
            (actual / 50) * 50
        } else {
            (actual / 100) * 100
        };
        ApproximateLength { rounded }
    }

    /// Measures a text in Markdown.
    pub fn from(source: &str) -> (length: ApproximateLength)
        requires
            can_count(source@),
        ensures
            length.rounded == rounded_down(markdown_words(source@) as nat),
    {
        ApproximateLength::of_count(count_words(source))
    }

    /// Measures a text in Markdown, where its words can be counted.
    pub fn try_from(source: &str) -> (length: Option<ApproximateLength>)
        ensures
            length is Some == can_count(source@),
            length matches Some(length) ==> length.rounded == rounded_down(
                markdown_words(source@) as nat,
            ),
    {
        if fits_count(source) {
            Some(ApproximateLength::from(source))
        } else {
            None
        }
    }

    /// Says about how long the text is.
    pub fn describe(&self) -> (text: String)
        ensures
            text@ == "About "@ + with_commas(self.rounded as nat) + " words"@,
    {
        let mut text = String::from_str("About ");
        text.append(commas(self.rounded).as_str());
        text.append(" words");
        text
    }
}

/// What the head of a page says of the page in two labelled lines.
#[derive(Debug, Clone, PartialEq, Eq)]
pub enum Label {
    Post { tags: Vec<String>, length: ApproximateLength },
    Work { duration: String, instrumentation: String },
}

/// Whether this is the label of a page with this metadata and content:
/// that of a musical work where the page is about one, and else that of a
/// post, with its tags and its length.
pub open spec fn labels(label: Label, page_data: Metadata, content: Seq<char>) -> bool {
    match page_data.work {
        Some(work) => label == (Label::Work {
            duration: work.duration,
            instrumentation: work.instrumentation,
        }),
        None => label matches Label::Post { tags, length } && tags == page_data.tags
            && length.rounded == rounded_down(markdown_words(content) as nat),
    }
}

/// Whether a page with this metadata and content can be labelled: it is
/// about a musical work, or the words of its content can be counted.
pub open spec fn can_label(page_data: Metadata, content: Seq<char>) -> bool {
    page_data.work is None ==> can_count(content)
}

impl Label {
    /// Makes the label of a page.
    pub fn new(page_data: Metadata, content: &str) -> (label: Label)
        requires
            can_label(page_data, content@),
        ensures
            labels(label, page_data, content@),
    {
        match page_data.work {
            Some(work) => Label::Work {
                duration: work.duration,
                instrumentation: work.instrumentation,
            },
            None => Label::Post {
                length: ApproximateLength::from(content),
                tags: page_data.tags,
            },
        }
    }

    /// Makes the label of a page, where the page can be labelled.
    pub fn try_new(page_data: Metadata, content: &str) -> (label: Option<Label>)
        ensures
            label is Some == can_label(page_data, content@),
            label matches Some(label) ==> labels(label, page_data, content@),
    {
        if page_data.work.is_some() || fits_count(content) {
            Some(Label::new(page_data, content))
        } else {
            None
        }
    }

    pub fn label1(&self) -> (text: &'static str)
        ensures
            text@ == match *self {
                Label::Post { .. } => "Author"@,
                Label::Work { .. } => "Instrumentation"@,
            },
    {
        match self {
            Label::Post { .. } => "Author",
            Label::Work { .. } => "Instrumentation",
        }
    }

    pub fn data1(&self) -> (text: String)
        ensures
            text@ == match *self {
                Label::Post { tags, length } => joined(texts(tags@), ","@),
                Label::Work { duration, instrumentation } => instrumentation@,
            },
    {
        match self {
            Label::Post { tags, .. } => join_texts(tags, ","),
            Label::Work { instrumentation, .. } => instrumentation.clone(),
        }
    }

    pub fn label2(&self) -> (text: &'static str)
        ensures
            text@ == match *self {
                Label::Post { .. } => "Length"@,
                Label::Work { .. } => "Duration"@,
            },
    {
        match self {
            Label::Post { .. } => "Length",
            Label::Work { .. } => "Duration",
        }
    }

    pub fn data2(&self) -> (text: String)
        ensures
            text@ == match *self {
                Label::Post { tags, length } => "About "@ + with_commas(length.rounded as nat)
                    + " words"@,
                Label::Work { duration, instrumentation } => duration@,
            },
    {
        match self {
            Label::Post { length, .. } => length.describe(),
            Label::Work { duration, .. } => duration.clone(),
        }
    }
}

/// The label of a page.
pub fn label_for(page_data: Metadata, content: &str) -> (label: Label)
    requires
        can_label(page_data, content@),
    ensures
        labels(label, page_data, content@),
{
    Label::new(page_data, content)
}

/// The label of a page, where the page can be labelled.
pub fn try_label_for(page_data: Metadata, content: &str) -> (label: Option<Label>)
    ensures
        label is Some == can_label(page_data, content@),
        label matches Some(label) ==> labels(label, page_data, content@),
{
    if page_data.work.is_some() || fits_count(content) {
        Some(label_for(page_data, content))
    } else {
        None
    }
}

} // verus!
