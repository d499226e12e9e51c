//! Metadata as it is written down: in the header of an item, and in the
//! data files of the directories above it. Nearly everything is optional
//! here; what is required is decided when the metadata is resolved.

use std::collections::HashMap;
use vstd::prelude::*;
use vstd::string::*;

verus! {

/// A moment in time: its calendar date where it was written, its distance
/// from the start of 1970, and how it is written out.
#[derive(Debug, Clone, PartialEq, Eq)]
pub struct Timestamp {
    pub year: u32,
    pub month: u32,
    pub day: u32,
    pub unix_seconds: i64,
    pub nanoseconds: u32,
    pub rfc3339: String,
}

impl Timestamp {
    /// Whether two moments are the same, and written the same.
    pub open spec fn agrees(self, other: Timestamp) -> bool {
        self.year == other.year && self.month == other.month && self.day == other.day
            && self.unix_seconds == other.unix_seconds && self.nanoseconds == other.nanoseconds
            && self.rfc3339@ == other.rfc3339@
    }

    /// Tells whether two moments are the same, and written the same.
    pub fn same(&self, other: &Timestamp) -> (result: bool)
        ensures
            result == self.agrees(*other),
    {
        self.year == other.year && self.month == other.month && self.day == other.day
            && self.unix_seconds == other.unix_seconds && self.nanoseconds == other.nanoseconds
            && self.rfc3339 == other.rfc3339
    }
}

/// The header of an item.
#[derive(Debug, Clone)]
pub struct Item {
    pub title: Option<String>,
    pub subtitle: Option<String>,
    pub summary: Option<String>,
    pub qualifiers: Option<Qualifiers>,
    pub date: Option<Timestamp>,
    pub updated: Vec<Update>,
    pub permalink: Option<String>,
    pub thanks: Option<String>,
    pub tags: Option<Vec<String>>,
    pub featured: bool,
    pub layout: Option<String>,
    pub image: Option<String>,
    pub link: Option<String>,
    pub book: Option<Book>,
    pub series: Option<Series>,
    pub work: Option<MusicalWork>,
}

/// What a directory says for all the items below it.
#[derive(Debug, Clone)]
pub struct Inherited {
    pub layout: Option<String>,
    pub qualifiers: Option<Qualifiers>,
    pub thanks: Option<String>,
    pub tags: Vec<String>,
    pub image: Option<String>,
    pub book: Option<Book>,
    pub series: Option<Series>,
    pub subscribe: Option<Subscribe>,
    pub work: Option<MusicalWork>,
}

#[derive(Debug, Clone)]
pub struct Update {
    pub at: Option<Timestamp>,
    pub changes: Option<String>,
}

#[derive(Debug, Clone, PartialEq, Eq)]
pub struct Retraction {
    pub url: String,
    pub title: String,
}

#[derive(Debug, Clone)]
pub struct Qualifiers {
    pub audience: Option<String>,
    pub epistemic: Option<String>,
    pub context: Option<String>,
    pub discusses: Vec<String>,
    pub disclosure: Option<String>,
    pub retraction: Option<Retraction>,
}

#[derive(Debug, Clone, PartialEq, Eq)]
pub struct Subscribe {
    pub atom: Option<String>,
    pub json: Option<String>,
}

#[derive(Debug, Clone)]
pub struct Book {
    pub title: Option<String>,
    pub author: Option<String>,
    /// A year is text and no number: "400 B.C." is a year too.
    pub year: Option<String>,
    pub editors: Option<String>,
    pub translators: Option<String>,
    pub cover: Option<String>,
    pub link: Option<String>,
    pub review: Option<Review>,
}

#[derive(Debug, Clone, PartialEq, Eq)]
pub struct Review {
    pub rating: Rating,
    pub summary: String,
}

#[derive(Debug, Clone, Copy, PartialEq, Eq, Structural)]
pub enum Rating {
    NotRecommended,
    WithQualifications,
    Recommended,
    Required,
}

#[derive(Debug, Clone, PartialEq, Eq)]
pub struct Series {
    /// The name may come from a data file further up.
    pub name: Option<String>,
    pub part: u8,
}

#[derive(Debug, Clone)]
pub struct MusicalWork {
    pub title: Option<String>,
    pub subtitle: Option<String>,
    pub date: Option<String>,
    pub duration: Option<String>,
    pub instrumentation: Option<String>,
    pub listen: Option<Listen>,
    pub video: Option<Video>,
}

#[derive(Debug, Clone)]
pub struct Listen {
    pub buy: HashMap<String, String>,
    pub stream: HashMap<String, String>,
}

#[derive(Debug, Clone, PartialEq, Eq)]
pub enum Video {
    YouTube { yt: String },
    YouTubePlaylist { pl: String },
    Url { url: String },
}

pub open spec fn rating_text(rating: Rating) -> Seq<char> {
    match rating {
        Rating::NotRecommended => "Not recommended"@,
        Rating::WithQualifications => "Recommended with qualifications"@,
        Rating::Recommended => "Recommended"@,
        Rating::Required => "Required"@,
    }
}

impl Rating {
    /// The rating in words.
    pub fn describe(&self) -> (text: String)
        ensures
            text@ == rating_text(*self),
    {
        match self {
            Rating::NotRecommended => String::from_str("Not recommended"),
            Rating::WithQualifications => String::from_str("Recommended with qualifications"),
            Rating::Recommended => String::from_str("Recommended"),
            Rating::Required => String::from_str("Required"),
        }
    }
}

impl Review {
    /// The review in one line: the rating, a colon, and the summary.
    pub fn describe(&self) -> (text: String)
        ensures
            text@ == rating_text(self.rating) + ": "@ + self.summary@,
    {
        let mut text = self.rating.describe();
        text.append(": ");
        text.append(self.summary.as_str());
        text
    }
}

} // verus!
