//! The configuration of a site.

use crate::item::Image;
use crate::paths::{path_join, path_parent, text_of};
use normalize_path::NormalizePath;
use std::collections::HashMap;
use vstd::prelude::*;
use vstd::string::*;

verus! {

/// The title of a site: in plain letters, and perhaps in a stylized form.
#[derive(Debug, Clone, PartialEq, Eq)]
pub struct Title {
    pub normal: String,
    pub stylized: Option<String>,
}

impl Title {
    /// The title as it is shown: stylized where there is a stylized form.
    pub open spec fn shown(self) -> Seq<char> {
        match self.stylized {
            Some(stylized) => stylized@,
            None => self.normal@,
        }
    }

    /// Writes the title as it is shown.
    pub fn describe(&self) -> (text: String)
        ensures
            text@ == self.shown(),
    {
        match &self.stylized {
            Some(stylized) => stylized.clone(),
            None => self.normal.clone(),
        }
    }
}

/// Who writes the site.
#[derive(Debug, Clone, PartialEq, Eq)]
pub struct Author {
    pub name: String,
    pub email: String,
    pub links: HashMap<String, String>,
}

/// An entry of the site's navigation.
#[derive(Debug, Clone, PartialEq, Eq)]
pub enum NavItem {
    Separator,
    Page { title: String, path: String },
}

impl NavItem {
    /// The entry as HTML: a rule for a separator, a link for a page.
    pub open spec fn html(self) -> Seq<char> {
        match self {
            NavItem::Separator => "<hr>"@,
            NavItem::Page { title, path } => "<a href=\""@ + path@ + "\">"@ + title@ + "</a>"@,
        }
    }

    /// Writes the entry as HTML.
    pub fn render(&self) -> (text: String)
        ensures
            text@ == self.html(),
    {
        match self {
            NavItem::Separator => String::from_str("<hr>"),
            NavItem::Page { title, path } => {
                let mut text = String::from_str("<a href=\"");
                text.append(path.as_str());
                text.append("\">");
                text.append(title.as_str());
                text.append("</a>");
                text
            },
        }
    }
}

/// The configuration as it is written in the configuration file.
#[derive(Debug, Clone)]
pub struct Written {
    pub url: String,
    pub repo: String,
    pub title: Title,
    pub subtitle: Option<String>,
    pub description: String,
    pub author: Author,
    /// Where the site is built to, seen from the configuration file.
    pub output: String,
    pub image: String,
    pub nav: Vec<NavItem>,
}

/// The configuration of a site.
#[derive(Debug, Clone)]
pub struct Config {
    pub url: String,
    pub repo: String,
    pub title: String,
    pub subtitle: Option<String>,
    pub description: String,
    pub author: Author,
    /// Where the site is built to.
    pub output: String,
    pub image: Image,
    pub nav: Vec<NavItem>,
}

/// Why a configuration cannot be used.
#[derive(Debug, PartialEq, Eq)]
pub enum Error {
    BadFile { path: String, source: String },
    YamlParsing { path: String, source: String },
    NonUtf8Path { path: String },
}

pub open spec fn error_text(error: Error) -> Seq<char> {
    match error {
        Error::BadFile { path, source } => "could not read file '"@ + path@ + "'"@,
        Error::YamlParsing { path, source } => "could not parse "@ + path@ + " as YAML"@,
        Error::NonUtf8Path { path } => "could not write the path '"@ + path@ + "' as UTF-8"@,
    }
}

impl Error {
    /// Says why the configuration cannot be used.
    pub fn describe(&self) -> (text: String)
        ensures
            text@ == error_text(*self),
    {
        match self {
            Error::BadFile { path, source: _ } => {
                let mut text = String::from_str("could not read file '");
                text.append(path.as_str());
                text.append("'");
                text
            },
            Error::YamlParsing { path, source: _ } => {
                let mut text = String::from_str("could not parse ");
                text.append(path.as_str());
                text.append(" as YAML");
                text
            },
            Error::NonUtf8Path { path } => {
                let mut text = String::from_str("could not write the path '");
                text.append(path.as_str());
                text.append("' as UTF-8");
                text
            },
        }
    }
}

/// What `normalize` of `normalize_path::NormalizePath` gives for a path,
/// written as UTF-8 where that can be done: the path without its `.`
/// components, and with each `..` taken together with the component before
/// it.
pub uninterp spec fn path_normalized(path: Seq<char>) -> Option<Seq<char>>;

/// Calls `NormalizePath::normalize` on a path. Trusted: the result is the
/// named result of that method on the same text, or nothing where what the
/// method gives is no UTF-8.
#[verifier::external_body]
fn normalize(path: &str) -> (result: Option<String>)
    ensures
        text_of(result) == path_normalized(path@),
{
    std::path::Path::new(path).normalize().into_os_string().into_string().ok()
}

impl Config {
    /// Whether this is the configuration that a configuration file holds:
    /// everything is as it was written, but for the title, which is the
    /// title as it is shown, and the image, which is the image at the
    /// address written.
    pub open spec fn holds(self, written: Written) -> bool {
        &&& self.url == written.url
        &&& self.repo == written.repo
        &&& self.title@ == written.title.shown()
        &&& self.subtitle == written.subtitle
        &&& self.description == written.description
        &&& self.author == written.author
        &&& self.image == (Image { url: written.image })
        &&& self.nav == written.nav
    }

    /// Whether this is what making a configuration gives, for a
    /// configuration file at this path that holds this. Where the output
    /// directory, counted from the directory of the file and normalized, can
    /// be written as UTF-8, it is the configuration with that output
    /// directory; else it is an error that names the file.
    pub open spec fn made_from(
        path: Seq<char>,
        written: Written,
        result: Result<Config, Error>,
    ) -> bool {
        match path_normalized(path_join(path_parent(path)->0, written.output@)) {
            Some(output) => result is Ok && result->Ok_0.output@ == output
                && result->Ok_0.holds(written),
            None => result matches Err(Error::NonUtf8Path { path: named }) && named@ == path,
        }
    }

    /// Makes the configuration of a site from what its configuration file
    /// holds. The output directory is counted from the directory of the
    /// configuration file, and normalized.
    pub fn from_written(path: &str, written: Written) -> (result: Result<Config, Error>)
        requires
            path_parent(path@) is Some,
        ensures
            Config::made_from(path@, written, result),
    {
        let parent = match crate::paths::parent(path) {
            Some(parent) => parent,
            None => String::new(),
        };
        let joined = crate::paths::join(parent.as_str(), written.output.as_str());
        match normalize(joined.as_str()) {
            Some(output) => Ok(
                Config {
                    url: written.url,
                    repo: written.repo,
                    title: written.title.describe(),
                    subtitle: written.subtitle,
                    description: written.description,
                    author: written.author,
                    output,
                    image: Image::from(written.image),
                    nav: written.nav,
                },
            ),
            None => Err(Error::NonUtf8Path { path: String::from_str(path) }),
        }
    }

    /// Makes the configuration of a site from what its configuration file
    /// holds, where the file lies in a directory: for a path without a
    /// parent there is no configuration.
    pub fn from_file_contents(path: &str, written: Written) -> (result: Option<
        Result<Config, Error>,
    >)
        ensures
            result is Some == path_parent(path@) is Some,
            result matches Some(made) ==> Config::made_from(path@, written, made),
    {
        if crate::paths::parent(path).is_some() {
            Some(Config::from_written(path, written))
        } else {
            None
        }
    }
}

} // verus!
