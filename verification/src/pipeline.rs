//! The build of a site in two phases, each of which succeeds for every
//! item or fails as a whole.

use crate::page;
use crate::page::{RootedPath, Source};
use crate::paths::{
    path_extension, path_file_name, path_join, path_strip_prefix, path_with_extension,
};
use crate::text::{decimal, decimal_text, joined, join_texts, same_text, texts};
use vstd::prelude::*;
use vstd::string::*;

verus! {

/// How one item came out of a step of the build.
#[derive(Debug)]
pub struct Outcome<T, E> {
    /// The path of the item's source file.
    pub path: String,
    pub result: Result<T, E>,
}

/// The items that failed a phase, each with the path of its source file and
/// the reason, in the order in which they were handed in.
pub open spec fn failures<T, E>(outcomes: Seq<Outcome<T, E>>) -> Seq<(String, E)>
    decreases outcomes.len(),
{
    if outcomes.len() == 0 {
        Seq::empty()
    } else {
        let before = failures(outcomes.drop_last());
        match outcomes.last().result {
            Ok(_) => before,
            Err(error) => before.push((outcomes.last().path, error)),
        }
    }
}

/// What a phase made of the items that passed it, in the order in which
/// they were handed in.
pub open spec fn successes<T, E>(outcomes: Seq<Outcome<T, E>>) -> Seq<T>
    decreases outcomes.len(),
{
    if outcomes.len() == 0 {
        Seq::empty()
    } else {
        let before = successes(outcomes.drop_last());
        match outcomes.last().result {
            Ok(value) => before.push(value),
            Err(_) => before,
        }
    }
}

/// Parts the outcomes of a phase into failures and successes.
pub fn partition<T, E>(outcomes: Vec<Outcome<T, E>>) -> (result: (Vec<(String, E)>, Vec<T>))
    ensures
        result.0@ == failures(outcomes@),
        result.1@ == successes(outcomes@),
{
    let mut errors: Vec<(String, E)> = Vec::new();
    let mut values: Vec<T> = Vec::new();
    for outcome in it: outcomes.into_iter()
        invariant
            it.seq() == outcomes@,
            errors@ == failures(outcomes@.take(it.index() as int)),
            values@ == successes(outcomes@.take(it.index() as int)),
    {
        let ghost i = it.index() as int;
        assert(outcomes@.take(i + 1).drop_last() =~= outcomes@.take(i));
        match outcome.result {
            Ok(value) => values.push(value),
            Err(error) => errors.push((outcome.path, error)),
        }
    }
    assert(outcomes@.take(outcomes@.len() as int) =~= outcomes@);
    (errors, values)
}

/// Every item either passes or fails, and the list of failures holds
/// exactly the items that failed: each of them with its path and its
/// reason, and nothing else.
pub proof fn failures_are_exact<T, E>(outcomes: Seq<Outcome<T, E>>)
    ensures
        failures(outcomes).len() + successes(outcomes).len() == outcomes.len(),
        forall|i: int|
            0 <= i < outcomes.len() && (#[trigger] outcomes[i]).result is Err ==> failures(
                outcomes,
            ).contains((outcomes[i].path, outcomes[i].result->Err_0)),
        forall|j: int|
            0 <= j < failures(outcomes).len() ==> exists|i: int|
                0 <= i < outcomes.len() && outcomes[i].result is Err && (#[trigger] failures(
                    outcomes,
                )[j]) == (outcomes[i].path, outcomes[i].result->Err_0),
    decreases outcomes.len(),
{
    if outcomes.len() > 0 {
        let init = outcomes.drop_last();
        failures_are_exact(init);
        let before = failures(init);
        let all = failures(outcomes);
        assert forall|i: int|
            0 <= i < outcomes.len() && (#[trigger] outcomes[i]).result is Err implies all.contains(
            (outcomes[i].path, outcomes[i].result->Err_0),
        ) by {
            if i < init.len() {
                assert(init[i] == outcomes[i]);
                let j = choose|j: int|
                    0 <= j < before.len() && before[j] == (
                        outcomes[i].path,
                        outcomes[i].result->Err_0,
                    );
                assert(all[j] == before[j]);
            } else {
                assert(all[all.len() - 1] == (outcomes[i].path, outcomes[i].result->Err_0));
            }
        }
        assert forall|j: int| 0 <= j < all.len() implies exists|i: int|
            0 <= i < outcomes.len() && outcomes[i].result is Err && (#[trigger] all[j]) == (
                outcomes[i].path,
                outcomes[i].result->Err_0,
            ) by {
            if j < before.len() {
                assert(all[j] == before[j]);
                let i = choose|i: int|
                    0 <= i < init.len() && init[i].result is Err && before[j] == (
                        init[i].path,
                        init[i].result->Err_0,
                    );
                assert(outcomes[i] == init[i]);
            } else {
                let i = outcomes.len() - 1;
                assert(outcomes[i].result is Err && all[j] == (
                    outcomes[i].path,
                    outcomes[i].result->Err_0,
                ));
            }
        }
    }
}

/// The phases of a build.
#[derive(Debug, Clone, Copy, PartialEq, Eq, Structural)]
pub enum PageErrorKind {
    Prepare,
    Render,
}

/// Why a phase of the build failed: every item that failed it, with the
/// path of its source file and the reason.
#[derive(Debug)]
pub struct PageError {
    pub errors: Vec<(String, page::Error)>,
    pub kind: PageErrorKind,
}

/// A source file that could not be read.
#[derive(Debug, PartialEq, Eq)]
pub struct ContentError {
    pub path: String,
    pub source: String,
}

/// Why a build failed.
#[derive(Debug)]
pub enum Error {
    LoadTemplates { source: String },
    Rewrite { text: String, source: String },
    Cascade { source: String },
    Config { source: crate::config::Error },
    Content(Vec<ContentError>),
    Page(PageError),
    CreateOutputDirectory { path: String, source: String },
    CopyFile { from: String, to: String, source: String },
    WriteFile { path: String, source: String },
    GlobPattern { pattern: String, source: String },
    Glob { source: String },
    StripPrefix { prefix: String, path: String },
    Styles { source: String },
    TemplatePath { path: String },
    RemoveDir { path: String, source: String },
    CreateDir { path: String, source: String },
    NonUtf8Path { path: String, source: String },
}

/// How one failed item reads in the report of a failed phase: the path of
/// its source file, the reason, and what lies behind the reason where that
/// is known.
pub open spec fn entry_text(entry: (String, page::Error)) -> Seq<char> {
    entry.0@ + ":\n\t"@ + page::error_text(entry.1@) + "\n"@ + match page::error_cause(entry.1@) {
        Some(cause) => "\t\t"@ + cause + "\n"@,
        None => Seq::empty(),
    }
}

/// How the failed items read, one after another.
pub open spec fn entries_text(entries: Seq<(String, page::Error)>) -> Seq<char>
    decreases entries.len(),
{
    if entries.len() == 0 {
        Seq::empty()
    } else {
        entries_text(entries.drop_last()) + entry_text(entries.last())
    }
}

/// How a failed phase reads: how many items failed it, and then each of
/// them.
pub open spec fn page_error_text(error: PageError) -> Seq<char> {
    (match error.kind {
        PageErrorKind::Prepare => "could not prepare "@ + decimal(error.errors@.len())
            + " pages for rendering\n"@,
        PageErrorKind::Render => "could not render "@ + decimal(error.errors@.len()) + " pages\n"@,
    }) + entries_text(error.errors@)
}

impl PageError {
    /// The paths of the source files of the items that failed.
    pub fn paths(&self) -> (paths: Vec<String>)
        ensures
            paths@.len() == self.errors@.len(),
            forall|i: int| 0 <= i < paths@.len() ==> paths@[i]@ == self.errors@[i].0@,
    {
        let mut paths: Vec<String> = Vec::new();
        let mut i: usize = 0;
        while i < self.errors.len()
            invariant
                i <= self.errors.len(),
                paths@.len() == i,
                forall|j: int| 0 <= j < i ==> paths@[j]@ == self.errors@[j].0@,
            decreases self.errors.len() - i,
        {
            paths.push(self.errors[i].0.clone());
            i += 1;
        }
        paths
    }

    /// Reports the failed phase, naming every item that failed it.
    pub fn describe(&self) -> (text: String)
        ensures
            text@ == page_error_text(*self),
    {
        let count = decimal_text(self.errors.len() as u64);
        let mut text = match self.kind {
            PageErrorKind::Prepare => {
                let mut text = String::from_str("could not prepare ");
                text.append(count.as_str());
                text.append(" pages for rendering\n");
                text
            },
            PageErrorKind::Render => {
                let mut text = String::from_str("could not render ");
                text.append(count.as_str());
                text.append(" pages\n");
                text
            },
        };
        let ghost header = text@;
        let mut i: usize = 0;
        assert(self.errors@.take(0) =~= Seq::empty());
        while i < self.errors.len()
            invariant
                i <= self.errors.len(),
                text@ == header + entries_text(self.errors@.take(i as int)),
            decreases self.errors.len() - i,
        {
            let ghost before = text@;
            text.append(self.errors[i].0.as_str());
            text.append(":\n\t");
            text.append(self.errors[i].1.describe().as_str());
            text.append("\n");
            match self.errors[i].1.cause() {
                Some(cause) => {
                    text.append("\t\t");
                    text.append(cause.as_str());
                    text.append("\n");
                },
                None => {},
            }
            proof {
                assert(self.errors@.take(i + 1).drop_last() =~= self.errors@.take(i as int));
                assert(text@ =~= before + entry_text(self.errors@[i as int]));
                assert(text@ =~= header + entries_text(self.errors@.take(i + 1)));
            }
            i += 1;
        }
        assert(self.errors@.take(i as int) =~= self.errors@);
        text
    }
}

/// Two pieces of text, one after the other.
fn prefixed(before: &str, text: &str) -> (result: String)
    ensures
        result@ == before@ + text@,
{
    let mut result = String::from_str(before);
    result.append(text);
    result
}

/// Four pieces of text, one after another.
fn prefixed_two(before: &str, first: &str, between: &str, second: &str) -> (result: String)
    ensures
        result@ == before@ + first@ + between@ + second@,
{
    let mut result = String::from_str(before);
    result.append(first);
    result.append(between);
    result.append(second);
    result
}

/// Three pieces of text, one after another.
fn wrap(before: &str, text: &str, after: &str) -> (result: String)
    ensures
        result@ == before@ + text@ + after@,
{
    let mut result = String::from_str(before);
    result.append(text);
    result.append(after);
    result
}

/// Five pieces of text, one after another.
fn wrap_two(before: &str, first: &str, between: &str, second: &str, after: &str) -> (result:
    String)
    ensures
        result@ == before@ + first@ + between@ + second@ + after@,
{
    let mut result = String::from_str(before);
    result.append(first);
    result.append(between);
    result.append(second);
    result.append(after);
    result
}

pub open spec fn content_error_text(error: ContentError) -> Seq<char> {
    "Could not load file "@ + error.path@
}

impl ContentError {
    /// Says which file could not be read.
    pub fn describe(&self) -> (text: String)
        ensures
            text@ == content_error_text(*self),
    {
        prefixed("Could not load file ", self.path.as_str())
    }
}

/// How a failed build reads.
pub open spec fn error_text(error: Error) -> Seq<char> {
    match error {
        Error::LoadTemplates { source } => source@,
        Error::Rewrite { text, source } => "could not rewrite "@ + text@ + " with minijinja"@,
        Error::Cascade { source } => "could not load data cascade"@,
        Error::Config { source } => "could not load site config: "@ + crate::config::error_text(
            source,
        ),
        Error::Content(errors) => "could not load one or more site content sources"@,
        Error::Page(error) => page_error_text(error),
        Error::CreateOutputDirectory { path, source } => "could not create output directory '"@
            + path@ + "'"@,
        Error::CopyFile { from, to, source } => "could not copy from "@ + from@ + " to "@ + to@,
        Error::WriteFile { path, source } => "could not write to "@ + path@,
        Error::GlobPattern { pattern, source } => "bad glob pattern: '"@ + pattern@ + "'"@,
        Error::Glob { source } => source@,
        Error::StripPrefix { prefix, path } => "could not strip prefix '"@ + prefix@
            + "' from path '"@ + path@ + "'"@,
        Error::Styles { source } => "error compiling CSS"@,
        Error::TemplatePath { path } => "invalid template path "@ + path@,
        Error::RemoveDir { path, source } => "could not delete directory '"@ + path@ + "'"@,
        Error::CreateDir { path, source } => "could not create directory '"@ + path@ + "'"@,
        Error::NonUtf8Path { path, source } => "Could not convert path '"@ + path@
            + "' to unicode: "@ + source@,
    }
}

impl Error {
    /// The failure of the first phase: these items could not be prepared.
    pub fn preparing_page(errors: Vec<(String, page::Error)>) -> (error: Error)
        ensures
            error matches Error::Page(inner) && inner.errors == errors && inner.kind
                == PageErrorKind::Prepare,
    {
        Error::Page(PageError { errors, kind: PageErrorKind::Prepare })
    }

    /// The failure of the second phase: these items could not be rendered.
    pub fn rendering_page(errors: Vec<(String, page::Error)>) -> (error: Error)
        ensures
            error matches Error::Page(inner) && inner.errors == errors && inner.kind
                == PageErrorKind::Render,
    {
        Error::Page(PageError { errors, kind: PageErrorKind::Render })
    }

    /// The failure to rewrite a piece of text with the template engine.
    pub fn rewrite(source: String, text: &str) -> (error: Error)
        ensures
            error matches Error::Rewrite { text: kept, source: cause } && kept@ == text@ && cause
                == source,
    {
        Error::Rewrite { source, text: String::from_str(text) }
    }

    /// Says why the build failed.
    pub fn describe(&self) -> (text: String)
        ensures
            text@ == error_text(*self),
    {
        match self {
            Error::LoadTemplates { source } => source.clone(),
            Error::Rewrite { text, source: _ } => wrap(
                "could not rewrite ",
                text.as_str(),
                " with minijinja",
            ),
            Error::Cascade { source: _ } => String::from_str("could not load data cascade"),
            Error::Config { source } => prefixed(
                "could not load site config: ",
                source.describe().as_str(),
            ),
            Error::Content(_) => String::from_str(
                "could not load one or more site content sources",
            ),
            Error::Page(error) => error.describe(),
            Error::CreateOutputDirectory { path, source: _ } => wrap(
                "could not create output directory '",
                path.as_str(),
                "'",
            ),
            Error::CopyFile { from, to, source: _ } => prefixed_two(
                "could not copy from ",
                from.as_str(),
                " to ",
                to.as_str(),
            ),
            Error::WriteFile { path, source: _ } => prefixed("could not write to ", path.as_str()),
            Error::GlobPattern { pattern, source: _ } => wrap(
                "bad glob pattern: '",
                pattern.as_str(),
                "'",
            ),
            Error::Glob { source } => source.clone(),
            Error::StripPrefix { prefix, path } => wrap_two(
                "could not strip prefix '",
                prefix.as_str(),
                "' from path '",
                path.as_str(),
                "'",
            ),
            Error::Styles { source: _ } => String::from_str("error compiling CSS"),
            Error::TemplatePath { path } => prefixed("invalid template path ", path.as_str()),
            Error::RemoveDir { path, source: _ } => wrap(
                "could not delete directory '",
                path.as_str(),
                "'",
            ),
            Error::CreateDir { path, source: _ } => wrap(
                "could not create directory '",
                path.as_str(),
                "'",
            ),
            Error::NonUtf8Path { path, source } => prefixed_two(
                "Could not convert path '",
                path.as_str(),
                "' to unicode: ",
                source.as_str(),
            ),
        }
    }
}

/// Whether this is how a phase ends when its items came out like this. The
/// phase succeeds only where every item passed, and then hands on what it
/// made of each of them, in order. Where any item failed, the phase fails
/// as a whole, nothing is handed on, and the error names every item that
/// failed, each with its path and its reason.
pub open spec fn phase_ends<T>(
    outcomes: Seq<Outcome<T, page::Error>>,
    kind: PageErrorKind,
    result: Result<Vec<T>, Error>,
) -> bool {
    if failures(outcomes).len() == 0 {
        &&& result is Ok
        &&& result->Ok_0@ == successes(outcomes)
        &&& result->Ok_0@.len() == outcomes.len()
    } else {
        &&& result matches Err(Error::Page(error))
        &&& error.errors@ == failures(outcomes)
        &&& error.kind == kind
    }
}

/// Ends a phase of the build: hands on the items if all of them passed, and
/// fails with all the failures if any of them failed.
pub fn phase<T>(outcomes: Vec<Outcome<T, page::Error>>, kind: PageErrorKind) -> (result: Result<
    Vec<T>,
    Error,
>)
    ensures
        phase_ends(outcomes@, kind, result),
{
    proof {
        failures_are_exact(outcomes@);
    }
    let (errors, values) = partition(outcomes);
    if errors.len() > 0 {
        match kind {
            PageErrorKind::Prepare => Err(Error::preparing_page(errors)),
            PageErrorKind::Render => Err(Error::rendering_page(errors)),
        }
    } else {
        Ok(values)
    }
}

/// What a build may write when a phase has ended like this: the items that
/// the phase handed on, and so nothing at all where it failed.
pub open spec fn committed<T>(result: Result<Vec<T>, Error>) -> Seq<T> {
    match result {
        Ok(items) => items@,
        Err(_) => Seq::empty(),
    }
}

/// A phase in which some item fails commits nothing, of that item or of any
/// other, and reports as many failures as there are items that failed. A
/// phase in which no item fails commits every item.
pub proof fn phase_is_all_or_nothing<T>(
    outcomes: Seq<Outcome<T, page::Error>>,
    kind: PageErrorKind,
    result: Result<Vec<T>, Error>,
)
    requires
        phase_ends(outcomes, kind, result),
    ensures
        (exists|i: int| 0 <= i < outcomes.len() && outcomes[i].result is Err) ==> committed(
            result,
        ).len() == 0 && result is Err,
        (forall|i: int| 0 <= i < outcomes.len() ==> outcomes[i].result is Ok) ==> committed(
            result,
        ).len() == outcomes.len() && result is Ok,
        result matches Err(Error::Page(error)) ==> error.errors@.len() + successes(outcomes).len()
            == outcomes.len(),
{
    failures_are_exact(outcomes);
    if exists|i: int| 0 <= i < outcomes.len() && outcomes[i].result is Err {
        let i = choose|i: int| 0 <= i < outcomes.len() && outcomes[i].result is Err;
        assert(failures(outcomes).contains((outcomes[i].path, outcomes[i].result->Err_0)));
    }
    if forall|i: int| 0 <= i < outcomes.len() ==> outcomes[i].result is Ok {
        if failures(outcomes).len() > 0 {
            let found = choose|i: int|
                0 <= i < outcomes.len() && outcomes[i].result is Err && failures(outcomes)[0] == (
                    outcomes[i].path,
                    outcomes[i].result->Err_0,
                );
            assert(outcomes[found].result is Ok);
        }
    }
}

/// The errors of the files that could not be read.
pub open spec fn content_errors(failed: Seq<(String, String)>) -> Seq<ContentError> {
    Seq::new(failed.len(), |i: int| ContentError { path: failed[i].0, source: failed[i].1 })
}

/// Takes the outcome of reading the source files: all the sources if every
/// file could be read, and else an error that names every file that could
/// not.
pub fn load_sources(reads: Vec<Outcome<Source, String>>) -> (result: Result<Vec<Source>, Error>)
    ensures
        failures(reads@).len() == 0 ==> result is Ok && result->Ok_0@ == successes(reads@),
        failures(reads@).len() > 0 ==> (result matches Err(Error::Content(errors)) && errors@
            == content_errors(failures(reads@))),
{
    let (failed, sources) = partition(reads);
    if failed.len() == 0 {
        Ok(sources)
    } else {
        let ghost all = failed@;
        let mut errors: Vec<ContentError> = Vec::new();
        for entry in it: failed.into_iter()
            invariant
                it.seq() == all,
                errors@ == content_errors(all.take(it.index() as int)),
        {
            errors.push(ContentError { path: entry.0, source: entry.1 });
            assert(errors@ =~= content_errors(all.take(it.index() + 1)));
        }
        assert(all.take(all.len() as int) =~= all);
        Err(Error::Content(errors))
    }
}

/// Whether a path names a Markdown file: whether its extension is `md`.
pub open spec fn is_markdown_path(path: Seq<char>) -> bool {
    path_extension(path) == Some("md"@)
}

/// Tells whether a path names a Markdown file.
pub fn is_markdown(path: &str) -> (result: bool)
    ensures
        result == is_markdown_path(path@),
{
    match crate::paths::extension(path) {
        Some(extension) => same_text(extension.as_str(), "md"),
        None => false,
    }
}

/// The Markdown files among the sources, in their order.
pub open spec fn markdown_of(sources: Seq<Source>) -> Seq<Source>
    decreases sources.len(),
{
    if sources.len() == 0 {
        Seq::empty()
    } else if is_markdown_path(sources.last().path@) {
        markdown_of(sources.drop_last()).push(sources.last())
    } else {
        markdown_of(sources.drop_last())
    }
}

/// Picks the sources that the first phase prepares: the Markdown files.
pub fn markdown_sources(sources: &Vec<Source>) -> (result: Vec<&Source>)
    ensures
        result@.len() == markdown_of(sources@).len(),
        forall|i: int| 0 <= i < result@.len() ==> *result@[i] == markdown_of(sources@)[i],
{
    let mut result: Vec<&Source> = Vec::new();
    let mut i: usize = 0;
    while i < sources.len()
        invariant
            i <= sources.len(),
            result@.len() == markdown_of(sources@.take(i as int)).len(),
            forall|j: int|
                0 <= j < result@.len() ==> *result@[j] == markdown_of(sources@.take(i as int))[j],
        decreases sources.len() - i,
    {
        assert(sources@.take(i + 1).drop_last() =~= sources@.take(i as int));
        if is_markdown(sources[i].path.as_str()) {
            result.push(&sources[i]);
        }
        i += 1;
    }
    assert(sources@.take(i as int) =~= sources@);
    result
}

/// The name of the directory that holds the templates of a site.
pub open spec fn ui_dir() -> Seq<char> {
    "_ui"@
}

/// The name under which a template file is known: its path counted from
/// the template directory of the site or, failing that, from the template
/// directory that the site shares with others. A file in neither has no
/// name.
pub open spec fn template_name_of(
    path: Seq<char>,
    input_dir: Seq<char>,
    shared_dir: Option<Seq<char>>,
) -> Option<Seq<char>> {
    match path_strip_prefix(path, path_join(input_dir, ui_dir())) {
        Some(name) => Some(name),
        None => match shared_dir {
            Some(shared) => path_strip_prefix(path, path_join(shared, ui_dir())),
            None => None,
        },
    }
}

/// Finds the name under which a template file is known.
pub fn template_name(path: &str, input_dir: &str, shared_dir: Option<&str>) -> (result: Result<
    String,
    Error,
>)
    ensures
        match template_name_of(path@, input_dir@, crate::item::str_text_of(shared_dir)) {
            Some(name) => result is Ok && result->Ok_0@ == name,
            None => result matches Err(Error::TemplatePath { path: named }) && named@ == path@,
        },
{
    let site_ui_dir = crate::paths::join(input_dir, "_ui");
    match crate::paths::strip_prefix(path, site_ui_dir.as_str()) {
        Some(name) => Ok(name),
        None => match shared_dir {
            Some(shared) => {
                let shared_ui_dir = crate::paths::join(shared, "_ui");
                match crate::paths::strip_prefix(path, shared_ui_dir.as_str()) {
                    Some(name) => Ok(name),
                    None => Err(Error::TemplatePath { path: String::from_str(path) }),
                }
            },
            None => Err(Error::TemplatePath { path: String::from_str(path) }),
        },
    }
}

/// Where a page is written: the file `index.html` in the directory that
/// its place on the site names, below the output directory.
pub fn page_destination(output: &str, place: &RootedPath) -> (result: String)
    ensures
        result@ == path_join(output@, path_join(place@, "index.html"@)),
{
    let relative = crate::paths::join(place.as_str(), "index.html");
    crate::paths::join(output, relative.as_str())
}

/// Where a file below a directory of a given name is written: at the same
/// place below the output directory. A file that does not lie below the
/// directory has no such place.
pub open spec fn destination_of(
    file: Seq<char>,
    from_dir: Seq<char>,
    folder: Seq<char>,
    output: Seq<char>,
) -> Option<Seq<char>> {
    match path_strip_prefix(file, path_join(from_dir, folder)) {
        Some(relative) => Some(path_join(output, relative)),
        None => None,
    }
}

/// Finds where a static file is copied to. The static files of a site lie
/// in the directory `_static` of `from_dir`, which is the site's directory
/// or the directory that it shares with others.
pub fn static_destination(file: &str, from_dir: &str, input_dir: &str, output: &str) -> (result:
    Result<String, Error>)
    ensures
        match destination_of(file@, from_dir@, "_static"@, output@) {
            Some(destination) => result is Ok && result->Ok_0@ == destination,
            None => result matches Err(Error::StripPrefix { prefix, path }) && prefix@
                == input_dir@ && path@ == file@,
        },
{
    let static_dir = crate::paths::join(from_dir, "_static");
    match crate::paths::strip_prefix(file, static_dir.as_str()) {
        Some(relative) => Ok(crate::paths::join(output, relative.as_str())),
        None => Err(
            Error::StripPrefix {
                prefix: String::from_str(input_dir),
                path: String::from_str(file),
            },
        ),
    }
}

/// Finds where a compiled style sheet is written: at the place of its
/// source below the directory `_styles`, with the extension `css`.
pub fn style_destination(css_file: &str, input_dir: &str, output: &str) -> (result: Result<
    String,
    Error,
>)
    ensures
        match destination_of(css_file@, input_dir@, "_styles"@, output@) {
            Some(destination) => result is Ok && result->Ok_0@ == path_with_extension(
                destination,
                "css"@,
            ),
            None => result matches Err(Error::StripPrefix { prefix, path }) && prefix@
                == input_dir@ && path@ == css_file@,
        },
{
    let styles_dir = crate::paths::join(input_dir, "_styles");
    match crate::paths::strip_prefix(css_file, styles_dir.as_str()) {
        Some(relative) => {
            let destination = crate::paths::join(output, relative.as_str());
            proof {
                reveal_strlit("css");
            }
            Ok(crate::paths::with_extension(destination.as_str(), "css"))
        },
        None => Err(
            Error::StripPrefix {
                prefix: String::from_str(input_dir),
                path: String::from_str(css_file),
            },
        ),
    }
}

/// Whether a style sheet is one that others pull in and that is not built
/// by itself: whether the name of its file starts with an underscore.
pub open spec fn is_partial(path: Seq<char>) -> bool {
    path_file_name(path) matches Some(name) && name.len() > 0 && name[0] == '_'
}

/// Tells whether a style sheet is built by itself.
pub fn is_root_style(path: &str) -> (result: bool)
    requires
        path_file_name(path@) is Some,
    ensures
        result == !is_partial(path@),
{
    match crate::paths::file_name(path) {
        Some(name) => !(name.as_str().unicode_len() > 0 && name.as_str().get_char(0) == '_'),
        None => true,
    }
}

/// The style sheets that are built by themselves, in their order: those
/// that have a file name, and one that does not start with an underscore.
pub open spec fn root_styles_of(styles: Seq<Seq<char>>) -> Seq<Seq<char>>
    decreases styles.len(),
{
    if styles.len() == 0 {
        Seq::empty()
    } else if path_file_name(styles.last()) is Some && !is_partial(styles.last()) {
        root_styles_of(styles.drop_last()).push(styles.last())
    } else {
        root_styles_of(styles.drop_last())
    }
}

/// Picks the style sheets that are built by themselves.
pub fn root_styles(styles: &Vec<String>) -> (result: Vec<String>)
    ensures
        texts(result@) == root_styles_of(texts(styles@)),
{
    let mut result: Vec<String> = Vec::new();
    let mut i: usize = 0;
    while i < styles.len()
        invariant
            i <= styles.len(),
            texts(result@) == root_styles_of(texts(styles@).take(i as int)),
        decreases styles.len() - i,
    {
        let ghost before = texts(result@);
        assert(texts(styles@).take(i + 1).drop_last() =~= texts(styles@).take(i as int));
        assert(texts(styles@).take(i + 1).last() == styles@[i as int]@);
        if crate::paths::file_name(styles[i].as_str()).is_some() {
            if is_root_style(styles[i].as_str()) {
                result.push(styles[i].clone());
                assert(texts(result@) =~= before.push(styles@[i as int]@));
            }
        }
        i += 1;
    }
    assert(texts(styles@).take(i as int) =~= texts(styles@));
    result
}

/// A list of paths as a log shows it: each on a line of its own, or a
/// note that there are none.
pub open spec fn paths_text(paths: Seq<Seq<char>>) -> Seq<char> {
    if paths.len() == 0 {
        " (none)"@
    } else {
        "\n      "@ + joined(paths, "\n      "@)
    }
}

/// Writes a list of paths for a log.
pub fn display_paths(paths: &Vec<String>) -> (text: String)
    ensures
        text@ == paths_text(texts(paths@)),
{
    if paths.len() == 0 {
        return String::from_str(" (none)");
    }
    let list = join_texts(paths, "\n      ");
    prefixed("\n      ", list.as_str())
}

/// Where a build stands. A build goes through its steps in one order: the
/// items are prepared, then rendered, then everything that will be written
/// is composed, and only then is the output directory cleared and written.
#[derive(Debug, Clone, Copy, PartialEq, Eq, Structural)]
pub enum Stage {
    /// The first phase runs.
    Preparing,
    /// The second phase runs.
    Rendering,
    /// Pages are put into their templates, style sheets are compiled, and
    /// the place of every file is found.
    Composing,
    /// What the build before this one left is removed.
    Clearing,
    /// The files are copied and written.
    Writing,
    /// The build has succeeded.
    Done,
    /// The build has failed.
    Failed,
}

/// What a build asks of whoever drives it.
#[derive(Debug, Clone, Copy, PartialEq, Eq, Structural)]
pub enum BuildAction {
    /// Prepare every source, and end the phase.
    Prepare,
    /// Render every prepared item, and end the phase.
    Render,
    /// Make everything that will be written, and write nothing yet.
    Compose,
    /// Remove the output directory.
    Clear,
    /// Copy and write the files.
    Write,
    /// Report success.
    Finish,
    /// Report the error of the step that failed, and do nothing more.
    Abort,
}

/// One step of a build: where it stands after a step has ended well or
/// badly, and what to do next. A step that ends badly ends the build.
pub open spec fn build_step(stage: Stage, ok: bool) -> (Stage, BuildAction) {
    match stage {
        Stage::Done => (Stage::Done, BuildAction::Finish),
        Stage::Failed => (Stage::Failed, BuildAction::Abort),
        _ => if !ok {
            (Stage::Failed, BuildAction::Abort)
        } else {
            match stage {
                Stage::Preparing => (Stage::Rendering, BuildAction::Render),
                Stage::Rendering => (Stage::Composing, BuildAction::Compose),
                Stage::Composing => (Stage::Clearing, BuildAction::Clear),
                Stage::Clearing => (Stage::Writing, BuildAction::Write),
                _ => (Stage::Done, BuildAction::Finish),
            }
        },
    }
}

/// Starts a build: it stands at its first phase.
pub fn begin() -> (result: (Stage, BuildAction))
    ensures
        result == (Stage::Preparing, BuildAction::Prepare),
{
    (Stage::Preparing, BuildAction::Prepare)
}

/// Takes a build one step further, when the step that it asked for has
/// ended.
pub fn advance(stage: Stage, ok: bool) -> (result: (Stage, BuildAction))
    ensures
        result == build_step(stage, ok),
{
    match stage {
        Stage::Done => (Stage::Done, BuildAction::Finish),
        Stage::Failed => (Stage::Failed, BuildAction::Abort),
        Stage::Preparing => if ok {
            (Stage::Rendering, BuildAction::Render)
        } else {
            (Stage::Failed, BuildAction::Abort)
        },
        Stage::Rendering => if ok {
            (Stage::Composing, BuildAction::Compose)
        } else {
            (Stage::Failed, BuildAction::Abort)
        },
        Stage::Composing => if ok {
            (Stage::Clearing, BuildAction::Clear)
        } else {
            (Stage::Failed, BuildAction::Abort)
        },
        Stage::Clearing => if ok {
            (Stage::Writing, BuildAction::Write)
        } else {
            (Stage::Failed, BuildAction::Abort)
        },
        Stage::Writing => if ok {
            (Stage::Done, BuildAction::Finish)
        } else {
            (Stage::Failed, BuildAction::Abort)
        },
    }
}

/// Where a build stands whose steps ended like this, one after another,
/// and everything that it asked for, from its start on.
pub open spec fn build_run(outcomes: Seq<bool>) -> (Stage, Seq<BuildAction>)
    decreases outcomes.len(),
{
    if outcomes.len() == 0 {
        (Stage::Preparing, seq![BuildAction::Prepare])
    } else {
        let before = build_run(outcomes.drop_last());
        let next = build_step(before.0, outcomes.last());
        (next.0, before.1.push(next.1))
    }
}

/// Whether an action changes the output directory.
pub open spec fn touches_output(action: BuildAction) -> bool {
    action is Clear || action is Write
}

proof fn build_run_shape(outcomes: Seq<bool>)
    ensures
        build_run(outcomes).1.len() == outcomes.len() + 1,
        build_run(outcomes).0 == Stage::Preparing ==> outcomes.len() == 0,
        build_run(outcomes).0 == Stage::Rendering ==> outcomes.len() == 1 && outcomes[0],
        build_run(outcomes).0 == Stage::Composing ==> outcomes.len() == 2 && outcomes[0]
            && outcomes[1],
        build_run(outcomes).0 == Stage::Clearing ==> outcomes.len() == 3 && outcomes[0]
            && outcomes[1] && outcomes[2],
        build_run(outcomes).0 == Stage::Writing ==> outcomes.len() == 4 && outcomes[0]
            && outcomes[1] && outcomes[2] && outcomes[3],
        build_run(outcomes).0 == Stage::Done ==> outcomes.len() >= 5 && outcomes[0] && outcomes[1]
            && outcomes[2] && outcomes[3] && outcomes[4],
        forall|at: int|
            0 <= at <= outcomes.len() && touches_output(#[trigger] build_run(outcomes).1[at])
                ==> at >= 3 && outcomes[0] && outcomes[1] && outcomes[2],
    decreases outcomes.len(),
{
    if outcomes.len() > 0 {
        let init = outcomes.drop_last();
        build_run_shape(init);
        let before = build_run(init);
        let actions = build_run(outcomes).1;
        assert(actions.drop_last() =~= before.1);
        assert forall|k: int| 0 <= k < init.len() implies init[k] == outcomes[k] by {}
        assert forall|at: int|
            0 <= at <= outcomes.len() && touches_output(#[trigger] actions[at]) implies at >= 3
            && outcomes[0] && outcomes[1] && outcomes[2] by {
            if at < outcomes.len() {
                assert(actions[at] == before.1[at]);
            }
        }
    }
}

/// Nothing is cleared and nothing is written before both phases have
/// succeeded for every item and everything that will be written has been
/// made: an action that changes the output directory comes only after three
/// steps that ended well.
pub proof fn output_waits_for_the_phases(outcomes: Seq<bool>, at: int)
    requires
        0 <= at <= outcomes.len(),
        touches_output(build_run(outcomes).1[at]),
    ensures
        at >= 3,
        outcomes[0],
        outcomes[1],
        outcomes[2],
{
    build_run_shape(outcomes);
}

/// A build in which a phase fails changes nothing in the output directory,
/// whatever is reported to it afterwards, and ends as failed.
pub proof fn failed_phase_touches_nothing(outcomes: Seq<bool>)
    requires
        outcomes.len() >= 1 && !outcomes[0] || outcomes.len() >= 2 && !outcomes[1],
    ensures
        build_run(outcomes).0 == Stage::Failed,
        forall|at: int|
            0 <= at <= outcomes.len() ==> !touches_output(#[trigger] build_run(outcomes).1[at]),
    decreases outcomes.len(),
{
    build_run_shape(outcomes);
    if outcomes.len() >= 2 {
        let init = outcomes.drop_last();
        assert(init[0] == outcomes[0]);
        if init.len() >= 2 {
            assert(init[1] == outcomes[1]);
        }
        if !outcomes[0] || (init.len() >= 2 && !outcomes[1]) {
            failed_phase_touches_nothing(init);
        } else {
            build_run_shape(init);
        }
    }
}

/// A build succeeds only where every one of its five steps ended well.
pub proof fn success_needs_every_step(outcomes: Seq<bool>)
    requires
        build_run(outcomes).0 == Stage::Done,
    ensures
        outcomes.len() >= 5,
        outcomes[0] && outcomes[1] && outcomes[2] && outcomes[3] && outcomes[4],
{
    build_run_shape(outcomes);
}

/// A phase in which an item fails ends the build: whatever the other items
/// did, the build stands as failed and asks for nothing but the report of
/// the error, so nothing of any item is written.
pub proof fn failing_item_ends_the_build<T>(
    outcomes: Seq<Outcome<T, page::Error>>,
    kind: PageErrorKind,
    result: Result<Vec<T>, Error>,
    stage: Stage,
)
    requires
        phase_ends(outcomes, kind, result),
        exists|i: int| 0 <= i < outcomes.len() && outcomes[i].result is Err,
        stage == Stage::Preparing || stage == Stage::Rendering,
    ensures
        build_step(stage, result is Ok) == (Stage::Failed, BuildAction::Abort),
{
    phase_is_all_or_nothing(outcomes, kind, result);
}

} // verus!
