//! Paths as UTF-8 text, taken apart and put together by `camino`.

use camino::Utf8Path;
use vstd::prelude::*;

verus! {

/// What `Utf8Path::parent` gives for a path: the path without its final
/// component, if there is one.
pub uninterp spec fn path_parent(path: Seq<char>) -> Option<Seq<char>>;

/// What `Utf8Path::file_stem` gives for a path: the final component without
/// its extension, if there is a final component.
pub uninterp spec fn path_file_stem(path: Seq<char>) -> Option<Seq<char>>;

/// What `Utf8Path::extension` gives for a path.
pub uninterp spec fn path_extension(path: Seq<char>) -> Option<Seq<char>>;

/// What `Utf8Path::join` gives for a base and a path to put behind it.
pub uninterp spec fn path_join(base: Seq<char>, tail: Seq<char>) -> Seq<char>;

/// What `Utf8Path::strip_prefix` gives for a path and a base: the rest of
/// the path behind the base, or nothing where the base is no prefix of it.
pub uninterp spec fn path_strip_prefix(path: Seq<char>, base: Seq<char>) -> Option<Seq<char>>;

/// What `Utf8Path::starts_with` gives for a path and a base: whether the
/// base's components are the path's first components.
pub uninterp spec fn path_starts_with(path: Seq<char>, base: Seq<char>) -> bool;

/// What `Utf8Path::file_name` gives for a path: its final component, if it
/// has one.
pub uninterp spec fn path_file_name(path: Seq<char>) -> Option<Seq<char>>;

/// What `Utf8Path::with_extension` gives for a path and an extension: the
/// path with the extension of its final component replaced.
pub uninterp spec fn path_with_extension(path: Seq<char>, extension: Seq<char>) -> Seq<char>;

/// The text inside an optional string.
pub open spec fn text_of(value: Option<String>) -> Option<Seq<char>> {
    match value {
        Some(text) => Some(text@),
        None => None,
    }
}

/// Calls `Utf8Path::parent`. Trusted: the result is the named result of
/// that method on the same text.
#[verifier::external_body]
pub(crate) fn parent(path: &str) -> (result: Option<String>)
    ensures
        text_of(result) == path_parent(path@),
{
    Utf8Path::new(path).parent().map(|p| p.as_str().to_owned())
}

/// Calls `Utf8Path::file_stem`. Trusted: the result is the named result of
/// that method on the same text.
#[verifier::external_body]
pub(crate) fn file_stem(path: &str) -> (result: Option<String>)
    ensures
        text_of(result) == path_file_stem(path@),
{
    Utf8Path::new(path).file_stem().map(|s| s.to_owned())
}

/// Calls `Utf8Path::extension`. Trusted: the result is the named result of
/// that method on the same text.
#[verifier::external_body]
pub(crate) fn extension(path: &str) -> (result: Option<String>)
    ensures
        text_of(result) == path_extension(path@),
{
    Utf8Path::new(path).extension().map(|s| s.to_owned())
}

/// Calls `Utf8Path::join`. Trusted: the result is the named result of that
/// method on the same two texts.
#[verifier::external_body]
pub(crate) fn join(base: &str, tail: &str) -> (result: String)
    ensures
        result@ == path_join(base@, tail@),
{
    Utf8Path::new(base).join(tail).into_string()
}

/// Calls `Utf8Path::strip_prefix`. Trusted: the result is the named result
/// of that method on the same two texts.
#[verifier::external_body]
pub(crate) fn strip_prefix(path: &str, base: &str) -> (result: Option<String>)
    ensures
        text_of(result) == path_strip_prefix(path@, base@),
{
    Utf8Path::new(path).strip_prefix(base).ok().map(|p| p.as_str().to_owned())
}

/// Calls `Utf8Path::starts_with`. Trusted: the result is the named result
/// of that method on the same two texts.
#[verifier::external_body]
pub(crate) fn starts_with(path: &str, base: &str) -> (result: bool)
    ensures
        result == path_starts_with(path@, base@),
{
    Utf8Path::new(path).starts_with(base)
}

/// Calls `Utf8Path::file_name`. Trusted: the result is the named result of
/// that method on the same text.
#[verifier::external_body]
pub(crate) fn file_name(path: &str) -> (result: Option<String>)
    ensures
        text_of(result) == path_file_name(path@),
{
    Utf8Path::new(path).file_name().map(|s| s.to_owned())
}

/// Calls `Utf8Path::with_extension`. Trusted: the result is the named
/// result of that method on the same two texts. The method panics on an
/// extension that holds a path separator, so none may be handed in.
#[verifier::external_body]
pub(crate) fn with_extension(path: &str, extension: &str) -> (result: String)
    requires
        !extension@.contains('/'),
        !extension@.contains('\\'),
    ensures
        result@ == path_with_extension(path@, extension@),
{
    Utf8Path::new(path).with_extension(extension).into_string()
}

} // verus!
