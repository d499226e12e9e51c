//! How the style sheets of a site are compiled.

use vstd::prelude::*;
use vstd::string::*;

verus! {

/// What the compiled style sheets are for.
#[derive(Debug, Clone, Copy, PartialEq, Eq, Structural)]
pub enum OutputMode {
    /// For development: left readable.
    Dev,
    /// For publishing: made small.
    Prod,
}

impl OutputMode {
    /// The mode for a build that is, or is not, asked to make its style
    /// sheets small.
    pub fn for_minify(minify: bool) -> (mode: OutputMode)
        ensures
            mode == if minify {
                OutputMode::Prod
            } else {
                OutputMode::Dev
            },
    {
        if minify {
            OutputMode::Prod
        } else {
            OutputMode::Dev
        }
    }

    /// Whether the style sheets are made small when they are written.
    pub fn minify(&self) -> (result: bool)
        ensures
            result == (*self == OutputMode::Prod),
    {
        match self {
            OutputMode::Dev => false,
            OutputMode::Prod => true,
        }
    }
}

/// Why a style sheet could not be compiled.
#[derive(Debug, PartialEq, Eq)]
pub enum Error {
    Bundle(String),
    Minify(String),
    EmitCss(String),
    IO(String),
}

pub open spec fn error_text(error: Error) -> Seq<char> {
    match error {
        Error::Bundle(cause) => "Could not bundle CSS. Cause:\n"@ + cause@,
        Error::Minify(cause) => "Could not minify CSS. Cause:\n"@ + cause@,
        Error::EmitCss(cause) => "Could not emit CSS. Cause:\n"@ + cause@,
        Error::IO(cause) => cause@,
    }
}

impl Error {
    /// Says why the style sheet could not be compiled.
    pub fn describe(&self) -> (text: String)
        ensures
            text@ == error_text(*self),
    {
        match self {
            Error::Bundle(cause) => {
                let mut text = String::from_str("Could not bundle CSS. Cause:\n");
                text.append(cause.as_str());
                text
            },
            Error::Minify(cause) => {
                let mut text = String::from_str("Could not minify CSS. Cause:\n");
                text.append(cause.as_str());
                text
            },
            Error::EmitCss(cause) => {
                let mut text = String::from_str("Could not emit CSS. Cause:\n");
                text.append(cause.as_str());
                text
            },
            Error::IO(cause) => cause.clone(),
        }
    }
}

} // verus!
