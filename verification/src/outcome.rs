//! What running a parser gives back: the parsed values, a help text, or an
//! error that names the offending argument.

use vstd::prelude::*;
use crate::number::{decimal, decimal_text};
use crate::text::wrapped;

verus! {

/// A result of successful command-line parsing: either the values that were
/// passed to the program, or help about the current command.
pub enum Parse<T> {
    Success(T),
    Help(HelpInfo),
}

/// The help text of a command.
pub struct HelpInfo(pub String);

impl View for HelpInfo {
    type V = Seq<char>;

    open spec fn view(&self) -> Seq<char> {
        self.0@
    }
}

/// A way to refer to an argument in an error: by its position, counted from
/// one, or by its long key.
pub enum ArgRef {
    Positional(usize),
    Named(String),
}

/// The model of an [`ArgRef`].
pub enum ArgRefView {
    Positional(nat),
    Named(Seq<char>),
}

impl View for ArgRef {
    type V = ArgRefView;

    open spec fn view(&self) -> ArgRefView {
        match self {
            ArgRef::Positional(index) => ArgRefView::Positional(*index as nat),
            ArgRef::Named(name) => ArgRefView::Named(name@),
        }
    }
}

/// What can go wrong while a token stream is consumed and its values are
/// converted.
pub enum Error {
    /// A required named argument was never given.
    ExpectedNamed(String),
    /// The stream ended where a required positional argument was due.
    ExpectedPositional(usize),
    /// A named argument's key was the last token.
    ExpectedValue(String),
    /// A token starts with a dash and is no declared key.
    UnknownFlag(String),
    /// A token is left over after every positional argument was served.
    ExtraArg(String),
    /// The first token names no subcommand.
    UnknownSub(String),
    /// A token is not in the grammar of its argument's type; the text says why.
    Parse(ArgRef, String),
}

/// The model of an [`Error`].
pub enum ErrorView {
    ExpectedNamed(Seq<char>),
    ExpectedPositional(nat),
    ExpectedValue(Seq<char>),
    UnknownFlag(Seq<char>),
    ExtraArg(Seq<char>),
    UnknownSub(Seq<char>),
    Parse(ArgRefView, Seq<char>),
}

impl View for Error {
    type V = ErrorView;

    open spec fn view(&self) -> ErrorView {
        match self {
            Error::ExpectedNamed(key) => ErrorView::ExpectedNamed(key@),
            Error::ExpectedPositional(index) => ErrorView::ExpectedPositional(*index as nat),
            Error::ExpectedValue(key) => ErrorView::ExpectedValue(key@),
            Error::UnknownFlag(token) => ErrorView::UnknownFlag(token@),
            Error::ExtraArg(token) => ErrorView::ExtraArg(token@),
            Error::UnknownSub(token) => ErrorView::UnknownSub(token@),
            Error::Parse(arg, cause) => ErrorView::Parse(arg@, cause@),
        }
    }
}

/// The words by which an error refers to an argument.
pub open spec fn arg_ref_text(arg: ArgRefView) -> Seq<char> {
    match arg {
        ArgRefView::Positional(index) => "positional argument `"@ + decimal_text(index) + "`"@,
        ArgRefView::Named(name) => "argument `"@ + name + "`"@,
    }
}

/// The one line that reports an error to the user.
pub open spec fn error_text(e: ErrorView) -> Seq<char> {
    match e {
        ErrorView::ExpectedNamed(key) => "Expected an argument named `"@ + key + "`"@,
        ErrorView::ExpectedPositional(index) => "Expected an argument at position `"@
            + decimal_text(index) + "`"@,
        ErrorView::ExpectedValue(key) => "Expected a value after argument `"@ + key + "`"@,
        ErrorView::UnknownFlag(token) => "Unknown flag `"@ + token + "`"@,
        ErrorView::ExtraArg(token) => "Unexpected positional argument `"@ + token + "`"@,
        ErrorView::UnknownSub(token) => "Unknown subcommand `"@ + token + "`"@,
        ErrorView::Parse(arg, cause) => "Error parsing "@ + arg_ref_text(arg) + ":\n"@ + cause,
    }
}

impl HelpInfo {
    /// The help text.
    pub fn to_string(&self) -> (r: String)
        ensures
            r@ == self@,
    {
        self.0.clone()
    }
}

impl ArgRef {
    /// The words by which an error refers to the argument.
    pub fn to_string(&self) -> (r: String)
        ensures
            r@ == arg_ref_text(self@),
    {
        match self {
            ArgRef::Positional(index) => wrapped(
                "positional argument `",
                decimal(*index).as_str(),
                "`",
            ),
            ArgRef::Named(name) => wrapped("argument `", name.as_str(), "`"),
        }
    }
}

impl Error {
    /// The one line that reports the error to the user.
    pub fn to_string(&self) -> (r: String)
        ensures
            r@ == error_text(self@),
    {
        match self {
            Error::ExpectedNamed(key) => wrapped("Expected an argument named `", key.as_str(), "`"),
            Error::ExpectedPositional(index) => wrapped(
                "Expected an argument at position `",
                decimal(*index).as_str(),
                "`",
            ),
            Error::ExpectedValue(key) => wrapped(
                "Expected a value after argument `",
                key.as_str(),
                "`",
            ),
            Error::UnknownFlag(token) => wrapped("Unknown flag `", token.as_str(), "`"),
            Error::ExtraArg(token) => wrapped(
                "Unexpected positional argument `",
                token.as_str(),
                "`",
            ),
            Error::UnknownSub(token) => wrapped("Unknown subcommand `", token.as_str(), "`"),
            Error::Parse(arg, cause) => {
                let mut r = wrapped("Error parsing ", arg.to_string().as_str(), ":\n");
                r.append(cause.as_str());
                r
            },
        }
    }
}

/// The model of an optional text.
pub open spec fn opt_text(text: Option<String>) -> Option<Seq<char>> {
    match text {
        Some(s) => Some(s@),
        None => None,
    }
}

} // verus!
