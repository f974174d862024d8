//! The errors this crate reports.

use crate::text::IntErrorKind;
use vstd::prelude::*;

verus! {

/// Why a string is not an `f32`, as `std::num::ParseFloatError` tells it.
#[derive(Debug, Clone, Copy, PartialEq, Eq, Structural)]
pub enum FloatErrorKind {
    Empty,
    Invalid,
}

/// Every error this crate can return. The payloads are plain values: an operating-system
/// error number, the text of an I/O or exporter error, the kind of a failed number parse,
/// or a message of the crate's own.
#[derive(Debug, Clone)]
pub enum Error {
    Nix(i32),
    Io(String),
    ParseIntError(IntErrorKind),
    ParseFloatError(FloatErrorKind),
    BuildError(String),
    Expression(String),
    Message(String),
}

} // verus!

verus! {

/// The mathematical content of an [`Error`]: texts as character sequences.
pub enum ErrorView {
    Nix(i32),
    Io(Seq<char>),
    ParseIntError(IntErrorKind),
    ParseFloatError(FloatErrorKind),
    BuildError(Seq<char>),
    Expression(Seq<char>),
    Message(Seq<char>),
}

impl View for Error {
    type V = ErrorView;

    open spec fn view(&self) -> ErrorView {
        match self {
            Error::Nix(n) => ErrorView::Nix(*n),
            Error::Io(s) => ErrorView::Io(s@),
            Error::ParseIntError(k) => ErrorView::ParseIntError(*k),
            Error::ParseFloatError(k) => ErrorView::ParseFloatError(*k),
            Error::BuildError(s) => ErrorView::BuildError(s@),
            Error::Expression(s) => ErrorView::Expression(s@),
            Error::Message(s) => ErrorView::Message(s@),
        }
    }
}

} // verus!

verus! {

impl Error {
    /// A copy of this error.
    pub fn clone_error(&self) -> (r: Error)
        ensures
            r@ == self@,
    {
        match self {
            Error::Nix(n) => Error::Nix(*n),
            Error::Io(s) => Error::Io(s.clone()),
            Error::ParseIntError(k) => Error::ParseIntError(*k),
            Error::ParseFloatError(k) => Error::ParseFloatError(*k),
            Error::BuildError(s) => Error::BuildError(s.clone()),
            Error::Expression(s) => Error::Expression(s.clone()),
            Error::Message(s) => Error::Message(s.clone()),
        }
    }
}

} // verus!
