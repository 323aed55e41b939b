//! The ways in which a traversal can fail.

use vstd::prelude::*;
use quick_xml::Error as XmlError;
use crate::token::{Token, TokenView};

verus! {

/// Why an expectation was not met, or why the content of an element could not
/// be read.
#[derive(Debug)]
pub enum Error {
    /// The tokenizer could not read its input: the markup is malformed, the
    /// text cannot be decoded, or an element is never closed.
    Reader(XmlError),
    /// A token was read, and it is not the one that was expected. The token
    /// is kept for diagnostics.
    UnexpectedEvent(Token),
    /// The routine that reads the content of an element reported this
    /// failure.
    Inner(Box<Error>),
    /// The input ended where a token was expected.
    Eof,
    /// The routine that reads the content of an element returned normally and
    /// left this token, and whatever follows it, unread.
    Unconsumed(Token),
}

/// The mathematical value of an [`Error`]. What the tokenizer reports about
/// its own failure is not part of it.
pub enum ErrorView {
    Reader,
    UnexpectedEvent(TokenView),
    Inner(Box<ErrorView>),
    Eof,
    Unconsumed(TokenView),
}

impl Error {
    /// The mathematical value of this error.
    pub open spec fn model(&self) -> ErrorView
        decreases self,
    {
        match self {
            Error::Reader(_) => ErrorView::Reader,
            Error::UnexpectedEvent(token) => ErrorView::UnexpectedEvent(token@),
            Error::Inner(inner) => ErrorView::Inner(Box::new(inner.model())),
            Error::Eof => ErrorView::Eof,
            Error::Unconsumed(token) => ErrorView::Unconsumed(token@),
        }
    }
}

impl View for Error {
    type V = ErrorView;

    open spec fn view(&self) -> ErrorView {
        self.model()
    }
}

impl Error {
    /// The failure to report for a token that was not expected.
    pub fn unexpected_event(event: Token) -> (error: Self)
        ensures
            error@ == ErrorView::UnexpectedEvent(event@),
    {
        Error::UnexpectedEvent(event)
    }
}

impl From<XmlError> for Error {
    fn from(err: XmlError) -> (error: Self) {
        Error::Reader(err)
    }
}

impl vstd::std_specs::convert::FromSpecImpl<XmlError> for Error {
    open spec fn obeys_from_spec() -> bool {
        true
    }

    open spec fn from_spec(err: XmlError) -> Self {
        Error::Reader(err)
    }
}

impl From<Box<Error>> for Error {
    fn from(err: Box<Error>) -> (error: Self) {
        Error::Inner(err)
    }
}

impl vstd::std_specs::convert::FromSpecImpl<Box<Error>> for Error {
    open spec fn obeys_from_spec() -> bool {
        true
    }

    open spec fn from_spec(err: Box<Error>) -> Self {
        Error::Inner(err)
    }
}

/// Whether `result` is what `expected` describes: success with the same
/// value, or a failure with the same mathematical value.
pub open spec fn agrees<T>(result: Result<T, Error>, expected: Result<T, ErrorView>) -> bool {
    match expected {
        Ok(value) => result == Ok::<T, Error>(value),
        Err(failure) => result matches Err(error) && error@ == failure,
    }
}

} // verus!
