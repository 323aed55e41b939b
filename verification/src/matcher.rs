//! The matching rules: what each expectation makes of one token.
//!
//! The rules are stateless. Each takes the token that was read and says
//! whether the expectation is met, and if not, which failure is reported: the
//! end of the input where a token was expected is kept apart from a token of
//! the wrong kind or name, so that a loop over siblings can stop at the one
//! and fail on the other.

use vstd::prelude::*;
use vstd::utf8::encode_utf8;
use quick_xml::Error as XmlError;
use crate::error::{agrees, Error, ErrorView};
use crate::token::{same_bytes, Token, TokenView};

verus! {

/// The rule for "a start tag called `name`".
pub open spec fn start_tag_rule(token: TokenView, name: Seq<u8>) -> Result<(), ErrorView> {
    if token.opens(name) {
        Ok(())
    } else if token is EndOfStream {
        Err(ErrorView::Eof)
    } else {
        Err(ErrorView::UnexpectedEvent(token))
    }
}

/// The rule for "an empty tag called `name`".
pub open spec fn empty_tag_rule(token: TokenView, name: Seq<u8>) -> Result<(), ErrorView> {
    if token.is_empty_element(name) {
        Ok(())
    } else if token is EndOfStream {
        Err(ErrorView::Eof)
    } else {
        Err(ErrorView::UnexpectedEvent(token))
    }
}

/// The rule for "the end of the stream". A token in its place is never
/// reported as the end of the input.
pub open spec fn end_of_stream_rule(token: TokenView) -> Result<(), ErrorView> {
    if token is EndOfStream {
        Ok(())
    } else {
        Err(ErrorView::UnexpectedEvent(token))
    }
}

/// The rule for "a text node": on a match, the text as it stands in the
/// input.
pub open spec fn text_rule(token: TokenView) -> Result<Seq<u8>, ErrorView> {
    match token {
        TokenView::Text { content } => Ok(content),
        TokenView::EndOfStream => Err(ErrorView::Eof),
        _ => Err(ErrorView::UnexpectedEvent(token)),
    }
}

/// Holds `token` against the expectation "a start tag called `name`".
pub fn match_start_tag(token: Token, name: &str) -> (verdict: Result<(), Error>)
    ensures
        agrees(verdict, start_tag_rule(token@, encode_utf8(name@))),
{
    match token {
        Token::StartTag { name: found } => {
            if same_bytes(found.as_slice(), name.as_bytes()) {
                Ok(())
            } else {
                Err(Error::unexpected_event(Token::StartTag { name: found }))
            }
        },
        Token::EndOfStream => Err(Error::Eof),
        other => Err(Error::unexpected_event(other)),
    }
}

/// Holds `token` against the expectation "an empty tag called `name`".
pub fn match_empty_tag(token: Token, name: &str) -> (verdict: Result<(), Error>)
    ensures
        agrees(verdict, empty_tag_rule(token@, encode_utf8(name@))),
{
    match token {
        Token::EmptyTag { name: found } => {
            if same_bytes(found.as_slice(), name.as_bytes()) {
                Ok(())
            } else {
                Err(Error::unexpected_event(Token::EmptyTag { name: found }))
            }
        },
        Token::EndOfStream => Err(Error::Eof),
        other => Err(Error::unexpected_event(other)),
    }
}

/// Holds `token` against the expectation "the end of the stream".
pub fn match_end_of_stream(token: Token) -> (verdict: Result<(), Error>)
    ensures
        agrees(verdict, end_of_stream_rule(token@)),
{
    match token {
        Token::EndOfStream => Ok(()),
        other => Err(Error::unexpected_event(other)),
    }
}

/// Holds `token` against the expectation "a text node" and hands out the
/// text as it stands in the input.
pub fn match_text(token: Token) -> (verdict: Result<Vec<u8>, Error>)
    ensures
        match text_rule(token@) {
            Ok(content) => verdict matches Ok(raw) && raw@ == content,
            Err(failure) => verdict matches Err(error) && error@ == failure,
        },
{
    match token {
        Token::Text { content } => Ok(content),
        Token::EndOfStream => Err(Error::Eof),
        other => Err(Error::unexpected_event(other)),
    }
}

/// Turns what the tokenizer handed back into a result of this library: a
/// failure of the tokenizer is malformed input.
pub fn well_formed<T>(outcome: Result<T, XmlError>) -> (result: Result<T, Error>)
    ensures
        match outcome {
            Ok(value) => result == Ok::<T, Error>(value),
            Err(failure) => result == Err::<T, Error>(Error::Reader(failure)),
        },
{
    match outcome {
        Ok(value) => Ok(value),
        Err(failure) => Err(Error::from(failure)),
    }
}

} // verus!
