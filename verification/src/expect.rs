//! Expectations on a token stream, and the scoped reading of an element's
//! content.

use vstd::prelude::*;
use vstd::utf8::{decode_utf8, encode_utf8, valid_utf8};
use quick_xml::Reader;
use std::borrow::Cow;
use std::marker::PhantomData;
use crate::error::{agrees, Error, ErrorView};
use crate::matcher::{
    empty_tag_rule, end_of_stream_rule, match_empty_tag, match_end_of_stream, match_start_tag,
    match_text, start_tag_rule, text_rule, well_formed,
};
use crate::nesting::{closing, closing_ignores_what_follows, closing_is_a_closing_tag};
use crate::sealed::Sealed;
use crate::stream::{after_read, front, trimmed, Pending};
use crate::token::TokenView;
use crate::tokenizer::{
    decode, decoder, from_str, lexed, next_token, pending, read_span, span_text, trim_text,
    unescape, unescaped,
};

verus! {

/// What the expectation of a start tag called `name` makes of a stream: met,
/// or the failure to report.
pub open spec fn start_tag_outcome(s: Pending, name: Seq<u8>) -> Result<(), ErrorView> {
    if s.len() == 0 {
        Err(ErrorView::Eof)
    } else {
        match s[0] {
            Some(token) => if token.opens(name) {
                Ok(())
            } else {
                Err(ErrorView::UnexpectedEvent(token))
            },
            None => Err(ErrorView::Reader),
        }
    }
}

/// What the expectation of an empty tag called `name` makes of a stream.
pub open spec fn empty_tag_outcome(s: Pending, name: Seq<u8>) -> Result<(), ErrorView> {
    if s.len() == 0 {
        Err(ErrorView::Eof)
    } else {
        match s[0] {
            Some(token) => if token.is_empty_element(name) {
                Ok(())
            } else {
                Err(ErrorView::UnexpectedEvent(token))
            },
            None => Err(ErrorView::Reader),
        }
    }
}

/// What the expectation of the end of the stream makes of a stream. It is
/// met on a stream that is used up and on no other.
pub open spec fn end_outcome(s: Pending) -> Result<(), ErrorView> {
    if s.len() == 0 {
        Ok(())
    } else {
        match s[0] {
            Some(token) => Err(ErrorView::UnexpectedEvent(token)),
            None => Err(ErrorView::Reader),
        }
    }
}

/// What the expectation of a text node makes of a stream: on a match, the
/// text as it stands in the input.
pub open spec fn text_node_outcome(s: Pending) -> Result<Seq<u8>, ErrorView> {
    if s.len() == 0 {
        Err(ErrorView::Eof)
    } else {
        match s[0] {
            Some(TokenView::Text { content }) => Ok(content),
            Some(token) => Err(ErrorView::UnexpectedEvent(token)),
            None => Err(ErrorView::Reader),
        }
    }
}

/// What the expectation of a text node hands out: the value of the text
/// that was matched.
pub open spec fn text_outcome(s: Pending) -> Result<Seq<char>, ErrorView> {
    match text_node_outcome(s) {
        Ok(content) => match text_value(content) {
            Some(text) => Ok(text),
            None => Err(ErrorView::Reader),
        },
        Err(failure) => Err(failure),
    }
}

/// What a stream has yet to read once an element called `name` has been
/// expected on it: where the stream begins with the element's opening tag,
/// the whole element is gone, up to and including its closing tag; where the
/// element is never closed, nothing is left to read; in every other case one
/// read has been made.
pub open spec fn after_element(s: Pending, name: Seq<u8>) -> Pending {
    if s.len() > 0 && s[0] == Some(TokenView::StartTag { name }) {
        match closing(s.skip(1), name) {
            Some(at) => s.skip(1).skip(at + 1),
            None => Seq::empty(),
        }
    } else {
        after_read(s)
    }
}

/// The value of a text node whose text stands in the input as `content`: the
/// text decoded, with its entity references replaced once. `None` where the
/// text cannot be decoded or holds a reference that cannot be replaced.
pub open spec fn text_value(content: Seq<u8>) -> Option<Seq<char>> {
    if valid_utf8(content) {
        unescaped(decode_utf8(content))
    } else {
        None
    }
}

/// Whether `content` is text that can be decoded and holds no entity
/// reference. Such text is its own value.
pub open spec fn is_plain(content: Seq<u8>) -> bool {
    valid_utf8(content) && !decode_utf8(content).contains('&')
}

/// Whether `found` is what capturing the content of an element gives, where
/// `text` is the content between its tags, or `None` if that content could
/// not be had.
pub open spec fn captured(found: Result<ElementReader<'_, '_>, Error>, text: Option<Seq<char>>) -> bool {
    match text {
        Some(content) => found matches Ok(inner) && inner@ == content,
        None => found matches Err(error) && error@ == ErrorView::Reader,
    }
}

/// Whether `result` is what reading the content of an element gives, where
/// `outcome` is what the routine returned and `left` is what it left unread.
///
/// A failure of the routine is handed on, marked as its own. A routine that
/// returns normally must have read everything: the first token that it left
/// is reported as unconsumed.
pub open spec fn concluded<T>(outcome: Result<T, Error>, left: Pending, result: Result<T, Error>) -> bool {
    match outcome {
        Err(failure) => result == Err::<T, Error>(Error::Inner(Box::new(failure))),
        Ok(value) => if left.len() == 0 {
            result == Ok::<T, Error>(value)
        } else {
            match left[0] {
                Some(token) => result matches Err(error) && error@ == ErrorView::Unconsumed(token),
                None => result matches Err(error) && error@ == ErrorView::Reader,
            }
        },
    }
}

/// Expectations on the next token of a stream.
///
/// Each method reads exactly one token and holds it against what is
/// expected. Nothing is looked at ahead of time and nothing is put back: the
/// token is gone whether the expectation is met or not.
///
/// Every method fails with [`Error::Reader`] where the read itself fails.
/// Every method but [`expect_eof`](Expect::expect_eof) fails with
/// [`Error::Eof`] where the stream is used up, which a loop over siblings can
/// take as its signal to stop, and with [`Error::UnexpectedEvent`] on any
/// other token that is not the expected one.
pub trait Expect<'a>: Sealed {
    /// The outcomes of the reads that this stream has yet to make.
    spec fn upcoming(&self) -> Pending;

    /// The text between the tags of an element called `name` whose opening
    /// tag this stream has just read, or `None` where the element is never
    /// closed or its content cannot be decoded.
    spec fn element_text(&self, name: Seq<u8>) -> Option<Seq<char>>;

    /// Expects an element `<name>...</name>` and captures its content.
    ///
    /// On a match the stream is moved past the whole element, up to and
    /// including the tag that closes it, and the text between its tags is
    /// handed out for reading. Elements of the same name inside the content
    /// are counted, so that the tag of an inner one is not taken for the
    /// end. An element that is never closed is malformed input
    /// ([`Error::Reader`]), and so is content that cannot be decoded.
    ///
    /// In the contract, `opened` stands for this stream as it is once the
    /// opening tag has been read.
    fn expect_element(&mut self, name: &str) -> (found: Result<ElementReader<'a, '_>, Error>)
        ensures
            final(self).upcoming() == after_element(old(self).upcoming(), encode_utf8(name@)),
            match start_tag_outcome(old(self).upcoming(), encode_utf8(name@)) {
                Err(failure) => found matches Err(error) && error@ == failure,
                Ok(_) => exists|opened: &Self|
                    #[trigger] opened.upcoming() == old(self).upcoming().skip(1) && captured(
                        found,
                        opened.element_text(encode_utf8(name@)),
                    ),
            },
            found is Ok ==> closing(old(self).upcoming().skip(1), encode_utf8(name@)) is Some,
    ;

    /// Expects an empty element `<name/>`.
    ///
    /// An element with content does not meet it, whatever its name.
    fn expect_empty(&mut self, name: &str) -> (found: Result<(), Error>)
        ensures
            final(self).upcoming() == after_read(old(self).upcoming()),
            agrees(found, empty_tag_outcome(old(self).upcoming(), encode_utf8(name@))),
    ;

    /// Expects the end of the stream.
    ///
    /// Any token in its place is reported with [`Error::UnexpectedEvent`],
    /// never with [`Error::Eof`].
    fn expect_eof(&mut self) -> (found: Result<(), Error>)
        ensures
            final(self).upcoming() == after_read(old(self).upcoming()),
            agrees(found, end_outcome(old(self).upcoming())),
    ;

    /// Expects a text node and hands out its text, decoded and with its
    /// entity references replaced, once.
    ///
    /// Text that holds no entity reference is handed out as it is. Text that
    /// cannot be decoded, or that holds a reference that cannot be replaced,
    /// is malformed input ([`Error::Reader`]).
    fn expect_text(&mut self) -> (found: Result<Cow<'a, str>, Error>)
        ensures
            final(self).upcoming() == after_read(old(self).upcoming()),
            match text_outcome(old(self).upcoming()) {
                Ok(text) => found matches Ok(plain) && plain@ == text,
                Err(failure) => found matches Err(error) && error@ == failure,
            },
            match text_node_outcome(old(self).upcoming()) {
                Ok(content) => is_plain(content) ==> (found matches Ok(plain) && plain@
                    == decode_utf8(content)),
                Err(_) => found is Err,
            },
    ;
}

impl<'a> Expect<'a> for Reader<&'a [u8]> {
    open spec fn upcoming(&self) -> Pending {
        pending(*self)
    }

    open spec fn element_text(&self, name: Seq<u8>) -> Option<Seq<char>> {
        span_text(*self, name)
    }

    fn expect_element(&mut self, name: &str) -> (found: Result<ElementReader<'a, '_>, Error>) {
        let token = match well_formed(next_token(self)) {
            Ok(token) => token,
            Err(error) => { return Err(error); },
        };
        match match_start_tag(token, name) {
            Ok(_) => {},
            Err(error) => { return Err(error); },
        }
        let ghost opened = *self;
        let span = well_formed(read_span(self, name.as_bytes()));
        assert(opened.upcoming() == old(self).upcoming().skip(1));
        match span {
            Ok(span) => Ok(ElementReader { parent: PhantomData, span }),
            Err(error) => Err(error),
        }
    }

    fn expect_empty(&mut self, name: &str) -> (found: Result<(), Error>) {
        match well_formed(next_token(self)) {
            Ok(token) => match_empty_tag(token, name),
            Err(error) => Err(error),
        }
    }

    fn expect_eof(&mut self) -> (found: Result<(), Error>) {
        match well_formed(next_token(self)) {
            Ok(token) => match_end_of_stream(token),
            Err(error) => Err(error),
        }
    }

    fn expect_text(&mut self) -> (found: Result<Cow<'a, str>, Error>) {
        let token = match well_formed(next_token(self)) {
            Ok(token) => token,
            Err(error) => { return Err(error); },
        };
        let content = match match_text(token) {
            Ok(content) => content,
            Err(error) => { return Err(error); },
        };
        let decoded = match well_formed(decode(decoder(self), content.as_slice())) {
            Ok(decoded) => decoded,
            Err(error) => { return Err(error); },
        };
        match well_formed(unescape(decoded.as_str())) {
            Ok(plain) => Ok(Cow::Owned(plain)),
            Err(error) => Err(error),
        }
    }
}

/// The content of an element that [`Expect::expect_element`] has matched,
/// waiting to be read.
///
/// While it lives, the stream it was taken from stays borrowed. It can be
/// read once: reading consumes it.
#[derive(Debug)]
pub struct ElementReader<'a, 'b> {
    parent: PhantomData<&'b mut Reader<&'a [u8]>>,
    span: Cow<'a, str>,
}

impl<'a, 'b> View for ElementReader<'a, 'b> {
    type V = Seq<char>;

    /// The text between the element's tags.
    closed spec fn view(&self) -> Seq<char> {
        self.span@
    }
}

/// Closes the reading of an element's content: `outcome` is what the routine
/// returned, `reader` the stream it was given.
///
/// Where the routine failed, the stream is not touched. Where it returned
/// normally, one more read is made, and only the end of the stream lets the
/// routine's value through.
pub fn conclude<T>(reader: &mut Reader<&[u8]>, outcome: Result<T, Error>) -> (result: Result<T, Error>)
    ensures
        concluded(outcome, pending(*old(reader)), result),
        pending(*final(reader)) == if outcome is Ok {
            after_read(pending(*old(reader)))
        } else {
            pending(*old(reader))
        },
{
    match outcome {
        Err(failure) => Err(Error::from(Box::new(failure))),
        Ok(value) => match well_formed(next_token(reader)) {
            Err(error) => Err(error),
            Ok(token) => match match_end_of_stream(token) {
                Ok(_) => Ok(value),
                Err(Error::UnexpectedEvent(left)) => Err(Error::Unconsumed(left)),
                Err(error) => Err(error),
            },
        },
    }
}

impl ElementReader<'_, '_> {
    /// The captured text, borrowed or owned alike.
    fn text(&self) -> (text: &str)
        ensures
            text@ == self@,
    {
        match &self.span {
            Cow::Borrowed(text) => text,
            Cow::Owned(text) => text.as_str(),
        }
    }

    /// Reads the content of the element.
    ///
    /// `f` is called once, with a fresh stream over the content that trims
    /// the white space around character data. It must read that stream to
    /// its end: where it returns normally and has left a token unread, the
    /// reading fails with [`Error::Unconsumed`]. Where `f` fails, its
    /// failure is handed on inside [`Error::Inner`].
    pub fn read_inner<F, T>(self, mut f: F) -> (result: Result<T, Error>) where
        F: FnMut(&mut Reader<&[u8]>) -> Result<T, Error>,

        requires
            forall|reader: &mut Reader<&[u8]>| call_requires(f, (reader,)),
        ensures
            exists|reader: &mut Reader<&[u8]>, outcome: Result<T, Error>|
                #[trigger] call_ensures(f, (reader,), outcome) && pending(*reader) == trimmed(
                    lexed(self@),
                ) && concluded(outcome, pending(*final(reader)), result),
    {
        let mut reader = from_str(self.text());
        trim_text(&mut reader);
        let outcome = f(&mut reader);
        conclude(&mut reader, outcome)
    }
}

/// A stream that begins with the empty tag `<name/>` meets the expectation
/// of that empty tag, which takes exactly that token. The expectation of an
/// element of the same name fails on it, with the token and not with the end
/// of the input, and takes exactly that token too.
pub proof fn empty_tag_meets_only_its_own_expectation(s: Pending, name: Seq<u8>)
    requires
        s.len() > 0,
        s[0] == Some(TokenView::EmptyTag { name }),
    ensures
        empty_tag_outcome(s, name) == Ok::<(), ErrorView>(()),
        start_tag_outcome(s, name) == Err::<(), ErrorView>(
            ErrorView::UnexpectedEvent(TokenView::EmptyTag { name }),
        ),
        after_read(s) == s.skip(1),
        after_element(s, name) == s.skip(1),
{
}

/// An element is passed whole: where a stream begins with the opening tag of
/// an element called `name`, goes on with its content and the tag that
/// closes it, the expectation of that element leaves exactly what follows.
///
/// `inner` is the content together with the closing tag.
pub proof fn element_is_passed_whole(inner: Pending, rest: Pending, name: Seq<u8>)
    requires
        closing(inner, name) == Some(inner.len() - 1),
    ensures
        start_tag_outcome(seq![Some(TokenView::StartTag { name })] + inner + rest, name) == Ok::<
            (),
            ErrorView,
        >(()),
        after_element(seq![Some(TokenView::StartTag { name })] + inner + rest, name) == rest,
{
    let s = seq![Some(TokenView::StartTag { name })] + inner + rest;
    assert(s.skip(1) =~= inner + rest);
    closing_ignores_what_follows(inner, rest, name);
}

/// Every expectation takes at least one token from a stream that is not used
/// up, so that a loop of expectations comes to the end of the stream.
pub proof fn expectations_make_progress(s: Pending, name: Seq<u8>)
    requires
        s.len() > 0,
    ensures
        after_read(s).len() < s.len(),
        after_element(s, name).len() < s.len(),
{
    if closing(s.skip(1), name) is Some {
        closing_is_a_closing_tag(s.skip(1), name);
    }
}

/// On a stream that is used up, the expectation of the end of the stream is
/// met, every other expectation fails with the end of the input, whatever
/// name it asks for, and the stream stays used up.
pub proof fn exhausted_stream_meets_only_the_end(s: Pending, name: Seq<u8>)
    requires
        s.len() == 0,
    ensures
        end_outcome(s) == Ok::<(), ErrorView>(()),
        start_tag_outcome(s, name) == Err::<(), ErrorView>(ErrorView::Eof),
        empty_tag_outcome(s, name) == Err::<(), ErrorView>(ErrorView::Eof),
        text_outcome(s) == Err::<Seq<char>, ErrorView>(ErrorView::Eof),
        after_read(s) == s,
        after_element(s, name) == s,
{
}

/// The expectation of the end of the stream is never answered with the end
/// of the input: it is met, or it fails on what it found.
pub proof fn end_is_never_missed(s: Pending)
    ensures
        end_outcome(s) != Err::<(), ErrorView>(ErrorView::Eof),
        end_outcome(s) is Ok <==> s.len() == 0,
{
}

/// A routine that returns normally and leaves its stream short of the end
/// makes the reading of the element fail: its value is not handed out.
pub proof fn unread_content_fails<T>(value: T, left: Pending, result: Result<T, Error>)
    requires
        left.len() > 0,
        concluded(Ok(value), left, result),
    ensures
        match left[0] {
            Some(token) => result matches Err(error) && error@ == ErrorView::Unconsumed(token),
            None => result matches Err(error) && error@ == ErrorView::Reader,
        },
{
}

/// A routine that reads its stream to the end and returns normally has its
/// value handed out as it is; a routine that fails has its failure handed
/// out, marked as its own, whatever it left unread. A value is handed out in
/// no other case: after a successful reading the stream is at its end.
pub proof fn outcome_is_handed_on<T>(outcome: Result<T, Error>, left: Pending, result: Result<T, Error>)
    requires
        concluded(outcome, left, result),
    ensures
        outcome is Ok && left.len() == 0 ==> result == outcome,
        outcome matches Err(failure) ==> result matches Err(error) && error@ == ErrorView::Inner(
            Box::new(failure@),
        ),
        result is Ok ==> result == outcome && left.len() == 0,
{
}

/// What an expectation makes of a stream is what its rule makes of the token
/// at the front, and of the end of the stream where nothing is left.
pub proof fn outcomes_follow_the_rules(s: Pending, name: Seq<u8>)
    requires
        s.len() > 0 ==> s[0] is Some && s[0] != Some(TokenView::EndOfStream),
    ensures
        start_tag_outcome(s, name) == start_tag_rule(front(s), name),
        empty_tag_outcome(s, name) == empty_tag_rule(front(s), name),
        end_outcome(s) == end_of_stream_rule(front(s)),
        text_node_outcome(s) == text_rule(front(s)),
{
}

} // verus!
