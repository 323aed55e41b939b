//! The boundary to the tokenizer.
//!
//! Everything in this module is taken on trust: the outside types are
//! declared, what the tokenizer computes is given a name, and each call into
//! it stands in a small function whose contract says what the call is relied
//! on to do. Nothing else in the library is assumed.

use vstd::prelude::*;
use vstd::utf8::{decode_utf8, valid_utf8};
use quick_xml::encoding::Decoder;
use quick_xml::events::Event;
use quick_xml::name::QName;
use quick_xml::Error as XmlError;
use quick_xml::Reader;
use std::borrow::Cow;
use crate::nesting::closing;
use crate::stream::{after_read, trimmed};
use crate::token::{Token, TokenView};

verus! {

/// The tokenizer's reader, generic over where its bytes come from.
#[verifier::external_type_specification]
#[verifier::external_body]
#[verifier::reject_recursive_types(R)]
pub struct ExReader<R>(Reader<R>);

/// The tokenizer's error.
#[verifier::external_type_specification]
#[verifier::external_body]
pub struct ExXmlError(XmlError);

/// The tokenizer's decoder of bytes into text.
#[verifier::external_type_specification]
#[verifier::external_body]
pub struct ExDecoder(Decoder);

/// The outcomes of the reads that `reader` has yet to make before it reports
/// the end of its input: `Some` for each token, `None` for a read that fails.
pub uninterp spec fn pending(reader: Reader<&[u8]>) -> Seq<Option<TokenView>>;

/// The text that [`Reader::read_text`] hands out for the element called
/// `name` when called on `reader`, or `None` where that call fails.
pub uninterp spec fn span_text(reader: Reader<&[u8]>, name: Seq<u8>) -> Option<Seq<char>>;

/// What a reader over `text` has yet to read when it has just been made.
pub uninterp spec fn lexed(text: Seq<char>) -> Seq<Option<TokenView>>;

/// `text` with its entity references replaced, as
/// [`quick_xml::escape::unescape`] computes it, or `None` where `text` holds a
/// reference that cannot be replaced.
pub uninterp spec fn unescaped(text: Seq<char>) -> Option<Seq<char>>;

/// Calls [`Reader::read_event`] and copies the event into a [`Token`].
///
/// Relied on: the call hands out the first of the pending outcomes and takes
/// it off the stream; at the end of the input it reports the end of the
/// stream and changes nothing; after a failure nothing more can be read.
#[verifier::external_body]
pub(crate) fn next_token(reader: &mut Reader<&[u8]>) -> (read: Result<Token, XmlError>)
    ensures
        pending(*final(reader)) == after_read(pending(*old(reader))),
        match read {
            Ok(token) => if token@ is EndOfStream {
                pending(*old(reader)).len() == 0
            } else {
                pending(*old(reader)).len() > 0 && pending(*old(reader))[0] == Some(token@)
            },
            Err(_) => pending(*old(reader)).len() > 0 && pending(*old(reader))[0] is None,
        },
{
    Ok(match reader.read_event()? {
        Event::Start(e) => Token::StartTag { name: e.name().0.to_vec() },
        Event::Empty(e) => Token::EmptyTag { name: e.name().0.to_vec() },
        Event::End(e) => Token::EndTag { name: e.name().0.to_vec() },
        Event::Text(e) => Token::Text { content: e.into_inner().into_owned() },
        Event::CData(_) => Token::CData,
        Event::Comment(_) => Token::Comment,
        Event::Decl(_) => Token::Decl,
        Event::PI(_) => Token::PI,
        Event::DocType(_) => Token::DocType,
        Event::Eof => Token::EndOfStream,
    })
}

/// Calls [`Reader::read_text`] for an element called `name` whose opening tag
/// has just been read.
///
/// Relied on: the call reads up to and including the tag that closes the
/// element, counting elements of the same name that open and close on the
/// way; where the stream ends or fails before that tag it fails, and nothing
/// more can be read. What it hands out is named by [`span_text`].
#[verifier::external_body]
pub(crate) fn read_span<'a>(reader: &mut Reader<&'a [u8]>, name: &[u8]) -> (span: Result<
    Cow<'a, str>,
    XmlError,
>)
    ensures
        match closing(pending(*old(reader)), name@) {
            Some(at) => pending(*final(reader)) == pending(*old(reader)).skip(at + 1),
            None => span is Err && pending(*final(reader)).len() == 0,
        },
        match span {
            Ok(text) => span_text(*old(reader), name@) == Some(text@),
            Err(_) => span_text(*old(reader), name@) is None,
        },
{
    reader.read_text(QName(name))
}

/// Calls [`Reader::from_str`].
///
/// Relied on: what the new reader will read depends on `text` alone; it is
/// named by [`lexed`].
#[verifier::external_body]
pub(crate) fn from_str<'a>(text: &'a str) -> (reader: Reader<&'a [u8]>)
    ensures
        pending(reader) == lexed(text@),
{
    Reader::from_str(text)
}

/// Calls [`Reader::trim_text`] to switch on the trimming of white space
/// around character data.
///
/// Relied on: from then on every text node is handed out without the white
/// space around it, and one that holds nothing else is not handed out at
/// all; nothing else changes in what the reader will read.
#[verifier::external_body]
pub(crate) fn trim_text(reader: &mut Reader<&[u8]>)
    ensures
        pending(*final(reader)) == trimmed(pending(*old(reader))),
{
    reader.trim_text(true);
}

/// Calls [`Reader::decoder`]. Nothing is relied on of the decoder but what
/// [`decode`] states of every decoder.
#[verifier::external_body]
pub(crate) fn decoder(reader: &Reader<&[u8]>) -> Decoder {
    reader.decoder()
}

/// Calls [`Decoder::decode`].
///
/// Relied on: the decoder reads UTF-8, whatever the document declares; it
/// fails exactly on bytes that are not UTF-8.
#[verifier::external_body]
pub(crate) fn decode(decoder: Decoder, bytes: &[u8]) -> (text: Result<String, XmlError>)
    ensures
        match text {
            Ok(s) => valid_utf8(bytes@) && s@ == decode_utf8(bytes@),
            Err(_) => !valid_utf8(bytes@),
        },
{
    Ok(decoder.decode(bytes)?.into_owned())
}

/// Calls [`quick_xml::escape::unescape`].
///
/// Relied on: the result depends on `text` alone and is named by
/// [`unescaped`]; a text without `&` holds no entity reference and comes back
/// as it is.
#[verifier::external_body]
pub(crate) fn unescape(text: &str) -> (plain: Result<String, XmlError>)
    ensures
        match plain {
            Ok(s) => unescaped(text@) == Some(s@),
            Err(_) => unescaped(text@) is None,
        },
        !text@.contains('&') ==> plain is Ok && plain->Ok_0@ == text@,
{
    Ok(quick_xml::escape::unescape(text)?.into_owned())
}

} // verus!
