//! The mathematical model of a token stream.
//!
//! A stream is described by the outcomes of the reads that are still to come:
//! `Some(token)` for a read that hands out a token, `None` for a read that
//! fails because the input is malformed at that point. The end of the input is
//! no entry: a stream at its end is the empty sequence, and every read on it
//! reports the end of the stream.

use vstd::prelude::*;
use crate::token::TokenView;

verus! {

/// The outcomes of the reads that a stream has yet to make.
pub type Pending = Seq<Option<TokenView>>;

/// The token that the next read on a stream hands out, where that read does
/// not fail: the token at the front, or the end of the stream where nothing
/// is left.
pub open spec fn front(s: Pending) -> TokenView {
    if s.len() > 0 && s[0] is Some {
        s[0]->0
    } else {
        TokenView::EndOfStream
    }
}

/// What is left of a stream once one read has been made.
///
/// A token is taken off the front. A failed read ends the stream: nothing can
/// be read after it.
pub open spec fn after_read(s: Pending) -> Pending {
    if s.len() > 0 && s[0] is Some {
        s.skip(1)
    } else {
        Seq::empty()
    }
}

/// Whether `byte` is white space in the sense of XML: a blank, a tab, a line
/// feed or a carriage return.
pub open spec fn is_space(byte: u8) -> bool {
    byte == 0x20 || byte == 0x09 || byte == 0x0a || byte == 0x0d
}

/// `text` without the white space it begins with.
pub open spec fn trim_front(text: Seq<u8>) -> Seq<u8>
    decreases text.len(),
{
    if text.len() > 0 && is_space(text[0]) {
        trim_front(text.skip(1))
    } else {
        text
    }
}

/// `text` without the white space it ends with.
pub open spec fn trim_back(text: Seq<u8>) -> Seq<u8>
    decreases text.len(),
{
    if text.len() > 0 && is_space(text.last()) {
        trim_back(text.drop_last())
    } else {
        text
    }
}

/// `text` without the white space around it.
pub open spec fn trim(text: Seq<u8>) -> Seq<u8> {
    trim_back(trim_front(text))
}

/// The stream `s` as a reader sees it that trims the white space around
/// character data: each text node is trimmed, and one that holds nothing but
/// white space is not handed out at all. Everything else is as it was.
pub open spec fn trimmed(s: Pending) -> Pending
    decreases s.len(),
{
    if s.len() == 0 {
        s
    } else {
        match s[0] {
            Some(TokenView::Text { content }) => if trim(content).len() == 0 {
                trimmed(s.skip(1))
            } else {
                seq![Some(TokenView::Text { content: trim(content) })] + trimmed(s.skip(1))
            },
            other => seq![other] + trimmed(s.skip(1)),
        }
    }
}

/// Whether `text` neither begins nor ends with white space and is not empty.
pub open spec fn is_trimmed(text: Seq<u8>) -> bool {
    text.len() > 0 && !is_space(text[0]) && !is_space(text.last())
}

/// Trimming at the front leaves a part of the text that does not begin with
/// white space, and takes nothing from a text that does not begin with it.
pub proof fn trim_front_is_a_tail(text: Seq<u8>)
    ensures
        trim_front(text).len() <= text.len(),
        trim_front(text) == text.skip(text.len() - trim_front(text).len()),
        trim_front(text).len() > 0 ==> !is_space(trim_front(text)[0]),
        forall|i: int| 0 <= i < text.len() - trim_front(text).len() ==> is_space(#[trigger] text[i]),
    decreases text.len(),
{
    if text.len() > 0 && is_space(text[0]) {
        let tail = text.skip(1);
        trim_front_is_a_tail(tail);
        let kept = trim_front(tail).len();
        assert forall|i: int| 0 <= i < text.len() - kept implies is_space(#[trigger] text[i]) by {
            if i > 0 {
                assert(text[i] == tail[i - 1]);
            }
        }
    }
}

/// Trimming at the back leaves a part of the text that does not end with
/// white space, and keeps how the text begins.
pub proof fn trim_back_is_a_head(text: Seq<u8>)
    ensures
        trim_back(text).len() <= text.len(),
        trim_back(text) == text.take(trim_back(text).len() as int),
        trim_back(text).len() > 0 ==> !is_space(trim_back(text).last()),
    decreases text.len(),
{
    if text.len() > 0 && is_space(text.last()) {
        trim_back_is_a_head(text.drop_last());
    }
}

/// What trimming leaves of a text is empty or trimmed.
pub proof fn trim_leaves_trimmed_text(text: Seq<u8>)
    ensures
        trim(text).len() == 0 || is_trimmed(trim(text)),
{
    trim_front_is_a_tail(text);
    trim_back_is_a_head(trim_front(text));
}

/// Trimming takes nothing from a text that is trimmed.
pub proof fn trim_keeps_trimmed_text(text: Seq<u8>)
    requires
        is_trimmed(text),
    ensures
        trim(text) == text,
{
}

/// In a trimmed stream every text node is trimmed: none is empty, none
/// begins or ends with white space.
pub proof fn trimmed_stream_holds_trimmed_text(s: Pending, at: int)
    requires
        0 <= at < trimmed(s).len(),
    ensures
        trimmed(s)[at] matches Some(TokenView::Text { content }) ==> is_trimmed(content),
    decreases s.len(),
{
    if s.len() > 0 {
        match s[0] {
            Some(TokenView::Text { content }) => {
                trim_leaves_trimmed_text(content);
                if trim(content).len() == 0 {
                    trimmed_stream_holds_trimmed_text(s.skip(1), at);
                } else if at > 0 {
                    trimmed_stream_holds_trimmed_text(s.skip(1), at - 1);
                }
            },
            _ => {
                if at > 0 {
                    trimmed_stream_holds_trimmed_text(s.skip(1), at - 1);
                }
            },
        }
    }
}

/// Trimming a stream twice is trimming it once.
pub proof fn trimmed_is_idempotent(s: Pending)
    ensures
        trimmed(trimmed(s)) == trimmed(s),
    decreases s.len(),
{
    if s.len() > 0 {
        let rest = trimmed(s.skip(1));
        trimmed_is_idempotent(s.skip(1));
        match s[0] {
            Some(TokenView::Text { content }) => {
                if trim(content).len() > 0 {
                    let kept = Some(TokenView::Text { content: trim(content) });
                    trim_leaves_trimmed_text(content);
                    trim_keeps_trimmed_text(trim(content));
                    assert((seq![kept] + rest).skip(1) =~= rest);
                }
            },
            other => {
                assert((seq![other] + rest).skip(1) =~= rest);
            },
        }
    }
}

} // verus!
