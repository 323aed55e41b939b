//! The vocabulary of the token stream.
//!
//! A [`Token`] is one unit of markup as the tokenizer hands it out. It owns its
//! bytes, so it outlives the input it was cut from and can travel inside an
//! error. Contracts speak of tokens through their view, [`TokenView`], in which
//! names and text are plain byte sequences.

use vstd::prelude::*;

verus! {

/// One unit of markup, or the end of the input.
#[derive(Debug, PartialEq, Eq)]
pub enum Token {
    /// `<name ...>`: the opening tag of an element that has content.
    StartTag {
        /// The tag's name as it stands in the input, undecoded.
        name: Vec<u8>,
    },
    /// `<name .../>`: an element without content.
    EmptyTag {
        /// The tag's name as it stands in the input, undecoded.
        name: Vec<u8>,
    },
    /// `</name>`: the closing tag of an element.
    EndTag {
        /// The tag's name as it stands in the input, undecoded.
        name: Vec<u8>,
    },
    /// Character data between tags.
    Text {
        /// The text as it stands in the input: undecoded, entity references
        /// not yet replaced.
        content: Vec<u8>,
    },
    /// A `<![CDATA[...]]>` section.
    CData,
    /// A `<!-- ... -->` comment.
    Comment,
    /// The `<?xml ...?>` declaration.
    Decl,
    /// A `<?...?>` processing instruction.
    PI,
    /// A `<!DOCTYPE ...>` declaration.
    DocType,
    /// The input is used up.
    EndOfStream,
}

/// The mathematical value of a [`Token`].
pub enum TokenView {
    StartTag { name: Seq<u8> },
    EmptyTag { name: Seq<u8> },
    EndTag { name: Seq<u8> },
    Text { content: Seq<u8> },
    CData,
    Comment,
    Decl,
    PI,
    DocType,
    EndOfStream,
}

impl View for Token {
    type V = TokenView;

    open spec fn view(&self) -> TokenView {
        match self {
            Token::StartTag { name } => TokenView::StartTag { name: name@ },
            Token::EmptyTag { name } => TokenView::EmptyTag { name: name@ },
            Token::EndTag { name } => TokenView::EndTag { name: name@ },
            Token::Text { content } => TokenView::Text { content: content@ },
            Token::CData => TokenView::CData,
            Token::Comment => TokenView::Comment,
            Token::Decl => TokenView::Decl,
            Token::PI => TokenView::PI,
            Token::DocType => TokenView::DocType,
            Token::EndOfStream => TokenView::EndOfStream,
        }
    }
}

impl Clone for Token {
    fn clone(&self) -> (copy: Self)
        ensures
            copy@ == self@,
    {
        match self {
            Token::StartTag { name } => Token::StartTag { name: name.clone() },
            Token::EmptyTag { name } => Token::EmptyTag { name: name.clone() },
            Token::EndTag { name } => Token::EndTag { name: name.clone() },
            Token::Text { content } => Token::Text { content: content.clone() },
            Token::CData => Token::CData,
            Token::Comment => Token::Comment,
            Token::Decl => Token::Decl,
            Token::PI => Token::PI,
            Token::DocType => Token::DocType,
            Token::EndOfStream => Token::EndOfStream,
        }
    }
}

impl TokenView {
    /// Whether this is the opening tag of an element called `name`.
    pub open spec fn opens(self, name: Seq<u8>) -> bool {
        self == (TokenView::StartTag { name })
    }

    /// Whether this is the closing tag of an element called `name`.
    pub open spec fn closes(self, name: Seq<u8>) -> bool {
        self == (TokenView::EndTag { name })
    }

    /// Whether this is the tag of a content-free element called `name`.
    pub open spec fn is_empty_element(self, name: Seq<u8>) -> bool {
        self == (TokenView::EmptyTag { name })
    }
}

/// Compares two byte strings.
pub fn same_bytes(a: &[u8], b: &[u8]) -> (same: bool)
    ensures
        same == (a@ == b@),
{
    if a.len() != b.len() {
        return false;
    }
    let mut i: usize = 0;
    while i < a.len()
        invariant
            a@.len() == b@.len(),
            i <= a@.len(),
            forall|j: int| 0 <= j < i ==> a@[j] == b@[j],
        decreases a@.len() - i,
    {
        if a[i] != b[i] {
            return false;
        }
        i += 1;
    }
    assert(a@ =~= b@);
    true
}

} // verus!
