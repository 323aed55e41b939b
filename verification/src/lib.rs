//! Structured traversal of XML on top of a pull tokenizer.
//!
//! A caller describes the shape it expects of a document as a sequence of
//! expectations on a token stream: this start tag, this empty tag, a text
//! node, the end of the stream. Each expectation reads one token and either
//! is met or says why not. An element that has content is captured whole and
//! handed out as a stream of its own, which the caller reads with the same
//! expectations and must read to its end.
//!
//! The expectations are the methods of [`Expect`]; the captured content of an
//! element is an [`ElementReader`].
//!
//! ```
//! use xmhell::{quick_xml::Reader, Error, Expect};
//!
//! fn count_bars(input: &str) -> Result<usize, Error> {
//!     let mut bars = 0;
//!     let mut reader = Reader::from_str(input);
//!     reader.trim_text(true);
//!     reader.expect_element("root")?.read_inner(|reader| {
//!         reader.expect_element("foo")?.read_inner(|reader| {
//!             while let Ok(()) = reader.expect_empty("bar") {
//!                 bars += 1;
//!             }
//!             Ok(())
//!         })
//!     })?;
//!     reader.expect_eof()?;
//!     Ok(bars)
//! }
//!
//! assert_eq!(count_bars("<root><foo><bar/><bar/></foo></root>").unwrap(), 2);
//! ```
//!
//! # What is proved, and what is taken on trust
//!
//! Contracts speak of a stream through the outcomes of the reads it has yet
//! to make ([`stream::Pending`]). The matching rules ([`matcher`]), the
//! search for the tag that closes an element ([`nesting`]) and the handling
//! of what a reading routine returns and leaves behind ([`expect`]) are
//! stated over that model and proved. The tokenizer itself is not: what is
//! relied on of it is written down in [`tokenizer`], and nowhere else.

pub use quick_xml;

pub mod error;
pub mod expect;
pub mod matcher;
pub mod nesting;
mod sealed;
pub mod stream;
pub mod token;
pub mod tokenizer;

pub use self::error::Error;
pub use self::expect::{ElementReader, Expect};
pub use self::token::Token;
