use xmhell::error::Error;
use xmhell::expect::conclude;
use xmhell::matcher::{
    match_empty_tag, match_end_of_stream, match_start_tag, match_text, well_formed,
};
use xmhell::quick_xml::Reader;
use xmhell::token::{same_bytes, Token};

fn start(name: &str) -> Token {
    Token::StartTag { name: name.as_bytes().to_vec() }
}

fn empty(name: &str) -> Token {
    Token::EmptyTag { name: name.as_bytes().to_vec() }
}

fn end(name: &str) -> Token {
    Token::EndTag { name: name.as_bytes().to_vec() }
}

fn text(content: &str) -> Token {
    Token::Text { content: content.as_bytes().to_vec() }
}

fn others() -> Vec<Token> {
    vec![Token::CData, Token::Comment, Token::Decl, Token::PI, Token::DocType]
}

fn unexpected<T: std::fmt::Debug>(verdict: Result<T, Error>) -> Token {
    match verdict {
        Err(Error::UnexpectedEvent(token)) => token,
        other => panic!("not an unexpected token: {:?}", other),
    }
}

#[test]
fn start_tag_rule_matches_the_name() {
    assert!(match_start_tag(start("a"), "a").is_ok());
    assert!(match_start_tag(start("ns:a"), "ns:a").is_ok());
    assert!(match_start_tag(start(""), "").is_ok());
}

#[test]
fn start_tag_rule_rejects_other_names() {
    assert_eq!(unexpected(match_start_tag(start("a"), "b")), start("a"));
    assert_eq!(unexpected(match_start_tag(start("a"), "A")), start("a"));
    assert_eq!(unexpected(match_start_tag(start("a"), "ab")), start("a"));
    assert_eq!(unexpected(match_start_tag(start("ab"), "a")), start("ab"));
    assert_eq!(unexpected(match_start_tag(start("a"), "")), start("a"));
}

#[test]
fn start_tag_rule_rejects_other_kinds() {
    assert_eq!(unexpected(match_start_tag(empty("a"), "a")), empty("a"));
    assert_eq!(unexpected(match_start_tag(end("a"), "a")), end("a"));
    assert_eq!(unexpected(match_start_tag(text("a"), "a")), text("a"));
    for token in others() {
        assert_eq!(unexpected(match_start_tag(token.clone(), "a")), token);
    }
}

#[test]
fn start_tag_rule_tells_the_end_of_the_input() {
    assert!(matches!(match_start_tag(Token::EndOfStream, "a"), Err(Error::Eof)));
}

#[test]
fn empty_tag_rule_matches_the_name() {
    assert!(match_empty_tag(empty("b"), "b").is_ok());
    assert!(match_empty_tag(empty("größe"), "größe").is_ok());
}

#[test]
fn empty_tag_rule_rejects_other_names_and_kinds() {
    assert_eq!(unexpected(match_empty_tag(empty("b"), "c")), empty("b"));
    assert_eq!(unexpected(match_empty_tag(start("b"), "b")), start("b"));
    assert_eq!(unexpected(match_empty_tag(end("b"), "b")), end("b"));
    assert_eq!(unexpected(match_empty_tag(text("b"), "b")), text("b"));
    for token in others() {
        assert_eq!(unexpected(match_empty_tag(token.clone(), "b")), token);
    }
}

#[test]
fn empty_tag_rule_tells_the_end_of_the_input() {
    assert!(matches!(match_empty_tag(Token::EndOfStream, "b"), Err(Error::Eof)));
}

#[test]
fn end_of_stream_rule_matches_only_the_end() {
    assert!(match_end_of_stream(Token::EndOfStream).is_ok());
    assert_eq!(unexpected(match_end_of_stream(start("a"))), start("a"));
    assert_eq!(unexpected(match_end_of_stream(empty("a"))), empty("a"));
    assert_eq!(unexpected(match_end_of_stream(end("a"))), end("a"));
    assert_eq!(unexpected(match_end_of_stream(text("a"))), text("a"));
    for token in others() {
        assert_eq!(unexpected(match_end_of_stream(token.clone())), token);
    }
}

#[test]
fn text_rule_hands_out_the_raw_text() {
    assert_eq!(match_text(text("a &gt; b")).unwrap(), b"a &gt; b".to_vec());
    assert_eq!(match_text(text("")).unwrap(), Vec::<u8>::new());
    assert_eq!(match_text(Token::Text { content: vec![0xff, 0x00] }).unwrap(), vec![0xff, 0x00]);
}

#[test]
fn text_rule_rejects_other_kinds() {
    assert_eq!(unexpected(match_text(start("a"))), start("a"));
    assert_eq!(unexpected(match_text(empty("a"))), empty("a"));
    assert_eq!(unexpected(match_text(end("a"))), end("a"));
    for token in others() {
        assert_eq!(unexpected(match_text(token.clone())), token);
    }
    assert!(matches!(match_text(Token::EndOfStream), Err(Error::Eof)));
}

#[test]
fn tokenizer_failure_is_malformed_input() {
    let failed: Result<u8, xmhell::quick_xml::Error> = Err(xmhell::quick_xml::Error::TextNotFound);
    assert!(matches!(
        well_formed(failed),
        Err(Error::Reader(xmhell::quick_xml::Error::TextNotFound))
    ));
    let fine: Result<u8, xmhell::quick_xml::Error> = Ok(9);
    assert_eq!(well_formed(fine).unwrap(), 9);
}

#[test]
fn errors_are_made_from_their_causes() {
    assert!(matches!(
        Error::from(xmhell::quick_xml::Error::EmptyDocType),
        Error::Reader(xmhell::quick_xml::Error::EmptyDocType)
    ));
    match Error::from(Box::new(Error::Eof)) {
        Error::Inner(inner) => assert!(matches!(*inner, Error::Eof)),
        other => panic!("unexpected error: {:?}", other),
    }
    match Error::unexpected_event(text("x")) {
        Error::UnexpectedEvent(token) => assert_eq!(token, text("x")),
        other => panic!("unexpected error: {:?}", other),
    }
}

#[test]
fn bytes_are_compared_in_full() {
    assert!(same_bytes(b"", b""));
    assert!(same_bytes(b"abc", b"abc"));
    assert!(!same_bytes(b"abc", b"abd"));
    assert!(!same_bytes(b"abc", b"ab"));
    assert!(!same_bytes(b"ab", b"abc"));
    assert!(!same_bytes(b"", b"a"));
    assert!(!same_bytes(b"xbc", b"abc"));
}

#[test]
fn tokens_are_cloned_whole() {
    let mut all = vec![start("a"), empty("b"), end("c"), text("d e"), Token::EndOfStream];
    all.extend(others());
    for token in all {
        assert_eq!(token.clone(), token);
    }
    assert_ne!(start("a"), empty("a"));
    assert_ne!(start("a"), start("b"));
}

#[test]
fn conclude_lets_a_value_through_at_the_end() {
    let mut reader = Reader::from_str("");
    assert_eq!(conclude(&mut reader, Ok(41)).unwrap(), 41);
}

#[test]
fn conclude_reports_what_is_left() {
    let mut reader = Reader::from_str("<y/><z/>");
    match conclude(&mut reader, Ok(41)) {
        Err(Error::Unconsumed(token)) => assert_eq!(token, empty("y")),
        other => panic!("unexpected result: {:?}", other),
    }
    // One read was made, no more.
    assert!(matches!(conclude(&mut reader, Ok(1)), Err(Error::Unconsumed(Token::EmptyTag { .. }))));
    assert_eq!(conclude(&mut reader, Ok(2)).unwrap(), 2);
}

#[test]
fn conclude_reports_malformed_leftover() {
    let mut reader = Reader::from_str("<y");
    assert!(matches!(conclude(&mut reader, Ok(1)), Err(Error::Reader(_))));
}

#[test]
fn conclude_hands_a_failure_on_without_reading() {
    let mut reader = Reader::from_str("<y/>");
    let failed: Result<u8, Error> = Err(Error::UnexpectedEvent(text("t")));
    match conclude(&mut reader, failed) {
        Err(Error::Inner(inner)) => match *inner {
            Error::UnexpectedEvent(token) => assert_eq!(token, text("t")),
            other => panic!("wrong inner failure: {:?}", other),
        },
        other => panic!("unexpected result: {:?}", other),
    }
    // The stream was not touched.
    match conclude(&mut reader, Ok(0)) {
        Err(Error::Unconsumed(token)) => assert_eq!(token, empty("y")),
        other => panic!("unexpected result: {:?}", other),
    }
}
