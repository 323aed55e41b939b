//! The stream model held against the tokenizer on every small document.

use xmhell::quick_xml::Reader;
use xmhell::{Error, Expect, Token};

/// Reads `reader` to its end: each token in turn, `None` for a read that
/// fails. After a failed read the stream must be at its end.
fn drain(reader: &mut Reader<&[u8]>) -> Vec<Option<Token>> {
    let mut seen = Vec::new();
    loop {
        match reader.expect_eof() {
            Ok(()) => break,
            Err(Error::UnexpectedEvent(token)) => seen.push(Some(token)),
            Err(Error::Reader(_)) => {
                seen.push(None);
                assert!(reader.expect_eof().is_ok(), "a read succeeded after a failed one");
                break;
            }
            Err(other) => panic!("unexpected failure: {:?}", other),
        }
    }
    // A stream at its end stays there.
    assert!(reader.expect_eof().is_ok());
    assert!(matches!(reader.expect_text(), Err(Error::Eof)));
    seen
}

/// Every document made of up to `length` of the `pieces`.
fn documents(pieces: &[&str], length: usize) -> Vec<String> {
    let mut all = vec![String::new()];
    let mut last = vec![String::new()];
    for _ in 0..length {
        let mut next = Vec::new();
        for document in &last {
            for piece in pieces {
                next.push(format!("{}{}", document, piece));
            }
        }
        all.extend(next.iter().cloned());
        last = next;
    }
    all
}

fn is_space(byte: u8) -> bool {
    byte == b' ' || byte == b'\t' || byte == b'\n' || byte == b'\r'
}

fn trim(text: &[u8]) -> Vec<u8> {
    let mut from = 0;
    while from < text.len() && is_space(text[from]) {
        from += 1;
    }
    let mut to = text.len();
    while to > from && is_space(text[to - 1]) {
        to -= 1;
    }
    text[from..to].to_vec()
}

fn trimmed(stream: &[Option<Token>]) -> Vec<Option<Token>> {
    let mut kept = Vec::new();
    for entry in stream {
        match entry {
            Some(Token::Text { content }) => {
                let content = trim(content);
                if !content.is_empty() {
                    kept.push(Some(Token::Text { content }));
                }
            }
            other => kept.push(other.clone()),
        }
    }
    kept
}

/// The position of the tag that closes an element called `name` whose
/// content `stream` begins with.
fn closing(stream: &[Option<Token>], name: &[u8]) -> Option<usize> {
    let mut depth = 0;
    for (at, entry) in stream.iter().enumerate() {
        match entry {
            None => return None,
            Some(Token::StartTag { name: found }) if found == name => depth += 1,
            Some(Token::EndTag { name: found }) if found == name => {
                if depth == 0 {
                    return Some(at);
                }
                depth -= 1;
            }
            Some(_) => {}
        }
    }
    None
}

#[test]
fn trimming_reader_reads_the_trimmed_stream() {
    let pieces = ["<a>", "</a>", "<b/>", "x", " ", "\n", "y\t", "<!-- c -->", "&amp;"];
    for document in documents(&pieces, 5) {
        let plain = drain(&mut Reader::from_str(&document));
        let mut trimming = Reader::from_str(&document);
        trimming.trim_text(true);
        assert_eq!(drain(&mut trimming), trimmed(&plain), "document {:?}", document);
    }
}

#[test]
fn trimming_can_be_switched_on_at_any_time() {
    let pieces = ["<a>", "</a>", " ", "x ", "<b/>", "\r\n"];
    for document in documents(&pieces, 5) {
        for reads in 0..4 {
            let mut plain = Reader::from_str(&document);
            let mut switched = Reader::from_str(&document);
            for _ in 0..reads {
                let _ = plain.expect_eof();
                let _ = switched.expect_eof();
            }
            switched.trim_text(true);
            let expected = trimmed(&drain(&mut plain));
            assert_eq!(drain(&mut switched), expected, "document {:?}", document);
        }
    }
}

#[test]
fn element_ends_at_the_closing_tag_of_the_model() {
    let pieces = ["<r>", "</r>", "<s>", "</s>", "<r/>", "x", " ", "<!--c-->"];
    for trim_text in [false, true] {
        for document in documents(&pieces, 5) {
            let input = format!("<r>{}", document);

            let mut model = Reader::from_str(&input);
            model.trim_text(trim_text);
            let stream = drain(&mut model);
            assert_eq!(stream[0], Some(Token::StartTag { name: b"r".to_vec() }));
            let content = &stream[1..];

            let mut reader = Reader::from_str(&input);
            reader.trim_text(trim_text);
            let found = reader.expect_element("r").map(|_| ());
            let left = drain(&mut reader);
            match closing(content, b"r") {
                Some(at) => {
                    assert!(found.is_ok(), "input {:?}", input);
                    assert_eq!(left, content[at + 1..].to_vec(), "input {:?}", input);
                }
                None => {
                    assert!(matches!(found, Err(Error::Reader(_))), "input {:?}", input);
                    assert!(left.is_empty(), "input {:?}", input);
                }
            }
        }
    }
}

#[test]
fn element_ends_at_the_closing_tag_when_end_names_are_not_checked() {
    let pieces = ["<r>", "</r>", "<s>", "</s>", "<r/>", "x"];
    for document in documents(&pieces, 5) {
        let input = format!("<r>{}", document);

        let mut model = Reader::from_str(&input);
        model.check_end_names(false);
        let stream = drain(&mut model);
        let content = &stream[1..];

        let mut reader = Reader::from_str(&input);
        reader.check_end_names(false);
        let found = reader.expect_element("r").map(|_| ());
        let left = drain(&mut reader);
        match closing(content, b"r") {
            Some(at) => {
                assert!(found.is_ok(), "input {:?}", input);
                assert_eq!(left, content[at + 1..].to_vec(), "input {:?}", input);
            }
            None => {
                assert!(matches!(found, Err(Error::Reader(_))), "input {:?}", input);
                assert!(left.is_empty(), "input {:?}", input);
            }
        }
    }
}

#[test]
fn expectations_agree_with_the_front_of_the_stream() {
    let pieces = ["<a>", "</a>", "<a/>", "<b/>", "t", "<", "<!--c-->", "<?p?>", "&lt;"];
    for document in documents(&pieces, 3) {
        let stream = {
            let mut reader = Reader::from_str(&document);
            reader.check_end_names(false);
            drain(&mut reader)
        };
        let front = stream.first().cloned();

        let mut reader = Reader::from_str(&document);
        reader.check_end_names(false);
        let found = reader.expect_empty("a");
        match &front {
            None => assert!(matches!(found, Err(Error::Eof))),
            Some(None) => assert!(matches!(found, Err(Error::Reader(_)))),
            Some(Some(Token::EmptyTag { name })) if name == b"a" => assert!(found.is_ok()),
            Some(Some(token)) => {
                assert!(matches!(found, Err(Error::UnexpectedEvent(seen)) if seen == *token))
            }
        }
        let rest = if matches!(front, Some(Some(_))) { stream[1..].to_vec() } else { Vec::new() };
        assert_eq!(drain(&mut reader), rest, "document {:?}", document);

        let mut reader = Reader::from_str(&document);
        reader.check_end_names(false);
        let found = reader.expect_text();
        match &front {
            None => assert!(matches!(found, Err(Error::Eof))),
            Some(None) => assert!(matches!(found, Err(Error::Reader(_)))),
            Some(Some(Token::Text { content })) => {
                let expected = String::from_utf8(content.clone()).unwrap().replace("&lt;", "<");
                assert_eq!(found.unwrap(), expected);
            }
            Some(Some(token)) => {
                assert!(matches!(found, Err(Error::UnexpectedEvent(seen)) if seen == *token))
            }
        }
        assert_eq!(drain(&mut reader), rest, "document {:?}", document);
    }
}

#[test]
fn no_small_input_makes_an_expectation_panic() {
    let pieces = ["<", ">", "/", "!", "-", "?", "a", " ", "&", ";", "[", "\"", "="];
    for document in documents(&pieces, 4) {
        let _ = drain(&mut Reader::from_str(&document));
        let mut reader = Reader::from_str(&document);
        reader.trim_text(true);
        let _ = reader.expect_element("a").map(|inner| inner.read_inner(|inner| inner.expect_eof()));
        let _ = reader.expect_empty("a");
        let _ = reader.expect_text();
        let _ = reader.expect_eof();
    }
}
