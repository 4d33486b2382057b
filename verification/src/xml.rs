use vstd::prelude::*;

use crate::extract::{extract_records, records_of};
use crate::record::{records_view, Record};
use crate::token::{tokens_view, Token, TokenModel};

use quick_xml::events::Event;

verus! {

/// Failure of the structural walk: the tokenizer could not read or decode
/// the next event. Any such failure aborts the document's extraction.
#[derive(Debug)]
pub struct XmlError {
    pub message: String,
}

#[verifier::external_type_specification]
#[verifier::external_body]
#[verifier::reject_recursive_types(R)]
pub struct ExReader<R>(quick_xml::Reader<R>);

#[verifier::external_type_specification]
#[verifier::external_body]
#[verifier::reject_recursive_types(T)]
pub struct ExCursor<T>(std::io::Cursor<T>);

#[verifier::external_type_specification]
#[verifier::external_body]
pub struct ExBytesStart<'a>(quick_xml::events::BytesStart<'a>);

#[verifier::external_type_specification]
#[verifier::external_body]
pub struct ExBytesEnd<'a>(quick_xml::events::BytesEnd<'a>);

#[verifier::external_type_specification]
#[verifier::external_body]
pub struct ExBytesText<'a>(quick_xml::events::BytesText<'a>);

#[verifier::external_type_specification]
#[verifier::external_body]
pub struct ExError(quick_xml::Error);

/// Relies on quick_xml's Reader::from_reader and Reader::trim_text: a reader
/// over the given bytes that trims surrounding whitespace from text events
/// and so never yields whitespace-only text.
#[verifier::external_body]
fn reader_from_bytes(xml: Vec<u8>) -> quick_xml::Reader<std::io::Cursor<Vec<u8>>> {
    let mut r = quick_xml::Reader::from_reader(std::io::Cursor::new(xml));
    r.trim_text(true);
    r
}

/// Relies on quick_xml's BytesStart::local_name: the tag's name with any
/// namespace prefix stripped, read as text.
#[verifier::external_body]
fn name_of(e: &quick_xml::events::BytesStart<'_>) -> String {
    String::from_utf8_lossy(e.local_name().as_ref()).to_string()
}

/// Relies on quick_xml's BytesStart::attributes and Attribute::unescape_value:
/// each readable attribute's local key with its decoded value, in document
/// order; an attribute that cannot be read is skipped, and a value that
/// cannot be decoded reads as empty.
#[verifier::external_body]
fn attrs_of(e: &quick_xml::events::BytesStart<'_>) -> Vec<(String, String)> {
    let mut out = Vec::new();
    for a in e.attributes().flatten() {
        let k = String::from_utf8_lossy(a.key.local_name().as_ref()).to_string();
        let v = a.unescape_value().map(|c| c.to_string()).unwrap_or_default();
        out.push((k, v));
    }
    out
}

/// Relies on quick_xml's BytesEnd::local_name: the closed tag's name with
/// any namespace prefix stripped, read as text.
#[verifier::external_body]
fn end_name_of(e: &quick_xml::events::BytesEnd<'_>) -> String {
    String::from_utf8_lossy(e.local_name().as_ref()).to_string()
}

/// Relies on quick_xml's BytesText::unescape: the decoded character content,
/// or the decoding error.
#[verifier::external_body]
fn text_of(t: &quick_xml::events::BytesText<'_>) -> Result<String, XmlError> {
    match t.unescape() {
        Ok(c) => Ok(c.to_string()),
        Err(e) => Err(failure(e)),
    }
}

/// Relies on quick_xml's Error and its display form: the tokenizer's failure,
/// carried as its message.
#[verifier::external_body]
fn failure(e: quick_xml::Error) -> XmlError {
    XmlError { message: format!("{}", e) }
}

/// Relies on quick_xml's Reader::read_event_into: the next structural event
/// of the document, with element names local, text unescaped and attributes
/// decoded; `None` at the end of the document. Returns Err exactly when the
/// tokenizer cannot read or decode the next event.
#[verifier::external_body]
fn read_token(r: &mut quick_xml::Reader<std::io::Cursor<Vec<u8>>>) -> Result<Option<Token>, XmlError> {
    let mut buf = Vec::new();
    match r.read_event_into(&mut buf) {
        Ok(Event::Start(e)) => Ok(Some(Token::Open { name: name_of(&e), attrs: attrs_of(&e) })),
        Ok(Event::Empty(e)) => Ok(Some(Token::SelfClose { name: name_of(&e), attrs: attrs_of(&e) })),
        Ok(Event::End(e)) => Ok(Some(Token::Close { name: end_name_of(&e) })),
        Ok(Event::Text(t)) => text_of(&t).map(|content| Some(Token::Text { content })),
        Ok(Event::Eof) => Ok(None),
        Ok(_) => Ok(Some(Token::Other)),
        Err(e) => Err(failure(e)),
    }
}

/// Reads the whole event stream of one document, in order. Every event of a
/// document occupies at least one of its bytes, so a document of `n` bytes
/// yields at most `n` events before the end marker; a stream that is still
/// going past that is reported as an error rather than walked forever.
fn tokenize(xml: Vec<u8>) -> (res: Result<Vec<Token>, XmlError>) {
    let limit: usize = if xml.len() < usize::MAX - 1 {
        xml.len() + 2
    } else {
        usize::MAX
    };
    let mut reader = reader_from_bytes(xml);
    let mut toks: Vec<Token> = Vec::new();
    let mut count: usize = 0;
    while count < limit
        invariant
            count <= limit,
        decreases limit - count,
    {
        match read_token(&mut reader) {
            Ok(Some(t)) => toks.push(t),
            Ok(None) => {
                return Ok(toks);
            },
            Err(e) => {
                return Err(e);
            },
        }
        count = count + 1;
    }
    Err(XmlError { message: String::new() })
}

/// Parses one travel-document feed: the external tokenizer turns the bytes
/// into structural events, and the verified extractor walks them. On success
/// the rows are exactly `records_of` of the events that were read, one row
/// per transaction-closing element, in document order; on a malformed
/// document the first tokenizer error is returned instead.
pub fn parse_document(xml: Vec<u8>) -> (res: Result<Vec<Record>, XmlError>)
    ensures
        res matches Ok(rows) ==> exists|toks: Seq<TokenModel>|
            records_view(rows@) == #[trigger] records_of(toks),
{
    let toks = match tokenize(xml) {
        Ok(t) => t,
        Err(e) => {
            return Err(e);
        },
    };
    let rows = extract_records(&toks);
    proof {
        let w = tokens_view(toks@);
        assert(records_view(rows@) == records_of(w));
    }
    Ok(rows)
}

} // verus!
