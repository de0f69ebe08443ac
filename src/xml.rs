//! The events of an XML document held in memory, as quick-xml reads them.
use quick_xml::events::{BytesCData, BytesDecl, BytesEnd, BytesPI, BytesStart, BytesText, Event};
use quick_xml::Reader;
use vstd::prelude::*;

verus! {

#[verifier::external_type_specification]
#[verifier::external_body]
pub struct ExBytesStart<'a>(BytesStart<'a>);

#[verifier::external_type_specification]
#[verifier::external_body]
pub struct ExBytesEnd<'a>(BytesEnd<'a>);

#[verifier::external_type_specification]
#[verifier::external_body]
pub struct ExBytesText<'a>(BytesText<'a>);

#[verifier::external_type_specification]
#[verifier::external_body]
pub struct ExBytesCData<'a>(BytesCData<'a>);

#[verifier::external_type_specification]
#[verifier::external_body]
pub struct ExBytesDecl<'a>(BytesDecl<'a>);

#[verifier::external_type_specification]
#[verifier::external_body]
pub struct ExBytesPI<'a>(BytesPI<'a>);

#[verifier::external_type_specification]
pub struct ExEvent<'a>(Event<'a>);

/// One attribute of a start tag: its name and its raw value.
#[derive(Clone, Debug)]
pub struct XmlAttribute {
    pub key: String,
    pub value: String,
}

/// An event of an XML document, with names and texts as plain strings.
#[derive(Clone, Debug)]
pub enum XmlEvent {
    /// A start tag, or an empty-element tag when `self_closing`. An attribute
    /// that could not be read is `None`.
    Start { name: String, attributes: Vec<Option<XmlAttribute>>, self_closing: bool },
    /// An end tag.
    End { name: String },
    /// Character data between tags, unescaped and trimmed.
    Text { text: String },
    /// A comment, a CDATA section, a declaration or an instruction.
    Other,
    /// The end of the document.
    Eof,
}

/// The events, up to but not including the end, that quick-xml reads from a
/// document with blank text skipped and text trimmed; none when it reports
/// an error. Each event is taken as `event_of` gives it.
pub uninterp spec fn xml_events(doc: Seq<u8>) -> Option<Seq<XmlEvent>>;

/// Relies on quick_xml's `BytesStart::name`: the tag's name, decoded lossily.
#[verifier::external_body]
fn start_name(e: &BytesStart) -> String {
    String::from_utf8_lossy(e.name().as_ref()).into_owned()
}

/// Relies on quick_xml's `BytesStart::attributes`: each attribute in order,
/// key and raw value decoded lossily, `None` for one it could not read.
#[verifier::external_body]
fn start_attributes(e: &BytesStart) -> Vec<Option<XmlAttribute>> {
    e.attributes().map(|a| a.ok().map(|a| XmlAttribute {
        key: String::from_utf8_lossy(a.key.as_ref()).into_owned(),
        value: String::from_utf8_lossy(&a.value).into_owned(),
    })).collect()
}

/// Relies on quick_xml's `BytesEnd::name`: the tag's name, decoded lossily.
#[verifier::external_body]
fn end_name(e: &BytesEnd) -> String {
    String::from_utf8_lossy(e.name().as_ref()).into_owned()
}

/// Relies on quick_xml's `BytesText::unescape`: the text with its entities
/// resolved, or empty when they cannot be.
#[verifier::external_body]
fn text_content(e: &BytesText) -> String {
    e.unescape().unwrap_or_default().into_owned()
}

/// An event of quick-xml as plain strings.
pub fn event_of(e: &Event) -> XmlEvent {
    match e {
        Event::Start(s) => XmlEvent::Start {
            name: start_name(s),
            attributes: start_attributes(s),
            self_closing: false,
        },
        Event::Empty(s) => XmlEvent::Start {
            name: start_name(s),
            attributes: start_attributes(s),
            self_closing: true,
        },
        Event::End(s) => XmlEvent::End { name: end_name(s) },
        Event::Text(s) => XmlEvent::Text { text: text_content(s) },
        Event::Eof => XmlEvent::Eof,
        _ => XmlEvent::Other,
    }
}

/// Relies on quick_xml's `Reader::from_reader` over the bytes, set with
/// `trim_text(true)`, and `Reader::read_event` called until the end or the
/// first error: the events read, or that error in words.
#[verifier::external_body]
pub(crate) fn read_events(bytes: &[u8]) -> (r: Result<Vec<XmlEvent>, String>)
    ensures
        r is Ok <==> xml_events(bytes@) is Some,
        r is Ok ==> r->Ok_0@ == xml_events(bytes@)->Some_0,
{
    let mut reader = Reader::from_reader(bytes);
    reader.config_mut().trim_text(true);
    std::iter::from_fn(|| match reader.read_event() {
        Ok(Event::Eof) => None,
        e => Some(e.map(|e| event_of(&e)).map_err(|e| e.to_string())),
    }).collect()
}

} // verus!
